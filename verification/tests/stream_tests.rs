use bird::bookmarks::{
    bookmark_rows, bookmarks_page_url, stream_close, stream_item, stream_open,
    try_bookmarks_page_url,
};
use bird::output::success_envelope_string;
use bird::profile::{profile_status_failure, try_profile_url};
use bird::cli::dispatch::{build_dry_run_url, parse_param_vec, ParamMap};
use bird::raw::{raw_failure_message, raw_url};

#[test]
fn bookmark_stream_framing_compact() {
    let mut out = String::new();
    out.push_str(stream_open(false));
    out.push_str(&stream_item(true, false, "{\"id\":\"1\"}"));
    out.push_str(&stream_item(false, false, "{\"id\":\"2\"}"));
    out.push_str(&stream_close(false, None));
    assert_eq!(out, "{\"data\":[{\"id\":\"1\"},{\"id\":\"2\"}]}\n");
    let v: serde_json::Value = serde_json::from_str(&out).expect("valid json");
    assert_eq!(v["data"][1]["id"], "2");
}

#[test]
fn bookmark_stream_framing_with_cursor() {
    let compact = stream_close(false, Some("abc"));
    assert_eq!(compact, "],\"meta\":{\"next_cursor\":\"abc\"}}\n");
    let pretty = stream_close(true, Some("abc"));
    assert_eq!(pretty, "\n  ],\n  \"meta\": { \"next_cursor\": \"abc\" }\n}\n");
    assert_eq!(stream_close(true, None), "\n  ]\n}\n");
    let mut out = String::new();
    out.push_str(stream_open(true));
    out.push_str(&stream_item(true, true, "{\n  \"id\": \"1\"\n}"));
    out.push_str(&stream_close(true, Some("c\"1")));
    let v: serde_json::Value = serde_json::from_str(&out).expect("valid json");
    assert_eq!(v["meta"]["next_cursor"], "c\"1");
}

#[test]
fn bookmark_stream_pretty_item_indents_lines() {
    let item = stream_item(false, true, "{\n  \"id\": \"1\"\n}");
    assert_eq!(item, ",\n    {\n      \"id\": \"1\"\n    }\n");
}

#[test]
fn bookmark_page_urls() {
    let u = bookmarks_page_url("42", 100, None);
    assert!(u.starts_with("https://api.x.com/2/users/42/bookmarks?max_results=100&tweet.fields="));
    assert!(u.contains("&expansions=attachments.media_keys%2Cauthor_id%2Creferenced_tweets.id"));
    assert!(!u.contains("pagination_token"));
    let t = try_bookmarks_page_url("42", 5, Some("tok")).expect("parses");
    assert!(t.starts_with("https://api.x.com/2/users/42/bookmarks?max_results=5&"));
    assert!(t.ends_with("&pagination_token=tok"));
}

#[test]
fn bookmark_rows_number_items_with_ids() {
    let ids = vec![Some("a".to_string()), None, Some("b".to_string())];
    let rows = bookmark_rows("me", &ids, 3, 1700);
    assert_eq!(rows.len(), 2);
    assert_eq!((rows[0].tweet_id.as_str(), rows[0].position), ("a", 3));
    assert_eq!((rows[1].tweet_id.as_str(), rows[1].position), ("b", 4));
    assert!(rows.iter().all(|r| r.username == "me" && r.refreshed_at == 1700));
}

#[test]
fn raw_urls() {
    assert_eq!(raw_url("/2/users/me", &Vec::new()), Ok("https://api.x.com/2/users/me".to_string()));
    let q = vec!["query=rust lang".to_string(), "bad".to_string(), "max_results=10".to_string()];
    assert_eq!(
        raw_url("/2/tweets/search/recent", &q),
        Ok("https://api.x.com/2/tweets/search/recent?query=rust+lang&max_results=10".to_string())
    );
    assert_eq!(
        raw_url("/2/tweets?ids=1", &vec!["x=y".to_string()]),
        Ok("https://api.x.com/2/tweets?ids=1&x=y".to_string())
    );
    assert_eq!(raw_url(":99999", &Vec::new()), Err("invalid port number".to_string()));
    let none = ParamMap::new();
    assert_eq!(build_dry_run_url(":99999", &none, &Vec::new()), None);
    assert_eq!(
        build_dry_run_url("/2/tweets", &none, &vec!["a=b=c".to_string()]),
        Some("https://api.x.com/2/tweets?a=b%3Dc".to_string())
    );
    let params = parse_param_vec(&["id=42".to_string()]);
    assert_eq!(
        build_dry_run_url("/2/tweets/{id}", &params, &Vec::new()),
        Some("https://api.x.com/2/tweets/42".to_string())
    );
    assert_eq!(build_dry_run_url("/2/tweets/{id}", &none, &Vec::new()), None);
}

#[test]
fn raw_failure_text() {
    assert_eq!(raw_failure_message("get", 404, "not\nfound"), "get 404: not?found");
    let long = "x".repeat(300);
    assert_eq!(raw_failure_message("POST", 500, &long), format!("POST 500: {}", "x".repeat(200)));
}

#[test]
fn profile_urls_and_failures() {
    let u = try_profile_url("jack").expect("parses");
    assert_eq!(
        u,
        "https://api.x.com/2/users/by/username/jack?user.fields=created_at%2Cdescription%2Clocation%2Cname%2Cprofile_image_url%2Cpublic_metrics%2Curl%2Cusername%2Cverified"
    );
    assert_eq!(profile_status_failure(429, "slow\u{1b}down"), "GET profile 429: slow?down");
}

#[test]
fn success_envelope_frames_data_and_meta() {
    assert_eq!(success_envelope_string("{\"a\":1}", "{}"), "{\"data\":{\"a\":1},\"meta\":{}}");
}

#[test]
fn build_dry_run_url_assembles_absolute_url() {
    let params = ParamMap::new();
    let query: Vec<String> = Vec::new();
    let url = build_dry_run_url("/2/users/me", &params, &query);
    assert_eq!(url.as_deref(), Some("https://api.x.com/2/users/me"));
}

#[test]
fn success_envelope_has_data_and_meta_keys() {
    let s = success_envelope_string("{\"id\":\"abc\"}", "{}");
    let parsed: serde_json::Value = serde_json::from_str(&s).expect("parse");
    assert!(parsed.get("data").is_some(), "envelope must have data");
    assert!(parsed.get("meta").is_some(), "envelope must have meta");
}
