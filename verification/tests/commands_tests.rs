use bird::cli::commands::raw_write::{run_delete, run_post, run_put};
use bird::cli::commands::reads::{run_get, run_me};
use bird::cli::commands::watchlist::run_fetch;
use bird::cli::dispatch::ListFlags;
use bird::cli::AuthType;

fn strings(xs: &[&str]) -> Vec<String> {
    xs.iter().map(|s| s.to_string()).collect()
}

#[test]
fn me_is_a_get_of_the_authenticated_user() {
    let call = run_me(None);
    assert_eq!(call.command, "me");
    assert_eq!(call.method, "GET");
    assert_eq!(call.path, "/2/users/me");
    assert_eq!(call.params.len(), 0);
    assert!(call.query.is_empty());
    assert_eq!(call.body, None);
    assert_eq!(call.auth_type, AuthType::OAuth2User);
}

#[test]
fn me_takes_the_first_accepted_scheme() {
    let accepted = [AuthType::OAuth1, AuthType::Bearer];
    assert_eq!(run_me(Some(&accepted)).auth_type, AuthType::OAuth1);
    let none: [AuthType; 0] = [];
    assert_eq!(run_me(Some(&none)).auth_type, AuthType::OAuth2User);
}

#[test]
fn get_appends_cursor_and_clamped_limit() {
    let flags = ListFlags { limit: Some(5000), cursor: Some("tok".to_string()) };
    let call = run_get(
        "/2/tweets".to_string(),
        strings(&["ids=1", "junk", "ids=2"]),
        strings(&["a=b"]),
        &flags,
        None,
    );
    assert_eq!(call.command, "get");
    assert_eq!(call.method, "GET");
    assert_eq!(call.path, "/2/tweets");
    assert_eq!(call.params.get("ids").map(|s| s.as_str()), Some("2"));
    assert_eq!(call.query, strings(&["a=b", "pagination_token=tok", "max_results=1000"]));
    assert_eq!(call.body, None);
}

#[test]
fn get_without_list_flags_keeps_the_query() {
    let call = run_get("/2/x".to_string(), Vec::new(), strings(&["q=1"]), &ListFlags::default(), None);
    assert_eq!(call.query, strings(&["q=1"]));
    let small = ListFlags { limit: Some(0), cursor: None };
    let call = run_get("/2/x".to_string(), Vec::new(), Vec::new(), &small, None);
    assert_eq!(call.query, strings(&["max_results=100"]));
}

#[test]
fn delete_is_guarded_as_delete_at_the_resolved_url() {
    let w = run_delete("/2/tweets/{id}".to_string(), strings(&["id=9"]), Vec::new(), None);
    assert_eq!(w.verb, "delete");
    assert_eq!(w.call.method, "DELETE");
    assert_eq!(w.call.command, "delete");
    assert_eq!(w.target, "https://api.x.com/2/tweets/9");
    assert_eq!(w.call.body, None);
    assert_eq!(w.call.path, "/2/tweets/{id}");
}

#[test]
fn post_target_falls_back_to_the_bare_path() {
    let w = run_post(
        "/2/tweets/{id}/likes".to_string(),
        Vec::new(),
        strings(&["x=1"]),
        Some("{\"a\":1}".to_string()),
        None,
    );
    assert_eq!(w.verb, "POST");
    assert_eq!(w.call.method, "POST");
    assert_eq!(w.call.command, "post");
    assert_eq!(w.target, "https://api.x.com/2/tweets/{id}/likes");
    assert_eq!(w.call.body.as_deref(), Some("{\"a\":1}"));
}

#[test]
fn put_target_carries_the_query() {
    let w = run_put("/2/lists/7".to_string(), Vec::new(), strings(&["name=my list"]), None, None);
    assert_eq!(w.verb, "PUT");
    assert_eq!(w.call.command, "put");
    assert_eq!(w.target, "https://api.x.com/2/lists/7?name=my+list");
}

#[test]
fn watchlist_fetch_clamps_the_limit() {
    let f = run_fetch(true, &ListFlags { limit: Some(20000), cursor: Some("c".to_string()) }, None);
    assert!(f.pretty);
    assert_eq!(f.limit, 1000);
    assert_eq!(f.cursor.as_deref(), Some("c"));
    assert_eq!(f.auth_type, AuthType::OAuth2User);
    assert_eq!(run_fetch(false, &ListFlags::default(), None).limit, 100);
}
