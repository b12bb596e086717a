use bird::cli::AuthType;
use bird::db::client::{auth_type_to_xurl_wire, is_success, request_username, CacheOpts};
use bird::db::entity::{compute_raw_cache_key, encode, is_entity_endpoint, normalize_url, EntityType};
use bird::db::get::{
    batch_action, extract_batch_ids, extract_single_tweet_id, extract_username_from_url,
    merge_order, plan_get, rebuild_url_with_ids, store_action, BatchAction, GetPlan, MergeSource,
    StoreAction, StoreLookup,
};
use bird::db::normalize_endpoint;
use bird::db::store::{is_stale, partition_ids, CacheStats, StoreStats, TweetRow};
use bird::db::usage::{date_ymd, object_type, prune_due, usage_cutoff};

#[test]
fn cache_hex_encode() {
    assert_eq!(encode(&[0xde, 0xad, 0xbe, 0xef]), "deadbeef");
    assert_eq!(encode(&[]), "");
}

#[test]
fn mod_hex_encode() {
    assert_eq!(encode(&[0x00, 0x0f, 0xf0, 0xff]), "000ff0ff");
}

#[test]
fn client_cache_opts_default() {
    let opts = CacheOpts::default();
    assert!(!opts.no_store);
    assert!(!opts.refresh);
    assert!(!opts.cache_only);
}

#[test]
fn mod_cache_opts_default() {
    let opts = CacheOpts::default();
    assert!(!opts.no_store && !opts.refresh && !opts.cache_only);
}

#[test]
fn auth_type_wire_mapping() {
    assert_eq!(auth_type_to_xurl_wire(&AuthType::OAuth2User), "");
    assert_eq!(auth_type_to_xurl_wire(&AuthType::OAuth1), "oauth1");
    assert_eq!(auth_type_to_xurl_wire(&AuthType::Bearer), "app");
    assert_eq!(auth_type_to_xurl_wire(&AuthType::NoAuth), "");
}

#[test]
fn raw_template_request_translates_auth_type_to_wire() {
    assert_eq!(auth_type_to_xurl_wire(&AuthType::OAuth2User), "");
    assert_eq!(auth_type_to_xurl_wire(&AuthType::OAuth1), "oauth1");
    assert_eq!(auth_type_to_xurl_wire(&AuthType::Bearer), "app");
    assert_eq!(auth_type_to_xurl_wire(&AuthType::NoAuth), "");
}

#[test]
fn request_username_precedence() {
    assert_eq!(request_username(Some("a"), Some("b")), "a");
    assert_eq!(request_username(None, Some("b")), "b");
    assert_eq!(request_username(None, None), "");
    assert!(is_success(200) && is_success(299) && !is_success(300) && !is_success(199));
}

#[test]
fn mod_normalize_endpoint_search_recent() {
    assert_eq!(
        normalize_endpoint("https://api.x.com/2/tweets/search/recent?query=test"),
        "/2/tweets/search/recent"
    );
}

#[test]
fn mod_normalize_endpoint_users_me() {
    assert_eq!(normalize_endpoint("https://api.x.com/2/users/me"), "/2/users/me");
}

#[test]
fn mod_normalize_endpoint_tweet_by_id() {
    assert_eq!(normalize_endpoint("https://api.x.com/2/tweets/1234567890"), "/2/tweets/:id");
}

#[test]
fn mod_normalize_endpoint_user_bookmarks() {
    assert_eq!(
        normalize_endpoint("https://api.x.com/2/users/123/bookmarks"),
        "/2/users/:id/bookmarks"
    );
}

#[test]
fn mod_normalize_endpoint_username_lookup() {
    assert_eq!(
        normalize_endpoint("https://api.x.com/2/users/by/username/jack"),
        "/2/users/by/username/:username"
    );
}

#[test]
fn mod_normalize_endpoint_usage_tweets() {
    assert_eq!(
        normalize_endpoint("https://api.x.com/2/usage/tweets?usage.fields=daily_project_usage"),
        "/2/usage/tweets"
    );
}

#[test]
fn normalize_endpoint_strips_query() {
    let url = "https://api.x.com/2/tweets/search/recent?query=rust&max_results=100";
    assert_eq!(normalize_endpoint(url), "/2/tweets/search/recent");
}

#[test]
fn normalize_endpoint_unparseable_keeps_text() {
    assert_eq!(normalize_endpoint("/2/tweets/99"), "/2/tweets/:id");
    assert_eq!(normalize_endpoint("/2/tweets/9"), "/2/tweets/9");
}

#[test]
fn entity_entity_endpoint_classification() {
    assert_eq!(is_entity_endpoint("/2/tweets/search/recent"), Some(EntityType::Tweet));
    assert_eq!(is_entity_endpoint("/2/tweets/123"), Some(EntityType::Tweet));
    assert_eq!(is_entity_endpoint("/2/tweets"), Some(EntityType::Tweet));
    assert_eq!(is_entity_endpoint("/2/users/me"), Some(EntityType::User));
    assert_eq!(is_entity_endpoint("/2/users/by/username/jack"), Some(EntityType::User));
    assert_eq!(is_entity_endpoint("/2/users/123/bookmarks"), Some(EntityType::Tweet));
    assert_eq!(is_entity_endpoint("/2/usage/tweets"), None);
    assert_eq!(is_entity_endpoint("/2/tweets/search/counts/recent"), None);
    assert_eq!(is_entity_endpoint("/2/oauth2/token"), None);
}

#[test]
fn entity_raw_cache_key_deterministic() {
    let key1 = compute_raw_cache_key("GET", "https://api.x.com/2/users/me");
    let key2 = compute_raw_cache_key("GET", "https://api.x.com/2/users/me");
    assert_eq!(key1, key2);
    assert_eq!(key1.len(), 64);
    let key3 = compute_raw_cache_key("POST", "https://api.x.com/2/users/me");
    assert_ne!(key1, key3);
}

#[test]
fn entity_raw_cache_key_normalizes_ids() {
    let key1 = compute_raw_cache_key("GET", "https://api.x.com/2/tweets?ids=3,1,2");
    let key2 = compute_raw_cache_key("GET", "https://api.x.com/2/tweets?ids=1,2,3");
    assert_eq!(key1, key2, "ID order should not affect cache key");
}

#[test]
fn normalize_url_sorts_params() {
    assert_eq!(
        normalize_url("https://api.x.com/2/tweets?ids=456,123&tweet.fields=text,author_id"),
        "https://api.x.com/2/tweets?ids=123,456&tweet.fields=text,author_id"
    );
    assert_eq!(
        normalize_url("https://api.x.com/2/tweets?tweet.fields=text&ids=123"),
        "https://api.x.com/2/tweets?ids=123&tweet.fields=text"
    );
    assert_eq!(normalize_url("https://api.x.com/2/users/me"), "https://api.x.com/2/users/me");
    assert_eq!(normalize_url("not a url"), "not a url");
}

#[test]
fn get_batch_ids_extraction() {
    let p = |v: &[(&str, &str)]| -> Vec<(String, String)> {
        v.iter().map(|(a, b)| (a.to_string(), b.to_string())).collect()
    };
    assert_eq!(
        extract_batch_ids(&p(&[("ids", "1,2,3"), ("tweet.fields", "text")])),
        Some(vec!["1".to_string(), "2".to_string(), "3".to_string()])
    );
    assert_eq!(
        extract_batch_ids(&p(&[("usernames", "alice, bob,")])),
        Some(vec!["alice".to_string(), "bob".to_string()])
    );
    assert!(extract_batch_ids(&p(&[("query", "rust")])).is_none());
    assert!(extract_batch_ids(&p(&[("ids", " , ")])).is_none());
}

#[test]
fn get_single_tweet_id_extraction() {
    assert_eq!(extract_single_tweet_id("/2/tweets/1234567890"), Some("1234567890".to_string()));
    assert!(extract_single_tweet_id("/2/tweets/search/recent").is_none());
    assert!(extract_single_tweet_id("/2/tweets/1").is_none());
}

#[test]
fn get_username_extraction() {
    assert_eq!(extract_username_from_url("/2/users/by/username/jack"), Some("jack".to_string()));
    assert!(extract_username_from_url("/2/users/me").is_none());
}

#[test]
fn get_url_rebuild_with_ids() {
    let url = "https://api.x.com/2/tweets?ids=1,2,3&tweet.fields=text";
    let rebuilt = rebuild_url_with_ids(url, &vec!["2".to_string(), "3".to_string()]);
    assert!(rebuilt.contains("ids=2%2C3") || rebuilt.contains("ids=2,3"));
    assert!(rebuilt.contains("tweet.fields=text"));
    assert!(!rebuilt.contains("ids=1"));
}

#[test]
fn get_plan_routes() {
    let opts = CacheOpts::default();
    assert!(matches!(plan_get(opts, false, "https://api.x.com/2/users/me"), GetPlan::Direct));
    assert!(matches!(plan_get(opts, true, "not a url"), GetPlan::InvalidUrl));
    match plan_get(opts, true, "https://api.x.com/2/tweets?ids=1,2") {
        GetPlan::Store { entity: Some(EntityType::Tweet), lookup: StoreLookup::Batch(ids) } => {
            assert_eq!(ids, vec!["1".to_string(), "2".to_string()])
        }
        other => panic!("unexpected plan {other:?}"),
    }
    match plan_get(opts, true, "https://api.x.com/2/users/by/username/jack") {
        GetPlan::Store { entity: Some(EntityType::User), lookup: StoreLookup::User(u) } => assert_eq!(u, "jack"),
        other => panic!("unexpected plan {other:?}"),
    }
    let refresh = CacheOpts { refresh: true, ..CacheOpts::default() };
    assert!(matches!(
        plan_get(refresh, true, "https://api.x.com/2/tweets/12345"),
        GetPlan::Store { lookup: StoreLookup::NoLookup, .. }
    ));
    assert!(matches!(
        plan_get(opts, true, "https://api.x.com/2/usage/tweets"),
        GetPlan::Store { entity: None, lookup: StoreLookup::NoLookup }
    ));
}

#[test]
fn batch_and_store_actions() {
    assert_eq!(batch_action(0, 3, false), BatchAction::ServeStore);
    assert_eq!(batch_action(2, 0, true), BatchAction::NotInStore);
    assert_eq!(batch_action(2, 1, true), BatchAction::ServeStore);
    assert_eq!(batch_action(2, 0, false), BatchAction::FetchAll);
    assert_eq!(batch_action(2, 1, false), BatchAction::FetchMissing);
    assert_eq!(store_action(true, 200, true), StoreAction::Decompose);
    assert_eq!(store_action(false, 204, true), StoreAction::StoreRaw);
    assert_eq!(store_action(true, 404, true), StoreAction::Skip);
    assert_eq!(store_action(true, 200, false), StoreAction::Skip);
}

#[test]
fn merge_keeps_requested_order() {
    let s = |v: &[&str]| -> Vec<String> { v.iter().map(|x| x.to_string()).collect() };
    let order = merge_order(&s(&["1", "2", "3", "4"]), &s(&["3", "1"]), &s(&["2"]));
    assert_eq!(order, vec![MergeSource::Api(1), MergeSource::Store(0), MergeSource::Api(0)]);
}

fn row(id: &str, ts: i64) -> TweetRow {
    TweetRow { id: id.into(), author_id: None, conversation_id: None, raw_json: "{}".into(), last_refreshed_at: ts }
}

#[test]
fn tweets_is_stale_rules() {
    let day = 86_400i64;
    let today = (1_700_000_000i64 / day + 719_163) as i32;
    assert!(!is_stale(1_700_000_000, today));
    assert!(is_stale(1_700_000_000 - day, today));
    assert!(is_stale(0, today));
    let midnight = (1_700_000_000 / day) * day;
    assert!(!is_stale(midnight, today));
    assert!(is_stale(midnight - 1, today));
}

#[test]
fn tweets_partition_ids_mixed() {
    let day = 86_400i64;
    let now = 1_700_000_000i64;
    let today = (now / day + 719_163) as i32;
    let ids: Vec<String> = vec!["a".into(), "b".into(), "c".into()];
    let (fresh, fetch) = partition_ids(&ids, vec![row("a", now), row("b", now - 2 * day)], today);
    assert_eq!(fresh.len(), 1);
    assert_eq!(fresh[0].id, "a");
    assert_eq!(fetch, vec!["b".to_string(), "c".to_string()]);
    let (f2, t2) = partition_ids(&[], vec![], today);
    assert!(f2.is_empty() && t2.is_empty());
}

#[test]
fn stats_health_and_usage_rules() {
    let s = StoreStats { tweet_count: 1, user_count: 1, bookmark_count: 0, raw_response_count: 0, total_size_bytes: 10, max_size_bytes: 20 };
    assert!(s.healthy());
    let c = CacheStats { entry_count: 0, total_size_bytes: 20, max_size_bytes: 20, oldest_seconds_ago: None, newest_seconds_ago: None };
    assert!(!c.healthy());
    assert_eq!(date_ymd(2024, 3, 9), 20240309);
    assert_eq!(usage_cutoff(8_000_000), 8_000_000 - 7_776_000);
    assert!(prune_due(50) && !prune_due(49));
    assert_eq!(object_type(0, 2), "user");
    assert_eq!(object_type(1, 2), "tweet");
    assert_eq!(object_type(0, 0), "none");
}

use bird::cache::{compute_cache_key, default_ttl_for_endpoint, effective_ttl, should_skip_cache};
use bird::bookmarks::{after_page, bookmark_opts, emit_count, page_query, page_size, PageNext};
use bird::cli::dispatch::ListFlags;
use bird::cost::{cost_message, estimate_cost, estimate_raw_cost, CostEstimate, DataShape, ResponseShape};

#[test]
fn should_skip_oauth_and_pagination() {
    assert!(should_skip_cache("https://api.x.com/2/oauth2/token"));
    assert!(should_skip_cache("https://api.x.com/2/users/123/bookmarks?pagination_token=abc"));
    assert!(should_skip_cache("https://api.x.com/2/tweets/search/recent?query=test&next_token=abc123"));
    assert!(!should_skip_cache("https://api.x.com/2/users/me"));
}

#[test]
fn ttl_defaults() {
    assert_eq!(default_ttl_for_endpoint("https://api.x.com/2/users/me"), 3600);
    assert_eq!(default_ttl_for_endpoint("https://api.x.com/2/users/by/username/jack"), 3600);
    assert_eq!(default_ttl_for_endpoint("https://api.x.com/2/tweets/search/recent?query=test"), 900);
    assert_eq!(default_ttl_for_endpoint("https://api.x.com/2/tweets/123"), 900);
    assert_eq!(default_ttl_for_endpoint("https://api.x.com/2/users/123/bookmarks"), 900);
    assert_eq!(default_ttl_for_endpoint("https://api.x.com/2/unknown"), 900);
    assert_eq!(effective_ttl(Some(100_000), "https://api.x.com/2/users/me"), 86_400);
    assert_eq!(effective_ttl(Some(60), "https://api.x.com/2/users/me"), 60);
    assert_eq!(effective_ttl(None, "https://api.x.com/2/users/me"), 3600);
}

#[test]
fn cache_key_includes_all_components() {
    let url = "https://api.x.com/2/users/me";
    let k1 = compute_cache_key("GET", url, &AuthType::OAuth2User, Some("alice"));
    let k2 = compute_cache_key("GET", url, &AuthType::Bearer, Some("alice"));
    let k3 = compute_cache_key("GET", url, &AuthType::OAuth2User, Some("bob"));
    let k4 = compute_cache_key("GET", url, &AuthType::OAuth1, Some("alice"));
    assert_ne!(k1, k2);
    assert_ne!(k1, k3);
    assert_ne!(k1, k4);
    assert_eq!(k1, compute_cache_key("GET", url, &AuthType::OAuth2User, Some("alice")));
}

#[test]
fn bookmark_paging() {
    let o = bookmark_opts(true, &ListFlags { limit: Some(5000), cursor: Some("c".into()) });
    assert_eq!(o.limit, 1000);
    assert_eq!(o.cursor.as_deref(), Some("c"));
    assert_eq!(bookmark_opts(false, &ListFlags::default()).limit, 100);
    assert_eq!(page_size(1000), 100);
    assert_eq!(page_size(0), 1);
    assert_eq!(page_size(40), 40);
    assert_eq!(emit_count(0, 10, 7), 7);
    assert_eq!(emit_count(5, 3, 7), 2);
    assert_eq!(emit_count(5, 5, 7), 0);
    assert!(matches!(after_page(5, 5, Some("t".into())), PageNext::Stop { next_cursor: Some(t) } if t == "t"));
    assert!(matches!(after_page(5, 2, Some("t".into())), PageNext::Continue(t) if t == "t"));
    assert!(matches!(after_page(0, 9, None), PageNext::Stop { next_cursor: None }));
    let q = page_query(100, Some("tok"));
    assert_eq!(q.len(), 6);
    assert_eq!(q[0], ("max_results".to_string(), "100".to_string()));
    assert_eq!(q[5], ("pagination_token".to_string(), "tok".to_string()));
    assert_eq!(page_query(7, None).len(), 5);
}

#[test]
fn cost_counts_and_message() {
    let shape = ResponseShape { data: DataShape::Array(3), included_users: Some(2), included_tweets: None };
    let c = estimate_cost(&shape, "https://api.x.com/2/tweets/search/recent", false);
    assert_eq!(c, CostEstimate { tweets_read: 3, users_read: 2, cache_hit: false });
    assert_eq!(estimate_raw_cost(&shape, "https://api.x.com/2/tweets/search/recent"), c);
    let u = estimate_cost(&ResponseShape { data: DataShape::Object, included_users: None, included_tweets: None }, "https://api.x.com/2/users/me", false);
    assert_eq!(u, CostEstimate { tweets_read: 0, users_read: 1, cache_hit: false });
    let b = estimate_cost(&ResponseShape { data: DataShape::Array(4), included_users: None, included_tweets: None }, "https://api.x.com/2/users/1/bookmarks", false);
    assert_eq!(b.tweets_read, 4);
    let hit = estimate_cost(&shape, "x", true);
    assert_eq!(hit, CostEstimate { tweets_read: 0, users_read: 0, cache_hit: true });
    assert_eq!(cost_message(&c, "0.0350"), "[cost] ~$0.0350 (3 tweets, 2 users, cache miss)");
    assert_eq!(cost_message(&CostEstimate { tweets_read: 1, users_read: 0, cache_hit: false }, "0.0050"), "[cost] ~$0.0050 (1 tweet, cache miss)");
    assert_eq!(cost_message(&CostEstimate { tweets_read: 0, users_read: 0, cache_hit: false }, "0"), "[cost] $0.00 (no billable objects, cache miss)");
    assert_eq!(cost_message(&hit, "0"), "[cost] $0.00 (from store)");
}

#[test]
fn hex_decoding_gives_back_the_bytes() {
    let bytes: Vec<u8> = vec![0x00, 0x7f, 0x80, 0xab, 0xff, 0x10];
    let hex = encode(&bytes);
    assert_eq!(hex.len(), 2 * bytes.len());
    assert!(hex.chars().all(|c| "0123456789abcdef".contains(c)));
    let decoded: Vec<u8> = (0..bytes.len())
        .map(|i| u8::from_str_radix(&hex[2 * i..2 * i + 2], 16).expect("hex"))
        .collect();
    assert_eq!(decoded, bytes);
}
