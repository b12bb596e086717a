use bird::cache::compute_cache_key;
use bird::cli::AuthType;
use bird::db::entity::{compute_raw_cache_key, is_entity_endpoint, normalize_url, EntityType};
use bird::db::get::{
    extract_batch_ids, extract_single_tweet_id, extract_username_from_url, rebuild_url_with_ids,
};
use bird::db::normalize_endpoint;
use bird::db::store::{is_stale, partition_ids, TweetRow};
use chrono::{Datelike, TimeZone};

fn pairs(v: &[(&str, &str)]) -> Vec<(String, String)> {
    v.iter().map(|(a, b)| (a.to_string(), b.to_string())).collect()
}

fn day_of(dt: chrono::DateTime<chrono::Utc>) -> i32 {
    dt.date_naive().num_days_from_ce()
}

fn row(id: &str, ts: i64) -> TweetRow {
    TweetRow {
        id: id.into(),
        author_id: None,
        conversation_id: None,
        raw_json: format!("{{\"id\":\"{id}\"}}"),
        last_refreshed_at: ts,
    }
}

#[test]
fn client_entity_endpoint_classification() {
    assert_eq!(is_entity_endpoint("/2/tweets/search/recent"), Some(EntityType::Tweet));
    assert_eq!(is_entity_endpoint("/2/tweets/123"), Some(EntityType::Tweet));
    assert_eq!(is_entity_endpoint("/2/tweets"), Some(EntityType::Tweet));
    assert_eq!(is_entity_endpoint("/2/users/me"), Some(EntityType::User));
    assert_eq!(is_entity_endpoint("/2/users/by/username/jack"), Some(EntityType::User));
    assert_eq!(is_entity_endpoint("/2/users/123/bookmarks"), Some(EntityType::Tweet));
    assert!(is_entity_endpoint("/2/usage/tweets").is_none());
    assert!(is_entity_endpoint("/2/tweets/search/counts/recent").is_none());
    assert!(is_entity_endpoint("/2/oauth2/token").is_none());
}

#[test]
fn client_batch_ids_extraction() {
    assert_eq!(
        extract_batch_ids(&pairs(&[("ids", "1,2,3"), ("tweet.fields", "text")])),
        Some(vec!["1".to_string(), "2".to_string(), "3".to_string()])
    );
    assert_eq!(
        extract_batch_ids(&pairs(&[("usernames", "alice,bob")])),
        Some(vec!["alice".to_string(), "bob".to_string()])
    );
    assert!(extract_batch_ids(&pairs(&[("query", "rust")])).is_none());
    assert!(extract_batch_ids(&pairs(&[])).is_none());
}

#[test]
fn client_single_tweet_id_extraction() {
    assert_eq!(extract_single_tweet_id("/2/tweets/1234567890"), Some("1234567890".to_string()));
    assert!(extract_single_tweet_id("/2/tweets/search/recent").is_none());
    assert!(extract_single_tweet_id("/2/tweets/1").is_none());
}

#[test]
fn client_username_extraction() {
    assert_eq!(extract_username_from_url("/2/users/by/username/jack"), Some("jack".to_string()));
    assert!(extract_username_from_url("/2/users/me").is_none());
}

#[test]
fn client_url_rebuild_with_ids() {
    let url = "https://api.x.com/2/tweets?ids=1,2,3&tweet.fields=text";
    let rebuilt = rebuild_url_with_ids(url, &vec!["2".to_string(), "3".to_string()]);
    assert!(rebuilt.contains("ids=2%2C3") || rebuilt.contains("ids=2,3"));
    assert!(rebuilt.contains("tweet.fields=text"));
    assert!(!rebuilt.contains("ids=1"));
}

#[test]
fn client_raw_cache_key_deterministic() {
    let key1 = compute_raw_cache_key("GET", "https://api.x.com/2/users/me");
    let key2 = compute_raw_cache_key("GET", "https://api.x.com/2/users/me");
    assert_eq!(key1, key2);
    let key3 = compute_raw_cache_key("POST", "https://api.x.com/2/users/me");
    assert_ne!(key1, key3);
}

#[test]
fn client_raw_cache_key_normalizes_ids() {
    let key1 = compute_raw_cache_key("GET", "https://api.x.com/2/tweets?ids=3,1,2");
    let key2 = compute_raw_cache_key("GET", "https://api.x.com/2/tweets?ids=1,2,3");
    assert_eq!(key1, key2, "ID order should not affect cache key");
}

fn stale_different_day() {
    let yesterday_2359 = chrono::Utc.with_ymd_and_hms(2026, 2, 17, 23, 59, 59).single().expect("test");
    let now_today_0001 = chrono::Utc.with_ymd_and_hms(2026, 2, 18, 0, 0, 1).single().expect("test");
    assert!(is_stale(yesterday_2359.timestamp(), day_of(now_today_0001)));
}

fn stale_same_day() {
    let morning = chrono::Utc.with_ymd_and_hms(2026, 2, 18, 6, 0, 0).single().expect("test");
    let evening = chrono::Utc.with_ymd_and_hms(2026, 2, 18, 23, 59, 59).single().expect("test");
    assert!(!is_stale(morning.timestamp(), day_of(evening)));
}

fn stale_midnight_boundary() {
    let midnight = chrono::Utc.with_ymd_and_hms(2026, 2, 18, 0, 0, 0).single().expect("test");
    let later = chrono::Utc.with_ymd_and_hms(2026, 2, 18, 12, 0, 0).single().expect("test");
    assert!(!is_stale(midnight.timestamp(), day_of(later)));
}

fn stale_zero_timestamp() {
    let now = chrono::Utc::now();
    assert!(is_stale(0, day_of(now)));
}

#[test]
fn db_is_stale_different_day() {
    stale_different_day();
}

#[test]
fn db_is_stale_same_day() {
    stale_same_day();
}

#[test]
fn db_is_stale_midnight_boundary() {
    stale_midnight_boundary();
}

#[test]
fn db_is_stale_zero_timestamp() {
    stale_zero_timestamp();
}

#[test]
fn tweets_is_stale_different_day() {
    stale_different_day();
}

#[test]
fn tweets_is_stale_same_day() {
    stale_same_day();
}

#[test]
fn tweets_is_stale_midnight_boundary() {
    stale_midnight_boundary();
}

#[test]
fn tweets_is_stale_zero_timestamp() {
    stale_zero_timestamp();
}

#[test]
fn db_partition_ids_mixed() {
    let now = chrono::Utc::now();
    let ids: Vec<String> = vec!["fresh1".into(), "stale1".into(), "missing1".into()];
    let rows = vec![row("fresh1", now.timestamp()), row("stale1", 1000)];
    let (from_store, to_fetch) = partition_ids(&ids, rows, day_of(now));
    assert_eq!(from_store.len(), 1);
    assert_eq!(from_store[0].id, "fresh1");
    assert_eq!(to_fetch.len(), 2);
    assert!(to_fetch.contains(&"stale1".to_string()));
    assert!(to_fetch.contains(&"missing1".to_string()));
}

#[test]
fn db_partition_ids_empty() {
    let (from_store, to_fetch) = partition_ids(&[], Vec::new(), day_of(chrono::Utc::now()));
    assert!(from_store.is_empty());
    assert!(to_fetch.is_empty());
}

#[test]
fn tweets_partition_ids_empty() {
    let (from_store, to_fetch) = partition_ids(&[], Vec::new(), day_of(chrono::Utc::now()));
    assert!(from_store.is_empty());
    assert!(to_fetch.is_empty());
}

#[test]
fn cache_normalize_url_sorts_query_keys() {
    let url = "https://api.x.com/2/tweets?tweet.fields=text&ids=123";
    assert_eq!(normalize_url(url), "https://api.x.com/2/tweets?ids=123&tweet.fields=text");
}

#[test]
fn cache_normalize_url_no_query() {
    let url = "https://api.x.com/2/users/me";
    assert_eq!(normalize_url(url), url);
}

#[test]
fn mod_normalize_url_sorts_query_keys() {
    let url = "https://api.x.com/2/tweets?tweet.fields=text&ids=123";
    assert_eq!(normalize_url(url), "https://api.x.com/2/tweets?ids=123&tweet.fields=text");
}

#[test]
fn mod_normalize_url_no_query() {
    let url = "https://api.x.com/2/users/me";
    assert_eq!(normalize_url(url), url);
}

#[test]
fn cache_normalize_endpoint_search_recent() {
    assert_eq!(
        normalize_endpoint("https://api.x.com/2/tweets/search/recent?query=test"),
        "/2/tweets/search/recent"
    );
}

#[test]
fn cache_normalize_endpoint_users_me() {
    assert_eq!(normalize_endpoint("https://api.x.com/2/users/me"), "/2/users/me");
}

#[test]
fn cache_normalize_endpoint_tweet_by_id() {
    assert_eq!(normalize_endpoint("https://api.x.com/2/tweets/1234567890"), "/2/tweets/:id");
}

#[test]
fn cache_normalize_endpoint_user_bookmarks() {
    assert_eq!(
        normalize_endpoint("https://api.x.com/2/users/123/bookmarks"),
        "/2/users/:id/bookmarks"
    );
}

#[test]
fn cache_normalize_endpoint_username_lookup() {
    assert_eq!(
        normalize_endpoint("https://api.x.com/2/users/by/username/jack"),
        "/2/users/by/username/:username"
    );
}

#[test]
fn cache_normalize_endpoint_usage_tweets() {
    assert_eq!(
        normalize_endpoint("https://api.x.com/2/usage/tweets?usage.fields=daily_project_usage"),
        "/2/usage/tweets"
    );
}

#[test]
fn cache_normalize_endpoint_full_url_strips_query() {
    let url = "https://api.x.com/2/tweets/search/recent?query=rust&max_results=100";
    assert_eq!(normalize_endpoint(url), "/2/tweets/search/recent");
}

#[test]
fn mod_normalize_endpoint_full_url_strips_query() {
    let url = "https://api.x.com/2/tweets/search/recent?query=rust&max_results=100";
    assert_eq!(normalize_endpoint(url), "/2/tweets/search/recent");
}

#[test]
fn oauth1_cache_key_differs_from_oauth2() {
    let url = "https://api.x.com/2/users/me";
    let key_oauth1 = compute_cache_key("GET", url, &AuthType::OAuth1, Some("alice"));
    let key_oauth2 = compute_cache_key("GET", url, &AuthType::OAuth2User, Some("alice"));
    assert_ne!(
        key_oauth1, key_oauth2,
        "OAuth1 and OAuth2 should produce different cache keys for the same URL"
    );
}

#[test]
fn is_stale_on_fixed_days_and_out_of_range() {
    // 2026-01-01T00:00:00Z is day 739617 from the common era.
    assert!(!is_stale(1_767_225_600, 739_617));
    assert!(is_stale(1_767_225_600, 739_618));
    // A timestamp outside chrono's dates counts as its earliest day.
    assert!(is_stale(i64::MIN, 739_617));
    assert!(!is_stale(i64::MIN, -95_746_129));
}
