use bird::cost::{cost_line, display_cost, estimate_cost, usd_text, CostEstimate, DataShape, ResponseShape};

fn shape(data: DataShape, users: Option<usize>, tweets: Option<usize>) -> ResponseShape {
    ResponseShape { data, included_users: users, included_tweets: tweets }
}

#[test]
fn cache_hit_costs_zero() {
    let est = estimate_cost(&shape(DataShape::Array(1), None, None), "/2/tweets/search/recent", true);
    assert!(est.cache_hit);
    assert_eq!((est.tweets_read, est.users_read), (0, 0));
    assert_eq!(cost_line(&est), "[cost] $0.00 (from store)");
    assert_eq!(usd_text(&est), "0.0000");
}

#[test]
fn tweet_search_costs() {
    let est = estimate_cost(&shape(DataShape::Array(3), None, None), "/2/tweets/search/recent", false);
    assert_eq!(est.tweets_read, 3);
    assert_eq!(est.users_read, 0);
    assert_eq!(usd_text(&est), "0.0150");
    assert_eq!(cost_line(&est), "[cost] ~$0.0150 (3 tweets, cache miss)");
}

#[test]
fn user_endpoint_costs() {
    let est = estimate_cost(&shape(DataShape::Object, None, None), "/2/users/me", false);
    assert_eq!(est.users_read, 1);
    assert_eq!(est.tweets_read, 0);
    assert_eq!(usd_text(&est), "0.0100");
    assert_eq!(cost_line(&est), "[cost] ~$0.0100 (1 user, cache miss)");
}

#[test]
fn includes_counted() {
    let est = estimate_cost(&shape(DataShape::Array(1), Some(2), Some(1)), "/2/tweets/search/recent", false);
    assert_eq!(est.tweets_read, 2);
    assert_eq!(est.users_read, 2);
    assert_eq!(usd_text(&est), "0.0300");
}

#[test]
fn empty_response() {
    let est = estimate_cost(&shape(DataShape::Absent, None, None), "/2/tweets/search/recent", false);
    assert_eq!(est.tweets_read, 0);
    assert_eq!(est.users_read, 0);
    assert_eq!(usd_text(&est), "0.0000");
    assert_eq!(cost_line(&est), "[cost] $0.00 (no billable objects, cache miss)");
}

#[test]
fn bookmarks_endpoint_counts_tweets() {
    let est = estimate_cost(&shape(DataShape::Array(2), None, None), "/2/users/123/bookmarks", false);
    assert_eq!(est.tweets_read, 2);
    assert_eq!(est.users_read, 0);
}

#[test]
fn large_costs_render_whole_dollars() {
    let c = CostEstimate { tweets_read: 1000, users_read: 5, cache_hit: false };
    assert_eq!(usd_text(&c), "5.0500");
    assert_eq!(cost_line(&c), "[cost] ~$5.0500 (1000 tweets, 5 users, cache miss)");
}

#[test]
fn display_cost_is_quiet_or_muted() {
    let est = CostEstimate { tweets_read: 2, users_read: 1, cache_hit: false };
    assert_eq!(display_cost(&est, false, true), None);
    assert_eq!(
        display_cost(&est, false, false).as_deref(),
        Some("[cost] ~$0.0200 (2 tweets, 1 user, cache miss)")
    );
    let colored = display_cost(&est, true, false).expect("shown");
    assert!(colored.contains("[cost] ~$0.0200 (2 tweets, 1 user, cache miss)"));
    assert_ne!(colored, "[cost] ~$0.0200 (2 tweets, 1 user, cache miss)");
}
