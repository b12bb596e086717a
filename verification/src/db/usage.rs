//! Usage tracking: what is recorded per API call, and when old records go.

use vstd::prelude::*;

verus! {

/// Actual usage reported by the API for one day.
#[derive(Debug, Clone)]
pub struct ActualUsageDay {
    pub date: String,
    pub tweet_count: u64,
    pub synced_at: Option<i64>,
}

/// The `YYYYMMDD` number of a calendar date.
pub fn date_ymd(year: i32, month: u32, day: u32) -> (r: i64)
    requires
        1 <= month <= 12,
        1 <= day <= 31,
    ensures
        r == year * 10000 + month * 100 + day,
{
    year as i64 * 10000 + month as i64 * 100 + day as i64
}

/// Usage rows older than this are pruned: ninety days before `now`.
pub fn usage_cutoff(now: i64) -> (r: i64)
    requires
        now >= i64::MIN + 90 * 24 * 60 * 60,
    ensures
        r == now - 90 * 24 * 60 * 60,
{
    now - 90 * 24 * 60 * 60
}

/// Old usage is pruned on every fiftieth write.
pub fn prune_due(write_count: u32) -> (r: bool)
    ensures
        r == (write_count % 50 == 0),
{
    write_count % 50 == 0
}

/// The object type a usage row records: users when only users were read,
/// tweets when any tweet was read, none otherwise.
pub fn object_type(tweets_read: u32, users_read: u32) -> (r: &'static str)
    ensures
        users_read > 0 && tweets_read == 0 ==> r@ == "user"@,
        tweets_read > 0 ==> r@ == "tweet"@,
        users_read == 0 && tweets_read == 0 ==> r@ == "none"@,
{
    if users_read > 0 && tweets_read == 0 {
        "user"
    } else if tweets_read > 0 {
        "tweet"
    } else {
        "none"
    }
}

} // verus!
