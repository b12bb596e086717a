//! Rows of the entity store, its statistics, and the freshness rule: an
//! entity is stale once the UTC calendar day of its last refresh has passed.

use vstd::prelude::*;
use crate::text::{chars_eq, chars_of, owned, push_char, push_str, reverse_vec};

verus! {

/// A stored tweet.
#[derive(Debug, Clone)]
pub struct TweetRow {
    pub id: String,
    pub author_id: Option<String>,
    pub conversation_id: Option<String>,
    pub raw_json: String,
    pub last_refreshed_at: i64,
}

/// A stored user.
#[derive(Debug, Clone)]
pub struct UserRow {
    pub id: String,
    pub username: Option<String>,
    pub raw_json: String,
    pub last_refreshed_at: i64,
}

/// One bookmark of an account, at its position in the list.
#[derive(Debug, Clone)]
pub struct BookmarkRow {
    pub username: String,
    pub tweet_id: String,
    pub position: i64,
    pub refreshed_at: i64,
}

/// A stored raw response.
#[derive(Debug, Clone)]
pub struct RawResponseRow {
    pub status_code: i64,
    pub body: Vec<u8>,
}

/// Entity store statistics.
#[derive(Debug, Clone, Copy)]
pub struct StoreStats {
    pub tweet_count: u64,
    pub user_count: u64,
    pub bookmark_count: u64,
    pub raw_response_count: u64,
    pub total_size_bytes: u64,
    pub max_size_bytes: u64,
}

impl StoreStats {
    /// The store is under its size limit.
    pub fn healthy(&self) -> (r: bool)
        ensures
            r == (self.total_size_bytes < self.max_size_bytes),
    {
        self.total_size_bytes < self.max_size_bytes
    }
}

/// A cached response entry of the response cache.
#[derive(Debug, Clone)]
pub struct CacheEntry {
    pub url: String,
    pub status_code: i64,
    pub body: Vec<u8>,
    pub created_at: i64,
    pub ttl_seconds: i64,
}

/// Response cache statistics.
#[derive(Debug, Clone, Copy)]
pub struct CacheStats {
    pub entry_count: u64,
    pub total_size_bytes: u64,
    pub max_size_bytes: u64,
    pub oldest_seconds_ago: Option<i64>,
    pub newest_seconds_ago: Option<i64>,
}

impl CacheStats {
    /// The cache is under its size limit.
    pub fn healthy(&self) -> (r: bool)
        ensures
            r == (self.total_size_bytes < self.max_size_bytes),
    {
        self.total_size_bytes < self.max_size_bytes
    }
}

/// Live data size from the page counters: used pages times page size, and
/// never negative.
pub fn live_size_bytes(page_count: i64, freelist_count: i64, page_size: i64) -> (r: u64)
    requires
        i64::MIN <= page_count - freelist_count <= i64::MAX,
        i64::MIN <= (page_count - freelist_count) * page_size <= i64::MAX,
    ensures
        r == (if (page_count - freelist_count) * page_size > 0 {
            (page_count - freelist_count) * page_size
        } else {
            0
        }),
{
    let used = page_count - freelist_count;
    let bytes = used * page_size;
    if bytes > 0 {
        bytes as u64
    } else {
        0
    }
}

/// Raw responses created before this time are pruned: seven days before
/// `now`.
pub fn raw_prune_cutoff(now: i64) -> (r: i64)
    requires
        now >= i64::MIN + 7 * 86400,
    ensures
        r == now - 7 * 86400,
{
    now - 7 * 86400
}

/// The store's size limit in bytes.
pub fn max_bytes(max_size_mb: u64) -> (r: u64)
    requires
        max_size_mb * 1024 * 1024 <= u64::MAX,
    ensures
        r == max_size_mb * 1024 * 1024,
{
    max_size_mb * 1024 * 1024
}

/// What pruning does once old raw responses are gone.
#[derive(Clone, Copy, Debug, PartialEq, Eq, Structural)]
pub enum PruneStep {
    /// The store fits its limit (or has reached the target): stop.
    Done,
    /// Delete the next batch of the oldest rows.
    DeleteBatch,
}

/// The size pruning brings an oversized store down to: four fifths of the
/// limit, rounded down.
pub fn prune_target(max_bytes: u64) -> (r: u64)
    ensures
        r == max_bytes * 4 / 5,
{
    let q = max_bytes / 5;
    let rem = max_bytes % 5;
    proof {
        assert(max_bytes * 4 / 5 == q * 4 + rem * 4 / 5) by (nonlinear_arith)
            requires
                max_bytes == q * 5 + rem,
                0 <= rem < 5,
        {
            assert(max_bytes * 4 == (q * 4) * 5 + rem * 4);
            vstd::arithmetic::div_mod::lemma_hoist_over_denominator(rem * 4, q * 4, 5);
        }
    }
    q * 4 + rem * 4 / 5
}

/// Whether entity rows must go: only a store over its limit is pruned.
pub fn prune_needed(live_size: u64, max_bytes: u64) -> (r: bool)
    ensures
        r == (live_size > max_bytes),
{
    live_size > max_bytes
}

/// One step of pruning a table: stop at or under the target, or when the
/// last batch deleted nothing; otherwise delete another batch.
pub fn prune_step(current: u64, target: u64, last_deleted: Option<u64>) -> (r: PruneStep)
    ensures
        r == (if current <= target || last_deleted == Some(0u64) {
            PruneStep::Done
        } else {
            PruneStep::DeleteBatch
        }),
{
    if current <= target {
        return PruneStep::Done;
    }
    match last_deleted {
        Some(0) => PruneStep::Done,
        _ => PruneStep::DeleteBatch,
    }
}

/// `s` with each single quote doubled (`str::replace('\'', "''")`).
pub open spec fn double_quotes(s: Seq<char>) -> Seq<char>
    decreases s.len(),
{
    if s.len() == 0 {
        Seq::empty()
    } else if s.last() == '\'' {
        double_quotes(s.drop_last()) + seq!['\'', '\'']
    } else {
        double_quotes(s.drop_last()).push(s.last())
    }
}

/// The statement attaching the old response cache for the usage migration,
/// its path quoted as an SQL string literal.
pub fn attach_cache_sql(path: &str) -> (r: String)
    ensures
        r@ == "ATTACH DATABASE '"@ + double_quotes(path@) + "' AS old_cache"@,
{
    let cs = chars_of(path);
    let mut r = owned("ATTACH DATABASE '");
    let ghost head = r@;
    let mut i: usize = 0;
    while i < cs.len()
        invariant
            i <= cs@.len(),
            cs@ == path@,
            r@ == head + double_quotes(cs@.take(i as int)),
        decreases cs@.len() - i,
    {
        let c = cs[i];
        if c == '\'' {
            push_char(&mut r, '\'');
            push_char(&mut r, '\'');
        } else {
            push_char(&mut r, c);
        }
        i = i + 1;
        assert(cs@.take(i as int).drop_last() =~= cs@.take((i - 1) as int));
        assert(cs@.take(i as int).last() == c);
        assert(r@ =~= head + double_quotes(cs@.take(i as int)));
    }
    assert(cs@.take(cs@.len() as int) =~= cs@);
    push_str(&mut r, "' AS old_cache");
    r
}

/// The memory-map size: the size limit, at most 64 MiB.
pub fn mmap_size(max_size_mb: u64) -> (r: u64)
    requires
        max_size_mb * 1048576 <= u64::MAX,
    ensures
        r == (if max_size_mb * 1048576 < 67108864 {
            max_size_mb * 1048576
        } else {
            67108864
        }),
{
    let m = max_size_mb * 1048576;
    if m < 67108864 {
        m
    } else {
        67108864
    }
}

/// A database holding any trigger or view is refused as tampered with.
pub fn is_tampered(trigger_or_view_count: i64) -> (r: bool)
    ensures
        r == (trigger_or_view_count > 0),
{
    trigger_or_view_count > 0
}

// ----- freshness -----

/// The first and last days (from the common era) that chrono represents:
/// January 1 of 262144 BCE and December 31 of 262142 CE.
pub open spec fn chrono_min_day() -> int {
    -95746129
}

pub open spec fn chrono_max_day() -> int {
    95745399
}

/// The UTC calendar day (days from the common era, 0001-01-01 being day 1)
/// of a UNIX timestamp, as `chrono::DateTime::from_timestamp` gives it: the
/// timestamp's Euclidean quotient by a day's seconds shifted by chrono's
/// `UNIX_EPOCH_DAY` (719163); none outside chrono's range of dates.
pub open spec fn utc_day_of(ts: i64) -> Option<i32> {
    let d = ts / 86400 + 719163;
    if chrono_min_day() <= d <= chrono_max_day() {
        Some(d as i32)
    } else {
        None
    }
}

/// `chrono::DateTime::from_timestamp(ts, 0)` then `date_naive()` and
/// `num_days_from_ce()`, as [`utc_day_of`] states it.
#[verifier::external_body]
fn utc_day(ts: i64) -> (r: Option<i32>)
    ensures
        r == utc_day_of(ts),
{
    chrono::DateTime::from_timestamp(ts, 0).map(|dt| chrono::Datelike::num_days_from_ce(&dt.date_naive()))
}

/// `chrono::NaiveDate::MIN.num_days_from_ce()`: the day of the earliest
/// date chrono represents.
#[verifier::external_body]
fn min_day() -> (r: i32)
    ensures
        r == chrono_min_day(),
{
    chrono::Datelike::num_days_from_ce(&chrono::NaiveDate::MIN)
}

/// Today's UTC day from `chrono::Utc::now()`. It depends on the clock; only
/// that it is the day of some timestamp is claimed.
#[verifier::external_body]
pub(crate) fn utc_today() -> (r: i32)
    ensures
        exists|t: i64| utc_day_of(t) == Some(r),
{
    chrono::Datelike::num_days_from_ce(&chrono::Utc::now().date_naive())
}

/// Staleness against today's day `now_day`: the refresh day is before
/// today; a timestamp out of the calendar's range counts as chrono's
/// earliest day.
pub open spec fn spec_stale(last_refreshed_at: i64, now_day: i32) -> bool {
    match utc_day_of(last_refreshed_at) {
        Some(d) => d < now_day,
        None => chrono_min_day() < now_day,
    }
}

fn stale_with(last_refreshed_at: i64, now_day: i32, min: i32) -> (r: bool)
    requires
        min == chrono_min_day(),
    ensures
        r == spec_stale(last_refreshed_at, now_day),
{
    match utc_day(last_refreshed_at) {
        Some(d) => d < now_day,
        None => min < now_day,
    }
}

/// An entity must be re-fetched when it was last refreshed on an earlier
/// UTC calendar day than `now_day`.
pub fn is_stale(last_refreshed_at: i64, now_day: i32) -> (r: bool)
    ensures
        r == spec_stale(last_refreshed_at, now_day),
{
    let m = min_day();
    stale_with(last_refreshed_at, now_day, m)
}

/// The rows still fresh on day `now_day`, in order.
pub open spec fn fresh_rows(rows: Seq<TweetRow>, now_day: i32) -> Seq<TweetRow> {
    rows.filter(|r: TweetRow| !spec_stale(r.last_refreshed_at, now_day))
}

/// Some row carries the id.
pub open spec fn has_row_id(rows: Seq<TweetRow>, id: Seq<char>) -> bool {
    exists|k: int| 0 <= k < rows.len() && #[trigger] rows[k].id@ == id
}

/// The ids no fresh row carries, in order.
pub open spec fn ids_to_fetch(ids: Seq<Seq<char>>, fresh: Seq<TweetRow>) -> Seq<Seq<char>> {
    ids.filter(|id: Seq<char>| !has_row_id(fresh, id))
}

fn row_with_id(rows: &Vec<TweetRow>, id: &[char]) -> (r: bool)
    ensures
        r == has_row_id(rows@, id@),
{
    let mut k: usize = 0;
    while k < rows.len()
        invariant
            k <= rows@.len(),
            forall|j: int| 0 <= j < k ==> rows@[j].id@ != id@,
        decreases rows@.len() - k,
    {
        let c = chars_of(rows[k].id.as_str());
        if chars_eq(c.as_slice(), id) {
            return true;
        }
        k = k + 1;
    }
    false
}

/// Splits a batch: the looked-up rows that are still fresh are served from
/// the store; the requested ids without a fresh row must be fetched.
pub fn partition_ids(ids: &[String], rows: Vec<TweetRow>, now_day: i32) -> (r: (
    Vec<TweetRow>,
    Vec<String>,
))
    ensures
        r.0@ == fresh_rows(rows@, now_day),
        r.1@.map_values(|s: String| s@) == ids_to_fetch(
            ids@.map_values(|s: String| s@),
            fresh_rows(rows@, now_day),
        ),
{
    let m = min_day();
    let ghost pred = |r: TweetRow| !spec_stale(r.last_refreshed_at, now_day);
    let mut fresh: Vec<TweetRow> = Vec::new();
    proof { reveal(Seq::filter); }
    let n = rows.len();
    let ghost rv = rows@;
    let mut stack = reverse_vec(rows);
    let mut i: usize = 0;
    while i < n
        invariant
            i <= n,
            n == rv.len(),
            stack@.len() == n - i,
            forall|k: int| 0 <= k < stack@.len() ==> #[trigger] stack@[k] == rv[n - 1 - k],
            pred == (|r: TweetRow| !spec_stale(r.last_refreshed_at, now_day)),
            m == chrono_min_day(),
            fresh@ == rv.take(i as int).filter(pred),
        decreases n - i,
    {
        let row = stack.pop().unwrap();
        assert(row == rv[i as int]);
        let stale = stale_with(row.last_refreshed_at, now_day, m);
        if !stale {
            fresh.push(row);
        }
        i = i + 1;
        proof {
            reveal(Seq::filter);
            assert(rv.take(i as int).drop_last() =~= rv.take((i - 1) as int));
        }
    }
    assert(rv.take(n as int) =~= rv);
    let ghost iv = ids@.map_values(|s: String| s@);
    let ghost fpred = |id: Seq<char>| !has_row_id(fresh@, id);
    let mut fetch: Vec<String> = Vec::new();
    proof { reveal(Seq::filter); }
    let mut j: usize = 0;
    while j < ids.len()
        invariant
            j <= ids@.len(),
            iv == ids@.map_values(|s: String| s@),
            fpred == (|id: Seq<char>| !has_row_id(fresh@, id)),
            fetch@.map_values(|s: String| s@) == iv.take(j as int).filter(fpred),
        decreases ids@.len() - j,
    {
        let c = chars_of(ids[j].as_str());
        let ghost before = fetch@;
        if !row_with_id(&fresh, c.as_slice()) {
            fetch.push(crate::text::string_of(c.as_slice()));
            assert(fetch@.map_values(|s: String| s@) =~= before.map_values(|s: String| s@).push(iv[j as int]));
        }
        j = j + 1;
        proof {
            reveal(Seq::filter);
            assert(iv.take(j as int).drop_last() =~= iv.take((j - 1) as int));
        }
    }
    assert(iv.take(ids@.len() as int) =~= iv);
    (fresh, fetch)
}

/// No requested id is lost by a partition: each is served by a fresh row or
/// fetched, and only ids without a fresh row are fetched.
pub proof fn law_partition_covers_every_id(ids: Seq<Seq<char>>, rows: Seq<TweetRow>, now_day: i32)
    ensures
        forall|k: int|
            0 <= k < ids.len() ==> has_row_id(fresh_rows(rows, now_day), #[trigger] ids[k])
                || ids_to_fetch(ids, fresh_rows(rows, now_day)).contains(ids[k]),
        forall|k: int|
            0 <= k < ids_to_fetch(ids, fresh_rows(rows, now_day)).len() ==> ids.contains(
                #[trigger] ids_to_fetch(ids, fresh_rows(rows, now_day))[k],
            ) && !has_row_id(
                fresh_rows(rows, now_day),
                ids_to_fetch(ids, fresh_rows(rows, now_day))[k],
            ),
{
    let fresh = fresh_rows(rows, now_day);
    let pred = |id: Seq<char>| !has_row_id(fresh, id);
    let f = ids.filter(pred);
    assert forall|k: int| 0 <= k < ids.len() implies has_row_id(fresh, #[trigger] ids[k]) || f.contains(ids[k]) by {
        if !has_row_id(fresh, ids[k]) {
            ids.lemma_filter_contains(pred, k);
        }
    }
    assert forall|k: int| 0 <= k < f.len() implies ids.contains(#[trigger] f[k]) && !has_row_id(fresh, f[k]) by {
        ids.lemma_filter_pred(pred, k);
        ids.lemma_filter_contains_rev(pred, f[k]);
        assert(f.contains(f[k]));
    }
}

/// Staleness against today's UTC day, read from the clock.
pub fn is_stale_now(last_refreshed_at: i64) -> (r: bool)
    ensures
        exists|now_day: i32|
            (exists|t: i64| utc_day_of(t) == Some(now_day)) && r == spec_stale(
                last_refreshed_at,
                now_day,
            ),
{
    let today = utc_today();
    is_stale(last_refreshed_at, today)
}

/// [`partition_ids`] against today's UTC day, read from the clock.
pub fn partition_ids_now(ids: &[String], rows: Vec<TweetRow>) -> (r: (Vec<TweetRow>, Vec<String>))
    ensures
        exists|now_day: i32|
            (exists|t: i64| utc_day_of(t) == Some(now_day)) && r.0@ == fresh_rows(rows@, now_day)
                && r.1@.map_values(|s: String| s@) == ids_to_fetch(
                ids@.map_values(|s: String| s@),
                fresh_rows(rows@, now_day),
            ),
{
    let today = utc_today();
    partition_ids(ids, rows, today)
}

} // verus!
