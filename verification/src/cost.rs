//! Cost estimation for X API billing: the billable objects a response
//! carries, the estimated dollar amount, and the cost line shown on stderr.

use vstd::prelude::*;
use crate::output::{muted, spec_muted};
use crate::text::{decimal, decimal_spec, join_chars, join_spec, owned, push_all, push_str, str_contains, contains_seq, chars_of};

verus! {

/// What a response's `data` member is.
#[derive(Clone, Copy, Debug, PartialEq, Eq, Structural)]
pub enum DataShape {
    /// No `data` member.
    Absent,
    /// An array of this many items.
    Array(usize),
    /// A single object.
    Object,
    /// Anything else.
    Other,
}

/// The parts of a response body that cost estimation reads.
#[derive(Clone, Copy, Debug)]
pub struct ResponseShape {
    pub data: DataShape,
    /// Length of `includes.users` when it is an array.
    pub included_users: Option<usize>,
    /// Length of `includes.tweets` when it is an array.
    pub included_tweets: Option<usize>,
}

/// Billable objects read by one response, and whether it came from the
/// store (then nothing was read). The estimated amount is [`cost_units`]
/// ten-thousandths of a dollar.
#[derive(Clone, Copy, Debug, PartialEq, Eq, Structural)]
pub struct CostEstimate {
    pub tweets_read: u32,
    pub users_read: u32,
    pub cache_hit: bool,
}

/// A user endpoint: the path holds `/users/` and is not a bookmarks path.
pub open spec fn spec_is_user_endpoint(endpoint: Seq<char>) -> bool {
    contains_seq(endpoint, "/users/"@) && !contains_seq(endpoint, "/bookmarks"@)
}

/// Objects in `data`: an array's items or one object.
pub open spec fn data_count(d: DataShape) -> int {
    match d {
        DataShape::Array(n) => n as int,
        DataShape::Object => 1,
        _ => 0,
    }
}

pub open spec fn opt_len(o: Option<usize>) -> int {
    match o {
        Some(n) => n as int,
        None => 0,
    }
}

/// Counts for a fresh response: `data` counts as users on user endpoints
/// and as tweets elsewhere; included users and tweets add to their kind.
pub open spec fn spec_counts(shape: ResponseShape, endpoint: Seq<char>) -> (int, int) {
    let d = data_count(shape.data);
    let (t, u) = if spec_is_user_endpoint(endpoint) {
        (0int, d)
    } else {
        (d, 0int)
    };
    (t + opt_len(shape.included_tweets), u + opt_len(shape.included_users))
}

/// The response with its `includes` left out.
pub open spec fn without_includes(shape: ResponseShape) -> ResponseShape {
    ResponseShape { data: shape.data, included_users: None, included_tweets: None }
}

/// Only the response's `includes`.
pub open spec fn includes_only(shape: ResponseShape) -> ResponseShape {
    ResponseShape {
        data: DataShape::Absent,
        included_users: shape.included_users,
        included_tweets: shape.included_tweets,
    }
}

/// The counts add up from the primary data and the `includes`; included
/// tweets count as tweets and included users as users on every endpoint;
/// the primary data counts wholly as users on a user endpoint and wholly as
/// tweets elsewhere.
pub proof fn law_cost_counts_add_up(shape: ResponseShape, endpoint: Seq<char>)
    ensures
        spec_counts(shape, endpoint).0 == spec_counts(without_includes(shape), endpoint).0
            + spec_counts(includes_only(shape), endpoint).0,
        spec_counts(shape, endpoint).1 == spec_counts(without_includes(shape), endpoint).1
            + spec_counts(includes_only(shape), endpoint).1,
        spec_counts(includes_only(shape), endpoint) == (
            opt_len(shape.included_tweets),
            opt_len(shape.included_users),
        ),
        spec_counts(without_includes(shape), endpoint).0 + spec_counts(
            without_includes(shape),
            endpoint,
        ).1 == data_count(shape.data),
        spec_is_user_endpoint(endpoint) ==> spec_counts(without_includes(shape), endpoint).0 == 0,
        !spec_is_user_endpoint(endpoint) ==> spec_counts(without_includes(shape), endpoint).1 == 0,
{
}

/// Counts the billable objects of a response; a store hit reads nothing.
pub fn estimate_cost(shape: &ResponseShape, endpoint: &str, cache_hit: bool) -> (r: CostEstimate)
    requires
        spec_counts(*shape, endpoint@).0 <= u32::MAX,
        spec_counts(*shape, endpoint@).1 <= u32::MAX,
    ensures
        r.cache_hit == cache_hit,
        cache_hit ==> r.tweets_read == 0 && r.users_read == 0,
        !cache_hit ==> r.tweets_read == spec_counts(*shape, endpoint@).0 && r.users_read
            == spec_counts(*shape, endpoint@).1,
{
    if cache_hit {
        return CostEstimate { tweets_read: 0, users_read: 0, cache_hit: true };
    }
    let is_user = str_contains(endpoint, "/users/") && !str_contains(endpoint, "/bookmarks");
    let d: usize = match shape.data {
        DataShape::Array(n) => n,
        DataShape::Object => 1,
        _ => 0,
    };
    let it: usize = match shape.included_tweets {
        Some(n) => n,
        None => 0,
    };
    let iu: usize = match shape.included_users {
        Some(n) => n,
        None => 0,
    };
    let (t, u): (u64, u64) = if is_user {
        (it as u64, d as u64 + iu as u64)
    } else {
        (d as u64 + it as u64, iu as u64)
    };
    CostEstimate { tweets_read: t as u32, users_read: u as u32, cache_hit: false }
}

/// The estimate of a fresh (not stored) response.
pub fn estimate_raw_cost(shape: &ResponseShape, endpoint: &str) -> (r: CostEstimate)
    requires
        spec_counts(*shape, endpoint@).0 <= u32::MAX,
        spec_counts(*shape, endpoint@).1 <= u32::MAX,
    ensures
        !r.cache_hit,
        r.tweets_read == spec_counts(*shape, endpoint@).0,
        r.users_read == spec_counts(*shape, endpoint@).1,
{
    estimate_cost(shape, endpoint, false)
}

/// `N tweet` / `N tweets` (and the same for users), for the non-zero counts.
pub open spec fn count_part(n: u32, noun: Seq<char>) -> Seq<char> {
    decimal_spec(n as nat) + " "@ + noun + if n == 1 {
        Seq::<char>::empty()
    } else {
        "s"@
    }
}

pub open spec fn spec_cost_parts(c: CostEstimate) -> Seq<Seq<char>> {
    (if c.tweets_read > 0 {
        seq![count_part(c.tweets_read, "tweet"@)]
    } else {
        Seq::empty()
    }) + (if c.users_read > 0 {
        seq![count_part(c.users_read, "user"@)]
    } else {
        Seq::empty()
    })
}

fn count_part_exec(n: u32, noun: &str) -> (r: Vec<char>)
    ensures
        r@ == count_part(n, noun@),
{
    let mut s = decimal(n as u64);
    push_str(&mut s, " ");
    push_str(&mut s, noun);
    proof { reveal_strlit(""); }
    if n != 1 {
        push_str(&mut s, "s");
    }
    chars_of(s.as_str())
}

/// The cost line shown on stderr. `usd` is the estimated cost already
/// rendered with four decimals; it is used only when billable objects were
/// read.
pub open spec fn spec_cost_message(c: CostEstimate, usd: Seq<char>) -> Seq<char> {
    if c.cache_hit {
        "[cost] $0.00 (from store)"@
    } else if spec_cost_parts(c).len() == 0 {
        "[cost] $0.00 (no billable objects, cache miss)"@
    } else {
        "[cost] ~$"@ + usd + " ("@ + join_spec(spec_cost_parts(c), ", "@) + ", cache miss)"@
    }
}

/// Builds the cost line.
pub fn cost_message(c: &CostEstimate, usd: &str) -> (r: String)
    ensures
        r@ == spec_cost_message(*c, usd@),
{
    if c.cache_hit {
        return owned("[cost] $0.00 (from store)");
    }
    let mut parts: Vec<Vec<char>> = Vec::new();
    if c.tweets_read > 0 {
        parts.push(count_part_exec(c.tweets_read, "tweet"));
    }
    if c.users_read > 0 {
        parts.push(count_part_exec(c.users_read, "user"));
    }
    assert(parts@.map_values(|v: Vec<char>| v@) =~= spec_cost_parts(*c));
    if parts.len() == 0 {
        return owned("[cost] $0.00 (no billable objects, cache miss)");
    }
    let sep = chars_of(", ");
    let joined = join_chars(&parts, sep.as_slice());
    let mut r = owned("[cost] ~$");
    push_str(&mut r, usd);
    push_str(&mut r, " (");
    push_all(&mut r, joined.as_slice());
    push_str(&mut r, ", cache miss)");
    r
}

/// The estimated cost in ten-thousandths of a dollar: $0.005 per tweet and
/// $0.010 per user read.
pub open spec fn cost_units(c: CostEstimate) -> nat {
    (c.tweets_read as nat) * 50 + (c.users_read as nat) * 100
}

/// Four digits of `n < 10000`, with leading zeros.
pub open spec fn four_digits(n: nat) -> Seq<char> {
    decimal_spec(n / 1000) + decimal_spec(n / 100 % 10) + decimal_spec(n / 10 % 10) + decimal_spec(
        n % 10,
    )
}

/// The estimated cost in dollars with four decimals.
pub open spec fn spec_usd_text(c: CostEstimate) -> Seq<char> {
    decimal_spec(cost_units(c) / 10000) + "."@ + four_digits(cost_units(c) % 10000)
}

/// Renders the estimated cost in dollars with four decimals.
pub fn usd_text(c: &CostEstimate) -> (r: String)
    ensures
        r@ == spec_usd_text(*c),
{
    let units: u64 = (c.tweets_read as u64) * 50 + (c.users_read as u64) * 100;
    let frac = units % 10000;
    let mut r = decimal(units / 10000);
    push_str(&mut r, ".");
    let d3 = decimal(frac / 1000);
    push_str(&mut r, d3.as_str());
    let d2 = decimal(frac / 100 % 10);
    push_str(&mut r, d2.as_str());
    let d1 = decimal(frac / 10 % 10);
    push_str(&mut r, d1.as_str());
    let d0 = decimal(frac % 10);
    push_str(&mut r, d0.as_str());
    r
}

/// The cost line of an estimate, its amount rendered with four decimals.
pub fn cost_line(c: &CostEstimate) -> (r: String)
    ensures
        r@ == spec_cost_message(*c, spec_usd_text(*c)),
{
    let usd = usd_text(c);
    cost_message(c, usd.as_str())
}

/// The cost line as shown on stderr: nothing when quiet, muted (bright
/// black) when colored.
pub fn display_cost(estimate: &CostEstimate, use_color: bool, quiet: bool) -> (r: Option<String>)
    ensures
        quiet ==> r is None,
        !quiet ==> (r matches Some(line) && line@ == spec_muted(
            use_color,
            spec_cost_message(*estimate, spec_usd_text(*estimate)),
        )),
{
    if quiet {
        return None;
    }
    let line = cost_line(estimate);
    Some(muted(line.as_str(), use_color))
}

} // verus!
