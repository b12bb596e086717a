//! The read path's decisions: which store lookup a GET starts with, what a
//! batch of ids does after the store was consulted, and how a partly cached
//! batch is merged back into the requested order.

use vstd::prelude::*;
use crate::db::{UrlParts, parse_url, parsed_url, all_ascii_digits, all_digits};
use crate::db::client::CacheOpts;
use crate::db::entity::{EntityType, is_entity_endpoint, spec_entity_type};
use crate::text::{
    chars_eq, chars_of, join_chars, join_spec, owned, slice_vec, split_char, split_spec, string_of,
    trim, trim_spec,
};

verus! {

/// Views of string pairs.
pub open spec fn pair_views(ps: Seq<(String, String)>) -> Seq<(Seq<char>, Seq<char>)> {
    ps.map_values(|p: (String, String)| (p.0@, p.1@))
}

/// The ids of a comma-separated list: trimmed, empty ones dropped.
pub open spec fn clean_ids(v: Seq<char>) -> Seq<Seq<char>> {
    split_spec(v, ',').map_values(|s: Seq<char>| trim_spec(s)).filter(|s: Seq<char>| s.len() > 0)
}

/// The batch ids of a query: from the first `ids` or `usernames` parameter
/// (from position `i` on) whose list holds at least one id.
pub open spec fn spec_batch_ids(ps: Seq<(Seq<char>, Seq<char>)>, i: int) -> Option<Seq<Seq<char>>>
    decreases ps.len() - i,
{
    if i < 0 || i >= ps.len() {
        None
    } else if (ps[i].0 == "ids"@ || ps[i].0 == "usernames"@) && clean_ids(ps[i].1).len() > 0 {
        Some(clean_ids(ps[i].1))
    } else {
        spec_batch_ids(ps, i + 1)
    }
}

fn clean_ids_exec(v: &[char]) -> (r: Vec<String>)
    ensures
        r@.map_values(|s: String| s@) == clean_ids(v@),
{
    let parts = split_char(v, ',');
    let ghost sp = split_spec(v@, ',');
    let ghost tv = sp.map_values(|s: Seq<char>| trim_spec(s));
    let ghost pred = |s: Seq<char>| s.len() > 0;
    let mut out: Vec<String> = Vec::new();
    let mut i: usize = 0;
    proof { reveal(Seq::filter); }
    while i < parts.len()
        invariant
            i <= parts@.len(),
            parts@.len() == sp.len(),
            forall|j: int| 0 <= j < parts@.len() ==> #[trigger] parts@[j]@ == sp[j],
            tv == sp.map_values(|s: Seq<char>| trim_spec(s)),
            pred == (|s: Seq<char>| s.len() > 0),
            out@.map_values(|s: String| s@) == tv.take(i as int).filter(pred),
        decreases parts@.len() - i,
    {
        let t = trim(parts[i].as_slice());
        let ghost before = out@;
        if t.len() > 0 {
            out.push(string_of(t.as_slice()));
            assert(out@.map_values(|s: String| s@) =~= before.map_values(|s: String| s@).push(t@));
        }
        i = i + 1;
        proof {
            reveal(Seq::filter);
            assert(tv.take(i as int).drop_last() =~= tv.take((i - 1) as int));
            assert(tv.take(i as int).last() == t@);
        }
    }
    assert(tv.take(parts@.len() as int) =~= tv);
    out
}

/// Batch ids from the `ids=` or `usernames=` query parameter.
pub fn extract_batch_ids(pairs: &[(String, String)]) -> (r: Option<Vec<String>>)
    ensures
        match spec_batch_ids(pair_views(pairs@), 0) {
            Some(ids) => r matches Some(v) && v@.map_values(|s: String| s@) == ids,
            None => r is None,
        },
{
    let ghost pv = pair_views(pairs@);
    let ids_lit = chars_of("ids");
    let usernames_lit = chars_of("usernames");
    let mut i: usize = 0;
    while i < pairs.len()
        invariant
            i <= pairs@.len(),
            pv == pair_views(pairs@),
            ids_lit@ == "ids"@,
            usernames_lit@ == "usernames"@,
            spec_batch_ids(pv, 0) == spec_batch_ids(pv, i as int),
        decreases pairs@.len() - i,
    {
        let k = chars_of(pairs[i].0.as_str());
        assert(k@ == pv[i as int].0);
        if chars_eq(k.as_slice(), ids_lit.as_slice()) || chars_eq(k.as_slice(), usernames_lit.as_slice()) {
            let v = chars_of(pairs[i].1.as_str());
            let ids = clean_ids_exec(v.as_slice());
            if ids.len() > 0 {
                return Some(ids);
            }
        }
        i = i + 1;
    }
    None
}

/// The non-empty segments of a path.
pub open spec fn path_parts(p: Seq<char>) -> Seq<Seq<char>> {
    split_spec(p, '/').filter(|s: Seq<char>| s.len() > 0)
}

fn path_parts_exec(p: &str) -> (r: Vec<Vec<char>>)
    ensures
        r@.map_values(|s: Vec<char>| s@) == path_parts(p@),
{
    let cs = chars_of(p);
    let parts = split_char(cs.as_slice(), '/');
    let ghost sp = split_spec(p@, '/');
    let ghost pred = |s: Seq<char>| s.len() > 0;
    let n = parts.len();
    let mut stack = crate::text::reverse_vec(parts);
    let ghost pv = stack@;
    let mut out: Vec<Vec<char>> = Vec::new();
    let mut i: usize = 0;
    proof { reveal(Seq::filter); }
    while i < n
        invariant
            i <= n,
            n == sp.len(),
            stack@.len() == n - i,
            forall|k: int| 0 <= k < stack@.len() ==> #[trigger] stack@[k]@ == sp[n - 1 - k],
            pred == (|s: Seq<char>| s.len() > 0),
            out@.map_values(|s: Vec<char>| s@) == sp.take(i as int).filter(pred),
        decreases n - i,
    {
        let seg = stack.pop().unwrap();
        assert(seg@ == sp[i as int]);
        let ghost before = out@;
        if seg.len() > 0 {
            out.push(seg);
            assert(out@.map_values(|s: Vec<char>| s@) =~= before.map_values(|s: Vec<char>| s@).push(
                sp[i as int],
            ));
        }
        i = i + 1;
        proof {
            reveal(Seq::filter);
            assert(sp.take(i as int).drop_last() =~= sp.take((i - 1) as int));
        }
    }
    assert(sp.take(n as int) =~= sp);
    out
}

/// The tweet id of a `/2/tweets/{id}` path whose id has two or more digits.
pub open spec fn spec_single_tweet_id(p: Seq<char>) -> Option<Seq<char>> {
    let parts = path_parts(p);
    if parts.len() == 3 && parts[0] == "2"@ && parts[1] == "tweets"@ && parts[2].len() >= 2
        && all_digits(parts[2]) {
        Some(parts[2])
    } else {
        None
    }
}

/// Extracts the tweet id from a `/2/tweets/{numeric_id}` path.
pub fn extract_single_tweet_id(path: &str) -> (r: Option<String>)
    ensures
        match spec_single_tweet_id(path@) {
            Some(id) => r matches Some(s) && s@ == id,
            None => r is None,
        },
{
    let parts = path_parts_exec(path);
    proof {
        assert(parts@.len() == path_parts(path@).len());
    }
    if parts.len() == 3 {
        assert(parts@[0]@ == path_parts(path@)[0]);
        assert(parts@[1]@ == path_parts(path@)[1]);
        assert(parts@[2]@ == path_parts(path@)[2]);
        if chars_eq(parts[0].as_slice(), chars_of("2").as_slice()) && chars_eq(
            parts[1].as_slice(),
            chars_of("tweets").as_slice(),
        ) && parts[2].len() >= 2 && all_ascii_digits(parts[2].as_slice()) {
            return Some(string_of(parts[2].as_slice()));
        }
    }
    None
}

/// The username of a `/2/users/by/username/{username}` path.
pub open spec fn spec_username_of(p: Seq<char>) -> Option<Seq<char>> {
    let parts = path_parts(p);
    if parts.len() == 5 && parts[0] == "2"@ && parts[1] == "users"@ && parts[2] == "by"@
        && parts[3] == "username"@ {
        Some(parts[4])
    } else {
        None
    }
}

/// Extracts the username from a `/2/users/by/username/{username}` path.
pub fn extract_username_from_url(path: &str) -> (r: Option<String>)
    ensures
        match spec_username_of(path@) {
            Some(u) => r matches Some(s) && s@ == u,
            None => r is None,
        },
{
    let parts = path_parts_exec(path);
    proof {
        assert(parts@.len() == path_parts(path@).len());
    }
    if parts.len() == 5 {
        assert(parts@[0]@ == path_parts(path@)[0]);
        assert(parts@[1]@ == path_parts(path@)[1]);
        assert(parts@[2]@ == path_parts(path@)[2]);
        assert(parts@[3]@ == path_parts(path@)[3]);
        assert(parts@[4]@ == path_parts(path@)[4]);
        if chars_eq(parts[0].as_slice(), chars_of("2").as_slice()) && chars_eq(
            parts[1].as_slice(),
            chars_of("users").as_slice(),
        ) && chars_eq(parts[2].as_slice(), chars_of("by").as_slice()) && chars_eq(
            parts[3].as_slice(),
            chars_of("username").as_slice(),
        ) {
            return Some(string_of(parts[4].as_slice()));
        }
    }
    None
}

// ----- URL rebuild -----

/// What the URL library gives for `url` with its query replaced by `pairs`
/// (form-encoded, in order).
pub uninterp spec fn url_with_query(url: Seq<char>, pairs: Seq<(Seq<char>, Seq<char>)>) -> Seq<char>;

/// `url::Url::parse(url)` (which must succeed), then the query replaced by
/// `pairs` through `query_pairs_mut().clear().extend_pairs(..)`, rendered
/// with `to_string`. Named by [`url_with_query`].
#[verifier::external_body]
fn replace_query(url: &str, pairs: &Vec<(String, String)>) -> (r: String)
    requires
        parsed_url(url@) is Some,
    ensures
        r@ == url_with_query(url@, pair_views(pairs@)),
{
    let mut u = url::Url::parse(url).expect("parsed before");
    u.query_pairs_mut().clear().extend_pairs(pairs.iter().map(|(k, v)| (k.as_str(), v.as_str())));
    u.to_string()
}

/// The query after rebuilding with a reduced id set: `ids` first, with the
/// ids joined by commas, then every other original pair in order.
pub open spec fn rebuilt_pairs(orig: Seq<(Seq<char>, Seq<char>)>, ids: Seq<Seq<char>>) -> Seq<
    (Seq<char>, Seq<char>),
> {
    seq![("ids"@, join_spec(ids, ","@))] + orig.filter(|p: (Seq<char>, Seq<char>)| p.0 != "ids"@)
}

/// Rebuilds a URL with the `ids` parameter replaced by `ids`.
pub fn rebuild_url_with_ids(url: &str, ids: &Vec<String>) -> (r: String)
    requires
        parsed_url(url@) is Some,
    ensures
        r@ == url_with_query(
            url@,
            rebuilt_pairs(parsed_url(url@).unwrap().3, ids@.map_values(|s: String| s@)),
        ),
{
    let parts = parse_url(url).unwrap();
    let ghost orig = pair_views(parts.query_pairs@);
    let ghost pred = |p: (Seq<char>, Seq<char>)| p.0 != "ids"@;
    let mut idv: Vec<Vec<char>> = Vec::new();
    let mut j: usize = 0;
    while j < ids.len()
        invariant
            j <= ids@.len(),
            idv@.len() == j,
            forall|t: int| 0 <= t < j ==> #[trigger] idv@[t]@ == ids@[t]@,
        decreases ids@.len() - j,
    {
        idv.push(chars_of(ids[j].as_str()));
        j = j + 1;
    }
    assert(idv@.map_values(|v: Vec<char>| v@) =~= ids@.map_values(|s: String| s@));
    let comma: [char; 1] = [','];
    assert(comma@ =~= ","@) by {
        reveal_strlit(",");
    }
    let joined = join_chars(&idv, comma.as_slice());
    let mut out: Vec<(String, String)> = Vec::new();
    out.push((owned("ids"), string_of(joined.as_slice())));
    let ids_lit = chars_of("ids");
    let mut i: usize = 0;
    proof { reveal(Seq::filter); }
    while i < parts.query_pairs.len()
        invariant
            i <= parts.query_pairs@.len(),
            orig == pair_views(parts.query_pairs@),
            ids_lit@ == "ids"@,
            pred == (|p: (Seq<char>, Seq<char>)| p.0 != "ids"@),
            pair_views(out@) == seq![("ids"@, join_spec(ids@.map_values(|s: String| s@), ","@))]
                + orig.take(i as int).filter(pred),
        decreases parts.query_pairs@.len() - i,
    {
        let k = chars_of(parts.query_pairs[i].0.as_str());
        let ghost before = out@;
        if !chars_eq(k.as_slice(), ids_lit.as_slice()) {
            let kk = string_of(k.as_slice());
            let vv = string_of(chars_of(parts.query_pairs[i].1.as_str()).as_slice());
            out.push((kk, vv));
            assert(pair_views(out@) =~= pair_views(before).push(orig[i as int]));
        }
        i = i + 1;
        proof {
            reveal(Seq::filter);
            assert(orig.take(i as int).drop_last() =~= orig.take((i - 1) as int));
        }
    }
    assert(orig.take(parts.query_pairs@.len() as int) =~= orig);
    replace_query(url, &out)
}

/// [`rebuild_url_with_ids`] for a URL that may not parse: `None` when it
/// does not.
pub fn try_rebuild_url_with_ids(url: &str, ids: &Vec<String>) -> (r: Option<String>)
    ensures
        parsed_url(url@) is None ==> r is None,
        parsed_url(url@) is Some ==> (r matches Some(s) && s@ == url_with_query(
            url@,
            rebuilt_pairs(parsed_url(url@).unwrap().3, ids@.map_values(|s: String| s@)),
        )),
{
    match parse_url(url) {
        None => None,
        Some(_) => Some(rebuild_url_with_ids(url, ids)),
    }
}

// ----- read-path routing -----

/// The store lookup a GET starts with.
#[derive(Debug)]
pub enum StoreLookup {
    /// Split a batch of ids into fresh rows and ids to fetch.
    Batch(Vec<String>),
    /// Serve one tweet if it is fresh.
    Tweet(String),
    /// Serve one user (by username) if fresh.
    User(String),
    /// No entity lookup.
    NoLookup,
}

/// How a GET is served.
#[derive(Debug)]
pub enum GetPlan {
    /// Straight to the API, no store (`--no-cache` or no store open).
    Direct,
    /// The URL does not parse.
    InvalidUrl,
    /// Through the store: the entity kind of the endpoint and the first
    /// lookup to try.
    Store { entity: Option<EntityType>, lookup: StoreLookup },
}

/// The lookup for an endpoint: entity endpoints (unless store reads are
/// skipped by `--refresh` without `--cache-only`) try a batch, then a single
/// tweet, then a username.
pub open spec fn lookup_matches(l: StoreLookup, u: (Seq<char>, Option<Seq<char>>, Seq<char>, Seq<(Seq<char>, Seq<char>)>), opts: CacheOpts) -> bool {
    let entity = spec_entity_type(u.2);
    let skip_reads = opts.refresh && !opts.cache_only;
    if entity is Some && !skip_reads {
        match spec_batch_ids(u.3, 0) {
            Some(ids) => l matches StoreLookup::Batch(v) && v@.map_values(|s: String| s@) == ids,
            None => match spec_single_tweet_id(u.2) {
                Some(id) => l matches StoreLookup::Tweet(t) && t@ == id,
                None => match spec_username_of(u.2) {
                    Some(name) => l matches StoreLookup::User(n) && n@ == name,
                    None => l is NoLookup,
                },
            },
        }
    } else {
        l is NoLookup
    }
}

/// `--refresh` (without `--cache-only`) bypasses every store read: on any
/// endpoint, entity or not, tweet or user, the planned lookup is none.
pub proof fn law_refresh_bypasses_store_reads(
    l: StoreLookup,
    u: (Seq<char>, Option<Seq<char>>, Seq<char>, Seq<(Seq<char>, Seq<char>)>),
    opts: CacheOpts,
)
    requires
        opts.refresh,
        !opts.cache_only,
        lookup_matches(l, u, opts),
    ensures
        l is NoLookup,
{
}

/// Without `--refresh` (or under `--cache-only`), a user endpoint named by
/// username is read from the store: the lookup is that username.
pub proof fn law_user_lookup_without_refresh(
    l: StoreLookup,
    u: (Seq<char>, Option<Seq<char>>, Seq<char>, Seq<(Seq<char>, Seq<char>)>),
    opts: CacheOpts,
    name: Seq<char>,
)
    requires
        !opts.refresh || opts.cache_only,
        spec_entity_type(u.2) is Some,
        spec_batch_ids(u.3, 0) is None,
        spec_single_tweet_id(u.2) is None,
        spec_username_of(u.2) == Some(name),
        lookup_matches(l, u, opts),
    ensures
        l matches StoreLookup::User(n) && n@ == name,
{
}

/// Decides how a GET for `url` is served.
pub fn plan_get(opts: CacheOpts, has_db: bool, url: &str) -> (r: GetPlan)
    ensures
        (opts.no_store || !has_db) ==> r is Direct,
        !(opts.no_store || !has_db) ==> match parsed_url(url@) {
            None => r is InvalidUrl,
            Some(u) => r matches GetPlan::Store { entity, lookup } && entity == spec_entity_type(
                u.2,
            ) && lookup_matches(lookup, u, opts),
        },
        opts.refresh && !opts.cache_only ==> !(r matches GetPlan::Store { lookup, .. } && !(
        lookup is NoLookup)),
{
    if opts.no_store || !has_db {
        return GetPlan::Direct;
    }
    let parts = match parse_url(url) {
        Some(p) => p,
        None => {
            return GetPlan::InvalidUrl;
        },
    };
    let entity = is_entity_endpoint(parts.path.as_str());
    let skip_reads = opts.refresh && !opts.cache_only;
    let lookup = if entity.is_some() && !skip_reads {
        match extract_batch_ids(parts.query_pairs.as_slice()) {
            Some(ids) => StoreLookup::Batch(ids),
            None => match extract_single_tweet_id(parts.path.as_str()) {
                Some(id) => StoreLookup::Tweet(id),
                None => match extract_username_from_url(parts.path.as_str()) {
                    Some(u) => StoreLookup::User(u),
                    None => StoreLookup::NoLookup,
                },
            },
        }
    } else {
        StoreLookup::NoLookup
    };
    GetPlan::Store { entity, lookup }
}

/// The error when `--cache-only` finds nothing in the store.
pub open spec fn not_in_store_message() -> Seq<char> {
    "entity not in local store; run without --cache-only to fetch"@
}

/// What a GET does once its entity lookup missed (or there was none): under
/// `--cache-only` it may only try the raw-response table.
#[derive(Clone, Copy, Debug, PartialEq, Eq, Structural)]
pub enum MissAction {
    /// Try the raw-response table; fail with the not-in-store error on a miss.
    RawOnly,
    /// Fetch from the API.
    Fetch,
}

pub fn miss_action(opts: CacheOpts) -> (r: MissAction)
    ensures
        r == (if opts.cache_only {
            MissAction::RawOnly
        } else {
            MissAction::Fetch
        }),
{
    if opts.cache_only {
        MissAction::RawOnly
    } else {
        MissAction::Fetch
    }
}

/// What is stored after a fetch.
#[derive(Clone, Copy, Debug, PartialEq, Eq, Structural)]
pub enum StoreAction {
    /// Decompose the body into tweet and user rows.
    Decompose,
    /// Keep the body in the raw-response table.
    StoreRaw,
    /// Store nothing.
    Skip,
}

/// A successful response with a JSON body is decomposed on entity
/// endpoints and stored raw elsewhere; anything else is not stored.
pub fn store_action(is_entity: bool, status: u16, has_json: bool) -> (r: StoreAction)
    ensures
        r == (if 200 <= status < 300 && has_json {
            if is_entity {
                StoreAction::Decompose
            } else {
                StoreAction::StoreRaw
            }
        } else {
            StoreAction::Skip
        }),
{
    if 200 <= status && status < 300 && has_json {
        if is_entity {
            StoreAction::Decompose
        } else {
            StoreAction::StoreRaw
        }
    } else {
        StoreAction::Skip
    }
}

/// What a batch GET does after the store partition.
#[derive(Clone, Copy, Debug, PartialEq, Eq, Structural)]
pub enum BatchAction {
    /// Every id is fresh: serve from the store.
    ServeStore,
    /// `--cache-only` and nothing fresh: the not-in-store error.
    NotInStore,
    /// Nothing fresh: one request for the original URL.
    FetchAll,
    /// Some fresh: fetch only the missing ids, then merge.
    FetchMissing,
}

pub fn batch_action(n_to_fetch: usize, n_from_store: usize, cache_only: bool) -> (r: BatchAction)
    ensures
        r == (if n_to_fetch == 0 {
            BatchAction::ServeStore
        } else if cache_only {
            if n_from_store == 0 {
                BatchAction::NotInStore
            } else {
                BatchAction::ServeStore
            }
        } else if n_from_store == 0 {
            BatchAction::FetchAll
        } else {
            BatchAction::FetchMissing
        }),
{
    if n_to_fetch == 0 {
        BatchAction::ServeStore
    } else if cache_only {
        if n_from_store == 0 {
            BatchAction::NotInStore
        } else {
            BatchAction::ServeStore
        }
    } else if n_from_store == 0 {
        BatchAction::FetchAll
    } else {
        BatchAction::FetchMissing
    }
}

// ----- merging a split batch -----

/// Where a merged item comes from.
#[derive(Clone, Copy, Debug, PartialEq, Eq, Structural)]
pub enum MergeSource {
    /// The API item at this index.
    Api(usize),
    /// The stored row at this index.
    Store(usize),
}

/// Index of the last occurrence of `x` in `xs`, or -1.
pub open spec fn last_index(xs: Seq<Seq<char>>, x: Seq<char>) -> int
    decreases xs.len(),
{
    if xs.len() == 0 {
        -1
    } else if xs.last() == x {
        xs.len() - 1
    } else {
        last_index(xs.drop_last(), x)
    }
}

/// The merged order: for each requested id, the API item with that id (the
/// last one, when repeated), else the stored row with that id (the last
/// one), else nothing.
pub open spec fn merge_spec(ids: Seq<Seq<char>>, api: Seq<Seq<char>>, store: Seq<Seq<char>>) -> Seq<
    MergeSource,
>
    decreases ids.len(),
{
    if ids.len() == 0 {
        Seq::empty()
    } else {
        let prev = merge_spec(ids.drop_last(), api, store);
        let id = ids.last();
        if last_index(api, id) >= 0 {
            prev.push(MergeSource::Api(last_index(api, id) as usize))
        } else if last_index(store, id) >= 0 {
            prev.push(MergeSource::Store(last_index(store, id) as usize))
        } else {
            prev
        }
    }
}

proof fn lemma_last_index_range(xs: Seq<Seq<char>>, x: Seq<char>)
    ensures
        -1 <= last_index(xs, x) < xs.len(),
        last_index(xs, x) >= 0 ==> xs[last_index(xs, x)] == x,
    decreases xs.len(),
{
    if xs.len() > 0 {
        lemma_last_index_range(xs.drop_last(), x);
    }
}

proof fn lemma_last_index_found(xs: Seq<Seq<char>>, x: Seq<char>)
    ensures
        last_index(xs, x) >= 0 <==> xs.contains(x),
    decreases xs.len(),
{
    lemma_last_index_range(xs, x);
    if xs.len() > 0 {
        lemma_last_index_found(xs.drop_last(), x);
        if xs.contains(x) && xs.last() != x {
            let k = choose|k: int| 0 <= k < xs.len() && xs[k] == x;
            assert(xs.drop_last()[k] == x);
        }
    }
}

/// The id a merged item stands for holds it: the API item for an id the API
/// returned, else the stored row.
pub open spec fn merged_item_ok(m: MergeSource, id: Seq<char>, api: Seq<Seq<char>>, store: Seq<Seq<char>>) -> bool {
    match m {
        MergeSource::Api(k) => k < api.len() && api[k as int] == id,
        MergeSource::Store(k) => k < store.len() && store[k as int] == id && !api.contains(id),
    }
}

/// The merged response of a split batch lists, in the requested order, one
/// item for each requested id that the API returned or the store holds;
/// each is the API's item for that id when the API returned one, else the
/// stored row for it.
pub proof fn law_merge_follows_requested_ids(
    ids: Seq<Seq<char>>,
    api: Seq<Seq<char>>,
    store: Seq<Seq<char>>,
)
    requires
        api.len() <= usize::MAX,
        store.len() <= usize::MAX,
    ensures
        merge_spec(ids, api, store).len() == ids.filter(
            |id: Seq<char>| api.contains(id) || store.contains(id),
        ).len(),
        forall|j: int|
            0 <= j < merge_spec(ids, api, store).len() ==> merged_item_ok(
                #[trigger] merge_spec(ids, api, store)[j],
                ids.filter(|id: Seq<char>| api.contains(id) || store.contains(id))[j],
                api,
                store,
            ),
    decreases ids.len(),
{
    reveal(Seq::filter);
    let pred = |id: Seq<char>| api.contains(id) || store.contains(id);
    if ids.len() > 0 {
        law_merge_follows_requested_ids(ids.drop_last(), api, store);
        let id = ids.last();
        lemma_last_index_found(api, id);
        lemma_last_index_found(store, id);
        lemma_last_index_range(api, id);
        lemma_last_index_range(store, id);
        let prev = merge_spec(ids.drop_last(), api, store);
        let fprev = ids.drop_last().filter(pred);
        assert(ids.filter(pred) == if pred(id) { fprev.push(id) } else { fprev });
        assert(merge_spec(ids, api, store) == if last_index(api, id) >= 0 {
            prev.push(MergeSource::Api(last_index(api, id) as usize))
        } else if last_index(store, id) >= 0 {
            prev.push(MergeSource::Store(last_index(store, id) as usize))
        } else {
            prev
        });
        assert forall|j: int| 0 <= j < merge_spec(ids, api, store).len() implies merged_item_ok(
            #[trigger] merge_spec(ids, api, store)[j],
            ids.filter(pred)[j],
            api,
            store,
        ) by {
            if j < prev.len() {
                assert(merge_spec(ids, api, store)[j] == prev[j]);
                assert(ids.filter(pred)[j] == fprev[j]);
            } else {
                assert(pred(id));
                assert(ids.filter(pred)[j] == id);
                if last_index(api, id) >= 0 {
                    assert(merge_spec(ids, api, store)[j] == MergeSource::Api(
                        last_index(api, id) as usize,
                    ));
                } else {
                    assert(merge_spec(ids, api, store)[j] == MergeSource::Store(
                        last_index(store, id) as usize,
                    ));
                }
            }
        }
    }
}

fn find_last(xs: &[String], x: &[char]) -> (r: Option<usize>)
    ensures
        match r {
            Some(k) => k as int == last_index(xs@.map_values(|s: String| s@), x@),
            None => last_index(xs@.map_values(|s: String| s@), x@) == -1,
        },
{
    let ghost xv = xs@.map_values(|s: String| s@);
    let mut k: usize = xs.len();
    assert(xv.take(k as int) =~= xv);
    while k > 0
        invariant
            k <= xs@.len(),
            xv == xs@.map_values(|s: String| s@),
            last_index(xv, x@) == last_index(xv.take(k as int), x@),
        decreases k,
    {
        let c = chars_of(xs[k - 1].as_str());
        let ghost t = xv.take(k as int);
        assert(t.last() == xv[k - 1]);
        if chars_eq(c.as_slice(), x) {
            return Some(k - 1);
        }
        assert(t.drop_last() =~= xv.take(k - 1));
        k = k - 1;
    }
    None
}

/// Where each requested id of a split batch is taken from, in the
/// requested order.
pub fn merge_order(ids: &[String], api_ids: &[String], store_ids: &[String]) -> (r: Vec<MergeSource>)
    ensures
        r@ == merge_spec(
            ids@.map_values(|s: String| s@),
            api_ids@.map_values(|s: String| s@),
            store_ids@.map_values(|s: String| s@),
        ),
{
    let ghost iv = ids@.map_values(|s: String| s@);
    let ghost av = api_ids@.map_values(|s: String| s@);
    let ghost sv = store_ids@.map_values(|s: String| s@);
    let mut out: Vec<MergeSource> = Vec::new();
    let mut i: usize = 0;
    while i < ids.len()
        invariant
            i <= ids@.len(),
            iv == ids@.map_values(|s: String| s@),
            av == api_ids@.map_values(|s: String| s@),
            sv == store_ids@.map_values(|s: String| s@),
            out@ == merge_spec(iv.take(i as int), av, sv),
        decreases ids@.len() - i,
    {
        let c = chars_of(ids[i].as_str());
        match find_last(api_ids, c.as_slice()) {
            Some(k) => out.push(MergeSource::Api(k)),
            None => match find_last(store_ids, c.as_slice()) {
                Some(k) => out.push(MergeSource::Store(k)),
                None => {},
            },
        }
        i = i + 1;
        proof {
            let t = iv.take(i as int);
            assert(t.drop_last() =~= iv.take((i - 1) as int));
            assert(t.last() == c@);
        }
    }
    assert(iv.take(ids@.len() as int) =~= iv);
    out
}

} // verus!
