//! `bird doctor`: presence-only credential snapshots and per-command
//! availability.

use vstd::prelude::*;
use crate::db::entity::{sort_strings, sort_strs};
use crate::db::store::StoreStats;
use crate::output::{
    command, emoji_available, emoji_unavailable, error, muted, section, spec_command,
    spec_error_style, spec_muted, spec_section, spec_success, success,
};
use crate::text::{chars_eq, chars_of, decimal, decimal_spec, owned, push_str, str_eq, string_of};

verus! {

/// Where the transport was found and which version it reports.
#[derive(Clone, Debug)]
pub struct XurlStatus {
    pub path: Option<String>,
    pub version: Option<String>,
    pub available: bool,
}

/// Presence of one OAuth2 token's parts.
#[derive(Clone, Copy, Debug)]
pub struct OAuth2TokenPresence {
    pub access_token_present: bool,
    pub refresh_token_present: bool,
}

impl Default for OAuth2TokenPresence {
    fn default() -> (r: Self)
        ensures
            !r.access_token_present && !r.refresh_token_present,
    {
        OAuth2TokenPresence { access_token_present: false, refresh_token_present: false }
    }
}

/// Presence of the OAuth1 token's parts.
#[derive(Clone, Copy, Debug)]
pub struct OAuth1TokenPresence {
    pub access_token_present: bool,
    pub token_secret_present: bool,
    pub consumer_key_present: bool,
    pub consumer_secret_present: bool,
}

impl Default for OAuth1TokenPresence {
    fn default() -> (r: Self)
        ensures
            !r.access_token_present && !r.token_secret_present && !r.consumer_key_present
                && !r.consumer_secret_present,
    {
        OAuth1TokenPresence {
            access_token_present: false,
            token_secret_present: false,
            consumer_key_present: false,
            consumer_secret_present: false,
        }
    }
}

/// Presence of a bearer token.
#[derive(Clone, Copy, Debug)]
pub struct BearerTokenPresence {
    pub token_present: bool,
}

impl Default for BearerTokenPresence {
    fn default() -> (r: Self)
        ensures
            !r.token_present,
    {
        BearerTokenPresence { token_present: false }
    }
}

/// Per-app credential snapshot: only whether each credential is present.
#[derive(Clone, Debug)]
pub struct AppCredentials {
    pub client_id_set: bool,
    pub client_secret_set: bool,
    pub default_user: Option<String>,
    /// OAuth2 tokens by username.
    pub oauth2_tokens: Vec<(String, OAuth2TokenPresence)>,
    pub unnamed_oauth2: Option<OAuth2TokenPresence>,
    pub oauth1: Option<OAuth1TokenPresence>,
    pub bearer: Option<BearerTokenPresence>,
}

impl Default for AppCredentials {
    fn default() -> (r: Self)
        ensures
            !r.client_id_set && !r.client_secret_set && r.default_user is None
                && r.oauth2_tokens@.len() == 0 && r.unnamed_oauth2 is None && r.oauth1 is None
                && r.bearer is None,
    {
        AppCredentials {
            client_id_set: false,
            client_secret_set: false,
            default_user: None,
            oauth2_tokens: Vec::new(),
            unnamed_oauth2: None,
            oauth1: None,
            bearer: None,
        }
    }
}

/// Presence of credential environment variables.
#[derive(Clone, Copy, Debug)]
pub struct EnvCredentials {
    pub client_id_set: bool,
    pub client_secret_set: bool,
    pub bearer_token_set: bool,
}

impl Default for EnvCredentials {
    fn default() -> (r: Self)
        ensures
            !r.client_id_set && !r.client_secret_set && !r.bearer_token_set,
    {
        EnvCredentials { client_id_set: false, client_secret_set: false, bearer_token_set: false }
    }
}

/// The auth section: active app, per-app snapshots, environment presence.
#[derive(Clone, Debug)]
pub struct AuthState {
    pub active_app: String,
    /// App snapshots by app name.
    pub apps: Vec<(String, AppCredentials)>,
    pub env: EnvCredentials,
}

/// Availability of one command.
#[derive(Clone, Debug)]
pub struct CommandStatus {
    pub available: bool,
    pub reason: Option<String>,
    /// Auth schemes the endpoint accepts (`app`, `oauth1`, `oauth2`).
    pub accepted_schemes: Vec<String>,
    /// The accepted schemes the active app has a credential for.
    pub credentialed_schemes: Vec<String>,
    /// `accepted_schemes ∩ credentialed_schemes` is non-empty: the command
    /// succeeds without a further auth step.
    pub reachable: bool,
}

/// The `(method, path template)` of a command's endpoint; `None` for
/// commands that do not hit the API through a fixed endpoint.
pub open spec fn spec_command_template(name: Seq<char>) -> Option<(Seq<char>, Seq<char>)> {
    if name == "me"@ {
        Some(("GET"@, "/2/users/me"@))
    } else if name == "bookmarks"@ {
        Some(("GET"@, "/2/users/{id}/bookmarks"@))
    } else if name == "profile"@ {
        Some(("GET"@, "/2/users/by/username/{username}"@))
    } else if name == "search"@ {
        Some(("GET"@, "/2/tweets/search/recent"@))
    } else if name == "thread"@ {
        Some(("GET"@, "/2/tweets/{id}"@))
    } else if name == "tweet"@ || name == "reply"@ {
        Some(("POST"@, "/2/tweets"@))
    } else if name == "like"@ {
        Some(("POST"@, "/2/users/{id}/likes"@))
    } else if name == "unlike"@ {
        Some(("DELETE"@, "/2/users/{id}/likes/{tweet_id}"@))
    } else if name == "repost"@ {
        Some(("POST"@, "/2/users/{id}/retweets"@))
    } else if name == "unrepost"@ {
        Some(("DELETE"@, "/2/users/{id}/retweets/{source_tweet_id}"@))
    } else if name == "follow"@ {
        Some(("POST"@, "/2/users/{id}/following"@))
    } else if name == "unfollow"@ {
        Some(("DELETE"@, "/2/users/{source_user_id}/following/{target_user_id}"@))
    } else if name == "mute"@ {
        Some(("POST"@, "/2/users/{id}/muting"@))
    } else if name == "unmute"@ {
        Some(("DELETE"@, "/2/users/{source_user_id}/muting/{target_user_id}"@))
    } else if name == "block"@ {
        Some(("POST"@, "/2/users/{id}/blocking"@))
    } else if name == "unblock"@ {
        Some(("DELETE"@, "/2/users/{source_user_id}/blocking/{target_user_id}"@))
    } else if name == "dm"@ {
        Some(("POST"@, "/2/dm_conversations/with/{participant_id}/messages"@))
    } else if name == "usage"@ || name == "usage_sync"@ {
        Some(("GET"@, "/2/usage/tweets"@))
    } else if name == "watchlist_check"@ {
        Some(("GET"@, "/2/tweets/search/recent"@))
    } else {
        None
    }
}

/// The endpoint of a command, as `(method, path template)`.
pub fn command_template(name: &str) -> (r: Option<(&'static str, &'static str)>)
    ensures
        match spec_command_template(name@) {
            Some((m, t)) => r matches Some((a, b)) && a@ == m && b@ == t,
            None => r is None,
        },
{
    if str_eq(name, "me") {
        Some(("GET", "/2/users/me"))
    } else if str_eq(name, "bookmarks") {
        Some(("GET", "/2/users/{id}/bookmarks"))
    } else if str_eq(name, "profile") {
        Some(("GET", "/2/users/by/username/{username}"))
    } else if str_eq(name, "search") {
        Some(("GET", "/2/tweets/search/recent"))
    } else if str_eq(name, "thread") {
        Some(("GET", "/2/tweets/{id}"))
    } else if str_eq(name, "tweet") || str_eq(name, "reply") {
        Some(("POST", "/2/tweets"))
    } else if str_eq(name, "like") {
        Some(("POST", "/2/users/{id}/likes"))
    } else if str_eq(name, "unlike") {
        Some(("DELETE", "/2/users/{id}/likes/{tweet_id}"))
    } else if str_eq(name, "repost") {
        Some(("POST", "/2/users/{id}/retweets"))
    } else if str_eq(name, "unrepost") {
        Some(("DELETE", "/2/users/{id}/retweets/{source_tweet_id}"))
    } else if str_eq(name, "follow") {
        Some(("POST", "/2/users/{id}/following"))
    } else if str_eq(name, "unfollow") {
        Some(("DELETE", "/2/users/{source_user_id}/following/{target_user_id}"))
    } else if str_eq(name, "mute") {
        Some(("POST", "/2/users/{id}/muting"))
    } else if str_eq(name, "unmute") {
        Some(("DELETE", "/2/users/{source_user_id}/muting/{target_user_id}"))
    } else if str_eq(name, "block") {
        Some(("POST", "/2/users/{id}/blocking"))
    } else if str_eq(name, "unblock") {
        Some(("DELETE", "/2/users/{source_user_id}/blocking/{target_user_id}"))
    } else if str_eq(name, "dm") {
        Some(("POST", "/2/dm_conversations/with/{participant_id}/messages"))
    } else if str_eq(name, "usage") || str_eq(name, "usage_sync") {
        Some(("GET", "/2/usage/tweets"))
    } else if str_eq(name, "watchlist_check") {
        Some(("GET", "/2/tweets/search/recent"))
    } else {
        None
    }
}

/// The schemes an app holds credentials for, in preference order:
/// `oauth2` (any OAuth2 token), `oauth1`, `app` (a bearer token, stored or
/// in the environment).
pub open spec fn spec_credentialed(app: AppCredentials, env: EnvCredentials) -> Seq<Seq<char>> {
    let a = if app.oauth2_tokens@.len() > 0 || app.unnamed_oauth2 is Some {
        seq!["oauth2"@]
    } else {
        Seq::empty()
    };
    let b = if app.oauth1 is Some {
        seq!["oauth1"@]
    } else {
        Seq::empty()
    };
    let c = if app.bearer is Some || env.bearer_token_set {
        seq!["app"@]
    } else {
        Seq::empty()
    };
    a + b + c
}

/// The wire names of the schemes the app has credentials for.
pub fn credentialed_for_app(app: &AppCredentials, env: &EnvCredentials) -> (r: Vec<String>)
    ensures
        r@.map_values(|s: String| s@) == spec_credentialed(*app, *env),
{
    let mut out: Vec<String> = Vec::new();
    if app.oauth2_tokens.len() > 0 || app.unnamed_oauth2.is_some() {
        out.push(owned("oauth2"));
    }
    if app.oauth1.is_some() {
        out.push(owned("oauth1"));
    }
    if app.bearer.is_some() || env.bearer_token_set {
        out.push(owned("app"));
    }
    assert(out@.map_values(|s: String| s@) =~= spec_credentialed(*app, *env));
    out
}

/// Preference rank of a wire scheme: `oauth2`, `oauth1`, `app`, then others.
pub open spec fn scheme_rank(w: Seq<char>) -> int {
    if w == "oauth2"@ {
        0
    } else if w == "oauth1"@ {
        1
    } else if w == "app"@ {
        2
    } else {
        3
    }
}

/// Each scheme of `creds` that the command accepts, in the accepted order.
pub open spec fn spec_credentialed_schemes(accepted: Seq<Seq<char>>, creds: Seq<Seq<char>>) -> Seq<
    Seq<char>,
> {
    accepted.filter(|s: Seq<char>| creds.contains(s))
}

fn contains_str(v: &Vec<String>, s: &str) -> (r: bool)
    ensures
        r == v@.map_values(|x: String| x@).contains(s@),
{
    let ghost vv = v@.map_values(|x: String| x@);
    let c = chars_of(s);
    let mut i: usize = 0;
    while i < v.len()
        invariant
            i <= v@.len(),
            vv == v@.map_values(|x: String| x@),
            c@ == s@,
            forall|j: int| 0 <= j < i ==> vv[j] != s@,
        decreases v@.len() - i,
    {
        let d = chars_of(v[i].as_str());
        if chars_eq(d.as_slice(), c.as_slice()) {
            assert(vv[i as int] == s@);
            return true;
        }
        i = i + 1;
    }
    false
}

/// The accepted schemes the active app is credentialed for.
pub fn credentialed_schemes(accepted: &Vec<String>, creds: &Vec<String>) -> (r: Vec<String>)
    ensures
        r@.map_values(|s: String| s@) == spec_credentialed_schemes(
            accepted@.map_values(|s: String| s@),
            creds@.map_values(|s: String| s@),
        ),
{
    let ghost av = accepted@.map_values(|s: String| s@);
    let ghost cv = creds@.map_values(|s: String| s@);
    let ghost pred = |s: Seq<char>| cv.contains(s);
    let mut out: Vec<String> = Vec::new();
    let mut i: usize = 0;
    proof { reveal(Seq::filter); }
    while i < accepted.len()
        invariant
            i <= accepted@.len(),
            av == accepted@.map_values(|s: String| s@),
            cv == creds@.map_values(|s: String| s@),
            pred == (|s: Seq<char>| cv.contains(s)),
            out@.map_values(|s: String| s@) == av.take(i as int).filter(pred),
        decreases accepted@.len() - i,
    {
        let ghost before = out@;
        if contains_str(creds, accepted[i].as_str()) {
            out.push(owned(accepted[i].as_str()));
            assert(out@.map_values(|s: String| s@) =~= before.map_values(|s: String| s@).push(
                av[i as int],
            ));
        }
        i = i + 1;
        proof {
            reveal(Seq::filter);
            assert(av.take(i as int).drop_last() =~= av.take((i - 1) as int));
        }
    }
    assert(av.take(accepted@.len() as int) =~= av);
    out
}

/// Why commands are unavailable when the transport is missing.
pub fn xurl_unavailable_reason(install_hint: &str) -> (r: String)
    ensures
        r@ == "xurl not found. "@ + install_hint@,
{
    let mut r = owned("xurl not found. ");
    push_str(&mut r, install_hint);
    r
}

/// `r` is the status of `login`: available exactly when the transport is
/// present; no accepted and no credentialed schemes, so never reachable; the
/// unavailability reason when the transport is missing.
pub open spec fn is_login_status(r: CommandStatus, xurl_available: bool, unavailable_reason: Seq<
    char,
>) -> bool {
    &&& r.available == xurl_available
    &&& !r.reachable
    &&& r.accepted_schemes@.len() == 0
    &&& r.credentialed_schemes@.len() == 0
    &&& if xurl_available {
        r.reason is None
    } else {
        r.reason matches Some(s) && s@ == unavailable_reason
    }
}

/// The status of `login`.
pub fn login_status(xurl_available: bool, unavailable_reason: &str) -> (r: CommandStatus)
    ensures
        is_login_status(r, xurl_available, unavailable_reason@),
{
    CommandStatus {
        available: xurl_available,
        reason: if xurl_available {
            None
        } else {
            Some(owned(unavailable_reason))
        },
        accepted_schemes: Vec::new(),
        credentialed_schemes: Vec::new(),
        reachable: false,
    }
}

/// `r` is the status of a command: one that needs credentials is available
/// when the transport is present and the active app holds any credential;
/// one that needs none is always available. It is reachable exactly when
/// some accepted scheme is credentialed (the credentialed schemes are the
/// accepted ones the active app holds). The reason names the missing
/// transport first, then missing credentials.
pub open spec fn is_command_status(
    r: CommandStatus,
    xurl_available: bool,
    needs_auth: bool,
    authenticated: bool,
    accepted: Seq<Seq<char>>,
    credentialed: Seq<Seq<char>>,
    unavailable_reason: Seq<char>,
) -> bool {
    &&& r.accepted_schemes@.map_values(|s: String| s@) == accepted
    &&& r.credentialed_schemes@.map_values(|s: String| s@) == spec_credentialed_schemes(
        accepted,
        credentialed,
    )
    &&& r.reachable == (r.credentialed_schemes@.len() > 0)
    &&& r.available == (if needs_auth {
        xurl_available && authenticated
    } else {
        true
    })
    &&& if !xurl_available {
        r.reason matches Some(s) && s@ == unavailable_reason
    } else if needs_auth && !authenticated {
        r.reason matches Some(s) && s@ == "not authenticated. Run `bird login`."@
    } else {
        r.reason is None
    }
}

/// The status of a command.
pub fn command_status(
    xurl_available: bool,
    needs_auth: bool,
    authenticated: bool,
    accepted_schemes: Vec<String>,
    credentialed: &Vec<String>,
    unavailable_reason: &str,
) -> (r: CommandStatus)
    ensures
        is_command_status(
            r,
            xurl_available,
            needs_auth,
            authenticated,
            accepted_schemes@.map_values(|s: String| s@),
            credentialed@.map_values(|s: String| s@),
            unavailable_reason@,
        ),
{
    let creds = credentialed_schemes(&accepted_schemes, credentialed);
    let reachable = creds.len() > 0;
    let available = if needs_auth {
        xurl_available && authenticated
    } else {
        true
    };
    let reason = if !xurl_available {
        Some(owned(unavailable_reason))
    } else if needs_auth && !authenticated {
        Some(owned("not authenticated. Run `bird login`."))
    } else {
        None
    };
    CommandStatus {
        available,
        reason,
        accepted_schemes,
        credentialed_schemes: creds,
        reachable,
    }
}

/// Adjacent repeats collapsed to one (as `Vec::dedup`).
pub open spec fn dedup_adjacent(s: Seq<Seq<char>>) -> Seq<Seq<char>>
    decreases s.len(),
{
    if s.len() == 0 {
        s
    } else {
        let prev = dedup_adjacent(s.drop_last());
        if s.len() >= 2 && s[s.len() - 2] == s.last() {
            prev
        } else {
            prev.push(s.last())
        }
    }
}

/// Stable sort by preference rank: each rank's schemes, in their order.
pub open spec fn by_rank(s: Seq<Seq<char>>) -> Seq<Seq<char>> {
    s.filter(|w: Seq<char>| scheme_rank(w) == 0) + s.filter(|w: Seq<char>| scheme_rank(w) == 1)
        + s.filter(|w: Seq<char>| scheme_rank(w) == 2) + s.filter(|w: Seq<char>| scheme_rank(w) == 3)
}

fn rank_of(w: &str) -> (r: u8)
    ensures
        r as int == scheme_rank(w@),
{
    if str_eq(w, "oauth2") {
        0
    } else if str_eq(w, "oauth1") {
        1
    } else if str_eq(w, "app") {
        2
    } else {
        3
    }
}

/// Appends the schemes of rank `k`, in order.
fn push_rank(out: &mut Vec<String>, s: &Vec<String>, k: u8)
    ensures
        final(out)@.map_values(|x: String| x@) == old(out)@.map_values(|x: String| x@) + s@.map_values(
            |x: String| x@,
        ).filter(|w: Seq<char>| scheme_rank(w) == k as int),
{
    let ghost sv = s@.map_values(|x: String| x@);
    let ghost base = out@.map_values(|x: String| x@);
    let ghost pred = |w: Seq<char>| scheme_rank(w) == k as int;
    let mut i: usize = 0;
    proof { reveal(Seq::filter); }
    while i < s.len()
        invariant
            i <= s@.len(),
            sv == s@.map_values(|x: String| x@),
            pred == (|w: Seq<char>| scheme_rank(w) == k as int),
            out@.map_values(|x: String| x@) == base + sv.take(i as int).filter(pred),
        decreases s@.len() - i,
    {
        let ghost before = out@;
        if rank_of(s[i].as_str()) == k {
            out.push(owned(s[i].as_str()));
            assert(out@.map_values(|x: String| x@) =~= before.map_values(|x: String| x@).push(
                sv[i as int],
            ));
        }
        i = i + 1;
        proof {
            reveal(Seq::filter);
            assert(sv.take(i as int).drop_last() =~= sv.take((i - 1) as int));
        }
    }
    assert(sv.take(s@.len() as int) =~= sv);
}

/// Accepted schemes in preference order (`oauth2`, `oauth1`, `app`), each
/// once where repeats were adjacent after ordering.
pub fn order_schemes(wires: Vec<String>) -> (r: Vec<String>)
    ensures
        r@.map_values(|x: String| x@) == dedup_adjacent(by_rank(wires@.map_values(|x: String| x@))),
{
    let ghost wv = wires@.map_values(|x: String| x@);
    let mut sorted: Vec<String> = Vec::new();
    push_rank(&mut sorted, &wires, 0);
    push_rank(&mut sorted, &wires, 1);
    push_rank(&mut sorted, &wires, 2);
    push_rank(&mut sorted, &wires, 3);
    let ghost sv = sorted@.map_values(|x: String| x@);
    assert(sv =~= by_rank(wv));
    let mut out: Vec<String> = Vec::new();
    let mut i: usize = 0;
    while i < sorted.len()
        invariant
            i <= sorted@.len(),
            sv == sorted@.map_values(|x: String| x@),
            out@.map_values(|x: String| x@) == dedup_adjacent(sv.take(i as int)),
        decreases sorted@.len() - i,
    {
        let ghost before = out@;
        let dup = i > 0 && str_eq(sorted[i - 1].as_str(), sorted[i].as_str());
        if !dup {
            out.push(owned(sorted[i].as_str()));
            assert(out@.map_values(|x: String| x@) =~= before.map_values(|x: String| x@).push(
                sv[i as int],
            ));
        }
        i = i + 1;
        proof {
            let t = sv.take(i as int);
            assert(t.drop_last() =~= sv.take((i - 1) as int));
            if i >= 2 {
                assert(t[t.len() - 2] == sv[i - 2]);
            }
        }
    }
    assert(sv.take(sorted@.len() as int) =~= sv);
    out
}

/// The accepted schemes of an endpoint from the transport's auth matrix
/// (`None` when it has no entry), in preference order.
pub fn accepted_schemes_for(supported: Option<Vec<String>>) -> (r: Vec<String>)
    ensures
        match supported {
            None => r@.len() == 0,
            Some(w) => r@.map_values(|x: String| x@) == dedup_adjacent(
                by_rank(w@.map_values(|x: String| x@)),
            ),
        },
{
    match supported {
        None => Vec::new(),
        Some(w) => order_schemes(w),
    }
}

// ----- the report -----

/// Store health as the report shows it. The size is in tenths of a
/// megabyte, rounded to the nearest tenth.
#[derive(Clone, Debug)]
pub struct CacheStatus {
    pub path: String,
    pub exists: bool,
    pub size_tenths_mb: u64,
    pub max_size_mb: u64,
    pub tweets: u64,
    pub users: u64,
    pub raw_responses: u64,
    pub healthy: bool,
}

/// The full doctor report. Apps and commands are keyed by name.
#[derive(Clone, Debug)]
pub struct DoctorReport {
    pub xurl: XurlStatus,
    pub auth: AuthState,
    pub commands: Vec<(String, CommandStatus)>,
    pub cache: Option<CacheStatus>,
    pub linked_xurl_version: Option<String>,
}

/// Bytes in a megabyte.
pub const MIB: u64 = 1048576;

/// The store's health from its statistics: size rounded to the nearest
/// tenth of a megabyte (halves up), the limit in whole megabytes
/// (truncated), the entity counts and whether it is under its limit.
pub fn cache_status_from_stats(path: String, stats: &StoreStats) -> (r: CacheStatus)
    ensures
        r.path == path,
        r.exists,
        r.size_tenths_mb == (stats.total_size_bytes * 10 + MIB / 2) / (MIB as int),
        r.max_size_mb == stats.max_size_bytes / MIB,
        r.tweets == stats.tweet_count,
        r.users == stats.user_count,
        r.raw_responses == stats.raw_response_count,
        r.healthy == (stats.total_size_bytes < stats.max_size_bytes),
{
    let total = stats.total_size_bytes;
    let q = total / MIB;
    let rem = total % MIB;
    let part = (rem * 10 + MIB / 2) / MIB;
    proof {
        assert(q * 10 <= u64::MAX) by (nonlinear_arith)
            requires
                q == total / 1048576,
                total <= u64::MAX,
        ;
        assert(total * 10 + 524288 == (rem * 10 + 524288) + (q * 10) * 1048576) by (nonlinear_arith)
            requires
                total == q * 1048576 + rem,
        ;
        vstd::arithmetic::div_mod::lemma_hoist_over_denominator(
            rem * 10 + 524288,
            q * 10,
            1048576,
        );
    }
    CacheStatus {
        path,
        exists: true,
        size_tenths_mb: q * 10 + part,
        max_size_mb: stats.max_size_bytes / MIB,
        tweets: stats.tweet_count,
        users: stats.user_count,
        raw_responses: stats.raw_response_count,
        healthy: stats.healthy(),
    }
}

/// The store section when the store could not be read.
pub fn unreadable_cache_status() -> (r: CacheStatus)
    ensures
        r.path@ == "unknown"@,
        !r.exists && !r.healthy,
        r.size_tenths_mb == 0 && r.max_size_mb == 100,
        r.tweets == 0 && r.users == 0 && r.raw_responses == 0,
{
    CacheStatus {
        path: owned("unknown"),
        exists: false,
        size_tenths_mb: 0,
        max_size_mb: 100,
        tweets: 0,
        users: 0,
        raw_responses: 0,
        healthy: false,
    }
}

/// The value under the first entry named `name`.
pub open spec fn lookup_named<V>(s: Seq<(String, V)>, name: Seq<char>) -> Option<V>
    decreases s.len(),
{
    if s.len() == 0 {
        None
    } else if s[0].0@ == name {
        Some(s[0].1)
    } else {
        lookup_named(s.skip(1), name)
    }
}

/// The names of named entries, in order.
pub open spec fn names_of<V>(s: Seq<(String, V)>) -> Seq<Seq<char>> {
    s.map_values(|p: (String, V)| p.0@)
}

/// The index of the first entry named `name`.
pub fn find_named<V>(v: &Vec<(String, V)>, name: &[char]) -> (r: Option<usize>)
    ensures
        match r {
            Some(i) => i < v@.len() && lookup_named(v@, name@) == Some(v@[i as int].1),
            None => lookup_named(v@, name@) is None,
        },
{
    let mut i: usize = 0;
    assert(v@.skip(0) =~= v@);
    while i < v.len()
        invariant
            i <= v@.len(),
            lookup_named(v@, name@) == lookup_named(v@.skip(i as int), name@),
        decreases v@.len() - i,
    {
        let here = chars_of(v[i].0.as_str());
        let ghost rest = v@.skip(i as int);
        assert(rest[0] == v@[i as int]);
        if chars_eq(here.as_slice(), name) {
            return Some(i);
        }
        assert(rest.skip(1) =~= v@.skip(i + 1));
        i = i + 1;
    }
    None
}

/// The names of `v`, as character vectors, in order.
fn name_chars<V>(v: &Vec<(String, V)>) -> (r: Vec<Vec<char>>)
    ensures
        r@.map_values(|x: Vec<char>| x@) == names_of(v@),
{
    let mut out: Vec<Vec<char>> = Vec::new();
    let mut i: usize = 0;
    while i < v.len()
        invariant
            i <= v@.len(),
            out@.map_values(|x: Vec<char>| x@) == names_of(v@).take(i as int),
        decreases v@.len() - i,
    {
        let ghost before = out@;
        let c = chars_of(v[i].0.as_str());
        out.push(c);
        assert(out@.map_values(|x: Vec<char>| x@) =~= before.map_values(|x: Vec<char>| x@).push(
            c@,
        ));
        i = i + 1;
        assert(names_of(v@).take(i as int) =~= names_of(v@).take((i - 1) as int).push(c@));
    }
    assert(names_of(v@).take(v@.len() as int) =~= names_of(v@));
    out
}

/// Joins strings with `sep` between consecutive pieces.
pub fn join_strings(v: &Vec<String>, sep: &str) -> (r: String)
    ensures
        r@ == crate::text::join_spec(v@.map_values(|x: String| x@), sep@),
{
    let ghost views = v@.map_values(|x: String| x@);
    let mut r = String::new();
    let mut i: usize = 0;
    while i < v.len()
        invariant
            i <= v@.len(),
            views == v@.map_values(|x: String| x@),
            r@ == crate::text::join_spec(views.take(i as int), sep@),
        decreases v@.len() - i,
    {
        if i > 0 {
            push_str(&mut r, sep);
        }
        push_str(&mut r, v[i].as_str());
        i = i + 1;
        proof {
            let t = views.take(i as int);
            assert(t.drop_last() =~= views.take((i - 1) as int));
            if i == 1 {
                assert(r@ =~= views[0]);
            }
        }
    }
    assert(views.take(v@.len() as int) =~= views);
    r
}

/// `set` or `not set`.
pub open spec fn set_word(b: bool) -> Seq<char> {
    if b {
        "set"@
    } else {
        "not set"@
    }
}

fn set_word_exec(b: bool) -> (r: &'static str)
    ensures
        r@ == set_word(b),
{
    if b {
        "set"
    } else {
        "not set"
    }
}

// The text specifications below say what each part of the report appends
// to the text `s` written before it.

/// `s`, then `"<label><value>\n"` (value muted) when `o` holds a value.
pub open spec fn opt_line(s: Seq<char>, label: Seq<char>, o: Option<String>, c: bool) -> Seq<char> {
    match o {
        Some(v) => s + label + spec_muted(c, v@) + "\n"@,
        None => s,
    }
}

/// `s`, then `x` when `b`.
pub open spec fn when(s: Seq<char>, b: bool, x: Seq<char>) -> Seq<char> {
    if b {
        s + x
    } else {
        s
    }
}

/// `s`, then the transport section.
pub open spec fn xurl_text(s: Seq<char>, x: XurlStatus, linked: Option<String>, c: bool, reason: Seq<
    char,
>) -> Seq<char> {
    let head = s + spec_section(c, "Xurl"@) + "\n"@;
    let body = if x.available {
        opt_line(opt_line(head, "  path: "@, x.path, c), "  version: "@, x.version, c) + "  status: "@
            + spec_success(c, "available"@) + "\n"@
    } else {
        head + "  status: "@ + spec_error_style(c, "not found"@) + "\n"@ + "  "@ + reason + "\n"@
    };
    opt_line(body, "  linked_crate_version: "@, linked, c)
}

fn push_opt_line(out: &mut String, label: &str, o: &Option<String>, c: bool)
    ensures
        final(out)@ == opt_line(old(out)@, label@, *o, c),
{
    match o {
        Some(v) => {
            push_str(out, label);
            let m = muted(v.as_str(), c);
            push_str(out, m.as_str());
            push_str(out, "\n");
        },
        None => {},
    }
}

fn push_when(out: &mut String, b: bool, x: &str)
    ensures
        final(out)@ == when(old(out)@, b, x@),
{
    if b {
        push_str(out, x);
    }
}

fn xurl_section(out: &mut String, x: &XurlStatus, linked: &Option<String>, c: bool, reason: &str)
    ensures
        final(out)@ == xurl_text(old(out)@, *x, *linked, c, reason@),
{
    let h = section("Xurl", c);
    push_str(out, h.as_str());
    push_str(out, "\n");
    if x.available {
        push_opt_line(out, "  path: ", &x.path, c);
        push_opt_line(out, "  version: ", &x.version, c);
        push_str(out, "  status: ");
        let ok = success("available", c);
        push_str(out, ok.as_str());
        push_str(out, "\n");
    } else {
        push_str(out, "  status: ");
        let e = error("not found", c);
        push_str(out, e.as_str());
        push_str(out, "\n");
        push_str(out, "  ");
        push_str(out, reason);
        push_str(out, "\n");
    }
    push_opt_line(out, "  linked_crate_version: ", linked, c);
}

/// `s`, then one app's block of the auth section.
pub open spec fn app_text(s: Seq<char>, name: Seq<char>, app: AppCredentials, c: bool) -> Seq<char> {
    let head = s + "  app `"@ + name + "`:\n"@ + "    client_id: "@ + set_word(app.client_id_set)
        + "\n"@ + "    client_secret: "@ + set_word(app.client_secret_set) + "\n"@;
    let user = match app.default_user {
        Some(u) => head + "    default_user: @"@ + spec_muted(c, u@) + "\n"@,
        None => head,
    };
    let users = if app.oauth2_tokens@.len() > 0 {
        user + "    oauth2_users: "@ + decimal_spec(app.oauth2_tokens@.len()) + " stored\n"@
    } else {
        user
    };
    when(
        when(
            when(users, app.unnamed_oauth2 is Some, "    oauth2_unnamed: present\n"@),
            app.oauth1 is Some,
            "    oauth1: present\n"@,
        ),
        app.bearer is Some,
        "    bearer: present\n"@,
    )
}

fn app_block(out: &mut String, name: &str, app: &AppCredentials, c: bool)
    ensures
        final(out)@ == app_text(old(out)@, name@, *app, c),
{
    push_str(out, "  app `");
    push_str(out, name);
    push_str(out, "`:\n");
    push_str(out, "    client_id: ");
    push_str(out, set_word_exec(app.client_id_set));
    push_str(out, "\n");
    push_str(out, "    client_secret: ");
    push_str(out, set_word_exec(app.client_secret_set));
    push_str(out, "\n");
    match &app.default_user {
        Some(u) => {
            push_str(out, "    default_user: @");
            let m = muted(u.as_str(), c);
            push_str(out, m.as_str());
            push_str(out, "\n");
        },
        None => {},
    }
    if app.oauth2_tokens.len() > 0 {
        push_str(out, "    oauth2_users: ");
        let n = decimal(app.oauth2_tokens.len() as u64);
        push_str(out, n.as_str());
        push_str(out, " stored\n");
    }
    push_when(out, app.unnamed_oauth2.is_some(), "    oauth2_unnamed: present\n");
    push_when(out, app.oauth1.is_some(), "    oauth1: present\n");
    push_when(out, app.bearer.is_some(), "    bearer: present\n");
}

/// `s`, then the app blocks for `names` in that order; a name with no app
/// adds nothing.
pub open spec fn apps_text(
    s: Seq<char>,
    names: Seq<Seq<char>>,
    apps: Seq<(String, AppCredentials)>,
    c: bool,
) -> Seq<char>
    decreases names.len(),
{
    if names.len() == 0 {
        s
    } else {
        let before = apps_text(s, names.drop_last(), apps, c);
        match lookup_named(apps, names.last()) {
            Some(a) => app_text(before, names.last(), a, c),
            None => before,
        }
    }
}

/// `s`, then the auth section: active app, environment presence, then each
/// app in order of name.
pub open spec fn auth_text(s: Seq<char>, a: AuthState, c: bool) -> Seq<char> {
    let head = s + "\n"@ + spec_section(c, "Auth"@) + "\n"@ + "  active_app: "@ + spec_muted(
        c,
        a.active_app@,
    ) + "\n"@ + "  env CLIENT_ID: "@ + set_word(a.env.client_id_set) + "\n"@
        + "  env CLIENT_SECRET: "@ + set_word(a.env.client_secret_set) + "\n"@
        + "  env XURL_BEARER_TOKEN: "@ + set_word(a.env.bearer_token_set) + "\n"@;
    apps_text(head, sort_strs(names_of(a.apps@)), a.apps@, c)
}

fn auth_section(out: &mut String, a: &AuthState, c: bool)
    ensures
        final(out)@ == auth_text(old(out)@, *a, c),
{
    push_str(out, "\n");
    let h = section("Auth", c);
    push_str(out, h.as_str());
    push_str(out, "\n");
    push_str(out, "  active_app: ");
    let m = muted(a.active_app.as_str(), c);
    push_str(out, m.as_str());
    push_str(out, "\n");
    push_str(out, "  env CLIENT_ID: ");
    push_str(out, set_word_exec(a.env.client_id_set));
    push_str(out, "\n");
    push_str(out, "  env CLIENT_SECRET: ");
    push_str(out, set_word_exec(a.env.client_secret_set));
    push_str(out, "\n");
    push_str(out, "  env XURL_BEARER_TOKEN: ");
    push_str(out, set_word_exec(a.env.bearer_token_set));
    push_str(out, "\n");
    let ghost head = out@;
    let sorted = sort_strings(name_chars(&a.apps));
    let ghost sv = sorted@.map_values(|x: Vec<char>| x@);
    let mut i: usize = 0;
    while i < sorted.len()
        invariant
            i <= sorted@.len(),
            sv == sorted@.map_values(|x: Vec<char>| x@),
            out@ == apps_text(head, sv.take(i as int), a.apps@, c),
        decreases sorted@.len() - i,
    {
        let name = &sorted[i];
        match find_named(&a.apps, name.as_slice()) {
            Some(k) => {
                let nm = string_of(name.as_slice());
                app_block(out, nm.as_str(), &a.apps[k].1, c);
            },
            None => {},
        }
        i = i + 1;
        assert(sv.take(i as int).drop_last() =~= sv.take((i - 1) as int));
        assert(sv.take(i as int).last() == name@);
    }
    assert(sv.take(sorted@.len() as int) =~= sv);
}

/// The reason shown for an unavailable command (empty when none).
pub open spec fn reason_text(r: Option<String>) -> Seq<char> {
    match r {
        Some(t) => t@,
        None => Seq::empty(),
    }
}

/// `s`, then one command's block of the commands section.
pub open spec fn command_text(s: Seq<char>, name: Seq<char>, st: CommandStatus, c: bool, e: bool) -> Seq<
    char,
> {
    let head = s + "  "@ + spec_command(c, name) + ": "@;
    let status = if st.available {
        head + (if e {
            "\u{2705} "@
        } else {
            Seq::empty()
        }) + spec_success(c, "available"@)
    } else {
        head + (if e {
            "\u{274c} "@
        } else {
            Seq::empty()
        }) + spec_error_style(c, "unavailable: "@) + spec_muted(c, reason_text(st.reason))
    } + "\n"@;
    let acc = if st.accepted_schemes@.len() > 0 {
        status + "    accepts: "@ + crate::text::join_spec(
            st.accepted_schemes@.map_values(|x: String| x@),
            ", "@,
        ) + "\n"@
    } else {
        status
    };
    let cred = if st.credentialed_schemes@.len() > 0 {
        acc + "    credentialed: "@ + crate::text::join_spec(
            st.credentialed_schemes@.map_values(|x: String| x@),
            ", "@,
        ) + "\n"@
    } else {
        acc
    };
    cred + "    reachable: "@ + (if st.reachable {
        "yes"@
    } else {
        "no"@
    }) + "\n"@
}

fn command_block(out: &mut String, name: &str, st: &CommandStatus, c: bool, e: bool)
    ensures
        final(out)@ == command_text(old(out)@, name@, *st, c, e),
{
    push_str(out, "  ");
    let cn = command(name, c);
    push_str(out, cn.as_str());
    push_str(out, ": ");
    if st.available {
        push_str(out, emoji_available(e));
        let ok = success("available", c);
        push_str(out, ok.as_str());
    } else {
        push_str(out, emoji_unavailable(e));
        let pre = error("unavailable: ", c);
        push_str(out, pre.as_str());
        let reason: &str = match &st.reason {
            Some(t) => t.as_str(),
            None => "",
        };
        proof {
            reveal_strlit("");
        }
        let m = muted(reason, c);
        push_str(out, m.as_str());
    }
    push_str(out, "\n");
    if st.accepted_schemes.len() > 0 {
        push_str(out, "    accepts: ");
        let j = join_strings(&st.accepted_schemes, ", ");
        push_str(out, j.as_str());
        push_str(out, "\n");
    }
    if st.credentialed_schemes.len() > 0 {
        push_str(out, "    credentialed: ");
        let j = join_strings(&st.credentialed_schemes, ", ");
        push_str(out, j.as_str());
        push_str(out, "\n");
    }
    push_str(out, "    reachable: ");
    push_str(out, if st.reachable { "yes" } else { "no" });
    push_str(out, "\n");
}

/// `s`, then the command blocks for `names` in that order.
pub open spec fn commands_text(
    s: Seq<char>,
    names: Seq<Seq<char>>,
    cmds: Seq<(String, CommandStatus)>,
    c: bool,
    e: bool,
) -> Seq<char>
    decreases names.len(),
{
    if names.len() == 0 {
        s
    } else {
        let before = commands_text(s, names.drop_last(), cmds, c, e);
        match lookup_named(cmds, names.last()) {
            Some(st) => command_text(before, names.last(), st, c, e),
            None => before,
        }
    }
}

/// `s`, then the commands section, each command in order of name.
pub open spec fn commands_section_text(
    s: Seq<char>,
    cmds: Seq<(String, CommandStatus)>,
    c: bool,
    e: bool,
) -> Seq<char> {
    commands_text(
        s + "\n"@ + spec_section(c, "Commands"@) + "\n"@,
        sort_strs(names_of(cmds)),
        cmds,
        c,
        e,
    )
}

fn commands_section(out: &mut String, cmds: &Vec<(String, CommandStatus)>, c: bool, e: bool)
    ensures
        final(out)@ == commands_section_text(old(out)@, cmds@, c, e),
{
    push_str(out, "\n");
    let h = section("Commands", c);
    push_str(out, h.as_str());
    push_str(out, "\n");
    let ghost head = out@;
    let sorted = sort_strings(name_chars(cmds));
    let ghost sv = sorted@.map_values(|x: Vec<char>| x@);
    let mut i: usize = 0;
    while i < sorted.len()
        invariant
            i <= sorted@.len(),
            sv == sorted@.map_values(|x: Vec<char>| x@),
            out@ == commands_text(head, sv.take(i as int), cmds@, c, e),
        decreases sorted@.len() - i,
    {
        let name = &sorted[i];
        match find_named(cmds, name.as_slice()) {
            Some(k) => {
                let nm = string_of(name.as_slice());
                command_block(out, nm.as_str(), &cmds[k].1, c, e);
            },
            None => {},
        }
        i = i + 1;
        assert(sv.take(i as int).drop_last() =~= sv.take((i - 1) as int));
        assert(sv.take(i as int).last() == name@);
    }
    assert(sv.take(sorted@.len() as int) =~= sv);
}

/// A size given in tenths, rendered with one decimal place.
pub open spec fn tenths_text(t: nat) -> Seq<char> {
    decimal_spec(t / 10) + "."@ + decimal_spec(t % 10)
}

/// `s`, then `"<label><value>\n"` with the value muted.
pub open spec fn muted_line(s: Seq<char>, label: Seq<char>, v: Seq<char>, c: bool) -> Seq<char> {
    s + label + spec_muted(c, v) + "\n"@
}

/// `s`, then the store section when there is one.
pub open spec fn cache_text(s: Seq<char>, cache: Option<CacheStatus>, c: bool) -> Seq<char> {
    match cache {
        None => s,
        Some(k) => {
            let head = s + "\n"@ + spec_section(c, "Cache"@) + "\n"@;
            let size = tenths_text(k.size_tenths_mb as nat) + " MB / "@ + decimal_spec(
                k.max_size_mb as nat,
            ) + " MB"@;
            let counts = muted_line(
                muted_line(
                    muted_line(
                        muted_line(muted_line(head, "  path: "@, k.path@, c), "  size: "@, size, c),
                        "  tweets: "@,
                        decimal_spec(k.tweets as nat),
                        c,
                    ),
                    "  users: "@,
                    decimal_spec(k.users as nat),
                    c,
                ),
                "  raw_responses: "@,
                decimal_spec(k.raw_responses as nat),
                c,
            );
            counts + "  status: "@ + (if k.healthy {
                spec_success(c, "healthy"@)
            } else {
                spec_error_style(c, "unhealthy"@)
            }) + "\n"@
        },
    }
}

fn push_muted_line(out: &mut String, label: &str, v: &str, c: bool)
    ensures
        final(out)@ == muted_line(old(out)@, label@, v@, c),
{
    push_str(out, label);
    let m = muted(v, c);
    push_str(out, m.as_str());
    push_str(out, "\n");
}

/// A size given in tenths of a megabyte, with one decimal place.
pub fn tenths_mb_text(tenths: u64) -> (r: String)
    ensures
        r@ == tenths_text(tenths as nat),
{
    let mut size = decimal(tenths / 10);
    push_str(&mut size, ".");
    let frac = decimal(tenths % 10);
    push_str(&mut size, frac.as_str());
    size
}

fn size_text(tenths: u64, max_mb: u64) -> (r: String)
    ensures
        r@ == tenths_text(tenths as nat) + " MB / "@ + decimal_spec(max_mb as nat) + " MB"@,
{
    let mut size = tenths_mb_text(tenths);
    push_str(&mut size, " MB / ");
    let mx = decimal(max_mb);
    push_str(&mut size, mx.as_str());
    push_str(&mut size, " MB");
    size
}

fn cache_section(out: &mut String, cache: &Option<CacheStatus>, c: bool)
    ensures
        final(out)@ == cache_text(old(out)@, *cache, c),
{
    match cache {
        None => {},
        Some(k) => {
            push_str(out, "\n");
            let h = section("Cache", c);
            push_str(out, h.as_str());
            push_str(out, "\n");
            push_muted_line(out, "  path: ", k.path.as_str(), c);
            let size = size_text(k.size_tenths_mb, k.max_size_mb);
            push_muted_line(out, "  size: ", size.as_str(), c);
            let t = decimal(k.tweets);
            push_muted_line(out, "  tweets: ", t.as_str(), c);
            let u = decimal(k.users);
            push_muted_line(out, "  users: ", u.as_str(), c);
            let rr = decimal(k.raw_responses);
            push_muted_line(out, "  raw_responses: ", rr.as_str(), c);
            push_str(out, "  status: ");
            let st = if k.healthy {
                success("healthy", c)
            } else {
                error("unhealthy", c)
            };
            push_str(out, st.as_str());
            push_str(out, "\n");
        },
    }
}

/// The human-readable report: the transport section, the auth section (apps
/// by name), the commands section (commands by name) and, when present, the
/// store section. `unavailable_reason` is the line shown when the transport
/// is missing.
pub open spec fn pretty_text(r: DoctorReport, c: bool, e: bool, unavailable_reason: Seq<char>) -> Seq<
    char,
> {
    let x = xurl_text(Seq::empty(), r.xurl, r.linked_xurl_version, c, unavailable_reason);
    cache_text(commands_section_text(auth_text(x, r.auth, c), r.commands@, c, e), r.cache, c)
}

/// Renders the report for people.
pub fn format_pretty(
    report: &DoctorReport,
    use_color: bool,
    use_emoji: bool,
    unavailable_reason: &str,
) -> (r: String)
    ensures
        r@ == pretty_text(*report, use_color, use_emoji, unavailable_reason@),
{
    let mut out = String::new();
    xurl_section(&mut out, &report.xurl, &report.linked_xurl_version, use_color, unavailable_reason);
    auth_section(&mut out, &report.auth, use_color);
    commands_section(&mut out, &report.commands, use_color, use_emoji);
    cache_section(&mut out, &report.cache, use_color);
    out
}

// ----- the commands section -----

/// A command the report covers: its name, whether it needs credentials
/// (`None` when it has no requirements entry) and the auth schemes its
/// endpoint accepts.
pub type CommandEntry = (String, Option<bool>, Vec<String>);

/// The schemes the active app holds credentials for (none when the active
/// app has no snapshot).
pub open spec fn active_credentials(auth: AuthState) -> Seq<Seq<char>> {
    match lookup_named(auth.apps@, auth.active_app@) {
        Some(app) => spec_credentialed(app, auth.env),
        None => Seq::empty(),
    }
}

/// The entries that get a status: `login`, and every command with a
/// requirements entry.
pub open spec fn reported(e: CommandEntry) -> bool {
    e.0@ == "login"@ || e.1 is Some
}

/// `r` is the status `build_commands_section` gives entry `e`.
pub open spec fn entry_status(
    r: (String, CommandStatus),
    e: CommandEntry,
    xurl_available: bool,
    auth: AuthState,
    unavailable_reason: Seq<char>,
) -> bool {
    &&& r.0@ == e.0@
    &&& if e.0@ == "login"@ {
        is_login_status(r.1, xurl_available, unavailable_reason)
    } else {
        is_command_status(
            r.1,
            xurl_available,
            e.1->0,
            active_credentials(auth).len() > 0,
            e.2@.map_values(|s: String| s@),
            active_credentials(auth),
            unavailable_reason,
        )
    }
}

/// `full` is the commands section of `commands`: one status per reported
/// entry, in entry order.
pub open spec fn is_commands_section(
    full: Seq<(String, CommandStatus)>,
    commands: Seq<CommandEntry>,
    xurl_available: bool,
    auth: AuthState,
    unavailable_reason: Seq<char>,
) -> bool {
    &&& full.len() == commands.filter(|e: CommandEntry| reported(e)).len()
    &&& forall|j: int|
        0 <= j < full.len() ==> entry_status(
            #[trigger] full[j],
            commands.filter(|e: CommandEntry| reported(e))[j],
            xurl_available,
            auth,
            unavailable_reason,
        )
}

fn copy_strings(v: &Vec<String>) -> (r: Vec<String>)
    ensures
        r@.map_values(|s: String| s@) == v@.map_values(|s: String| s@),
{
    let mut out: Vec<String> = Vec::new();
    let mut i: usize = 0;
    while i < v.len()
        invariant
            i <= v@.len(),
            out@.map_values(|s: String| s@) == v@.map_values(|s: String| s@).take(i as int),
        decreases v@.len() - i,
    {
        let ghost before = out@;
        let x = owned(v[i].as_str());
        out.push(x);
        assert(out@.map_values(|s: String| s@) =~= before.map_values(|s: String| s@).push(x@));
        i = i + 1;
        assert(v@.map_values(|s: String| s@).take(i as int) =~= v@.map_values(|s: String| s@).take(
            (i - 1) as int,
        ).push(x@));
    }
    assert(v@.map_values(|s: String| s@).take(v@.len() as int) =~= v@.map_values(|s: String| s@));
    out
}

/// The commands section: one status per reported entry, in entry order.
/// `login` follows the transport alone; every other command follows the
/// transport, its requirements and the active app's credentials.
pub fn build_commands_section(
    xurl_available: bool,
    auth: &AuthState,
    commands: &Vec<CommandEntry>,
    unavailable_reason: &str,
) -> (r: Vec<(String, CommandStatus)>)
    ensures
        is_commands_section(r@, commands@, xurl_available, *auth, unavailable_reason@),
{
    let credentialed: Vec<String> = match find_named(&auth.apps, chars_of(auth.active_app.as_str()).as_slice()) {
        Some(k) => credentialed_for_app(&auth.apps[k].1, &auth.env),
        None => Vec::new(),
    };
    assert(credentialed@.map_values(|s: String| s@) =~= active_credentials(*auth));
    let authenticated = credentialed.len() > 0;
    let ghost pred = |e: CommandEntry| reported(e);
    let mut out: Vec<(String, CommandStatus)> = Vec::new();
    let mut i: usize = 0;
    proof { reveal(Seq::filter); }
    while i < commands.len()
        invariant
            i <= commands@.len(),
            pred == (|e: CommandEntry| reported(e)),
            credentialed@.map_values(|s: String| s@) == active_credentials(*auth),
            authenticated == (active_credentials(*auth).len() > 0),
            out@.len() == commands@.take(i as int).filter(pred).len(),
            forall|j: int|
                0 <= j < out@.len() ==> entry_status(
                    #[trigger] out@[j],
                    commands@.take(i as int).filter(pred)[j],
                    xurl_available,
                    *auth,
                    unavailable_reason@,
                ),
        decreases commands@.len() - i,
    {
        let ghost before = out@;
        let ghost prev = commands@.take(i as int).filter(pred);
        let e = &commands[i];
        let is_login = str_eq(e.0.as_str(), "login");
        if is_login {
            let st = login_status(xurl_available, unavailable_reason);
            out.push((owned(e.0.as_str()), st));
        } else {
            match e.1 {
                Some(needs_auth) => {
                    let accepted = copy_strings(&e.2);
                    let st = command_status(
                        xurl_available,
                        needs_auth,
                        authenticated,
                        accepted,
                        &credentialed,
                        unavailable_reason,
                    );
                    out.push((owned(e.0.as_str()), st));
                },
                None => {},
            }
        }
        i = i + 1;
        proof {
            reveal(Seq::filter);
            let t = commands@.take(i as int);
            assert(t.drop_last() =~= commands@.take((i - 1) as int));
            assert(t.last() == commands@[i - 1]);
            if reported(commands@[i - 1]) {
                assert(t.filter(pred) == prev.push(commands@[i - 1]));
                assert forall|j: int| 0 <= j < out@.len() implies entry_status(
                    #[trigger] out@[j],
                    t.filter(pred)[j],
                    xurl_available,
                    *auth,
                    unavailable_reason@,
                ) by {
                    if j < before.len() {
                        assert(out@[j] == before[j]);
                    }
                }
            } else {
                assert(t.filter(pred) == prev);
            }
        }
    }
    assert(commands@.take(commands@.len() as int) =~= commands@);
    out
}

/// The commands section narrowed to one command: just `scope` when it is
/// present, otherwise unchanged.
pub fn scope_commands(cmds: Vec<(String, CommandStatus)>, scope: Option<&str>) -> (r: Vec<
    (String, CommandStatus),
>)
    ensures
        match scope {
            Some(n) => match lookup_named(cmds@, n@) {
                Some(st) => r@.len() == 1 && r@[0].0@ == n@ && r@[0].1 == st,
                None => r@ == cmds@,
            },
            None => r@ == cmds@,
        },
{
    match scope {
        None => cmds,
        Some(n) => {
            match find_named(&cmds, chars_of(n).as_slice()) {
                None => cmds,
                Some(k) => {
                    let mut cmds = cmds;
                    let (_, st) = cmds.remove(k);
                    let mut out: Vec<(String, CommandStatus)> = Vec::new();
                    out.push((owned(n), st));
                    out
                },
            }
        },
    }
}

/// The auth section when only the transport's `whoami` is available: one
/// app named `default`, active, whose snapshot knows only its user.
pub fn subprocess_auth_state(username: Option<String>, env: EnvCredentials) -> (r: AuthState)
    ensures
        r.active_app@ == "default"@,
        r.apps@.len() == 1,
        r.apps@[0].0@ == "default"@,
        r.apps@[0].1.default_user == username,
        !r.apps@[0].1.client_id_set && !r.apps@[0].1.client_secret_set,
        r.apps@[0].1.oauth2_tokens@.len() == 0,
        r.apps@[0].1.unnamed_oauth2 is None && r.apps@[0].1.oauth1 is None && r.apps@[0].1.bearer is None,
        r.env == env,
{
    let mut app = AppCredentials::default();
    app.default_user = username;
    let mut apps: Vec<(String, AppCredentials)> = Vec::new();
    apps.push((owned("default"), app));
    AuthState { active_app: owned("default"), apps, env }
}

/// The report from its parts: the commands section built for the transport
/// and auth state, narrowed to `scope` when given.
pub fn assemble_report(
    xurl: XurlStatus,
    auth: AuthState,
    commands: &Vec<CommandEntry>,
    scope: Option<&str>,
    cache: Option<CacheStatus>,
    linked_xurl_version: Option<String>,
    unavailable_reason: &str,
) -> (r: DoctorReport)
    ensures
        r.xurl == xurl,
        r.auth == auth,
        r.cache == cache,
        r.linked_xurl_version == linked_xurl_version,
        exists|full: Seq<(String, CommandStatus)>|
            #[trigger] is_commands_section(full, commands@, xurl.available, auth, unavailable_reason@)
                && match scope {
                Some(n) => match lookup_named(full, n@) {
                    Some(st) => r.commands@.len() == 1 && r.commands@[0].0@ == n@ && r.commands@[0].1
                        == st,
                    None => r.commands@ == full,
                },
                None => r.commands@ == full,
            },
{
    let full = build_commands_section(xurl.available, &auth, commands, unavailable_reason);
    let ghost fv = full@;
    let cmds = scope_commands(full, scope);
    DoctorReport { xurl, auth, commands: cmds, cache, linked_xurl_version }
}

/// With the transport present, a reachable command in the commands section
/// is also available: reaching an endpoint needs an accepted scheme the
/// active app holds a credential for, and holding any credential makes a
/// command available.
pub proof fn law_reachable_commands_are_available(
    full: Seq<(String, CommandStatus)>,
    commands: Seq<CommandEntry>,
    xurl_available: bool,
    auth: AuthState,
    unavailable_reason: Seq<char>,
)
    requires
        is_commands_section(full, commands, xurl_available, auth, unavailable_reason),
        xurl_available,
    ensures
        forall|j: int|
            0 <= j < full.len() && (#[trigger] full[j]).1.reachable ==> full[j].1.available,
{
    assert forall|j: int| 0 <= j < full.len() && (#[trigger] full[j]).1.reachable implies full[j].1.available by {
        let e = commands.filter(|e: CommandEntry| reported(e))[j];
        assert(entry_status(full[j], e, xurl_available, auth, unavailable_reason));
        if e.0@ != "login"@ && e.1->0 {
            let creds = active_credentials(auth);
            let accepted = e.2@.map_values(|s: String| s@);
            let pred = |s: Seq<char>| creds.contains(s);
            let cs = spec_credentialed_schemes(accepted, creds);
            assert(full[j].1.credentialed_schemes@.map_values(|s: String| s@) == cs);
            assert(cs.len() > 0);
            accepted.lemma_filter_pred(pred, 0);
            assert(creds.contains(cs[0]));
            assert(creds.len() > 0);
        }
    }
}

/// A command's reported reachability is the doctor's definition:
/// `reachable` holds exactly when some accepted scheme is one the active app
/// holds a credential for (`login` accepts none, so it is never reachable).
pub proof fn law_reachable_iff_an_accepted_scheme_is_credentialed(
    full: Seq<(String, CommandStatus)>,
    commands: Seq<CommandEntry>,
    xurl_available: bool,
    auth: AuthState,
    unavailable_reason: Seq<char>,
)
    requires
        is_commands_section(full, commands, xurl_available, auth, unavailable_reason),
    ensures
        forall|j: int|
            0 <= j < full.len() ==> ((#[trigger] full[j]).1.reachable <==> exists|s: Seq<char>|
                full[j].1.accepted_schemes@.map_values(|x: String| x@).contains(s)
                    && active_credentials(auth).contains(s)),
{
    assert forall|j: int| 0 <= j < full.len() implies ((#[trigger] full[j]).1.reachable <==> exists|
        s: Seq<char>|
        full[j].1.accepted_schemes@.map_values(|x: String| x@).contains(s)
            && active_credentials(auth).contains(s)) by {
        let e = commands.filter(|e: CommandEntry| reported(e))[j];
        assert(entry_status(full[j], e, xurl_available, auth, unavailable_reason));
        let creds = active_credentials(auth);
        let accepted = full[j].1.accepted_schemes@.map_values(|x: String| x@);
        let pred = |x: Seq<char>| creds.contains(x);
        if e.0@ == "login"@ {
            assert(accepted.len() == 0);
        } else {
            let cs = spec_credentialed_schemes(accepted, creds);
            assert(full[j].1.credentialed_schemes@.map_values(|x: String| x@) == cs);
            if full[j].1.reachable {
                assert(cs.len() > 0);
                accepted.lemma_filter_pred(pred, 0);
                accepted.lemma_filter_contains_rev(pred, cs[0]);
                assert(accepted.contains(cs[0]) && creds.contains(cs[0]));
            }
            if exists|s: Seq<char>| accepted.contains(s) && creds.contains(s) {
                let s = choose|s: Seq<char>| accepted.contains(s) && creds.contains(s);
                let i = choose|i: int| 0 <= i < accepted.len() && accepted[i] == s;
                accepted.lemma_filter_contains(pred, i);
                assert(cs.contains(s));
                assert(cs.len() > 0);
            }
        }
    }
}

} // verus!
