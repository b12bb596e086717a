//! Request context and store options of the entity-aware client, and the
//! values it hands the transport.

use vstd::prelude::*;
use crate::cli::AuthType;
use crate::text::owned;

verus! {

/// Request context for usage logging and auth tracking.
pub struct RequestContext<'a> {
    pub auth_type: &'a AuthType,
    pub username: Option<&'a str>,
}

/// Store control options from CLI flags. `no_store` wins over everything;
/// `cache_only` suppresses `refresh`.
#[derive(Clone, Copy, Debug)]
pub struct CacheOpts {
    /// `--no-cache`: no store reads or writes.
    pub no_store: bool,
    /// `--refresh`: skip store reads, still write entities.
    pub refresh: bool,
    /// `--cache-only`: serve from the store only, no API calls.
    pub cache_only: bool,
}

impl Default for CacheOpts {
    fn default() -> (r: Self)
        ensures
            !r.no_store,
            !r.refresh,
            !r.cache_only,
    {
        CacheOpts { no_store: false, refresh: false, cache_only: false }
    }
}

/// The transport's wire name of an auth scheme: OAuth2 user context and no
/// auth are both the empty string (auto-detect), OAuth1 is `oauth1`, bearer
/// is `app`.
pub open spec fn spec_wire(at: AuthType) -> Seq<char> {
    match at {
        AuthType::OAuth2User => Seq::empty(),
        AuthType::OAuth1 => "oauth1"@,
        AuthType::Bearer => "app"@,
        AuthType::NoAuth => Seq::empty(),
    }
}

/// Maps an auth scheme to the transport's wire vocabulary.
pub fn auth_type_to_xurl_wire(at: &AuthType) -> (r: String)
    ensures
        r@ == spec_wire(*at),
{
    match at {
        AuthType::OAuth2User => String::new(),
        AuthType::OAuth1 => owned("oauth1"),
        AuthType::Bearer => owned("app"),
        AuthType::NoAuth => String::new(),
    }
}

/// The username sent with a request: the client's own, else the context's,
/// else empty.
pub fn request_username(client_username: Option<&str>, ctx_username: Option<&str>) -> (r: String)
    ensures
        r@ == match client_username {
            Some(u) => u@,
            None => match ctx_username {
                Some(u) => u@,
                None => Seq::<char>::empty(),
            },
        },
{
    match client_username {
        Some(u) => owned(u),
        None => match ctx_username {
            Some(u) => owned(u),
            None => String::new(),
        },
    }
}

/// A response status is a success: 200 through 299.
pub fn is_success(status: u16) -> (r: bool)
    ensures
        r == (200 <= status < 300),
{
    200 <= status && status < 300
}

/// The transport's `--auth <scheme>` flag for a non-empty wire name.
pub open spec fn auth_args(at: AuthType) -> Seq<Seq<char>> {
    if spec_wire(at).len() > 0 {
        seq!["--auth"@, spec_wire(at)]
    } else {
        Seq::empty()
    }
}

fn auth_flag(at: &AuthType) -> (r: Option<&'static str>)
    ensures
        match r {
            Some(w) => spec_wire(*at).len() > 0 && w@ == spec_wire(*at),
            None => spec_wire(*at).len() == 0,
        },
{
    proof {
        reveal_strlit("oauth1");
        reveal_strlit("app");
    }
    match at {
        AuthType::OAuth1 => Some("oauth1"),
        AuthType::Bearer => Some("app"),
        _ => None,
    }
}

/// `-u <username>` when a username is configured.
pub open spec fn user_args(username: Option<Seq<char>>) -> Seq<Seq<char>> {
    match username {
        Some(u) => seq!["-u"@, u],
        None => Seq::empty(),
    }
}

fn push_views(v: &mut Vec<String>, s: &str)
    ensures
        final(v)@.map_values(|x: String| x@) == old(v)@.map_values(|x: String| x@).push(s@),
{
    let ghost before = v@;
    v.push(owned(s));
    assert(v@.map_values(|x: String| x@) =~= before.map_values(|x: String| x@).push(s@));
}

/// The transport arguments of a GET: the auth flag, the username, the URL.
pub fn get_args(at: &AuthType, username: Option<&str>, url: &str) -> (r: Vec<String>)
    ensures
        r@.map_values(|x: String| x@) == auth_args(*at) + user_args(
            match username {
                Some(u) => Some(u@),
                None => None,
            },
        ) + seq![url@],
{
    let mut v: Vec<String> = Vec::new();
    if let Some(w) = auth_flag(at) {
        push_views(&mut v, "--auth");
        push_views(&mut v, w);
    }
    if let Some(u) = username {
        push_views(&mut v, "-u");
        push_views(&mut v, u);
    }
    push_views(&mut v, url);
    assert(v@.map_values(|x: String| x@) =~= auth_args(*at) + user_args(
        match username {
            Some(u) => Some(u@),
            None => None,
        },
    ) + seq![url@]);
    v
}

/// The transport arguments of a write request: the method, the auth flag,
/// the username, the body, the URL.
pub fn request_args(method: &str, at: &AuthType, username: Option<&str>, body: Option<&str>, url: &str) -> (r:
    Vec<String>)
    ensures
        r@.map_values(|x: String| x@) == seq!["-X"@, method@] + auth_args(*at) + user_args(
            match username {
                Some(u) => Some(u@),
                None => None,
            },
        ) + match body {
            Some(b) => seq!["-d"@, b@],
            None => Seq::<Seq<char>>::empty(),
        } + seq![url@],
{
    let mut v: Vec<String> = Vec::new();
    push_views(&mut v, "-X");
    push_views(&mut v, method);
    if let Some(w) = auth_flag(at) {
        push_views(&mut v, "--auth");
        push_views(&mut v, w);
    }
    if let Some(u) = username {
        push_views(&mut v, "-u");
        push_views(&mut v, u);
    }
    if let Some(b) = body {
        push_views(&mut v, "-d");
        push_views(&mut v, b);
    }
    push_views(&mut v, url);
    assert(v@.map_values(|x: String| x@) =~= seq!["-X"@, method@] + auth_args(*at) + user_args(
        match username {
            Some(u) => Some(u@),
            None => None,
        },
    ) + match body {
        Some(b) => seq!["-d"@, b@],
        None => Seq::<Seq<char>>::empty(),
    } + seq![url@]);
    v
}

} // verus!
