//! Rules of the response cache: which URLs are never cached, how long an
//! entry lives, and the key an entry is stored under.

use vstd::prelude::*;
use crate::cli::{AuthType, auth_type_name};
use crate::db::{parse_url, parsed_url};
use crate::db::entity::{encode, hex_spec, normalize_url, sha256, sha256_of, spec_normalize_url};
use crate::text::{contains_seq, is_prefix, owned, push_char, push_str, str_contains, str_starts_with};

verus! {

/// Auth endpoints and paginated requests are never cached.
pub open spec fn spec_skip_cache(url: Seq<char>) -> bool {
    contains_seq(url, "/oauth2/token"@) || contains_seq(url, "pagination_token="@) || contains_seq(
        url,
        "next_token="@,
    )
}

/// Whether to skip caching for this URL.
pub fn should_skip_cache(url: &str) -> (r: bool)
    ensures
        r == spec_skip_cache(url@),
{
    str_contains(url, "/oauth2/token") || str_contains(url, "pagination_token=") || str_contains(
        url,
        "next_token=",
    )
}

/// Default lifetime (seconds) by path: bookmarks and searches 15 minutes,
/// user lookups an hour, tweets and everything else 15 minutes.
pub open spec fn spec_ttl_for_path(p: Seq<char>) -> i64 {
    if is_prefix("/2/users/"@, p) && contains_seq(p, "/bookmarks"@) {
        900
    } else if is_prefix("/2/tweets/search/"@, p) {
        900
    } else if is_prefix("/2/users/by/"@, p) || is_prefix("/2/users/"@, p) {
        3600
    } else {
        900
    }
}

/// The default lifetime of a URL's entry, by its path (a URL that does not
/// parse has the empty path).
pub open spec fn spec_default_ttl(url: Seq<char>) -> i64 {
    spec_ttl_for_path(
        match parsed_url(url) {
            Some(u) => u.2,
            None => Seq::empty(),
        },
    )
}

/// Per-endpoint default lifetime, in seconds.
pub fn default_ttl_for_endpoint(url: &str) -> (r: i64)
    ensures
        r == spec_default_ttl(url@),
{
    let path = match parse_url(url) {
        Some(u) => u.path,
        None => String::new(),
    };
    let p = path.as_str();
    if str_starts_with(p, "/2/users/") && str_contains(p, "/bookmarks") {
        return 900;
    }
    if str_starts_with(p, "/2/tweets/search/") {
        return 900;
    }
    if str_starts_with(p, "/2/users/by/") || str_starts_with(p, "/2/users/") {
        return 3600;
    }
    if str_starts_with(p, "/2/tweets/") {
        return 900;
    }
    900
}

/// The lifetime used: `--cache-ttl` capped at a day, else the endpoint's
/// default.
pub fn effective_ttl(cache_ttl: Option<u64>, url: &str) -> (r: i64)
    ensures
        match cache_ttl {
            Some(t) => r == (if t < 86400 {
                t as int
            } else {
                86400
            }),
            None => r == spec_default_ttl(url@),
        },
{
    match cache_ttl {
        Some(t) => if t < 86400 {
            t as i64
        } else {
            86400
        },
        None => default_ttl_for_endpoint(url),
    }
}

/// The username part of a cache key: the user, or `__app__` for app-only
/// requests.
pub open spec fn key_user(username: Option<Seq<char>>) -> Seq<char> {
    match username {
        Some(u) => u,
        None => "__app__"@,
    }
}

/// The cache key: hex SHA-256 of method, normalized URL, auth scheme and
/// username, separated by NUL characters.
pub open spec fn spec_cache_key(
    method: Seq<char>,
    url: Seq<char>,
    auth: AuthType,
    username: Option<Seq<char>>,
) -> Seq<char> {
    hex_spec(
        sha256_of(
            vstd::utf8::encode_utf8(
                method + seq!['\0'] + spec_normalize_url(url) + seq!['\0'] + auth_type_name(auth)
                    + seq!['\0'] + key_user(username),
            ),
        ),
    )
}

/// Computes the cache key of a request.
pub fn compute_cache_key(method: &str, url: &str, auth: &AuthType, username: Option<&str>) -> (r:
    String)
    ensures
        r@ == spec_cache_key(
            method@,
            url@,
            *auth,
            match username {
                Some(u) => Some(u@),
                None => None,
            },
        ),
{
    let mut input = owned(method);
    push_char(&mut input, '\0');
    let n = normalize_url(url);
    push_str(&mut input, n.as_str());
    push_char(&mut input, '\0');
    push_str(&mut input, auth.as_str());
    push_char(&mut input, '\0');
    match username {
        Some(u) => push_str(&mut input, u),
        None => push_str(&mut input, "__app__"),
    }
    let ghost uname = match username {
        Some(u) => Some(u@),
        None => None::<Seq<char>>,
    };
    assert(input@ =~= method@ + seq!['\0'] + spec_normalize_url(url@) + seq!['\0'] + auth_type_name(
        *auth,
    ) + seq!['\0'] + key_user(uname));
    let bytes = input.as_str().as_bytes();
    assert(bytes@ == vstd::utf8::encode_utf8(input@));
    let digest = sha256(bytes);
    encode(digest.as_slice())
}

} // verus!
