//! OAuth2 login: headless-mode arguments and reading the authorize URL that
//! the transport emits.

use vstd::prelude::*;
use crate::db::{parse_url, parsed_url};
use crate::text::{chars_eq, chars_of, owned};

verus! {

/// Arguments of `bird login` for the headless (no browser) mode.
#[derive(Clone, Debug)]
pub struct HeadlessAuthArgs {
    /// Print the authorization URL and read the redirect URL from stdin.
    pub no_browser: bool,
}

/// The value of the first query pair named `key`.
pub open spec fn first_value(ps: Seq<(Seq<char>, Seq<char>)>, key: Seq<char>, i: int) -> Option<Seq<char>>
    decreases ps.len() - i,
{
    if i < 0 || i >= ps.len() {
        None
    } else if ps[i].0 == key {
        Some(ps[i].1)
    } else {
        first_value(ps, key, i + 1)
    }
}

/// The decoded value of the first query parameter `key` of a URL; `None`
/// when the URL does not parse or has no such parameter.
pub open spec fn spec_query_param(url: Seq<char>, key: Seq<char>) -> Option<Seq<char>> {
    match parsed_url(url) {
        None => None,
        Some(u) => first_value(u.3, key, 0),
    }
}

/// Pulls a (URL-decoded) query value from a URL string.
pub fn extract_query_param(url_str: &str, key: &str) -> (r: Option<String>)
    ensures
        match spec_query_param(url_str@, key@) {
            Some(v) => r matches Some(s) && s@ == v,
            None => r is None,
        },
{
    let u = match parse_url(url_str) {
        None => {
            return None;
        },
        Some(u) => u,
    };
    let ghost ps = u.query_pairs@.map_values(|p: (String, String)| (p.0@, p.1@));
    let k = chars_of(key);
    let mut i: usize = 0;
    while i < u.query_pairs.len()
        invariant
            i <= u.query_pairs@.len(),
            ps == u.query_pairs@.map_values(|p: (String, String)| (p.0@, p.1@)),
            k@ == key@,
            parsed_url(url_str@) == Some(u.view_parts()),
            first_value(ps, key@, 0) == first_value(ps, key@, i as int),
        decreases u.query_pairs@.len() - i,
    {
        let c = chars_of(u.query_pairs[i].0.as_str());
        assert(c@ == ps[i as int].0);
        if chars_eq(c.as_slice(), k.as_slice()) {
            assert(ps[i as int].1 == u.query_pairs@[i as int].1@);
            assert(first_value(ps, key@, i as int) == Some(ps[i as int].1));
            return Some(owned(u.query_pairs[i].1.as_str()));
        }
        i = i + 1;
    }
    None
}

/// The `state` parameter of the authorize URL.
pub fn parse_oauth2_authorize_url_state(url_str: &str) -> (r: Option<String>)
    ensures
        match spec_query_param(url_str@, "state"@) {
            Some(v) => r matches Some(s) && s@ == v,
            None => r is None,
        },
{
    extract_query_param(url_str, "state")
}

/// The notice after a login cleared the store: shown only when entries were
/// cleared and diagnostics are not suppressed.
pub fn cleared_after_login_notice(count: u64, quiet: bool) -> (r: Option<String>)
    ensures
        (count == 0 || quiet) ==> r is None,
        (count > 0 && !quiet) ==> (r matches Some(s) && s@ == "[store] Cleared "@
            + crate::text::decimal_spec(count as nat) + " stored entries after login."@),
{
    if count > 0 && !quiet {
        let mut s = owned("[store] Cleared ");
        let d = crate::text::decimal(count);
        crate::text::push_str(&mut s, d.as_str());
        crate::text::push_str(&mut s, " stored entries after login.");
        Some(s)
    } else {
        None
    }
}

} // verus!
