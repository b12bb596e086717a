//! `bird profile`: the lookup URL, and how a failed lookup is reported.

use vstd::prelude::*;
use crate::db::{parse_url, parsed_url};
use crate::fields::{USER_FIELDS, user_query_params};
use crate::output::{sanitize_for_stderr, sanitize_spec};
use crate::raw::{append_query, url_appended};
use crate::text::{chars_of, decimal, decimal_spec, owned, push_str, slice_vec, string_of};

verus! {

/// Options of one profile lookup.
#[derive(Clone, Debug)]
pub struct ProfileOpts {
    pub username: String,
    pub pretty: bool,
}

/// The lookup endpoint of a username.
pub open spec fn spec_profile_base(username: Seq<char>) -> Seq<char> {
    "https://api.x.com/2/users/by/username/"@ + username
}

fn profile_base(username: &str) -> (r: String)
    ensures
        r@ == spec_profile_base(username@),
{
    let mut r = owned("https://api.x.com/2/users/by/username/");
    push_str(&mut r, username);
    r
}

/// The lookup URL: the endpoint with the user field set appended as its
/// query by the URL library.
pub fn profile_url(username: &str) -> (r: String)
    requires
        parsed_url(spec_profile_base(username@)) is Some,
    ensures
        r@ == url_appended(spec_profile_base(username@), seq![("user.fields"@, USER_FIELDS@)]),
{
    let base = profile_base(username);
    let fields = user_query_params();
    let mut pairs: Vec<(String, String)> = Vec::new();
    pairs.push((owned(fields[0].0), owned(fields[0].1)));
    assert(crate::db::get::pair_views(pairs@) =~= seq![("user.fields"@, USER_FIELDS@)]);
    append_query(base.as_str(), &pairs)
}

/// [`profile_url`] for a username that may not form a valid URL: `None`
/// when it does not.
pub fn try_profile_url(username: &str) -> (r: Option<String>)
    ensures
        parsed_url(spec_profile_base(username@)) is None ==> r is None,
        parsed_url(spec_profile_base(username@)) is Some ==> (r matches Some(u) && u@
            == url_appended(spec_profile_base(username@), seq![("user.fields"@, USER_FIELDS@)])),
{
    let base = profile_base(username);
    match parse_url(base.as_str()) {
        None => None,
        Some(_) => Some(profile_url(username)),
    }
}

/// The error for an unsuccessful status: the status and the start of the
/// body made safe for a terminal.
pub fn profile_status_failure(status: u16, body: &str) -> (r: String)
    ensures
        r@ == "GET profile "@ + decimal_spec(status as nat) + ": "@ + sanitize_spec(body@, 200),
{
    let mut r = owned("GET profile ");
    let d = decimal(status as u64);
    push_str(&mut r, d.as_str());
    push_str(&mut r, ": ");
    let b = sanitize_for_stderr(body, 200);
    push_str(&mut r, b.as_str());
    r
}

/// The error for a lookup whose response carries an `errors` array: the
/// first error's `detail`, or `unknown error` without one.
pub fn profile_failure(detail: Option<&str>) -> (r: String)
    ensures
        r@ == "profile failed: "@ + match detail {
            Some(d) => d@,
            None => "unknown error"@,
        },
{
    let mut r = owned("profile failed: ");
    match detail {
        Some(d) => push_str(&mut r, d),
        None => push_str(&mut r, "unknown error"),
    }
    r
}

/// The username without one leading `@` (usernames are accepted with or
/// without it).
pub fn bare_username(username: &str) -> (r: String)
    ensures
        r@ == (if username@.len() > 0 && username@[0] == '@' {
            username@.drop_first()
        } else {
            username@
        }),
{
    let cs = chars_of(username);
    if cs.len() > 0 && cs[0] == '@' {
        let rest = slice_vec(cs.as_slice(), 1, cs.len());
        assert(rest@ =~= username@.drop_first());
        string_of(rest.as_slice())
    } else {
        owned(username)
    }
}

} // verus!
