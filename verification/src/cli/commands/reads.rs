//! `bird me` and `bird get`: GET requests through the raw request layer.

use vstd::prelude::*;
use crate::cli::AuthType;
use crate::cli::commands::RawCall;
use crate::cli::dispatch::{
    default_auth_of, default_auth_type, get_query, get_query_spec, parse_param_vec,
    spec_param_map, ListFlags, ParamMap,
};
use crate::text::owned;

verus! {

/// `bird me`: a GET of the authenticated user, under the command's default
/// auth scheme (`accepted` is the command's requirements entry).
pub fn run_me(accepted: Option<&[AuthType]>) -> (r: RawCall)
    ensures
        r.command@ == "me"@,
        r.method@ == "GET"@,
        r.path@ == "/2/users/me"@,
        r.params@ == Map::<Seq<char>, Seq<char>>::empty(),
        r.query@.len() == 0,
        r.body is None,
        r.auth_type == default_auth_of(accepted),
{
    RawCall {
        command: "me",
        method: "GET",
        path: owned("/2/users/me"),
        params: ParamMap::new(),
        query: Vec::new(),
        body: None,
        auth_type: default_auth_type(accepted),
    }
}

/// `bird get PATH`: a GET of the path with its `KEY=VALUE` parameters, the
/// query arguments extended by the list flags (cursor, then the limit
/// clamped to 1000).
pub fn run_get(
    path: String,
    param: Vec<String>,
    query: Vec<String>,
    list_flags: &ListFlags,
    accepted: Option<&[AuthType]>,
) -> (r: RawCall)
    ensures
        r.command@ == "get"@,
        r.method@ == "GET"@,
        r.path@ == path@,
        r.params@ == spec_param_map(param@.map_values(|s: String| s@)),
        r.query@.map_values(|s: String| s@) == get_query_spec(
            query@.map_values(|s: String| s@),
            *list_flags,
        ),
        r.body is None,
        r.auth_type == default_auth_of(accepted),
{
    let params = parse_param_vec(param.as_slice());
    let query = get_query(query, list_flags);
    RawCall {
        command: "get",
        method: "GET",
        path,
        params,
        query,
        body: None,
        auth_type: default_auth_type(accepted),
    }
}

} // verus!
