//! `bird post`, `bird put`, `bird delete`: raw write requests, each shown by
//! its guard at the URL it would reach.

use vstd::prelude::*;
use crate::cli::AuthType;
use crate::cli::commands::RawCall;
use crate::cli::dispatch::{
    build_dry_run_url, default_auth_of, default_auth_type, dry_run_url_spec, parse_param_vec,
    spec_param_map,
};
use crate::db::parsed_url;
use crate::raw::{api_url, request_url_spec, resolve_path_spec};
use crate::text::{owned, push_str};

verus! {

/// A raw write: its request, and the verb and URL its write guard shows.
#[derive(Clone, Debug)]
pub struct RawWrite {
    pub call: RawCall,
    pub verb: &'static str,
    pub target: String,
}

/// The URL a raw write's guard shows: the dry-run URL of the request, or
/// the bare path under the API host when that cannot be built.
pub open spec fn write_target_spec(
    path: Seq<char>,
    params: Map<Seq<char>, Seq<char>>,
    query: Seq<Seq<char>>,
) -> Seq<char> {
    match dry_run_url_spec(path, params, query) {
        Some(u) => u,
        None => api_url(path),
    }
}

/// `w` is the raw write of `command` with these arguments: sent with
/// `method`, guarded under `verb` at the write target, authenticated with
/// `auth`.
pub open spec fn is_raw_write(
    w: RawWrite,
    command: Seq<char>,
    verb: Seq<char>,
    method: Seq<char>,
    path: Seq<char>,
    param: Seq<Seq<char>>,
    query: Seq<Seq<char>>,
    body: Option<Seq<char>>,
    auth: AuthType,
) -> bool {
    &&& w.call.command@ == command
    &&& w.verb@ == verb
    &&& w.call.method@ == method
    &&& w.call.path@ == path
    &&& w.call.params@ == spec_param_map(param)
    &&& w.call.query@.map_values(|s: String| s@) == query
    &&& match body {
        Some(b) => w.call.body matches Some(x) && x@ == b,
        None => w.call.body is None,
    }
    &&& w.call.auth_type == auth
    &&& w.target@ == write_target_spec(path, spec_param_map(param), query)
}

/// A raw write's guard shows the URL its request reaches: when the path's
/// placeholders resolve and the URL parses, the write target is the request
/// URL the raw runner builds from the resolved path and the query.
pub proof fn law_guard_shows_the_request_url(
    path: Seq<char>,
    params: Map<Seq<char>, Seq<char>>,
    query: Seq<Seq<char>>,
)
    requires
        resolve_path_spec(path, params) is Ok,
        parsed_url(api_url(resolve_path_spec(path, params)->Ok_0)) is Some,
    ensures
        write_target_spec(path, params, query) == request_url_spec(
            resolve_path_spec(path, params)->Ok_0,
            query,
        ),
{
}

fn raw_write(
    command: &'static str,
    verb: &'static str,
    method: &'static str,
    path: String,
    param: Vec<String>,
    query: Vec<String>,
    body: Option<String>,
    accepted: Option<&[AuthType]>,
) -> (r: RawWrite)
    ensures
        is_raw_write(
            r,
            command@,
            verb@,
            method@,
            path@,
            param@.map_values(|s: String| s@),
            query@.map_values(|s: String| s@),
            match body {
                Some(b) => Some(b@),
                None => None,
            },
            default_auth_of(accepted),
        ),
{
    let params = parse_param_vec(param.as_slice());
    let target = match build_dry_run_url(path.as_str(), &params, query.as_slice()) {
        Some(u) => u,
        None => {
            let mut t = owned("https://api.x.com");
            push_str(&mut t, path.as_str());
            t
        },
    };
    let call = RawCall {
        command,
        method,
        path,
        params,
        query,
        body,
        auth_type: default_auth_type(accepted),
    };
    RawWrite { call, verb, target }
}

/// `bird post PATH`: a POST with the optional body, guarded as `POST`.
pub fn run_post(
    path: String,
    param: Vec<String>,
    query: Vec<String>,
    body: Option<String>,
    accepted: Option<&[AuthType]>,
) -> (r: RawWrite)
    ensures
        is_raw_write(
            r,
            "post"@,
            "POST"@,
            "POST"@,
            path@,
            param@.map_values(|s: String| s@),
            query@.map_values(|s: String| s@),
            match body {
                Some(b) => Some(b@),
                None => None,
            },
            default_auth_of(accepted),
        ),
{
    raw_write("post", "POST", "POST", path, param, query, body, accepted)
}

/// `bird put PATH`: a PUT with the optional body, guarded as `PUT`.
pub fn run_put(
    path: String,
    param: Vec<String>,
    query: Vec<String>,
    body: Option<String>,
    accepted: Option<&[AuthType]>,
) -> (r: RawWrite)
    ensures
        is_raw_write(
            r,
            "put"@,
            "PUT"@,
            "PUT"@,
            path@,
            param@.map_values(|s: String| s@),
            query@.map_values(|s: String| s@),
            match body {
                Some(b) => Some(b@),
                None => None,
            },
            default_auth_of(accepted),
        ),
{
    raw_write("put", "PUT", "PUT", path, param, query, body, accepted)
}

/// `bird delete PATH`: a DELETE without a body, guarded as `delete`.
pub fn run_delete(
    path: String,
    param: Vec<String>,
    query: Vec<String>,
    accepted: Option<&[AuthType]>,
) -> (r: RawWrite)
    ensures
        is_raw_write(
            r,
            "delete"@,
            "delete"@,
            "DELETE"@,
            path@,
            param@.map_values(|s: String| s@),
            query@.map_values(|s: String| s@),
            None,
            default_auth_of(accepted),
        ),
{
    raw_write("delete", "delete", "DELETE", path, param, query, None, accepted)
}

} // verus!
