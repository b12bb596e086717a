//! The requests of the commands that go through the raw request layer:
//! `bird me` and `bird get` (reads), `bird post`, `bird put` and
//! `bird delete` (raw writes), and `bird watchlist fetch`.

pub mod raw_write;
pub mod reads;
pub mod watchlist;

use vstd::prelude::*;
use crate::cli::AuthType;
use crate::cli::dispatch::ParamMap;

verus! {

/// A raw request as the raw runner sends it: the method, the path template
/// and its `{name}` parameters, the `KEY=VALUE` query arguments, the body,
/// the auth scheme, and the command name a failure is reported under.
#[derive(Clone, Debug)]
pub struct RawCall {
    pub command: &'static str,
    pub method: &'static str,
    pub path: String,
    pub params: ParamMap,
    pub query: Vec<String>,
    pub body: Option<String>,
    pub auth_type: AuthType,
}

} // verus!
