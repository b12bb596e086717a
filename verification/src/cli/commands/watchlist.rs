//! `bird watchlist fetch`: recent activity of every watched user, one page
//! per user.

use vstd::prelude::*;
use crate::cli::AuthType;
use crate::cli::dispatch::{
    clamp_limit, default_auth_of, default_auth_type, spec_clamp_limit, ListFlags,
};

verus! {

/// The options of a watchlist check: pretty output, the page size, and the
/// cursor to start from.
#[derive(Clone, Debug)]
pub struct WatchlistFetch {
    pub pretty: bool,
    pub limit: u32,
    pub cursor: Option<String>,
    pub auth_type: AuthType,
}

/// `bird watchlist fetch`: the list limit clamped to 1000 (100 when absent
/// or zero), the cursor as given, under the command's default auth scheme.
pub fn run_fetch(pretty: bool, list_flags: &ListFlags, accepted: Option<&[AuthType]>) -> (r:
    WatchlistFetch)
    ensures
        r.pretty == pretty,
        r.limit == spec_clamp_limit(list_flags.limit, 100, 1000).0,
        r.cursor == list_flags.cursor,
        r.auth_type == default_auth_of(accepted),
{
    let (limit, _) = clamp_limit(list_flags.limit, 100, 1000);
    WatchlistFetch {
        pretty,
        limit,
        cursor: list_flags.cursor.clone(),
        auth_type: default_auth_type(accepted),
    }
}

} // verus!
