//! Command-line vocabulary: the parsed command tree and its flag types, with
//! the pure decisions made on them before any request is sent.

pub mod argv;
pub mod clap_errors;
pub mod commands;
pub mod dispatch;
pub mod parsers;
pub mod runner;
pub mod writes;

use vstd::prelude::*;
use crate::login::HeadlessAuthArgs;
use crate::output::{ColorMode, OutputFormat};
use crate::text::owned;

verus! {

/// Default request timeout, in seconds.
pub const DEFAULT_TIMEOUT_SECS: u64 = 30;

/// Auth schemes picked at request time.
#[derive(Clone, Copy, Debug, PartialEq, Eq, Structural)]
pub enum AuthType {
    OAuth2User,
    OAuth1,
    Bearer,
    NoAuth,
}

/// The display name of an auth scheme.
pub open spec fn auth_type_name(a: AuthType) -> Seq<char> {
    match a {
        AuthType::OAuth2User => "oauth2_user"@,
        AuthType::OAuth1 => "oauth1"@,
        AuthType::Bearer => "bearer"@,
        AuthType::NoAuth => "none"@,
    }
}

impl AuthType {
    /// The display name (`oauth2_user`, `oauth1`, `bearer`, `none`).
    pub fn as_str(&self) -> (r: &'static str)
        ensures
            r@ == auth_type_name(*self),
    {
        match self {
            AuthType::OAuth2User => "oauth2_user",
            AuthType::OAuth1 => "oauth1",
            AuthType::Bearer => "bearer",
            AuthType::NoAuth => "none",
        }
    }

    /// The display name as an owned string.
    pub fn to_string(&self) -> (r: String)
        ensures
            r@ == auth_type_name(*self),
    {
        owned(self.as_str())
    }
}

/// `--force`/`--yes` and `--dry-run` flags of a mutating command.
#[derive(Clone, Copy, Debug)]
pub struct WriteGuard {
    pub force: bool,
    pub dry_run: bool,
}

impl Default for WriteGuard {
    fn default() -> (g: Self)
        ensures
            !g.force,
            !g.dry_run,
    {
        WriteGuard { force: false, dry_run: false }
    }
}

/// Shells for which completions can be generated.
#[derive(Clone, Copy, Debug, PartialEq, Eq, Structural)]
pub enum Shell {
    Bash,
    Elvish,
    Fish,
    PowerShell,
    Zsh,
}

/// `bird skill` actions.
#[derive(Clone, Debug)]
pub enum SkillAction {
    Install { host: Option<String>, all: bool, dry_run: bool },
    Update { host: Option<String>, all: bool, dry_run: bool },
}

/// `bird cache` actions.
#[derive(Clone, Debug)]
pub enum CacheAction {
    Clear { guard: WriteGuard },
    Stats { pretty: bool },
}

/// `bird watchlist` actions.
#[derive(Clone, Debug)]
pub enum WatchlistCommand {
    Fetch,
    Add { username: String },
    Remove { username: String, guard: WriteGuard },
    List,
}

/// Every subcommand with its arguments.
#[derive(Clone, Debug)]
pub enum Command {
    Login { headless: HeadlessAuthArgs },
    Me { pretty: bool },
    Get { path: String, param: Vec<String>, query: Vec<String>, pretty: bool },
    Post {
        path: String,
        param: Vec<String>,
        query: Vec<String>,
        body: Option<String>,
        pretty: bool,
        guard: WriteGuard,
    },
    Put {
        path: String,
        param: Vec<String>,
        query: Vec<String>,
        body: Option<String>,
        pretty: bool,
        guard: WriteGuard,
    },
    Bookmarks { pretty: bool },
    Profile { username: String, pretty: bool },
    Search {
        query: String,
        pretty: bool,
        sort: String,
        min_likes: Option<u64>,
        max_results: Option<u32>,
        pages: Option<u32>,
    },
    Thread { tweet_id: String, pretty: bool, max_pages: u32 },
    Delete { path: String, param: Vec<String>, query: Vec<String>, pretty: bool, guard: WriteGuard },
    Watchlist { action: WatchlistCommand, pretty: bool },
    Usage { since: Option<String>, local: bool, pretty: bool },
    Tweet { text: String, media_id: Option<String>, guard: WriteGuard },
    Reply { tweet_id: String, text: String, guard: WriteGuard },
    Like { tweet_id: String, guard: WriteGuard },
    Unlike { tweet_id: String, guard: WriteGuard },
    Repost { tweet_id: String, guard: WriteGuard },
    Unrepost { tweet_id: String, guard: WriteGuard },
    Follow { username: String, guard: WriteGuard },
    Unfollow { username: String, guard: WriteGuard },
    Dm { username: String, text: String, guard: WriteGuard },
    Block { username: String, guard: WriteGuard },
    Unblock { username: String, guard: WriteGuard },
    Mute { username: String, guard: WriteGuard },
    Unmute { username: String, guard: WriteGuard },
    Doctor { command: Option<String>, pretty: bool },
    Cache { action: CacheAction },
    Completions { shell: Shell },
    Skill { action: SkillAction },
    Schema { name: Option<String>, list: bool },
}

/// Color mode after the hidden `--plain` / `--no-color` aliases are applied.
pub open spec fn spec_effective_color(plain: bool, no_color: bool, color: ColorMode) -> ColorMode {
    if plain || no_color {
        ColorMode::Never
    } else {
        color
    }
}

/// The color mode in effect: `--plain` or `--no-color` force `Never`,
/// otherwise `--color` decides.
pub fn effective_color(plain: bool, no_color: bool, color: ColorMode) -> (r: ColorMode)
    ensures
        r == spec_effective_color(plain, no_color, color),
{
    if plain || no_color {
        ColorMode::Never
    } else {
        color
    }
}

/// The output format asked for by flags: `--json` wins, then `--jsonl`,
/// then `--output`.
pub fn effective_output(json: bool, jsonl: bool, output: Option<OutputFormat>) -> (r: Option<
    OutputFormat,
>)
    ensures
        json ==> r == Some(OutputFormat::Json),
        !json && jsonl ==> r == Some(OutputFormat::Jsonl),
        !json && !jsonl ==> r == output,
{
    if json {
        Some(OutputFormat::Json)
    } else if jsonl {
        Some(OutputFormat::Jsonl)
    } else {
        output
    }
}

} // verus!
