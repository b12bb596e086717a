//! Decisions the runner makes on a parsed command before and around a
//! request: which commands need the transport, how `--auth` is checked, how
//! the write guard resolves, how list limits are clamped, and how write
//! commands are gated by `--cache-only`.

use vstd::prelude::*;
use crate::cli::{AuthType, CacheAction, Command, WatchlistCommand, WriteGuard};
use crate::error::{BirdError, ErrorSource, is_from_source, spec_error_id, spec_message};
use crate::output::{json_quote, json_string, spec_success_envelope, success_envelope_string};
use crate::db::parsed_url;
use crate::raw::{api_url, raw_url, request_url_spec, resolve_path, resolve_path_spec};
use crate::text::{
    ascii_lower_seq, chars_eq, chars_of, debug_str, owned, push_str, split_once, split_once_spec,
    str_debug, string_of, to_ascii_lowercase, trim, trim_spec,
};

verus! {

// ----- KEY=VALUE parameters -----

/// Parameters collected from `KEY=VALUE` arguments, in the order given.
/// A key given more than once maps to its last value.
#[derive(Clone, Debug)]
pub struct ParamMap {
    pub entries: Vec<(String, String)>,
}

/// The map built by inserting the pairs in order (later pairs win).
pub open spec fn pairs_map(es: Seq<(Seq<char>, Seq<char>)>) -> Map<Seq<char>, Seq<char>>
    decreases es.len(),
{
    if es.len() == 0 {
        Map::empty()
    } else {
        pairs_map(es.drop_last()).insert(es.last().0, es.last().1)
    }
}

/// The views of a list of string pairs.
pub open spec fn pair_views(es: Seq<(String, String)>) -> Seq<(Seq<char>, Seq<char>)> {
    es.map_values(|e: (String, String)| (e.0@, e.1@))
}

/// The pairs of the arguments that hold an `=`, split at the first `=`.
pub open spec fn param_pairs(ps: Seq<Seq<char>>) -> Seq<(Seq<char>, Seq<char>)>
    decreases ps.len(),
{
    if ps.len() == 0 {
        Seq::empty()
    } else {
        let prev = param_pairs(ps.drop_last());
        match split_once_spec(ps.last(), '=') {
            Some(kv) => prev.push(kv),
            None => prev,
        }
    }
}

/// The parameter map of the arguments: each `KEY=VALUE` (split at the first
/// `=`) in order, later keys overriding earlier ones; arguments without `=`
/// are ignored.
pub open spec fn spec_param_map(ps: Seq<Seq<char>>) -> Map<Seq<char>, Seq<char>> {
    pairs_map(param_pairs(ps))
}

impl View for ParamMap {
    type V = Map<Seq<char>, Seq<char>>;

    open spec fn view(&self) -> Map<Seq<char>, Seq<char>> {
        pairs_map(pair_views(self.entries@))
    }
}

/// The key is among the pairs exactly when the map holds it, with the value
/// of its last occurrence.
proof fn lemma_pairs_map_last(es: Seq<(Seq<char>, Seq<char>)>, k: Seq<char>, i: int)
    requires
        0 <= i < es.len(),
        es[i].0 == k,
        forall|j: int| i < j < es.len() ==> es[j].0 != k,
    ensures
        pairs_map(es).dom().contains(k),
        pairs_map(es)[k] == es[i].1,
    decreases es.len(),
{
    if i < es.len() - 1 {
        lemma_pairs_map_last(es.drop_last(), k, i);
    }
}

proof fn lemma_pairs_map_absent(es: Seq<(Seq<char>, Seq<char>)>, k: Seq<char>)
    requires
        forall|j: int| 0 <= j < es.len() ==> es[j].0 != k,
    ensures
        !pairs_map(es).dom().contains(k),
    decreases es.len(),
{
    if es.len() > 0 {
        lemma_pairs_map_absent(es.drop_last(), k);
    }
}

/// The views of a list of strings.
pub open spec fn key_views(ks: Seq<String>) -> Seq<Seq<char>> {
    ks.map_values(|k: String| k@)
}

/// Whether `k` is among the strings.
fn contains_key(keys: &Vec<String>, k: &str) -> (r: bool)
    ensures
        r == key_views(keys@).contains(k@),
{
    let kc = chars_of(k);
    let mut j: usize = 0;
    while j < keys.len()
        invariant
            j <= keys@.len(),
            kc@ == k@,
            forall|t: int| 0 <= t < j ==> key_views(keys@)[t] != k@,
        decreases keys@.len() - j,
    {
        let c = chars_of(keys[j].as_str());
        if chars_eq(c.as_slice(), kc.as_slice()) {
            assert(key_views(keys@)[j as int] == k@);
            return true;
        }
        j = j + 1;
    }
    false
}

impl ParamMap {
    /// An empty parameter map.
    pub fn new() -> (r: ParamMap)
        ensures
            r.entries@.len() == 0,
            r@ == Map::<Seq<char>, Seq<char>>::empty(),
    {
        ParamMap { entries: Vec::new() }
    }

    /// The value of `key`: that of its last occurrence.
    pub fn get(&self, key: &str) -> (r: Option<&String>)
        ensures
            match r {
                Some(v) => self@.dom().contains(key@) && self@[key@] == v@,
                None => !self@.dom().contains(key@),
            },
    {
        let ghost es = pair_views(self.entries@);
        let kc = chars_of(key);
        let mut i: usize = self.entries.len();
        while i > 0
            invariant
                i <= self.entries@.len(),
                es == pair_views(self.entries@),
                kc@ == key@,
                forall|j: int| i <= j < es.len() ==> es[j].0 != key@,
            decreases i,
        {
            i = i - 1;
            let kcs = chars_of(self.entries[i].0.as_str());
            if chars_eq(kcs.as_slice(), kc.as_slice()) {
                proof { lemma_pairs_map_last(es, key@, i as int); }
                return Some(&self.entries[i].1);
            }
        }
        proof { lemma_pairs_map_absent(es, key@); }
        None
    }

    /// Number of distinct keys.
    pub fn len(&self) -> (r: usize)
        ensures
            r == self@.dom().len(),
    {
        let ghost es = pair_views(self.entries@);
        let mut keys: Vec<String> = Vec::new();
        let mut i: usize = 0;
        while i < self.entries.len()
            invariant
                i <= self.entries@.len(),
                es == pair_views(self.entries@),
                keys@.len() <= i,
                key_views(keys@).no_duplicates(),
                forall|k: Seq<char>|
                    #![trigger pairs_map(es.take(i as int)).dom().contains(k)]
                    key_views(keys@).contains(k) <==> pairs_map(es.take(i as int)).dom().contains(k),
            decreases self.entries@.len() - i,
        {
            let k = &self.entries[i].0;
            let ghost kv = k@;
            assert(es[i as int].0 == kv);
            let ghost pm_old = pairs_map(es.take(i as int));
            let ghost pm_new = pairs_map(es.take(i + 1));
            let ghost kb = key_views(keys@);
            proof {
                assert(es.take(i + 1).drop_last() =~= es.take(i as int));
                assert(es.take(i + 1).last() == es[i as int]);
                assert(pm_new == pm_old.insert(kv, es[i as int].1));
                assert forall|q: Seq<char>| kb.contains(q) <==> pm_old.dom().contains(q) by {}
            }
            if !contains_key(&keys, k.as_str()) {
                let ghost before = keys@;
                keys.push(k.clone());
                proof {
                    assert(key_views(keys@) =~= key_views(before).push(kv));
                    assert forall|a: int, b: int|
                        0 <= a < b < key_views(keys@).len() implies key_views(keys@)[a]
                        != key_views(keys@)[b] by {
                        if b == key_views(keys@).len() - 1 {
                            assert(key_views(before).contains(key_views(keys@)[a]));
                        } else {
                            assert(key_views(before)[a] == key_views(keys@)[a]);
                            assert(key_views(before)[b] == key_views(keys@)[b]);
                        }
                    }
                }
            }
            proof {
                assert forall|q: Seq<char>|
                    key_views(keys@).contains(q) <==> pm_new.dom().contains(q) by {
                    if kb.contains(q) {
                        let t = choose|t: int| 0 <= t < kb.len() && kb[t] == q;
                        assert(key_views(keys@)[t] == q);
                    }
                    if key_views(keys@).len() > kb.len() {
                        assert(key_views(keys@)[kb.len() as int] == kv);
                        if key_views(keys@).contains(q) && q != kv {
                            let t = choose|t: int|
                                0 <= t < key_views(keys@).len() && key_views(keys@)[t] == q;
                            assert(kb[t] == q);
                        }
                    } else {
                        assert(key_views(keys@) == kb);
                    }
                }
            }
            i = i + 1;
        }
        proof {
            assert(es.take(self.entries@.len() as int) =~= es);
            assert(key_views(keys@).to_set() =~= self@.dom());
            key_views(keys@).unique_seq_to_set();
        }
        keys.len()
    }
}

/// Parses `KEY=VALUE` arguments into a parameter map.
pub fn parse_param_vec(param: &[String]) -> (r: ParamMap)
    ensures
        pair_views(r.entries@) == param_pairs(param@.map_values(|s: String| s@)),
        r@ == spec_param_map(param@.map_values(|s: String| s@)),
{
    let ghost ps = param@.map_values(|s: String| s@);
    let mut entries: Vec<(String, String)> = Vec::new();
    let mut i: usize = 0;
    while i < param.len()
        invariant
            i <= param@.len(),
            ps == param@.map_values(|s: String| s@),
            pair_views(entries@) == param_pairs(ps.take(i as int)),
        decreases param@.len() - i,
    {
        let cs = chars_of(param[i].as_str());
        let ghost before = entries@;
        match split_once(cs.as_slice(), '=') {
            Some((k, v)) => {
                entries.push((string_of(k.as_slice()), string_of(v.as_slice())));
                assert(pair_views(entries@) =~= pair_views(before).push((k@, v@)));
            },
            None => {},
        }
        i = i + 1;
        proof {
            assert(ps.take(i as int).drop_last() =~= ps.take((i - 1) as int));
            assert(ps.take(i as int).last() == cs@);
        }
    }
    assert(ps.take(param@.len() as int) =~= ps);
    ParamMap { entries }
}

// ----- transport gating -----

/// A write guard lets the command reach the transport: not a dry run, and
/// either forced or confirmable interactively.
pub open spec fn spec_guard_proceeds(g: WriteGuard, stdin_is_tty: bool, no_interactive: bool) -> bool {
    !g.dry_run && (g.force || (stdin_is_tty && !no_interactive))
}

/// Whether running the command spawns the transport.
pub open spec fn spec_needs_xurl(cmd: Command, stdin_is_tty: bool, no_interactive: bool) -> bool {
    match cmd {
        Command::Cache { .. } => false,
        Command::Watchlist { action, .. } => action is Fetch,
        Command::Login { .. } => true,
        Command::Completions { .. } | Command::Schema { .. } | Command::Skill { .. } => false,
        Command::Doctor { .. } => false,
        Command::Delete { guard, .. }
        | Command::Post { guard, .. }
        | Command::Put { guard, .. }
        | Command::Tweet { guard, .. }
        | Command::Reply { guard, .. }
        | Command::Like { guard, .. }
        | Command::Unlike { guard, .. }
        | Command::Repost { guard, .. }
        | Command::Unrepost { guard, .. }
        | Command::Follow { guard, .. }
        | Command::Unfollow { guard, .. }
        | Command::Dm { guard, .. }
        | Command::Block { guard, .. }
        | Command::Unblock { guard, .. }
        | Command::Mute { guard, .. }
        | Command::Unmute { guard, .. } => spec_guard_proceeds(guard, stdin_is_tty, no_interactive),
        _ => true,
    }
}

fn guard_proceeds(g: &WriteGuard, stdin_is_tty: bool, no_interactive: bool) -> (r: bool)
    ensures
        r == spec_guard_proceeds(*g, stdin_is_tty, no_interactive),
{
    if g.dry_run {
        return false;
    }
    if g.force {
        return true;
    }
    stdin_is_tty && !no_interactive
}

/// True if the command will spawn the transport during normal execution:
/// local-only commands, dry runs and writes that the guard would refuse do
/// not.
pub fn command_needs_xurl(cmd: &Command, stdin_is_tty: bool, no_interactive: bool) -> (r: bool)
    ensures
        r == spec_needs_xurl(*cmd, stdin_is_tty, no_interactive),
{
    match cmd {
        Command::Cache { .. } => false,
        Command::Watchlist { action, .. } => match action {
            WatchlistCommand::Fetch => true,
            _ => false,
        },
        Command::Login { .. } => true,
        Command::Completions { .. } | Command::Schema { .. } | Command::Skill { .. } => false,
        Command::Doctor { .. } => false,
        Command::Delete { guard, .. }
        | Command::Post { guard, .. }
        | Command::Put { guard, .. }
        | Command::Tweet { guard, .. }
        | Command::Reply { guard, .. }
        | Command::Like { guard, .. }
        | Command::Unlike { guard, .. }
        | Command::Repost { guard, .. }
        | Command::Unrepost { guard, .. }
        | Command::Follow { guard, .. }
        | Command::Unfollow { guard, .. }
        | Command::Dm { guard, .. }
        | Command::Block { guard, .. }
        | Command::Unblock { guard, .. }
        | Command::Mute { guard, .. }
        | Command::Unmute { guard, .. } => guard_proceeds(guard, stdin_is_tty, no_interactive),
        _ => true,
    }
}

/// Commands that never reach the API: cache, watchlist, completions, schema,
/// skill and doctor.
pub open spec fn spec_is_local(cmd: Command) -> bool {
    cmd is Cache || cmd is Watchlist || cmd is Completions || cmd is Schema || cmd is Skill
        || cmd is Doctor
}

/// True when the command ultimately hits the X API.
pub fn command_is_api_hitting(cmd: &Command) -> (r: bool)
    ensures
        r == !spec_is_local(*cmd),
{
    match cmd {
        Command::Cache { .. }
        | Command::Watchlist { .. }
        | Command::Completions { .. }
        | Command::Schema { .. }
        | Command::Skill { .. }
        | Command::Doctor { .. } => false,
        _ => true,
    }
}

// ----- --auth checking -----

/// The first of the schemes a command accepts; OAuth2 user context when it
/// has no requirements entry or the entry lists none.
pub open spec fn default_auth_of(accepted: Option<&[AuthType]>) -> AuthType {
    match accepted {
        Some(a) => if a@.len() > 0 {
            a@[0]
        } else {
            AuthType::OAuth2User
        },
        None => AuthType::OAuth2User,
    }
}

/// The first accepted scheme, or OAuth2 user context when the command has
/// no requirements entry or it lists none.
pub fn default_auth_type(accepted: Option<&[AuthType]>) -> (r: AuthType)
    ensures
        r == default_auth_of(accepted),
{
    match accepted {
        Some(a) => if a.len() > 0 {
            a[0]
        } else {
            AuthType::OAuth2User
        },
        None => AuthType::OAuth2User,
    }
}

/// The name under which a command is looked up in the auth requirements
/// table; `None` for commands that need no credentials of their own.
pub open spec fn spec_auth_name(cmd: Command) -> Option<Seq<char>> {
    match cmd {
        Command::Me { .. } => Some("me"@),
        Command::Get { .. } => Some("get"@),
        Command::Post { .. } => Some("post"@),
        Command::Put { .. } => Some("put"@),
        Command::Delete { .. } => Some("delete"@),
        Command::Bookmarks { .. } => Some("bookmarks"@),
        Command::Profile { .. } => Some("profile"@),
        Command::Search { .. } => Some("search"@),
        Command::Thread { .. } => Some("thread"@),
        Command::Tweet { .. } => Some("tweet"@),
        Command::Reply { .. } => Some("reply"@),
        Command::Like { .. } => Some("like"@),
        Command::Unlike { .. } => Some("unlike"@),
        Command::Repost { .. } => Some("repost"@),
        Command::Unrepost { .. } => Some("unrepost"@),
        Command::Follow { .. } => Some("follow"@),
        Command::Unfollow { .. } => Some("unfollow"@),
        Command::Dm { .. } => Some("dm"@),
        Command::Block { .. } => Some("block"@),
        Command::Unblock { .. } => Some("unblock"@),
        Command::Mute { .. } => Some("mute"@),
        Command::Unmute { .. } => Some("unmute"@),
        Command::Usage { .. } => Some("usage"@),
        _ => None,
    }
}

/// The requirements-table name of a command (see [`spec_auth_name`]).
pub fn command_auth_name(cmd: &Command) -> (r: Option<&'static str>)
    ensures
        match spec_auth_name(*cmd) {
            Some(n) => r matches Some(x) && x@ == n,
            None => r is None,
        },
{
    match cmd {
        Command::Me { .. } => Some("me"),
        Command::Get { .. } => Some("get"),
        Command::Post { .. } => Some("post"),
        Command::Put { .. } => Some("put"),
        Command::Delete { .. } => Some("delete"),
        Command::Bookmarks { .. } => Some("bookmarks"),
        Command::Profile { .. } => Some("profile"),
        Command::Search { .. } => Some("search"),
        Command::Thread { .. } => Some("thread"),
        Command::Tweet { .. } => Some("tweet"),
        Command::Reply { .. } => Some("reply"),
        Command::Like { .. } => Some("like"),
        Command::Unlike { .. } => Some("unlike"),
        Command::Repost { .. } => Some("repost"),
        Command::Unrepost { .. } => Some("unrepost"),
        Command::Follow { .. } => Some("follow"),
        Command::Unfollow { .. } => Some("unfollow"),
        Command::Dm { .. } => Some("dm"),
        Command::Block { .. } => Some("block"),
        Command::Unblock { .. } => Some("unblock"),
        Command::Mute { .. } => Some("mute"),
        Command::Unmute { .. } => Some("unmute"),
        Command::Usage { .. } => Some("usage"),
        _ => None,
    }
}

/// The command needs credentials: it has a requirements entry and that
/// entry lists a scheme other than `None`.
pub open spec fn spec_requires_auth(cmd: Command, accepted: Option<Seq<AuthType>>) -> bool {
    spec_auth_name(cmd) is Some && match accepted {
        Some(a) => spec_any_auth(a),
        None => false,
    }
}

/// Some scheme of the list is not `NoAuth`.
pub open spec fn spec_any_auth(a: Seq<AuthType>) -> bool {
    exists|i: int| #![trigger a[i]] 0 <= i < a.len() && !(a[i] is NoAuth)
}

fn any_auth(a: &[AuthType]) -> (r: bool)
    ensures
        r == spec_any_auth(a@),
{
    let mut i: usize = 0;
    while i < a.len()
        invariant
            i <= a@.len(),
            forall|j: int| 0 <= j < i ==> a@[j] is NoAuth,
        decreases a@.len() - i,
    {
        match a[i] {
            AuthType::NoAuth => {},
            _ => {
                assert(!(a@[i as int] is NoAuth));
                return true;
            },
        }
        i = i + 1;
    }
    false
}

fn command_requires_auth(cmd: &Command, accepted: Option<&[AuthType]>) -> (r: bool)
    ensures
        r == spec_requires_auth(*cmd, match accepted {
            Some(a) => Some(a@),
            None => None,
        }),
{
    let name = command_auth_name(cmd);
    if name.is_none() {
        return false;
    }
    match accepted {
        None => false,
        Some(a) => any_auth(a),
    }
}

/// Outcome of checking an `--auth` value: `app`, `oauth1`, `oauth2` are
/// accepted in any ASCII case; `none` only for commands that need no
/// credentials; anything else is refused.
pub open spec fn spec_validate_auth(value: Seq<char>, requires: bool) -> Result<(), Seq<char>> {
    let n = ascii_lower_seq(value);
    if n == "app"@ || n == "oauth1"@ || n == "oauth2"@ {
        Ok(())
    } else if n == "none"@ {
        if requires {
            Err("--auth none is not accepted for this command; supported schemes: app, oauth1, oauth2"@)
        } else {
            Ok(())
        }
    } else {
        Err("--auth value must be one of: app, oauth1, oauth2, none (got: "@ + str_debug(value)
            + ")"@)
    }
}

/// Validates the `--auth` value for a command. `accepted` is the command's
/// entry in the auth requirements table, when it has one.
pub fn validate_auth_value(value: &str, cmd: &Command, accepted: Option<&[AuthType]>) -> (r:
    Result<(), String>)
    ensures
        match spec_validate_auth(
            value@,
            spec_requires_auth(*cmd, match accepted {
                Some(a) => Some(a@),
                None => None,
            }),
        ) {
            Ok(_) => r is Ok,
            Err(m) => r matches Err(e) && e@ == m,
        },
{
    let n = to_ascii_lowercase(value);
    if chars_eq(n.as_slice(), chars_of("app").as_slice()) || chars_eq(
        n.as_slice(),
        chars_of("oauth1").as_slice(),
    ) || chars_eq(n.as_slice(), chars_of("oauth2").as_slice()) {
        Ok(())
    } else if chars_eq(n.as_slice(), chars_of("none").as_slice()) {
        if command_requires_auth(cmd, accepted) {
            Err(
                owned(
                    "--auth none is not accepted for this command; supported schemes: app, oauth1, oauth2",
                ),
            )
        } else {
            Ok(())
        }
    } else {
        let mut m = owned("--auth value must be one of: app, oauth1, oauth2, none (got: ");
        let d = debug_str(value);
        push_str(&mut m, d.as_str());
        push_str(&mut m, ")");
        Err(m)
    }
}

// ----- write guard -----

/// Outcome of a write-guard check.
#[derive(Clone, Copy, Debug, PartialEq, Eq, Structural)]
pub enum GuardOutcome {
    /// `--dry-run`: the would-be request is shown and nothing is sent.
    DryRun,
    /// Confirmed (by `--force`/`--yes` or an interactive yes): proceed.
    Proceed,
}

/// What the guard needs before a mutating command may run.
#[derive(Clone, Copy, Debug, PartialEq, Eq, Structural)]
pub enum GuardStep {
    /// Show the would-be request and stop.
    DryRun,
    /// Run without asking.
    Proceed,
    /// Ask the user and decide on the answer.
    Prompt,
}

/// The message of the error that refuses an unconfirmed destructive command.
pub open spec fn confirmation_required_message(verb: Seq<char>) -> Seq<char> {
    "destructive operation '"@ + verb
        + "' requires --force, --yes, or interactive confirmation"@
}

/// The guard's first decision: a dry run short-circuits, then `--force`;
/// otherwise the user is asked when that is possible and allowed, and the
/// command is refused with `requires-confirmation` when not.
pub fn guard_step(verb: &str, guard: WriteGuard, no_interactive: bool, can_prompt: bool) -> (r:
    Result<GuardStep, BirdError>)
    ensures
        guard.dry_run ==> r == Ok::<GuardStep, BirdError>(GuardStep::DryRun),
        !guard.dry_run && guard.force ==> r == Ok::<GuardStep, BirdError>(GuardStep::Proceed),
        !guard.dry_run && !guard.force && can_prompt && !no_interactive ==> r == Ok::<
            GuardStep,
            BirdError,
        >(GuardStep::Prompt),
        !guard.dry_run && !guard.force && (!can_prompt || no_interactive) ==> (r matches Err(
            BirdError::Usage { error_id, message },
        ) && error_id@ == "requires-confirmation"@ && message@ == confirmation_required_message(
            verb@,
        )),
{
    if guard.dry_run {
        return Ok(GuardStep::DryRun);
    }
    if guard.force {
        return Ok(GuardStep::Proceed);
    }
    if !can_prompt || no_interactive {
        let mut m = owned("destructive operation '");
        push_str(&mut m, verb);
        push_str(&mut m, "' requires --force, --yes, or interactive confirmation");
        return Err(BirdError::usage("requires-confirmation", m.as_str()));
    }
    Ok(GuardStep::Prompt)
}

/// The confirmation prompt: `About to {verb} {method} {target}. Proceed? [y/N] `.
pub fn confirmation_prompt(verb: &str, method: &str, target: &str) -> (r: String)
    ensures
        r@ == "About to "@ + verb@ + " "@ + method@ + " "@ + target@ + ". Proceed? [y/N] "@,
{
    let mut m = owned("About to ");
    push_str(&mut m, verb);
    push_str(&mut m, " ");
    push_str(&mut m, method);
    push_str(&mut m, " ");
    push_str(&mut m, target);
    push_str(&mut m, ". Proceed? [y/N] ");
    m
}

/// The answer is a yes: `y` or `yes` in any ASCII case, surrounding
/// whitespace ignored.
pub open spec fn spec_is_yes(answer: Seq<char>) -> bool {
    let t = ascii_lower_seq(trim_spec(answer));
    t == "y"@ || t == "yes"@
}

/// Decides on the user's answer; `None` stands for a failed read.
pub fn confirmation_answer(answer: Option<&str>) -> (r: Result<GuardOutcome, BirdError>)
    ensures
        match answer {
            None => r matches Err(BirdError::Usage { error_id, message })
                && error_id@ == "requires-confirmation"@
                && message@ == "failed to read confirmation from stdin"@,
            Some(a) => if spec_is_yes(a@) {
                r == Ok::<GuardOutcome, BirdError>(GuardOutcome::Proceed)
            } else {
                r matches Err(BirdError::Usage { error_id, message })
                    && error_id@ == "user-aborted"@
                    && message@ == "aborted by user (confirmation declined)"@
            },
        },
{
    match answer {
        None => Err(BirdError::usage("requires-confirmation", "failed to read confirmation from stdin")),
        Some(a) => {
            let t = trim(chars_of(a).as_slice());
            let s = string_of(t.as_slice());
            let l = to_ascii_lowercase(s.as_str());
            if chars_eq(l.as_slice(), chars_of("y").as_slice()) || chars_eq(
                l.as_slice(),
                chars_of("yes").as_slice(),
            ) {
                Ok(GuardOutcome::Proceed)
            } else {
                Err(BirdError::usage("user-aborted", "aborted by user (confirmation declined)"))
            }
        },
    }
}

/// The lines a dry run prints in text mode.
pub fn dry_run_text_lines(verb: &str, method: &str, target: &str, body: Option<&str>) -> (r: Vec<
    String,
>)
    ensures
        body is None ==> r@.len() == 2,
        body is Some ==> r@.len() == 3,
        r@[0]@ == "Would "@ + verb@ + ": "@ + method@ + " "@ + target@,
        body matches Some(b) ==> r@[1]@ == "Body: "@ + b@,
        r@[r@.len() - 1]@ == "(--dry-run; no request sent)"@,
{
    let mut lines: Vec<String> = Vec::new();
    let mut first = owned("Would ");
    push_str(&mut first, verb);
    push_str(&mut first, ": ");
    push_str(&mut first, method);
    push_str(&mut first, " ");
    push_str(&mut first, target);
    lines.push(first);
    if let Some(b) = body {
        let mut l = owned("Body: ");
        push_str(&mut l, b);
        lines.push(l);
    }
    lines.push(owned("(--dry-run; no request sent)"));
    lines
}

/// The dry-run envelope in JSON mode: the verb and the request that would
/// be sent (`body_json` is the body already serialized), keys sorted.
pub open spec fn spec_dry_run_json(verb: Seq<char>, method: Seq<char>, target: Seq<char>, body_json: Option<
    Seq<char>,
>) -> Seq<char> {
    spec_success_envelope(
        "{\"dry_run\":true,\"verb\":"@ + json_string(verb) + ",\"would\":{"@ + match body_json {
            Some(b) => "\"body\":"@ + b + ","@,
            None => Seq::empty(),
        } + "\"method\":"@ + json_string(method) + ",\"url\":"@ + json_string(target) + "}}"@,
        "{}"@,
    )
}

/// Renders the dry-run envelope.
pub fn dry_run_json(verb: &str, method: &str, target: &str, body_json: Option<&str>) -> (r: String)
    ensures
        r@ == spec_dry_run_json(
            verb@,
            method@,
            target@,
            match body_json {
                Some(b) => Some(b@),
                None => None,
            },
        ),
{
    let mut d = owned("{\"dry_run\":true,\"verb\":");
    let qv = json_quote(verb);
    push_str(&mut d, qv.as_str());
    push_str(&mut d, ",\"would\":{");
    if let Some(b) = body_json {
        push_str(&mut d, "\"body\":");
        push_str(&mut d, b);
        push_str(&mut d, ",");
    }
    push_str(&mut d, "\"method\":");
    let qm = json_quote(method);
    push_str(&mut d, qm.as_str());
    push_str(&mut d, ",\"url\":");
    let qt = json_quote(target);
    push_str(&mut d, qt.as_str());
    push_str(&mut d, "}}");
    success_envelope_string(d.as_str(), "{}")
}

// ----- list limits -----

/// Clamp of a list `--limit` to a ceiling: over the ceiling gives the
/// ceiling (flagged as reduced), zero or absent gives the default.
pub open spec fn spec_clamp_limit(requested: Option<u32>, default: u32, ceiling: u32) -> (u32, bool) {
    match requested {
        Some(n) => if n > ceiling {
            (ceiling, true)
        } else if n == 0 {
            (default, false)
        } else {
            (n, false)
        },
        None => (default, false),
    }
}

/// Clamps a list `--limit`; the flag tells whether the request was reduced.
pub fn clamp_limit(requested: Option<u32>, default: u32, ceiling: u32) -> (r: (u32, bool))
    ensures
        r == spec_clamp_limit(requested, default, ceiling),
{
    match requested {
        Some(n) => if n > ceiling {
            (ceiling, true)
        } else if n == 0 {
            (default, false)
        } else {
            (n, false)
        },
        None => (default, false),
    }
}

// ----- query arguments -----

/// The `KEY=VALUE` query arguments as pairs (split at the first `=`);
/// arguments without `=` are dropped.
pub fn query_pairs_from_args(query: &[String]) -> (r: Vec<(String, String)>)
    ensures
        r@.map_values(|p: (String, String)| (p.0@, p.1@)) == param_pairs(
            query@.map_values(|s: String| s@),
        ),
{
    let p = parse_param_vec(query);
    p.entries
}

/// The query arguments followed by `pagination_token=<cursor>` when a
/// cursor is set, then `max_results=<limit clamped to 1000>` when a limit
/// is set.
pub open spec fn get_query_spec(query: Seq<Seq<char>>, flags: ListFlags) -> Seq<Seq<char>> {
    query + (match flags.cursor {
        Some(c) => seq!["pagination_token="@ + c@],
        None => Seq::empty(),
    }) + (match flags.limit {
        Some(n) => seq!["max_results="@ + crate::text::decimal_spec(
            spec_clamp_limit(Some(n), 100, 1000).0 as nat,
        )],
        None => Seq::empty(),
    })
}

/// The query of `bird get` after the list flags: the given arguments, then
/// `pagination_token=<cursor>` when a cursor is set, then
/// `max_results=<limit clamped to 1000>` when a limit is set.
pub fn get_query(query: Vec<String>, flags: &ListFlags) -> (r: Vec<String>)
    ensures
        r@.map_values(|s: String| s@) == get_query_spec(query@.map_values(|s: String| s@), *flags),
{
    let mut q = query;
    let ghost base = q@.map_values(|s: String| s@);
    if let Some(c) = &flags.cursor {
        let mut t = owned("pagination_token=");
        push_str(&mut t, c.as_str());
        q.push(t);
    }
    let ghost mid = q@.map_values(|s: String| s@);
    assert(mid =~= base + (match flags.cursor {
        Some(c) => seq!["pagination_token="@ + c@],
        None => Seq::empty(),
    }));
    if let Some(n) = flags.limit {
        let (clamped, _) = clamp_limit(Some(n), 100, 1000);
        let mut t = owned("max_results=");
        let d = crate::text::decimal(clamped as u64);
        push_str(&mut t, d.as_str());
        q.push(t);
    }
    assert(q@.map_values(|s: String| s@) =~= mid + (match flags.limit {
        Some(n) => seq!["max_results="@ + crate::text::decimal_spec(
            spec_clamp_limit(Some(n), 100, 1000).0 as nat,
        )],
        None => Seq::empty(),
    }));
    q
}

/// The absolute URL a dry run shows: the path's `{name}` placeholders
/// filled from the parameters, then the request URL of the query; none when
/// a placeholder has no parameter or the URL does not parse.
pub open spec fn dry_run_url_spec(
    path: Seq<char>,
    params: Map<Seq<char>, Seq<char>>,
    query: Seq<Seq<char>>,
) -> Option<Seq<char>> {
    match resolve_path_spec(path, params) {
        Ok(p) => match parsed_url(api_url(p)) {
            Some(_) => Some(request_url_spec(p, query)),
            None => None,
        },
        Err(_) => None,
    }
}

/// The absolute URL a dry run or confirmation prompt shows for a raw
/// request.
pub fn build_dry_run_url(path: &str, params: &ParamMap, query: &[String]) -> (r: Option<String>)
    ensures
        match dry_run_url_spec(path@, params@, query@.map_values(|s: String| s@)) {
            Some(u) => r matches Some(x) && x@ == u,
            None => r is None,
        },
{
    match resolve_path(path, params) {
        Ok(p) => match raw_url(p.as_str(), query) {
            Ok(u) => Some(u),
            Err(_) => None,
        },
        Err(_) => None,
    }
}

/// `--limit n` reaches the query as `max_results`: a limit from 1 to 1000
/// is sent as given, only a larger one is lowered to 1000, and 0 becomes
/// the default 100. It is the last argument, after the cursor when one is
/// set.
pub proof fn law_get_limit_is_sent_as_given(query: Seq<Seq<char>>, flags: ListFlags, n: u32)
    requires
        flags.limit == Some(n),
    ensures
        get_query_spec(query, flags).last() == "max_results="@ + crate::text::decimal_spec(
            if n == 0 {
                100nat
            } else if n <= 1000 {
                n as nat
            } else {
                1000nat
            },
        ),
        get_query_spec(query, flags).len() == query.len() + (if flags.cursor is Some {
            2int
        } else {
            1int
        }),
{
}

/// `--cursor` is sent as `pagination_token`, right after the given query
/// arguments, which are kept as they are.
pub proof fn law_get_cursor_is_sent_as_pagination_token(query: Seq<Seq<char>>, flags: ListFlags, c: String)
    requires
        flags.cursor == Some(c),
    ensures
        get_query_spec(query, flags)[query.len() as int] == "pagination_token="@ + c@,
        get_query_spec(query, flags).subrange(0, query.len() as int) == query,
{
    assert(get_query_spec(query, flags).subrange(0, query.len() as int) =~= query);
}

/// `x` clamped to `lo..=hi`.
pub open spec fn clamp_u32(x: u32, lo: u32, hi: u32) -> u32 {
    if x < lo {
        lo
    } else if x > hi {
        hi
    } else {
        x
    }
}

/// The page size and page count of `bird search`: `--limit` wins over
/// `--max-results`; the size defaults to 100 and is clamped to 10..=100, the
/// pages default to 1 and are clamped to 1..=10.
pub fn search_limits(limit: Option<u32>, max_results: Option<u32>, pages: Option<u32>) -> (r: (u32, u32))
    ensures
        r.0 == clamp_u32(
            match limit {
                Some(l) => l,
                None => match max_results {
                    Some(m) => m,
                    None => 100,
                },
            },
            10,
            100,
        ),
        r.1 == clamp_u32(
            match pages {
                Some(p) => p,
                None => 1,
            },
            1,
            10,
        ),
{
    let m = match limit {
        Some(l) => l,
        None => match max_results {
            Some(m) => m,
            None => 100,
        },
    };
    let p = match pages {
        Some(p) => p,
        None => 1,
    };
    let size = if m < 10 {
        10
    } else if m > 100 {
        100
    } else {
        m
    };
    let count = if p < 1 {
        1
    } else if p > 10 {
        10
    } else {
        p
    };
    (size, count)
}

// ----- write gating -----

/// The error that refuses a write under `--cache-only`.
pub open spec fn is_cache_only_refusal(e: BirdError, name: &'static str) -> bool {
    e matches BirdError::General { error_id, message, command, status, exit_code_override }
        && error_id@ == "command-error"@
        && message@ == "write commands require network access; remove --cache-only"@
        && command == Some(name) && status is None && exit_code_override is None
}

/// Runs a write command: refused under `--cache-only` without running it;
/// otherwise its failure is mapped through `from_source`.
pub fn xurl_write<F: FnOnce() -> Result<(), ErrorSource>>(cache_only: bool, name: &'static str, f: F) -> (r:
    Result<(), BirdError>)
    requires
        !cache_only ==> f.requires(()),
    ensures
        cache_only ==> (r matches Err(e) && is_cache_only_refusal(e, name)),
        !cache_only ==> exists|x: Result<(), ErrorSource>|
            f.ensures((), x) && match x {
                Ok(_) => r is Ok,
                Err(s) => r matches Err(e) && is_from_source(e, name, s),
            },
{
    if cache_only {
        return Err(
            BirdError::general(
                name,
                ErrorSource::other("write commands require network access; remove --cache-only"),
            ),
        );
    }
    match f() {
        Ok(()) => Ok(()),
        Err(s) => Err(BirdError::from_source(name, s)),
    }
}

/// Pagination options resolved from the global `--limit` / `--cursor` flags.
#[derive(Clone, Debug)]
pub struct ListFlags {
    pub limit: Option<u32>,
    pub cursor: Option<String>,
}

impl Default for ListFlags {
    fn default() -> (r: Self)
        ensures
            r.limit is None,
            r.cursor is None,
    {
        ListFlags { limit: None, cursor: None }
    }
}

/// The write guard of a mutating command (cache clear included).
pub open spec fn guard_of(cmd: Command) -> Option<WriteGuard> {
    match cmd {
        Command::Cache { action: CacheAction::Clear { guard } } => Some(guard),
        Command::Delete { guard, .. }
        | Command::Post { guard, .. }
        | Command::Put { guard, .. }
        | Command::Tweet { guard, .. }
        | Command::Reply { guard, .. }
        | Command::Like { guard, .. }
        | Command::Unlike { guard, .. }
        | Command::Repost { guard, .. }
        | Command::Unrepost { guard, .. }
        | Command::Follow { guard, .. }
        | Command::Unfollow { guard, .. }
        | Command::Dm { guard, .. }
        | Command::Block { guard, .. }
        | Command::Unblock { guard, .. }
        | Command::Mute { guard, .. }
        | Command::Unmute { guard, .. } => Some(guard),
        _ => None,
    }
}

/// A mutating command under `--dry-run`, or one that cannot be confirmed
/// (neither `--force` nor an interactive terminal), never reaches the
/// transport.
pub proof fn law_unconfirmed_writes_never_spawn_transport(cmd: Command, stdin_is_tty: bool, no_interactive: bool)
    requires
        guard_of(cmd) matches Some(g) && (g.dry_run || (!g.force && (!stdin_is_tty || no_interactive))),
    ensures
        !spec_needs_xurl(cmd, stdin_is_tty, no_interactive),
{
}

/// The guard's decision agrees with the transport gate: a guarded API
/// command (every guarded command but the local cache clear) reaches the
/// transport exactly when the guard would not stop it before a request (no
/// dry run, and forced or promptable).
pub proof fn law_guard_and_gate_agree(cmd: Command, stdin_is_tty: bool, no_interactive: bool)
    requires
        guard_of(cmd) is Some,
        !(cmd is Cache),
    ensures
        spec_needs_xurl(cmd, stdin_is_tty, no_interactive) == spec_guard_proceeds(
            guard_of(cmd)->0,
            stdin_is_tty,
            no_interactive,
        ),
{
}

/// Local-only commands never need the transport: cache statistics and
/// clearing, watchlist add/remove/list, doctor, completions, schema and
/// skill.
pub proof fn law_local_commands_never_need_transport(cmd: Command, stdin_is_tty: bool, no_interactive: bool)
    requires
        cmd is Cache || (cmd matches Command::Watchlist { action, .. } && !(action is Fetch))
            || cmd is Doctor || cmd is Completions || cmd is Schema || cmd is Skill,
    ensures
        !spec_needs_xurl(cmd, stdin_is_tty, no_interactive),
{
}

/// A clamped limit never exceeds the ceiling (given a default within it),
/// and it is flagged as reduced exactly when the request was over it.
pub proof fn law_clamp_within_ceiling(requested: Option<u32>, default: u32, ceiling: u32)
    requires
        default <= ceiling,
    ensures
        spec_clamp_limit(requested, default, ceiling).0 <= ceiling,
        spec_clamp_limit(requested, default, ceiling).1 == (requested matches Some(n) && n > ceiling),
        spec_clamp_limit(requested, default, ceiling).0 > 0 || default == 0,
{
}

} // verus!
