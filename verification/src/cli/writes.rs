//! The write verbs (`tweet`, `reply`, `like`, ... `unmute`): what each one
//! asks the transport to do and shows the user before it runs.

use vstd::prelude::*;
use crate::cli::WriteGuard;
use crate::cli::dispatch::{
    confirmation_answer, confirmation_prompt, confirmation_required_message, guard_step,
    is_cache_only_refusal, spec_is_yes, GuardOutcome, GuardStep,
};
use crate::error::{BirdError, ErrorSource};
use crate::output::{json_quote, json_string};
use crate::text::{owned, push_str};

verus! {

/// The JSON body a write shows in its prompt and dry run.
#[derive(Clone, Debug)]
pub enum WriteBody {
    /// `{"text": .., "media_id": ..}`
    Tweet { text: String, media_id: Option<String> },
    /// `{"text": .., "reply_to": ..}`
    Reply { text: String, reply_to: String },
    /// `{"to": .., "text": ..}`
    Dm { to: String, text: String },
}

/// The call a write verb makes through the embedded client, with the
/// lookups it needs first.
#[derive(Clone, Debug)]
pub enum EmbeddedWriteCall {
    /// `POST /2/tweets`.
    TweetCreate { text: String, media_id: Option<String> },
    /// `POST /2/tweets` in reply to `parent_id`.
    Reply { parent_id: String, text: String },
    /// `POST /2/users/{me}/likes`.
    Like { tweet_id: String },
    /// `DELETE /2/users/{me}/likes/{tweet_id}`.
    Unlike { tweet_id: String },
    /// `POST /2/users/{me}/retweets`.
    Repost { tweet_id: String },
    /// `DELETE /2/users/{me}/retweets/{tweet_id}`.
    Unrepost { tweet_id: String },
    /// `POST /2/users/{me}/following`.
    Follow { target_username: String },
    /// `DELETE /2/users/{me}/following/{target}`.
    Unfollow { target_username: String },
    /// `POST /2/users/{me}/muting`.
    Mute { target_username: String },
    /// `DELETE /2/users/{me}/muting/{target}`.
    Unmute { target_username: String },
    /// `POST /2/users/{me}/blocking`.
    Block { target_username: String },
    /// `DELETE /2/users/{me}/blocking/{target}`.
    Unblock { target_username: String },
    /// `POST /2/dm_conversations/with/{target}/messages`.
    Dm { target_username: String, text: String },
}

impl EmbeddedWriteCall {
    /// The call needs the caller's own user id (`/2/users/me`) first.
    pub fn needs_me_id(&self) -> (r: bool)
        ensures
            r == !(*self is TweetCreate || *self is Reply || *self is Dm),
    {
        match self {
            EmbeddedWriteCall::TweetCreate { .. } | EmbeddedWriteCall::Reply { .. }
            | EmbeddedWriteCall::Dm { .. } => false,
            _ => true,
        }
    }

    /// The call needs a target user's id looked up by username first.
    pub fn needs_target_id(&self) -> (r: bool)
        ensures
            r == (*self is Follow || *self is Unfollow || *self is Mute || *self is Unmute
                || *self is Block || *self is Unblock || *self is Dm),
    {
        match self {
            EmbeddedWriteCall::Follow { .. } | EmbeddedWriteCall::Unfollow { .. }
            | EmbeddedWriteCall::Mute { .. } | EmbeddedWriteCall::Unmute { .. }
            | EmbeddedWriteCall::Block { .. } | EmbeddedWriteCall::Unblock { .. }
            | EmbeddedWriteCall::Dm { .. } => true,
            _ => false,
        }
    }
}

/// What a write verb does: its name and method for the prompt, the URL it
/// shows, the body it shows, and the transport arguments.
#[derive(Clone, Debug)]
pub struct WriteSpec {
    pub verb: &'static str,
    pub method: &'static str,
    pub url_for_prompt: String,
    pub body: Option<WriteBody>,
    pub xurl_args: Vec<String>,
}

/// The views of a list of strings.
pub open spec fn arg_views(v: Seq<String>) -> Seq<Seq<char>> {
    v.map_values(|s: String| s@)
}

fn cat(a: &str, b: &str) -> (r: String)
    ensures
        r@ == a@ + b@,
{
    let mut r = owned(a);
    push_str(&mut r, b);
    r
}

fn cat3(a: &str, b: &str, c: &str) -> (r: String)
    ensures
        r@ == a@ + b@ + c@,
{
    let mut r = owned(a);
    push_str(&mut r, b);
    push_str(&mut r, c);
    r
}

fn args2(a: &str, b: String) -> (r: Vec<String>)
    ensures
        arg_views(r@) == seq![a@, b@],
{
    let mut v: Vec<String> = Vec::new();
    v.push(owned(a));
    v.push(b);
    assert(arg_views(v@) =~= seq![a@, b@]);
    v
}

/// `bird tweet`: `POST /2/tweets` with the text and optional media id.
pub fn run_tweet(text: String, media_id: Option<String>) -> (r: WriteSpec)
    ensures
        r.verb@ == "tweet"@ && r.method@ == "POST"@,
        r.url_for_prompt@ == "https://api.x.com/2/tweets"@,
        r.body == Some(WriteBody::Tweet { text, media_id }),
        arg_views(r.xurl_args@) == seq!["post"@, text@] + match media_id {
            Some(id) => seq!["--media-id"@, id@],
            None => Seq::empty(),
        },
{
    let mut args: Vec<String> = Vec::new();
    args.push(owned("post"));
    args.push(owned(text.as_str()));
    match &media_id {
        Some(id) => {
            args.push(owned("--media-id"));
            args.push(owned(id.as_str()));
        },
        None => {},
    }
    assert(arg_views(args@) =~= seq!["post"@, text@] + match media_id {
        Some(id) => seq!["--media-id"@, id@],
        None => Seq::empty(),
    });
    WriteSpec {
        verb: "tweet",
        method: "POST",
        url_for_prompt: owned("https://api.x.com/2/tweets"),
        body: Some(WriteBody::Tweet { text, media_id }),
        xurl_args: args,
    }
}

/// `bird reply`: `POST /2/tweets` in reply to `tweet_id`.
pub fn run_reply(tweet_id: String, text: String) -> (r: WriteSpec)
    ensures
        r.verb@ == "reply"@ && r.method@ == "POST"@,
        r.url_for_prompt@ == "https://api.x.com/2/tweets (reply to "@ + tweet_id@ + ")"@,
        r.body matches Some(WriteBody::Reply { text: t, reply_to }) && t@ == text@ && reply_to@
            == tweet_id@,
        arg_views(r.xurl_args@) == seq!["reply"@, tweet_id@, text@],
{
    let url = cat3("https://api.x.com/2/tweets (reply to ", tweet_id.as_str(), ")");
    let mut args: Vec<String> = Vec::new();
    args.push(owned("reply"));
    args.push(owned(tweet_id.as_str()));
    args.push(owned(text.as_str()));
    assert(arg_views(args@) =~= seq!["reply"@, tweet_id@, text@]);
    let body = WriteBody::Reply { text: owned(text.as_str()), reply_to: owned(tweet_id.as_str()) };
    WriteSpec { verb: "reply", method: "POST", url_for_prompt: url, body: Some(body), xurl_args: args }
}

/// `bird like`.
pub fn run_like(tweet_id: String) -> (r: WriteSpec)
    ensures
        r.verb@ == "like"@ && r.method@ == "POST"@,
        r.url_for_prompt@ == "https://api.x.com/2/users/me/likes/"@ + tweet_id@,
        r.body is None,
        arg_views(r.xurl_args@) == seq!["like"@, tweet_id@],
{
    let url = cat("https://api.x.com/2/users/me/likes/", tweet_id.as_str());
    WriteSpec { verb: "like", method: "POST", url_for_prompt: url, body: None, xurl_args: args2("like", tweet_id) }
}

/// `bird unlike`.
pub fn run_unlike(tweet_id: String) -> (r: WriteSpec)
    ensures
        r.verb@ == "unlike"@ && r.method@ == "DELETE"@,
        r.url_for_prompt@ == "https://api.x.com/2/users/me/likes/"@ + tweet_id@,
        r.body is None,
        arg_views(r.xurl_args@) == seq!["unlike"@, tweet_id@],
{
    let url = cat("https://api.x.com/2/users/me/likes/", tweet_id.as_str());
    WriteSpec { verb: "unlike", method: "DELETE", url_for_prompt: url, body: None, xurl_args: args2("unlike", tweet_id) }
}

/// `bird repost`.
pub fn run_repost(tweet_id: String) -> (r: WriteSpec)
    ensures
        r.verb@ == "repost"@ && r.method@ == "POST"@,
        r.url_for_prompt@ == "https://api.x.com/2/users/me/retweets/"@ + tweet_id@,
        r.body is None,
        arg_views(r.xurl_args@) == seq!["repost"@, tweet_id@],
{
    let url = cat("https://api.x.com/2/users/me/retweets/", tweet_id.as_str());
    WriteSpec { verb: "repost", method: "POST", url_for_prompt: url, body: None, xurl_args: args2("repost", tweet_id) }
}

/// `bird unrepost`.
pub fn run_unrepost(tweet_id: String) -> (r: WriteSpec)
    ensures
        r.verb@ == "unrepost"@ && r.method@ == "DELETE"@,
        r.url_for_prompt@ == "https://api.x.com/2/users/me/retweets/"@ + tweet_id@,
        r.body is None,
        arg_views(r.xurl_args@) == seq!["unrepost"@, tweet_id@],
{
    let url = cat("https://api.x.com/2/users/me/retweets/", tweet_id.as_str());
    WriteSpec { verb: "unrepost", method: "DELETE", url_for_prompt: url, body: None, xurl_args: args2("unrepost", tweet_id) }
}

/// `bird follow`.
pub fn run_follow(target: String) -> (r: WriteSpec)
    ensures
        r.verb@ == "follow"@ && r.method@ == "POST"@,
        r.url_for_prompt@ == "https://api.x.com/2/users/me/following (target=@"@ + target@ + ")"@,
        r.body is None,
        arg_views(r.xurl_args@) == seq!["follow"@, target@],
{
    let url = cat3("https://api.x.com/2/users/me/following (target=@", target.as_str(), ")");
    WriteSpec { verb: "follow", method: "POST", url_for_prompt: url, body: None, xurl_args: args2("follow", target) }
}

/// `bird unfollow`.
pub fn run_unfollow(target: String) -> (r: WriteSpec)
    ensures
        r.verb@ == "unfollow"@ && r.method@ == "DELETE"@,
        r.url_for_prompt@ == "https://api.x.com/2/users/me/following (target=@"@ + target@ + ")"@,
        r.body is None,
        arg_views(r.xurl_args@) == seq!["unfollow"@, target@],
{
    let url = cat3("https://api.x.com/2/users/me/following (target=@", target.as_str(), ")");
    WriteSpec { verb: "unfollow", method: "DELETE", url_for_prompt: url, body: None, xurl_args: args2("unfollow", target) }
}

/// `bird dm`.
pub fn run_dm(target: String, text: String) -> (r: WriteSpec)
    ensures
        r.verb@ == "dm"@ && r.method@ == "POST"@,
        r.url_for_prompt@ == "https://api.x.com/2/dm_conversations/with/@"@ + target@ + "/messages"@,
        r.body matches Some(WriteBody::Dm { to, text: t }) && to@ == target@ && t@ == text@,
        arg_views(r.xurl_args@) == seq!["dm"@, target@, text@],
{
    let url = cat3("https://api.x.com/2/dm_conversations/with/@", target.as_str(), "/messages");
    let mut args: Vec<String> = Vec::new();
    args.push(owned("dm"));
    args.push(owned(target.as_str()));
    args.push(owned(text.as_str()));
    assert(arg_views(args@) =~= seq!["dm"@, target@, text@]);
    let body = WriteBody::Dm { to: target, text };
    WriteSpec { verb: "dm", method: "POST", url_for_prompt: url, body: Some(body), xurl_args: args }
}

/// `bird block`.
pub fn run_block(target: String) -> (r: WriteSpec)
    ensures
        r.verb@ == "block"@ && r.method@ == "POST"@,
        r.url_for_prompt@ == "https://api.x.com/2/users/me/blocking (target=@"@ + target@ + ")"@,
        r.body is None,
        arg_views(r.xurl_args@) == seq!["block"@, target@],
{
    let url = cat3("https://api.x.com/2/users/me/blocking (target=@", target.as_str(), ")");
    WriteSpec { verb: "block", method: "POST", url_for_prompt: url, body: None, xurl_args: args2("block", target) }
}

/// `bird unblock`.
pub fn run_unblock(target: String) -> (r: WriteSpec)
    ensures
        r.verb@ == "unblock"@ && r.method@ == "DELETE"@,
        r.url_for_prompt@ == "https://api.x.com/2/users/me/blocking (target=@"@ + target@ + ")"@,
        r.body is None,
        arg_views(r.xurl_args@) == seq!["unblock"@, target@],
{
    let url = cat3("https://api.x.com/2/users/me/blocking (target=@", target.as_str(), ")");
    WriteSpec { verb: "unblock", method: "DELETE", url_for_prompt: url, body: None, xurl_args: args2("unblock", target) }
}

/// `bird mute`.
pub fn run_mute(target: String) -> (r: WriteSpec)
    ensures
        r.verb@ == "mute"@ && r.method@ == "POST"@,
        r.url_for_prompt@ == "https://api.x.com/2/users/me/muting (target=@"@ + target@ + ")"@,
        r.body is None,
        arg_views(r.xurl_args@) == seq!["mute"@, target@],
{
    let url = cat3("https://api.x.com/2/users/me/muting (target=@", target.as_str(), ")");
    WriteSpec { verb: "mute", method: "POST", url_for_prompt: url, body: None, xurl_args: args2("mute", target) }
}

/// `bird unmute`.
pub fn run_unmute(target: String) -> (r: WriteSpec)
    ensures
        r.verb@ == "unmute"@ && r.method@ == "DELETE"@,
        r.url_for_prompt@ == "https://api.x.com/2/users/me/muting (target=@"@ + target@ + ")"@,
        r.body is None,
        arg_views(r.xurl_args@) == seq!["unmute"@, target@],
{
    let url = cat3("https://api.x.com/2/users/me/muting (target=@", target.as_str(), ")");
    WriteSpec { verb: "unmute", method: "DELETE", url_for_prompt: url, body: None, xurl_args: args2("unmute", target) }
}

/// The transport arguments of a write: `-u <username>` first when a
/// username is configured, then the verb's own arguments.
pub fn write_call_args(args: &Vec<String>, username: Option<&str>) -> (r: Vec<String>)
    ensures
        arg_views(r@) == match username {
            Some(u) => seq!["-u"@, u@],
            None => Seq::<Seq<char>>::empty(),
        } + arg_views(args@),
{
    let mut full: Vec<String> = Vec::new();
    if let Some(u) = username {
        full.push(owned("-u"));
        full.push(owned(u));
    }
    let ghost head = arg_views(full@);
    let mut i: usize = 0;
    while i < args.len()
        invariant
            i <= args@.len(),
            arg_views(full@) == head + arg_views(args@).take(i as int),
        decreases args@.len() - i,
    {
        let ghost before = full@;
        let a = owned(args[i].as_str());
        assert(a@ == arg_views(args@)[i as int]);
        full.push(a);
        assert(arg_views(full@) =~= arg_views(before).push(a@));
        i = i + 1;
        assert(arg_views(args@).take(i as int) =~= arg_views(args@).take((i - 1) as int).push(a@));
    }
    assert(arg_views(args@).take(args@.len() as int) =~= arg_views(args@));
    assert(arg_views(full@) =~= match username {
        Some(u) => seq!["-u"@, u@],
        None => Seq::<Seq<char>>::empty(),
    } + arg_views(args@));
    full
}

/// What running a write does next.
pub enum WriteAction {
    /// Show the would-be request (`--dry-run`) and stop.
    DryRun,
    /// Ask with this prompt, then decide with [`write_after_answer`].
    Prompt(String),
    /// Send the transport these arguments.
    Send(Vec<String>),
    /// Stop with this error.
    Refuse(BirdError),
}

/// A confirmed write: refused under `--cache-only`, otherwise sent with the
/// spec's arguments behind `-u <username>` when a username is configured.
pub open spec fn is_confirmed_action(
    r: WriteAction,
    spec: WriteSpec,
    cache_only: bool,
    username: Option<Seq<char>>,
) -> bool {
    if cache_only {
        r matches WriteAction::Refuse(e) && is_cache_only_refusal(e, spec.verb)
    } else {
        r matches WriteAction::Send(args) && arg_views(args@) == match username {
            Some(u) => seq!["-u"@, u],
            None => Seq::<Seq<char>>::empty(),
        } + arg_views(spec.xurl_args@)
    }
}

/// The view of an optional string slice.
pub open spec fn opt_view(o: Option<&str>) -> Option<Seq<char>> {
    match o {
        Some(s) => Some(s@),
        None => None,
    }
}

fn confirmed_action(spec: &WriteSpec, cache_only: bool, username: Option<&str>) -> (r: WriteAction)
    ensures
        is_confirmed_action(r, *spec, cache_only, opt_view(username)),
{
    if cache_only {
        WriteAction::Refuse(
            BirdError::general(
                spec.verb,
                ErrorSource::other("write commands require network access; remove --cache-only"),
            ),
        )
    } else {
        WriteAction::Send(write_call_args(&spec.xurl_args, username))
    }
}

/// The first step of a write: a dry run stops, `--force` proceeds, an
/// interactive session is asked, and anything else is refused until
/// confirmed. The `--cache-only` refusal comes only once the write is
/// confirmed.
pub fn write_start(
    spec: &WriteSpec,
    guard: WriteGuard,
    cache_only: bool,
    no_interactive: bool,
    can_prompt: bool,
    username: Option<&str>,
) -> (r: WriteAction)
    ensures
        guard.dry_run ==> r is DryRun,
        !guard.dry_run && guard.force ==> is_confirmed_action(r, *spec, cache_only, opt_view(username)),
        !guard.dry_run && !guard.force && can_prompt && !no_interactive ==> (r matches WriteAction::Prompt(
            p,
        ) && p@ == "About to "@ + spec.verb@ + " "@ + spec.method@ + " "@ + spec.url_for_prompt@
            + ". Proceed? [y/N] "@),
        !guard.dry_run && !guard.force && (!can_prompt || no_interactive) ==> (r matches WriteAction::Refuse(
            BirdError::Usage { error_id, message },
        ) && error_id@ == "requires-confirmation"@ && message@ == confirmation_required_message(
            spec.verb@,
        )),
{
    match guard_step(spec.verb, guard, no_interactive, can_prompt) {
        Ok(GuardStep::DryRun) => WriteAction::DryRun,
        Ok(GuardStep::Proceed) => confirmed_action(spec, cache_only, username),
        Ok(GuardStep::Prompt) => WriteAction::Prompt(
            confirmation_prompt(spec.verb, spec.method, spec.url_for_prompt.as_str()),
        ),
        Err(e) => WriteAction::Refuse(e),
    }
}

/// The step after the prompt: a yes proceeds as a confirmed write; a failed
/// read or any other answer is refused.
pub fn write_after_answer(
    spec: &WriteSpec,
    answer: Option<&str>,
    cache_only: bool,
    username: Option<&str>,
) -> (r: WriteAction)
    ensures
        match answer {
            None => r matches WriteAction::Refuse(BirdError::Usage { error_id, message })
                && error_id@ == "requires-confirmation"@
                && message@ == "failed to read confirmation from stdin"@,
            Some(a) => if spec_is_yes(a@) {
                is_confirmed_action(r, *spec, cache_only, opt_view(username))
            } else {
                r matches WriteAction::Refuse(BirdError::Usage { error_id, message })
                    && error_id@ == "user-aborted"@
                    && message@ == "aborted by user (confirmation declined)"@
            },
        },
{
    match confirmation_answer(answer) {
        Ok(GuardOutcome::Proceed) => confirmed_action(spec, cache_only, username),
        Ok(GuardOutcome::DryRun) => WriteAction::DryRun,
        Err(e) => WriteAction::Refuse(e),
    }
}

/// A request the embedded client sends for a write: method, absolute URL and
/// JSON body (empty when the request has none).
#[derive(Clone, Debug)]
pub struct EmbeddedRequest {
    pub method: &'static str,
    pub url: String,
    pub body: String,
}

/// `{"<key>":<quoted value>}` for one string value.
pub open spec fn json_obj1(key: Seq<char>, value: Seq<char>) -> Seq<char> {
    "{\""@ + key + "\":"@ + json_string(value) + "}"@
}

/// What a write call sends, given the caller's user id `me` and the target
/// user's id `target` (each used only by the calls that need it), as
/// `(method, url, body)`. Object keys come in sorted order, as a JSON map
/// serializes them.
pub open spec fn spec_embedded_request(call: EmbeddedWriteCall, me: Seq<char>, target: Seq<char>) -> (
    Seq<char>,
    Seq<char>,
    Seq<char>,
) {
    let users = "https://api.x.com/2/users/"@;
    match call {
        EmbeddedWriteCall::TweetCreate { text, media_id } => (
            "POST"@,
            "https://api.x.com/2/tweets"@,
            match media_id {
                None => json_obj1("text"@, text@),
                Some(id) => "{\"media\":{\"media_ids\":["@ + json_string(id@) + "]},\"text\":"@
                    + json_string(text@) + "}"@,
            },
        ),
        EmbeddedWriteCall::Reply { parent_id, text } => (
            "POST"@,
            "https://api.x.com/2/tweets"@,
            "{\"reply\":{\"in_reply_to_tweet_id\":"@ + json_string(parent_id@) + "},\"text\":"@
                + json_string(text@) + "}"@,
        ),
        EmbeddedWriteCall::Like { tweet_id } => (
            "POST"@,
            users + me + "/likes"@,
            json_obj1("tweet_id"@, tweet_id@),
        ),
        EmbeddedWriteCall::Unlike { tweet_id } => (
            "DELETE"@,
            users + me + "/likes/"@ + tweet_id@,
            Seq::empty(),
        ),
        EmbeddedWriteCall::Repost { tweet_id } => (
            "POST"@,
            users + me + "/retweets"@,
            json_obj1("tweet_id"@, tweet_id@),
        ),
        EmbeddedWriteCall::Unrepost { tweet_id } => (
            "DELETE"@,
            users + me + "/retweets/"@ + tweet_id@,
            Seq::empty(),
        ),
        EmbeddedWriteCall::Follow { .. } => (
            "POST"@,
            users + me + "/following"@,
            json_obj1("target_user_id"@, target),
        ),
        EmbeddedWriteCall::Unfollow { .. } => (
            "DELETE"@,
            users + me + "/following/"@ + target,
            Seq::empty(),
        ),
        EmbeddedWriteCall::Mute { .. } => (
            "POST"@,
            users + me + "/muting"@,
            json_obj1("target_user_id"@, target),
        ),
        EmbeddedWriteCall::Unmute { .. } => (
            "DELETE"@,
            users + me + "/muting/"@ + target,
            Seq::empty(),
        ),
        EmbeddedWriteCall::Block { .. } => (
            "POST"@,
            users + me + "/blocking"@,
            json_obj1("target_user_id"@, target),
        ),
        EmbeddedWriteCall::Unblock { .. } => (
            "DELETE"@,
            users + me + "/blocking/"@ + target,
            Seq::empty(),
        ),
        EmbeddedWriteCall::Dm { text, .. } => (
            "POST"@,
            "https://api.x.com/2/dm_conversations/with/"@ + target + "/messages"@,
            json_obj1("text"@, text@),
        ),
    }
}

/// The X API collection a user-scoped write acts on: likes, retweets,
/// following, muting or blocking (numbered 0 to 4); none for the other
/// writes.
pub open spec fn write_collection(c: EmbeddedWriteCall) -> Option<int> {
    match c {
        EmbeddedWriteCall::Like { .. } | EmbeddedWriteCall::Unlike { .. } => Some(0),
        EmbeddedWriteCall::Repost { .. } | EmbeddedWriteCall::Unrepost { .. } => Some(1),
        EmbeddedWriteCall::Follow { .. } | EmbeddedWriteCall::Unfollow { .. } => Some(2),
        EmbeddedWriteCall::Mute { .. } | EmbeddedWriteCall::Unmute { .. } => Some(3),
        EmbeddedWriteCall::Block { .. } | EmbeddedWriteCall::Unblock { .. } => Some(4),
        _ => None,
    }
}

/// The collection's path segment under `/2/users/{me}/`.
pub open spec fn collection_segment(k: int) -> Seq<char> {
    if k == 0 {
        "likes"@
    } else if k == 1 {
        "retweets"@
    } else if k == 2 {
        "following"@
    } else if k == 3 {
        "muting"@
    } else {
        "blocking"@
    }
}

/// Each user-scoped write verb targets its own collection of the caller:
/// the create verbs (like, repost, follow, mute, block) POST to
/// `/2/users/{me}/<collection>`, and the undo verbs DELETE
/// `/2/users/{me}/<collection>/<id>` under the same collection.
pub proof fn law_write_verbs_hit_their_collections(c: EmbeddedWriteCall, me: Seq<char>, target: Seq<char>)
    requires
        write_collection(c) is Some,
    ensures
        ({
            let (method, url, _) = spec_embedded_request(c, me, target);
            let base = "https://api.x.com/2/users/"@ + me + "/"@ + collection_segment(
                write_collection(c)->0,
            );
            if c is Like || c is Repost || c is Follow || c is Mute || c is Block {
                method == "POST"@ && url == base
            } else {
                method == "DELETE"@ && url == base + "/"@ + match c {
                    EmbeddedWriteCall::Unlike { tweet_id } => tweet_id@,
                    EmbeddedWriteCall::Unrepost { tweet_id } => tweet_id@,
                    _ => target,
                }
            }
        }),
{
    reveal_strlit("/");
    reveal_strlit("likes");
    reveal_strlit("retweets");
    reveal_strlit("following");
    reveal_strlit("muting");
    reveal_strlit("blocking");
    reveal_strlit("/likes");
    reveal_strlit("/likes/");
    reveal_strlit("/retweets");
    reveal_strlit("/retweets/");
    reveal_strlit("/following");
    reveal_strlit("/following/");
    reveal_strlit("/muting");
    reveal_strlit("/muting/");
    reveal_strlit("/blocking");
    reveal_strlit("/blocking/");
    let users = "https://api.x.com/2/users/"@;
    let (method, url, _) = spec_embedded_request(c, me, target);
    let seg = collection_segment(write_collection(c)->0);
    let base = users + me + "/"@ + seg;
    if c is Like || c is Repost || c is Follow || c is Mute || c is Block {
        assert(url =~= base);
    } else {
        let id = match c {
            EmbeddedWriteCall::Unlike { tweet_id } => tweet_id@,
            EmbeddedWriteCall::Unrepost { tweet_id } => tweet_id@,
            _ => target,
        };
        assert(url =~= base + "/"@ + id);
    }
}

/// Distinct write verbs never share a request: writes on different
/// collections reach different URLs, and a create and its undo differ in
/// method.
pub proof fn law_write_verbs_never_share_a_request(
    a: EmbeddedWriteCall,
    b: EmbeddedWriteCall,
    me: Seq<char>,
    ta: Seq<char>,
    tb: Seq<char>,
)
    requires
        write_collection(a) is Some,
        write_collection(b) is Some,
        write_collection(a) != write_collection(b),
    ensures
        spec_embedded_request(a, me, ta).1 != spec_embedded_request(b, me, tb).1,
{
    law_write_verbs_hit_their_collections(a, me, ta);
    law_write_verbs_hit_their_collections(b, me, tb);
    reveal_strlit("https://api.x.com/2/users/");
    reveal_strlit("/");
    reveal_strlit("likes");
    reveal_strlit("retweets");
    reveal_strlit("following");
    reveal_strlit("muting");
    reveal_strlit("blocking");
    let users = "https://api.x.com/2/users/"@;
    let k = users.len() + me.len() + 1int;
    let ua = spec_embedded_request(a, me, ta).1;
    let ub = spec_embedded_request(b, me, tb).1;
    let sa = collection_segment(write_collection(a)->0);
    let sb = collection_segment(write_collection(b)->0);
    assert(ua.len() > k && ua[k] == sa[0]);
    assert(ub.len() > k && ub[k] == sb[0]);
    assert(sa[0] != sb[0]);
}

fn obj1(key: &str, value: &str) -> (r: String)
    ensures
        r@ == json_obj1(key@, value@),
{
    let mut r = owned("{\"");
    push_str(&mut r, key);
    push_str(&mut r, "\":");
    let q = json_quote(value);
    push_str(&mut r, q.as_str());
    push_str(&mut r, "}");
    r
}

fn user_url(me: &str, tail: &str) -> (r: String)
    ensures
        r@ == "https://api.x.com/2/users/"@ + me@ + tail@,
{
    cat3("https://api.x.com/2/users/", me, tail)
}

fn user_url2(me: &str, mid: &str, last: &str) -> (r: String)
    ensures
        r@ == "https://api.x.com/2/users/"@ + me@ + mid@ + last@,
{
    let mut r = user_url(me, mid);
    push_str(&mut r, last);
    r
}

/// The request a write call sends once the caller's id `me_id` and the
/// target's id `target_id` are resolved (an id the call does not need is
/// ignored).
pub fn embedded_write_request(call: &EmbeddedWriteCall, me_id: &str, target_id: &str) -> (r:
    EmbeddedRequest)
    ensures
        (r.method@, r.url@, r.body@) == spec_embedded_request(*call, me_id@, target_id@),
{
    match call {
        EmbeddedWriteCall::TweetCreate { text, media_id } => {
            let body = match media_id {
                None => obj1("text", text.as_str()),
                Some(id) => {
                    let mut b = owned("{\"media\":{\"media_ids\":[");
                    let qi = json_quote(id.as_str());
                    push_str(&mut b, qi.as_str());
                    push_str(&mut b, "]},\"text\":");
                    let qt = json_quote(text.as_str());
                    push_str(&mut b, qt.as_str());
                    push_str(&mut b, "}");
                    b
                },
            };
            EmbeddedRequest { method: "POST", url: owned("https://api.x.com/2/tweets"), body }
        },
        EmbeddedWriteCall::Reply { parent_id, text } => {
            let mut b = owned("{\"reply\":{\"in_reply_to_tweet_id\":");
            let qp = json_quote(parent_id.as_str());
            push_str(&mut b, qp.as_str());
            push_str(&mut b, "},\"text\":");
            let qt = json_quote(text.as_str());
            push_str(&mut b, qt.as_str());
            push_str(&mut b, "}");
            EmbeddedRequest { method: "POST", url: owned("https://api.x.com/2/tweets"), body: b }
        },
        EmbeddedWriteCall::Like { tweet_id } => EmbeddedRequest {
            method: "POST",
            url: user_url(me_id, "/likes"),
            body: obj1("tweet_id", tweet_id.as_str()),
        },
        EmbeddedWriteCall::Unlike { tweet_id } => EmbeddedRequest {
            method: "DELETE",
            url: user_url2(me_id, "/likes/", tweet_id.as_str()),
            body: String::new(),
        },
        EmbeddedWriteCall::Repost { tweet_id } => EmbeddedRequest {
            method: "POST",
            url: user_url(me_id, "/retweets"),
            body: obj1("tweet_id", tweet_id.as_str()),
        },
        EmbeddedWriteCall::Unrepost { tweet_id } => EmbeddedRequest {
            method: "DELETE",
            url: user_url2(me_id, "/retweets/", tweet_id.as_str()),
            body: String::new(),
        },
        EmbeddedWriteCall::Follow { .. } => EmbeddedRequest {
            method: "POST",
            url: user_url(me_id, "/following"),
            body: obj1("target_user_id", target_id),
        },
        EmbeddedWriteCall::Unfollow { .. } => EmbeddedRequest {
            method: "DELETE",
            url: user_url2(me_id, "/following/", target_id),
            body: String::new(),
        },
        EmbeddedWriteCall::Mute { .. } => EmbeddedRequest {
            method: "POST",
            url: user_url(me_id, "/muting"),
            body: obj1("target_user_id", target_id),
        },
        EmbeddedWriteCall::Unmute { .. } => EmbeddedRequest {
            method: "DELETE",
            url: user_url2(me_id, "/muting/", target_id),
            body: String::new(),
        },
        EmbeddedWriteCall::Block { .. } => EmbeddedRequest {
            method: "POST",
            url: user_url(me_id, "/blocking"),
            body: obj1("target_user_id", target_id),
        },
        EmbeddedWriteCall::Unblock { .. } => EmbeddedRequest {
            method: "DELETE",
            url: user_url2(me_id, "/blocking/", target_id),
            body: String::new(),
        },
        EmbeddedWriteCall::Dm { text, .. } => EmbeddedRequest {
            method: "POST",
            url: cat3("https://api.x.com/2/dm_conversations/with/", target_id, "/messages"),
            body: obj1("text", text.as_str()),
        },
    }
}

/// The username a call's target is looked up by.
pub open spec fn target_username(call: EmbeddedWriteCall) -> Option<Seq<char>> {
    match call {
        EmbeddedWriteCall::Follow { target_username } => Some(target_username@),
        EmbeddedWriteCall::Unfollow { target_username } => Some(target_username@),
        EmbeddedWriteCall::Mute { target_username } => Some(target_username@),
        EmbeddedWriteCall::Unmute { target_username } => Some(target_username@),
        EmbeddedWriteCall::Block { target_username } => Some(target_username@),
        EmbeddedWriteCall::Unblock { target_username } => Some(target_username@),
        EmbeddedWriteCall::Dm { target_username, .. } => Some(target_username@),
        _ => None,
    }
}

/// The reads a call makes before its write, in order: the caller's own
/// record when it needs the caller's id, then the target's record by
/// username when it names a target.
pub open spec fn spec_write_lookups(call: EmbeddedWriteCall) -> Seq<Seq<char>> {
    (if !(call is TweetCreate || call is Reply || call is Dm) {
        seq!["https://api.x.com/2/users/me"@]
    } else {
        Seq::empty()
    }) + match target_username(call) {
        Some(u) => seq!["https://api.x.com/2/users/by/username/"@ + u],
        None => Seq::empty(),
    }
}

/// The lookup URLs a call reads before its write.
pub fn embedded_write_lookups(call: &EmbeddedWriteCall) -> (r: Vec<String>)
    ensures
        arg_views(r@) == spec_write_lookups(*call),
{
    let mut v: Vec<String> = Vec::new();
    if call.needs_me_id() {
        v.push(owned("https://api.x.com/2/users/me"));
    }
    let ghost head = arg_views(v@);
    let target: Option<&String> = match call {
        EmbeddedWriteCall::Follow { target_username } => Some(target_username),
        EmbeddedWriteCall::Unfollow { target_username } => Some(target_username),
        EmbeddedWriteCall::Mute { target_username } => Some(target_username),
        EmbeddedWriteCall::Unmute { target_username } => Some(target_username),
        EmbeddedWriteCall::Block { target_username } => Some(target_username),
        EmbeddedWriteCall::Unblock { target_username } => Some(target_username),
        EmbeddedWriteCall::Dm { target_username, .. } => Some(target_username),
        _ => None,
    };
    if let Some(u) = target {
        v.push(user_by_username_url(u.as_str()));
    }
    assert(arg_views(v@) =~= spec_write_lookups(*call));
    v
}

/// The lookup URL of a user's id by username.
pub fn user_by_username_url(username: &str) -> (r: String)
    ensures
        r@ == "https://api.x.com/2/users/by/username/"@ + username@,
{
    cat("https://api.x.com/2/users/by/username/", username)
}

} // verus!
