use bird::cli::dispatch::dry_run_json;
use bird::cli::writes::{
    embedded_write_lookups, embedded_write_request, write_after_answer, write_start, EmbeddedWriteCall,
    WriteAction,
};
use bird::error::BirdError;
use bird::db::store::{attach_cache_sql, prune_needed, prune_step, prune_target, PruneStep};

fn body_json(s: &str) -> serde_json::Value {
    serde_json::from_str(s).expect("json")
}

#[test]
fn embedded_write_like_resolves_me_id_and_posts_body() {
    let call = EmbeddedWriteCall::Like { tweet_id: "999".to_string() };
    let lookups = embedded_write_lookups(&call);
    assert_eq!(lookups, vec!["https://api.x.com/2/users/me".to_string()]);
    let req = embedded_write_request(&call, "42", "");
    assert_eq!(req.method, "POST");
    assert_eq!(req.url, "https://api.x.com/2/users/42/likes");
    assert_eq!(body_json(&req.body)["tweet_id"], "999");
}

#[test]
fn embedded_write_follow_resolves_me_and_target_then_posts() {
    let call = EmbeddedWriteCall::Follow { target_username: "elonmusk".to_string() };
    let lookups = embedded_write_lookups(&call);
    assert_eq!(lookups.len(), 2);
    assert_eq!(lookups[0], "https://api.x.com/2/users/me");
    assert_eq!(lookups[1], "https://api.x.com/2/users/by/username/elonmusk");
    let req = embedded_write_request(&call, "me-1", "target-9");
    assert_eq!(req.url, "https://api.x.com/2/users/me-1/following");
    assert_eq!(body_json(&req.body)["target_user_id"], "target-9");
}

#[test]
fn embedded_tweet_and_reply_bodies() {
    let t = EmbeddedWriteCall::TweetCreate { text: "hi \"you\"".to_string(), media_id: Some("m1".to_string()) };
    assert!(embedded_write_lookups(&t).is_empty());
    let r = embedded_write_request(&t, "", "");
    assert_eq!((r.method, r.url.as_str()), ("POST", "https://api.x.com/2/tweets"));
    assert_eq!(r.body, "{\"media\":{\"media_ids\":[\"m1\"]},\"text\":\"hi \\\"you\\\"\"}");
    let plain = EmbeddedWriteCall::TweetCreate { text: "hi".to_string(), media_id: None };
    assert_eq!(embedded_write_request(&plain, "", "").body, "{\"text\":\"hi\"}");
    let reply = EmbeddedWriteCall::Reply { parent_id: "7".to_string(), text: "yo".to_string() };
    let rr = embedded_write_request(&reply, "", "");
    assert_eq!(rr.body, "{\"reply\":{\"in_reply_to_tweet_id\":\"7\"},\"text\":\"yo\"}");
}

#[test]
fn embedded_deletes_and_dm() {
    let un = EmbeddedWriteCall::Unlike { tweet_id: "5".to_string() };
    let r = embedded_write_request(&un, "42", "");
    assert_eq!((r.method, r.url.as_str(), r.body.as_str()), ("DELETE", "https://api.x.com/2/users/42/likes/5", ""));
    let ub = EmbeddedWriteCall::Unblock { target_username: "x".to_string() };
    let r = embedded_write_request(&ub, "1", "2");
    assert_eq!((r.method, r.url.as_str()), ("DELETE", "https://api.x.com/2/users/1/blocking/2"));
    let dm = EmbeddedWriteCall::Dm { target_username: "bob".to_string(), text: "hey".to_string() };
    assert_eq!(embedded_write_lookups(&dm), vec!["https://api.x.com/2/users/by/username/bob".to_string()]);
    let r = embedded_write_request(&dm, "", "77");
    assert_eq!(r.url, "https://api.x.com/2/dm_conversations/with/77/messages");
    assert_eq!(r.body, "{\"text\":\"hey\"}");
}

#[test]
fn dry_run_envelope() {
    let s = dry_run_json("tweet", "POST", "https://api.x.com/2/tweets", Some("{\"text\":\"hi\"}"));
    assert_eq!(
        s,
        "{\"data\":{\"dry_run\":true,\"verb\":\"tweet\",\"would\":{\"body\":{\"text\":\"hi\"},\"method\":\"POST\",\"url\":\"https://api.x.com/2/tweets\"}},\"meta\":{}}"
    );
    let v: serde_json::Value = serde_json::from_str(&dry_run_json("like", "POST", "u", None)).expect("json");
    assert_eq!(v["data"]["would"]["method"], "POST");
    assert!(v["data"]["would"].get("body").is_none());
}

#[test]
fn pruning_decisions() {
    assert_eq!(prune_target(100), 80);
    assert_eq!(prune_target(104_857_600), 83_886_080);
    assert_eq!(prune_target(7), 5);
    assert!(prune_needed(101, 100));
    assert!(!prune_needed(100, 100));
    assert_eq!(prune_step(80, 80, None), PruneStep::Done);
    assert_eq!(prune_step(90, 80, None), PruneStep::DeleteBatch);
    assert_eq!(prune_step(90, 80, Some(100)), PruneStep::DeleteBatch);
    assert_eq!(prune_step(90, 80, Some(0)), PruneStep::Done);
}

#[test]
fn attach_statement_quotes_path() {
    assert_eq!(
        attach_cache_sql("/tmp/o'brien/cache.db"),
        "ATTACH DATABASE '/tmp/o''brien/cache.db' AS old_cache"
    );
}

fn like_spec() -> bird::cli::writes::WriteSpec {
    bird::cli::writes::WriteSpec {
        verb: "like",
        method: "POST",
        url_for_prompt: "https://api.x.com/2/users/me/likes/1".into(),
        body: None,
        xurl_args: vec!["like".into(), "1".into()],
    }
}

#[test]
fn execute_dry_run_short_circuits() {
    let guard = bird::cli::WriteGuard { force: false, dry_run: true };
    assert!(matches!(write_start(&like_spec(), guard, false, false, false, None), WriteAction::DryRun));
}

#[test]
fn execute_cache_only_rejects_write() {
    let guard = bird::cli::WriteGuard { force: true, dry_run: false };
    match write_start(&like_spec(), guard, true, false, false, None) {
        WriteAction::Refuse(BirdError::General { command, message, .. }) => {
            assert_eq!(command, Some("like"));
            assert!(message.contains("--cache-only"), "expected cache-only refusal, got: {message}");
        }
        _ => panic!("expected General error with cache-only refusal"),
    }
}

#[test]
fn execute_no_interactive_without_force_errors() {
    let guard = bird::cli::WriteGuard { force: false, dry_run: false };
    match write_start(&like_spec(), guard, false, true, true, None) {
        WriteAction::Refuse(BirdError::Usage { error_id, .. }) => {
            assert_eq!(error_id, "requires-confirmation");
        }
        _ => panic!("expected requires-confirmation usage error"),
    }
}

#[test]
fn write_prompt_then_answer() {
    let guard = bird::cli::WriteGuard { force: false, dry_run: false };
    match write_start(&like_spec(), guard, false, false, true, Some("al")) {
        WriteAction::Prompt(p) => {
            assert_eq!(p, "About to like POST https://api.x.com/2/users/me/likes/1. Proceed? [y/N] ")
        }
        _ => panic!("expected a prompt"),
    }
    match write_after_answer(&like_spec(), Some(" YES\n"), false, Some("al")) {
        WriteAction::Send(args) => assert_eq!(args, vec!["-u", "al", "like", "1"]),
        _ => panic!("expected send"),
    }
    assert!(matches!(write_after_answer(&like_spec(), Some("n"), false, None), WriteAction::Refuse(_)));
    assert!(matches!(write_after_answer(&like_spec(), None, false, None), WriteAction::Refuse(_)));
    assert!(matches!(write_after_answer(&like_spec(), Some("y"), true, None), WriteAction::Refuse(_)));
}
