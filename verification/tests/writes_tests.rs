use bird::cli::writes::{
    run_dm, run_follow, run_like, run_reply, run_tweet, run_unmute, write_call_args,
    EmbeddedWriteCall, WriteBody,
};

#[test]
fn like_builder() {
    let w = run_like("42".into());
    assert_eq!(w.verb, "like");
    assert_eq!(w.method, "POST");
    assert_eq!(w.url_for_prompt, "https://api.x.com/2/users/me/likes/42");
    assert!(w.body.is_none());
    assert_eq!(w.xurl_args, vec!["like".to_string(), "42".to_string()]);
}

#[test]
fn tweet_builder_dry_run_envelope_with_media() {
    let w = run_tweet("hi".into(), Some("m1".into()));
    assert_eq!(w.url_for_prompt, "https://api.x.com/2/tweets");
    assert_eq!(w.xurl_args, vec!["post", "hi", "--media-id", "m1"]);
    match w.body {
        Some(WriteBody::Tweet { text, media_id }) => {
            assert_eq!(text, "hi");
            assert_eq!(media_id.as_deref(), Some("m1"));
        }
        _ => panic!("tweet body"),
    }
}

#[test]
fn follow_builder_dry_run_envelope() {
    let w = run_follow("jack".into());
    assert_eq!(w.method, "POST");
    assert_eq!(w.url_for_prompt, "https://api.x.com/2/users/me/following (target=@jack)");
    let u = run_unmute("jack".into());
    assert_eq!(u.method, "DELETE");
    assert_eq!(u.url_for_prompt, "https://api.x.com/2/users/me/muting (target=@jack)");
}

#[test]
fn dm_builder_dry_run_envelope() {
    let w = run_dm("jack".into(), "yo".into());
    assert_eq!(w.url_for_prompt, "https://api.x.com/2/dm_conversations/with/@jack/messages");
    assert_eq!(w.xurl_args, vec!["dm", "jack", "yo"]);
    let r = run_reply("7".into(), "ok".into());
    assert_eq!(r.url_for_prompt, "https://api.x.com/2/tweets (reply to 7)");
}

#[test]
fn write_args_prefix_username() {
    let args = vec!["like".to_string(), "1".to_string()];
    assert_eq!(write_call_args(&args, Some("alice")), vec!["-u", "alice", "like", "1"]);
    assert_eq!(write_call_args(&args, None), args);
}

#[test]
fn embedded_call_prerequisites() {
    let like = EmbeddedWriteCall::Like { tweet_id: "1".into() };
    assert!(like.needs_me_id() && !like.needs_target_id());
    let dm = EmbeddedWriteCall::Dm { target_username: "a".into(), text: "b".into() };
    assert!(!dm.needs_me_id() && dm.needs_target_id());
    let follow = EmbeddedWriteCall::Follow { target_username: "a".into() };
    assert!(follow.needs_me_id() && follow.needs_target_id());
}
