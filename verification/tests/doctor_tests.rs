use bird::doctor::{
    accepted_schemes_for, command_status, command_template, credentialed_for_app,
    credentialed_schemes, login_status, xurl_unavailable_reason, AppCredentials,
    BearerTokenPresence, EnvCredentials, OAuth1TokenPresence, OAuth2TokenPresence,
};

fn s(v: &[&str]) -> Vec<String> {
    v.iter().map(|x| x.to_string()).collect()
}

#[test]
fn command_templates() {
    assert_eq!(command_template("me"), Some(("GET", "/2/users/me")));
    assert_eq!(command_template("reply"), Some(("POST", "/2/tweets")));
    assert_eq!(
        command_template("unfollow"),
        Some(("DELETE", "/2/users/{source_user_id}/following/{target_user_id}"))
    );
    assert_eq!(command_template("usage_sync"), Some(("GET", "/2/usage/tweets")));
    assert_eq!(command_template("get"), None);
    assert_eq!(command_template("nope"), None);
}

#[test]
fn credentialed_schemes_in_preference_order() {
    let mut app = AppCredentials::default();
    let env = EnvCredentials::default();
    assert!(credentialed_for_app(&app, &env).is_empty());
    app.oauth2_tokens.push(("alice".into(), OAuth2TokenPresence::default()));
    app.oauth1 = Some(OAuth1TokenPresence::default());
    assert_eq!(credentialed_for_app(&app, &env), s(&["oauth2", "oauth1"]));
    let env2 = EnvCredentials { bearer_token_set: true, ..EnvCredentials::default() };
    let app2 = AppCredentials { bearer: None, ..AppCredentials::default() };
    assert_eq!(credentialed_for_app(&app2, &env2), s(&["app"]));
    let app3 = AppCredentials { bearer: Some(BearerTokenPresence { token_present: true }), ..AppCredentials::default() };
    assert_eq!(credentialed_for_app(&app3, &EnvCredentials::default()), s(&["app"]));
}

#[test]
fn accepted_schemes_ordered_and_deduplicated() {
    assert!(accepted_schemes_for(None).is_empty());
    assert_eq!(
        accepted_schemes_for(Some(s(&["app", "oauth2", "oauth1", "oauth2"]))),
        s(&["oauth2", "oauth1", "app"])
    );
    assert_eq!(credentialed_schemes(&s(&["oauth2", "oauth1", "app"]), &s(&["app", "oauth1"])), s(&["oauth1", "app"]));
}

#[test]
fn command_status_rules() {
    let reason = xurl_unavailable_reason("install it");
    assert_eq!(reason, "xurl not found. install it");
    let st = command_status(true, true, true, s(&["oauth2", "app"]), &s(&["app"]), &reason);
    assert!(st.available && st.reachable && st.reason.is_none());
    assert_eq!(st.credentialed_schemes, s(&["app"]));
    let st = command_status(true, true, false, s(&["oauth2"]), &s(&[]), &reason);
    assert!(!st.available && !st.reachable);
    assert_eq!(st.reason.as_deref(), Some("not authenticated. Run `bird login`."));
    let st = command_status(false, true, true, s(&["oauth2"]), &s(&["oauth2"]), &reason);
    assert!(!st.available && st.reachable);
    assert_eq!(st.reason.as_deref(), Some("xurl not found. install it"));
    let st = command_status(false, false, false, s(&[]), &s(&[]), &reason);
    assert!(st.available && !st.reachable);
    let l = login_status(false, &reason);
    assert!(!l.available && !l.reachable);
    assert_eq!(l.reason.as_deref(), Some("xurl not found. install it"));
}
