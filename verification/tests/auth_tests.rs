use bird::auth::{
    build_authorize_url, choose_command_token, has_oauth1_available, is_expired,
    make_code_challenge, make_code_verifier, resolve_oauth2_token, CommandToken, OAuth1Config,
    OAuth2Account, StoredTokens,
};
use bird::cli::AuthType;
use bird::login::{extract_query_param, parse_oauth2_authorize_url_state};

fn acct(token: &str) -> OAuth2Account {
    OAuth2Account { access_token: token.into(), refresh_token: None, expires_at_secs: None }
}

#[test]
fn stored_tokens_read_after_write() {
    let mut t = StoredTokens::new();
    assert!(t.get("alice").is_none());
    t.add_account("alice".into(), acct("a1"));
    t.add_account("bob".into(), acct("b1"));
    t.add_account("alice".into(), acct("a2"));
    assert_eq!(t.accounts.len(), 2);
    assert_eq!(t.get("alice").unwrap().access_token, "a2");
    assert_eq!(t.get("bob").unwrap().access_token, "b1");
}

#[test]
fn expires_at_adds_lifetime() {
    assert_eq!(StoredTokens::expires_at_from(100, Some(50)), Some(150));
    assert_eq!(StoredTokens::expires_at_from(100, None), None);
    assert_eq!(StoredTokens::expires_at_from(u64::MAX, Some(1)), None);
    assert!(StoredTokens::expires_at(None).is_none());
    let e = StoredTokens::expires_at(Some(3600)).expect("clock after epoch");
    assert!(e >= 3600);
    assert!(is_expired(Some(10), 10));
    assert!(!is_expired(Some(11), 10));
    assert!(!is_expired(None, 10));
}

#[test]
fn oauth1_needs_all_four() {
    let full = OAuth1Config {
        consumer_key: Some("k".into()),
        consumer_secret: Some("s".into()),
        access_token: Some("t".into()),
        access_token_secret: Some("ts".into()),
    };
    assert!(has_oauth1_available(&full));
    let partial = OAuth1Config { access_token_secret: None, ..full };
    assert!(!has_oauth1_available(&partial));
}

#[test]
fn oauth2_token_resolution_order() {
    let mut st = StoredTokens::new();
    st.add_account("alice".into(), OAuth2Account { access_token: "stored".into(), refresh_token: Some("r".into()), expires_at_secs: None });
    let r = resolve_oauth2_token(Some("cfg"), None, Some("env"), None, None, Some(&st));
    assert_eq!(r, Some(("cfg".to_string(), None)));
    let r = resolve_oauth2_token(None, None, Some("env"), Some("er"), None, Some(&st));
    assert_eq!(r, Some(("env".to_string(), Some("er".to_string()))));
    let r = resolve_oauth2_token(None, None, None, None, None, Some(&st));
    assert_eq!(r, Some(("stored".to_string(), Some("r".to_string()))));
    assert_eq!(resolve_oauth2_token(None, None, None, None, Some("bob"), Some(&st)), None);
    assert_eq!(resolve_oauth2_token(None, None, None, None, None, None), None);
}

#[test]
fn command_token_priority() {
    let all = [AuthType::OAuth2User, AuthType::OAuth1, AuthType::Bearer];
    match choose_command_token(&all, Some("o2".into()), true, Some("b".into())) {
        Some(CommandToken::Bearer { token, auth_type }) => {
            assert_eq!(token, "o2");
            assert_eq!(auth_type, AuthType::OAuth2User);
        }
        _ => panic!("expected OAuth2 bearer"),
    }
    assert!(matches!(choose_command_token(&all, None, true, Some("b".into())), Some(CommandToken::OAuth1)));
    match choose_command_token(&all, None, false, Some("b".into())) {
        Some(CommandToken::Bearer { token, auth_type }) => {
            assert_eq!(token, "b");
            assert_eq!(auth_type, AuthType::Bearer);
        }
        _ => panic!("expected app bearer"),
    }
    assert!(choose_command_token(&[AuthType::OAuth1], Some("o2".into()), false, Some("b".into())).is_none());
}

#[test]
fn authorize_url_is_percent_encoded() {
    let url = build_authorize_url("cid", "http://127.0.0.1:8080/cb", "chal", "st ate");
    assert_eq!(
        url,
        "https://x.com/i/oauth2/authorize?response%5Ftype=code&client%5Fid=cid&redirect%5Furi=http%3A%2F%2F127%2E0%2E0%2E1%3A8080%2Fcb&scope=tweet%2Eread%20users%2Eread%20bookmark%2Eread%20offline%2Eaccess&state=st%20ate&code%5Fchallenge=chal&code%5Fchallenge%5Fmethod=S256"
    );
}

#[test]
fn pkce_verifier_and_challenge() {
    let v = make_code_verifier();
    assert_eq!(v.len(), 43);
    assert!(v.chars().all(|c| c.is_ascii_alphanumeric() || c == '-' || c == '_'));
    // RFC 7636 appendix B example.
    assert_eq!(
        make_code_challenge("dBjftJeZ4CVP-mB92K27uhbUJU1p1r_wW1gFWFOEjXk"),
        "E9Melhoa2OwvFrEMTJguCHaoeK1t8URWbuGJSstw-cM"
    );
}

#[test]
fn extract_state_param_basic() {
    let url = "https://x.com/i/oauth2/authorize?response_type=code&state=abc123&code_challenge=xyz";
    assert_eq!(extract_query_param(url, "state").as_deref(), Some("abc123"));
}

#[test]
fn extract_state_param_urlencoded() {
    let url = "https://x.com/i/oauth2/authorize?state=y7pn7CS90LON5frx%2BTIJBi2dXxz71gAA%3D";
    assert_eq!(extract_query_param(url, "state").as_deref(), Some("y7pn7CS90LON5frx+TIJBi2dXxz71gAA="));
}

#[test]
fn extract_state_param_missing() {
    let url = "https://x.com/i/oauth2/authorize?response_type=code";
    assert_eq!(extract_query_param(url, "state"), None);
}

#[test]
fn extract_state_param_invalid_url() {
    assert_eq!(extract_query_param("not a url", "state"), None);
    assert_eq!(parse_oauth2_authorize_url_state("https://x.com/a?state=s1&state=s2").as_deref(), Some("s1"));
}

#[test]
fn authorize_query_decodes_to_its_pairs() {
    let url = build_authorize_url("c id", "http://h/cb?x=1&y=2", "chal", "st&ate");
    let (_, query) = url.split_once('?').expect("query");
    let pairs: Vec<(String, String)> = url::form_urlencoded::parse(query.as_bytes())
        .map(|(k, v)| (k.into_owned(), v.into_owned()))
        .collect();
    let expected: Vec<(String, String)> = [
        ("response_type", "code"),
        ("client_id", "c id"),
        ("redirect_uri", "http://h/cb?x=1&y=2"),
        ("scope", "tweet.read users.read bookmark.read offline.access"),
        ("state", "st&ate"),
        ("code_challenge", "chal"),
        ("code_challenge_method", "S256"),
    ]
    .iter()
    .map(|(k, v)| (k.to_string(), v.to_string()))
    .collect();
    assert_eq!(pairs, expected);
}
