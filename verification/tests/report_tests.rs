use bird::db::store::StoreStats;
use bird::doctor::{
    assemble_report, build_commands_section, cache_status_from_stats, format_pretty,
    scope_commands, subprocess_auth_state, unreadable_cache_status, AppCredentials, AuthState,
    BearerTokenPresence, CacheStatus, CommandStatus, DoctorReport, EnvCredentials,
    OAuth2TokenPresence, XurlStatus,
};

fn s(v: &[&str]) -> Vec<String> {
    v.iter().map(|x| x.to_string()).collect()
}

fn sample_report() -> DoctorReport {
    let mut app = AppCredentials::default();
    app.client_id_set = true;
    app.default_user = Some("alice".to_string());
    app.oauth2_tokens.push(("alice".to_string(), OAuth2TokenPresence::default()));
    app.bearer = Some(BearerTokenPresence::default());
    DoctorReport {
        xurl: XurlStatus {
            path: Some("/usr/bin/xurl".to_string()),
            version: Some("1.2.3".to_string()),
            available: true,
        },
        auth: AuthState {
            active_app: "default".to_string(),
            apps: vec![("default".to_string(), app)],
            env: EnvCredentials::default(),
        },
        commands: vec![
            (
                "me".to_string(),
                CommandStatus {
                    available: true,
                    reason: None,
                    accepted_schemes: Vec::new(),
                    credentialed_schemes: Vec::new(),
                    reachable: true,
                },
            ),
            (
                "bookmarks".to_string(),
                CommandStatus {
                    available: false,
                    reason: Some("not authenticated. Run `bird login`.".to_string()),
                    accepted_schemes: s(&["oauth2", "app"]),
                    credentialed_schemes: s(&["oauth2"]),
                    reachable: false,
                },
            ),
        ],
        cache: Some(CacheStatus {
            path: "/tmp/bird.db".to_string(),
            exists: true,
            size_tenths_mb: 123,
            max_size_mb: 100,
            tweets: 5,
            users: 2,
            raw_responses: 1,
            healthy: false,
        }),
        linked_xurl_version: None,
    }
}

#[test]
fn pretty_report_plain_text() {
    let text = format_pretty(&sample_report(), false, false, "xurl not found. install it");
    let expected = [
        "Xurl\n",
        "  path: /usr/bin/xurl\n",
        "  version: 1.2.3\n",
        "  status: available\n",
        "\nAuth\n",
        "  active_app: default\n",
        "  env CLIENT_ID: not set\n",
        "  env CLIENT_SECRET: not set\n",
        "  env XURL_BEARER_TOKEN: not set\n",
        "  app `default`:\n",
        "    client_id: set\n",
        "    client_secret: not set\n",
        "    default_user: @alice\n",
        "    oauth2_users: 1 stored\n",
        "    bearer: present\n",
        "\nCommands\n",
        "  bookmarks: unavailable: not authenticated. Run `bird login`.\n",
        "    accepts: oauth2, app\n",
        "    credentialed: oauth2\n",
        "    reachable: no\n",
        "  me: available\n",
        "    reachable: yes\n",
        "\nCache\n",
        "  path: /tmp/bird.db\n",
        "  size: 12.3 MB / 100 MB\n",
        "  tweets: 5\n",
        "  users: 2\n",
        "  raw_responses: 1\n",
        "  status: unhealthy\n",
    ]
    .concat();
    assert_eq!(text, expected);
}

#[test]
fn pretty_report_missing_transport_and_no_cache() {
    let mut r = sample_report();
    r.xurl = XurlStatus { path: None, version: None, available: false };
    r.cache = None;
    r.linked_xurl_version = Some("0.9.0".to_string());
    let text = format_pretty(&r, false, false, "xurl not found. install it");
    assert!(text.starts_with(
        "Xurl\n  status: not found\n  xurl not found. install it\n  linked_crate_version: 0.9.0\n\nAuth\n"
    ));
    assert!(!text.contains("Cache"));
    assert!(text.ends_with("  me: available\n    reachable: yes\n"));
}

#[test]
fn pretty_report_colors_and_emoji() {
    let text = format_pretty(&sample_report(), true, true, "");
    assert!(text.starts_with("\u{1b}[37m\u{1b}[1mXurl\u{1b}[0m\u{1b}[39m\n"));
    assert!(text.contains(
        "  \u{1b}[36m\u{1b}[1mme\u{1b}[0m\u{1b}[39m: \u{2705} \u{1b}[32mavailable\u{1b}[39m\n"
    ));
    assert!(text.contains("  \u{1b}[36m\u{1b}[1mbookmarks\u{1b}[0m\u{1b}[39m: \u{274c} \u{1b}[31munavailable: \u{1b}[39m"));
    assert!(text.contains("  status: \u{1b}[31munhealthy\u{1b}[39m\n"));
}

#[test]
fn cache_status_rounds_size_to_tenths() {
    let stats = StoreStats {
        tweet_count: 7,
        user_count: 3,
        bookmark_count: 0,
        raw_response_count: 9,
        total_size_bytes: 1_300_000,
        max_size_bytes: 104_857_600,
    };
    let c = cache_status_from_stats("/x/bird.db".to_string(), &stats);
    assert_eq!(c.size_tenths_mb, 12);
    assert_eq!(c.max_size_mb, 100);
    assert_eq!((c.tweets, c.users, c.raw_responses), (7, 3, 9));
    assert!(c.exists && c.healthy);
    let half = StoreStats { total_size_bytes: 1_101_005, ..stats };
    // 1.05 MB rounds half up to 1.1
    assert_eq!(cache_status_from_stats("p".to_string(), &half).size_tenths_mb, 11);
    let u = unreadable_cache_status();
    assert_eq!(u.path, "unknown");
    assert!(!u.exists && !u.healthy);
    assert_eq!(u.max_size_mb, 100);
}

#[test]
fn doctor_report_has_commands() {
    let auth = subprocess_auth_state(None, EnvCredentials::default());
    let entries = vec![
        ("login".to_string(), None, Vec::new()),
        ("me".to_string(), Some(true), Vec::new()),
        ("cache".to_string(), None, Vec::new()),
        ("search".to_string(), Some(false), Vec::new()),
    ];
    let xurl = XurlStatus { path: None, version: None, available: true };
    let r = assemble_report(xurl, auth, &entries, None, None, None, "xurl not found.");
    assert!(!r.commands.is_empty());
    assert!(r.commands.iter().any(|(n, _)| n == "me"));
    assert!(r.commands.iter().any(|(n, _)| n == "login"));
    assert!(!r.commands.iter().any(|(n, _)| n == "cache"));
}

#[test]
fn doctor_report_scoped_has_only_that_command() {
    let auth = subprocess_auth_state(None, EnvCredentials::default());
    let entries = vec![
        ("login".to_string(), None, Vec::new()),
        ("me".to_string(), Some(true), Vec::new()),
    ];
    let xurl = XurlStatus { path: None, version: None, available: true };
    let r = assemble_report(xurl, auth, &entries, Some("me"), None, None, "xurl not found.");
    assert_eq!(r.commands.len(), 1);
    assert_eq!(r.commands[0].0, "me");
}

#[test]
fn auth_state_subprocess_has_default_app_entry() {
    let a = subprocess_auth_state(Some("bob".to_string()), EnvCredentials::default());
    assert_eq!(a.active_app, "default");
    assert_eq!(a.apps.len(), 1);
    assert_eq!(a.apps[0].0, "default");
    assert_eq!(a.apps[0].1.default_user.as_deref(), Some("bob"));
}

#[test]
fn commands_section_statuses() {
    let auth = subprocess_auth_state(None, EnvCredentials::default());
    let entries = vec![
        ("login".to_string(), None, Vec::new()),
        ("me".to_string(), Some(true), s(&["oauth2"])),
        ("cache".to_string(), None, Vec::new()),
        ("search".to_string(), Some(false), Vec::new()),
    ];
    let cmds = build_commands_section(true, &auth, &entries, "xurl not found.");
    assert_eq!(cmds.len(), 3);
    assert_eq!(cmds[0].0, "login");
    assert!(cmds[0].1.available && !cmds[0].1.reachable && cmds[0].1.reason.is_none());
    assert_eq!(cmds[1].0, "me");
    assert!(!cmds[1].1.available && !cmds[1].1.reachable);
    assert_eq!(cmds[1].1.accepted_schemes, s(&["oauth2"]));
    assert!(cmds[1].1.credentialed_schemes.is_empty());
    assert_eq!(cmds[1].1.reason.as_deref(), Some("not authenticated. Run `bird login`."));
    assert_eq!(cmds[2].0, "search");
    assert!(cmds[2].1.available && !cmds[2].1.reachable);

    // With a bearer token in the environment the app is authenticated.
    let env = EnvCredentials { client_id_set: false, client_secret_set: false, bearer_token_set: true };
    let auth2 = subprocess_auth_state(None, env);
    let cmds2 = build_commands_section(true, &auth2, &entries, "xurl not found.");
    assert!(cmds2[1].1.available);
    assert!(!cmds2[1].1.reachable);

    // Without the transport, every status carries the reason.
    let cmds3 = build_commands_section(false, &auth2, &entries, "xurl not found.");
    assert!(!cmds3[0].1.available);
    assert_eq!(cmds3[1].1.reason.as_deref(), Some("xurl not found."));
    assert!(cmds3[2].1.available && cmds3[2].1.reason.as_deref() == Some("xurl not found."));
}

#[test]
fn scope_keeps_all_when_unknown() {
    let auth = subprocess_auth_state(None, EnvCredentials::default());
    let entries = vec![("login".to_string(), None, Vec::new())];
    let cmds = build_commands_section(true, &auth, &entries, "r");
    let kept = scope_commands(cmds, Some("nope"));
    assert_eq!(kept.len(), 1);
    assert_eq!(kept[0].0, "login");
}
