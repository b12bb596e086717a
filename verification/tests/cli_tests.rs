use bird::cli::argv::{explicit_output_from_argv, output_from_argv, parse_output_value};
use bird::cli::clap_errors::{clap_error_to_bird, ClapErrorKind};
use bird::cli::dispatch::{
    clamp_limit, command_is_api_hitting, command_needs_xurl, confirmation_answer,
    confirmation_prompt, default_auth_type, dry_run_text_lines, guard_step, parse_param_vec,
    validate_auth_value, xurl_write, GuardOutcome, GuardStep, ListFlags,
};
use bird::cli::parsers::parse_header_kv;
use bird::cli::{effective_color, effective_output, AuthType, CacheAction, Command, WriteGuard};
use bird::error::{BirdError, ErrorSource, SourceKind};
use bird::output::{ColorMode, OutputFormat};

fn argv(v: &[&str]) -> Vec<String> {
    v.iter().map(|s| s.to_string()).collect()
}

#[test]
fn accepts_well_formed_header() {
    assert_eq!(parse_header_kv("X-Custom: foo").expect("valid"), "X-Custom: foo");
}

#[test]
fn trims_whitespace_around_name_and_value() {
    assert_eq!(parse_header_kv("  X-Custom  :   foo bar  ").expect("valid"), "X-Custom: foo bar");
}

#[test]
fn splits_on_first_colon_only() {
    assert_eq!(
        parse_header_kv("Authorization: Bearer abc:def").expect("valid"),
        "Authorization: Bearer abc:def"
    );
}

#[test]
fn rejects_missing_colon() {
    let err = parse_header_kv("X-Custom foo").expect_err("malformed");
    assert!(err.contains("Name: Value"));
    assert_eq!(err, "header must be in 'Name: Value' form, got: \"X-Custom foo\"");
}

#[test]
fn rejects_empty_name() {
    let err = parse_header_kv(": value").expect_err("empty name");
    assert!(err.contains("header name"));
    assert_eq!(err, "header name must not be empty (got: \": value\")");
}

#[test]
fn clamp_limit_enforces_ceiling_and_default() {
    assert_eq!(clamp_limit(Some(50_000), 1000, 10_000), (10_000, true));
    assert_eq!(clamp_limit(None, 1000, 10_000), (1000, false));
    assert_eq!(clamp_limit(Some(500), 1000, 10_000), (500, false));
    assert_eq!(clamp_limit(Some(0), 1000, 10_000), (1000, false));
}

#[test]
fn output_from_argv_detects_json_flag() {
    assert_eq!(output_from_argv(&argv(&["bird", "--json", "me"]), None, true), OutputFormat::Json);
}

#[test]
fn output_from_argv_detects_jsonl_flag() {
    assert_eq!(
        output_from_argv(&argv(&["bird", "bookmarks", "--jsonl"]), None, true),
        OutputFormat::Jsonl
    );
}

#[test]
fn output_from_argv_detects_output_separate_value() {
    assert_eq!(
        output_from_argv(&argv(&["bird", "--output", "json", "me"]), None, true),
        OutputFormat::Json
    );
}

#[test]
fn output_from_argv_detects_output_equals_value() {
    assert_eq!(
        output_from_argv(&argv(&["bird", "--output=jsonl", "bookmarks"]), None, true),
        OutputFormat::Jsonl
    );
}

#[test]
fn output_from_argv_detects_short_o_value() {
    assert_eq!(
        output_from_argv(&argv(&["bird", "-o", "json", "me"]), None, true),
        OutputFormat::Json
    );
}

#[test]
fn output_from_argv_falls_back_to_env_then_tty() {
    let plain = argv(&["bird", "me"]);
    assert_eq!(output_from_argv(&plain, Some("ndjson"), true), OutputFormat::Ndjson);
    assert_eq!(output_from_argv(&plain, Some("bogus"), true), OutputFormat::Text);
    assert_eq!(output_from_argv(&plain, None, false), OutputFormat::Json);
}

#[test]
fn explicit_output_skips_unknown_values() {
    assert_eq!(explicit_output_from_argv(&argv(&["bird", "-o", "xml", "me"])), None);
    assert_eq!(explicit_output_from_argv(&argv(&["bird", "-o=text"])), Some(OutputFormat::Text));
    assert_eq!(explicit_output_from_argv(&argv(&["bird", "-o"])), None);
    assert_eq!(parse_output_value("ndjson"), Some(OutputFormat::Ndjson));
    assert_eq!(parse_output_value("JSON"), None);
}

#[test]
fn effective_flags() {
    assert_eq!(effective_color(true, false, ColorMode::Always), ColorMode::Never);
    assert_eq!(effective_color(false, false, ColorMode::Always), ColorMode::Always);
    assert_eq!(effective_output(true, true, Some(OutputFormat::Text)), Some(OutputFormat::Json));
    assert_eq!(effective_output(false, true, None), Some(OutputFormat::Jsonl));
    assert_eq!(effective_output(false, false, Some(OutputFormat::Text)), Some(OutputFormat::Text));
}

#[test]
fn clap_error_unknown_argument_maps_to_usage() {
    let mapped = clap_error_to_bird(ClapErrorKind::UnknownArgument, "error: unexpected argument");
    let b = mapped.expect("usage error");
    assert_eq!(b.exit_code(), 2);
    assert_eq!(b.error_id(), "unknown-argument");
    assert_eq!(b.message(), "error: unexpected argument");
}

#[test]
fn clap_error_display_help_returns_none() {
    assert!(clap_error_to_bird(ClapErrorKind::DisplayHelp, "help").is_none());
    assert!(clap_error_to_bird(ClapErrorKind::DisplayVersion, "1.0").is_none());
    assert_eq!(clap_error_to_bird(ClapErrorKind::Io, "x").unwrap().error_id(), "invalid-arguments");
}

fn me() -> Command {
    Command::Me { pretty: false }
}

fn tweet(guard: WriteGuard) -> Command {
    Command::Tweet { text: "hello".into(), media_id: None, guard }
}

fn cache_stats() -> Command {
    Command::Cache { action: CacheAction::Stats { pretty: false } }
}

#[test]
fn validate_auth_accepts_app_oauth1_oauth2() {
    let accepted = [AuthType::OAuth2User];
    assert!(validate_auth_value("app", &me(), Some(&accepted)).is_ok());
    assert!(validate_auth_value("oauth1", &me(), Some(&accepted)).is_ok());
    assert!(validate_auth_value("oauth2", &me(), Some(&accepted)).is_ok());
    assert!(validate_auth_value("OAuth2", &me(), Some(&accepted)).is_ok());
}

#[test]
fn validate_auth_rejects_unknown_value() {
    let err = validate_auth_value("bearer", &me(), None).expect_err("bearer is xurl-side legacy");
    assert!(err.contains("app, oauth1, oauth2, none"));
    assert_eq!(err, "--auth value must be one of: app, oauth1, oauth2, none (got: \"bearer\")");
}

#[test]
fn validate_auth_none_rejected_for_command_with_required_auth() {
    let accepted = [AuthType::OAuth2User, AuthType::OAuth1];
    let err = validate_auth_value("none", &tweet(WriteGuard::default()), Some(&accepted))
        .expect_err("tweet requires auth");
    assert!(err.contains("not accepted"));
}

#[test]
fn validate_auth_none_allowed_for_local_only_command() {
    let accepted = [AuthType::OAuth2User];
    assert!(validate_auth_value("none", &cache_stats(), Some(&accepted)).is_ok());
    let only_none = [AuthType::NoAuth];
    assert!(validate_auth_value("none", &me(), Some(&only_none)).is_ok());
}

#[test]
fn command_is_api_hitting_skips_diagnostic_commands() {
    assert!(!command_is_api_hitting(&cache_stats()));
    assert!(!command_is_api_hitting(&Command::Doctor { command: None, pretty: false }));
}

#[test]
fn command_is_api_hitting_true_for_writes_and_reads() {
    assert!(command_is_api_hitting(&me()));
    assert!(command_is_api_hitting(&tweet(WriteGuard::default())));
}

#[test]
fn command_needs_xurl_cache_stats_returns_false() {
    assert!(!command_needs_xurl(&cache_stats(), true, false));
}

#[test]
fn command_needs_xurl_cache_clear_is_local() {
    let forced = Command::Cache { action: CacheAction::Clear { guard: WriteGuard { force: true, dry_run: false } } };
    assert!(!command_needs_xurl(&forced, true, false));
    let prompted = Command::Cache { action: CacheAction::Clear { guard: WriteGuard { force: false, dry_run: false } } };
    assert!(!command_needs_xurl(&prompted, true, false));
}

#[test]
fn command_needs_xurl_tweet_respects_dry_run() {
    let dry = tweet(WriteGuard { force: false, dry_run: true });
    assert!(!command_needs_xurl(&dry, true, false));
    let go = tweet(WriteGuard { force: true, dry_run: false });
    assert!(command_needs_xurl(&go, true, false));
    let unconfirmable = tweet(WriteGuard { force: false, dry_run: false });
    assert!(!command_needs_xurl(&unconfirmable, false, false));
    assert!(command_needs_xurl(&unconfirmable, true, false));
    assert!(!command_needs_xurl(&unconfirmable, true, true));
}

#[test]
fn require_confirmation_yes_returns_proceed() {
    let guard = WriteGuard { force: false, dry_run: false };
    assert_eq!(guard_step("like", guard, false, true).ok(), Some(GuardStep::Prompt));
    let prompt = confirmation_prompt("like", "POST", "https://api.x.com/2/users/me/likes/1");
    assert!(prompt.contains("About to like POST https://api.x.com/2/users/me/likes/1"));
    assert!(matches!(confirmation_answer(Some("yes\n")), Ok(GuardOutcome::Proceed)));
    assert!(matches!(confirmation_answer(Some("  Y ")), Ok(GuardOutcome::Proceed)));
}

#[test]
fn require_confirmation_no_returns_user_aborted() {
    match confirmation_answer(Some("n\n")) {
        Err(BirdError::Usage { error_id, .. }) => assert_eq!(error_id, "user-aborted"),
        _ => panic!("expected user-aborted usage error"),
    }
    match confirmation_answer(None) {
        Err(BirdError::Usage { error_id, .. }) => assert_eq!(error_id, "requires-confirmation"),
        _ => panic!("expected read failure"),
    }
}

#[test]
fn require_confirmation_dry_run_returns_dry_run_without_reader() {
    let guard = WriteGuard { force: false, dry_run: true };
    assert_eq!(guard_step("like", guard, true, false).ok(), Some(GuardStep::DryRun));
    let lines = dry_run_text_lines("like", "POST", "https://x/1", None);
    assert_eq!(lines, vec!["Would like: POST https://x/1".to_string(), "(--dry-run; no request sent)".to_string()]);
}

#[test]
fn require_confirmation_no_interactive_errors() {
    let guard = WriteGuard { force: false, dry_run: false };
    match guard_step("like", guard, true, true) {
        Err(BirdError::Usage { error_id, message }) => {
            assert_eq!(error_id, "requires-confirmation");
            assert_eq!(
                message,
                "destructive operation 'like' requires --force, --yes, or interactive confirmation"
            );
        }
        _ => panic!("expected requires-confirmation usage error"),
    }
    let forced = WriteGuard { force: true, dry_run: false };
    assert_eq!(guard_step("like", forced, true, false).ok(), Some(GuardStep::Proceed));
}

#[test]
fn param_vec_last_value_wins() {
    let p = parse_param_vec(&argv(&["id=1", "noequals", "name=a=b", "id=2"]));
    assert_eq!(p.len(), 2);
    assert_eq!(p.get("id").map(|s| s.as_str()), Some("2"));
    assert_eq!(p.get("name").map(|s| s.as_str()), Some("a=b"));
    assert!(p.get("noequals").is_none());
}

#[test]
fn default_auth_type_picks_first_accepted() {
    assert_eq!(default_auth_type(Some(&[AuthType::Bearer, AuthType::OAuth1])), AuthType::Bearer);
    assert_eq!(default_auth_type(Some(&[])), AuthType::OAuth2User);
    assert_eq!(default_auth_type(None), AuthType::OAuth2User);
    assert_eq!(AuthType::NoAuth.to_string(), "none");
}

#[test]
fn xurl_write_rejects_cache_only_and_maps_failures() {
    let refused = xurl_write(true, "like", || -> Result<(), ErrorSource> { panic!("must not run") });
    match refused {
        Err(e) => {
            assert_eq!(e.exit_code(), 1);
            assert_eq!(e.message(), "write commands require network access; remove --cache-only");
            assert_eq!(e.command(), Some("like"));
        }
        Ok(()) => panic!("expected refusal"),
    }
    assert!(xurl_write(false, "like", || Ok(())).is_ok());
    let failed = xurl_write(false, "like", || Err(ErrorSource::new(SourceKind::TransportAuth, "no")));
    assert_eq!(failed.unwrap_err().exit_code(), 77);
}

#[test]
fn list_flags_default() {
    let f = ListFlags::default();
    assert!(f.limit.is_none() && f.cursor.is_none());
}

use bird::cli::runner::{
    cache_opts_from_flags, early_output_config, example_commands, has_examples_flag,
    resolve_output_config, watchlist_remove_target, wrap_help_in_envelope, xurl_gate_applies,
};

#[test]
fn runner_decisions() {
    let c = resolve_output_config(None, false, true, false, false);
    assert_eq!(c.format, OutputFormat::Json);
    let c = resolve_output_config(None, true, true, true, true);
    assert_eq!(c.format, OutputFormat::Text);
    assert!(c.quiet && c.raw && c.use_color);
    assert!(!early_output_config(OutputFormat::Json, true).use_color);
    assert!(early_output_config(OutputFormat::Text, true).use_color);
    assert!(wrap_help_in_envelope(Some(OutputFormat::Jsonl)));
    assert!(!wrap_help_in_envelope(Some(OutputFormat::Text)));
    assert!(!wrap_help_in_envelope(None));
    assert!(has_examples_flag(&argv(&["bird", "--examples"])));
    assert!(!has_examples_flag(&argv(&["bird", "me"])));
    let o = cache_opts_from_flags(false, false, true, false);
    assert!(o.no_store && o.refresh && !o.cache_only);
    assert!(xurl_gate_applies(&me(), true, false, false));
    assert!(!xurl_gate_applies(&me(), true, false, true));
    assert_eq!(watchlist_remove_target("jack"), "watchlist:@jack");
}

#[test]
fn examples_text_is_parsed() {
    let text = "Examples:\n  bird me   # who am I\n  bird search \"rust\"\r\n# bird not-this\nbird  \n";
    assert_eq!(
        example_commands(text),
        vec!["bird me".to_string(), "bird search \"rust\"".to_string(), "bird ".to_string()]
    );
}

#[test]
fn header_normalization_is_idempotent() {
    let once = parse_header_kv("  X-Custom  :   foo: bar  ").expect("valid");
    assert_eq!(once, "X-Custom: foo: bar");
    assert_eq!(parse_header_kv(&once).expect("valid"), once);
    let empty_value = parse_header_kv("X-Empty:").expect("valid");
    assert_eq!(empty_value, "X-Empty: ");
    assert_eq!(parse_header_kv(&empty_value).expect("valid"), empty_value);
}
