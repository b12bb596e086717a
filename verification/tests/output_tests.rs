use bird::error::BirdError;
use bird::output::{
    emoji_available, emoji_unavailable, error_envelope, resolve_color, sanitize_for_stderr, section,
    strip_ansi_lines, success, ColorMode, OutputConfig, OutputFormat,
};

fn text_cfg() -> OutputConfig {
    OutputConfig { format: OutputFormat::Text, use_color: false, quiet: false, raw: false }
}

#[test]
fn strip_ansi_lines_clean_json() {
    let input = "{\"data\":{\"id\":\"1\"}}\n";
    assert_eq!(strip_ansi_lines(input), input);
}

#[test]
fn strip_ansi_lines_removes_colored_error() {
    let input = "{\"data\":{\"id\":\"1\"}}\n\x1b[31mError: request failed\x1b[0m";
    assert_eq!(strip_ansi_lines(input), "{\"data\":{\"id\":\"1\"}}");
}

#[test]
fn strip_ansi_lines_preserves_all_clean() {
    let input = "line one\nline two\nline three";
    assert_eq!(strip_ansi_lines(input), input);
}

#[test]
fn strip_ansi_lines_empty() {
    assert_eq!(strip_ansi_lines(""), "");
}

#[test]
fn sanitize_normal_text() {
    assert_eq!(sanitize_for_stderr("hello world", 100), "hello world");
}

#[test]
fn sanitize_strips_escape() {
    assert_eq!(sanitize_for_stderr("a\x1b[31mred\x1b[0m", 100), "a?[31mred?[0m");
}

#[test]
fn sanitize_strips_bel() {
    assert_eq!(sanitize_for_stderr("a\x07b", 100), "a?b");
}

#[test]
fn sanitize_strips_newlines() {
    assert_eq!(sanitize_for_stderr("line1\nline2", 100), "line1?line2");
}

#[test]
fn sanitize_truncates() {
    assert_eq!(sanitize_for_stderr("abcdef", 3), "abc");
}

#[test]
fn sanitize_empty() {
    assert_eq!(sanitize_for_stderr("", 100), "");
}

#[test]
fn sanitize_at_exact_limit() {
    assert_eq!(sanitize_for_stderr("abc", 3), "abc");
}

#[test]
fn output_format_is_json_classification() {
    assert!(OutputFormat::Json.is_json());
    assert!(OutputFormat::Jsonl.is_json());
    assert!(OutputFormat::Ndjson.is_json());
    assert!(!OutputFormat::Text.is_json());
}

#[test]
fn print_message_writes_line() {
    let cfg = text_cfg();
    let mut buf = Vec::new();
    cfg.print_message(&mut buf, "hello").unwrap();
    assert_eq!(String::from_utf8(buf).unwrap(), "hello\n");
}

#[test]
fn print_diag_suppresses_when_quiet() {
    let cfg = OutputConfig { format: OutputFormat::Text, use_color: false, quiet: true, raw: false };
    let mut buf = Vec::new();
    cfg.print_diag(&mut buf, "diag").unwrap();
    assert!(buf.is_empty(), "diag should be suppressed when quiet");
}

#[test]
fn print_diag_writes_when_not_quiet() {
    let cfg = text_cfg();
    let mut buf = Vec::new();
    cfg.print_diag(&mut buf, "diag").unwrap();
    assert_eq!(String::from_utf8(buf).unwrap(), "diag\n");
}

#[test]
fn print_diag_suppressed_in_json_mode() {
    let cfg = OutputConfig { format: OutputFormat::Json, use_color: false, quiet: false, raw: false };
    let mut buf = Vec::new();
    cfg.print_diag(&mut buf, "diag").unwrap();
    assert!(buf.is_empty());
}

#[test]
fn print_error_json_writes_envelope() {
    let cfg = OutputConfig { format: OutputFormat::Json, use_color: false, quiet: false, raw: false };
    let mut buf = Vec::new();
    let err = BirdError::config("missing");
    cfg.print_error(&mut buf, &err).unwrap();
    let s = String::from_utf8(buf).unwrap();
    let val: serde_json::Value = serde_json::from_str(s.trim()).expect("error envelope is JSON");
    let obj = val.as_object().expect("envelope is object");
    assert!(obj.contains_key("error") && obj.contains_key("kind"));
    assert_eq!(obj["kind"], "config");
}

#[test]
fn error_envelope_escapes_message() {
    let err = BirdError::config("bad \"quote\"\nline");
    let s = error_envelope(&err);
    let val: serde_json::Value = serde_json::from_str(&s).expect("JSON");
    assert_eq!(val["message"], "bad \"quote\"?line");
    assert_eq!(val["exit_code"], 78);
}

#[test]
fn error_envelope_has_the_four_keys() {
    let s = error_envelope(&BirdError::config("missing"));
    assert_eq!(s, "{\"error\":\"config-error\",\"exit_code\":78,\"kind\":\"config\",\"message\":\"missing\"}");
    let val: serde_json::Value = serde_json::from_str(&s).expect("JSON");
    assert_eq!(val.as_object().expect("object").len(), 4);
}

#[test]
fn resolve_color_modes() {
    assert!(resolve_color(ColorMode::Always, false));
    assert!(!resolve_color(ColorMode::Never, true));
    assert!(resolve_color(ColorMode::Auto, true));
    assert!(!resolve_color(ColorMode::Auto, false));
}

#[test]
fn styled_text_with_and_without_color() {
    assert_eq!(section("Auth", false), "Auth");
    assert_eq!(section("Auth", true), "\x1b[37m\x1b[1mAuth\x1b[0m\x1b[39m");
    assert_eq!(success("ok", true), "\x1b[32mok\x1b[39m");
    assert_eq!(success("ok", false), "ok");
}

#[test]
fn emoji_choices() {
    assert_eq!(emoji_available(true), "\u{2705} ");
    assert_eq!(emoji_available(false), "");
    assert_eq!(emoji_unavailable(true), "\u{274c} ");
    assert_eq!(emoji_unavailable(false), "");
}

#[test]
fn strip_ansi_lines_keeps_a_bare_final_cr() {
    assert_eq!(strip_ansi_lines("\x1b\nb\r"), "b\r");
    assert_eq!(strip_ansi_lines("a\r\n\x1b[0m\nc\r\n"), "a\nc");
}

#[test]
fn use_color_auto_needs_a_terminal_without_no_color_or_dumb_term() {
    assert!(bird::output::use_color_auto(true, false, Some("xterm-256color")));
    assert!(bird::output::use_color_auto(true, false, None));
    assert!(!bird::output::use_color_auto(false, false, None));
    assert!(!bird::output::use_color_auto(true, true, Some("xterm")));
    assert!(!bird::output::use_color_auto(true, false, Some("dumb")));
    assert!(resolve_color(ColorMode::Auto, bird::output::use_color_auto(true, false, None)));
}
