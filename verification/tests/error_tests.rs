use bird::error::{BirdError, ErrorSource, SourceKind, XurlErrorKind};

fn transport_auth(msg: &str) -> ErrorSource {
    ErrorSource::new(SourceKind::TransportAuth, msg)
}

fn transport_process(msg: &str) -> ErrorSource {
    ErrorSource::new(SourceKind::TransportOther, msg)
}

#[test]
fn error_exit_codes_match_envelope_kinds() {
    assert_eq!(BirdError::usage("u", "m").exit_code(), 2, "usage variant should exit 2");
    let auth = BirdError::from_source("test", transport_auth("x"));
    assert_eq!(auth.exit_code(), 77, "auth variant should exit 77");
    assert_eq!(BirdError::config("m").exit_code(), 78, "config variant should exit 78");
    assert_eq!(BirdError::general("test", ErrorSource::other("m")).exit_code(), 1);
}

#[test]
fn error_kind_strings_match_envelope() {
    assert_eq!(BirdError::usage("u", "m").kind(), "usage");
    let auth = BirdError::from_source("test", transport_auth("x"));
    assert_eq!(auth.kind(), "auth");
    assert_eq!(BirdError::config("m").kind(), "config");
    assert_eq!(BirdError::general("t", ErrorSource::other("m")).kind(), "general");
}

#[test]
fn error_from_source_detects_xurl_auth() {
    let mapped = BirdError::from_source("test", transport_auth("unauthorized"));
    assert_eq!(mapped.exit_code(), 77, "XurlError::Auth -> exit 77");
    assert_eq!(mapped.kind(), "auth");
}

#[test]
fn error_from_source_other_xurl_maps_to_general() {
    let mapped = BirdError::from_source("profile", transport_process("connection failed"));
    assert_eq!(mapped.exit_code(), 1, "non-auth XurlError -> exit 1");
    assert_eq!(mapped.kind(), "general");
    assert_eq!(mapped.command(), Some("profile"));
}

#[test]
fn error_bird_error_exit_codes() {
    assert_eq!(BirdError::config("test").exit_code(), 78, "Config errors should exit 78");
    let auth = BirdError::from_source("test", transport_auth("x"));
    assert_eq!(auth.exit_code(), 77, "Auth errors should exit 77");
    assert_eq!(BirdError::general("test", ErrorSource::other("test")).exit_code(), 1);
    assert_eq!(BirdError::usage("bad", "test").exit_code(), 2, "Usage errors should exit 2");
}

#[test]
fn error_map_cmd_error_detects_auth() {
    let mapped = BirdError::from_source("test", transport_auth("unauthorized"));
    assert_eq!(mapped.exit_code(), 77, "XurlError::Auth should map to exit 77");
}

#[test]
fn error_map_cmd_error_preserves_command_for_non_auth() {
    let mapped = BirdError::from_source("profile", transport_process("connection failed"));
    assert_eq!(mapped.exit_code(), 1, "Non-auth XurlError should map to exit 1");
}

fn xurl(kind: XurlErrorKind, msg: &str) -> BirdError {
    BirdError::from_source("cmd", ErrorSource::new(SourceKind::Xurl(kind), msg))
}

#[test]
fn xurl_validation_maps_to_config_78() {
    let e = xurl(XurlErrorKind::Validation, "bad");
    assert_eq!(e.exit_code(), 78);
    assert_eq!(e.kind(), "config");
}

#[test]
fn xurl_auth_maps_to_auth_77() {
    assert_eq!(xurl(XurlErrorKind::Auth, "no").exit_code(), 77);
    assert_eq!(xurl(XurlErrorKind::TokenStore, "no").exit_code(), 77);
}

#[test]
fn xurl_auth_method_mismatch_maps_to_auth_77_not_2() {
    let e = xurl(XurlErrorKind::AuthMethodMismatch, "m");
    assert_eq!(e.exit_code(), 77);
    assert_eq!(e.error_id(), "auth-method-mismatch");
}

#[test]
fn xurl_api_statuses_map_to_exit_codes() {
    assert_eq!(xurl(XurlErrorKind::Api { status: 401 }, "x").exit_code(), 77);
    let e429 = xurl(XurlErrorKind::Api { status: 429 }, "x");
    assert_eq!(e429.exit_code(), 3);
    assert_eq!(e429.status(), Some(429));
    assert_eq!(xurl(XurlErrorKind::Api { status: 404 }, "x").exit_code(), 4);
    let e500 = xurl(XurlErrorKind::Api { status: 500 }, "x");
    assert_eq!(e500.exit_code(), 1);
    assert_eq!(e500.status(), Some(500));
}

#[test]
fn xurl_io_maps_to_general_5() {
    assert_eq!(xurl(XurlErrorKind::Io, "disk").exit_code(), 5);
}

#[test]
fn xurl_http_substrings_map_to_exit_codes() {
    let d = |s: &str| XurlErrorKind::Http { detail: s.to_string() };
    assert_eq!(xurl(d("HTTP 401 Unauthorized"), "x").exit_code(), 77);
    assert_eq!(xurl(d("status 429"), "x").exit_code(), 3);
    assert_eq!(xurl(d("got 404"), "x").exit_code(), 4);
    assert_eq!(xurl(d("boom"), "x").exit_code(), 1);
}

#[test]
fn xurl_structural_errors_map_to_general_1() {
    for k in [XurlErrorKind::InvalidMethod, XurlErrorKind::InvalidUrl, XurlErrorKind::Json] {
        let e = xurl(k, "s");
        assert_eq!(e.exit_code(), 1);
        assert_eq!(e.kind(), "general");
    }
}

#[test]
fn xurl_envelope_already_emitted_passes_through_exit_code() {
    let e = xurl(XurlErrorKind::EnvelopeAlreadyEmitted { exit_code: 7 }, "ignored");
    assert_eq!(e.exit_code(), 7);
    assert_eq!(e.message(), "");
    let big = xurl(XurlErrorKind::EnvelopeAlreadyEmitted { exit_code: 999 }, "x");
    assert_eq!(big.exit_code(), 255);
}

#[test]
fn general_carries_transport_status() {
    let e = BirdError::general("get", ErrorSource::new(SourceKind::TransportApi { status: 503 }, "down"));
    assert_eq!(e.status(), Some(503));
    assert_eq!(e.message(), "down");
    let z = BirdError::general("get", ErrorSource::new(SourceKind::TransportApi { status: 0 }, "x"));
    assert_eq!(z.status(), None);
}

#[test]
fn mod_exit_codes_match_envelope_kinds() {
    assert_eq!(BirdError::usage("u", "m").exit_code(), 2, "usage variant should exit 2");
    let auth = BirdError::from_source("test", transport_auth("x"));
    assert_eq!(auth.exit_code(), 77, "auth variant should exit 77");
    assert_eq!(BirdError::config("m").exit_code(), 78, "config variant should exit 78");
    assert_eq!(BirdError::general("test", ErrorSource::other("m")).exit_code(), 1);
}

#[test]
fn mod_kind_strings_match_envelope() {
    assert_eq!(BirdError::usage("u", "m").kind(), "usage");
    let auth = BirdError::from_source("test", transport_auth("x"));
    assert_eq!(auth.kind(), "auth");
    assert_eq!(BirdError::config("m").kind(), "config");
    assert_eq!(BirdError::general("t", ErrorSource::other("m")).kind(), "general");
}

#[test]
fn mod_from_source_detects_xurl_auth() {
    let mapped = BirdError::from_source("test", transport_auth("unauthorized"));
    assert_eq!(mapped.exit_code(), 77, "XurlError::Auth -> exit 77");
    assert_eq!(mapped.kind(), "auth");
}

#[test]
fn mod_from_source_other_xurl_maps_to_general() {
    let mapped = BirdError::from_source("profile", transport_process("connection failed"));
    assert_eq!(mapped.exit_code(), 1, "non-auth XurlError -> exit 1");
    assert_eq!(mapped.kind(), "general");
    assert_eq!(mapped.command(), Some("profile"));
}

#[test]
fn mod_bird_error_exit_codes() {
    assert_eq!(BirdError::config("test").exit_code(), 78, "Config errors should exit 78");
    let auth = BirdError::from_source("test", transport_auth("x"));
    assert_eq!(auth.exit_code(), 77, "Auth errors should exit 77");
    assert_eq!(BirdError::general("test", ErrorSource::other("test")).exit_code(), 1);
    assert_eq!(BirdError::usage("bad", "test").exit_code(), 2, "Usage errors should exit 2");
}

#[test]
fn mod_map_cmd_error_detects_auth() {
    let mapped = BirdError::from_source("test", transport_auth("unauthorized"));
    assert_eq!(mapped.exit_code(), 77, "XurlError::Auth should map to exit 77");
}

#[test]
fn mod_map_cmd_error_preserves_command_for_non_auth() {
    let mapped = BirdError::from_source("profile", transport_process("connection failed"));
    assert_eq!(mapped.exit_code(), 1, "Non-auth XurlError should map to exit 1");
}

fn xurl_in(cmd: &'static str, kind: XurlErrorKind, msg: &str) -> BirdError {
    BirdError::from_source(cmd, ErrorSource::new(SourceKind::Xurl(kind), msg))
}

#[test]
fn xurl_token_store_maps_to_auth_77() {
    let mapped = xurl_in("me", XurlErrorKind::TokenStore, "read failed");
    assert_eq!(mapped.exit_code(), 77);
    assert_eq!(mapped.kind(), "auth");
}

#[test]
fn xurl_api_401_maps_to_auth_77() {
    let mapped = xurl_in("me", XurlErrorKind::Api { status: 401 }, "Unauthorized");
    assert_eq!(mapped.exit_code(), 77);
    assert_eq!(mapped.kind(), "auth");
}

#[test]
fn xurl_api_429_maps_to_general_3() {
    let mapped = xurl_in("bookmarks", XurlErrorKind::Api { status: 429 }, "Too Many Requests");
    assert_eq!(mapped.exit_code(), 3);
    assert_eq!(mapped.kind(), "general");
    assert_eq!(mapped.status(), Some(429));
}

#[test]
fn xurl_api_404_maps_to_general_4() {
    let mapped = xurl_in("profile", XurlErrorKind::Api { status: 404 }, "Not Found");
    assert_eq!(mapped.exit_code(), 4);
    assert_eq!(mapped.kind(), "general");
    assert_eq!(mapped.status(), Some(404));
}

#[test]
fn xurl_api_other_status_maps_to_general_1() {
    let mapped = xurl_in("tweet", XurlErrorKind::Api { status: 422 }, "Unprocessable Entity");
    assert_eq!(mapped.exit_code(), 1);
    assert_eq!(mapped.kind(), "general");
    assert_eq!(mapped.status(), Some(422));
}

#[test]
fn xurl_api_status_zero_is_not_carried() {
    let mapped = xurl_in("get", XurlErrorKind::Api { status: 0 }, "no status");
    assert_eq!(mapped.exit_code(), 1);
    assert_eq!(mapped.kind(), "general");
    assert_eq!(mapped.status(), None);
}

#[test]
fn xurl_http_substring_401_maps_to_auth_77() {
    let mapped = xurl_in("me", XurlErrorKind::Http { detail: "401 Unauthorized".to_string() }, "401 Unauthorized");
    assert_eq!(mapped.exit_code(), 77);
}

#[test]
fn xurl_http_substring_429_maps_to_general_3() {
    let mapped = xurl_in("me", XurlErrorKind::Http { detail: "429 throttled".to_string() }, "429 throttled");
    assert_eq!(mapped.exit_code(), 3);
}

#[test]
fn xurl_http_substring_404_maps_to_general_4() {
    let mapped = xurl_in("me", XurlErrorKind::Http { detail: "404 missing".to_string() }, "404 missing");
    assert_eq!(mapped.exit_code(), 4);
}
