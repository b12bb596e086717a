//! Structured error type and envelope mapping for the CLI.
//!
//! Variants map to distinct kinds and exit codes:
//! - `Usage` -> kind "usage", exit 2 (parse failures, bad flag, bad input)
//! - `Auth` -> kind "auth", exit 77 (authentication failures)
//! - `Config` -> kind "config", exit 78 (missing config, invalid setup)
//! - `General` -> kind "general", exit 1 (command execution, network, API),
//!   unless an explicit exit-code override is carried.

use vstd::prelude::*;
use crate::text::{push_str, str_contains, contains_seq, concat2};

verus! {

/// What a failing xurl call reported, as plain values. Each variant mirrors
/// one variant of the transport library's error enum; `Http` keeps the
/// transport's free-form text because the mapping inspects it.
#[derive(Clone, Debug)]
pub enum XurlErrorKind {
    Validation,
    Auth,
    TokenStore,
    Api { status: u16 },
    AuthMethodMismatch,
    Io,
    Http { detail: String },
    EnvelopeAlreadyEmitted { exit_code: i32 },
    InvalidMethod,
    InvalidUrl,
    InvalidPathParam,
    Internal,
    Json,
}

/// Classification of a boxed source error, as the error mapping reads it.
#[derive(Clone, Debug)]
pub enum SourceKind {
    /// The subprocess transport's authentication failure.
    TransportAuth,
    /// The subprocess transport's API failure with an HTTP status.
    TransportApi { status: u16 },
    /// Any other subprocess transport failure.
    TransportOther,
    /// An error surfaced by the embedded xurl client.
    Xurl(XurlErrorKind),
    /// Anything else (I/O, JSON, plain strings).
    Other,
}

/// A source error: its classification plus its rendered message.
#[derive(Clone, Debug)]
pub struct ErrorSource {
    pub kind: SourceKind,
    pub message: String,
}

impl ErrorSource {
    /// A source error that is neither a transport nor an xurl error.
    pub fn other(message: &str) -> (r: Self)
        ensures
            r.kind is Other,
            r.message@ == message@,
    {
        ErrorSource { kind: SourceKind::Other, message: crate::text::owned(message) }
    }

    /// A source error from the given classification and message.
    pub fn new(kind: SourceKind, message: &str) -> (r: Self)
        ensures
            r.kind == kind,
            r.message@ == message@,
    {
        ErrorSource { kind, message: crate::text::owned(message) }
    }
}

/// Structured error for the CLI. Each variant maps to a distinct exit code and
/// envelope `kind`. Constructors carry a stable kebab-case `error_id` plus a
/// human message.
pub enum BirdError {
    /// Usage / argument-parse error (exit 2).
    Usage { error_id: &'static str, message: String },
    /// Authentication error (exit 77).
    Auth { error_id: &'static str, message: String },
    /// Configuration error (exit 78).
    Config { error_id: &'static str, message: String },
    /// Command execution error: API, network, I/O (exit 1 unless overridden).
    General {
        error_id: &'static str,
        message: String,
        /// Optional command name; included in the JSON envelope when present.
        command: Option<&'static str>,
        /// Optional HTTP status from upstream API; carried only when > 0.
        status: Option<u16>,
        /// Optional override of the default `General -> 1` exit code.
        exit_code_override: Option<u8>,
    },
}

/// Exit code of an error, as a function of the error alone.
pub open spec fn spec_exit_code(e: BirdError) -> u8 {
    match e {
        BirdError::Usage { .. } => 2,
        BirdError::Auth { .. } => 77,
        BirdError::Config { .. } => 78,
        BirdError::General { exit_code_override, .. } => match exit_code_override {
            Some(c) => c,
            None => 1,
        },
    }
}

/// Envelope kind of an error.
pub open spec fn spec_kind(e: BirdError) -> Seq<char> {
    match e {
        BirdError::Usage { .. } => "usage"@,
        BirdError::Auth { .. } => "auth"@,
        BirdError::Config { .. } => "config"@,
        BirdError::General { .. } => "general"@,
    }
}

/// Message carried by an error.
pub open spec fn spec_message(e: BirdError) -> Seq<char> {
    match e {
        BirdError::Usage { message, .. } => message@,
        BirdError::Auth { message, .. } => message@,
        BirdError::Config { message, .. } => message@,
        BirdError::General { message, .. } => message@,
    }
}

/// Error id carried by an error.
pub open spec fn spec_error_id(e: BirdError) -> Seq<char> {
    match e {
        BirdError::Usage { error_id, .. } => error_id@,
        BirdError::Auth { error_id, .. } => error_id@,
        BirdError::Config { error_id, .. } => error_id@,
        BirdError::General { error_id, .. } => error_id@,
    }
}

/// The status the generic mapping extracts: only a transport API failure with
/// a positive status carries one.
pub open spec fn spec_source_status(k: SourceKind) -> Option<u16> {
    match k {
        SourceKind::TransportApi { status } => if status > 0 {
            Some(status)
        } else {
            None
        },
        _ => None,
    }
}

/// The error `general(name, src)` builds.
pub open spec fn spec_general(name: &'static str, src: ErrorSource) -> BirdError {
    BirdError::General {
        error_id: "command-error",
        message: src.message,
        command: Some(name),
        status: spec_source_status(src.kind),
        exit_code_override: None,
    }
}

/// Clamp of an xurl exit code into the `u8` range.
pub open spec fn clamp_exit(c: i32) -> u8 {
    if c < 0 {
        0
    } else if c > 255 {
        255
    } else {
        c as u8
    }
}

/// Shape of the error an xurl failure maps to: (kind tag, error id, status,
/// exit-code override). The kind tag is 0 = Config, 1 = Auth, 2 = General.
pub open spec fn spec_xurl_mapping(k: XurlErrorKind) -> (int, Seq<char>, Option<u16>, Option<u8>) {
    match k {
        XurlErrorKind::Validation => (0, "config-error"@, None, None),
        XurlErrorKind::Auth => (1, "auth-error"@, None, None),
        XurlErrorKind::TokenStore => (1, "auth-error"@, None, None),
        XurlErrorKind::AuthMethodMismatch => (1, "auth-method-mismatch"@, None, None),
        XurlErrorKind::Api { status } => if status == 401 {
            (1, "auth-error"@, None, None)
        } else if status == 429 {
            (2, "command-error"@, Some(429u16), Some(3u8))
        } else if status == 404 {
            (2, "command-error"@, Some(404u16), Some(4u8))
        } else if status == 0 {
            (2, "command-error"@, None, None)
        } else {
            (2, "command-error"@, Some(status), None)
        },
        XurlErrorKind::Io => (2, "command-error"@, None, Some(5u8)),
        XurlErrorKind::Http { detail } => if contains_seq(detail@, "401"@) || contains_seq(
            detail@,
            "Unauthorized"@,
        ) {
            (1, "auth-error"@, None, None)
        } else if contains_seq(detail@, "429"@) {
            (2, "command-error"@, None, Some(3u8))
        } else if contains_seq(detail@, "404"@) {
            (2, "command-error"@, None, Some(4u8))
        } else {
            (2, "command-error"@, None, None)
        },
        XurlErrorKind::EnvelopeAlreadyEmitted { exit_code } => (
            2,
            "envelope-already-emitted"@,
            None,
            Some(clamp_exit(exit_code)),
        ),
        _ => (2, "command-error"@, None, None),
    }
}

/// `e` is the error that the xurl failure `k` with rendered text `msg` maps
/// to for command `name`.
pub open spec fn is_xurl_mapping(e: BirdError, name: &'static str, k: XurlErrorKind, msg: Seq<char>) -> bool {
    let (tag, id, status, ov) = spec_xurl_mapping(k);
    let m = if k is EnvelopeAlreadyEmitted { Seq::<char>::empty() } else { msg };
    &&& spec_error_id(e) == id
    &&& spec_message(e) == m
    &&& tag == 0 ==> e is Config
    &&& tag == 1 ==> e is Auth
    &&& tag == 2 ==> (e matches BirdError::General { command, status: st, exit_code_override, .. }
        && command == Some(name) && st == status && exit_code_override == ov)
}

/// `e` is what `from_source(name, source)` gives: xurl failures go through
/// the xurl mapping, a transport authentication failure becomes `Auth`, and
/// anything else becomes the generic `General` error.
pub open spec fn is_from_source(e: BirdError, name: &'static str, source: ErrorSource) -> bool {
    match source.kind {
        SourceKind::Xurl(k) => is_xurl_mapping(e, name, k, source.message@),
        SourceKind::TransportAuth => e matches BirdError::Auth { error_id, message }
            && error_id@ == "auth-error"@ && message@ == source.message@,
        _ => e == spec_general(name, source),
    }
}

/// The plain-text line of the fatal error path.
pub open spec fn spec_fatal_line(e: BirdError) -> Seq<char> {
    match e {
        BirdError::Usage { message, .. } => "usage error: "@ + message@,
        BirdError::Auth { message, .. } => "auth failed: "@ + message@,
        BirdError::Config { message, .. } => "config failed: "@ + message@,
        BirdError::General { command, message, .. } => match command {
            Some(name) => name@ + " failed: "@ + message@,
            None => "error: "@ + message@,
        },
    }
}

/// Literal check used by the Http substring rules.
fn lit_in(detail: &String, pat: &str) -> (r: bool)
    ensures
        r == contains_seq(detail@, pat@),
{
    str_contains(detail.as_str(), pat)
}

impl BirdError {
    /// Construct a `Config` variant with the default `config-error` id.
    pub fn config(err: &str) -> (r: Self)
        ensures
            r matches BirdError::Config { error_id, message } && error_id@ == "config-error"@
                && message@ == err@,
    {
        BirdError::Config { error_id: "config-error", message: crate::text::owned(err) }
    }

    /// Construct a `Usage` variant.
    pub fn usage(error_id: &'static str, message: &str) -> (r: Self)
        ensures
            r matches BirdError::Usage { error_id: id, message: m } && id == error_id && m@
                == message@,
    {
        BirdError::Usage { error_id, message: crate::text::owned(message) }
    }

    /// Construct a `General` variant from a command name and source error.
    pub fn general(name: &'static str, source: ErrorSource) -> (r: Self)
        ensures
            r == spec_general(name, source),
    {
        let status = match source.kind {
            SourceKind::TransportApi { status } => if status > 0 {
                Some(status)
            } else {
                None
            },
            _ => None,
        };
        BirdError::General {
            error_id: "command-error",
            message: source.message,
            command: Some(name),
            status,
            exit_code_override: None,
        }
    }

    /// Map a source error to the envelope: xurl failures go through the
    /// exhaustive xurl mapping; a transport authentication failure becomes
    /// `Auth`; everything else becomes `General`.
    pub fn from_source(name: &'static str, source: ErrorSource) -> (r: Self)
        ensures
            is_from_source(r, name, source),
    {
        match source.kind {
            SourceKind::Xurl(k) => BirdError::from_xurl_error(name, k, source.message),
            SourceKind::TransportAuth => BirdError::Auth {
                error_id: "auth-error",
                message: source.message,
            },
            _ => BirdError::general(name, source),
        }
    }

    /// Translate an xurl failure into the envelope. Rate-limit, not-found and
    /// network failures keep xurl's own exit codes 3 / 4 / 5; validation maps
    /// to config (78); authentication shapes map to auth (77); everything
    /// else is a general failure (1).
    pub fn from_xurl_error(name: &'static str, kind: XurlErrorKind, message: String) -> (r: Self)
        ensures
            is_xurl_mapping(r, name, kind, message@),
    {
        let ghost k0 = kind;
        let auth = "auth-error";
        let cmd = "command-error";
        match kind {
            XurlErrorKind::Validation => BirdError::Config { error_id: "config-error", message },
            XurlErrorKind::Auth | XurlErrorKind::TokenStore => BirdError::Auth {
                error_id: auth,
                message,
            },
            XurlErrorKind::AuthMethodMismatch => BirdError::Auth {
                error_id: "auth-method-mismatch",
                message,
            },
            XurlErrorKind::Api { status } => {
                if status == 401 {
                    BirdError::Auth { error_id: auth, message }
                } else if status == 429 {
                    BirdError::General {
                        error_id: cmd,
                        message,
                        command: Some(name),
                        status: Some(429),
                        exit_code_override: Some(3),
                    }
                } else if status == 404 {
                    BirdError::General {
                        error_id: cmd,
                        message,
                        command: Some(name),
                        status: Some(404),
                        exit_code_override: Some(4),
                    }
                } else {
                    BirdError::General {
                        error_id: cmd,
                        message,
                        command: Some(name),
                        status: if status > 0 {
                            Some(status)
                        } else {
                            None
                        },
                        exit_code_override: None,
                    }
                }
            },
            XurlErrorKind::Io => BirdError::General {
                error_id: cmd,
                message,
                command: Some(name),
                status: None,
                exit_code_override: Some(5),
            },
            XurlErrorKind::Http { detail } => {
                if lit_in(&detail, "401") || lit_in(&detail, "Unauthorized") {
                    BirdError::Auth { error_id: auth, message }
                } else if lit_in(&detail, "429") {
                    BirdError::General {
                        error_id: cmd,
                        message,
                        command: Some(name),
                        status: None,
                        exit_code_override: Some(3),
                    }
                } else if lit_in(&detail, "404") {
                    BirdError::General {
                        error_id: cmd,
                        message,
                        command: Some(name),
                        status: None,
                        exit_code_override: Some(4),
                    }
                } else {
                    BirdError::General {
                        error_id: cmd,
                        message,
                        command: Some(name),
                        status: None,
                        exit_code_override: None,
                    }
                }
            },
            XurlErrorKind::EnvelopeAlreadyEmitted { exit_code } => {
                let code: u8 = if exit_code < 0 {
                    0
                } else if exit_code > 255 {
                    255
                } else {
                    exit_code as u8
                };
                BirdError::General {
                    error_id: "envelope-already-emitted",
                    message: String::new(),
                    command: Some(name),
                    status: None,
                    exit_code_override: Some(code),
                }
            },
            _ => BirdError::General {
                error_id: cmd,
                message,
                command: Some(name),
                status: None,
                exit_code_override: None,
            },
        }
    }

    /// Exit code for this variant.
    pub fn exit_code(&self) -> (r: u8)
        ensures
            r == spec_exit_code(*self),
    {
        match self {
            BirdError::Usage { .. } => 2,
            BirdError::Auth { .. } => 77,
            BirdError::Config { .. } => 78,
            BirdError::General { exit_code_override: Some(code), .. } => *code,
            BirdError::General { .. } => 1,
        }
    }

    /// Envelope `kind` string (one of "usage" | "auth" | "config" | "general").
    pub fn kind(&self) -> (r: &'static str)
        ensures
            r@ == spec_kind(*self),
    {
        match self {
            BirdError::Usage { .. } => "usage",
            BirdError::Auth { .. } => "auth",
            BirdError::Config { .. } => "config",
            BirdError::General { .. } => "general",
        }
    }

    /// Stable machine-readable error id (kebab-case).
    pub fn error_id(&self) -> (r: &'static str)
        ensures
            r@ == spec_error_id(*self),
    {
        match self {
            BirdError::Usage { error_id, .. } => error_id,
            BirdError::Auth { error_id, .. } => error_id,
            BirdError::Config { error_id, .. } => error_id,
            BirdError::General { error_id, .. } => error_id,
        }
    }

    /// Human-readable message.
    pub fn message(&self) -> (r: &str)
        ensures
            r@ == spec_message(*self),
    {
        match self {
            BirdError::Usage { message, .. } => message.as_str(),
            BirdError::Auth { message, .. } => message.as_str(),
            BirdError::Config { message, .. } => message.as_str(),
            BirdError::General { message, .. } => message.as_str(),
        }
    }

    /// Optional command name (only `General` carries one).
    pub fn command(&self) -> (r: Option<&'static str>)
        ensures
            r == (match *self {
                BirdError::General { command, .. } => command,
                _ => None,
            }),
    {
        match self {
            BirdError::General { command, .. } => *command,
            _ => None,
        }
    }

    /// Optional upstream HTTP status (only `General` carries one).
    pub fn status(&self) -> (r: Option<u16>)
        ensures
            r == (match *self {
                BirdError::General { status, .. } => status,
                _ => None,
            }),
    {
        match self {
            BirdError::General { status, .. } => *status,
            _ => None,
        }
    }

    /// The plain-text line the fatal error path prints.
    pub fn fatal_line(&self) -> (r: String)
        ensures
            r@ == spec_fatal_line(*self),
    {
        match self {
            BirdError::Usage { message, .. } => concat2("usage error: ", message.as_str()),
            BirdError::Auth { message, .. } => concat2("auth failed: ", message.as_str()),
            BirdError::Config { message, .. } => concat2("config failed: ", message.as_str()),
            BirdError::General { command: Some(name), message, .. } => {
                let mut s = concat2(name, " failed: ");
                push_str(&mut s, message.as_str());
                s
            },
            BirdError::General { command: None, message, .. } => concat2(
                "error: ",
                message.as_str(),
            ),
        }
    }
}


impl BirdError {
    /// Writes the fatal line and a newline to `stderr`; used before an output
    /// configuration exists.
    pub fn print(&self, stderr: &mut Vec<u8>)
        ensures
            final(stderr)@ == old(stderr)@ + crate::output::line_bytes(spec_fatal_line(*self)),
    {
        let line = self.fatal_line();
        crate::output::write_line(stderr, line.as_str());
    }
}

/// The envelope kind and the exit code agree: usage errors exit 2, auth
/// errors 77, config errors 78, and general errors 1 unless they carry an
/// override.
pub proof fn law_kind_determines_exit_code(e: BirdError)
    ensures
        spec_kind(e) == "usage"@ ==> spec_exit_code(e) == 2,
        spec_kind(e) == "auth"@ ==> spec_exit_code(e) == 77,
        spec_kind(e) == "config"@ ==> spec_exit_code(e) == 78,
        (e matches BirdError::General { exit_code_override, .. } && exit_code_override is None)
            ==> spec_exit_code(e) == 1,
{
    reveal_strlit("usage");
    reveal_strlit("auth");
    reveal_strlit("config");
    reveal_strlit("general");
    assert("usage"@.len() == 5 && "auth"@.len() == 4 && "config"@.len() == 6
        && "general"@.len() == 7);
}

/// An upstream HTTP status is carried only when it is above 0: the error
/// that a source error maps to (through the generic mapping or the xurl
/// mapping) has no status or a positive one.
pub open spec fn carries_positive_status(e: BirdError) -> bool {
    match e {
        BirdError::General { status: Some(s), .. } => s > 0,
        _ => true,
    }
}

/// Every error built from a source error carries no status or a positive
/// one.
pub proof fn law_carried_status_is_positive(e: BirdError, name: &'static str, source: ErrorSource)
    requires
        is_from_source(e, name, source),
    ensures
        carries_positive_status(e),
{
}

} // verus!
