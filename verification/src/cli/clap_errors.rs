//! Mapping of argument-parser failures to usage errors.

use vstd::prelude::*;
use crate::error::BirdError;

verus! {

/// The kind of an argument-parser failure, one variant per kind the parser
/// reports; `Other` stands for any kind added later.
#[derive(Clone, Copy, Debug, PartialEq, Eq, Structural)]
pub enum ClapErrorKind {
    InvalidValue,
    UnknownArgument,
    InvalidSubcommand,
    NoEquals,
    ValueValidation,
    TooManyValues,
    TooFewValues,
    WrongNumberOfValues,
    ArgumentConflict,
    MissingRequiredArgument,
    MissingSubcommand,
    InvalidUtf8,
    DisplayHelp,
    DisplayHelpOnMissingArgumentOrSubcommand,
    DisplayVersion,
    Io,
    Format,
    Other,
}

/// The usage error id for a parser failure kind.
pub open spec fn spec_clap_error_id(k: ClapErrorKind) -> Seq<char> {
    match k {
        ClapErrorKind::UnknownArgument => "unknown-argument"@,
        ClapErrorKind::MissingRequiredArgument => "missing-required-argument"@,
        ClapErrorKind::MissingSubcommand => "missing-subcommand"@,
        ClapErrorKind::InvalidSubcommand => "invalid-subcommand"@,
        ClapErrorKind::InvalidValue => "invalid-value"@,
        ClapErrorKind::TooManyValues => "too-many-values"@,
        ClapErrorKind::TooFewValues => "too-few-values"@,
        ClapErrorKind::ArgumentConflict => "argument-conflict"@,
        ClapErrorKind::NoEquals => "missing-equals"@,
        ClapErrorKind::ValueValidation => "invalid-value"@,
        _ => "invalid-arguments"@,
    }
}

fn clap_error_id(k: ClapErrorKind) -> (r: &'static str)
    ensures
        r@ == spec_clap_error_id(k),
{
    match k {
        ClapErrorKind::UnknownArgument => "unknown-argument",
        ClapErrorKind::MissingRequiredArgument => "missing-required-argument",
        ClapErrorKind::MissingSubcommand => "missing-subcommand",
        ClapErrorKind::InvalidSubcommand => "invalid-subcommand",
        ClapErrorKind::InvalidValue => "invalid-value",
        ClapErrorKind::TooManyValues => "too-many-values",
        ClapErrorKind::TooFewValues => "too-few-values",
        ClapErrorKind::ArgumentConflict => "argument-conflict",
        ClapErrorKind::NoEquals => "missing-equals",
        ClapErrorKind::ValueValidation => "invalid-value",
        _ => "invalid-arguments",
    }
}

/// A parser failure as a usage error carrying the parser's rendered text;
/// `None` for help and version displays, which are not failures.
pub fn clap_error_to_bird(kind: ClapErrorKind, rendered: &str) -> (r: Option<BirdError>)
    ensures
        (kind is DisplayHelp || kind is DisplayVersion) ==> r is None,
        !(kind is DisplayHelp || kind is DisplayVersion) ==> (r matches Some(
            BirdError::Usage { error_id, message },
        ) && error_id@ == spec_clap_error_id(kind) && message@ == rendered@),
{
    match kind {
        ClapErrorKind::DisplayHelp | ClapErrorKind::DisplayVersion => None,
        _ => Some(BirdError::usage(clap_error_id(kind), rendered)),
    }
}

} // verus!
