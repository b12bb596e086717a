//! bird: a command-line client for the X API. This crate holds its logic,
//! verified: command-line decisions, the write guard, request URLs, the
//! local entity store's rules, error kinds and exit codes, output framing,
//! cost estimation and the `doctor` report. The program around it lives in
//! `app/`.

use vstd::prelude::*;

pub mod auth;
pub mod bookmarks;
pub mod cache;
pub mod cli;
pub mod config;
pub mod cost;
pub mod db;
pub mod doctor;
pub mod error;
pub mod fields;
pub mod login;
pub mod output;
pub mod profile;
pub mod raw;
pub mod text;

verus! {

} // verus!
