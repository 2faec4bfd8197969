//! Orchestration rules for synchronizing the two mail backends of an account.
//!
//! Every decision of a run is a verified function on plain values: which
//! account is meant, which folders are selected, how each side is to be
//! instantiated, how progress events move the display state, and what the
//! final report says. Connecting, prompting and printing are left to the
//! caller, which performs the steps these functions hand back.

pub mod account;
pub mod backend;
pub mod cli;
pub mod config;
pub mod error;
pub mod manual;
pub mod output;
pub mod preset;
pub mod printer;
pub mod sync;
pub mod text;
