//! The rules of a synchronization run: what is selected, how progress is
//! shown, and what is reported at the end.

pub mod command;
pub mod config;
pub mod event;
pub mod progress;
pub mod report;
pub mod run;
