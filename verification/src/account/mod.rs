//! An account is a pair of backends, left and right, under a name.

pub mod arg;
pub mod command;
pub mod config;
pub mod wizard;
