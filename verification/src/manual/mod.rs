//! Manual pages.

pub mod command;
