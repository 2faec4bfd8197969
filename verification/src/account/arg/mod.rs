//! The arguments of the account commands.

pub mod name;
