//! The arguments of the preset commands.

pub mod name;
