//! The commands on an account: checking its two sides, configuring its
//! secrets, and synchronizing its two sides.

pub mod check_up;
pub mod configure;
pub mod doctor;
pub mod sync;
