//! A preset is a pair of backends, left and right, under a name, each with
//! its own synchronization settings.

pub mod arg;
pub mod config;
