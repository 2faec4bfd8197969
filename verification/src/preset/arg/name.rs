//! The preset name argument.

use vstd::prelude::*;

verus! {

/// The name of the preset that a command is about. Where it is omitted the
/// preset marked as default is meant.
#[derive(Clone, Debug, PartialEq, Eq)]
pub struct OptionalPresetNameArg {
    pub name: Option<String>,
}

} // verus!
