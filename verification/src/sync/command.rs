//! The command that synchronizes the two backends of a preset.

use vstd::prelude::*;
use crate::preset::arg::name::OptionalPresetNameArg;

verus! {

/// Synchronize folders and emails of the two backends of a preset.
#[derive(Clone, Debug, PartialEq, Eq)]
pub struct SynchronizeBackendsCommand {
    pub preset: OptionalPresetNameArg,
}

} // verus!
