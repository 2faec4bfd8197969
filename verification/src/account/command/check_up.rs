//! The check-up command: the same check as that of the doctor command.

use vstd::prelude::*;
use crate::account::arg::name::OptionalAccountNameArg;
use crate::account::command::doctor::{check_plan, check_plan_view, spec_check_plan, CheckStep};
use crate::config::{spec_meant_name, Config};
use crate::error::CommandError;

verus! {

/// Check up the given account. The same check as that of the doctor command.
#[derive(Clone, Debug, PartialEq, Eq)]
pub struct CheckUpAccountCommand {
    pub account: OptionalAccountNameArg,
}

impl CheckUpAccountCommand {
    /// The steps of the check, or the failure that ends it before any
    /// backend is touched.
    pub fn plan(&self, config: &Config) -> (r: Result<Vec<CheckStep>, CommandError>)
        ensures
            check_plan_view(r) == spec_check_plan(
                config@,
                spec_meant_name(self.account.spec_name()),
            ),
    {
        check_plan(self.account.as_deref(), config)
    }
}

} // verus!
