//! What the wizard makes of the answers about an account.

use vstd::prelude::*;
use crate::account::config::{TomlAccountConfig, TomlAccountConfigView};
use crate::backend::config::BackendGlobalConfig;

verus! {

/// The account name that the wizard proposes.
pub fn default_account_name() -> (r: &'static str)
    ensures
        r@ == "personal"@,
{
    "personal"
}

/// The account as the wizard leaves it: marked as default, with the two
/// sides that the answers describe and no other setting.
pub fn configure(left: BackendGlobalConfig, right: BackendGlobalConfig) -> (r: TomlAccountConfig)
    ensures
        r@ == (TomlAccountConfigView {
            default: Some(true),
            folder: None,
            envelope: None,
            pool_size: None,
            left,
            right,
        }),
{
    TomlAccountConfig {
        default: Some(true),
        folder: None,
        envelope: None,
        pool_size: None,
        left,
        right,
    }
}

} // verus!
