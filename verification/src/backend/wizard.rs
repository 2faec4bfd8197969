//! What the wizard asks about a side, and what it makes of the answers.

use vstd::prelude::*;
use vstd::string::StringExecFns;
use crate::backend::config::{BackendConfig, BackendGlobalConfig};
use crate::backend::{BackendKind, BackendSource};

verus! {

/// The kinds of backend among which a user picks, in the order in which they
/// are shown.
pub fn default_backend_kinds() -> (r: Vec<BackendKind>)
    ensures
        r@ == seq![BackendKind::Imap, BackendKind::Maildir, BackendKind::Notmuch],
{
    let mut kinds: Vec<BackendKind> = Vec::new();
    kinds.push(BackendKind::Imap);
    kinds.push(BackendKind::Maildir);
    kinds.push(BackendKind::Notmuch);
    kinds
}

/// The prompt under which the backend of a side is picked.
pub fn prompt(source: BackendSource) -> (r: String)
    ensures
        r@ == source.spec_display() + ":"@,
{
    let mut r = source.display();
    r.append(":");
    r
}

/// The configuration of a side as the wizard leaves it: the backend that the
/// answers describe, and no permission set, so that every change is allowed.
pub fn configure(backend: BackendConfig) -> (r: BackendGlobalConfig)
    ensures
        r == (BackendGlobalConfig { backend, folder: None, flag: None, message: None }),
{
    BackendGlobalConfig { backend, folder: None, flag: None, message: None }
}

} // verus!
