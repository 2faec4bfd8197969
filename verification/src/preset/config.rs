//! The configuration of a preset.

use vstd::prelude::*;
use crate::backend::config::ImapConfig;
use crate::backend::BackendSource;
use crate::sync::config::{
    EnvelopeSyncFilters, FlagSyncPermissions, FolderSyncPermissions, FolderSyncStrategy,
    MessageSyncPermissions,
};

verus! {

/// The backend of one side of a preset.
#[derive(Clone, Copy, Debug, PartialEq, Eq, Structural)]
pub enum TomlBackend {
    Imap(ImapConfig),
    Maildir,
    Notmuch,
}

/// The folders that a side synchronizes and the folder changes it allows.
#[derive(Debug)]
pub struct FolderSyncConfig {
    pub filter: FolderSyncStrategy,
    pub permissions: FolderSyncPermissions,
}

/// The envelopes that a side synchronizes.
#[derive(Clone, Copy, Debug, PartialEq, Eq, Structural)]
pub struct EnvelopeSyncConfig {
    pub filter: EnvelopeSyncFilters,
}

/// The flag changes that a side allows.
#[derive(Clone, Copy, Debug, PartialEq, Eq, Structural)]
pub struct FlagSyncConfig {
    pub permissions: FlagSyncPermissions,
}

/// The message changes that a side allows.
#[derive(Clone, Copy, Debug, PartialEq, Eq, Structural)]
pub struct MessageSyncConfig {
    pub permissions: MessageSyncPermissions,
}

/// The configuration of one side of a preset.
#[derive(Debug)]
pub struct TomlBackendConfig {
    pub backend: TomlBackend,
    pub folder: Option<FolderSyncConfig>,
    pub envelope: Option<EnvelopeSyncConfig>,
    pub flag: Option<FlagSyncConfig>,
    pub message: Option<MessageSyncConfig>,
}

/// The configuration of a preset.
#[derive(Debug)]
pub struct TomlPresetConfig {
    /// Whether the preset is meant where a command names none.
    pub default: Option<bool>,
    pub left: TomlBackendConfig,
    pub right: TomlBackendConfig,
}

/// The sides of a preset whose secrets are looked up under the preset's
/// name: those with a protocol client, the left one first.
pub open spec fn spec_secret_sides(left: TomlBackend, right: TomlBackend) -> Seq<BackendSource> {
    (if left is Imap {
        seq![BackendSource::Left]
    } else {
        Seq::empty()
    }) + (if right is Imap {
        seq![BackendSource::Right]
    } else {
        Seq::empty()
    })
}

impl TomlPresetConfig {
    /// The sides whose secrets are to be looked up under the preset's name
    /// before the preset is used. The lookup itself is the work of the
    /// backend's own configuration.
    pub fn configure(&self) -> (r: Vec<BackendSource>)
        ensures
            r@ == spec_secret_sides(self.left.backend, self.right.backend),
    {
        let mut sides: Vec<BackendSource> = Vec::new();
        match self.left.backend {
            TomlBackend::Imap(_) => {
                sides.push(BackendSource::Left);
            },
            _ => {},
        }
        match self.right.backend {
            TomlBackend::Imap(_) => {
                sides.push(BackendSource::Right);
            },
            _ => {},
        }
        sides
    }
}

} // verus!
