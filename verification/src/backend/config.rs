//! The configuration of one side of an account.

use vstd::prelude::*;
use crate::backend::BackendKind;
use crate::sync::config::{
    EnvelopeSyncFilters, FlagSyncPermissions, FolderSelection, FolderSyncPermissions,
    FolderSyncStrategy, MessageSyncPermissions,
};

verus! {

/// How a protocol client proves who it is.
#[derive(Clone, Copy, Debug, PartialEq, Eq, Structural)]
pub enum ImapAuthConfig {
    Password,
    OAuth2,
}

/// What the rules of a run read of the configuration of a protocol client.
#[derive(Clone, Copy, Debug, PartialEq, Eq, Structural)]
pub struct ImapConfig {
    pub auth: ImapAuthConfig,
    /// The number of sessions to hold open, where the configuration says it.
    pub clients_pool_size: Option<u8>,
}

/// The backend of a side: a protocol client, one of two local stores, or
/// nothing.
#[derive(Clone, Copy, Debug, PartialEq, Eq, Structural)]
pub enum BackendConfig {
    Unconfigured,
    Imap(ImapConfig),
    Maildir,
    Notmuch,
}

impl BackendConfig {
    /// The kind of the backend, where there is a backend.
    pub open spec fn spec_kind(self) -> Option<BackendKind> {
        match self {
            BackendConfig::Unconfigured => None,
            BackendConfig::Imap(_) => Some(BackendKind::Imap),
            BackendConfig::Maildir => Some(BackendKind::Maildir),
            BackendConfig::Notmuch => Some(BackendKind::Notmuch),
        }
    }

    pub fn kind(&self) -> (r: Option<BackendKind>)
        ensures
            r == self.spec_kind(),
    {
        match self {
            BackendConfig::Unconfigured => None,
            BackendConfig::Imap(_) => Some(BackendKind::Imap),
            BackendConfig::Maildir => Some(BackendKind::Maildir),
            BackendConfig::Notmuch => Some(BackendKind::Notmuch),
        }
    }
}

/// The folder changes that a side allows.
#[derive(Clone, Copy, Debug, PartialEq, Eq, Structural)]
pub struct FolderBackendConfig {
    pub permissions: FolderSyncPermissions,
}

/// The flag changes that a side allows.
#[derive(Clone, Copy, Debug, PartialEq, Eq, Structural)]
pub struct FlagBackendConfig {
    pub permissions: FlagSyncPermissions,
}

/// The message changes that a side allows.
#[derive(Clone, Copy, Debug, PartialEq, Eq, Structural)]
pub struct MessageBackendConfig {
    pub permissions: MessageSyncPermissions,
}

/// The configuration of one side: its backend, and what may be changed on it.
#[derive(Clone, Copy, Debug, PartialEq, Eq, Structural)]
pub struct BackendGlobalConfig {
    pub backend: BackendConfig,
    pub folder: Option<FolderBackendConfig>,
    pub flag: Option<FlagBackendConfig>,
    pub message: Option<MessageBackendConfig>,
}

/// The settings under which the engine works on one side.
#[derive(Debug)]
pub struct SideConfig {
    /// The name of the account.
    pub name: String,
    pub folder_filter: FolderSyncStrategy,
    pub folder_permissions: FolderSyncPermissions,
    pub envelope_filter: EnvelopeSyncFilters,
    pub flag_permissions: FlagSyncPermissions,
    pub message_permissions: MessageSyncPermissions,
}

/// A [`SideConfig`] as a mathematical value.
pub struct SideConfigView {
    pub name: Seq<char>,
    pub folder_filter: FolderSelection,
    pub folder_permissions: FolderSyncPermissions,
    pub envelope_filter: EnvelopeSyncFilters,
    pub flag_permissions: FlagSyncPermissions,
    pub message_permissions: MessageSyncPermissions,
}

impl View for SideConfig {
    type V = SideConfigView;

    open spec fn view(&self) -> SideConfigView {
        SideConfigView {
            name: self.name@,
            folder_filter: self.folder_filter@,
            folder_permissions: self.folder_permissions,
            envelope_filter: self.envelope_filter,
            flag_permissions: self.flag_permissions,
            message_permissions: self.message_permissions,
        }
    }
}

impl Clone for SideConfig {
    fn clone(&self) -> (r: Self)
        ensures
            r@ == self@,
    {
        SideConfig {
            name: self.name.clone(),
            folder_filter: self.folder_filter.clone(),
            folder_permissions: self.folder_permissions,
            envelope_filter: self.envelope_filter,
            flag_permissions: self.flag_permissions,
            message_permissions: self.message_permissions,
        }
    }
}

impl BackendGlobalConfig {
    /// The folder changes that the side allows: every one, unless the
    /// configuration says otherwise.
    pub open spec fn spec_folder_permissions(self) -> FolderSyncPermissions {
        match self.folder {
            Some(c) => c.permissions,
            None => FolderSyncPermissions { create: true, delete: true },
        }
    }

    /// The flag changes that the side allows: every one, unless the
    /// configuration says otherwise.
    pub open spec fn spec_flag_permissions(self) -> FlagSyncPermissions {
        match self.flag {
            Some(c) => c.permissions,
            None => FlagSyncPermissions { update: true },
        }
    }

    /// The message changes that the side allows: every one, unless the
    /// configuration says otherwise.
    pub open spec fn spec_message_permissions(self) -> MessageSyncPermissions {
        match self.message {
            Some(c) => c.permissions,
            None => MessageSyncPermissions { create: true, delete: true },
        }
    }

    /// The settings of the side under the given account name and filters.
    pub open spec fn spec_side_config(
        self,
        name: Seq<char>,
        folder_filter: FolderSelection,
        envelope_filter: EnvelopeSyncFilters,
    ) -> SideConfigView {
        SideConfigView {
            name,
            folder_filter,
            folder_permissions: self.spec_folder_permissions(),
            envelope_filter,
            flag_permissions: self.spec_flag_permissions(),
            message_permissions: self.spec_message_permissions(),
        }
    }

    /// Splits the configuration of a side into its backend and the settings
    /// under which the engine works on it: the account's name and filters,
    /// and the permissions of the side, each with its default where the
    /// configuration is silent.
    pub fn into_account_config(
        self,
        name: String,
        folder_filter: FolderSyncStrategy,
        envelope_filter: EnvelopeSyncFilters,
    ) -> (r: (BackendConfig, SideConfig))
        ensures
            r.0 == self.backend,
            r.1@ == self.spec_side_config(name@, folder_filter@, envelope_filter),
    {
        let folder_permissions = match self.folder {
            Some(c) => c.permissions,
            None => FolderSyncPermissions::default(),
        };
        let flag_permissions = match self.flag {
            Some(c) => c.permissions,
            None => FlagSyncPermissions::default(),
        };
        let message_permissions = match self.message {
            Some(c) => c.permissions,
            None => MessageSyncPermissions::default(),
        };
        (
            self.backend,
            SideConfig {
                name,
                folder_filter,
                folder_permissions,
                envelope_filter,
                flag_permissions,
                message_permissions,
            },
        )
    }
}

} // verus!
