//! The configuration of an account.

use vstd::prelude::*;
use crate::backend::config::{BackendConfig, BackendGlobalConfig, SideConfigView};
use crate::backend::plan::{
    instantiate, spec_instantiate, BackendPlan, BackendPlanView, Operation,
};
use crate::backend::BackendSource;
use crate::error::{CommandError, CommandErrorView};
use crate::sync::config::{EnvelopeSyncFilters, FolderSelection, FolderSyncStrategy};

verus! {

/// The folders that an account synchronizes.
#[derive(Debug)]
pub struct FolderConfig {
    pub filters: FolderSyncStrategy,
}

/// The envelopes that an account synchronizes.
#[derive(Clone, Copy, Debug, PartialEq, Eq, Structural)]
pub struct EnvelopeConfig {
    pub filters: EnvelopeSyncFilters,
}

/// The configuration of an account.
#[derive(Debug)]
pub struct TomlAccountConfig {
    /// Whether the account is meant where a command names none.
    pub default: Option<bool>,
    pub folder: Option<FolderConfig>,
    pub envelope: Option<EnvelopeConfig>,
    /// How many changes the engine may apply at once.
    pub pool_size: Option<usize>,
    pub left: BackendGlobalConfig,
    pub right: BackendGlobalConfig,
}

/// A [`TomlAccountConfig`] as a mathematical value.
pub struct TomlAccountConfigView {
    pub default: Option<bool>,
    pub folder: Option<FolderSelection>,
    pub envelope: Option<EnvelopeSyncFilters>,
    pub pool_size: Option<usize>,
    pub left: BackendGlobalConfig,
    pub right: BackendGlobalConfig,
}

impl View for TomlAccountConfig {
    type V = TomlAccountConfigView;

    open spec fn view(&self) -> TomlAccountConfigView {
        TomlAccountConfigView {
            default: self.default,
            folder: match self.folder {
                Some(c) => Some(c.filters@),
                None => None,
            },
            envelope: match self.envelope {
                Some(c) => Some(c.filters),
                None => None,
            },
            pool_size: self.pool_size,
            left: self.left,
            right: self.right,
        }
    }
}

impl Clone for TomlAccountConfig {
    fn clone(&self) -> (r: Self)
        ensures
            r@ == self@,
    {
        TomlAccountConfig {
            default: self.default,
            folder: match &self.folder {
                Some(c) => Some(FolderConfig { filters: c.filters.clone() }),
                None => None,
            },
            envelope: self.envelope,
            pool_size: self.pool_size,
            left: self.left,
            right: self.right,
        }
    }
}

impl TomlAccountConfigView {
    /// Whether the account is marked as default.
    pub open spec fn is_default(self) -> bool {
        self.default == Some(true)
    }

    /// The folders that the account synchronizes: every one, unless the
    /// configuration says otherwise.
    pub open spec fn folder_filter(self) -> FolderSelection {
        match self.folder {
            Some(f) => f,
            None => FolderSelection::All,
        }
    }

    /// The envelopes that the account synchronizes: every one, unless the
    /// configuration says otherwise.
    pub open spec fn envelope_filter(self) -> EnvelopeSyncFilters {
        match self.envelope {
            Some(f) => f,
            None => EnvelopeSyncFilters { before: None, after: None },
        }
    }

    /// The sides whose secrets are looked up under the account's name: those
    /// with a protocol client, the left one first.
    pub open spec fn secret_sides(self) -> Seq<BackendSource> {
        (if self.left.backend is Imap {
            seq![BackendSource::Left]
        } else {
            Seq::empty()
        }) + (if self.right.backend is Imap {
            seq![BackendSource::Right]
        } else {
            Seq::empty()
        })
    }
}

impl TomlAccountConfig {
    pub fn is_default(&self) -> (r: bool)
        ensures
            r == self@.is_default(),
    {
        match self.default {
            Some(d) => d,
            None => false,
        }
    }

    /// The folders that the account synchronizes.
    pub fn folder_filter(&self) -> (r: FolderSyncStrategy)
        ensures
            r@ == self@.folder_filter(),
    {
        match &self.folder {
            Some(c) => c.filters.clone(),
            None => FolderSyncStrategy::default(),
        }
    }

    /// The envelopes that the account synchronizes.
    pub fn envelope_filter(&self) -> (r: EnvelopeSyncFilters)
        ensures
            r == self@.envelope_filter(),
    {
        match self.envelope {
            Some(c) => c.filters,
            None => EnvelopeSyncFilters::default(),
        }
    }

    /// The sides whose secrets are to be looked up under the account's name
    /// before the account is used. The lookup itself is the work of the
    /// backend's own configuration.
    pub fn configure(&self) -> (r: Vec<BackendSource>)
        ensures
            r@ == self@.secret_sides(),
    {
        let mut sides: Vec<BackendSource> = Vec::new();
        match self.left.backend {
            BackendConfig::Imap(_) => {
                sides.push(BackendSource::Left);
            },
            _ => {},
        }
        match self.right.backend {
            BackendConfig::Imap(_) => {
                sides.push(BackendSource::Right);
            },
            _ => {},
        }
        sides
    }
}

/// The settings of one side of a resolved account.
pub open spec fn side_config(
    name: Seq<char>,
    account: TomlAccountConfigView,
    source: BackendSource,
) -> SideConfigView {
    match source {
        BackendSource::Left => account.left.spec_side_config(
            name,
            account.folder_filter(),
            account.envelope_filter(),
        ),
        BackendSource::Right => account.right.spec_side_config(
            name,
            account.folder_filter(),
            account.envelope_filter(),
        ),
    }
}

/// How the two sides of a resolved account are instantiated for an
/// operation: both or none, and where both lack a backend the failure names
/// the left one.
pub open spec fn spec_sides(
    name: Seq<char>,
    account: TomlAccountConfigView,
    operation: Operation,
) -> Result<(BackendPlanView, BackendPlanView), CommandErrorView> {
    match spec_instantiate(
        BackendSource::Left,
        account.left.backend,
        side_config(name, account, BackendSource::Left),
        operation,
    ) {
        Err(e) => Err(e),
        Ok(left) => match spec_instantiate(
            BackendSource::Right,
            account.right.backend,
            side_config(name, account, BackendSource::Right),
            operation,
        ) {
            Err(e) => Err(e),
            Ok(right) => Ok((left, right)),
        },
    }
}

/// The two plans of a pair, or the failure to make them, as a mathematical
/// value.
pub open spec fn sides_view(r: Result<(BackendPlan, BackendPlan), CommandError>) -> Result<
    (BackendPlanView, BackendPlanView),
    CommandErrorView,
> {
    match r {
        Ok(p) => Ok((p.0@, p.1@)),
        Err(e) => Err(e@),
    }
}

/// Decides how the two sides of a resolved account are instantiated for an
/// operation. Nothing is instantiated unless both sides have a backend.
pub fn instantiate_sides(
    name: &str,
    account: &TomlAccountConfig,
    operation: Operation,
) -> (r: Result<(BackendPlan, BackendPlan), CommandError>)
    ensures
        sides_view(r) == spec_sides(name@, account@, operation),
{
    let (left_backend, left_config) = account.left.into_account_config(
        name.to_owned(),
        account.folder_filter(),
        account.envelope_filter(),
    );
    let (right_backend, right_config) = account.right.into_account_config(
        name.to_owned(),
        account.folder_filter(),
        account.envelope_filter(),
    );
    match instantiate(BackendSource::Left, left_backend, left_config, operation) {
        Err(e) => Err(e),
        Ok(left) => match instantiate(
            BackendSource::Right,
            right_backend,
            right_config,
            operation,
        ) {
            Err(e) => Err(e),
            Ok(right) => Ok((left, right)),
        },
    }
}

/// A side without a backend ends a command on a resolved account before
/// anything is instantiated, for a check as for a synchronization, and the
/// failure names the side: the left one where it has no backend, else the
/// right one.
pub proof fn lemma_unconfigured_side_aborts(
    name: Seq<char>,
    account: TomlAccountConfigView,
    operation: Operation,
)
    ensures
        account.left.backend is Unconfigured ==> spec_sides(name, account, operation) == Err::<
            (BackendPlanView, BackendPlanView),
            CommandErrorView,
        >(CommandErrorView::BackendNotConfigured(BackendSource::Left)),
        !(account.left.backend is Unconfigured) && account.right.backend is Unconfigured
            ==> spec_sides(name, account, operation) == Err::<
            (BackendPlanView, BackendPlanView),
            CommandErrorView,
        >(CommandErrorView::BackendNotConfigured(BackendSource::Right)),
        spec_sides(name, account, operation) is Ok <==> !(account.left.backend is Unconfigured)
            && !(account.right.backend is Unconfigured),
{
}

} // verus!
