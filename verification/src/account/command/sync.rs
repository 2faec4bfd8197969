//! The command that synchronizes the two sides of an account.

use vstd::prelude::*;
use crate::account::arg::name::OptionalAccountNameArg;
use crate::account::config::{instantiate_sides, spec_sides};
use crate::backend::plan::{BackendPlan, BackendPlanView, Operation};
use crate::backend::BackendSource;
use crate::config::{spec_meant_name, spec_resolve, AccountsView, Config};
use crate::error::{CommandError, CommandErrorView};
use crate::sync::config::{clone_names, names, FolderSelection, FolderSyncStrategy};
use crate::sync::run::{run_mode, spec_run_mode, RunMode};

verus! {

/// The folder selection that the flags of a command ask for: the included
/// folders where any is given, else the excluded folders where any is given,
/// else every folder where that is asked for, else nothing, which leaves the
/// choice to the account.
pub open spec fn spec_folder_filter(
    included: Seq<String>,
    excluded: Seq<String>,
    all: bool,
) -> Option<FolderSelection> {
    if included.len() > 0 {
        Some(FolderSelection::Include(names(included)))
    } else if excluded.len() > 0 {
        Some(FolderSelection::Exclude(names(excluded)))
    } else if all {
        Some(FolderSelection::All)
    } else {
        None
    }
}

/// An optional strategy as a mathematical value.
pub open spec fn filter_view(f: Option<FolderSyncStrategy>) -> Option<FolderSelection> {
    match f {
        Some(s) => Some(s@),
        None => None,
    }
}

/// Synchronize folders and emails of the two sides of an account.
#[derive(Clone, Debug, PartialEq, Eq)]
pub struct SynchronizeAccountCommand {
    pub account: OptionalAccountNameArg,
    /// Run without applying any change, and list the changes instead.
    pub dry_run: bool,
    /// Synchronize only these folders.
    pub include_folder: Vec<String>,
    /// Synchronize every folder but these.
    pub exclude_folder: Vec<String>,
    /// Synchronize every folder.
    pub all_folders: bool,
}

/// What a synchronization needs before the engine is built.
#[derive(Debug)]
pub struct SyncPlan {
    /// The name of the resolved account.
    pub account: String,
    pub left: BackendPlan,
    pub right: BackendPlan,
    /// The folder selection of the command; where it is absent, that of the
    /// account holds.
    pub folder_filter: Option<FolderSyncStrategy>,
    /// How many changes the engine may apply at once; where it is absent,
    /// the engine's own default holds.
    pub pool_size: Option<usize>,
    pub mode: RunMode,
}

/// A [`SyncPlan`] as a mathematical value.
pub struct SyncPlanView {
    pub account: Seq<char>,
    pub left: BackendPlanView,
    pub right: BackendPlanView,
    pub folder_filter: Option<FolderSelection>,
    pub pool_size: Option<usize>,
    pub mode: RunMode,
}

impl View for SyncPlan {
    type V = SyncPlanView;

    open spec fn view(&self) -> SyncPlanView {
        SyncPlanView {
            account: self.account@,
            left: self.left@,
            right: self.right@,
            folder_filter: filter_view(self.folder_filter),
            pool_size: self.pool_size,
            mode: self.mode,
        }
    }
}

/// What a synchronization needs before the engine is built, or the failure
/// that ends it before any backend is touched.
pub open spec fn spec_sync_plan(
    accounts: AccountsView,
    name: Option<Seq<char>>,
    dry_run: bool,
    included: Seq<String>,
    excluded: Seq<String>,
    all: bool,
    json: bool,
) -> Result<SyncPlanView, CommandErrorView> {
    match spec_resolve(accounts, name) {
        Err(e) => Err(e),
        Ok(found) => match spec_sides(found.0, found.1, Operation::Synchronize) {
            Err(e) => Err(e),
            Ok(sides) => Ok(
                SyncPlanView {
                    account: found.0,
                    left: sides.0,
                    right: sides.1,
                    folder_filter: spec_folder_filter(included, excluded, all),
                    pool_size: found.1.pool_size,
                    mode: spec_run_mode(dry_run, json),
                },
            ),
        },
    }
}

/// A plan, or the failure to make one, as a mathematical value.
pub open spec fn sync_plan_view(r: Result<SyncPlan, CommandError>) -> Result<
    SyncPlanView,
    CommandErrorView,
> {
    match r {
        Ok(p) => Ok(p@),
        Err(e) => Err(e@),
    }
}

impl SynchronizeAccountCommand {
    /// The folder selection that the flags of the command ask for.
    pub fn folder_filter(&self) -> (r: Option<FolderSyncStrategy>)
        ensures
            filter_view(r) == spec_folder_filter(
                self.include_folder@,
                self.exclude_folder@,
                self.all_folders,
            ),
    {
        if self.include_folder.len() > 0 {
            Some(FolderSyncStrategy::Include(clone_names(&self.include_folder)))
        } else if self.exclude_folder.len() > 0 {
            Some(FolderSyncStrategy::Exclude(clone_names(&self.exclude_folder)))
        } else if self.all_folders {
            Some(FolderSyncStrategy::All)
        } else {
            None
        }
    }

    /// Decides everything that a synchronization needs before the engine is
    /// built: the account, how each side is instantiated, the folder
    /// selection, and the way in which the run goes. Where the account
    /// cannot be resolved or a side has no backend, the failure comes before
    /// any backend is touched.
    pub fn plan(&self, config: &Config, json: bool) -> (r: Result<SyncPlan, CommandError>)
        ensures
            sync_plan_view(r) == spec_sync_plan(
                config@,
                spec_meant_name(self.account.spec_name()),
                self.dry_run,
                self.include_folder@,
                self.exclude_folder@,
                self.all_folders,
                json,
            ),
    {
        match config.into_account_config(self.account.as_deref()) {
            Err(e) => Err(e),
            Ok(found) => {
                let (name, account) = found;
                match instantiate_sides(name.as_str(), &account, Operation::Synchronize) {
                    Err(e) => Err(e),
                    Ok(sides) => {
                        let (left, right) = sides;
                        Ok(
                            SyncPlan {
                                account: name,
                                left,
                                right,
                                folder_filter: self.folder_filter(),
                                pool_size: account.pool_size,
                                mode: run_mode(self.dry_run, json),
                            },
                        )
                    },
                }
            },
        }
    }
}

/// Of the three folder flags at most one decides, and inclusion goes before
/// exclusion, which goes before every folder: the four cases below leave no
/// combination of the flags out, and no two of them hold together.
pub proof fn lemma_folder_filter_precedence(included: Seq<String>, excluded: Seq<String>, all: bool)
    ensures
        included.len() > 0 ==> spec_folder_filter(included, excluded, all) == Some(
            FolderSelection::Include(names(included)),
        ),
        included.len() == 0 && excluded.len() > 0 ==> spec_folder_filter(included, excluded, all)
            == Some(FolderSelection::Exclude(names(excluded))),
        included.len() == 0 && excluded.len() == 0 && all ==> spec_folder_filter(
            included,
            excluded,
            all,
        ) == Some(FolderSelection::All),
        included.len() == 0 && excluded.len() == 0 && !all ==> spec_folder_filter(
            included,
            excluded,
            all,
        ) is None,
{
}

/// A synchronization of a resolved account with a side that has no backend
/// fails before anything is built, whatever its flags, and the failure names
/// the side: the left one where it has no backend, else the right one.
pub proof fn lemma_sync_fails_on_unconfigured_side(
    accounts: AccountsView,
    name: Option<Seq<char>>,
    dry_run: bool,
    included: Seq<String>,
    excluded: Seq<String>,
    all: bool,
    json: bool,
)
    requires
        spec_resolve(accounts, name) is Ok,
    ensures
        spec_resolve(accounts, name)->Ok_0.1.left.backend is Unconfigured ==> spec_sync_plan(
            accounts,
            name,
            dry_run,
            included,
            excluded,
            all,
            json,
        ) == Err::<SyncPlanView, CommandErrorView>(
            CommandErrorView::BackendNotConfigured(BackendSource::Left),
        ),
        !(spec_resolve(accounts, name)->Ok_0.1.left.backend is Unconfigured) && spec_resolve(
            accounts,
            name,
        )->Ok_0.1.right.backend is Unconfigured ==> spec_sync_plan(
            accounts,
            name,
            dry_run,
            included,
            excluded,
            all,
            json,
        ) == Err::<SyncPlanView, CommandErrorView>(
            CommandErrorView::BackendNotConfigured(BackendSource::Right),
        ),
{
}

} // verus!
