//! How the backend of a side is to be instantiated.

use vstd::prelude::*;
use crate::backend::config::{BackendConfig, SideConfig, SideConfigView};
use crate::backend::{BackendKind, BackendSource};
use crate::error::{CommandError, CommandErrorView};

verus! {

/// What a backend is instantiated for.
#[derive(Clone, Copy, Debug, PartialEq, Eq, Structural)]
pub enum Operation {
    /// To see whether the side can be reached.
    Check,
    /// To synchronize it with the other side.
    Synchronize,
}

/// What the caller needs to open the backend of a side.
#[derive(Debug)]
pub struct BackendPlan {
    pub source: BackendSource,
    pub kind: BackendKind,
    /// The number of sessions of a protocol client; where it is absent the
    /// engine's own default holds. A local store has no sessions.
    pub pool_size: Option<u8>,
    pub config: SideConfig,
}

/// A [`BackendPlan`] as a mathematical value.
pub struct BackendPlanView {
    pub source: BackendSource,
    pub kind: BackendKind,
    pub pool_size: Option<u8>,
    pub config: SideConfigView,
}

impl View for BackendPlan {
    type V = BackendPlanView;

    open spec fn view(&self) -> BackendPlanView {
        BackendPlanView {
            source: self.source,
            kind: self.kind,
            pool_size: self.pool_size,
            config: self.config@,
        }
    }
}

impl Clone for BackendPlan {
    fn clone(&self) -> (r: Self)
        ensures
            r@ == self@,
    {
        BackendPlan {
            source: self.source,
            kind: self.kind,
            pool_size: self.pool_size,
            config: self.config.clone(),
        }
    }
}

/// The number of sessions with which a backend is opened: one for a check of
/// a protocol client, since one session shows that the server can be
/// reached; what the configuration says for a synchronization; none for a
/// local store.
pub open spec fn spec_pool_size(backend: BackendConfig, operation: Operation) -> Option<u8> {
    match backend {
        BackendConfig::Imap(imap) => match operation {
            Operation::Check => Some(1u8),
            Operation::Synchronize => imap.clients_pool_size,
        },
        _ => None,
    }
}

/// How the backend of a side is to be instantiated, or the failure where the
/// side has none.
pub open spec fn spec_instantiate(
    source: BackendSource,
    backend: BackendConfig,
    config: SideConfigView,
    operation: Operation,
) -> Result<BackendPlanView, CommandErrorView> {
    match backend.spec_kind() {
        None => Err(CommandErrorView::BackendNotConfigured(source)),
        Some(kind) => Ok(
            BackendPlanView { source, kind, pool_size: spec_pool_size(backend, operation), config },
        ),
    }
}

/// A plan, or the failure to make one, as a mathematical value.
pub open spec fn plan_view(r: Result<BackendPlan, CommandError>) -> Result<
    BackendPlanView,
    CommandErrorView,
> {
    match r {
        Ok(p) => Ok(p@),
        Err(e) => Err(e@),
    }
}

/// Decides how the backend of a side is to be instantiated. A side without a
/// backend fails at once, by its name, whatever the operation.
pub fn instantiate(
    source: BackendSource,
    backend: BackendConfig,
    config: SideConfig,
    operation: Operation,
) -> (r: Result<BackendPlan, CommandError>)
    ensures
        plan_view(r) == spec_instantiate(source, backend, config@, operation),
{
    match backend {
        BackendConfig::Unconfigured => Err(CommandError::BackendNotConfigured(source)),
        BackendConfig::Imap(imap) => {
            let pool_size = match operation {
                Operation::Check => Some(1u8),
                Operation::Synchronize => imap.clients_pool_size,
            };
            Ok(BackendPlan { source, kind: BackendKind::Imap, pool_size, config })
        },
        BackendConfig::Maildir => Ok(
            BackendPlan { source, kind: BackendKind::Maildir, pool_size: None, config },
        ),
        BackendConfig::Notmuch => Ok(
            BackendPlan { source, kind: BackendKind::Notmuch, pool_size: None, config },
        ),
    }
}

/// A side without a backend is never instantiated, for a check as for a
/// synchronization, and the failure names the side.
pub proof fn lemma_unconfigured_side_fails(
    source: BackendSource,
    config: SideConfigView,
    operation: Operation,
)
    ensures
        spec_instantiate(source, BackendConfig::Unconfigured, config, operation) == Err::<
            BackendPlanView,
            CommandErrorView,
        >(CommandErrorView::BackendNotConfigured(source)),
        CommandErrorView::BackendNotConfigured(source).side() == Some(source),
{
}

/// A protocol client that is opened for a check holds one session, whatever
/// its configuration says.
pub proof fn lemma_check_holds_one_session(
    source: BackendSource,
    backend: BackendConfig,
    config: SideConfigView,
)
    requires
        backend is Imap,
    ensures
        spec_instantiate(source, backend, config, Operation::Check) matches Ok(plan)
            && plan.pool_size == Some(1u8),
{
}

} // verus!
