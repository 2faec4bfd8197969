//! The course of one synchronization, from the resolved account to the
//! printed report.
//!
//! A run is a state machine. The caller does the outside work (it opens the
//! backends, runs the engine, draws and prints) and tells the run what came
//! of it; the run answers with its next state and with what is to be done
//! next.

use vstd::prelude::*;
use vstd::string::StringExecFns;
use crate::backend::BackendSource;
use crate::error::{CommandError, CommandErrorView};
use crate::printer::{messages_view, Channel, Message};
use crate::sync::event::{SyncEvent, SyncEventView};
use crate::sync::progress::{
    actions_view, initial_view, spec_route, spec_steps, ProgressAction, ProgressActionView,
    ProgressState, ProgressView,
};
use crate::sync::report::{spec_dry_run_report, spec_live_report, SyncReport, SyncReportView};

verus! {

/// The three ways in which a synchronization runs.
#[derive(Clone, Copy, Debug, PartialEq, Eq, Structural)]
pub enum RunMode {
    /// The changes are computed and listed, none is applied.
    DryRun,
    /// The changes are applied and the result is written for a program:
    /// progress is never shown.
    LiveJson,
    /// The changes are applied and progress is shown to a reader.
    LiveProgress,
}

/// The way in which a synchronization runs, from the dry-run flag and the
/// output format.
pub open spec fn spec_run_mode(dry_run: bool, json: bool) -> RunMode {
    if dry_run {
        RunMode::DryRun
    } else if json {
        RunMode::LiveJson
    } else {
        RunMode::LiveProgress
    }
}

pub fn run_mode(dry_run: bool, json: bool) -> (r: RunMode)
    ensures
        r == spec_run_mode(dry_run, json),
{
    if dry_run {
        RunMode::DryRun
    } else if json {
        RunMode::LiveJson
    } else {
        RunMode::LiveProgress
    }
}

/// The states of a run.
#[derive(Clone, Copy, Debug, PartialEq, Eq, Structural)]
pub enum RunState {
    /// The account is resolved and both sides have a backend.
    Resolved,
    /// Both backends are instantiated; the engine is being built.
    BackendsInstantiated,
    /// Dry run: the engine has computed the changes.
    PatchComputed,
    /// Live run: the engine is applying the changes.
    Running,
    /// Live run: the engine is done.
    Completed,
    /// The report is printed: the run has ended well.
    Reported,
    /// The run has ended with a failure.
    Aborted,
}

impl RunState {
    /// Whether the run is over.
    pub open spec fn spec_is_terminal(&self) -> bool {
        *self == RunState::Reported || *self == RunState::Aborted
    }

    #[verifier::when_used_as_spec(spec_is_terminal)]
    pub fn is_terminal(&self) -> (r: bool)
        ensures
            r == self.spec_is_terminal(),
    {
        match self {
            RunState::Reported => true,
            RunState::Aborted => true,
            _ => false,
        }
    }
}

/// What the caller tells a run.
#[derive(Debug)]
pub enum RunInput {
    /// Both backends are instantiated.
    BackendsBuilt,
    /// The backend of a side could not be instantiated, and why.
    BackendFailed(BackendSource, String),
    /// The engine has started to apply the changes.
    EngineStarted,
    /// The engine has emitted an event.
    Event(SyncEvent),
    /// The engine is done, with its report.
    EngineDone(SyncReport),
    /// The engine has failed as a whole, and why.
    EngineFailed(String),
    /// The report is printed.
    Printed,
}

/// A [`RunInput`] as a mathematical value.
pub enum RunInputView {
    BackendsBuilt,
    BackendFailed(BackendSource, Seq<char>),
    EngineStarted,
    Event(SyncEventView),
    EngineDone(SyncReportView),
    EngineFailed(Seq<char>),
    Printed,
}

impl View for RunInput {
    type V = RunInputView;

    open spec fn view(&self) -> RunInputView {
        match self {
            RunInput::BackendsBuilt => RunInputView::BackendsBuilt,
            RunInput::BackendFailed(side, why) => RunInputView::BackendFailed(*side, why@),
            RunInput::EngineStarted => RunInputView::EngineStarted,
            RunInput::Event(e) => RunInputView::Event(e@),
            RunInput::EngineDone(r) => RunInputView::EngineDone(r@),
            RunInput::EngineFailed(why) => RunInputView::EngineFailed(why@),
            RunInput::Printed => RunInputView::Printed,
        }
    }
}

/// What a run asks of the caller.
#[derive(Debug)]
pub enum RunOutput {
    /// Build the engine and run it: without applying anything or not, and
    /// with its events handed back or not.
    StartEngine(bool, bool),
    /// Perform these drawing steps.
    Draw(Vec<ProgressAction>),
    /// Hand these items to the printer.
    Print(Vec<Message>),
    /// End with this failure.
    Abort(CommandError),
    /// Nothing is to be done.
    Nothing,
}

/// A [`RunOutput`] as a mathematical value.
pub enum RunOutputView {
    StartEngine(bool, bool),
    Draw(Seq<ProgressActionView>),
    Print(Seq<(Channel, Seq<char>)>),
    Abort(CommandErrorView),
    Nothing,
}

impl View for RunOutput {
    type V = RunOutputView;

    open spec fn view(&self) -> RunOutputView {
        match self {
            RunOutput::StartEngine(dry_run, events) => RunOutputView::StartEngine(
                *dry_run,
                *events,
            ),
            RunOutput::Draw(steps) => RunOutputView::Draw(actions_view(steps@)),
            RunOutput::Print(items) => RunOutputView::Print(messages_view(items@)),
            RunOutput::Abort(e) => RunOutputView::Abort(e@),
            RunOutput::Nothing => RunOutputView::Nothing,
        }
    }
}

/// A run as a mathematical value.
pub struct SyncRunView {
    pub mode: RunMode,
    pub state: RunState,
    /// The name of the account.
    pub account: Seq<char>,
    /// The progress display; it moves in a live run for a reader only.
    pub progress: ProgressView,
}

/// The drawing steps that show the display before the first event.
pub open spec fn first_steps() -> Seq<ProgressActionView> {
    seq![
        ProgressActionView::SetLength(100),
        ProgressActionView::SetPosition(0),
        ProgressActionView::SetMessage("Listing folders…"@),
        ProgressActionView::Tick,
    ]
}

/// The next state of a run and what it asks of the caller. What a state does
/// not await changes nothing and asks for nothing.
pub open spec fn spec_step(s: SyncRunView, input: RunInputView) -> (SyncRunView, RunOutputView) {
    match (s.state, input) {
        (RunState::Resolved, RunInputView::BackendsBuilt) => (
            SyncRunView { state: RunState::BackendsInstantiated, ..s },
            RunOutputView::StartEngine(s.mode == RunMode::DryRun, s.mode == RunMode::LiveProgress),
        ),
        (RunState::Resolved, RunInputView::BackendFailed(side, why)) => (
            SyncRunView { state: RunState::Aborted, ..s },
            RunOutputView::Abort(CommandErrorView::BackendInstantiation(side, why)),
        ),
        (RunState::BackendsInstantiated, RunInputView::EngineStarted) => match s.mode {
            RunMode::DryRun => (s, RunOutputView::Nothing),
            RunMode::LiveJson => (
                SyncRunView { state: RunState::Running, ..s },
                RunOutputView::Nothing,
            ),
            RunMode::LiveProgress => (
                SyncRunView { state: RunState::Running, ..s },
                RunOutputView::Draw(first_steps()),
            ),
        },
        (RunState::BackendsInstantiated, RunInputView::EngineDone(report)) => match s.mode {
            RunMode::DryRun => (
                SyncRunView { state: RunState::PatchComputed, ..s },
                RunOutputView::Print(spec_dry_run_report(s.account, report)),
            ),
            _ => (s, RunOutputView::Nothing),
        },
        (RunState::BackendsInstantiated, RunInputView::EngineFailed(why)) => (
            SyncRunView { state: RunState::Aborted, ..s },
            RunOutputView::Abort(CommandErrorView::Engine(why)),
        ),
        (RunState::Running, RunInputView::Event(e)) => match s.mode {
            RunMode::LiveProgress => (
                SyncRunView { progress: spec_route(s.progress, e), ..s },
                RunOutputView::Draw(spec_steps(s.progress, e)),
            ),
            _ => (s, RunOutputView::Nothing),
        },
        (RunState::Running, RunInputView::EngineDone(report)) => (
            SyncRunView { state: RunState::Completed, ..s },
            RunOutputView::Print(spec_live_report(s.account, report, s.mode == RunMode::LiveJson)),
        ),
        (RunState::Running, RunInputView::EngineFailed(why)) => (
            SyncRunView { state: RunState::Aborted, ..s },
            RunOutputView::Abort(CommandErrorView::Engine(why)),
        ),
        (RunState::PatchComputed, RunInputView::Printed) => (
            SyncRunView { state: RunState::Reported, ..s },
            RunOutputView::Nothing,
        ),
        (RunState::Completed, RunInputView::Printed) => (
            SyncRunView { state: RunState::Reported, ..s },
            RunOutputView::Nothing,
        ),
        _ => (s, RunOutputView::Nothing),
    }
}

/// One synchronization of an account.
pub struct SyncRun {
    mode: RunMode,
    state: RunState,
    account: String,
    progress: ProgressState,
}

impl View for SyncRun {
    type V = SyncRunView;

    closed spec fn view(&self) -> SyncRunView {
        SyncRunView {
            mode: self.mode,
            state: self.state,
            account: self.account@,
            progress: self.progress@,
        }
    }
}

impl SyncRun {
    /// The invariant of a run: that of its progress display.
    pub closed spec fn wf(&self) -> bool {
        self.progress.wf()
    }

    /// A run is well-formed as a mathematical value where it is well-formed.
    pub proof fn lemma_view_wf(&self)
        requires
            self.wf(),
        ensures
            self@.progress.wf(),
    {
        self.progress.lemma_view_wf();
    }

    /// The run of a resolved account whose two sides have a backend, before
    /// anything is instantiated.
    pub fn new(account: String, mode: RunMode) -> (r: Self)
        ensures
            r.wf(),
            r@ == (SyncRunView {
                mode,
                state: RunState::Resolved,
                account: account@,
                progress: initial_view(),
            }),
    {
        SyncRun { mode, state: RunState::Resolved, account, progress: ProgressState::new() }
    }

    pub fn state(&self) -> (r: RunState)
        ensures
            r == self@.state,
    {
        self.state
    }

    pub fn mode(&self) -> (r: RunMode)
        ensures
            r == self@.mode,
    {
        self.mode
    }

    /// The name of the account.
    pub fn account(&self) -> (r: &String)
        ensures
            r@ == self@.account,
    {
        &self.account
    }

    /// The progress display.
    pub fn progress(&self) -> (r: &ProgressState)
        ensures
            r@ == self@.progress,
            self.wf() ==> r.wf(),
    {
        &self.progress
    }

    /// Takes what the caller tells, moves to the next state, and answers with
    /// what is to be done next.
    pub fn step(&mut self, input: RunInput) -> (r: RunOutput)
        requires
            old(self).wf(),
        ensures
            final(self).wf(),
            (final(self)@, r@) == spec_step(old(self)@, input@),
    {
        match self.state {
            RunState::Resolved => match input {
                RunInput::BackendsBuilt => {
                    self.state = RunState::BackendsInstantiated;
                    let dry_run = match self.mode {
                        RunMode::DryRun => true,
                        _ => false,
                    };
                    let events = match self.mode {
                        RunMode::LiveProgress => true,
                        _ => false,
                    };
                    RunOutput::StartEngine(dry_run, events)
                },
                RunInput::BackendFailed(side, why) => {
                    self.state = RunState::Aborted;
                    RunOutput::Abort(CommandError::BackendInstantiation(side, why))
                },
                _ => RunOutput::Nothing,
            },
            RunState::BackendsInstantiated => match input {
                RunInput::EngineStarted => match self.mode {
                    RunMode::DryRun => RunOutput::Nothing,
                    RunMode::LiveJson => {
                        self.state = RunState::Running;
                        RunOutput::Nothing
                    },
                    RunMode::LiveProgress => {
                        self.state = RunState::Running;
                        let mut steps: Vec<ProgressAction> = Vec::new();
                        steps.push(ProgressAction::SetLength(100));
                        steps.push(ProgressAction::SetPosition(0));
                        steps.push(
                            ProgressAction::SetMessage(
                                String::from_str("Listing folders…"),
                            ),
                        );
                        steps.push(ProgressAction::Tick);
                        assert(actions_view(steps@) =~= first_steps());
                        RunOutput::Draw(steps)
                    },
                },
                RunInput::EngineDone(report) => match self.mode {
                    RunMode::DryRun => {
                        self.state = RunState::PatchComputed;
                        RunOutput::Print(report.dry_run_report(self.account.as_str()))
                    },
                    _ => RunOutput::Nothing,
                },
                RunInput::EngineFailed(why) => {
                    self.state = RunState::Aborted;
                    RunOutput::Abort(CommandError::Engine(why))
                },
                _ => RunOutput::Nothing,
            },
            RunState::Running => match input {
                RunInput::Event(e) => match self.mode {
                    RunMode::LiveProgress => {
                        let steps = self.progress.route(&e);
                        RunOutput::Draw(steps)
                    },
                    _ => RunOutput::Nothing,
                },
                RunInput::EngineDone(report) => {
                    self.state = RunState::Completed;
                    let json = match self.mode {
                        RunMode::LiveJson => true,
                        _ => false,
                    };
                    RunOutput::Print(report.live_report(self.account.as_str(), json))
                },
                RunInput::EngineFailed(why) => {
                    self.state = RunState::Aborted;
                    RunOutput::Abort(CommandError::Engine(why))
                },
                _ => RunOutput::Nothing,
            },
            RunState::PatchComputed => match input {
                RunInput::Printed => {
                    self.state = RunState::Reported;
                    RunOutput::Nothing
                },
                _ => RunOutput::Nothing,
            },
            RunState::Completed => match input {
                RunInput::Printed => {
                    self.state = RunState::Reported;
                    RunOutput::Nothing
                },
                _ => RunOutput::Nothing,
            },
            RunState::Reported => RunOutput::Nothing,
            RunState::Aborted => RunOutput::Nothing,
        }
    }
}

/// A run that is over stays as it is and asks for nothing, whatever it is
/// told.
pub proof fn lemma_terminal_state_absorbs(s: SyncRunView, input: RunInputView)
    requires
        s.state.is_terminal(),
    ensures
        spec_step(s, input) == (s, RunOutputView::Nothing),
{
}

/// The engine is built once both backends are instantiated, and at no other
/// point of a run.
pub proof fn lemma_engine_built_after_backends(s: SyncRunView, input: RunInputView)
    ensures
        spec_step(s, input).1 is StartEngine <==> s.state == RunState::Resolved
            && input is BackendsBuilt,
        spec_step(s, input).1 is StartEngine ==> spec_step(s, input).0.state
            == RunState::BackendsInstantiated,
{
}

/// A run ends with a failure exactly where a backend could not be
/// instantiated or the engine failed as a whole; the failure names the side
/// of the backend.
pub proof fn lemma_abort_is_by_failure(s: SyncRunView, input: RunInputView)
    requires
        !s.state.is_terminal(),
    ensures
        spec_step(s, input).0.state == RunState::Aborted <==> spec_step(s, input).1 is Abort,
        spec_step(s, input).1 is Abort <==> (s.state == RunState::Resolved
            && input is BackendFailed) || ((s.state == RunState::BackendsInstantiated || s.state
            == RunState::Running) && input is EngineFailed),
        input matches RunInputView::BackendFailed(side, why) ==> (s.state == RunState::Resolved
            ==> spec_step(s, input).1 == RunOutputView::Abort(
            CommandErrorView::BackendInstantiation(side, why),
        )),
{
}

/// Progress is drawn in a live run for a reader and in no other run, and a
/// display within its scales stays within them.
pub proof fn lemma_drawing_is_for_readers(s: SyncRunView, input: RunInputView)
    requires
        s.progress.wf(),
    ensures
        spec_step(s, input).1 is Draw ==> s.mode == RunMode::LiveProgress,
        spec_step(s, input).0.progress.wf(),
        spec_step(s, input).0.mode == s.mode,
        spec_step(s, input).0.account == s.account,
{
    match input {
        RunInputView::Event(e) => {
            crate::sync::progress::lemma_route_keeps_wf(s.progress, e);
        },
        _ => {},
    }
}

/// When the engine of a live run is done, the run is completed and its
/// report is printed, ending with the line of the completed run, whether or
/// not any change failed.
pub proof fn lemma_completed_run_is_reported(s: SyncRunView, report: SyncReportView)
    requires
        s.state == RunState::Running,
    ensures
        spec_step(s, RunInputView::EngineDone(report)).0.state == RunState::Completed,
        spec_step(s, RunInputView::EngineDone(report)).1 matches RunOutputView::Print(items)
            && items.len() >= 1 && items.last() == crate::printer::out(
            crate::sync::report::success_line(s.account),
        ),
        spec_step(
            spec_step(s, RunInputView::EngineDone(report)).0,
            RunInputView::Printed,
        ).0.state == RunState::Reported,
{
}

/// When the engine of a dry run is done, the planned changes are printed,
/// ending with the number of the folder changes and the email changes
/// together.
pub proof fn lemma_dry_run_is_reported(s: SyncRunView, report: SyncReportView)
    requires
        s.state == RunState::BackendsInstantiated,
        s.mode == RunMode::DryRun,
    ensures
        spec_step(s, RunInputView::EngineDone(report)).0.state == RunState::PatchComputed,
        spec_step(s, RunInputView::EngineDone(report)).1 matches RunOutputView::Print(items)
            && items.len() >= 1 && items.last() == crate::printer::out(
            crate::sync::report::estimate_line(
                s.account,
                report.folder.len() + report.email.len(),
            ),
        ),
{
}

} // verus!
