//! The command line: its global options and its commands.

use vstd::prelude::*;
use vstd::string::StringExecFns;
use crate::account::command::configure::ConfigureAccountCommand;
use crate::account::command::doctor::DoctorAccountCommand;
use crate::account::command::sync::SynchronizeAccountCommand;
use crate::manual::command::GenerateManualCommand;
use crate::output::{ColorFmt, OutputFmt};

verus! {

/// How much is logged, from nothing to everything.
#[derive(Clone, Copy, Debug, PartialEq, Eq, Structural)]
pub enum LevelFilter {
    Off,
    Error,
    Warn,
    Info,
    Debug,
    Trace,
}

impl LevelFilter {
    /// The place of a level in the order from nothing to everything.
    pub open spec fn rank(self) -> nat {
        match self {
            LevelFilter::Off => 0,
            LevelFilter::Error => 1,
            LevelFilter::Warn => 2,
            LevelFilter::Info => 3,
            LevelFilter::Debug => 4,
            LevelFilter::Trace => 5,
        }
    }

    fn rank_of(&self) -> (r: u8)
        ensures
            r == self.rank(),
    {
        match self {
            LevelFilter::Off => 0,
            LevelFilter::Error => 1,
            LevelFilter::Warn => 2,
            LevelFilter::Info => 3,
            LevelFilter::Debug => 4,
            LevelFilter::Trace => 5,
        }
    }
}

/// The commands.
#[derive(Clone, Debug, PartialEq, Eq)]
pub enum NeverestCommand {
    Doctor(DoctorAccountCommand),
    Configure(ConfigureAccountCommand),
    Synchronize(SynchronizeAccountCommand),
    Manual(GenerateManualCommand),
}

impl NeverestCommand {
    /// Whether the command works on an account, so that the configuration is
    /// read before it runs.
    pub open spec fn spec_needs_config(&self) -> bool {
        self is Doctor || self is Configure || self is Synchronize
    }

    #[verifier::when_used_as_spec(spec_needs_config)]
    pub fn needs_config(&self) -> (r: bool)
        ensures
            r == self.spec_needs_config(),
    {
        match self {
            NeverestCommand::Doctor(_) => true,
            NeverestCommand::Configure(_) => true,
            NeverestCommand::Synchronize(_) => true,
            NeverestCommand::Manual(_) => false,
        }
    }
}

/// The command line.
#[derive(Clone, Debug, PartialEq, Eq)]
pub struct Cli {
    pub command: NeverestCommand,
    /// The paths of the configuration files, where the default ones are not
    /// meant. Later paths are merged into the first.
    pub config_paths: Vec<String>,
    /// The output format.
    pub output: OutputFmt,
    /// When colors are used.
    pub color: ColorFmt,
    /// Enable logs with spantrace.
    pub debug: bool,
    /// Enable verbose logs with backtrace.
    pub trace: bool,
}

/// The level that the flags set where the environment sets none: debug
/// before trace.
pub open spec fn spec_log_level(debug: bool, trace: bool, set_by_environment: bool) -> Option<
    LevelFilter,
> {
    if set_by_environment {
        None
    } else if debug {
        Some(LevelFilter::Debug)
    } else if trace {
        Some(LevelFilter::Trace)
    } else {
        None
    }
}

/// The hints that go with a failure: each names the flag that would have
/// logged more than the level in force did.
pub open spec fn spec_notes(filter: LevelFilter) -> Seq<Seq<char>> {
    (if filter.rank() < LevelFilter::Debug.rank() {
        seq!["Run with --debug to enable logs with spantrace."@]
    } else {
        Seq::empty()
    }) + (if filter.rank() < LevelFilter::Trace.rank() {
        seq!["Run with --trace to enable verbose logs with backtrace."@]
    } else {
        Seq::empty()
    })
}

impl Cli {
    /// The log level that the flags ask for, or nothing where the
    /// environment has set one or no flag is given.
    pub fn log_level(&self, set_by_environment: bool) -> (r: Option<LevelFilter>)
        ensures
            r == spec_log_level(self.debug, self.trace, set_by_environment),
    {
        if set_by_environment {
            None
        } else if self.debug {
            Some(LevelFilter::Debug)
        } else if self.trace {
            Some(LevelFilter::Trace)
        } else {
            None
        }
    }

    /// The hints that go with a failure under the level in force.
    pub fn notes(filter: LevelFilter) -> (r: Vec<String>)
        ensures
            crate::manual::command::texts_view(r@) == spec_notes(filter),
    {
        let mut notes: Vec<String> = Vec::new();
        if filter.rank_of() < 4 {
            notes.push(String::from_str("Run with --debug to enable logs with spantrace."));
        }
        if filter.rank_of() < 5 {
            notes.push(
                String::from_str("Run with --trace to enable verbose logs with backtrace."),
            );
        }
        notes
    }
}

} // verus!
