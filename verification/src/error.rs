//! The failures that end a run, and their classes.

use vstd::prelude::*;
use vstd::string::StringExecFns;
use crate::backend::BackendSource;
use crate::text::concat3;

verus! {

/// The classes of failure that end a run. A change that fails to apply is no
/// such failure: it is recorded beside the change and the run goes on.
#[derive(Clone, Copy, Debug, PartialEq, Eq, Structural)]
pub enum ErrorClass {
    /// The configuration does not say what is needed: nothing was attempted.
    Configuration,
    /// A side could not be instantiated: no synchronization was attempted.
    BackendInstantiation,
    /// The engine gave up on the whole run.
    Engine,
    /// The result could not be written.
    Output,
}

/// A failure that ends a run.
#[derive(Debug, PartialEq, Eq)]
pub enum CommandError {
    /// No account name was given and no account is marked as default.
    DefaultAccountNotFound,
    /// The given account name is not in the configuration.
    AccountNotFound(String),
    /// The given side has no backend.
    BackendNotConfigured(BackendSource),
    /// The backend of the given side could not be reached or opened.
    BackendInstantiation(BackendSource, String),
    /// The engine failed as a whole.
    Engine(String),
    /// The structured output could not be produced.
    CannotWriteJson,
    /// There is no configuration file and nothing to make one with.
    ConfigNotFound,
}

/// A [`CommandError`] as a mathematical value.
pub enum CommandErrorView {
    DefaultAccountNotFound,
    AccountNotFound(Seq<char>),
    BackendNotConfigured(BackendSource),
    BackendInstantiation(BackendSource, Seq<char>),
    Engine(Seq<char>),
    CannotWriteJson,
    ConfigNotFound,
}

impl View for CommandError {
    type V = CommandErrorView;

    open spec fn view(&self) -> CommandErrorView {
        match self {
            CommandError::DefaultAccountNotFound => CommandErrorView::DefaultAccountNotFound,
            CommandError::AccountNotFound(name) => CommandErrorView::AccountNotFound(name@),
            CommandError::BackendNotConfigured(side) => CommandErrorView::BackendNotConfigured(
                *side,
            ),
            CommandError::BackendInstantiation(side, why) => CommandErrorView::BackendInstantiation(
                *side,
                why@,
            ),
            CommandError::Engine(why) => CommandErrorView::Engine(why@),
            CommandError::CannotWriteJson => CommandErrorView::CannotWriteJson,
            CommandError::ConfigNotFound => CommandErrorView::ConfigNotFound,
        }
    }
}

impl Clone for CommandError {
    fn clone(&self) -> (r: Self)
        ensures
            r@ == self@,
    {
        match self {
            CommandError::DefaultAccountNotFound => CommandError::DefaultAccountNotFound,
            CommandError::AccountNotFound(name) => CommandError::AccountNotFound(name.clone()),
            CommandError::BackendNotConfigured(side) => CommandError::BackendNotConfigured(*side),
            CommandError::BackendInstantiation(side, why) => CommandError::BackendInstantiation(
                *side,
                why.clone(),
            ),
            CommandError::Engine(why) => CommandError::Engine(why.clone()),
            CommandError::CannotWriteJson => CommandError::CannotWriteJson,
            CommandError::ConfigNotFound => CommandError::ConfigNotFound,
        }
    }
}

impl CommandErrorView {
    pub open spec fn class(self) -> ErrorClass {
        match self {
            CommandErrorView::DefaultAccountNotFound => ErrorClass::Configuration,
            CommandErrorView::AccountNotFound(_) => ErrorClass::Configuration,
            CommandErrorView::BackendNotConfigured(_) => ErrorClass::Configuration,
            CommandErrorView::BackendInstantiation(_, _) => ErrorClass::BackendInstantiation,
            CommandErrorView::Engine(_) => ErrorClass::Engine,
            CommandErrorView::CannotWriteJson => ErrorClass::Output,
            CommandErrorView::ConfigNotFound => ErrorClass::Configuration,
        }
    }

    /// The side that a failure names, if it names one.
    pub open spec fn side(self) -> Option<BackendSource> {
        match self {
            CommandErrorView::BackendNotConfigured(side) => Some(side),
            CommandErrorView::BackendInstantiation(side, _) => Some(side),
            _ => None,
        }
    }

    pub open spec fn message(self) -> Seq<char> {
        match self {
            CommandErrorView::DefaultAccountNotFound => "cannot find default account"@,
            CommandErrorView::AccountNotFound(name) => "cannot find account "@ + name,
            CommandErrorView::BackendNotConfigured(side) => "no "@ + side.spec_side_name()
                + " backend configured"@,
            CommandErrorView::BackendInstantiation(side, why) => "cannot build "@
                + side.spec_side_name() + " backend: "@ + why,
            CommandErrorView::Engine(why) => "cannot synchronize: "@ + why,
            CommandErrorView::CannotWriteJson => "cannot write json to writer"@,
            CommandErrorView::ConfigNotFound => "cannot find config file from default paths"@,
        }
    }
}

impl CommandError {
    pub fn class(&self) -> (r: ErrorClass)
        ensures
            r == self@.class(),
    {
        match self {
            CommandError::DefaultAccountNotFound => ErrorClass::Configuration,
            CommandError::AccountNotFound(_) => ErrorClass::Configuration,
            CommandError::BackendNotConfigured(_) => ErrorClass::Configuration,
            CommandError::BackendInstantiation(_, _) => ErrorClass::BackendInstantiation,
            CommandError::Engine(_) => ErrorClass::Engine,
            CommandError::CannotWriteJson => ErrorClass::Output,
            CommandError::ConfigNotFound => ErrorClass::Configuration,
        }
    }

    /// The side that the failure names, if it names one.
    pub fn side(&self) -> (r: Option<BackendSource>)
        ensures
            r == self@.side(),
    {
        match self {
            CommandError::BackendNotConfigured(side) => Some(*side),
            CommandError::BackendInstantiation(side, _) => Some(*side),
            _ => None,
        }
    }

    /// The text of the failure as it is shown to a user.
    pub fn message(&self) -> (r: String)
        ensures
            r@ == self@.message(),
    {
        match self {
            CommandError::DefaultAccountNotFound => String::from_str("cannot find default account"),
            CommandError::AccountNotFound(name) => {
                let mut r = String::from_str("cannot find account ");
                r.append(name.as_str());
                r
            },
            CommandError::BackendNotConfigured(side) => {
                let word = side.side_name();
                concat3("no ", word.as_str(), " backend configured")
            },
            CommandError::BackendInstantiation(side, why) => {
                let word = side.side_name();
                let mut r = concat3("cannot build ", word.as_str(), " backend: ");
                r.append(why.as_str());
                r
            },
            CommandError::Engine(why) => {
                let mut r = String::from_str("cannot synchronize: ");
                r.append(why.as_str());
                r
            },
            CommandError::CannotWriteJson => String::from_str("cannot write json to writer"),
            CommandError::ConfigNotFound => String::from_str(
                "cannot find config file from default paths",
            ),
        }
    }
}

} // verus!
