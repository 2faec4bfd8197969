//! The two sides of a synchronization and the kinds of backend a side can be.

pub mod config;
pub mod plan;
pub mod wizard;

use vstd::prelude::*;
use vstd::string::StringExecFns;

verus! {

/// The position of a backend in an account: purely positional, neither side
/// is a source or a target.
#[derive(Clone, Copy, Debug, PartialEq, Eq, Structural)]
pub enum BackendSource {
    Left,
    Right,
}

impl BackendSource {
    pub fn is_left(&self) -> (r: bool)
        ensures
            r == (*self == BackendSource::Left),
    {
        match self {
            BackendSource::Left => true,
            BackendSource::Right => false,
        }
    }

    pub fn is_right(&self) -> (r: bool)
        ensures
            r == (*self == BackendSource::Right),
    {
        match self {
            BackendSource::Left => false,
            BackendSource::Right => true,
        }
    }

    /// The lower-case word used for this side inside messages.
    pub open spec fn spec_side_name(self) -> Seq<char> {
        match self {
            BackendSource::Left => "left"@,
            BackendSource::Right => "right"@,
        }
    }

    pub fn side_name(&self) -> (r: String)
        ensures
            r@ == self.spec_side_name(),
    {
        match self {
            BackendSource::Left => String::from_str("left"),
            BackendSource::Right => String::from_str("right"),
        }
    }

    /// The capitalized word used for this side at the start of a prompt.
    pub open spec fn spec_title(self) -> Seq<char> {
        match self {
            BackendSource::Left => "Left"@,
            BackendSource::Right => "Right"@,
        }
    }

    pub fn title(&self) -> (r: String)
        ensures
            r@ == self.spec_title(),
    {
        match self {
            BackendSource::Left => String::from_str("Left"),
            BackendSource::Right => String::from_str("Right"),
        }
    }

    /// The text shown for this side where a user picks its backend.
    pub open spec fn spec_display(self) -> Seq<char> {
        match self {
            BackendSource::Left => "Left backend source"@,
            BackendSource::Right => "Right backend source"@,
        }
    }

    pub fn display(&self) -> (r: String)
        ensures
            r@ == self.spec_display(),
    {
        match self {
            BackendSource::Left => String::from_str("Left backend source"),
            BackendSource::Right => String::from_str("Right backend source"),
        }
    }
}

/// The kinds of backend that can be configured on a side.
#[derive(Clone, Copy, Debug, PartialEq, Eq, Structural)]
pub enum BackendKind {
    Imap,
    Maildir,
    Notmuch,
}

impl BackendKind {
    /// The name of the kind as it is shown to a user.
    pub open spec fn spec_display(self) -> Seq<char> {
        match self {
            BackendKind::Imap => "IMAP"@,
            BackendKind::Maildir => "Maildir"@,
            BackendKind::Notmuch => "Notmuch"@,
        }
    }

    pub fn display(&self) -> (r: String)
        ensures
            r@ == self.spec_display(),
    {
        match self {
            BackendKind::Imap => String::from_str("IMAP"),
            BackendKind::Maildir => String::from_str("Maildir"),
            BackendKind::Notmuch => String::from_str("Notmuch"),
        }
    }

    /// Only a protocol client talks to a remote server through a pool of
    /// sessions; the local stores have no such pool.
    pub open spec fn spec_is_protocol_client(self) -> bool {
        self == BackendKind::Imap
    }

    pub fn is_protocol_client(&self) -> (r: bool)
        ensures
            r == self.spec_is_protocol_client(),
    {
        match self {
            BackendKind::Imap => true,
            _ => false,
        }
    }
}

} // verus!
