//! The account name argument.

use vstd::prelude::*;

verus! {

/// The name of the account that a command is about. Where it is omitted the
/// account marked as default is meant.
#[derive(Clone, Debug, PartialEq, Eq)]
pub struct OptionalAccountNameArg {
    pub name: Option<String>,
}

impl OptionalAccountNameArg {
    /// The given name as a mathematical value.
    pub open spec fn spec_name(&self) -> Option<Seq<char>> {
        match self.name {
            Some(n) => Some(n@),
            None => None,
        }
    }

    /// The given name, borrowed.
    pub fn as_deref(&self) -> (r: Option<&str>)
        ensures
            match r {
                Some(n) => self.spec_name() == Some(n@),
                None => self.spec_name() is None,
            },
    {
        match &self.name {
            Some(n) => Some(n.as_str()),
            None => None,
        }
    }
}

} // verus!
