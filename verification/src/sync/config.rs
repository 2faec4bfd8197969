//! Folder selection, envelope filters and the permissions of a side.

use vstd::prelude::*;

verus! {

/// The set of names that a list of folder names stands for.
pub open spec fn names(v: Seq<String>) -> Set<Seq<char>> {
    Set::new(|n: Seq<char>| exists|i: int| 0 <= i < v.len() && (#[trigger] v[i])@ == n)
}

/// Two lists that hold the same names at the same places stand for the same
/// set.
pub proof fn lemma_names_pointwise(a: Seq<String>, b: Seq<String>)
    requires
        a.len() == b.len(),
        forall|i: int| 0 <= i < a.len() ==> (#[trigger] a[i])@ == b[i]@,
    ensures
        names(a) == names(b),
{
    assert forall|n: Seq<char>| names(a).contains(n) == names(b).contains(n) by {
        if names(a).contains(n) {
            let i = choose|i: int| 0 <= i < a.len() && (#[trigger] a[i])@ == n;
            assert(b[i]@ == n);
        }
        if names(b).contains(n) {
            let i = choose|i: int| 0 <= i < b.len() && (#[trigger] b[i])@ == n;
            assert(a[i]@ == n);
        }
    }
}

/// Copies a list of folder names.
pub fn clone_names(v: &Vec<String>) -> (r: Vec<String>)
    ensures
        r@.len() == v@.len(),
        forall|i: int| 0 <= i < v@.len() ==> (#[trigger] r@[i])@ == v@[i]@,
        names(r@) == names(v@),
{
    let mut r: Vec<String> = Vec::new();
    let mut i: usize = 0;
    while i < v.len()
        invariant
            i <= v.len(),
            r@.len() == i,
            forall|j: int| 0 <= j < i ==> (#[trigger] r@[j])@ == v@[j]@,
        decreases v.len() - i,
    {
        r.push(v[i].clone());
        i = i + 1;
    }
    proof {
        lemma_names_pointwise(r@, v@);
    }
    r
}

/// Which folders a synchronization covers, as a mathematical value.
pub enum FolderSelection {
    /// Every folder.
    All,
    /// Only the folders whose name is in the set.
    Include(Set<Seq<char>>),
    /// Every folder but those whose name is in the set.
    Exclude(Set<Seq<char>>),
}

impl FolderSelection {
    /// Whether a folder of the given name takes part.
    pub open spec fn selects(self, folder: Seq<char>) -> bool {
        match self {
            FolderSelection::All => true,
            FolderSelection::Include(s) => s.contains(folder),
            FolderSelection::Exclude(s) => !s.contains(folder),
        }
    }
}

/// The folder synchronization strategy. The order of the names and their
/// repetition carry no meaning: a list stands for the set of its names.
#[derive(Debug)]
pub enum FolderSyncStrategy {
    All,
    Include(Vec<String>),
    Exclude(Vec<String>),
}

impl View for FolderSyncStrategy {
    type V = FolderSelection;

    open spec fn view(&self) -> FolderSelection {
        match self {
            FolderSyncStrategy::All => FolderSelection::All,
            FolderSyncStrategy::Include(v) => FolderSelection::Include(names(v@)),
            FolderSyncStrategy::Exclude(v) => FolderSelection::Exclude(names(v@)),
        }
    }
}

impl Clone for FolderSyncStrategy {
    fn clone(&self) -> (r: Self)
        ensures
            r@ == self@,
    {
        match self {
            FolderSyncStrategy::All => FolderSyncStrategy::All,
            FolderSyncStrategy::Include(v) => FolderSyncStrategy::Include(clone_names(v)),
            FolderSyncStrategy::Exclude(v) => FolderSyncStrategy::Exclude(clone_names(v)),
        }
    }
}

impl Default for FolderSyncStrategy {
    /// Without any setting every folder is synchronized.
    fn default() -> (r: Self)
        ensures
            r@ == FolderSelection::All,
    {
        FolderSyncStrategy::All
    }
}

impl FolderSyncStrategy {
    /// Whether a folder of the given name takes part in the synchronization.
    pub fn matches(&self, folder: &str) -> (r: bool)
        ensures
            r == self@.selects(folder@),
    {
        match self {
            FolderSyncStrategy::All => true,
            FolderSyncStrategy::Include(v) => contains_name(v, folder),
            FolderSyncStrategy::Exclude(v) => !contains_name(v, folder),
        }
    }
}

/// Whether a list of folder names holds the given name.
pub fn contains_name(v: &Vec<String>, name: &str) -> (r: bool)
    ensures
        r == names(v@).contains(name@),
{
    let mut i: usize = 0;
    while i < v.len()
        invariant
            i <= v.len(),
            forall|j: int| 0 <= j < i ==> (#[trigger] v@[j])@ != name@,
        decreases v.len() - i,
    {
        if same_text(v[i].as_str(), name) {
            return true;
        }
        i = i + 1;
    }
    false
}

/// Whether two pieces of text are the same.
pub fn same_text(a: &str, b: &str) -> (r: bool)
    ensures
        r == (a@ == b@),
{
    let x = a.to_owned();
    let y = b.to_owned();
    x == y
}

/// A calendar day, as year, month and day of the month.
#[derive(Clone, Copy, Debug, PartialEq, Eq, Structural)]
pub struct Date {
    pub year: i32,
    pub month: u32,
    pub day: u32,
}

/// The time window of the envelopes that are synchronized.
#[derive(Clone, Copy, Debug, PartialEq, Eq, Structural)]
pub struct EnvelopeSyncFilters {
    pub before: Option<Date>,
    pub after: Option<Date>,
}

impl Default for EnvelopeSyncFilters {
    /// Without any setting the window is open on both ends.
    fn default() -> (r: Self)
        ensures
            r == (EnvelopeSyncFilters { before: None, after: None }),
    {
        EnvelopeSyncFilters { before: None, after: None }
    }
}

/// Which folder changes may be applied on a side.
#[derive(Clone, Copy, Debug, PartialEq, Eq, Structural)]
pub struct FolderSyncPermissions {
    pub create: bool,
    pub delete: bool,
}

impl Default for FolderSyncPermissions {
    /// Without any setting every folder change is allowed.
    fn default() -> (r: Self)
        ensures
            r == (FolderSyncPermissions { create: true, delete: true }),
    {
        FolderSyncPermissions { create: true, delete: true }
    }
}

/// Which flag changes may be applied on a side.
#[derive(Clone, Copy, Debug, PartialEq, Eq, Structural)]
pub struct FlagSyncPermissions {
    pub update: bool,
}

impl Default for FlagSyncPermissions {
    /// Without any setting flags may be updated.
    fn default() -> (r: Self)
        ensures
            r == (FlagSyncPermissions { update: true }),
    {
        FlagSyncPermissions { update: true }
    }
}

/// Which message changes may be applied on a side.
#[derive(Clone, Copy, Debug, PartialEq, Eq, Structural)]
pub struct MessageSyncPermissions {
    pub create: bool,
    pub delete: bool,
}

impl Default for MessageSyncPermissions {
    /// Without any setting every message change is allowed.
    fn default() -> (r: Self)
        ensures
            r == (MessageSyncPermissions { create: true, delete: true }),
    {
        MessageSyncPermissions { create: true, delete: true }
    }
}

} // verus!
