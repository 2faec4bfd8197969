//! The events that the engine emits during a live run.

use vstd::prelude::*;

verus! {

/// One event of a live run. Events that mark the end of a phase come once
/// and before any event of the next phase; the events of single changes come
/// in no fixed order across folders.
#[derive(Clone, Debug, PartialEq, Eq)]
pub enum SyncEvent {
    /// The folders of both sides are listed.
    ListedAllFolders,
    /// Every folder change is applied.
    ProcessedAllFolderHunks,
    /// The email changes are known: for each folder, how many are pending.
    GeneratedEmailPatch(Vec<(String, usize)>),
    /// One email change is applied: its folder, and the change as text.
    ProcessedEmailHunk(String, String),
    /// Every email change is applied.
    ProcessedAllEmailHunks,
    /// The folders are expunged: the live run is over.
    ExpungedAllFolders,
    /// Any other sign of life.
    Other,
}

/// A [`SyncEvent`] as a mathematical value.
pub enum SyncEventView {
    ListedAllFolders,
    ProcessedAllFolderHunks,
    GeneratedEmailPatch(Seq<(Seq<char>, usize)>),
    ProcessedEmailHunk(Seq<char>, Seq<char>),
    ProcessedAllEmailHunks,
    ExpungedAllFolders,
    Other,
}

/// The pending changes by folder, as a mathematical value.
pub open spec fn counts_view(p: Seq<(String, usize)>) -> Seq<(Seq<char>, usize)> {
    Seq::new(p.len(), |i: int| (p[i].0@, p[i].1))
}

impl View for SyncEvent {
    type V = SyncEventView;

    open spec fn view(&self) -> SyncEventView {
        match self {
            SyncEvent::ListedAllFolders => SyncEventView::ListedAllFolders,
            SyncEvent::ProcessedAllFolderHunks => SyncEventView::ProcessedAllFolderHunks,
            SyncEvent::GeneratedEmailPatch(p) => SyncEventView::GeneratedEmailPatch(
                counts_view(p@),
            ),
            SyncEvent::ProcessedEmailHunk(folder, hunk) => SyncEventView::ProcessedEmailHunk(
                folder@,
                hunk@,
            ),
            SyncEvent::ProcessedAllEmailHunks => SyncEventView::ProcessedAllEmailHunks,
            SyncEvent::ExpungedAllFolders => SyncEventView::ExpungedAllFolders,
            SyncEvent::Other => SyncEventView::Other,
        }
    }
}

/// The number of pending changes over all folders.
pub open spec fn total_changes(p: Seq<(Seq<char>, usize)>) -> nat
    decreases p.len(),
{
    if p.len() == 0 {
        0
    } else {
        total_changes(p.drop_last()) + p.last().1 as nat
    }
}

} // verus!
