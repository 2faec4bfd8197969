//! The progress display of a live run.
//!
//! The display is one top indicator and one sub-indicator for each folder
//! that has email changes pending. Each event of the engine moves the display
//! to its next state and yields the drawing steps that show the move. The
//! display draws nothing itself: the caller performs the steps, and a step
//! that fails to draw changes nothing here.
//!
//! Positions are counted without bound: every applied change advances them
//! by one. What is read of a position is the count, or the largest number
//! that can be read where the count has passed it.

use vstd::arithmetic::overflow::CheckedU128;
use vstd::prelude::*;
use vstd::string::StringExecFns;
use crate::sync::config::same_text;
use crate::sync::event::{counts_view, total_changes, SyncEvent, SyncEventView};

verus! {

/// The scale and the position of the indicator of one folder, as they are
/// read.
#[derive(Clone, Copy, Debug, PartialEq, Eq, Structural)]
pub struct SubIndicator {
    /// The number of changes pending for the folder when it was made.
    pub length: u128,
    /// The number of those changes that are applied.
    pub position: u128,
}

impl SubIndicator {
    /// An indicator is done when its position has reached its scale.
    pub open spec fn spec_is_done(&self) -> bool {
        self.position == self.length
    }

    #[verifier::when_used_as_spec(spec_is_done)]
    pub fn is_done(&self) -> (r: bool)
        ensures
            r == self.spec_is_done(),
    {
        self.position == self.length
    }
}

/// A count as it is read: itself, or the largest number that can be read
/// where the count has passed it.
pub open spec fn counted(n: nat) -> u128 {
    if n <= u128::MAX {
        n as u128
    } else {
        u128::MAX
    }
}

/// The indicator of one folder as a mathematical value.
pub struct SubView {
    /// The number of changes pending for the folder when it was made.
    pub length: nat,
    /// The number of changes of the folder that are applied since.
    pub position: nat,
}

impl SubView {
    /// An indicator is done when its position has reached its scale.
    pub open spec fn is_done(self) -> bool {
        self.position == self.length
    }

    /// The scale of an indicator is the number of the changes of a folder
    /// that has some.
    pub open spec fn wf(self) -> bool {
        1 <= self.length <= usize::MAX
    }

    /// The indicator as it is read.
    pub open spec fn readout(self) -> SubIndicator {
        SubIndicator { length: counted(self.length), position: counted(self.position) }
    }
}

/// One drawing step.
#[derive(Clone, Debug, PartialEq, Eq)]
pub enum ProgressAction {
    /// Sets the message of the top indicator.
    SetMessage(String),
    /// Sets the scale of the top indicator.
    SetLength(u128),
    /// Sets the position of the top indicator.
    SetPosition(u128),
    /// Advances the top indicator by one.
    Advance,
    /// Redraws the top indicator as it is.
    Tick,
    /// Finalizes the top indicator and clears it.
    Finish,
    /// Makes the indicator of a folder, with its scale, at position zero.
    AddSub(String, u128),
    /// Advances the indicator of a folder by one.
    AdvanceSub(String),
    /// Sets the message of the indicator of a folder.
    SetSubMessage(String, String),
    /// Gives the indicator of a folder the look of a finished one.
    MarkSubDone(String),
    /// Finalizes and clears the indicator of every folder.
    ClearSubs,
}

/// A [`ProgressAction`] as a mathematical value.
pub enum ProgressActionView {
    SetMessage(Seq<char>),
    SetLength(u128),
    SetPosition(u128),
    Advance,
    Tick,
    Finish,
    AddSub(Seq<char>, u128),
    AdvanceSub(Seq<char>),
    SetSubMessage(Seq<char>, Seq<char>),
    MarkSubDone(Seq<char>),
    ClearSubs,
}

impl View for ProgressAction {
    type V = ProgressActionView;

    open spec fn view(&self) -> ProgressActionView {
        match self {
            ProgressAction::SetMessage(m) => ProgressActionView::SetMessage(m@),
            ProgressAction::SetLength(n) => ProgressActionView::SetLength(*n),
            ProgressAction::SetPosition(n) => ProgressActionView::SetPosition(*n),
            ProgressAction::Advance => ProgressActionView::Advance,
            ProgressAction::Tick => ProgressActionView::Tick,
            ProgressAction::Finish => ProgressActionView::Finish,
            ProgressAction::AddSub(f, n) => ProgressActionView::AddSub(f@, *n),
            ProgressAction::AdvanceSub(f) => ProgressActionView::AdvanceSub(f@),
            ProgressAction::SetSubMessage(f, m) => ProgressActionView::SetSubMessage(f@, m@),
            ProgressAction::MarkSubDone(f) => ProgressActionView::MarkSubDone(f@),
            ProgressAction::ClearSubs => ProgressActionView::ClearSubs,
        }
    }
}

/// A list of drawing steps as a mathematical value.
pub open spec fn actions_view(v: Seq<ProgressAction>) -> Seq<ProgressActionView> {
    Seq::new(v.len(), |i: int| v[i]@)
}

/// The state of the display as a mathematical value.
pub struct ProgressView {
    /// The scale of the top indicator.
    pub length: nat,
    /// The position of the top indicator.
    pub position: nat,
    /// The message of the top indicator.
    pub message: Seq<char>,
    /// Whether the top indicator is finalized.
    pub finished: bool,
    /// The indicators of the folders, by folder name.
    pub subs: Map<Seq<char>, SubView>,
}

impl ProgressView {
    pub open spec fn wf(self) -> bool {
        forall|f: Seq<char>| self.subs.dom().contains(f) ==> (#[trigger] self.subs[f]).wf()
    }
}

/// The display before the first event.
pub open spec fn initial_view() -> ProgressView {
    ProgressView {
        length: 100,
        position: 0,
        message: "Listing folders…"@,
        finished: false,
        subs: Map::empty(),
    }
}

/// The indicators after those of the folders with pending changes are made.
/// A folder without pending changes gets none; a folder that has one already
/// gets a new one in its place.
pub open spec fn add_subs(subs: Map<Seq<char>, SubView>, p: Seq<(Seq<char>, usize)>) -> Map<
    Seq<char>,
    SubView,
>
    decreases p.len(),
{
    if p.len() == 0 {
        subs
    } else {
        let rest = add_subs(subs, p.drop_last());
        if p.last().1 > 0 {
            rest.insert(p.last().0, SubView { length: p.last().1 as nat, position: 0 })
        } else {
            rest
        }
    }
}

/// The step that makes the indicator of a folder, or nothing for a folder
/// without pending changes.
pub open spec fn add_sub_action(entry: (Seq<char>, usize)) -> Option<ProgressActionView> {
    if entry.1 > 0 {
        Some(ProgressActionView::AddSub(entry.0, entry.1 as u128))
    } else {
        None
    }
}

/// The message of a sub-indicator after a change that was not its last.
pub open spec fn sub_message(hunk: Seq<char>) -> Seq<char> {
    hunk + "…"@
}

/// The state of the display after an event. An applied change advances the
/// top indicator by one, whatever its folder, and the indicator of its
/// folder by one, where the folder has one.
pub open spec fn spec_route(s: ProgressView, e: SyncEventView) -> ProgressView {
    match e {
        SyncEventView::ListedAllFolders => ProgressView {
            message: "Synchronizing folders…"@,
            ..s
        },
        SyncEventView::ProcessedAllFolderHunks => ProgressView {
            message: "Listing envelopes…"@,
            ..s
        },
        SyncEventView::GeneratedEmailPatch(p) => ProgressView {
            length: total_changes(p),
            position: 0,
            message: "Synchronizing emails…"@,
            subs: add_subs(s.subs, p),
            ..s
        },
        SyncEventView::ProcessedEmailHunk(folder, hunk) => ProgressView {
            position: s.position + 1,
            subs: if s.subs.dom().contains(folder) {
                s.subs.insert(
                    folder,
                    SubView { position: s.subs[folder].position + 1, ..s.subs[folder] },
                )
            } else {
                s.subs
            },
            ..s
        },
        SyncEventView::ProcessedAllEmailHunks => ProgressView {
            length: 100,
            position: 100,
            message: "Expunging folders…"@,
            subs: Map::empty(),
            ..s
        },
        SyncEventView::ExpungedAllFolders => ProgressView { finished: true, ..s },
        SyncEventView::Other => s,
    }
}

/// The drawing steps of the indicator of a folder for one applied change:
/// none where the folder has no indicator; else the advance, followed by the
/// finished look where the change was the last of the folder, and by the
/// change as message where it was not.
pub open spec fn sub_steps(s: ProgressView, folder: Seq<char>, hunk: Seq<char>) -> Seq<
    ProgressActionView,
> {
    if s.subs.dom().contains(folder) {
        if s.subs[folder].position + 1 == s.subs[folder].length {
            seq![ProgressActionView::AdvanceSub(folder), ProgressActionView::MarkSubDone(folder)]
        } else {
            seq![
                ProgressActionView::AdvanceSub(folder),
                ProgressActionView::SetSubMessage(folder, sub_message(hunk)),
            ]
        }
    } else {
        Seq::empty()
    }
}

/// The drawing steps that show the move of the display on an event.
pub open spec fn spec_steps(s: ProgressView, e: SyncEventView) -> Seq<ProgressActionView> {
    match e {
        SyncEventView::ListedAllFolders => seq![
            ProgressActionView::SetMessage("Synchronizing folders…"@),
        ],
        SyncEventView::ProcessedAllFolderHunks => seq![
            ProgressActionView::SetMessage("Listing envelopes…"@),
        ],
        SyncEventView::GeneratedEmailPatch(p) => seq![
            ProgressActionView::SetLength(counted(total_changes(p))),
            ProgressActionView::SetPosition(0),
            ProgressActionView::SetMessage("Synchronizing emails…"@),
        ] + p.filter_map(|entry: (Seq<char>, usize)| add_sub_action(entry)),
        SyncEventView::ProcessedEmailHunk(folder, hunk) => seq![ProgressActionView::Advance]
            + sub_steps(s, folder, hunk),
        SyncEventView::ProcessedAllEmailHunks => seq![
            ProgressActionView::ClearSubs,
            ProgressActionView::SetLength(100),
            ProgressActionView::SetPosition(100),
            ProgressActionView::SetMessage("Expunging folders…"@),
        ],
        SyncEventView::ExpungedAllFolders => seq![ProgressActionView::Finish],
        SyncEventView::Other => seq![ProgressActionView::Tick],
    }
}

/// The number of pending changes over all folders is at most the largest
/// count of a folder, taken once for each folder.
pub proof fn lemma_total_changes_bound(p: Seq<(Seq<char>, usize)>)
    ensures
        total_changes(p) <= p.len() * 0xffff_ffff_ffff_ffff,
    decreases p.len(),
{
    if p.len() > 0 {
        lemma_total_changes_bound(p.drop_last());
    }
}

/// The indicator of one folder as the display holds it.
struct Sub {
    folder: String,
    length: u128,
    position: CheckedU128,
}

impl Sub {
    spec fn model(self) -> SubView {
        SubView { length: self.length as nat, position: self.position@ }
    }
}

/// The indicators that a list of indicators stands for, by folder name.
spec fn subs_map(v: Seq<Sub>) -> Map<Seq<char>, SubView>
    decreases v.len(),
{
    if v.len() == 0 {
        Map::empty()
    } else {
        subs_map(v.drop_last()).insert(v.last().folder@, v.last().model())
    }
}

/// No folder is named twice in the list.
spec fn distinct_names(v: Seq<Sub>) -> bool {
    forall|i: int, j: int|
        0 <= i < j < v.len() ==> (#[trigger] v[i]).folder@ != (#[trigger] v[j]).folder@
}

proof fn lemma_subs_absent(v: Seq<Sub>, folder: Seq<char>)
    requires
        forall|i: int| 0 <= i < v.len() ==> (#[trigger] v[i]).folder@ != folder,
    ensures
        !subs_map(v).dom().contains(folder),
    decreases v.len(),
{
    if v.len() > 0 {
        lemma_subs_absent(v.drop_last(), folder);
    }
}

proof fn lemma_subs_lookup(v: Seq<Sub>, i: int)
    requires
        distinct_names(v),
        0 <= i < v.len(),
    ensures
        subs_map(v).dom().contains(v[i].folder@),
        subs_map(v)[v[i].folder@] == v[i].model(),
    decreases v.len(),
{
    if i < v.len() - 1 {
        lemma_subs_lookup(v.drop_last(), i);
    }
}

proof fn lemma_subs_present(v: Seq<Sub>, folder: Seq<char>) -> (i: int)
    requires
        subs_map(v).dom().contains(folder),
    ensures
        0 <= i < v.len(),
        v[i].folder@ == folder,
{
    if forall|i: int| 0 <= i < v.len() ==> (#[trigger] v[i]).folder@ != folder {
        lemma_subs_absent(v, folder);
        0
    } else {
        choose|i: int| 0 <= i < v.len() && (#[trigger] v[i]).folder@ == folder
    }
}

proof fn lemma_subs_update(v: Seq<Sub>, i: int, entry: Sub)
    requires
        distinct_names(v),
        0 <= i < v.len(),
        entry.folder@ == v[i].folder@,
    ensures
        subs_map(v.update(i, entry)) == subs_map(v).insert(entry.folder@, entry.model()),
        distinct_names(v.update(i, entry)),
    decreases v.len(),
{
    let w = v.update(i, entry);
    let rest = v.drop_last();
    assert forall|a: int, b: int| 0 <= a < b < w.len() implies (#[trigger] w[a]).folder@ != (
    #[trigger] w[b]).folder@ by {
        assert(w[a].folder@ == v[a].folder@);
        assert(w[b].folder@ == v[b].folder@);
    }
    if i < v.len() - 1 {
        lemma_subs_update(rest, i, entry);
        assert(w.drop_last() =~= rest.update(i, entry));
        assert(w.last() == v.last());
        assert(v[i].folder@ != v[v.len() - 1].folder@);
        assert(subs_map(w) =~= subs_map(v).insert(entry.folder@, entry.model()));
    } else {
        assert(w.drop_last() =~= rest);
        assert(subs_map(w) =~= subs_map(v).insert(entry.folder@, entry.model()));
    }
}

proof fn lemma_subs_push(v: Seq<Sub>, entry: Sub)
    requires
        distinct_names(v),
        forall|i: int| 0 <= i < v.len() ==> (#[trigger] v[i]).folder@ != entry.folder@,
    ensures
        subs_map(v.push(entry)) == subs_map(v).insert(entry.folder@, entry.model()),
        distinct_names(v.push(entry)),
{
    assert(v.push(entry).drop_last() =~= v);
}

proof fn lemma_subs_len(v: Seq<Sub>)
    requires
        distinct_names(v),
    ensures
        subs_map(v).dom().finite(),
        subs_map(v).dom().len() == v.len(),
    decreases v.len(),
{
    if v.len() > 0 {
        let rest = v.drop_last();
        lemma_subs_len(rest);
        lemma_subs_absent(rest, v.last().folder@);
    }
}

/// The progress display of a live run.
pub struct ProgressState {
    length: u128,
    position: CheckedU128,
    message: String,
    finished: bool,
    subs: Vec<Sub>,
}

impl View for ProgressState {
    type V = ProgressView;

    closed spec fn view(&self) -> ProgressView {
        ProgressView {
            length: self.length as nat,
            position: self.position@,
            message: self.message@,
            finished: self.finished,
            subs: subs_map(self.subs@),
        }
    }
}

fn find_sub(subs: &Vec<Sub>, folder: &str) -> (r: Option<usize>)
    ensures
        match r {
            Some(i) => i < subs@.len() && subs@[i as int].folder@ == folder@,
            None => forall|i: int|
                0 <= i < subs@.len() ==> (#[trigger] subs@[i]).folder@ != folder@,
        },
{
    let mut i: usize = 0;
    while i < subs.len()
        invariant
            i <= subs.len(),
            forall|j: int| 0 <= j < i ==> (#[trigger] subs@[j]).folder@ != folder@,
        decreases subs.len() - i,
    {
        if same_text(subs[i].folder.as_str(), folder) {
            return Some(i);
        }
        i = i + 1;
    }
    None
}

fn count_changes(p: &Vec<(String, usize)>) -> (total: u128)
    ensures
        total == total_changes(counts_view(p@)),
{
    let ghost pv = counts_view(p@);
    let mut total: u128 = 0;
    let mut i: usize = 0;
    while i < p.len()
        invariant
            i <= p.len(),
            pv == counts_view(p@),
            total == total_changes(pv.take(i as int)),
        decreases p.len() - i,
    {
        proof {
            assert(pv.take(i + 1).drop_last() =~= pv.take(i as int));
            lemma_total_changes_bound(pv.take(i as int));
        }
        total = total + p[i].1 as u128;
        i = i + 1;
    }
    assert(pv.take(p.len() as int) =~= pv);
    total
}

fn push_action(list: &mut Vec<ProgressAction>, action: ProgressAction)
    ensures
        actions_view(final(list)@) == actions_view(old(list)@).push(action@),
{
    list.push(action);
}

/// What is read of a count.
fn read(count: &CheckedU128) -> (r: u128)
    ensures
        r == counted(count@),
{
    match count.to_option() {
        Some(n) => n,
        None => u128::MAX,
    }
}

impl ProgressState {
    /// The invariant of the display: no folder has two indicators, and the
    /// scale of a sub-indicator is the number of the changes of a folder that
    /// has some.
    pub closed spec fn wf(&self) -> bool {
        &&& distinct_names(self.subs@)
        &&& forall|i: int| 0 <= i < self.subs@.len() ==> (#[trigger] self.subs@[i]).model().wf()
    }

    /// A well-formed display is well-formed as a mathematical value.
    pub proof fn lemma_view_wf(&self)
        requires
            self.wf(),
        ensures
            self@.wf(),
    {
        assert forall|f: Seq<char>| self@.subs.dom().contains(f) implies (
        #[trigger] self@.subs[f]).wf() by {
            let i = lemma_subs_present(self.subs@, f);
            lemma_subs_lookup(self.subs@, i);
        }
    }

    /// The display before the first event: the top indicator on a scale of
    /// one hundred, at zero, and no sub-indicator.
    pub fn new() -> (r: Self)
        ensures
            r.wf(),
            r@ == initial_view(),
    {
        ProgressState {
            length: 100,
            position: CheckedU128::new(0),
            message: String::from_str("Listing folders…"),
            finished: false,
            subs: Vec::new(),
        }
    }

    /// The scale of the top indicator.
    pub fn length(&self) -> (r: u128)
        ensures
            r == self@.length,
    {
        self.length
    }

    /// The position of the top indicator, as it is read.
    pub fn position(&self) -> (r: u128)
        ensures
            r == counted(self@.position),
    {
        read(&self.position)
    }

    /// The message of the top indicator.
    pub fn message(&self) -> (r: &String)
        ensures
            r@ == self@.message,
    {
        &self.message
    }

    /// Whether the top indicator is finalized.
    pub fn is_finished(&self) -> (r: bool)
        ensures
            r == self@.finished,
    {
        self.finished
    }

    /// The number of sub-indicators.
    pub fn sub_count(&self) -> (r: usize)
        requires
            self.wf(),
        ensures
            r == self@.subs.dom().len(),
            self@.subs.dom().finite(),
    {
        proof {
            lemma_subs_len(self.subs@);
        }
        self.subs.len()
    }

    /// The indicator of a folder as it is read, if the folder has one.
    pub fn sub(&self, folder: &str) -> (r: Option<SubIndicator>)
        requires
            self.wf(),
        ensures
            r == if self@.subs.dom().contains(folder@) {
                Some(self@.subs[folder@].readout())
            } else {
                None
            },
    {
        match find_sub(&self.subs, folder) {
            Some(i) => {
                proof {
                    lemma_subs_lookup(self.subs@, i as int);
                }
                Some(
                    SubIndicator {
                        length: self.subs[i].length,
                        position: read(&self.subs[i].position),
                    },
                )
            },
            None => {
                proof {
                    lemma_subs_absent(self.subs@, folder@);
                }
                None
            },
        }
    }

    fn set_message(&mut self, message: &str, steps: &mut Vec<ProgressAction>)
        requires
            old(self).wf(),
        ensures
            final(self).wf(),
            final(self)@ == (ProgressView { message: message@, ..old(self)@ }),
            actions_view(final(steps)@) == actions_view(old(steps)@).push(
                ProgressActionView::SetMessage(message@),
            ),
    {
        self.message = String::from_str(message);
        push_action(steps, ProgressAction::SetMessage(String::from_str(message)));
    }

    fn put_sub(&mut self, entry: Sub)
        requires
            old(self).wf(),
            entry.model().wf(),
        ensures
            final(self).wf(),
            final(self)@ == (ProgressView {
                subs: old(self)@.subs.insert(entry.folder@, entry.model()),
                ..old(self)@
            }),
    {
        match find_sub(&self.subs, entry.folder.as_str()) {
            Some(i) => {
                proof {
                    lemma_subs_update(self.subs@, i as int, entry);
                }
                self.subs.set(i, entry);
            },
            None => {
                proof {
                    lemma_subs_push(self.subs@, entry);
                }
                self.subs.push(entry);
            },
        }
    }

    fn add_all(&mut self, p: &Vec<(String, usize)>, steps: &mut Vec<ProgressAction>)
        requires
            old(self).wf(),
        ensures
            final(self).wf(),
            final(self)@ == (ProgressView {
                subs: add_subs(old(self)@.subs, counts_view(p@)),
                ..old(self)@
            }),
            actions_view(final(steps)@) == actions_view(old(steps)@) + counts_view(p@).filter_map(
                |entry: (Seq<char>, usize)| add_sub_action(entry),
            ),
    {
        let ghost pv = counts_view(p@);
        let ghost before = actions_view(steps@);
        let ghost f = |entry: (Seq<char>, usize)| add_sub_action(entry);
        let mut i: usize = 0;
        while i < p.len()
            invariant
                i <= p.len(),
                pv == counts_view(p@),
                f == |entry: (Seq<char>, usize)| add_sub_action(entry),
                self.wf(),
                self@ == (ProgressView {
                    subs: add_subs(old(self)@.subs, pv.take(i as int)),
                    ..old(self)@
                }),
                actions_view(steps@) == before + pv.take(i as int).filter_map(f),
            decreases p.len() - i,
        {
            assert(pv.take(i + 1).drop_last() =~= pv.take(i as int));
            let count = p[i].1;
            if count > 0 {
                self.put_sub(
                    Sub {
                        folder: p[i].0.clone(),
                        length: count as u128,
                        position: CheckedU128::new(0),
                    },
                );
                push_action(steps, ProgressAction::AddSub(p[i].0.clone(), count as u128));
            }
            i = i + 1;
        }
        assert(pv.take(p.len() as int) =~= pv);
    }

    /// Moves the display on an event and yields the drawing steps that show
    /// the move.
    pub fn route(&mut self, event: &SyncEvent) -> (steps: Vec<ProgressAction>)
        requires
            old(self).wf(),
        ensures
            final(self).wf(),
            final(self)@ == spec_route(old(self)@, event@),
            actions_view(steps@) == spec_steps(old(self)@, event@),
    {
        let mut steps: Vec<ProgressAction> = Vec::new();
        match event {
            SyncEvent::ListedAllFolders => {
                self.set_message("Synchronizing folders…", &mut steps);
            },
            SyncEvent::ProcessedAllFolderHunks => {
                self.set_message("Listing envelopes…", &mut steps);
            },
            SyncEvent::GeneratedEmailPatch(p) => {
                let total = count_changes(p);
                self.length = total;
                self.position = CheckedU128::new(0);
                self.message = String::from_str("Synchronizing emails…");
                push_action(&mut steps, ProgressAction::SetLength(total));
                push_action(&mut steps, ProgressAction::SetPosition(0));
                push_action(
                    &mut steps,
                    ProgressAction::SetMessage(String::from_str("Synchronizing emails…")),
                );
                self.add_all(p, &mut steps);
            },
            SyncEvent::ProcessedEmailHunk(folder, hunk) => {
                self.position = self.position.add_value(1);
                push_action(&mut steps, ProgressAction::Advance);
                match find_sub(&self.subs, folder.as_str()) {
                    Some(i) => {
                        let length = self.subs[i].length;
                        let position = self.subs[i].position.add_value(1);
                        let last = match position.to_option() {
                            Some(n) => n == length,
                            None => false,
                        };
                        let entry = Sub { folder: self.subs[i].folder.clone(), length, position };
                        proof {
                            lemma_subs_lookup(self.subs@, i as int);
                            lemma_subs_update(self.subs@, i as int, entry);
                        }
                        self.subs.set(i, entry);
                        push_action(&mut steps, ProgressAction::AdvanceSub(folder.clone()));
                        if last {
                            push_action(&mut steps, ProgressAction::MarkSubDone(folder.clone()));
                        } else {
                            let mut message = hunk.clone();
                            message.append("…");
                            push_action(
                                &mut steps,
                                ProgressAction::SetSubMessage(folder.clone(), message),
                            );
                        }
                    },
                    None => {
                        proof {
                            lemma_subs_absent(self.subs@, folder@);
                        }
                    },
                }
            },
            SyncEvent::ProcessedAllEmailHunks => {
                self.subs = Vec::new();
                self.length = 100;
                self.position = CheckedU128::new(100);
                self.message = String::from_str("Expunging folders…");
                push_action(&mut steps, ProgressAction::ClearSubs);
                push_action(&mut steps, ProgressAction::SetLength(100));
                push_action(&mut steps, ProgressAction::SetPosition(100));
                push_action(
                    &mut steps,
                    ProgressAction::SetMessage(String::from_str("Expunging folders…")),
                );
            },
            SyncEvent::ExpungedAllFolders => {
                self.finished = true;
                push_action(&mut steps, ProgressAction::Finish);
            },
            SyncEvent::Other => {
                push_action(&mut steps, ProgressAction::Tick);
            },
        }
        steps
    }
}

/// Making the indicators of the folders with pending changes keeps the scale
/// of every indicator.
pub proof fn lemma_add_subs_wf(subs: Map<Seq<char>, SubView>, p: Seq<(Seq<char>, usize)>)
    requires
        forall|f: Seq<char>| subs.dom().contains(f) ==> (#[trigger] subs[f]).wf(),
    ensures
        forall|f: Seq<char>|
            add_subs(subs, p).dom().contains(f) ==> (#[trigger] add_subs(subs, p)[f]).wf(),
    decreases p.len(),
{
    if p.len() > 0 {
        let rest = add_subs(subs, p.drop_last());
        lemma_add_subs_wf(subs, p.drop_last());
        assert forall|f: Seq<char>| add_subs(subs, p).dom().contains(f) implies (
        #[trigger] add_subs(subs, p)[f]).wf() by {
            if p.last().1 > 0 && f == p.last().0 {
                assert(add_subs(subs, p)[f].length == p.last().1);
            } else {
                assert(add_subs(subs, p)[f] == rest[f]);
            }
        }
    }
}

/// Whatever the event, a well-formed display stays well-formed.
pub proof fn lemma_route_keeps_wf(s: ProgressView, e: SyncEventView)
    requires
        s.wf(),
    ensures
        spec_route(s, e).wf(),
{
    match e {
        SyncEventView::GeneratedEmailPatch(p) => {
            lemma_add_subs_wf(s.subs, p);
        },
        _ => {},
    }
}

/// The state of the display after a sequence of events.
pub open spec fn spec_run(s: ProgressView, events: Seq<SyncEventView>) -> ProgressView
    decreases events.len(),
{
    if events.len() == 0 {
        s
    } else {
        spec_route(spec_run(s, events.drop_last()), events.last())
    }
}

/// The number of events of the sequence that tell of an applied change of the
/// given folder.
pub open spec fn applied_changes(events: Seq<SyncEventView>, folder: Seq<char>) -> nat
    decreases events.len(),
{
    if events.len() == 0 {
        0
    } else {
        applied_changes(events.drop_last(), folder) + (match events.last() {
            SyncEventView::ProcessedEmailHunk(f, _) => if f == folder {
                1nat
            } else {
                0nat
            },
            _ => 0nat,
        })
    }
}

/// The number of events of the sequence that tell of an applied change, of
/// whatever folder.
pub open spec fn applied_total(events: Seq<SyncEventView>) -> nat
    decreases events.len(),
{
    if events.len() == 0 {
        0
    } else {
        applied_total(events.drop_last()) + (if events.last() is ProcessedEmailHunk {
            1nat
        } else {
            0nat
        })
    }
}

/// Whether an event leaves the scales and the set of sub-indicators as they
/// are: every event does, but the one that makes the sub-indicators and the
/// one that clears them.
pub open spec fn keeps_subs(e: SyncEventView) -> bool {
    !(e is GeneratedEmailPatch) && !(e is ProcessedAllEmailHunks)
}

/// The indicator of a folder is done exactly when as many changes of that
/// folder are applied as its scale counts, and not before: after any events
/// that neither make nor clear indicators, in any order across folders, its
/// position is the number of applied changes of its folder, and the changes
/// of other folders leave it as it is.
pub proof fn lemma_sub_done_exactly_at_last_change(
    s: ProgressView,
    folder: Seq<char>,
    events: Seq<SyncEventView>,
)
    requires
        s.wf(),
        s.subs.dom().contains(folder),
        forall|i: int| 0 <= i < events.len() ==> keeps_subs(#[trigger] events[i]),
    ensures
        spec_run(s, events).wf(),
        spec_run(s, events).subs.dom().contains(folder),
        spec_run(s, events).subs[folder].length == s.subs[folder].length,
        spec_run(s, events).subs[folder].position == s.subs[folder].position + applied_changes(
            events,
            folder,
        ),
        spec_run(s, events).subs[folder].is_done() <==> s.subs[folder].position + applied_changes(
            events,
            folder,
        ) == s.subs[folder].length,
    decreases events.len(),
{
    if events.len() > 0 {
        lemma_sub_done_exactly_at_last_change(s, folder, events.drop_last());
    }
}

/// The top indicator advances by one with every applied change, whatever its
/// folder: after any events that neither make nor clear indicators, its
/// position has grown by the number of applied changes, and its scale is as
/// it was.
pub proof fn lemma_top_advances_with_every_change(s: ProgressView, events: Seq<SyncEventView>)
    requires
        forall|i: int| 0 <= i < events.len() ==> keeps_subs(#[trigger] events[i]),
    ensures
        spec_run(s, events).position == s.position + applied_total(events),
        spec_run(s, events).length == s.length,
    decreases events.len(),
{
    if events.len() > 0 {
        lemma_top_advances_with_every_change(s, events.drop_last());
    }
}

/// Whether the event applies the last pending change of the folder.
pub open spec fn applies_last_change(s: ProgressView, e: SyncEventView, folder: Seq<char>) -> bool {
    match e {
        SyncEventView::ProcessedEmailHunk(f, _) => f == folder && s.subs.dom().contains(folder)
            && s.subs[folder].position + 1 == s.subs[folder].length,
        _ => false,
    }
}

/// The finished look is drawn for a folder on the event that applies the last
/// pending change of that folder, and on no other.
pub proof fn lemma_done_look_at_last_change(s: ProgressView, e: SyncEventView, folder: Seq<char>)
    ensures
        spec_steps(s, e).contains(ProgressActionView::MarkSubDone(folder)) <==> applies_last_change(
            s,
            e,
            folder,
        ),
{
    let mark = ProgressActionView::MarkSubDone(folder);
    let steps = spec_steps(s, e);
    if applies_last_change(s, e, folder) {
        assert(steps[steps.len() - 1] == mark);
    } else if steps.contains(mark) {
        let k = choose|k: int| 0 <= k < steps.len() && steps[k] == mark;
        match e {
            SyncEventView::GeneratedEmailPatch(p) => {
                lemma_made_steps_are_add_sub(p, k - 3);
            },
            _ => {},
        }
    }
}

proof fn lemma_made_steps_are_add_sub(p: Seq<(Seq<char>, usize)>, k: int)
    requires
        0 <= k < p.filter_map(|entry: (Seq<char>, usize)| add_sub_action(entry)).len(),
    ensures
        p.filter_map(|entry: (Seq<char>, usize)| add_sub_action(entry))[k] is AddSub,
    decreases p.len(),
{
    let f = |entry: (Seq<char>, usize)| add_sub_action(entry);
    if p.len() > 0 && k < p.drop_last().filter_map(f).len() {
        lemma_made_steps_are_add_sub(p.drop_last(), k);
    }
}

} // verus!
