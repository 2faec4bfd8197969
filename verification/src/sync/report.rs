//! The report of a run, and what is printed of it.
//!
//! A report holds the changes of a run in the order in which the engine
//! handled them, each with the error it met, if it met one. A change with an
//! error was attempted and failed; it was not skipped.

use vstd::prelude::*;
use vstd::string::StringExecFns;
use crate::printer::{log, messages_view, out, push_message, Channel, Message};
use crate::text::{concat3, concat4, concat5, decimal, decimal_string};

verus! {

/// One change with the error it met, as a mathematical value.
pub type HunkView = (Seq<char>, Option<Seq<char>>);

/// The changes of one category, as a mathematical value.
pub open spec fn patch_view(p: Seq<(String, Option<String>)>) -> Seq<HunkView> {
    Seq::new(
        p.len(),
        |i: int|
            (
                p[i].0@,
                match p[i].1 {
                    Some(e) => Some(e@),
                    None => None,
                },
            ),
    )
}

/// The report of the folder changes.
#[derive(Clone, Debug, PartialEq, Eq)]
pub struct FolderSyncReport {
    /// Each change as one line of text, with the error it met.
    pub patch: Vec<(String, Option<String>)>,
}

/// The report of the email changes.
#[derive(Clone, Debug, PartialEq, Eq)]
pub struct EmailSyncReport {
    /// Each change as one line of text, with the error it met.
    pub patch: Vec<(String, Option<String>)>,
}

/// The report of a run.
#[derive(Clone, Debug, PartialEq, Eq)]
pub struct SyncReport {
    pub folder: FolderSyncReport,
    pub email: EmailSyncReport,
}

/// A [`SyncReport`] as a mathematical value.
pub struct SyncReportView {
    pub folder: Seq<HunkView>,
    pub email: Seq<HunkView>,
}

impl View for SyncReport {
    type V = SyncReportView;

    open spec fn view(&self) -> SyncReportView {
        SyncReportView {
            folder: patch_view(self.folder.patch@),
            email: patch_view(self.email.patch@),
        }
    }
}

impl SyncReportView {
    /// The number of changes in the report, of both categories.
    pub open spec fn len(self) -> nat {
        self.folder.len() + self.email.len()
    }
}

/// The line that lists one planned change.
pub open spec fn hunk_line(hunk: Seq<char>) -> Seq<char> {
    " - "@ + hunk + "\n"@
}

/// The listing of the planned changes of one category: nothing where there is
/// no change, else a title, one line for each change in order, and an empty
/// line.
pub open spec fn listing(title: Seq<char>, patch: Seq<HunkView>) -> Seq<(Channel, Seq<char>)> {
    if patch.len() == 0 {
        Seq::empty()
    } else {
        seq![log(title)] + Seq::new(patch.len(), |i: int| log(hunk_line(patch[i].0))) + seq![
            log("\n"@),
        ]
    }
}

/// The last line of a dry run: the number of changes that a run would apply.
pub open spec fn estimate_line(account: Seq<char>, count: nat) -> Seq<char> {
    "Estimated patch length for account "@ + account + " to be synchronized: "@ + decimal(count)
        + "\n"@
}

/// What a dry run prints: the planned folder changes, the planned email
/// changes, and the number of both together.
pub open spec fn spec_dry_run_report(account: Seq<char>, report: SyncReportView) -> Seq<
    (Channel, Seq<char>),
> {
    listing("Folders patch:\n"@, report.folder) + listing("Envelopes patch:\n"@, report.email)
        + seq![out(estimate_line(account, report.len()))]
}

/// The line that tells of one failed change, or nothing for a change that was
/// applied.
pub open spec fn failure_of(hunk: HunkView) -> Option<(Channel, Seq<char>)> {
    match hunk.1 {
        Some(error) => Some(log(" - "@ + hunk.0 + ": "@ + error)),
        None => None,
    }
}

/// The lines of the failed changes of one category, in the order of the
/// changes.
pub open spec fn failure_lines(patch: Seq<HunkView>) -> Seq<(Channel, Seq<char>)> {
    patch.filter_map(|h: HunkView| failure_of(h))
}

/// The failure section of one category: nothing where every change was
/// applied, else an empty line, a title, and the lines of the failed changes.
pub open spec fn failure_section(title: Seq<char>, patch: Seq<HunkView>) -> Seq<
    (Channel, Seq<char>),
> {
    if failure_lines(patch).len() == 0 {
        Seq::empty()
    } else {
        seq![log(Seq::empty()), log(title)] + failure_lines(patch)
    }
}

/// The line that ends every completed run.
pub open spec fn success_line(account: Seq<char>) -> Seq<char> {
    "Account "@ + account + " successfully synchronized!"@
}

/// What a live run prints once the engine is done. For a reader: the failed
/// folder changes, the failed email changes, and the line that ends the run.
/// For a program: that line alone.
pub open spec fn spec_live_report(account: Seq<char>, report: SyncReportView, json: bool) -> Seq<
    (Channel, Seq<char>),
> {
    if json {
        seq![out(success_line(account))]
    } else {
        failure_section("Errors occurred while applying the folders patch:"@, report.folder)
            + failure_section("Errors occurred while applying the envelopes patch:"@, report.email)
            + seq![out(success_line(account))]
    }
}

fn push_listing(list: &mut Vec<Message>, title: &str, patch: &Vec<(String, Option<String>)>)
    ensures
        messages_view(final(list)@) == messages_view(old(list)@) + listing(
            title@,
            patch_view(patch@),
        ),
{
    let ghost before = messages_view(list@);
    let ghost pv = patch_view(patch@);
    if patch.len() == 0 {
        return ;
    }
    push_message(list, Message::log(String::from_str(title)));
    let mut i: usize = 0;
    while i < patch.len()
        invariant
            i <= patch.len(),
            pv == patch_view(patch@),
            messages_view(list@) == before + seq![log(title@)] + Seq::new(
                i as nat,
                |k: int| log(hunk_line(pv[k].0)),
            ),
        decreases patch.len() - i,
    {
        let line = concat3(" - ", patch[i].0.as_str(), "\n");
        push_message(list, Message::log(line));
        i = i + 1;
    }
    push_message(list, Message::log(String::from_str("\n")));
}

fn push_failure_section(
    list: &mut Vec<Message>,
    title: &str,
    patch: &Vec<(String, Option<String>)>,
)
    ensures
        messages_view(final(list)@) == messages_view(old(list)@) + failure_section(
            title@,
            patch_view(patch@),
        ),
{
    let ghost before = messages_view(list@);
    let ghost pv = patch_view(patch@);
    let mut lines: Vec<Message> = Vec::new();
    let mut i: usize = 0;
    while i < patch.len()
        invariant
            i <= patch.len(),
            pv == patch_view(patch@),
            messages_view(lines@) == failure_lines(pv.take(i as int)),
        decreases patch.len() - i,
    {
        proof {
            pv.lemma_filter_map_take_succ(|h: HunkView| failure_of(h), i as int);
        }
        match &patch[i].1 {
            Some(error) => {
                let line = concat4(" - ", patch[i].0.as_str(), ": ", error.as_str());
                push_message(&mut lines, Message::log(line));
            },
            None => {},
        }
        i = i + 1;
    }
    assert(pv.take(patch.len() as int) =~= pv);
    if lines.len() == 0 {
        return ;
    }
    push_message(list, Message::log(String::new()));
    push_message(list, Message::log(String::from_str(title)));
    let mut k: usize = 0;
    while k < lines.len()
        invariant
            k <= lines.len(),
            messages_view(list@) == before + seq![log(Seq::empty()), log(title@)] + messages_view(
                lines@,
            ).take(k as int),
        decreases lines.len() - k,
    {
        let line = Message { channel: lines[k].channel, text: lines[k].text.clone() };
        push_message(list, line);
        k = k + 1;
    }
}

impl SyncReport {
    /// The number of changes in the report, of both categories.
    pub fn estimated_patch_length(&self) -> (r: u128)
        ensures
            r == self@.len(),
    {
        (self.folder.patch.len() as u128) + (self.email.patch.len() as u128)
    }

    /// What a dry run prints for this report.
    pub fn dry_run_report(&self, account_name: &str) -> (r: Vec<Message>)
        ensures
            messages_view(r@) == spec_dry_run_report(account_name@, self@),
    {
        let mut list: Vec<Message> = Vec::new();
        push_listing(&mut list, "Folders patch:\n", &self.folder.patch);
        push_listing(&mut list, "Envelopes patch:\n", &self.email.patch);
        let count = decimal_string(self.estimated_patch_length());
        let line = concat5(
            "Estimated patch length for account ",
            account_name,
            " to be synchronized: ",
            count.as_str(),
            "\n",
        );
        push_message(&mut list, Message::out(line));
        list
    }

    /// What a live run prints for this report once the engine is done.
    pub fn live_report(&self, account_name: &str, json: bool) -> (r: Vec<Message>)
        ensures
            messages_view(r@) == spec_live_report(account_name@, self@, json),
    {
        let mut list: Vec<Message> = Vec::new();
        if !json {
            push_failure_section(
                &mut list,
                "Errors occurred while applying the folders patch:",
                &self.folder.patch,
            );
            push_failure_section(
                &mut list,
                "Errors occurred while applying the envelopes patch:",
                &self.email.patch,
            );
        }
        let line = concat3("Account ", account_name, " successfully synchronized!");
        push_message(&mut list, Message::out(line));
        list
    }
}

/// The number of changes of one category that met an error.
pub open spec fn failed_count(patch: Seq<HunkView>) -> nat
    decreases patch.len(),
{
    if patch.len() == 0 {
        0
    } else {
        failed_count(patch.drop_last()) + if patch.last().1 is Some {
            1nat
        } else {
            0nat
        }
    }
}

/// Whether a line is that of a change of the category that met an error.
pub open spec fn tells_of_failed_change(patch: Seq<HunkView>, line: (Channel, Seq<char>)) -> bool {
    exists|i: int|
        0 <= i < patch.len() && (#[trigger] patch[i]).1 is Some && failure_of(patch[i]) == Some(
            line,
        )
}

/// The failure lines of a category tell of its failed changes and of nothing
/// else: there are as many lines as failed changes, every failed change has
/// its line, and every line is that of a failed change.
pub proof fn lemma_failure_lines_exact(patch: Seq<HunkView>)
    ensures
        failure_lines(patch).len() == failed_count(patch),
        forall|i: int|
            0 <= i < patch.len() && (#[trigger] patch[i]).1 is Some ==> failure_lines(
                patch,
            ).contains(failure_of(patch[i]).unwrap()),
        forall|k: int|
            0 <= k < failure_lines(patch).len() ==> tells_of_failed_change(
                patch,
                #[trigger] failure_lines(patch)[k],
            ),
    decreases patch.len(),
{
    if patch.len() > 0 {
        let rest = patch.drop_last();
        lemma_failure_lines_exact(rest);
        let lines = failure_lines(patch);
        let before = failure_lines(rest);
        assert forall|i: int|
            0 <= i < patch.len() && (#[trigger] patch[i]).1 is Some implies lines.contains(
            failure_of(patch[i]).unwrap(),
        ) by {
            if i < rest.len() {
                assert(rest[i] == patch[i]);
                let l = failure_of(patch[i]).unwrap();
                let k = choose|k: int| 0 <= k < before.len() && before[k] == l;
                assert(lines[k] == l);
            } else {
                assert(lines[lines.len() - 1] == failure_of(patch.last()).unwrap());
            }
        }
    }
}

/// However many changes failed, a completed live run tells of each failed
/// change in the section of its category and ends with the line of the
/// completed run.
pub proof fn lemma_live_report_tells_failures_and_ends(
    account: Seq<char>,
    report: SyncReportView,
    json: bool,
)
    ensures
        spec_live_report(account, report, json).len() >= 1,
        spec_live_report(account, report, json).last() == out(success_line(account)),
        !json ==> spec_live_report(account, report, json) == failure_section(
            "Errors occurred while applying the folders patch:"@,
            report.folder,
        ) + failure_section("Errors occurred while applying the envelopes patch:"@, report.email)
            + seq![out(success_line(account))],
        forall|i: int|
            0 <= i < report.folder.len() && (#[trigger] report.folder[i]).1 is Some
                ==> failure_section(
                "Errors occurred while applying the folders patch:"@,
                report.folder,
            ).contains(failure_of(report.folder[i]).unwrap()),
        forall|i: int|
            0 <= i < report.email.len() && (#[trigger] report.email[i]).1 is Some
                ==> failure_section(
                "Errors occurred while applying the envelopes patch:"@,
                report.email,
            ).contains(failure_of(report.email[i]).unwrap()),
        failure_section("Errors occurred while applying the folders patch:"@, report.folder).len()
            == if failed_count(report.folder) == 0 {
            0
        } else {
            failed_count(report.folder) + 2
        },
        failure_section(
            "Errors occurred while applying the envelopes patch:"@,
            report.email,
        ).len() == if failed_count(report.email) == 0 {
            0
        } else {
            failed_count(report.email) + 2
        },
{
    lemma_failure_lines_exact(report.folder);
    lemma_failure_lines_exact(report.email);
    lemma_section_holds_lines("Errors occurred while applying the folders patch:"@, report.folder);
    lemma_section_holds_lines(
        "Errors occurred while applying the envelopes patch:"@,
        report.email,
    );
}

/// A failure section holds every failure line of its category.
pub proof fn lemma_section_holds_lines(title: Seq<char>, patch: Seq<HunkView>)
    ensures
        forall|l: (Channel, Seq<char>)|
            failure_lines(patch).contains(l) ==> failure_section(title, patch).contains(l),
{
    let lines = failure_lines(patch);
    let section = failure_section(title, patch);
    assert forall|l: (Channel, Seq<char>)| lines.contains(l) implies section.contains(l) by {
        let k = choose|k: int| 0 <= k < lines.len() && lines[k] == l;
        assert(section[k + 2] == l);
    }
}

/// A dry run ends with the number of the folder changes and the email changes
/// together, whatever the report holds.
pub proof fn lemma_dry_run_ends_with_total(account: Seq<char>, report: SyncReportView)
    ensures
        spec_dry_run_report(account, report).len() >= 1,
        spec_dry_run_report(account, report).last() == out(
            estimate_line(account, report.folder.len() + report.email.len()),
        ),
{
}

} // verus!
