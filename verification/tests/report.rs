use neverest::printer::{Channel, Message};
use neverest::sync::report::{EmailSyncReport, FolderSyncReport, SyncReport};

fn hunk(text: &str, error: Option<&str>) -> (String, Option<String>) {
    (text.to_string(), error.map(|e| e.to_string()))
}

fn report(folder: Vec<(String, Option<String>)>, email: Vec<(String, Option<String>)>) -> SyncReport {
    SyncReport { folder: FolderSyncReport { patch: folder }, email: EmailSyncReport { patch: email } }
}

fn log(text: &str) -> Message {
    Message { channel: Channel::Log, text: text.to_string() }
}

fn out(text: &str) -> Message {
    Message { channel: Channel::Out, text: text.to_string() }
}

#[test]
fn dry_run_total_is_folder_changes_plus_email_changes() {
    let folder = vec![hunk("f1", None), hunk("f2", None)];
    let email =
        vec![hunk("e1", None), hunk("e2", None), hunk("e3", None), hunk("e4", None), hunk("e5", None)];
    let r = report(folder, email);
    assert_eq!(r.estimated_patch_length(), 7);
    let lines = r.dry_run_report("work");
    assert_eq!(
        lines.last().unwrap(),
        &out("Estimated patch length for account work to be synchronized: 7\n")
    );
}

#[test]
fn dry_run_lists_both_patches_in_order() {
    let r = report(
        vec![hunk("Creating left folder A", None)],
        vec![hunk("Deleting right email 1 (A)", None), hunk("Deleting right email 2 (A)", None)],
    );
    assert_eq!(
        r.dry_run_report("me"),
        vec![
            log("Folders patch:\n"),
            log(" - Creating left folder A\n"),
            log("\n"),
            log("Envelopes patch:\n"),
            log(" - Deleting right email 1 (A)\n"),
            log(" - Deleting right email 2 (A)\n"),
            log("\n"),
            out("Estimated patch length for account me to be synchronized: 3\n"),
        ]
    );
}

#[test]
fn dry_run_of_an_empty_report_prints_the_total_alone() {
    let r = report(vec![], vec![]);
    assert_eq!(r.estimated_patch_length(), 0);
    assert_eq!(
        r.dry_run_report("me"),
        vec![out("Estimated patch length for account me to be synchronized: 0\n")]
    );
}

#[test]
fn dry_run_skips_an_empty_patch() {
    let r = report(vec![], vec![hunk("e", None)]);
    assert_eq!(
        r.dry_run_report("me"),
        vec![
            log("Envelopes patch:\n"),
            log(" - e\n"),
            log("\n"),
            out("Estimated patch length for account me to be synchronized: 1\n"),
        ]
    );
    let r = report(vec![hunk("f", None)], vec![]);
    assert_eq!(
        r.dry_run_report("me"),
        vec![
            log("Folders patch:\n"),
            log(" - f\n"),
            log("\n"),
            out("Estimated patch length for account me to be synchronized: 1\n"),
        ]
    );
}

#[test]
fn dry_run_counts_changes_that_carry_an_error_too() {
    let r = report(vec![hunk("f", Some("boom"))], vec![hunk("e", None)]);
    assert_eq!(r.estimated_patch_length(), 2);
}

#[test]
fn dry_run_total_with_many_digits() {
    let email: Vec<(String, Option<String>)> = (0..1203).map(|i| hunk(&format!("e{i}"), None)).collect();
    let r = report(vec![hunk("f", None)], email);
    let lines = r.dry_run_report("big");
    assert_eq!(lines.len(), 3 + 1205 + 1);
    assert_eq!(
        lines.last().unwrap().text,
        "Estimated patch length for account big to be synchronized: 1204\n"
    );
}

#[test]
fn live_report_without_failures_is_the_final_line() {
    let r = report(vec![hunk("f", None)], vec![hunk("e", None)]);
    assert_eq!(r.live_report("work", false), vec![out("Account work successfully synchronized!")]);
}

#[test]
fn live_report_lists_failed_changes_and_no_others() {
    let r = report(
        vec![hunk("f1", Some("denied")), hunk("f2", None), hunk("f3", Some("gone"))],
        vec![hunk("e1", None), hunk("e2", Some("timeout"))],
    );
    assert_eq!(
        r.live_report("work", false),
        vec![
            log(""),
            log("Errors occurred while applying the folders patch:"),
            log(" - f1: denied"),
            log(" - f3: gone"),
            log(""),
            log("Errors occurred while applying the envelopes patch:"),
            log(" - e2: timeout"),
            out("Account work successfully synchronized!"),
        ]
    );
}

#[test]
fn live_report_with_failures_in_one_patch_only() {
    let r = report(vec![hunk("f1", None)], vec![hunk("e1", Some("x"))]);
    assert_eq!(
        r.live_report("a", false),
        vec![
            log(""),
            log("Errors occurred while applying the envelopes patch:"),
            log(" - e1: x"),
            out("Account a successfully synchronized!"),
        ]
    );
    let r = report(vec![hunk("f1", Some("y"))], vec![hunk("e1", None)]);
    assert_eq!(
        r.live_report("a", false),
        vec![
            log(""),
            log("Errors occurred while applying the folders patch:"),
            log(" - f1: y"),
            out("Account a successfully synchronized!"),
        ]
    );
}

#[test]
fn live_report_for_a_program_is_the_final_line_alone() {
    let r = report(vec![hunk("f1", Some("denied"))], vec![hunk("e2", Some("timeout"))]);
    assert_eq!(r.live_report("work", true), vec![out("Account work successfully synchronized!")]);
}

#[test]
fn live_report_ends_with_the_final_line_whatever_failed() {
    for failures in 0..4usize {
        let email: Vec<(String, Option<String>)> = (0..4)
            .map(|i| hunk(&format!("e{i}"), if i < failures { Some("err") } else { None }))
            .collect();
        let r = report(vec![], email);
        let lines = r.live_report("acc", false);
        assert_eq!(lines.last().unwrap(), &out("Account acc successfully synchronized!"));
        let expected = if failures == 0 { 1 } else { failures + 3 };
        assert_eq!(lines.len(), expected);
    }
}
