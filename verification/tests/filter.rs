use neverest::account::arg::name::OptionalAccountNameArg;
use neverest::account::command::sync::SynchronizeAccountCommand;
use neverest::sync::config::FolderSyncStrategy;

fn command(included: &[&str], excluded: &[&str], all: bool) -> SynchronizeAccountCommand {
    SynchronizeAccountCommand {
        account: OptionalAccountNameArg { name: None },
        dry_run: false,
        include_folder: included.iter().map(|s| s.to_string()).collect(),
        exclude_folder: excluded.iter().map(|s| s.to_string()).collect(),
        all_folders: all,
    }
}

#[test]
fn no_flag_selects_nothing() {
    assert!(command(&[], &[], false).folder_filter().is_none());
}

#[test]
fn all_folders_alone_selects_all() {
    assert!(matches!(command(&[], &[], true).folder_filter(), Some(FolderSyncStrategy::All)));
}

#[test]
fn excluded_alone_selects_by_exclusion() {
    match command(&[], &["Spam", "Trash"], false).folder_filter() {
        Some(FolderSyncStrategy::Exclude(names)) => {
            assert_eq!(names, vec!["Spam".to_string(), "Trash".to_string()]);
        }
        other => panic!("unexpected filter {:?}", other),
    }
}

#[test]
fn included_alone_selects_by_inclusion() {
    match command(&["INBOX"], &[], false).folder_filter() {
        Some(FolderSyncStrategy::Include(names)) => assert_eq!(names, vec!["INBOX".to_string()]),
        other => panic!("unexpected filter {:?}", other),
    }
}

#[test]
fn included_wins_over_excluded_and_all() {
    for (excluded, all) in [(vec![], true), (vec!["Spam"], false), (vec!["Spam"], true)] {
        let filter = command(&["INBOX", "Sent"], &excluded, all).folder_filter().unwrap();
        assert!(matches!(filter, FolderSyncStrategy::Include(_)));
        assert!(filter.matches("INBOX"));
        assert!(filter.matches("Sent"));
        assert!(!filter.matches("Spam"));
        assert!(!filter.matches("Other"));
    }
}

#[test]
fn excluded_wins_over_all() {
    let filter = command(&[], &["Spam"], true).folder_filter().unwrap();
    assert!(matches!(filter, FolderSyncStrategy::Exclude(_)));
    assert!(!filter.matches("Spam"));
    assert!(filter.matches("INBOX"));
}

#[test]
fn every_combination_selects_at_most_one_strategy() {
    for included in [vec![], vec!["a"]] {
        for excluded in [vec![], vec!["b"]] {
            for all in [false, true] {
                let filter = command(&included, &excluded, all).folder_filter();
                let expected = if !included.is_empty() {
                    "included"
                } else if !excluded.is_empty() {
                    "excluded"
                } else if all {
                    "all"
                } else {
                    "none"
                };
                let got = match filter {
                    Some(FolderSyncStrategy::Include(_)) => "included",
                    Some(FolderSyncStrategy::Exclude(_)) => "excluded",
                    Some(FolderSyncStrategy::All) => "all",
                    None => "none",
                };
                assert_eq!(got, expected);
            }
        }
    }
}
