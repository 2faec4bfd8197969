use neverest::account::config::{EnvelopeConfig, FolderConfig, TomlAccountConfig};
use neverest::backend::config::{BackendConfig, BackendGlobalConfig, ImapAuthConfig, ImapConfig};
use neverest::backend::BackendSource;
use neverest::config::{config_source, Config, ConfigSource};
use neverest::error::{CommandError, ErrorClass};
use neverest::sync::config::{EnvelopeSyncFilters, FolderSyncStrategy};

fn side(backend: BackendConfig) -> BackendGlobalConfig {
    BackendGlobalConfig { backend, folder: None, flag: None, message: None }
}

fn account(default: Option<bool>, pool_size: Option<usize>) -> TomlAccountConfig {
    TomlAccountConfig {
        default,
        folder: None,
        envelope: None,
        pool_size,
        left: side(BackendConfig::Maildir),
        right: side(BackendConfig::Notmuch),
    }
}

fn config(entries: Vec<(&str, Option<bool>, Option<usize>)>) -> Config {
    let mut config = Config::new();
    for (name, default, pool) in entries {
        config.insert(name.to_string(), account(default, pool));
    }
    config
}

#[test]
fn no_name_and_one_default_finds_that_account() {
    let c = config(vec![("a", None, Some(1)), ("b", Some(true), Some(2)), ("c", Some(false), Some(3))]);
    let (name, account) = c.into_account_config(None).unwrap();
    assert_eq!(name, "b");
    assert_eq!(account.pool_size, Some(2));
    assert_eq!(account.default, Some(true));
}

#[test]
fn no_name_and_no_default_fails() {
    let c = config(vec![("a", None, None), ("b", Some(false), None)]);
    let e = c.into_account_config(None).unwrap_err();
    assert_eq!(e, CommandError::DefaultAccountNotFound);
    assert_eq!(e.message(), "cannot find default account");
    assert_eq!(e.class(), ErrorClass::Configuration);
    assert_eq!(e.side(), None);
}

#[test]
fn no_name_and_empty_configuration_fails() {
    let c = Config::new();
    assert_eq!(c.len(), 0);
    assert_eq!(c.into_account_config(None).unwrap_err(), CommandError::DefaultAccountNotFound);
}

#[test]
fn unknown_name_fails_and_names_the_account() {
    let c = config(vec![("a", Some(true), None)]);
    let e = c.into_account_config(Some("zzz")).unwrap_err();
    assert_eq!(e, CommandError::AccountNotFound("zzz".to_string()));
    assert_eq!(e.message(), "cannot find account zzz");
    assert_eq!(e.class(), ErrorClass::Configuration);
}

#[test]
fn known_name_finds_that_account_whatever_the_default() {
    let c = config(vec![("a", Some(true), Some(1)), ("b", None, Some(2))]);
    let (name, account) = c.into_account_config(Some("b")).unwrap();
    assert_eq!(name, "b");
    assert_eq!(account.pool_size, Some(2));
}

#[test]
fn several_defaults_find_the_first() {
    let c = config(vec![("a", None, Some(1)), ("b", Some(true), Some(2)), ("c", Some(true), Some(3))]);
    let (name, account) = c.get_default_account_config().unwrap();
    assert_eq!(name, "b");
    assert_eq!(account.pool_size, Some(2));
}

#[test]
fn the_names_default_and_empty_stand_for_no_name() {
    let c = config(vec![("a", None, Some(1)), ("b", Some(true), Some(2))]);
    for alias in ["default", ""] {
        let (name, account) = c.into_account_config(Some(alias)).unwrap();
        assert_eq!(name, "b");
        assert_eq!(account.pool_size, Some(2));
    }
    let c = config(vec![("a", None, None)]);
    for alias in ["default", ""] {
        assert_eq!(
            c.into_account_config(Some(alias)).unwrap_err(),
            CommandError::DefaultAccountNotFound
        );
    }
}

#[test]
fn an_account_named_default_is_not_found_by_that_name() {
    let c = config(vec![("a", Some(true), Some(1)), ("default", None, Some(2))]);
    let (name, account) = c.into_account_config(Some("default")).unwrap();
    assert_eq!(name, "a");
    assert_eq!(account.pool_size, Some(1));
    let (name, account) = c.get_account_config("default").unwrap();
    assert_eq!(name, "default");
    assert_eq!(account.pool_size, Some(2));
    let c = config(vec![("default", None, Some(2))]);
    assert_eq!(
        c.into_account_config(Some("default")).unwrap_err(),
        CommandError::DefaultAccountNotFound
    );
}

#[test]
fn names_close_to_the_aliases_are_names() {
    let c = config(vec![("a", Some(true), None)]);
    for name in ["Default", "default ", " ", "defaults"] {
        assert_eq!(
            c.into_account_config(Some(name)).unwrap_err(),
            CommandError::AccountNotFound(name.to_string())
        );
    }
}

#[test]
fn insert_replaces_an_account_of_the_same_name_in_place() {
    let mut c = config(vec![("a", None, Some(1)), ("b", Some(true), Some(2))]);
    c.insert("a".to_string(), account(Some(true), Some(9)));
    assert_eq!(c.len(), 2);
    let (name, found) = c.get_default_account_config().unwrap();
    assert_eq!(name, "a");
    assert_eq!(found.pool_size, Some(9));
    let (_, found) = c.get_account_config("a").unwrap();
    assert_eq!(found.pool_size, Some(9));
    assert!(c.get_account_config("c").is_none());
}

#[test]
fn default_configuration_is_empty() {
    let c = Config::default();
    assert_eq!(c.len(), 0);
    assert!(c.get_default_account_config().is_none());
}

#[test]
fn account_filters_default_to_everything() {
    let a = account(None, None);
    assert!(!a.is_default());
    assert!(matches!(a.folder_filter(), FolderSyncStrategy::All));
    assert_eq!(a.envelope_filter(), EnvelopeSyncFilters { before: None, after: None });
    let mut b = account(Some(true), None);
    b.folder = Some(FolderConfig { filters: FolderSyncStrategy::Exclude(vec!["Spam".to_string()]) });
    b.envelope = Some(EnvelopeConfig { filters: EnvelopeSyncFilters::default() });
    assert!(b.is_default());
    assert!(!b.folder_filter().matches("Spam"));
    assert!(b.folder_filter().matches("INBOX"));
    let copy = b.clone();
    assert!(!copy.folder_filter().matches("Spam"));
    assert_eq!(copy.default, Some(true));
    assert!(!account(Some(false), None).is_default());
}

#[test]
fn secrets_are_looked_up_for_protocol_clients_left_first() {
    let imap = BackendConfig::Imap(ImapConfig {
        auth: ImapAuthConfig::Password,
        clients_pool_size: None,
    });
    let mut a = account(None, None);
    assert_eq!(a.configure(), vec![]);
    a.right = side(imap);
    assert_eq!(a.configure(), vec![BackendSource::Right]);
    a.left = side(imap);
    assert_eq!(a.configure(), vec![BackendSource::Left, BackendSource::Right]);
    a.right = side(BackendConfig::Unconfigured);
    assert_eq!(a.configure(), vec![BackendSource::Left]);
}

#[test]
fn configuration_source_by_paths() {
    assert_eq!(config_source(0, false, true, true), Ok(ConfigSource::DefaultPath));
    assert_eq!(config_source(0, true, true, false), Ok(ConfigSource::DefaultPath));
    assert_eq!(config_source(0, false, false, true), Ok(ConfigSource::WizardAtDefaultPath));
    assert_eq!(config_source(2, true, false, false), Ok(ConfigSource::GivenPaths));
    assert_eq!(config_source(1, true, true, true), Ok(ConfigSource::GivenPaths));
    assert_eq!(config_source(1, false, true, true), Ok(ConfigSource::WizardAtGivenPath));
}

#[test]
fn configuration_source_missing_without_wizard() {
    let e = config_source(0, false, false, false).unwrap_err();
    assert_eq!(e, CommandError::ConfigNotFound);
    assert_eq!(e.message(), "cannot find config file from default paths");
    assert_eq!(e.class(), ErrorClass::Configuration);
    assert_eq!(config_source(3, false, true, false).unwrap_err(), CommandError::ConfigNotFound);
}
