use neverest::account::arg::name::OptionalAccountNameArg;
use neverest::account::command::check_up::CheckUpAccountCommand;
use neverest::account::command::configure::{
    ending_step, ConfigureAccountCommand, ConfigureStep,
};
use neverest::account::command::doctor::{
    after_check_up, check_course, check_plan, CheckStep, DoctorAccountCommand,
};
use neverest::account::command::sync::SynchronizeAccountCommand;
use neverest::account::config::{instantiate_sides, FolderConfig, TomlAccountConfig};
use neverest::account::wizard;
use neverest::backend::config::{
    BackendConfig, BackendGlobalConfig, FolderBackendConfig, ImapAuthConfig, ImapConfig,
};
use neverest::backend::plan::Operation;
use neverest::backend::{wizard as backend_wizard, BackendKind, BackendSource};
use neverest::cli::{Cli, LevelFilter, NeverestCommand};
use neverest::config::Config;
use neverest::error::CommandError;
use neverest::manual::command::{GenerateManualCommand, ManPage};
use neverest::output::{ColorFmt, OutputFmt};
use neverest::preset::arg::name::OptionalPresetNameArg;
use neverest::preset::config::{TomlBackend, TomlBackendConfig, TomlPresetConfig};
use neverest::printer::{Channel, Message};
use neverest::sync::command::SynchronizeBackendsCommand;
use neverest::sync::config::{FolderSyncPermissions, FolderSyncStrategy};
use neverest::sync::run::RunMode;

fn imap(auth: ImapAuthConfig, pool: Option<u8>) -> BackendConfig {
    BackendConfig::Imap(ImapConfig { auth, clients_pool_size: pool })
}

fn side(backend: BackendConfig) -> BackendGlobalConfig {
    BackendGlobalConfig { backend, folder: None, flag: None, message: None }
}

fn account(left: BackendConfig, right: BackendConfig) -> TomlAccountConfig {
    TomlAccountConfig {
        default: Some(true),
        folder: None,
        envelope: None,
        pool_size: Some(3),
        left: side(left),
        right: side(right),
    }
}

fn config(name: &str, left: BackendConfig, right: BackendConfig) -> Config {
    let mut c = Config::new();
    c.insert(name.to_string(), account(left, right));
    c
}

fn arg(name: Option<&str>) -> OptionalAccountNameArg {
    OptionalAccountNameArg { name: name.map(|n| n.to_string()) }
}

fn sync(name: Option<&str>, dry_run: bool) -> SynchronizeAccountCommand {
    SynchronizeAccountCommand {
        account: arg(name),
        dry_run,
        include_folder: vec![],
        exclude_folder: vec![],
        all_folders: false,
    }
}

fn log(text: &str) -> Message {
    Message { channel: Channel::Log, text: text.to_string() }
}

#[test]
fn doctor_checks_left_then_right() {
    let c = config("work", imap(ImapAuthConfig::Password, Some(8)), BackendConfig::Maildir);
    let steps = DoctorAccountCommand { account: arg(None) }.plan(&c).unwrap();
    assert_eq!(steps.len(), 6);
    assert!(matches!(&steps[0], CheckStep::Print(m) if *m == log("Checking `work` account integrity…")));
    assert!(matches!(&steps[1], CheckStep::Print(m) if *m == log("Checking left IMAP integrity…")));
    match &steps[2] {
        CheckStep::CheckUp(plan) => {
            assert_eq!(plan.source, BackendSource::Left);
            assert_eq!(plan.kind, BackendKind::Imap);
            assert_eq!(plan.pool_size, Some(1));
            assert_eq!(plan.config.name, "work");
        }
        other => panic!("unexpected step {:?}", other),
    }
    assert!(matches!(&steps[3], CheckStep::Print(m) if *m == log("Checking right Maildir integrity…")));
    match &steps[4] {
        CheckStep::CheckUp(plan) => {
            assert_eq!(plan.source, BackendSource::Right);
            assert_eq!(plan.kind, BackendKind::Maildir);
            assert_eq!(plan.pool_size, None);
        }
        other => panic!("unexpected step {:?}", other),
    }
    assert!(matches!(&steps[5], CheckStep::Print(m) if *m == Message {
        channel: Channel::Out,
        text: "Checkup successfully completed!".to_string()
    }));
}

#[test]
fn doctor_forces_one_session_on_both_protocol_clients() {
    let c = config("a", imap(ImapAuthConfig::OAuth2, None), imap(ImapAuthConfig::Password, Some(5)));
    let steps = check_plan(Some("a"), &c).unwrap();
    for i in [2, 4] {
        match &steps[i] {
            CheckStep::CheckUp(plan) => assert_eq!(plan.pool_size, Some(1)),
            other => panic!("unexpected step {:?}", other),
        }
    }
    assert!(matches!(&steps[3], CheckStep::Print(m) if *m == log("Checking right IMAP integrity…")));
}

fn fails_after_the_account_line(steps: &[CheckStep], account: &str, side: BackendSource) {
    assert_eq!(steps.len(), 2);
    assert!(matches!(&steps[0], CheckStep::Print(m)
        if *m == log(&format!("Checking `{account}` account integrity…"))));
    assert!(matches!(&steps[1], CheckStep::Fail(e)
        if *e == CommandError::BackendNotConfigured(side)));
}

#[test]
fn doctor_fails_on_an_unconfigured_side_and_names_it() {
    let c = config("a", BackendConfig::Unconfigured, BackendConfig::Maildir);
    let steps = DoctorAccountCommand { account: arg(None) }.plan(&c).unwrap();
    fails_after_the_account_line(&steps, "a", BackendSource::Left);
    let c = config("a", BackendConfig::Notmuch, BackendConfig::Unconfigured);
    let steps = DoctorAccountCommand { account: arg(None) }.plan(&c).unwrap();
    fails_after_the_account_line(&steps, "a", BackendSource::Right);
    let c = config("a", BackendConfig::Unconfigured, BackendConfig::Unconfigured);
    let steps = CheckUpAccountCommand { account: arg(Some("a")) }.plan(&c).unwrap();
    fails_after_the_account_line(&steps, "a", BackendSource::Left);
}

#[test]
fn a_side_that_does_not_answer_ends_the_check_and_is_named() {
    let c = config("work", imap(ImapAuthConfig::Password, None), BackendConfig::Maildir);
    let steps = check_plan(None, &c).unwrap();
    for (at, side) in [(2, BackendSource::Left), (4, BackendSource::Right)] {
        match &steps[at] {
            CheckStep::CheckUp(plan) => {
                assert_eq!(after_check_up(plan, Ok(())), Ok(()));
                let e = after_check_up(plan, Err("connection refused".to_string())).unwrap_err();
                assert_eq!(
                    e,
                    CommandError::BackendInstantiation(side, "connection refused".to_string())
                );
                assert_eq!(e.side(), Some(side));
            }
            other => panic!("unexpected step {:?}", other),
        }
    }
}

#[test]
fn the_aliases_of_no_name_reach_the_commands() {
    let c = config("work", BackendConfig::Maildir, BackendConfig::Notmuch);
    for alias in ["default", ""] {
        let steps = DoctorAccountCommand { account: arg(Some(alias)) }.plan(&c).unwrap();
        assert!(matches!(&steps[0], CheckStep::Print(m)
            if *m == log("Checking `work` account integrity…")));
        assert_eq!(sync(Some(alias), false).plan(&c, false).unwrap().account, "work");
        let steps =
            ConfigureAccountCommand { account: arg(Some(alias)), reset: false }.plan(&c).unwrap();
        assert!(matches!(&steps[0], ConfigureStep::Print(m)
            if m.text == "Account work successfully configured!"));
    }
}

#[test]
fn only_a_failed_reset_lets_the_configuration_go_on() {
    assert!(!ConfigureStep::Reset(BackendSource::Left).ends_on_failure());
    assert!(!ConfigureStep::Reset(BackendSource::Right).ends_on_failure());
    assert!(ConfigureStep::Password(BackendSource::Left, "p".to_string()).ends_on_failure());
    assert!(ConfigureStep::ClientSecret(BackendSource::Right, "p".to_string()).ends_on_failure());
    assert!(ConfigureStep::Print(log("done")).ends_on_failure());
}

#[test]
fn doctor_fails_on_an_unknown_account() {
    let c = config("a", BackendConfig::Maildir, BackendConfig::Maildir);
    assert_eq!(
        DoctorAccountCommand { account: arg(Some("b")) }.plan(&c).unwrap_err(),
        CommandError::AccountNotFound("b".to_string())
    );
}

#[test]
fn check_up_is_the_same_check() {
    let c = config("work", BackendConfig::Notmuch, imap(ImapAuthConfig::Password, None));
    let steps = CheckUpAccountCommand { account: arg(Some("work")) }.plan(&c).unwrap();
    assert_eq!(steps.len(), 6);
    assert!(matches!(&steps[1], CheckStep::Print(m) if *m == log("Checking left Notmuch integrity…")));
    assert!(matches!(&steps[4], CheckStep::CheckUp(p) if p.pool_size == Some(1) && p.kind == BackendKind::Imap));
}

#[test]
fn synchronize_fails_on_an_unconfigured_side_before_anything_is_built() {
    let c = config("a", BackendConfig::Maildir, BackendConfig::Unconfigured);
    for dry_run in [false, true] {
        for json in [false, true] {
            assert_eq!(
                sync(None, dry_run).plan(&c, json).unwrap_err(),
                CommandError::BackendNotConfigured(BackendSource::Right)
            );
        }
    }
    let c = config("a", BackendConfig::Unconfigured, BackendConfig::Unconfigured);
    assert_eq!(
        sync(Some("a"), false).plan(&c, false).unwrap_err(),
        CommandError::BackendNotConfigured(BackendSource::Left)
    );
}

#[test]
fn synchronize_fails_on_account_resolution_first() {
    let mut c = Config::new();
    let mut a = account(BackendConfig::Unconfigured, BackendConfig::Unconfigured);
    a.default = None;
    c.insert("a".to_string(), a);
    assert_eq!(sync(None, false).plan(&c, false).unwrap_err(), CommandError::DefaultAccountNotFound);
    assert_eq!(
        sync(Some("x"), false).plan(&c, false).unwrap_err(),
        CommandError::AccountNotFound("x".to_string())
    );
}

#[test]
fn synchronize_plans_both_sides_with_the_account_settings() {
    let mut c = Config::new();
    let mut a = account(imap(ImapAuthConfig::Password, Some(4)), BackendConfig::Maildir);
    a.folder = Some(FolderConfig { filters: FolderSyncStrategy::Exclude(vec!["Spam".to_string()]) });
    a.left.folder = Some(FolderBackendConfig {
        permissions: FolderSyncPermissions { create: false, delete: false },
    });
    c.insert("work".to_string(), a);
    let mut cmd = sync(Some("work"), false);
    cmd.include_folder = vec!["INBOX".to_string()];
    let plan = cmd.plan(&c, false).unwrap();
    assert_eq!(plan.account, "work");
    assert_eq!(plan.mode, RunMode::LiveProgress);
    assert_eq!(plan.pool_size, Some(3));
    assert!(matches!(&plan.folder_filter, Some(FolderSyncStrategy::Include(v)) if *v == vec!["INBOX".to_string()]));
    assert_eq!(plan.left.source, BackendSource::Left);
    assert_eq!(plan.left.kind, BackendKind::Imap);
    assert_eq!(plan.left.pool_size, Some(4));
    assert_eq!(plan.left.config.name, "work");
    assert!(!plan.left.config.folder_filter.matches("Spam"));
    assert!(plan.left.config.folder_filter.matches("INBOX"));
    assert_eq!(plan.left.config.folder_permissions, FolderSyncPermissions { create: false, delete: false });
    assert_eq!(plan.right.source, BackendSource::Right);
    assert_eq!(plan.right.kind, BackendKind::Maildir);
    assert_eq!(plan.right.pool_size, None);
    assert_eq!(plan.right.config.folder_permissions, FolderSyncPermissions { create: true, delete: true });
    assert!(!plan.right.config.folder_filter.matches("Spam"));
    let copy = plan.left.clone();
    assert_eq!(copy.pool_size, Some(4));
    assert_eq!(copy.config.name, "work");
}

#[test]
fn synchronize_modes_follow_the_flags() {
    let c = config("a", BackendConfig::Maildir, BackendConfig::Notmuch);
    assert_eq!(sync(None, true).plan(&c, false).unwrap().mode, RunMode::DryRun);
    assert_eq!(sync(None, true).plan(&c, true).unwrap().mode, RunMode::DryRun);
    assert_eq!(sync(None, false).plan(&c, true).unwrap().mode, RunMode::LiveJson);
    assert_eq!(sync(None, false).plan(&c, false).unwrap().mode, RunMode::LiveProgress);
    assert!(sync(None, false).plan(&c, false).unwrap().folder_filter.is_none());
}

#[test]
fn sides_are_instantiated_together_or_not_at_all() {
    let a = account(BackendConfig::Maildir, BackendConfig::Notmuch);
    let (left, right) = instantiate_sides("a", &a, Operation::Synchronize).unwrap();
    assert_eq!((left.kind, right.kind), (BackendKind::Maildir, BackendKind::Notmuch));
    let a = account(BackendConfig::Maildir, BackendConfig::Unconfigured);
    assert_eq!(
        instantiate_sides("a", &a, Operation::Check).unwrap_err(),
        CommandError::BackendNotConfigured(BackendSource::Right)
    );
}

#[test]
fn configure_asks_for_the_secrets_of_protocol_clients() {
    let c = config("work", imap(ImapAuthConfig::Password, None), imap(ImapAuthConfig::OAuth2, None));
    let steps = ConfigureAccountCommand { account: arg(None), reset: false }.plan(&c).unwrap();
    assert_eq!(steps.len(), 3);
    assert!(matches!(&steps[0], ConfigureStep::Password(BackendSource::Left, p) if p == "Left IMAP password"));
    assert!(matches!(&steps[1], ConfigureStep::ClientSecret(BackendSource::Right, p) if p == "Right IMAP OAuth 2.0 client secret"));
    assert!(matches!(&steps[2], ConfigureStep::Print(m) if *m == Message {
        channel: Channel::Out,
        text: "Account work successfully configured!".to_string()
    }));
}

#[test]
fn configure_with_reset_forgets_first() {
    let c = config("work", imap(ImapAuthConfig::OAuth2, None), imap(ImapAuthConfig::Password, None));
    let steps = ConfigureAccountCommand { account: arg(Some("work")), reset: true }.plan(&c).unwrap();
    assert_eq!(steps.len(), 5);
    assert!(matches!(&steps[0], ConfigureStep::Reset(BackendSource::Left)));
    assert!(matches!(&steps[1], ConfigureStep::Reset(BackendSource::Right)));
    assert!(matches!(&steps[2], ConfigureStep::ClientSecret(BackendSource::Left, p) if p == "Left IMAP OAuth 2.0 client secret"));
    assert!(matches!(&steps[3], ConfigureStep::Password(BackendSource::Right, p) if p == "Right IMAP password"));
    assert!(matches!(&steps[4], ConfigureStep::Print(m) if m.text == "Account work successfully reconfigured!"));
}

#[test]
fn configure_has_nothing_to_ask_of_local_stores() {
    let c = config("work", BackendConfig::Maildir, BackendConfig::Unconfigured);
    for reset in [false, true] {
        let steps = ConfigureAccountCommand { account: arg(None), reset }.plan(&c).unwrap();
        assert_eq!(steps.len(), 1);
    }
    let c = config("work", BackendConfig::Notmuch, imap(ImapAuthConfig::Password, None));
    let steps = ConfigureAccountCommand { account: arg(None), reset: true }.plan(&c).unwrap();
    assert_eq!(steps.len(), 3);
    assert!(matches!(&steps[0], ConfigureStep::Reset(BackendSource::Right)));
    assert!(matches!(&steps[1], ConfigureStep::Password(BackendSource::Right, _)));
}

#[test]
fn configure_fails_on_an_unknown_account() {
    let c = config("work", BackendConfig::Maildir, BackendConfig::Maildir);
    assert_eq!(
        ConfigureAccountCommand { account: arg(Some("home")), reset: false }.plan(&c).unwrap_err(),
        CommandError::AccountNotFound("home".to_string())
    );
}

#[test]
fn manual_pages_are_named_after_the_commands() {
    let cmd = GenerateManualCommand { dir: "/tmp/man".to_string() };
    let pages = cmd.pages("neverest", &vec!["doctor".to_string(), "synchronize".to_string()]);
    assert_eq!(
        pages,
        vec![
            ManPage {
                subcommand: None,
                file_name: "neverest.1".to_string(),
                log: "Generating man page for command neverest…".to_string()
            },
            ManPage {
                subcommand: Some("doctor".to_string()),
                file_name: "neverest-doctor.1".to_string(),
                log: "Generating man page for subcommand doctor…".to_string()
            },
            ManPage {
                subcommand: Some("synchronize".to_string()),
                file_name: "neverest-synchronize.1".to_string(),
                log: "Generating man page for subcommand synchronize…".to_string()
            },
        ]
    );
    assert_eq!(cmd.summary(2, "\"/tmp/man\""), "3 man page(s) successfully generated in \"/tmp/man\"!");
    assert_eq!(cmd.pages("n", &vec![]).len(), 1);
    assert_eq!(cmd.summary(0, "d"), "1 man page(s) successfully generated in d!");
    assert_eq!(
        cmd.summary(usize::MAX, "d"),
        format!("{} man page(s) successfully generated in d!", usize::MAX as u128 + 1)
    );
}

fn cli(debug: bool, trace: bool) -> Cli {
    Cli {
        command: NeverestCommand::Doctor(DoctorAccountCommand { account: arg(None) }),
        config_paths: vec![],
        output: OutputFmt::Plain,
        color: ColorFmt::Auto,
        debug,
        trace,
    }
}

#[test]
fn log_level_follows_the_flags_unless_the_environment_sets_it() {
    assert_eq!(cli(true, false).log_level(false), Some(LevelFilter::Debug));
    assert_eq!(cli(false, true).log_level(false), Some(LevelFilter::Trace));
    assert_eq!(cli(true, true).log_level(false), Some(LevelFilter::Debug));
    assert_eq!(cli(false, false).log_level(false), None);
    assert_eq!(cli(true, false).log_level(true), None);
    assert_eq!(cli(false, true).log_level(true), None);
}

#[test]
fn notes_name_the_flags_that_would_log_more() {
    let debug = "Run with --debug to enable logs with spantrace.".to_string();
    let trace = "Run with --trace to enable verbose logs with backtrace.".to_string();
    for level in [LevelFilter::Off, LevelFilter::Error, LevelFilter::Warn, LevelFilter::Info] {
        assert_eq!(Cli::notes(level), vec![debug.clone(), trace.clone()]);
    }
    assert_eq!(Cli::notes(LevelFilter::Debug), vec![trace]);
    assert_eq!(Cli::notes(LevelFilter::Trace), Vec::<String>::new());
}

#[test]
fn account_commands_need_the_configuration() {
    assert!(NeverestCommand::Doctor(DoctorAccountCommand { account: arg(None) }).needs_config());
    assert!(NeverestCommand::Configure(ConfigureAccountCommand { account: arg(None), reset: false })
        .needs_config());
    assert!(NeverestCommand::Synchronize(sync(None, false)).needs_config());
    assert!(!NeverestCommand::Manual(GenerateManualCommand { dir: ".".to_string() }).needs_config());
}

#[test]
fn preset_secrets_are_looked_up_for_protocol_clients() {
    let side = |backend| TomlBackendConfig { backend, folder: None, envelope: None, flag: None, message: None };
    let imap = TomlBackend::Imap(ImapConfig { auth: ImapAuthConfig::Password, clients_pool_size: None });
    let p = TomlPresetConfig { default: None, left: side(TomlBackend::Maildir), right: side(imap) };
    assert_eq!(p.configure(), vec![BackendSource::Right]);
    let p = TomlPresetConfig { default: None, left: side(imap), right: side(imap) };
    assert_eq!(p.configure(), vec![BackendSource::Left, BackendSource::Right]);
    let p = TomlPresetConfig { default: None, left: side(TomlBackend::Notmuch), right: side(TomlBackend::Maildir) };
    assert_eq!(p.configure(), vec![]);
    let cmd = SynchronizeBackendsCommand { preset: OptionalPresetNameArg { name: Some("p".to_string()) } };
    assert_eq!(cmd.preset.name.as_deref(), Some("p"));
}

#[test]
fn the_wizard_makes_a_default_account() {
    assert_eq!(wizard::default_account_name(), "personal");
    assert_eq!(
        backend_wizard::default_backend_kinds(),
        vec![BackendKind::Imap, BackendKind::Maildir, BackendKind::Notmuch]
    );
    assert_eq!(backend_wizard::prompt(BackendSource::Left), "Left backend source:");
    assert_eq!(backend_wizard::prompt(BackendSource::Right), "Right backend source:");
    let left = backend_wizard::configure(BackendConfig::Maildir);
    assert_eq!(left, side(BackendConfig::Maildir));
    let right = backend_wizard::configure(imap(ImapAuthConfig::Password, None));
    let a = wizard::configure(left, right);
    assert_eq!(a.default, Some(true));
    assert!(a.folder.is_none() && a.envelope.is_none() && a.pool_size.is_none());
    assert_eq!((a.left, a.right), (left, right));
    let c = Config::from_wizard("personal".to_string(), a);
    assert_eq!(c.len(), 1);
    let (name, found) = c.into_account_config(None).unwrap();
    assert_eq!(name, "personal");
    assert_eq!(found.left, left);
    assert_eq!(Config::project_name(), "neverest");
}

#[test]
fn the_account_name_argument_is_borrowed() {
    assert_eq!(arg(Some("a")).as_deref(), Some("a"));
    assert_eq!(arg(None).as_deref(), None);
}

#[test]
fn a_check_ends_well_exactly_where_both_sides_answer() {
    let c = config("work", imap(ImapAuthConfig::Password, None), BackendConfig::Maildir);
    let steps = check_plan(None, &c).unwrap();
    let no = |why: &str| -> Result<(), String> { Err(why.to_string()) };
    assert_eq!(check_course(&steps, &Ok(()), &Ok(())), (6, Ok(())));
    assert_eq!(
        check_course(&steps, &no("refused"), &Ok(())),
        (3, Err(CommandError::BackendInstantiation(BackendSource::Left, "refused".to_string())))
    );
    assert_eq!(
        check_course(&steps, &no("refused"), &no("missing")),
        (3, Err(CommandError::BackendInstantiation(BackendSource::Left, "refused".to_string())))
    );
    assert_eq!(
        check_course(&steps, &Ok(()), &no("missing")),
        (5, Err(CommandError::BackendInstantiation(BackendSource::Right, "missing".to_string())))
    );
}

#[test]
fn a_check_without_backend_ends_after_the_account_line() {
    let c = config("work", BackendConfig::Maildir, BackendConfig::Unconfigured);
    let steps = check_plan(None, &c).unwrap();
    for left in [Ok(()), Err("refused".to_string())] {
        assert_eq!(
            check_course(&steps, &left, &Ok(())),
            (2, Err(CommandError::BackendNotConfigured(BackendSource::Right)))
        );
    }
    assert_eq!(check_course(&vec![], &Ok(()), &Ok(())), (0, Ok(())));
}

#[test]
fn a_failed_reset_does_not_end_the_configuration_and_a_failed_prompt_does() {
    let c = config("work", imap(ImapAuthConfig::Password, None), imap(ImapAuthConfig::OAuth2, None));
    let steps = ConfigureAccountCommand { account: arg(None), reset: true }.plan(&c).unwrap();
    assert_eq!(steps.len(), 5);
    assert_eq!(ending_step(&steps, &vec![false; 5]), None);
    assert_eq!(ending_step(&steps, &vec![true, true, false, false, false]), None);
    assert_eq!(ending_step(&steps, &vec![true, false, true, false, false]), Some(2));
    assert_eq!(ending_step(&steps, &vec![false, true, false, true, true]), Some(3));
    assert_eq!(ending_step(&steps, &vec![false, false, false, false, true]), Some(4));
    assert_eq!(ending_step(&steps, &vec![true, true, true]), Some(2));
    assert_eq!(ending_step(&steps, &vec![]), None);
    assert_eq!(ending_step(&vec![], &vec![true]), None);
}
