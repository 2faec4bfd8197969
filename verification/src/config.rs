//! The configuration: the accounts by name, and the rule that finds the
//! account a command is about.

use vstd::prelude::*;
use vstd::string::StringExecFns;
use crate::account::config::{TomlAccountConfig, TomlAccountConfigView};
use crate::error::{CommandError, CommandErrorView};
use crate::sync::config::same_text;

verus! {

/// The accounts of a configuration as a mathematical value: in the order in
/// which they were added, each with its name.
pub type AccountsView = Seq<(Seq<char>, TomlAccountConfigView)>;

/// The accounts of a list, as a mathematical value.
pub open spec fn accounts_view(v: Seq<(String, TomlAccountConfig)>) -> AccountsView {
    Seq::new(v.len(), |i: int| (v[i].0@, v[i].1@))
}

/// No name is that of two accounts.
pub open spec fn distinct_accounts(accounts: AccountsView) -> bool {
    forall|i: int, j: int|
        0 <= i < j < accounts.len() ==> (#[trigger] accounts[i]).0 != (#[trigger] accounts[j]).0
}

/// The first place at which a list of flags holds a true one.
pub open spec fn first_true(flags: Seq<bool>) -> Option<int>
    decreases flags.len(),
{
    if flags.len() == 0 {
        None
    } else {
        match first_true(flags.drop_last()) {
            Some(i) => Some(i),
            None => if flags.last() {
                Some(flags.len() - 1)
            } else {
                None
            },
        }
    }
}

/// What [`first_true`] finds: a place of a true flag with none before it, or
/// nothing where every flag is false.
pub proof fn lemma_first_true(flags: Seq<bool>)
    ensures
        match first_true(flags) {
            Some(i) => 0 <= i < flags.len() && flags[i] && forall|j: int| 0 <= j < i ==> !flags[j],
            None => forall|j: int| 0 <= j < flags.len() ==> !flags[j],
        },
    decreases flags.len(),
{
    if flags.len() > 0 {
        lemma_first_true(flags.drop_last());
        assert forall|j: int| 0 <= j < flags.len() - 1 implies flags.drop_last()[j]
            == flags[j] by {}
    }
}

/// For each account, whether it is marked as default.
pub open spec fn default_flags(accounts: AccountsView) -> Seq<bool> {
    Seq::new(accounts.len(), |i: int| accounts[i].1.is_default())
}

/// For each account, whether it has the given name.
pub open spec fn name_flags(accounts: AccountsView, name: Seq<char>) -> Seq<bool> {
    Seq::new(accounts.len(), |i: int| accounts[i].0 == name)
}

/// The account marked as default: the first one, where several are marked.
pub open spec fn spec_default_account(accounts: AccountsView) -> Option<
    (Seq<char>, TomlAccountConfigView),
> {
    match first_true(default_flags(accounts)) {
        Some(i) => Some(accounts[i]),
        None => None,
    }
}

/// The account of the given name.
pub open spec fn spec_account(accounts: AccountsView, name: Seq<char>) -> Option<
    (Seq<char>, TomlAccountConfigView),
> {
    match first_true(name_flags(accounts, name)) {
        Some(i) => Some(accounts[i]),
        None => None,
    }
}

/// The name that a given name means: the empty name and the name `default`
/// stand for no name, every other name for itself.
pub open spec fn spec_meant_name(name: Option<Seq<char>>) -> Option<Seq<char>> {
    match name {
        Some(n) => if n == ""@ || n == "default"@ {
            None
        } else {
            Some(n)
        },
        None => None,
    }
}

/// The account that a command is about: the one of the meant name, or the
/// default one where no name is meant; and the failure where there is none.
pub open spec fn spec_resolve(accounts: AccountsView, name: Option<Seq<char>>) -> Result<
    (Seq<char>, TomlAccountConfigView),
    CommandErrorView,
> {
    match name {
        None => match spec_default_account(accounts) {
            Some(found) => Ok(found),
            None => Err(CommandErrorView::DefaultAccountNotFound),
        },
        Some(n) => match spec_account(accounts, n) {
            Some(found) => Ok(found),
            None => Err(CommandErrorView::AccountNotFound(n)),
        },
    }
}

/// A found account as a mathematical value.
pub open spec fn found_view(r: Option<(String, TomlAccountConfig)>) -> Option<
    (Seq<char>, TomlAccountConfigView),
> {
    match r {
        Some(found) => Some((found.0@, found.1@)),
        None => None,
    }
}

/// A resolved account, or the failure to resolve one, as a mathematical value.
pub open spec fn resolved_view(r: Result<(String, TomlAccountConfig), CommandError>) -> Result<
    (Seq<char>, TomlAccountConfigView),
    CommandErrorView,
> {
    match r {
        Ok(found) => Ok((found.0@, found.1@)),
        Err(e) => Err(e@),
    }
}

/// An optional name as a mathematical value.
pub open spec fn name_view(name: Option<&str>) -> Option<Seq<char>> {
    match name {
        Some(n) => Some(n@),
        None => None,
    }
}

/// Where the configuration comes from.
#[derive(Clone, Copy, Debug, PartialEq, Eq, Structural)]
pub enum ConfigSource {
    /// It is read from the given paths, the later ones merged into the first.
    GivenPaths,
    /// It is read from the first default path that holds a file.
    DefaultPath,
    /// It is made by the wizard and saved at the first given path.
    WizardAtGivenPath,
    /// It is made by the wizard and saved at the default path.
    WizardAtDefaultPath,
    /// There is none.
    Missing,
}

/// Where the configuration comes from: from the given paths where the first
/// of them holds a file; from a default path where no path is given and one
/// holds a file; else from the wizard, where there is a wizard.
pub open spec fn spec_config_source(
    given: nat,
    first_given_exists: bool,
    default_exists: bool,
    wizard: bool,
) -> ConfigSource {
    if given == 0 {
        if default_exists {
            ConfigSource::DefaultPath
        } else if wizard {
            ConfigSource::WizardAtDefaultPath
        } else {
            ConfigSource::Missing
        }
    } else if first_given_exists {
        ConfigSource::GivenPaths
    } else if wizard {
        ConfigSource::WizardAtGivenPath
    } else {
        ConfigSource::Missing
    }
}

/// Decides where the configuration comes from, by the number of given paths,
/// whether the first of them holds a file, whether a default path holds one,
/// and whether there is a wizard.
pub fn config_source(
    given: usize,
    first_given_exists: bool,
    default_exists: bool,
    wizard: bool,
) -> (r: Result<ConfigSource, CommandError>)
    ensures
        match r {
            Ok(source) => source != ConfigSource::Missing && source == spec_config_source(
                given as nat,
                first_given_exists,
                default_exists,
                wizard,
            ),
            Err(e) => e@ == CommandErrorView::ConfigNotFound && spec_config_source(
                given as nat,
                first_given_exists,
                default_exists,
                wizard,
            ) == ConfigSource::Missing,
        },
{
    if given == 0 {
        if default_exists {
            Ok(ConfigSource::DefaultPath)
        } else if wizard {
            Ok(ConfigSource::WizardAtDefaultPath)
        } else {
            Err(CommandError::ConfigNotFound)
        }
    } else if first_given_exists {
        Ok(ConfigSource::GivenPaths)
    } else if wizard {
        Ok(ConfigSource::WizardAtGivenPath)
    } else {
        Err(CommandError::ConfigNotFound)
    }
}

/// The configuration of all the accounts.
#[derive(Debug)]
pub struct Config {
    accounts: Vec<(String, TomlAccountConfig)>,
}

impl View for Config {
    type V = AccountsView;

    closed spec fn view(&self) -> AccountsView {
        accounts_view(self.accounts@)
    }
}

impl Default for Config {
    fn default() -> (r: Self)
        ensures
            r.wf(),
            r@ == AccountsView::empty(),
    {
        Config::new()
    }
}

impl Config {
    /// The invariant of a configuration: no name is that of two accounts.
    pub closed spec fn wf(&self) -> bool {
        distinct_accounts(self@)
    }

    /// The name of the project, under which the default paths of the
    /// configuration are looked for.
    pub fn project_name() -> (r: &'static str)
        ensures
            r@ == "neverest"@,
    {
        "neverest"
    }

    /// A configuration without accounts.
    pub fn new() -> (r: Self)
        ensures
            r.wf(),
            r@ == AccountsView::empty(),
    {
        let r = Config { accounts: Vec::new() };
        r
    }

    /// The configuration as the wizard leaves it: the one account that the
    /// answers describe, under its name.
    pub fn from_wizard(name: String, account: TomlAccountConfig) -> (r: Self)
        ensures
            r.wf(),
            r@ == seq![(name@, account@)],
    {
        let mut r = Config::new();
        r.insert(name, account);
        r
    }

    /// The number of accounts.
    pub fn len(&self) -> (r: usize)
        ensures
            r == self@.len(),
    {
        self.accounts.len()
    }

    fn position(&self, name: &str) -> (r: Option<usize>)
        ensures
            match r {
                Some(i) => first_true(name_flags(self@, name@)) == Some(i as int) && i
                    < self.accounts@.len(),
                None => first_true(name_flags(self@, name@)) is None,
            },
    {
        let ghost flags = name_flags(self@, name@);
        proof {
            lemma_first_true(flags);
        }
        let mut i: usize = 0;
        while i < self.accounts.len()
            invariant
                i <= self.accounts.len(),
                flags == name_flags(self@, name@),
                forall|j: int| 0 <= j < i ==> !flags[j],
            decreases self.accounts.len() - i,
        {
            if same_text(self.accounts[i].0.as_str(), name) {
                proof {
                    lemma_first_true(flags);
                }
                assert(flags[i as int]);
                return Some(i);
            }
            i = i + 1;
        }
        None
    }

    /// Puts an account under a name. An account that had the name is replaced
    /// where it stood; a new name comes last.
    pub fn insert(&mut self, name: String, account: TomlAccountConfig)
        requires
            old(self).wf(),
        ensures
            final(self).wf(),
            final(self)@ == match first_true(name_flags(old(self)@, name@)) {
                Some(i) => old(self)@.update(i, (name@, account@)),
                None => old(self)@.push((name@, account@)),
            },
    {
        let ghost before = self@;
        proof {
            lemma_first_true(name_flags(before, name@));
        }
        match self.position(name.as_str()) {
            Some(i) => {
                self.accounts.set(i, (name, account));
                assert forall|a: int, b: int| 0 <= a < b < self@.len() implies (
                #[trigger] self@[a]).0 != (#[trigger] self@[b]).0 by {
                    assert(self@[a].0 == before[a].0);
                    assert(self@[b].0 == before[b].0);
                }
            },
            None => {
                self.accounts.push((name, account));
                assert forall|a: int, b: int| 0 <= a < b < self@.len() implies (
                #[trigger] self@[a]).0 != (#[trigger] self@[b]).0 by {
                    if b < before.len() {
                        assert(self@[b] == before[b]);
                    } else {
                        assert(!name_flags(before, name@)[a]);
                    }
                }
            },
        }
    }

    /// The account marked as default, with its name: the first one, where
    /// several are marked.
    pub fn get_default_account_config(&self) -> (r: Option<(String, TomlAccountConfig)>)
        ensures
            found_view(r) == spec_default_account(self@),
    {
        let ghost flags = default_flags(self@);
        proof {
            lemma_first_true(flags);
        }
        let mut i: usize = 0;
        while i < self.accounts.len()
            invariant
                i <= self.accounts.len(),
                flags == default_flags(self@),
                forall|j: int| 0 <= j < i ==> !flags[j],
            decreases self.accounts.len() - i,
        {
            if self.accounts[i].1.is_default() {
                proof {
                    lemma_first_true(flags);
                }
                assert(flags[i as int]);
                return Some((self.accounts[i].0.clone(), self.accounts[i].1.clone()));
            }
            i = i + 1;
        }
        None
    }

    /// The account of the given name, with its name.
    pub fn get_account_config(&self, name: &str) -> (r: Option<(String, TomlAccountConfig)>)
        ensures
            found_view(r) == spec_account(self@, name@),
    {
        match self.position(name) {
            Some(i) => {
                assert(name_flags(self@, name@)[i as int]) by {
                    lemma_first_true(name_flags(self@, name@));
                }
                Some((String::from_str(name), self.accounts[i].1.clone()))
            },
            None => None,
        }
    }

    /// Finds the account that a command is about: the one of the given name,
    /// or the one marked as default where no name is given. The empty name
    /// and the name `default` are taken as no name.
    pub fn into_account_config(&self, account_name: Option<&str>) -> (r: Result<
        (String, TomlAccountConfig),
        CommandError,
    >)
        ensures
            resolved_view(r) == spec_resolve(self@, spec_meant_name(name_view(account_name))),
    {
        let meant = match account_name {
            Some(name) => if same_text(name, "") || same_text(name, "default") {
                None
            } else {
                Some(name)
            },
            None => None,
        };
        match meant {
            None => match self.get_default_account_config() {
                Some(found) => Ok(found),
                None => Err(CommandError::DefaultAccountNotFound),
            },
            Some(name) => match self.get_account_config(name) {
                Some(found) => Ok(found),
                None => Err(CommandError::AccountNotFound(String::from_str(name))),
            },
        }
    }
}

/// Where no name is given and one account alone is marked as default, that
/// account is found.
pub proof fn lemma_single_default_is_found(accounts: AccountsView, d: int)
    requires
        0 <= d < accounts.len(),
        accounts[d].1.is_default(),
        forall|j: int|
            0 <= j < accounts.len() && j != d ==> !(#[trigger] accounts[j]).1.is_default(),
    ensures
        spec_resolve(accounts, None) == Ok::<(Seq<char>, TomlAccountConfigView), CommandErrorView>(
            accounts[d],
        ),
{
    let flags = default_flags(accounts);
    lemma_first_true(flags);
    assert(flags[d]);
    if first_true(flags) is Some {
        let i = first_true(flags)->0;
        assert(flags[i] == accounts[i].1.is_default());
    }
}

/// Where no name is given and no account is marked as default, the failure
/// says that there is no default account.
pub proof fn lemma_no_default_fails(accounts: AccountsView)
    requires
        forall|j: int| 0 <= j < accounts.len() ==> !(#[trigger] accounts[j]).1.is_default(),
    ensures
        spec_resolve(accounts, None) == Err::<(Seq<char>, TomlAccountConfigView), CommandErrorView>(
            CommandErrorView::DefaultAccountNotFound,
        ),
{
    let flags = default_flags(accounts);
    lemma_first_true(flags);
    if first_true(flags) is Some {
        let i = first_true(flags)->0;
        assert(flags[i] == accounts[i].1.is_default());
    }
}

/// The empty name and the name `default` find what no name finds, whether
/// or not an account has that name.
pub proof fn lemma_alias_means_no_name(accounts: AccountsView)
    ensures
        spec_resolve(accounts, spec_meant_name(Some(""@))) == spec_resolve(accounts, None),
        spec_resolve(accounts, spec_meant_name(Some("default"@))) == spec_resolve(accounts, None),
        spec_resolve(accounts, spec_meant_name(None)) == spec_resolve(accounts, None),
{
}

/// A name that no account has fails, and the failure holds the name, unless
/// the name stands for no name.
pub proof fn lemma_unknown_name_fails(accounts: AccountsView, name: Seq<char>)
    requires
        name != ""@,
        name != "default"@,
        forall|j: int| 0 <= j < accounts.len() ==> (#[trigger] accounts[j]).0 != name,
    ensures
        spec_resolve(accounts, spec_meant_name(Some(name))) == Err::<
            (Seq<char>, TomlAccountConfigView),
            CommandErrorView,
        >(CommandErrorView::AccountNotFound(name)),
{
    let flags = name_flags(accounts, name);
    lemma_first_true(flags);
    if first_true(flags) is Some {
        let i = first_true(flags)->0;
        assert(flags[i] == (accounts[i].0 == name));
    }
}

/// A name that an account has finds that account, whether or not any account
/// is marked as default, unless the name stands for no name.
pub proof fn lemma_known_name_is_found(accounts: AccountsView, i: int)
    requires
        distinct_accounts(accounts),
        0 <= i < accounts.len(),
        accounts[i].0 != ""@,
        accounts[i].0 != "default"@,
    ensures
        spec_resolve(accounts, spec_meant_name(Some(accounts[i].0))) == Ok::<
            (Seq<char>, TomlAccountConfigView),
            CommandErrorView,
        >(accounts[i]),
{
    let flags = name_flags(accounts, accounts[i].0);
    lemma_first_true(flags);
    assert(flags[i]);
    if first_true(flags) is Some {
        let k = first_true(flags)->0;
        assert(flags[k] == (accounts[k].0 == accounts[i].0));
    }
}

} // verus!
