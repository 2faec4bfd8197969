//! The command that asks for the secrets of an account and stores them.

use vstd::prelude::*;
use vstd::string::StringExecFns;
use crate::account::arg::name::OptionalAccountNameArg;
use crate::account::config::TomlAccountConfigView;
use crate::backend::config::{BackendConfig, ImapAuthConfig};
use crate::backend::BackendSource;
use crate::config::{
    first_true, lemma_first_true, spec_meant_name, spec_resolve, AccountsView, Config,
};
use crate::error::{CommandError, CommandErrorView};
use crate::printer::{out, Channel, Message};
use crate::text::{concat3, concat5};

verus! {

/// One step of the configuration of an account.
#[derive(Debug)]
pub enum ConfigureStep {
    /// Forget the stored secrets of the side. A failure to do so is told and
    /// does not end the command.
    Reset(BackendSource),
    /// Ask for the password of the side under this prompt, and store it.
    Password(BackendSource, String),
    /// Ask for the client secret of the side under this prompt, and store it.
    ClientSecret(BackendSource, String),
    /// Hand this item to the printer.
    Print(Message),
}

/// A [`ConfigureStep`] as a mathematical value.
pub enum ConfigureStepView {
    Reset(BackendSource),
    Password(BackendSource, Seq<char>),
    ClientSecret(BackendSource, Seq<char>),
    Print((Channel, Seq<char>)),
}

impl View for ConfigureStep {
    type V = ConfigureStepView;

    open spec fn view(&self) -> ConfigureStepView {
        match self {
            ConfigureStep::Reset(side) => ConfigureStepView::Reset(*side),
            ConfigureStep::Password(side, prompt) => ConfigureStepView::Password(*side, prompt@),
            ConfigureStep::ClientSecret(side, prompt) => ConfigureStepView::ClientSecret(
                *side,
                prompt@,
            ),
            ConfigureStep::Print(m) => ConfigureStepView::Print(m@),
        }
    }
}

impl ConfigureStep {
    /// Whether the command ends where the step fails. It does on every step
    /// but the one that forgets the stored secrets: a failure to forget is
    /// told and the command goes on with the next step.
    pub fn ends_on_failure(&self) -> (r: bool)
        ensures
            r == !(self@ is Reset),
    {
        match self {
            ConfigureStep::Reset(_) => false,
            _ => true,
        }
    }
}

/// For each step, whether its failure ends the command: whether it failed
/// and is not one whose failure is only told. A step of which the list of
/// failures does not speak did not fail.
pub open spec fn ending_flags(steps: Seq<ConfigureStepView>, failed: Seq<bool>) -> Seq<bool> {
    Seq::new(steps.len(), |i: int| i < failed.len() && failed[i] && !(steps[i] is Reset))
}

/// The step at which the command ends with a failure, where it does: the
/// first one that failed and whose failure is not only told. The steps
/// before it are performed, those after it are not; where there is none,
/// every step is performed and the command ends well.
pub open spec fn spec_ending_step(steps: Seq<ConfigureStepView>, failed: Seq<bool>) -> Option<int> {
    first_true(ending_flags(steps, failed))
}

/// The steps of a list as a mathematical value.
pub open spec fn configure_steps_view(v: Seq<ConfigureStep>) -> Seq<ConfigureStepView> {
    Seq::new(v.len(), |i: int| v[i]@)
}

/// The step that forgets the secrets of a side: one for a protocol client
/// where a reset is asked for, else none.
pub open spec fn reset_steps(source: BackendSource, backend: BackendConfig, reset: bool) -> Seq<
    ConfigureStepView,
> {
    if reset && backend is Imap {
        seq![ConfigureStepView::Reset(source)]
    } else {
        Seq::empty()
    }
}

/// The step that asks for the secret of a side: for a protocol client its
/// password or its client secret, as it proves who it is; for any other side
/// none.
pub open spec fn prompt_steps(source: BackendSource, backend: BackendConfig) -> Seq<
    ConfigureStepView,
> {
    match backend {
        BackendConfig::Imap(imap) => match imap.auth {
            ImapAuthConfig::Password => seq![
                ConfigureStepView::Password(source, source.spec_title() + " IMAP password"@),
            ],
            ImapAuthConfig::OAuth2 => seq![
                ConfigureStepView::ClientSecret(
                    source,
                    source.spec_title() + " IMAP OAuth 2.0 client secret"@,
                ),
            ],
        },
        _ => Seq::empty(),
    }
}

/// The line that closes the configuration of an account.
pub open spec fn configured_line(name: Seq<char>, reset: bool) -> Seq<char> {
    "Account "@ + name + " successfully "@ + (if reset {
        "re"@
    } else {
        Seq::empty()
    }) + "configured!"@
}

/// The steps that configure a resolved account: the secrets are forgotten
/// first, where that is asked for, then asked for again, the left side before
/// the right one each time, and the closing line comes last.
pub open spec fn account_steps(name: Seq<char>, account: TomlAccountConfigView, reset: bool) -> Seq<
    ConfigureStepView,
> {
    reset_steps(BackendSource::Left, account.left.backend, reset) + reset_steps(
        BackendSource::Right,
        account.right.backend,
        reset,
    ) + prompt_steps(BackendSource::Left, account.left.backend) + prompt_steps(
        BackendSource::Right,
        account.right.backend,
    ) + seq![ConfigureStepView::Print(out(configured_line(name, reset)))]
}

/// The steps that configure the account that a command is about, or the
/// failure to resolve it.
pub open spec fn spec_configure_plan(
    accounts: AccountsView,
    name: Option<Seq<char>>,
    reset: bool,
) -> Result<Seq<ConfigureStepView>, CommandErrorView> {
    match spec_resolve(accounts, name) {
        Err(e) => Err(e),
        Ok(found) => Ok(account_steps(found.0, found.1, reset)),
    }
}

/// The steps of a configuration, or the failure to plan one, as a
/// mathematical value.
pub open spec fn configure_plan_view(r: Result<Vec<ConfigureStep>, CommandError>) -> Result<
    Seq<ConfigureStepView>,
    CommandErrorView,
> {
    match r {
        Ok(steps) => Ok(configure_steps_view(steps@)),
        Err(e) => Err(e@),
    }
}

fn push_step(list: &mut Vec<ConfigureStep>, step: ConfigureStep)
    ensures
        configure_steps_view(final(list)@) == configure_steps_view(old(list)@).push(step@),
{
    list.push(step);
}

fn push_reset(
    list: &mut Vec<ConfigureStep>,
    source: BackendSource,
    backend: BackendConfig,
    reset: bool,
)
    ensures
        configure_steps_view(final(list)@) == configure_steps_view(old(list)@) + reset_steps(
            source,
            backend,
            reset,
        ),
{
    match backend {
        BackendConfig::Imap(_) => {
            if reset {
                push_step(list, ConfigureStep::Reset(source));
            }
        },
        _ => {},
    }
}

fn push_prompt(list: &mut Vec<ConfigureStep>, source: BackendSource, backend: BackendConfig)
    ensures
        configure_steps_view(final(list)@) == configure_steps_view(old(list)@) + prompt_steps(
            source,
            backend,
        ),
{
    match backend {
        BackendConfig::Imap(imap) => {
            let mut prompt = source.title();
            match imap.auth {
                ImapAuthConfig::Password => {
                    prompt.append(" IMAP password");
                    push_step(list, ConfigureStep::Password(source, prompt));
                },
                ImapAuthConfig::OAuth2 => {
                    prompt.append(" IMAP OAuth 2.0 client secret");
                    push_step(list, ConfigureStep::ClientSecret(source, prompt));
                },
            }
        },
        _ => {},
    }
}

/// Tells at which step the command ends with a failure, by which steps
/// fail where they are performed; or nothing where the command ends well.
pub fn ending_step(steps: &Vec<ConfigureStep>, failed: &Vec<bool>) -> (r: Option<usize>)
    ensures
        match r {
            Some(i) => spec_ending_step(configure_steps_view(steps@), failed@) == Some(i as int),
            None => spec_ending_step(configure_steps_view(steps@), failed@) is None,
        },
{
    let ghost flags = ending_flags(configure_steps_view(steps@), failed@);
    proof {
        lemma_first_true(flags);
    }
    let mut i: usize = 0;
    while i < steps.len()
        invariant
            i <= steps.len(),
            flags == ending_flags(configure_steps_view(steps@), failed@),
            forall|j: int| 0 <= j < i ==> !flags[j],
        decreases steps.len() - i,
    {
        if i < failed.len() && failed[i] && steps[i].ends_on_failure() {
            proof {
                lemma_first_true(flags);
            }
            assert(flags[i as int]);
            return Some(i);
        }
        i = i + 1;
    }
    None
}

/// Configure an account: define or reset the secrets of its protocol
/// clients.
#[derive(Clone, Debug, PartialEq, Eq)]
pub struct ConfigureAccountCommand {
    pub account: OptionalAccountNameArg,
    /// Forget the stored secrets first, so that they are asked for again.
    pub reset: bool,
}

impl ConfigureAccountCommand {
    /// The steps of the configuration, or the failure to resolve the
    /// account.
    pub fn plan(&self, config: &Config) -> (r: Result<Vec<ConfigureStep>, CommandError>)
        ensures
            configure_plan_view(r) == spec_configure_plan(
                config@,
                spec_meant_name(self.account.spec_name()),
                self.reset,
            ),
    {
        match config.into_account_config(self.account.as_deref()) {
            Err(e) => Err(e),
            Ok(found) => {
                let (name, account) = found;
                let mut steps: Vec<ConfigureStep> = Vec::new();
                push_reset(&mut steps, BackendSource::Left, account.left.backend, self.reset);
                push_reset(&mut steps, BackendSource::Right, account.right.backend, self.reset);
                push_prompt(&mut steps, BackendSource::Left, account.left.backend);
                push_prompt(&mut steps, BackendSource::Right, account.right.backend);
                let line = if self.reset {
                    concat5("Account ", name.as_str(), " successfully ", "re", "configured!")
                } else {
                    let mut l = concat3("Account ", name.as_str(), " successfully ");
                    l.append("configured!");
                    l
                };
                push_step(&mut steps, ConfigureStep::Print(Message::out(line)));
                assert(configure_steps_view(steps@) =~= account_steps(
                    name@,
                    account@,
                    self.reset,
                ));
                Ok(steps)
            },
        }
    }
}

/// The configuration of a resolved account ends well exactly where no step
/// but one that forgets the stored secrets fails; then every step is
/// performed, the closing line last. Where another step fails, the command
/// ends there, and the closing line is not printed unless it is the step
/// that failed.
pub proof fn lemma_configure_course(
    name: Seq<char>,
    account: TomlAccountConfigView,
    reset: bool,
    failed: Seq<bool>,
)
    ensures
        account_steps(name, account, reset).len() >= 1,
        account_steps(name, account, reset).last() == ConfigureStepView::Print(
            out(configured_line(name, reset)),
        ),
        spec_ending_step(account_steps(name, account, reset), failed) is None <==> (forall|i: int|
            0 <= i < account_steps(name, account, reset).len() && i < failed.len()
                && #[trigger] failed[i] ==> account_steps(name, account, reset)[i] is Reset),
        spec_ending_step(account_steps(name, account, reset), failed) matches Some(i) ==> 0 <= i
            < account_steps(name, account, reset).len() && failed[i] && !(account_steps(
            name,
            account,
            reset,
        )[i] is Reset),
{
    let steps = account_steps(name, account, reset);
    let flags = ending_flags(steps, failed);
    lemma_first_true(flags);
    if first_true(flags) is Some {
        let i = first_true(flags)->0;
        assert(flags[i]);
    } else {
        assert forall|i: int| 0 <= i < steps.len() && i < failed.len() && #[trigger] failed[i]
            implies steps[i] is Reset by {
            assert(!flags[i]);
        }
    }
}

} // verus!
