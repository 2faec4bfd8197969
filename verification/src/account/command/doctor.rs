//! The command that checks whether the two sides of an account can be
//! reached.

use vstd::prelude::*;
use vstd::string::StringExecFns;
use crate::account::arg::name::OptionalAccountNameArg;
use crate::account::config::{instantiate_sides, spec_sides};
use crate::backend::plan::{BackendPlan, BackendPlanView, Operation};
use crate::backend::{BackendKind, BackendSource};
use crate::config::{name_view, spec_meant_name, spec_resolve, AccountsView, Config};
use crate::error::{CommandError, CommandErrorView};
use crate::printer::{log, out, Channel, Message};
use crate::text::{concat3, concat5};

verus! {

/// One step of a check.
#[derive(Debug)]
pub enum CheckStep {
    /// Hand this item to the printer.
    Print(Message),
    /// Open this backend and see that it answers. What follows is told by
    /// [`after_check_up`].
    CheckUp(BackendPlan),
    /// End the check with this failure.
    Fail(CommandError),
}

/// A [`CheckStep`] as a mathematical value.
pub enum CheckStepView {
    Print((Channel, Seq<char>)),
    CheckUp(BackendPlanView),
    Fail(CommandErrorView),
}

impl View for CheckStep {
    type V = CheckStepView;

    open spec fn view(&self) -> CheckStepView {
        match self {
            CheckStep::Print(m) => CheckStepView::Print(m@),
            CheckStep::CheckUp(p) => CheckStepView::CheckUp(p@),
            CheckStep::Fail(e) => CheckStepView::Fail(e@),
        }
    }
}

/// The steps of a list as a mathematical value.
pub open spec fn check_steps_view(v: Seq<CheckStep>) -> Seq<CheckStepView> {
    Seq::new(v.len(), |i: int| v[i]@)
}

/// The line that opens the check of an account.
pub open spec fn account_line(name: Seq<char>) -> Seq<char> {
    "Checking `"@ + name + "` account integrity…"@
}

/// The line that opens the check of one side.
pub open spec fn side_line(source: BackendSource, kind: BackendKind) -> Seq<char> {
    "Checking "@ + source.spec_side_name() + " "@ + kind.spec_display() + " integrity…"@
}

/// The line that closes a check in which both sides answered.
pub open spec fn done_line() -> Seq<char> {
    "Checkup successfully completed!"@
}

/// The steps of the check of the account that a command is about. After the
/// line of the account the left side is checked, then the right one, each
/// after its line; where a side has no backend, the check fails after the
/// line of the account, before any backend is touched. An account that
/// cannot be resolved fails the plan itself.
pub open spec fn spec_check_plan(accounts: AccountsView, name: Option<Seq<char>>) -> Result<
    Seq<CheckStepView>,
    CommandErrorView,
> {
    match spec_resolve(accounts, name) {
        Err(e) => Err(e),
        Ok(found) => match spec_sides(found.0, found.1, Operation::Check) {
            Err(e) => Ok(
                seq![CheckStepView::Print(log(account_line(found.0))), CheckStepView::Fail(e)],
            ),
            Ok(sides) => Ok(
                seq![
                    CheckStepView::Print(log(account_line(found.0))),
                    CheckStepView::Print(log(side_line(BackendSource::Left, sides.0.kind))),
                    CheckStepView::CheckUp(sides.0),
                    CheckStepView::Print(log(side_line(BackendSource::Right, sides.1.kind))),
                    CheckStepView::CheckUp(sides.1),
                    CheckStepView::Print(out(done_line())),
                ],
            ),
        },
    }
}

/// The steps of a check, or the failure to plan one, as a mathematical value.
pub open spec fn check_plan_view(r: Result<Vec<CheckStep>, CommandError>) -> Result<
    Seq<CheckStepView>,
    CommandErrorView,
> {
    match r {
        Ok(steps) => Ok(check_steps_view(steps@)),
        Err(e) => Err(e@),
    }
}

fn side_message(source: BackendSource, kind: BackendKind) -> (r: Message)
    ensures
        r@ == log(side_line(source, kind)),
{
    let side = source.side_name();
    let shown = kind.display();
    Message::log(concat5("Checking ", side.as_str(), " ", shown.as_str(), " integrity…"))
}

/// Plans the check of the account of the given name, or of the default
/// account where no name is given.
pub fn check_plan(account_name: Option<&str>, config: &Config) -> (r: Result<
    Vec<CheckStep>,
    CommandError,
>)
    ensures
        check_plan_view(r) == spec_check_plan(config@, spec_meant_name(name_view(account_name))),
{
    match config.into_account_config(account_name) {
        Err(e) => Err(e),
        Ok(found) => {
            let (name, account) = found;
            let mut steps: Vec<CheckStep> = Vec::new();
            steps.push(
                CheckStep::Print(
                    Message::log(concat3("Checking `", name.as_str(), "` account integrity…")),
                ),
            );
            match instantiate_sides(name.as_str(), &account, Operation::Check) {
                Err(e) => {
                    steps.push(CheckStep::Fail(e));
                    assert(check_steps_view(steps@) =~= spec_check_plan(
                        config@,
                        spec_meant_name(name_view(account_name)),
                    )->Ok_0);
                    Ok(steps)
                },
                Ok(sides) => {
                    let (left, right) = sides;
                    steps.push(CheckStep::Print(side_message(BackendSource::Left, left.kind)));
                    steps.push(CheckStep::CheckUp(left));
                    steps.push(CheckStep::Print(side_message(BackendSource::Right, right.kind)));
                    steps.push(CheckStep::CheckUp(right));
                    steps.push(
                        CheckStep::Print(
                            Message::out(String::from_str("Checkup successfully completed!")),
                        ),
                    );
                    assert(check_steps_view(steps@) =~= spec_check_plan(
                        config@,
                        spec_meant_name(name_view(account_name)),
                    )->Ok_0);
                    Ok(steps)
                },
            }
        },
    }
}

/// What a backend answered to a check, as a mathematical value.
pub open spec fn outcome_view(outcome: Result<(), String>) -> Result<(), Seq<char>> {
    match outcome {
        Ok(_) => Ok(()),
        Err(why) => Err(why@),
    }
}

/// How a check goes on, as a mathematical value.
pub open spec fn course_view(r: Result<(), CommandError>) -> Result<(), CommandErrorView> {
    match r {
        Ok(_) => Ok(()),
        Err(e) => Err(e@),
    }
}

/// What follows the check of one side: a backend that answered lets the
/// check go on, one that did not ends it with a failure that names the side
/// and holds the answer.
pub open spec fn spec_after_check_up(
    source: BackendSource,
    outcome: Result<(), Seq<char>>,
) -> Result<(), CommandErrorView> {
    match outcome {
        Ok(_) => Ok(()),
        Err(why) => Err(CommandErrorView::BackendInstantiation(source, why)),
    }
}

/// What follows the check of one side. Where the backend answered, the check
/// goes on with the next step. Where it did not, the check ends with the
/// failure that is returned, and no later step is performed.
pub fn after_check_up(plan: &BackendPlan, outcome: Result<(), String>) -> (r: Result<
    (),
    CommandError,
>)
    ensures
        course_view(r) == spec_after_check_up(plan.source, outcome_view(outcome)),
{
    match outcome {
        Ok(_) => Ok(()),
        Err(why) => Err(CommandError::BackendInstantiation(plan.source, why)),
    }
}

/// What the backend of a side answers where it is asked.
pub open spec fn answer_of(
    source: BackendSource,
    left: Result<(), Seq<char>>,
    right: Result<(), Seq<char>>,
) -> Result<(), Seq<char>> {
    match source {
        BackendSource::Left => left,
        BackendSource::Right => right,
    }
}

/// The course of a check from a given step on: how many steps are performed
/// in all, and how the check ends. The steps are performed in order until one
/// of them ends the check.
pub open spec fn spec_course_from(
    steps: Seq<CheckStepView>,
    at: int,
    left: Result<(), Seq<char>>,
    right: Result<(), Seq<char>>,
) -> (int, Result<(), CommandErrorView>)
    decreases steps.len() - at,
{
    if at < 0 || at >= steps.len() {
        (steps.len() as int, Ok(()))
    } else {
        match steps[at] {
            CheckStepView::Print(_) => spec_course_from(steps, at + 1, left, right),
            CheckStepView::CheckUp(plan) => match spec_after_check_up(
                plan.source,
                answer_of(plan.source, left, right),
            ) {
                Ok(_) => spec_course_from(steps, at + 1, left, right),
                Err(e) => (at + 1, Err(e)),
            },
            CheckStepView::Fail(e) => (at + 1, Err(e)),
        }
    }
}

/// The course of a check: how many of its steps are performed, and how it
/// ends, by what each side answers where it is asked.
pub open spec fn spec_course(
    steps: Seq<CheckStepView>,
    left: Result<(), Seq<char>>,
    right: Result<(), Seq<char>>,
) -> (int, Result<(), CommandErrorView>) {
    spec_course_from(steps, 0, left, right)
}

/// An answer, copied.
fn clone_outcome(outcome: &Result<(), String>) -> (r: Result<(), String>)
    ensures
        outcome_view(r) == outcome_view(*outcome),
{
    match outcome {
        Ok(_) => Ok(()),
        Err(why) => Err(why.clone()),
    }
}

/// Tells the course of a check by what each side answers where it is asked:
/// how many of the steps are performed, and how the check ends. The steps
/// are performed in order until one of them ends the check, so that a side
/// is not asked once the check has ended.
pub fn check_course(
    steps: &Vec<CheckStep>,
    left: &Result<(), String>,
    right: &Result<(), String>,
) -> (r: (usize, Result<(), CommandError>))
    ensures
        (r.0 as int, course_view(r.1)) == spec_course(
            check_steps_view(steps@),
            outcome_view(*left),
            outcome_view(*right),
        ),
{
    let ghost plan = check_steps_view(steps@);
    let ghost l = outcome_view(*left);
    let ghost r = outcome_view(*right);
    let mut i: usize = 0;
    while i < steps.len()
        invariant
            i <= steps.len(),
            plan == check_steps_view(steps@),
            l == outcome_view(*left),
            r == outcome_view(*right),
            spec_course_from(plan, i as int, l, r) == spec_course(plan, l, r),
        decreases steps.len() - i,
    {
        assert(plan[i as int] == steps@[i as int]@);
        match &steps[i] {
            CheckStep::Print(_) => {},
            CheckStep::CheckUp(side) => {
                let answer = if side.source.is_left() {
                    clone_outcome(left)
                } else {
                    clone_outcome(right)
                };
                match after_check_up(side, answer) {
                    Ok(_) => {},
                    Err(e) => {
                        return (i + 1, Err(e));
                    },
                }
            },
            CheckStep::Fail(e) => {
                return (i + 1, Err(e.clone()));
            },
        }
        i = i + 1;
    }
    (steps.len(), Ok(()))
}

/// Check up the given account: whether its configuration is valid, whether
/// its backends can be made, and whether their sessions work.
#[derive(Clone, Debug, PartialEq, Eq)]
pub struct DoctorAccountCommand {
    pub account: OptionalAccountNameArg,
}

impl DoctorAccountCommand {
    /// The steps of the check, or the failure that ends it before any
    /// backend is touched.
    pub fn plan(&self, config: &Config) -> (r: Result<Vec<CheckStep>, CommandError>)
        ensures
            check_plan_view(r) == spec_check_plan(
                config@,
                spec_meant_name(self.account.spec_name()),
            ),
    {
        check_plan(self.account.as_deref(), config)
    }
}

/// Every protocol client that a check opens holds one session, whatever its
/// configuration says, and a local store holds none. The left side is opened
/// before the right one, and the closing line comes last.
pub proof fn lemma_check_opens_one_session(accounts: AccountsView, name: Option<Seq<char>>)
    requires
        spec_resolve(accounts, name) matches Ok(found) && spec_sides(
            found.0,
            found.1,
            Operation::Check,
        ) is Ok,
    ensures
        spec_check_plan(accounts, name) matches Ok(steps) && {
            &&& steps.len() == 6
            &&& steps[2] matches CheckStepView::CheckUp(left) && left.source == BackendSource::Left
                && left.pool_size == (if left.kind == BackendKind::Imap {
                Some(1u8)
            } else {
                None
            })
            &&& steps[4] matches CheckStepView::CheckUp(right) && right.source
                == BackendSource::Right && right.pool_size == (if right.kind == BackendKind::Imap {
                Some(1u8)
            } else {
                None
            })
            &&& steps[5] == CheckStepView::Print(out(done_line()))
        },
{
}

/// A check of a resolved account with a side that has no backend fails
/// after the line of the account, before any backend is opened, and the
/// failure names the side: the left one where it has no backend, else the
/// right one.
pub proof fn lemma_check_fails_on_unconfigured_side(accounts: AccountsView, name: Option<Seq<char>>)
    requires
        spec_resolve(accounts, name) is Ok,
    ensures
        spec_resolve(accounts, name)->Ok_0.1.left.backend is Unconfigured ==> spec_check_plan(
            accounts,
            name,
        ) == Ok::<Seq<CheckStepView>, CommandErrorView>(
            seq![
                CheckStepView::Print(log(account_line(spec_resolve(accounts, name)->Ok_0.0))),
                CheckStepView::Fail(CommandErrorView::BackendNotConfigured(BackendSource::Left)),
            ],
        ),
        !(spec_resolve(accounts, name)->Ok_0.1.left.backend is Unconfigured) && spec_resolve(
            accounts,
            name,
        )->Ok_0.1.right.backend is Unconfigured ==> spec_check_plan(accounts, name) == Ok::<
            Seq<CheckStepView>,
            CommandErrorView,
        >(
            seq![
                CheckStepView::Print(log(account_line(spec_resolve(accounts, name)->Ok_0.0))),
                CheckStepView::Fail(CommandErrorView::BackendNotConfigured(BackendSource::Right)),
            ],
        ),
{
}

/// The check of an account whose two sides have a backend ends well exactly
/// where both sides answer, and then every step is performed, the closing
/// line last. Where the left side does not answer, the check ends with the
/// failure that names it and the right side is never opened; where the right
/// side alone does not answer, the check ends with the failure that names it;
/// and in neither case is the closing line printed.
pub proof fn lemma_check_course(
    accounts: AccountsView,
    name: Option<Seq<char>>,
    left: Result<(), Seq<char>>,
    right: Result<(), Seq<char>>,
)
    requires
        spec_resolve(accounts, name) matches Ok(found) && spec_sides(
            found.0,
            found.1,
            Operation::Check,
        ) is Ok,
    ensures
        spec_check_plan(accounts, name) is Ok,
        ({
            let steps = spec_check_plan(accounts, name)->Ok_0;
            let course = spec_course(steps, left, right);
            &&& course.1 is Ok <==> left is Ok && right is Ok
            &&& left is Ok && right is Ok ==> course.0 == 6
            &&& left matches Err(why) ==> course == (
                3int,
                Err::<(), CommandErrorView>(
                    CommandErrorView::BackendInstantiation(BackendSource::Left, why),
                ),
            )
            &&& left is Ok ==> (right matches Err(why) ==> course == (
                5int,
                Err::<(), CommandErrorView>(
                    CommandErrorView::BackendInstantiation(BackendSource::Right, why),
                ),
            ))
        }),
{
    reveal_with_fuel(spec_course_from, 8);
}

/// The check of an account with a side that has no backend ends with the
/// failure that names the side, after the line of the account, whatever the
/// other side would answer.
pub proof fn lemma_check_course_without_backend(
    accounts: AccountsView,
    name: Option<Seq<char>>,
    left: Result<(), Seq<char>>,
    right: Result<(), Seq<char>>,
)
    requires
        spec_resolve(accounts, name) matches Ok(found) && spec_sides(
            found.0,
            found.1,
            Operation::Check,
        ) is Err,
    ensures
        spec_check_plan(accounts, name) is Ok,
        ({
            let found = spec_resolve(accounts, name)->Ok_0;
            let steps = spec_check_plan(accounts, name)->Ok_0;
            spec_course(steps, left, right) == (
                2int,
                Err::<(), CommandErrorView>(
                    spec_sides(found.0, found.1, Operation::Check)->Err_0,
                ),
            )
        }),
{
    reveal_with_fuel(spec_course_from, 4);
}

} // verus!
