use crate::attempt::{
    attempt_model, judge_outcome, AttemptError, AttemptErrorModel, OutcomeModel, RunOutcome,
};
use crate::tools::Tool;
use vstd::prelude::*;
use vstd::string::*;

verus! {

/// Neither tool released the modifiers; each field says why that tool failed.
#[derive(Debug)]
pub struct ReleaseError {
    pub wtype: AttemptError,
    pub ydotool: AttemptError,
}

/// The mathematical model of a [`ReleaseError`].
pub ghost struct ReleaseErrorModel {
    pub wtype: AttemptErrorModel,
    pub ydotool: AttemptErrorModel,
}

impl View for ReleaseError {
    type V = ReleaseErrorModel;

    open spec fn view(&self) -> ReleaseErrorModel {
        ReleaseErrorModel { wtype: self.wtype@, ydotool: self.ydotool@ }
    }
}

/// The text reported when no tool could release the modifiers; it names
/// both tools.
pub open spec fn exhausted_message() -> Seq<char> {
    "No tool available to release modifiers (tried "@ + Tool::Wtype.name_spec() + ", "@
        + Tool::Ydotool.name_spec() + ")"@
}

impl ReleaseError {
    /// `No tool available to release modifiers (tried wtype, ydotool)`.
    pub fn message(&self) -> (r: String)
        ensures
            r@ == exhausted_message(),
    {
        let mut m = String::from_str("No tool available to release modifiers (tried ");
        m.append(Tool::Wtype.name());
        m.append(", ");
        m.append(Tool::Ydotool.name());
        m.append(")");
        m
    }
}

/// A tool to run, with its arguments. Standard output is discarded and
/// standard error captured.
#[derive(Debug)]
pub struct Invocation {
    pub tool: Tool,
    pub args: Vec<String>,
}

/// The mathematical model of an [`Invocation`].
pub ghost struct InvocationModel {
    pub tool: Tool,
    pub args: Seq<Seq<char>>,
}

impl View for Invocation {
    type V = InvocationModel;

    open spec fn view(&self) -> InvocationModel {
        InvocationModel { tool: self.tool, args: self.args.deep_view() }
    }
}

/// The run that releases the modifiers with `tool`.
pub open spec fn invocation_of(tool: Tool) -> InvocationModel {
    InvocationModel { tool, args: tool.args_spec() }
}

/// What the caller does next.
#[derive(Debug)]
pub enum Action {
    /// Run this tool, then hand its outcome back.
    Run(Invocation),
    /// Stop: `Ok` names the tool that released the modifiers.
    Done(Result<Tool, ReleaseError>),
}

/// The mathematical model of an [`Action`].
pub ghost enum ActionModel {
    Run(InvocationModel),
    Done(Result<Tool, ReleaseErrorModel>),
}

impl View for Action {
    type V = ActionModel;

    open spec fn view(&self) -> ActionModel {
        match self {
            Action::Run(inv) => ActionModel::Run(inv@),
            Action::Done(Ok(t)) => ActionModel::Done(Ok(*t)),
            Action::Done(Err(e)) => ActionModel::Done(Err(e@)),
        }
    }
}

/// Where a release stands.
#[derive(Debug)]
enum Phase {
    TryingWtype,
    TryingYdotool { wtype_error: AttemptError },
    Finished,
}

/// The mathematical model of where a release stands.
pub ghost enum PhaseModel {
    /// The first tool is running.
    TryingWtype,
    /// The first tool failed with this error; the second is running.
    TryingYdotool(AttemptErrorModel),
    /// A result has been given.
    Finished,
}

/// One release of all modifiers: the first tool, and the second only when
/// the first one fails.
#[derive(Debug)]
pub struct ModifierRelease {
    phase: Phase,
}

impl View for ModifierRelease {
    type V = PhaseModel;

    closed spec fn view(&self) -> PhaseModel {
        match self.phase {
            Phase::TryingWtype => PhaseModel::TryingWtype,
            Phase::TryingYdotool { wtype_error } => PhaseModel::TryingYdotool(wtype_error@),
            Phase::Finished => PhaseModel::Finished,
        }
    }
}

/// The next phase and action after a run ends with `outcome` in `phase`.
/// A finished release takes no more outcomes; its arm only makes the
/// function total.
pub open spec fn step(phase: PhaseModel, outcome: OutcomeModel) -> (PhaseModel, ActionModel)
    recommends
        phase !is Finished,
{
    match phase {
        PhaseModel::TryingWtype => match attempt_model(Tool::Wtype, outcome) {
            None => (PhaseModel::Finished, ActionModel::Done(Ok(Tool::Wtype))),
            Some(e) => (PhaseModel::TryingYdotool(e), ActionModel::Run(invocation_of(Tool::Ydotool))),
        },
        PhaseModel::TryingYdotool(first) => match attempt_model(Tool::Ydotool, outcome) {
            None => (PhaseModel::Finished, ActionModel::Done(Ok(Tool::Ydotool))),
            Some(e) => (
                PhaseModel::Finished,
                ActionModel::Done(Err(ReleaseErrorModel { wtype: first, ydotool: e })),
            ),
        },
        PhaseModel::Finished => (PhaseModel::Finished, ActionModel::Done(Ok(Tool::Wtype))),
    }
}

impl ModifierRelease {
    /// Begins a release: the first tool is to be run.
    pub fn start() -> (r: (ModifierRelease, Invocation))
        ensures
            r.0@ == PhaseModel::TryingWtype,
            r.1@ == invocation_of(Tool::Wtype),
    {
        let tool = Tool::Wtype;
        let args = tool.release_args();
        (ModifierRelease { phase: Phase::TryingWtype }, Invocation { tool, args })
    }

    /// Whether a result has been given.
    pub fn is_finished(&self) -> (r: bool)
        ensures
            r == (self@ is Finished),
    {
        match self.phase {
            Phase::Finished => true,
            _ => false,
        }
    }

    /// Takes the outcome of the run last asked for and says what to do next.
    pub fn on_outcome(&mut self, outcome: RunOutcome) -> (r: Action)
        requires
            !(old(self)@ is Finished),
        ensures
            (final(self)@, r@) == step(old(self)@, outcome@),
    {
        let mut phase = Phase::Finished;
        core::mem::swap(&mut phase, &mut self.phase);
        match phase {
            Phase::TryingWtype => match judge_outcome(Tool::Wtype, outcome) {
                Ok(()) => Action::Done(Ok(Tool::Wtype)),
                Err(e) => {
                    self.phase = Phase::TryingYdotool { wtype_error: e };
                    let tool = Tool::Ydotool;
                    let args = tool.release_args();
                    Action::Run(Invocation { tool, args })
                },
            },
            Phase::TryingYdotool { wtype_error } => match judge_outcome(Tool::Ydotool, outcome) {
                Ok(()) => Action::Done(Ok(Tool::Ydotool)),
                Err(e) => Action::Done(Err(ReleaseError { wtype: wtype_error, ydotool: e })),
            },
            Phase::Finished => Action::Done(Ok(Tool::Wtype)),
        }
    }
}

/// Whether `part` occurs in `text` as a contiguous run of characters.
pub open spec fn mentions(text: Seq<char>, part: Seq<char>) -> bool {
    exists|i: int| 0 <= i && i + part.len() <= text.len() && #[trigger] text.subrange(i, i + part.len()) == part
}

/// When the first tool exits with success, the release succeeds through it
/// and the second tool is never run.
pub proof fn lemma_first_success_skips_second(first: OutcomeModel)
    requires
        first matches OutcomeModel::Exited { success, .. } && success,
    ensures
        step(PhaseModel::TryingWtype, first) == (PhaseModel::Finished, ActionModel::Done(Ok(Tool::Wtype))),
{
}

/// When the first tool fails in any way and the second exits with success,
/// the second tool is run with its key-up arguments and the release succeeds.
pub proof fn lemma_fallback_success(first: OutcomeModel, second: OutcomeModel)
    requires
        attempt_model(Tool::Wtype, first) is Some,
        second matches OutcomeModel::Exited { success, .. } && success,
    ensures
        step(PhaseModel::TryingWtype, first).1 == ActionModel::Run(invocation_of(Tool::Ydotool)),
        step(step(PhaseModel::TryingWtype, first).0, second) == (PhaseModel::Finished, ActionModel::Done(Ok(Tool::Ydotool))),
{
}

/// When both tools fail, the release fails with both tools' errors, and its
/// message names both tools.
pub proof fn lemma_both_fail(first: OutcomeModel, second: OutcomeModel)
    requires
        attempt_model(Tool::Wtype, first) is Some,
        attempt_model(Tool::Ydotool, second) is Some,
    ensures
        step(step(PhaseModel::TryingWtype, first).0, second) == (
            PhaseModel::Finished,
            ActionModel::Done(Err(ReleaseErrorModel {
                wtype: attempt_model(Tool::Wtype, first)->Some_0,
                ydotool: attempt_model(Tool::Ydotool, second)->Some_0,
            })),
        ),
        mentions(exhausted_message(), Tool::Wtype.name_spec()),
        mentions(exhausted_message(), Tool::Ydotool.name_spec()),
{
    let head = "No tool available to release modifiers (tried "@;
    let w = Tool::Wtype.name_spec();
    let y = Tool::Ydotool.name_spec();
    let m = exhausted_message();
    let wat: int = head.len() as int;
    assert(m.subrange(wat, wat + w.len()) =~= w);
    let yat: int = (head.len() + w.len() + ", "@.len()) as int;
    assert(m.subrange(yat, yat + y.len()) =~= y);
}

} // verus!
