//! Changing things: creating an environment, and installing into or
//! uninstalling from one through the fallback chain.
//!
//! In the chain of a mutation the first executable that could be started
//! decides. Its failure is final: the chain moves on only past executables
//! that are missing.

use crate::detect::{create_environment_from_path, directory_environment};
use crate::detect::{virtualenvs_root, virtualenvs_root_text};
use crate::failure::{Failure, FailureModel};
use crate::paths::{join, joined, Layout};
use crate::process::{words3, Invocation, InvocationModel, RunModel, RunOutcome};
use crate::python::{EnvironmentKind, EnvironmentModel, PythonEnvironment};
use vstd::prelude::*;

verus! {

/// What one step of a mutation chain decides: nothing where the executable
/// is missing, success where it exited cleanly, and otherwise the failure
/// with the diagnostic text it printed.
pub open spec fn mutation_of(outcome: RunModel) -> Option<Result<(), FailureModel>> {
    match outcome {
        RunModel::NotStarted => None,
        RunModel::Exited { success, stdout, stderr } => Some(
            if success {
                Ok(())
            } else {
                Err(FailureModel::ExecutionFailure(stderr))
            },
        ),
    }
}

/// What a chain of steps decides: the decision of the first step whose
/// executable could be started, if there is one.
pub open spec fn chain_decision(outcomes: Seq<RunModel>) -> Option<Result<(), FailureModel>>
    decreases outcomes.len(),
{
    if outcomes.len() == 0 {
        None
    } else {
        match chain_decision(outcomes.drop_last()) {
            Some(decision) => Some(decision),
            None => mutation_of(outcomes.last()),
        }
    }
}

/// The result of a mutation chain: what its first started executable
/// decided, or `ToolMissing` where none could be started.
pub open spec fn chain_mutation(outcomes: Seq<RunModel>) -> Result<(), FailureModel> {
    match chain_decision(outcomes) {
        Some(decision) => decision,
        None => Err(FailureModel::ToolMissing),
    }
}

/// Where no executable of the chain could be started, the result is
/// `ToolMissing`; it is never an execution failure.
pub proof fn lemma_nothing_started_is_tool_missing(outcomes: Seq<RunModel>)
    requires
        forall|i: int| 0 <= i < outcomes.len() ==> #[trigger] outcomes[i] is NotStarted,
    ensures
        chain_decision(outcomes) is None,
        chain_mutation(outcomes) == Err::<(), FailureModel>(FailureModel::ToolMissing),
    decreases outcomes.len(),
{
    if outcomes.len() > 0 {
        lemma_nothing_started_is_tool_missing(outcomes.drop_last());
    }
}

/// The first executable that could be started decides, whether it succeeded
/// or failed: the chain does not fall through to a later candidate.
pub proof fn lemma_first_started_decides(outcomes: Seq<RunModel>, k: int)
    requires
        0 <= k < outcomes.len(),
        forall|i: int| 0 <= i < k ==> #[trigger] outcomes[i] is NotStarted,
        outcomes[k] is Exited,
    ensures
        chain_decision(outcomes) == mutation_of(outcomes[k]),
        chain_mutation(outcomes) == mutation_of(outcomes[k])->Some_0,
    decreases outcomes.len(),
{
    let before = outcomes.drop_last();
    if k == outcomes.len() - 1 {
        lemma_nothing_started_is_tool_missing(before);
    } else {
        lemma_first_started_decides(before, k);
    }
}

/// A mutation fails with `ToolMissing` only where no executable of the chain
/// could be started.
pub proof fn lemma_tool_missing_means_nothing_started(outcomes: Seq<RunModel>)
    requires
        chain_mutation(outcomes) == Err::<(), FailureModel>(FailureModel::ToolMissing),
    ensures
        forall|i: int| 0 <= i < outcomes.len() ==> #[trigger] outcomes[i] is NotStarted,
    decreases outcomes.len(),
{
    if outcomes.len() > 0 {
        let before = outcomes.drop_last();
        lemma_tool_missing_means_nothing_started(before);
        lemma_nothing_started_is_tool_missing(before);
        assert(outcomes.last() is NotStarted);
        assert forall|i: int| 0 <= i < outcomes.len() implies #[trigger] outcomes[i]
            is NotStarted by {
            if i < before.len() {
                assert(before[i] is NotStarted);
            }
        }
    }
}

/// Whether a result and its mathematical value agree.
pub open spec fn verdict_is(r: Result<(), Failure>, model: Result<(), FailureModel>) -> bool {
    match r {
        Ok(_) => model is Ok,
        Err(failure) => model == Err::<(), FailureModel>(failure.deep_view()),
    }
}

/// Judges one step of a mutation chain from the outcome of its tool.
/// `None` means that the executable is missing and the chain moves on.
pub fn interpret_mutation(outcome: &RunOutcome) -> (r: Option<Result<(), Failure>>)
    ensures
        match r {
            Some(verdict) => mutation_of(outcome.deep_view()) is Some && verdict_is(
                verdict,
                mutation_of(outcome.deep_view())->Some_0,
            ),
            None => mutation_of(outcome.deep_view()) is None,
        },
{
    match outcome {
        RunOutcome::NotStarted => None,
        RunOutcome::Exited { success, stdout, stderr } => {
            if *success {
                Some(Ok(()))
            } else {
                Some(Err(Failure::ExecutionFailure(stderr.clone())))
            }
        },
    }
}

/// The progress of one run through a mutation chain of `steps` steps: how
/// many steps have been judged, and what was decided.
#[derive(Debug)]
pub struct MutationChain {
    pub steps: usize,
    pub position: usize,
    pub verdict: Option<Result<(), Failure>>,
}

impl MutationChain {
    /// No more steps have been judged than the chain has.
    pub open spec fn wf(&self) -> bool {
        self.position <= self.steps
    }

    /// The step whose outcome the chain waits for, if it waits for one.
    pub open spec fn pending_step(&self) -> Option<usize> {
        if self.verdict is None && self.position < self.steps {
            Some(self.position)
        } else {
            None
        }
    }

    /// The mathematical value of what was decided so far.
    pub open spec fn decision(&self) -> Option<Result<(), FailureModel>> {
        match self.verdict {
            Some(Ok(_)) => Some(Ok(())),
            Some(Err(failure)) => Some(Err(failure.deep_view())),
            None => None,
        }
    }

    /// A run through a chain of `steps` steps, with nothing judged yet.
    pub fn new(steps: usize) -> (r: Self)
        ensures
            r.wf(),
            r.steps == steps,
            r.position == 0,
            r.verdict is None,
    {
        MutationChain { steps, position: 0, verdict: None }
    }

    /// The index of the step to run next. `None` once an executable has
    /// been started or every candidate was missing.
    pub fn pending(&self) -> (r: Option<usize>)
        ensures
            r == self.pending_step(),
    {
        if self.verdict.is_none() && self.position < self.steps {
            Some(self.position)
        } else {
            None
        }
    }

    /// Takes in the outcome of the pending step: an executable that ran
    /// ends the run with its verdict, a missing one moves the run on.
    /// Without a pending step nothing changes.
    pub fn record(&mut self, outcome: &RunOutcome)
        requires
            old(self).wf(),
        ensures
            final(self).wf(),
            final(self).steps == old(self).steps,
            old(self).pending_step() is None ==> *final(self) == *old(self),
            old(self).pending_step() is Some ==> {
                &&& final(self).position == old(self).position + 1
                &&& final(self).decision() == mutation_of(outcome.deep_view())
            },
    {
        if self.verdict.is_none() && self.position < self.steps {
            self.position = self.position + 1;
            self.verdict = interpret_mutation(outcome);
        }
    }

    /// The result of the run: the verdict, or `ToolMissing` without one.
    pub fn finish(self) -> (r: Result<(), Failure>)
        ensures
            verdict_is(
                r,
                match self.decision() {
                    Some(decision) => decision,
                    None => Err(FailureModel::ToolMissing),
                },
            ),
    {
        match self.verdict {
            Some(verdict) => verdict,
            None => Err(Failure::ToolMissing),
        }
    }
}

/// Once a prefix of a chain has decided, the whole chain decides the same;
/// and the whole chain is its own longest prefix.
proof fn lemma_chain_decision_settles(outcomes: Seq<RunModel>, n: int)
    requires
        0 <= n <= outcomes.len(),
        chain_decision(outcomes.take(n)) is Some || n == outcomes.len(),
    ensures
        chain_decision(outcomes) == chain_decision(outcomes.take(n)),
    decreases outcomes.len() - n,
{
    if n == outcomes.len() {
        assert(outcomes.take(n) =~= outcomes);
    } else {
        let next = outcomes.take(n + 1);
        assert(next.drop_last() =~= outcomes.take(n));
        lemma_chain_decision_settles(outcomes, n + 1);
    }
}

/// The result of a whole mutation chain, given what each of its steps led
/// to, in order.
fn run_mutation(outcomes: &Vec<RunOutcome>) -> (r: Result<(), Failure>)
    ensures
        verdict_is(r, chain_mutation(outcomes.deep_view())),
{
    let mut chain = MutationChain::new(outcomes.len());
    assert(outcomes.deep_view().take(0) =~= Seq::empty());
    loop
        invariant
            chain.wf(),
            chain.steps == outcomes.len(),
            chain.decision() == chain_decision(outcomes.deep_view().take(chain.position as int)),
        ensures
            chain.pending_step() is None,
        decreases outcomes.len() - chain.position,
    {
        match chain.pending() {
            Some(step) => {
                let ghost upto = outcomes.deep_view().take(step + 1);
                assert(upto.drop_last() =~= outcomes.deep_view().take(step as int));
                assert(upto.last() == outcomes[step as int].deep_view());
                chain.record(&outcomes[step]);
            },
            None => {
                break ;
            },
        }
    }
    proof {
        lemma_chain_decision_settles(outcomes.deep_view(), chain.position as int);
    }
    chain.finish()
}

/// The result of installing a package, given what each candidate of the
/// chain led to, in order: success or the diagnostic text of the first
/// executable that could be started, `ToolMissing` where none could.
pub fn install_package(outcomes: &Vec<RunOutcome>) -> (r: Result<(), Failure>)
    ensures
        verdict_is(r, chain_mutation(outcomes.deep_view())),
{
    run_mutation(outcomes)
}

/// The result of uninstalling a package, given what each candidate of the
/// chain led to, in order: as for [`install_package`].
pub fn uninstall_package(outcomes: &Vec<RunOutcome>) -> (r: Result<(), Failure>)
    ensures
        verdict_is(r, chain_mutation(outcomes.deep_view())),
{
    run_mutation(outcomes)
}

/// The directory of a new environment `name`: a fresh subdirectory of the
/// user's container directory.
pub open spec fn creation_target_text(home: Seq<char>, name: Seq<char>, layout: Layout) -> Seq<
    char,
> {
    joined(virtualenvs_root_text(home, layout), name, layout)
}

/// The command that creates an environment in directory `target`.
pub open spec fn creation_command(target: Seq<char>) -> InvocationModel {
    InvocationModel { program: "python"@, args: seq!["-m"@, "venv"@, target] }
}

/// What creating an environment in `target` comes to, given whether the
/// container directory could be made ready, and the outcome of the creation
/// command and of the version query that follows it. A container directory
/// that could not be made fails with the system's text; a command that
/// could not be started is a missing tool; one that exited unsuccessfully
/// fails with its diagnostic text; else the record is made from the
/// directory as discovery would make it.
pub open spec fn creation_result(
    target: Seq<char>,
    layout: Layout,
    container: Result<(), Seq<char>>,
    creation: RunModel,
    version: RunModel,
) -> Result<EnvironmentModel, FailureModel> {
    match container {
        Err(text) => Err(FailureModel::FilesystemFailure(text)),
        Ok(_) => match creation {
            RunModel::NotStarted => Err(FailureModel::ToolMissing),
            RunModel::Exited { success, stdout, stderr } => if !success {
                Err(FailureModel::ExecutionFailure(stderr))
            } else {
                match directory_environment(target, EnvironmentKind::Venv, layout, version) {
                    Some(environment) => Ok(environment),
                    None => Err(FailureModel::DetectionFailure),
                }
            },
        },
    }
}

/// The mathematical value of the result of making a directory ready.
pub open spec fn container_model(container: Result<(), String>) -> Result<(), Seq<char>> {
    match container {
        Ok(_) => Ok(()),
        Err(text) => Err(text@),
    }
}

/// The directory of a new environment `name` of the user whose files are
/// under `home`.
pub fn creation_target(home: &str, name: &str, layout: Layout) -> (r: String)
    ensures
        r@ == creation_target_text(home@, name@, layout),
{
    let root = virtualenvs_root(home, layout);
    join(root.as_str(), name, layout)
}

/// The command that creates an environment in directory `target`.
pub fn creation_invocation(target: &str) -> (r: Invocation)
    ensures
        r.deep_view() == creation_command(target@),
{
    Invocation { program: "python".to_owned(), args: words3("-m", "venv", target) }
}

/// What creating an environment in `target` came to, given whether the
/// container directory could be made ready (with the system's text if not),
/// the outcome of the creation command, and the outcome of the version query
/// run on the new directory afterwards. What comes later is not looked at
/// where an earlier step failed.
pub fn create_environment(
    target: &str,
    layout: Layout,
    container: &Result<(), String>,
    creation: &RunOutcome,
    version: &RunOutcome,
) -> (r: Result<PythonEnvironment, Failure>)
    ensures
        match r {
            Ok(environment) => creation_result(
                target@,
                layout,
                container_model(*container),
                creation.deep_view(),
                version.deep_view(),
            ) == Ok::<EnvironmentModel, FailureModel>(environment.deep_view()),
            Err(failure) => creation_result(
                target@,
                layout,
                container_model(*container),
                creation.deep_view(),
                version.deep_view(),
            ) == Err::<EnvironmentModel, FailureModel>(failure.deep_view()),
        },
{
    match container {
        Err(text) => {
            return Err(Failure::FilesystemFailure(text.clone()));
        },
        Ok(_) => {},
    }
    match creation {
        RunOutcome::NotStarted => Err(Failure::ToolMissing),
        RunOutcome::Exited { success, stdout, stderr } => {
            if !*success {
                Err(Failure::ExecutionFailure(stderr.clone()))
            } else {
                match create_environment_from_path(target, EnvironmentKind::Venv, layout, version) {
                    Some(environment) => Ok(environment),
                    None => Err(Failure::DetectionFailure),
                }
            }
        },
    }
}

} // verus!
