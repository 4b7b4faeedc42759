//! What the tool does itself once the documents are written: which tasks
//! of the task file it has run, what it brings up to date after them, in
//! which order, and what becomes of the run when a step fails.

use crate::cli::{CLIError, Cli};
use crate::generate::crate_scaffolds::CrateScaffoldingError;
use crate::generate::makefiles::TaskNames;
use crate::generate::utils::ProcessError;
use crate::testing::TestingError;
use vstd::prelude::*;

verus! {

/// One step of what the tool does itself.
#[derive(Clone, Copy, Debug, PartialEq, Eq, Structural)]
pub enum RunStep {
    /// Have the task runner run the entry of this name.
    RunTask(TaskNames),
    /// Bring the manifest of the generated crate up to date: authors,
    /// description, keywords, categories, and the dependency on this tool.
    PatchManifest,
    /// Move the editions in the manifest one rung up.
    BumpEdition,
    /// Put the closing block at the end of the README.
    UpdateReadme,
}

/// What came of a step.
#[derive(Debug)]
pub enum StepOutcome {
    /// The task runner could not be started or waited for; the text says why.
    NotRun(String),
    /// The task runner has ended; `output` is all that is known of its run.
    Exited { success: bool, output: String },
    /// A document was brought up to date.
    Completed,
    /// A document could not be brought up to date, for the reason given.
    Failed(CLIError),
}

impl StepOutcome {
    /// Whether the step was carried out and has succeeded.
    pub open spec fn is_success(&self) -> bool {
        match self {
            StepOutcome::Exited { success, .. } => *success,
            StepOutcome::Completed => true,
            _ => false,
        }
    }
}

/// What the tool does next.
#[derive(Debug)]
pub enum RunAction {
    /// Carry out this step and report what came of it.
    Step(RunStep),
    /// End the run, with this result.
    Finish(Result<(), CLIError>),
}

/// The tasks that the tool has the task runner run, in order. A trial run
/// does everything. Any other run fetches the specification and then does
/// everything, if it was asked to and has a URL to fetch from, and else
/// runs nothing.
pub open spec fn tasks_to_run(cli: &Cli) -> Seq<TaskNames> {
    if cli.inner_cli.is_test_generation() {
        seq![TaskNames::GenerateAll]
    } else if cli.inner_cli.autogenerate && cli.inner_cli.api_spec_url_opt is Some {
        seq![TaskNames::SpecDownloadDefault, TaskNames::GenerateAll]
    } else {
        Seq::empty()
    }
}

/// What follows once the code is generated and mended: the manifest is
/// patched, its editions are moved up, and the README is brought up to date.
pub open spec fn steps_after_generation() -> Seq<RunStep> {
    seq![RunStep::PatchManifest, RunStep::BumpEdition, RunStep::UpdateReadme]
}

/// All that the tool does itself, in order: the tasks it has run, and
/// after them, where it has run any, what follows generation. A run that
/// generates nothing brings nothing up to date.
pub open spec fn steps_to_run(cli: &Cli) -> Seq<RunStep> {
    let tasks = tasks_to_run(cli).map_values(|name: TaskNames| RunStep::RunTask(name));
    if tasks.len() > 0 {
        tasks + steps_after_generation()
    } else {
        tasks
    }
}

/// Whether `e` is the error with which a run ends after `outcome`. A
/// trial run reports a task runner that failed as a failure of the trial.
/// Any other run reports a task runner that could not be started as an
/// error of reading and writing, and one that ended without success as a
/// failed process; the error carries the text of the outcome. A document
/// that could not be brought up to date ends the run with its own error,
/// unchanged.
pub open spec fn reports_failure(trial: bool, outcome: StepOutcome, e: CLIError) -> bool {
    match outcome {
        StepOutcome::NotRun(message) => if trial {
            e matches CLIError::TestingError(TestingError::IOError(text)) && text@ == message@
        } else {
            e matches CLIError::CrateScaffoldingError(CrateScaffoldingError::IOError(text))
                && text@ == message@
        },
        StepOutcome::Exited { success, output } => !success && if trial {
            e matches CLIError::TestingError(
                TestingError::ProcessError(ProcessError::Failure(text)),
            ) && text@ == output@
        } else {
            e matches CLIError::ProcessError(ProcessError::Failure(text)) && text@ == output@
        },
        StepOutcome::Completed => false,
        StepOutcome::Failed(given) => e == given,
    }
}

/// Generation always comes before the manifest and the README are touched,
/// and these follow every run that generates: where the tool runs a task at
/// all, the last task is the one that does everything, and the three steps
/// after it are the patch of the manifest, the bump of its editions and the
/// update of the README, in this order, and the last steps of the run.
pub proof fn lemma_generation_is_followed_up(cli: &Cli)
    ensures
        tasks_to_run(cli).len() == 0 ==> steps_to_run(cli).len() == 0,
        tasks_to_run(cli).len() > 0 ==> {
            let n = tasks_to_run(cli).len() as int;
            &&& steps_to_run(cli).len() == n + 3
            &&& steps_to_run(cli)[n - 1] == RunStep::RunTask(TaskNames::GenerateAll)
            &&& steps_to_run(cli)[n] == RunStep::PatchManifest
            &&& steps_to_run(cli)[n + 1] == RunStep::BumpEdition
            &&& steps_to_run(cli)[n + 2] == RunStep::UpdateReadme
        },
{
}

/// The tasks that the tool has the task runner run, in order.
pub fn pipeline_tasks(cli: &Cli) -> (r: Vec<TaskNames>)
    ensures
        r@ == tasks_to_run(cli),
{
    let mut r: Vec<TaskNames> = Vec::new();
    if cli.inner_cli.command.is_some() {
        r.push(TaskNames::GenerateAll);
    } else if cli.inner_cli.autogenerate && cli.inner_cli.api_spec_url_opt.is_some() {
        r.push(TaskNames::SpecDownloadDefault);
        r.push(TaskNames::GenerateAll);
    }
    proof {
        assert(r@ =~= tasks_to_run(cli));
    }
    r
}

/// All that the tool does itself, in order.
pub fn pipeline_steps(cli: &Cli) -> (r: Vec<RunStep>)
    ensures
        r@ == steps_to_run(cli),
{
    let tasks = pipeline_tasks(cli);
    let mut r: Vec<RunStep> = Vec::new();
    let mut i: usize = 0;
    while i < tasks.len()
        invariant
            0 <= i <= tasks.len(),
            r@ == tasks@.map_values(|name: TaskNames| RunStep::RunTask(name)).take(i as int),
        decreases tasks.len() - i,
    {
        r.push(RunStep::RunTask(tasks[i]));
        proof {
            assert(r@ =~= tasks@.map_values(|name: TaskNames| RunStep::RunTask(name)).take(i + 1));
        }
        i = i + 1;
    }
    proof {
        assert(r@ =~= tasks@.map_values(|name: TaskNames| RunStep::RunTask(name)));
    }
    if tasks.len() > 0 {
        r.push(RunStep::PatchManifest);
        r.push(RunStep::BumpEdition);
        r.push(RunStep::UpdateReadme);
    }
    proof {
        assert(r@ =~= steps_to_run(cli));
    }
    r
}

/// Tells what the tool does next. `started` counts the steps that were
/// started so far, and `outcome` is what came of the last of them; at the
/// beginning there is none. A step that did not succeed ends the run with
/// its error, and no further step is started. Otherwise the next step is
/// taken, and after the last one the run ends well.
pub fn run_subcommands(cli: &Cli, started: usize, outcome: Option<StepOutcome>) -> (r: RunAction)
    ensures
        match r {
            RunAction::Step(step) => {
                &&& outcome matches Some(o) ==> o.is_success()
                &&& started < steps_to_run(cli).len()
                &&& step == steps_to_run(cli)[started as int]
            },
            RunAction::Finish(Ok(())) => {
                &&& outcome matches Some(o) ==> o.is_success()
                &&& started >= steps_to_run(cli).len()
            },
            RunAction::Finish(Err(e)) => {
                &&& outcome matches Some(o) && !o.is_success()
                &&& reports_failure(cli.inner_cli.is_test_generation(), outcome->0, e)
            },
        },
{
    let trial = cli.inner_cli.command.is_some();
    match outcome {
        Some(StepOutcome::NotRun(message)) => {
            return RunAction::Finish(
                Err(
                    if trial {
                        CLIError::TestingError(TestingError::IOError(message))
                    } else {
                        CLIError::CrateScaffoldingError(CrateScaffoldingError::IOError(message))
                    },
                ),
            );
        },
        Some(StepOutcome::Exited { success, output }) => {
            if !success {
                let failure = ProcessError::Failure(output);
                return RunAction::Finish(
                    Err(
                        if trial {
                            CLIError::TestingError(TestingError::ProcessError(failure))
                        } else {
                            CLIError::ProcessError(failure)
                        },
                    ),
                );
            }
        },
        Some(StepOutcome::Failed(e)) => {
            return RunAction::Finish(Err(e));
        },
        Some(StepOutcome::Completed) => {},
        None => {},
    }
    let steps = pipeline_steps(cli);
    if started < steps.len() {
        RunAction::Step(steps[started])
    } else {
        RunAction::Finish(Ok(()))
    }
}

} // verus!
