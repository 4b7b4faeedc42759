//! Preparing the directory of the generated crate. The steps are decided
//! here, one at a time; whoever carries a step out reports what came of it
//! and is told the next.

use crate::cli::{Cli, Paths};
use crate::text::{join_path, join_path_of, string_from_utf8, strings_of};
use vstd::prelude::*;
use vstd::string::*;
use vstd::utf8::{decode_utf8, valid_utf8};

verus! {

/// What can go wrong while the directory of the crate is prepared.
#[derive(Debug)]
pub enum CrateScaffoldingError {
    /// Reading or writing failed; the text says how.
    IOError(String),
    /// The directory named holds something already, and nothing may be lost.
    NonEmptyTargetDir(String),
    /// The directory named is not there.
    MissingCrateDir(String),
    /// `cargo init` did not succeed in `crate_dir`; `error_string` is what it
    /// wrote to its error stream.
    CargoInitFailed { crate_dir: String, error_string: String },
}

/// An error of the preparation, as plain text.
pub enum CrateScaffoldingErrorView {
    IOError(Seq<char>),
    NonEmptyTargetDir(Seq<char>),
    MissingCrateDir(Seq<char>),
    CargoInitFailed { crate_dir: Seq<char>, error_string: Seq<char> },
}

impl View for CrateScaffoldingError {
    type V = CrateScaffoldingErrorView;

    open spec fn view(&self) -> CrateScaffoldingErrorView {
        match self {
            CrateScaffoldingError::IOError(message) => CrateScaffoldingErrorView::IOError(message@),
            CrateScaffoldingError::NonEmptyTargetDir(dir) =>
                CrateScaffoldingErrorView::NonEmptyTargetDir(dir@),
            CrateScaffoldingError::MissingCrateDir(dir) => CrateScaffoldingErrorView::MissingCrateDir(
                dir@,
            ),
            CrateScaffoldingError::CargoInitFailed { crate_dir, error_string } =>
                CrateScaffoldingErrorView::CargoInitFailed {
                    crate_dir: crate_dir@,
                    error_string: error_string@,
                },
        }
    }
}

/// How far the preparation has come: the step that is under way.
#[derive(Clone, Copy, Debug, PartialEq, Eq, Structural)]
pub enum ScaffoldState {
    /// Nothing was done yet.
    Start,
    /// The directory of a trial run is being removed.
    RemovingTarget,
    /// The directory is being created.
    CreatingTarget,
    /// The directory is being looked into.
    ListingTarget,
    /// It is being checked that the directory is one.
    CheckingTarget,
    /// `cargo init` is running.
    InitializingCrate,
    /// The directory for scratch files is being created.
    CreatingTempDir,
    /// The ignore file is being written.
    WritingGitignore,
    /// The preparation is over, for better or worse.
    Finished,
}

/// What has to be done next.
#[derive(Debug)]
pub enum ScaffoldAction {
    /// Remove the directory and all below it.
    RemoveDirAll(String),
    /// Create the directory and those above it that are missing.
    CreateDirAll(String),
    /// Find out whether the directory holds anything.
    ListDir(String),
    /// Find out whether the path is a directory.
    CheckIsDir(String),
    /// Run `cargo` with these arguments and keep what it prints.
    RunCargo(Vec<String>),
    /// Write the file at `path`, with these contents.
    WriteFile { path: String, contents: String },
    /// Stop: all is done, or the preparation has failed.
    Stop(Result<(), CrateScaffoldingError>),
}

/// What has to be done next, as plain text.
pub enum ScaffoldActionView {
    RemoveDirAll(Seq<char>),
    CreateDirAll(Seq<char>),
    ListDir(Seq<char>),
    CheckIsDir(Seq<char>),
    RunCargo(Seq<Seq<char>>),
    WriteFile { path: Seq<char>, contents: Seq<char> },
    Stop(Result<(), CrateScaffoldingErrorView>),
}

impl View for ScaffoldAction {
    type V = ScaffoldActionView;

    open spec fn view(&self) -> ScaffoldActionView {
        match self {
            ScaffoldAction::RemoveDirAll(dir) => ScaffoldActionView::RemoveDirAll(dir@),
            ScaffoldAction::CreateDirAll(dir) => ScaffoldActionView::CreateDirAll(dir@),
            ScaffoldAction::ListDir(dir) => ScaffoldActionView::ListDir(dir@),
            ScaffoldAction::CheckIsDir(dir) => ScaffoldActionView::CheckIsDir(dir@),
            ScaffoldAction::RunCargo(args) => ScaffoldActionView::RunCargo(args.deep_view()),
            ScaffoldAction::WriteFile { path, contents } => ScaffoldActionView::WriteFile {
                path: path@,
                contents: contents@,
            },
            ScaffoldAction::Stop(Ok(())) => ScaffoldActionView::Stop(Ok(())),
            ScaffoldAction::Stop(Err(e)) => ScaffoldActionView::Stop(Err(e@)),
        }
    }
}

/// What came of the step that was asked for.
#[derive(Debug)]
pub enum ScaffoldEvent {
    /// Nothing was asked for yet.
    Begin,
    /// The step was carried out.
    Completed,
    /// The step failed. `not_found` says that it failed because what it was
    /// to work on is not there.
    Failed { message: String, not_found: bool },
    /// The directory was looked into; `has_entry` says whether it holds anything.
    Listed { has_entry: bool },
    /// The path was checked; `is_dir` says whether it is a directory.
    Checked { is_dir: bool },
    /// `cargo` has ended; `stderr` is what it wrote to its error stream.
    Exited { success: bool, stderr: Vec<u8> },
}

/// What came of a step, as plain values.
pub enum ScaffoldEventView {
    Begin,
    Completed,
    Failed { message: Seq<char>, not_found: bool },
    Listed { has_entry: bool },
    Checked { is_dir: bool },
    Exited { success: bool, stderr: Seq<u8> },
}

impl View for ScaffoldEvent {
    type V = ScaffoldEventView;

    open spec fn view(&self) -> ScaffoldEventView {
        match self {
            ScaffoldEvent::Begin => ScaffoldEventView::Begin,
            ScaffoldEvent::Completed => ScaffoldEventView::Completed,
            ScaffoldEvent::Failed { message, not_found } => ScaffoldEventView::Failed {
                message: message@,
                not_found: *not_found,
            },
            ScaffoldEvent::Listed { has_entry } => ScaffoldEventView::Listed {
                has_entry: *has_entry,
            },
            ScaffoldEvent::Checked { is_dir } => ScaffoldEventView::Checked { is_dir: *is_dir },
            ScaffoldEvent::Exited { success, stderr } => ScaffoldEventView::Exited {
                success: *success,
                stderr: stderr@,
            },
        }
    }
}

/// The message for a report that does not answer the step asked for.
pub const OUT_OF_STEP: &'static str = "the report does not answer the step that was asked for";

/// What stands for the error stream of `cargo init` where it is not UTF-8.
pub const ERROR_MISSING: &'static str = "Error missing";

/// What the ignore file holds: the directory for scratch files.
pub open spec fn gitignore_contents() -> Seq<char> {
    "\n/"@ + Paths::TempDir.path_text()
}

/// The arguments of `cargo` that set up a library crate in `dir`.
pub open spec fn cargo_init_args(dir: Seq<char>) -> Seq<Seq<char>> {
    seq!["init"@, "--lib"@, "--color"@, "always"@, dir]
}

/// The end of the preparation with an error.
pub open spec fn stop_with(e: CrateScaffoldingErrorView) -> (ScaffoldState, ScaffoldActionView) {
    (ScaffoldState::Finished, ScaffoldActionView::Stop(Err(e)))
}

/// The error stream of `cargo init` as text.
pub open spec fn error_text(stderr: Seq<u8>) -> Seq<char> {
    if valid_utf8(stderr) {
        decode_utf8(stderr)
    } else {
        ERROR_MISSING@
    }
}

/// The next step of the preparation of the directory `dir`, for a trial
/// run or another, given the step that is under way and what came of it.
///
/// A trial run removes the directory first, so that it starts from nothing,
/// and does not mind if there was none. Any other run creates the directory
/// where it is missing and then looks into it: a directory that holds
/// anything is left as it is, and the preparation fails. After that both go
/// the same way: `cargo init` sets up a library crate, the directory for
/// scratch files is created, and the ignore file is written, which names
/// that directory. A step that fails ends the preparation.
pub open spec fn scaffold_next(
    dir: Seq<char>,
    trial: bool,
    state: ScaffoldState,
    event: ScaffoldEventView,
) -> (ScaffoldState, ScaffoldActionView) {
    match (state, event) {
        (ScaffoldState::Start, _) => if trial {
            (ScaffoldState::RemovingTarget, ScaffoldActionView::RemoveDirAll(dir))
        } else {
            (ScaffoldState::CreatingTarget, ScaffoldActionView::CreateDirAll(dir))
        },
        (ScaffoldState::RemovingTarget, ScaffoldEventView::Completed) => (
            ScaffoldState::CreatingTarget,
            ScaffoldActionView::CreateDirAll(dir),
        ),
        (ScaffoldState::RemovingTarget, ScaffoldEventView::Failed { message, not_found }) =>
            if not_found {
            (ScaffoldState::CreatingTarget, ScaffoldActionView::CreateDirAll(dir))
        } else {
            stop_with(CrateScaffoldingErrorView::IOError(message))
        },
        (ScaffoldState::CreatingTarget, ScaffoldEventView::Completed) => if trial {
            (ScaffoldState::CheckingTarget, ScaffoldActionView::CheckIsDir(dir))
        } else {
            (ScaffoldState::ListingTarget, ScaffoldActionView::ListDir(dir))
        },
        (ScaffoldState::ListingTarget, ScaffoldEventView::Listed { has_entry }) => if has_entry {
            stop_with(CrateScaffoldingErrorView::NonEmptyTargetDir(dir))
        } else {
            (ScaffoldState::CheckingTarget, ScaffoldActionView::CheckIsDir(dir))
        },
        (ScaffoldState::CheckingTarget, ScaffoldEventView::Checked { is_dir }) => if is_dir {
            (ScaffoldState::InitializingCrate, ScaffoldActionView::RunCargo(cargo_init_args(dir)))
        } else {
            stop_with(CrateScaffoldingErrorView::MissingCrateDir(dir))
        },
        (ScaffoldState::InitializingCrate, ScaffoldEventView::Exited { success, stderr }) =>
            if success {
            (
                ScaffoldState::CreatingTempDir,
                ScaffoldActionView::CreateDirAll(join_path_of(dir, Paths::TempDir.path_text())),
            )
        } else {
            stop_with(
                CrateScaffoldingErrorView::CargoInitFailed {
                    crate_dir: dir,
                    error_string: error_text(stderr),
                },
            )
        },
        (ScaffoldState::CreatingTempDir, ScaffoldEventView::Completed) => (
            ScaffoldState::WritingGitignore,
            ScaffoldActionView::WriteFile {
                path: join_path_of(dir, Paths::GitignoreFile.path_text()),
                contents: gitignore_contents(),
            },
        ),
        (ScaffoldState::WritingGitignore, ScaffoldEventView::Completed) => (
            ScaffoldState::Finished,
            ScaffoldActionView::Stop(Ok(())),
        ),
        (ScaffoldState::Finished, _) => stop_with(CrateScaffoldingErrorView::IOError(OUT_OF_STEP@)),
        (_, ScaffoldEventView::Failed { message, not_found }) => stop_with(
            CrateScaffoldingErrorView::IOError(message),
        ),
        (_, _) => stop_with(CrateScaffoldingErrorView::IOError(OUT_OF_STEP@)),
    }
}

/// Outside a trial run, nothing is written into a directory that holds
/// something: up to the look into the directory the preparation asks only
/// that the directory be there, and when the look finds an entry the
/// preparation ends with the error for a directory that is not empty.
pub proof fn lemma_non_empty_target_is_refused(dir: Seq<char>, begin: ScaffoldEventView)
    ensures
        scaffold_next(dir, false, ScaffoldState::Start, begin) == (
            ScaffoldState::CreatingTarget,
            ScaffoldActionView::CreateDirAll(dir),
        ),
        scaffold_next(dir, false, ScaffoldState::CreatingTarget, ScaffoldEventView::Completed) == (
            ScaffoldState::ListingTarget,
            ScaffoldActionView::ListDir(dir),
        ),
        scaffold_next(
            dir,
            false,
            ScaffoldState::ListingTarget,
            ScaffoldEventView::Listed { has_entry: true },
        ) == (
            ScaffoldState::Finished,
            ScaffoldActionView::Stop(Err(CrateScaffoldingErrorView::NonEmptyTargetDir(dir))),
        ),
{
}

/// Once the preparation is over, it stays over.
pub proof fn lemma_finished_is_final(dir: Seq<char>, trial: bool, event: ScaffoldEventView)
    ensures
        scaffold_next(dir, trial, ScaffoldState::Finished, event).0 == ScaffoldState::Finished,
        scaffold_next(dir, trial, ScaffoldState::Finished, event).1 is Stop,
{
}

/// The end of the preparation with an error.
fn stop(e: CrateScaffoldingError) -> (r: (ScaffoldState, ScaffoldAction))
    ensures
        r.0 == ScaffoldState::Finished,
        r.1@ == ScaffoldActionView::Stop(Err(e@)),
{
    (ScaffoldState::Finished, ScaffoldAction::Stop(Err(e)))
}

/// Tells the next step of the preparation of the crate's directory, given
/// the step that is under way and what came of it. The first step is asked
/// for in the state `Start`, with any event; the last is `Stop`.
pub fn scaffold_crate(cli: &Cli, state: ScaffoldState, event: ScaffoldEvent) -> (r: (
    ScaffoldState,
    ScaffoldAction,
))
    ensures
        r.0 == scaffold_next(
            cli.inner_cli.output_project_dir(),
            cli.inner_cli.is_test_generation(),
            state,
            event@,
        ).0,
        r.1@ == scaffold_next(
            cli.inner_cli.output_project_dir(),
            cli.inner_cli.is_test_generation(),
            state,
            event@,
        ).1,
{
    let dir = cli.inner_cli.get_output_project_dir();
    let trial = cli.inner_cli.command.is_some();
    match (state, event) {
        (ScaffoldState::Start, _) => if trial {
            (ScaffoldState::RemovingTarget, ScaffoldAction::RemoveDirAll(dir))
        } else {
            (ScaffoldState::CreatingTarget, ScaffoldAction::CreateDirAll(dir))
        },
        (ScaffoldState::RemovingTarget, ScaffoldEvent::Completed) => (
            ScaffoldState::CreatingTarget,
            ScaffoldAction::CreateDirAll(dir),
        ),
        (ScaffoldState::RemovingTarget, ScaffoldEvent::Failed { message, not_found }) =>
            if not_found {
            (ScaffoldState::CreatingTarget, ScaffoldAction::CreateDirAll(dir))
        } else {
            stop(CrateScaffoldingError::IOError(message))
        },
        (ScaffoldState::CreatingTarget, ScaffoldEvent::Completed) => if trial {
            (ScaffoldState::CheckingTarget, ScaffoldAction::CheckIsDir(dir))
        } else {
            (ScaffoldState::ListingTarget, ScaffoldAction::ListDir(dir))
        },
        (ScaffoldState::ListingTarget, ScaffoldEvent::Listed { has_entry }) => if has_entry {
            stop(CrateScaffoldingError::NonEmptyTargetDir(dir))
        } else {
            (ScaffoldState::CheckingTarget, ScaffoldAction::CheckIsDir(dir))
        },
        (ScaffoldState::CheckingTarget, ScaffoldEvent::Checked { is_dir }) => if is_dir {
            let args = strings_of(&["init", "--lib", "--color", "always", dir.as_str()]);
            proof {
                assert(args.deep_view() =~= cargo_init_args(dir@));
            }
            (ScaffoldState::InitializingCrate, ScaffoldAction::RunCargo(args))
        } else {
            stop(CrateScaffoldingError::MissingCrateDir(dir))
        },
        (ScaffoldState::InitializingCrate, ScaffoldEvent::Exited { success, stderr }) =>
            if success {
            (
                ScaffoldState::CreatingTempDir,
                ScaffoldAction::CreateDirAll(join_path(dir.as_str(), Paths::TempDir.path())),
            )
        } else {
            let error_string = match string_from_utf8(stderr) {
                Ok(text) => text,
                Err(_) => ERROR_MISSING.to_owned(),
            };
            stop(CrateScaffoldingError::CargoInitFailed { crate_dir: dir, error_string })
        },
        (ScaffoldState::CreatingTempDir, ScaffoldEvent::Completed) => {
            let mut contents = "\n/".to_owned();
            contents.append(Paths::TempDir.path());
            (
                ScaffoldState::WritingGitignore,
                ScaffoldAction::WriteFile {
                    path: join_path(dir.as_str(), Paths::GitignoreFile.path()),
                    contents,
                },
            )
        },
        (ScaffoldState::WritingGitignore, ScaffoldEvent::Completed) => (
            ScaffoldState::Finished,
            ScaffoldAction::Stop(Ok(())),
        ),
        (ScaffoldState::Finished, _) => stop(
            CrateScaffoldingError::IOError(OUT_OF_STEP.to_owned()),
        ),
        (_, ScaffoldEvent::Failed { message, not_found }) => stop(
            CrateScaffoldingError::IOError(message),
        ),
        (_, _) => stop(CrateScaffoldingError::IOError(OUT_OF_STEP.to_owned())),
    }
}

} // verus!
