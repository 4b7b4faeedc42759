use openapi_lib_generator::cli::{CLIError, Cli, GenerationTimestamp, InnerCli, SubCommands};
use openapi_lib_generator::generate::crate_scaffolds::{
    scaffold_crate, CrateScaffoldingError, ScaffoldAction, ScaffoldEvent, ScaffoldState,
};
use openapi_lib_generator::generate::makefiles::TaskNames;
use openapi_lib_generator::generate::utils::ProcessError;
use openapi_lib_generator::generate::cargos::{CargoConfigError, Edition};
use openapi_lib_generator::generate::readmes::READMEGenerationError;
use openapi_lib_generator::orchestrate::{
    pipeline_steps, pipeline_tasks, run_subcommands, RunAction, RunStep, StepOutcome,
};
use openapi_lib_generator::testing::{
    TestingError, TESTING_SPEC_FILE_NAME, TEST_API_NAME, TEST_API_URL, TEST_SUBDIR_NAME,
};
use url::Url;

fn cli(trial: bool, autogenerate: bool, spec_url: Option<&str>) -> Cli {
    Cli {
        inner_cli: InnerCli {
            site_or_api_name: "PetShoppe".to_string(),
            api_url: Url::parse("https://pet.example").unwrap(),
            api_spec_url_opt: spec_url.map(|u| Url::parse(u).unwrap()),
            local_api_spec_filepath_opt: Some("api.yaml".to_string()),
            lib_name_opt: None,
            extra_authors: None,
            output_project_dir_opt: Some("/out".to_string()),
            working_dir: "/work".to_string(),
            autogenerate,
            command: if trial {
                Some(SubCommands::TestGeneration {
                    generator_crate_local_path_opt: Some("/src/tool".to_string()),
                    generator_crate_repo_url_opt: None,
                })
            } else {
                None
            },
        },
        generation_timestamp: GenerationTimestamp { nanos: 0 },
    }
}

fn failed(message: &str, not_found: bool) -> ScaffoldEvent {
    ScaffoldEvent::Failed { message: message.to_string(), not_found }
}

#[test]
fn scaffolding_refuses_a_directory_that_holds_something() {
    let c = cli(false, false, None);
    let (state, action) = scaffold_crate(&c, ScaffoldState::Start, ScaffoldEvent::Begin);
    assert_eq!(state, ScaffoldState::CreatingTarget);
    assert!(matches!(action, ScaffoldAction::CreateDirAll(dir) if dir == "/out"));
    let (state, action) = scaffold_crate(&c, state, ScaffoldEvent::Completed);
    assert_eq!(state, ScaffoldState::ListingTarget);
    assert!(matches!(action, ScaffoldAction::ListDir(dir) if dir == "/out"));
    let (state, action) = scaffold_crate(&c, state, ScaffoldEvent::Listed { has_entry: true });
    assert_eq!(state, ScaffoldState::Finished);
    assert!(matches!(
        action,
        ScaffoldAction::Stop(Err(CrateScaffoldingError::NonEmptyTargetDir(dir))) if dir == "/out"
    ));
}

#[test]
fn scaffolding_goes_through_every_step() {
    let c = cli(false, false, None);
    let (state, _) = scaffold_crate(&c, ScaffoldState::Start, ScaffoldEvent::Begin);
    let (state, _) = scaffold_crate(&c, state, ScaffoldEvent::Completed);
    let (state, action) = scaffold_crate(&c, state, ScaffoldEvent::Listed { has_entry: false });
    assert_eq!(state, ScaffoldState::CheckingTarget);
    assert!(matches!(action, ScaffoldAction::CheckIsDir(dir) if dir == "/out"));
    let (state, action) = scaffold_crate(&c, state, ScaffoldEvent::Checked { is_dir: true });
    assert_eq!(state, ScaffoldState::InitializingCrate);
    match action {
        ScaffoldAction::RunCargo(args) => {
            assert_eq!(args, vec!["init", "--lib", "--color", "always", "/out"])
        }
        other => panic!("{other:?}"),
    }
    let exited = ScaffoldEvent::Exited { success: true, stderr: Vec::new() };
    let (state, action) = scaffold_crate(&c, state, exited);
    assert_eq!(state, ScaffoldState::CreatingTempDir);
    assert!(matches!(action, ScaffoldAction::CreateDirAll(dir) if dir == "/out/temp"));
    let (state, action) = scaffold_crate(&c, state, ScaffoldEvent::Completed);
    assert_eq!(state, ScaffoldState::WritingGitignore);
    match action {
        ScaffoldAction::WriteFile { path, contents } => {
            assert_eq!(path, "/out/.gitignore");
            assert_eq!(contents, "\n/temp");
        }
        other => panic!("{other:?}"),
    }
    let (state, action) = scaffold_crate(&c, state, ScaffoldEvent::Completed);
    assert_eq!(state, ScaffoldState::Finished);
    assert!(matches!(action, ScaffoldAction::Stop(Ok(()))));
}

#[test]
fn trial_scaffolding_starts_from_nothing() {
    let c = cli(true, false, None);
    let (state, action) = scaffold_crate(&c, ScaffoldState::Start, ScaffoldEvent::Begin);
    assert_eq!(state, ScaffoldState::RemovingTarget);
    assert!(matches!(action, ScaffoldAction::RemoveDirAll(dir) if dir == "/out"));
    let (next, action) = scaffold_crate(&c, state, failed("no such directory", true));
    assert_eq!(next, ScaffoldState::CreatingTarget);
    assert!(matches!(action, ScaffoldAction::CreateDirAll(dir) if dir == "/out"));
    let (next, action) = scaffold_crate(&c, state, ScaffoldEvent::Completed);
    assert_eq!(next, ScaffoldState::CreatingTarget);
    assert!(matches!(action, ScaffoldAction::CreateDirAll(dir) if dir == "/out"));
    let (next, action) = scaffold_crate(&c, next, ScaffoldEvent::Completed);
    assert_eq!(next, ScaffoldState::CheckingTarget);
    assert!(matches!(action, ScaffoldAction::CheckIsDir(dir) if dir == "/out"));
}

#[test]
fn trial_scaffolding_minds_other_failures_of_removal() {
    let c = cli(true, false, None);
    let (state, action) =
        scaffold_crate(&c, ScaffoldState::RemovingTarget, failed("permission denied", false));
    assert_eq!(state, ScaffoldState::Finished);
    assert!(matches!(
        action,
        ScaffoldAction::Stop(Err(CrateScaffoldingError::IOError(m))) if m == "permission denied"
    ));
}

#[test]
fn scaffolding_reports_what_cargo_init_wrote() {
    let c = cli(false, false, None);
    let exited = ScaffoldEvent::Exited { success: false, stderr: b"error: no cargo".to_vec() };
    let (state, action) = scaffold_crate(&c, ScaffoldState::InitializingCrate, exited);
    assert_eq!(state, ScaffoldState::Finished);
    match action {
        ScaffoldAction::Stop(Err(CrateScaffoldingError::CargoInitFailed {
            crate_dir,
            error_string,
        })) => {
            assert_eq!(crate_dir, "/out");
            assert_eq!(error_string, "error: no cargo");
        }
        other => panic!("{other:?}"),
    }
    let exited = ScaffoldEvent::Exited { success: false, stderr: vec![0xff, 0xfe] };
    let (_, action) = scaffold_crate(&c, ScaffoldState::InitializingCrate, exited);
    assert!(matches!(
        action,
        ScaffoldAction::Stop(Err(CrateScaffoldingError::CargoInitFailed { error_string, .. }))
            if error_string == "Error missing"
    ));
}

#[test]
fn scaffolding_stops_on_failures_and_strays() {
    let c = cli(false, false, None);
    let (state, action) =
        scaffold_crate(&c, ScaffoldState::CheckingTarget, ScaffoldEvent::Checked { is_dir: false });
    assert_eq!(state, ScaffoldState::Finished);
    assert!(matches!(
        action,
        ScaffoldAction::Stop(Err(CrateScaffoldingError::MissingCrateDir(dir))) if dir == "/out"
    ));
    for state in [
        ScaffoldState::CreatingTarget,
        ScaffoldState::ListingTarget,
        ScaffoldState::CheckingTarget,
        ScaffoldState::InitializingCrate,
        ScaffoldState::CreatingTempDir,
        ScaffoldState::WritingGitignore,
    ] {
        let (next, action) = scaffold_crate(&c, state, failed("disk full", false));
        assert_eq!(next, ScaffoldState::Finished);
        assert!(matches!(
            action,
            ScaffoldAction::Stop(Err(CrateScaffoldingError::IOError(m))) if m == "disk full"
        ));
    }
    let stray = "the report does not answer the step that was asked for";
    let (next, action) = scaffold_crate(&c, ScaffoldState::CreatingTarget, ScaffoldEvent::Begin);
    assert_eq!(next, ScaffoldState::Finished);
    assert!(matches!(
        action,
        ScaffoldAction::Stop(Err(CrateScaffoldingError::IOError(m))) if m == stray
    ));
    let (next, action) = scaffold_crate(&c, ScaffoldState::Finished, ScaffoldEvent::Completed);
    assert_eq!(next, ScaffoldState::Finished);
    assert!(matches!(
        action,
        ScaffoldAction::Stop(Err(CrateScaffoldingError::IOError(m))) if m == stray
    ));
}

#[test]
fn pipeline_depends_on_the_mode_of_the_run() {
    assert_eq!(pipeline_tasks(&cli(true, false, None)), vec![TaskNames::GenerateAll]);
    assert_eq!(
        pipeline_tasks(&cli(false, true, Some("https://pet.example/openapi.yaml"))),
        vec![TaskNames::SpecDownloadDefault, TaskNames::GenerateAll]
    );
    assert!(pipeline_tasks(&cli(false, true, None)).is_empty());
    assert!(pipeline_tasks(&cli(false, false, Some("https://pet.example/a.yaml"))).is_empty());
}

fn exited(success: bool) -> Option<StepOutcome> {
    Some(StepOutcome::Exited { success, output: "what it printed".to_string() })
}

fn step(c: &Cli, started: usize, outcome: Option<StepOutcome>) -> RunStep {
    match run_subcommands(c, started, outcome) {
        RunAction::Step(step) => step,
        other => panic!("{other:?}"),
    }
}

#[test]
fn pipeline_steps_follow_generation_up() {
    assert_eq!(
        pipeline_steps(&cli(true, false, None)),
        vec![
            RunStep::RunTask(TaskNames::GenerateAll),
            RunStep::PatchManifest,
            RunStep::BumpEdition,
            RunStep::UpdateReadme,
        ]
    );
    assert_eq!(
        pipeline_steps(&cli(false, true, Some("https://pet.example/openapi.yaml"))),
        vec![
            RunStep::RunTask(TaskNames::SpecDownloadDefault),
            RunStep::RunTask(TaskNames::GenerateAll),
            RunStep::PatchManifest,
            RunStep::BumpEdition,
            RunStep::UpdateReadme,
        ]
    );
    assert!(pipeline_steps(&cli(false, false, Some("https://pet.example/a.yaml"))).is_empty());
    assert!(pipeline_steps(&cli(false, true, None)).is_empty());
}

#[test]
fn run_goes_task_by_task() {
    let c = cli(false, true, Some("https://pet.example/openapi.yaml"));
    assert_eq!(step(&c, 0, None), RunStep::RunTask(TaskNames::SpecDownloadDefault));
    assert_eq!(step(&c, 1, exited(true)), RunStep::RunTask(TaskNames::GenerateAll));
    assert_eq!(step(&c, 2, exited(true)), RunStep::PatchManifest);
    assert_eq!(step(&c, 3, Some(StepOutcome::Completed)), RunStep::BumpEdition);
    assert_eq!(step(&c, 4, Some(StepOutcome::Completed)), RunStep::UpdateReadme);
    assert!(matches!(
        run_subcommands(&c, 5, Some(StepOutcome::Completed)),
        RunAction::Finish(Ok(()))
    ));
    let idle = cli(false, false, None);
    assert!(matches!(run_subcommands(&idle, 0, None), RunAction::Finish(Ok(()))));
    let t = cli(true, false, None);
    assert_eq!(step(&t, 0, None), RunStep::RunTask(TaskNames::GenerateAll));
    assert_eq!(step(&t, 1, exited(true)), RunStep::PatchManifest);
    assert!(matches!(
        run_subcommands(&t, 4, Some(StepOutcome::Completed)),
        RunAction::Finish(Ok(()))
    ));
}

#[test]
fn run_ends_with_the_first_failure() {
    let c = cli(false, true, Some("https://pet.example/openapi.yaml"));
    assert!(matches!(
        run_subcommands(&c, 1, exited(false)),
        RunAction::Finish(Err(CLIError::ProcessError(ProcessError::Failure(out))))
            if out == "what it printed"
    ));
    assert!(matches!(
        run_subcommands(&c, 1, Some(StepOutcome::NotRun("no cargo".to_string()))),
        RunAction::Finish(Err(CLIError::CrateScaffoldingError(CrateScaffoldingError::IOError(m))))
            if m == "no cargo"
    ));
    let t = cli(true, false, None);
    assert!(matches!(
        run_subcommands(&t, 1, exited(false)),
        RunAction::Finish(Err(CLIError::TestingError(TestingError::ProcessError(
            ProcessError::Failure(out)
        )))) if out == "what it printed"
    ));
    assert!(matches!(
        run_subcommands(&t, 1, Some(StepOutcome::NotRun("no cargo".to_string()))),
        RunAction::Finish(Err(CLIError::TestingError(TestingError::IOError(m)))) if m == "no cargo"
    ));
}

#[test]
fn run_ends_with_the_error_of_a_document() {
    let refused = || {
        Some(StepOutcome::Failed(CLIError::CargoConfigError(
            CargoConfigError::UpdateRustEditionError(Edition::E2021),
        )))
    };
    for c in [cli(true, false, None), cli(false, true, Some("https://pet.example/a.yaml"))] {
        assert!(matches!(
            run_subcommands(&c, 3, refused()),
            RunAction::Finish(Err(CLIError::CargoConfigError(
                CargoConfigError::UpdateRustEditionError(Edition::E2021)
            )))
        ));
    }
    let unreadable = Some(StepOutcome::Failed(CLIError::READMEGenerationError(
        READMEGenerationError::FromUtf8Error("invalid utf-8".to_string()),
    )));
    assert!(matches!(
        run_subcommands(&cli(true, false, None), 4, unreadable),
        RunAction::Finish(Err(CLIError::READMEGenerationError(
            READMEGenerationError::FromUtf8Error(m)
        ))) if m == "invalid utf-8"
    ));
}

#[test]
fn trial_run_has_fixed_names() {
    assert_eq!(TESTING_SPEC_FILE_NAME, "petshoppe_test_spec.yaml");
    assert_eq!(TEST_SUBDIR_NAME, "testing");
    assert_eq!(TEST_API_URL, "https://www.petshoppe.example");
    assert_eq!(TEST_API_NAME, "PetShoppe");
}
