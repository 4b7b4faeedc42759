//! The task file of the generated crate: an environment and a closed set of
//! named tasks for the task runner.

use crate::cli::{Cli, Paths, SubCommands};
use crate::generate::cargos::{CargoConfigError, CargoConfigurator};
use crate::generate::parameters::{url_as_string, url_text, ParameterError};
use crate::generate::readmes::READMEGenerationError;
use crate::generate::utils::{
    get_this_crate_name, get_this_crate_ver, get_this_crate_ver_pretty, trim_lines_vec,
    trimmed_lines, THIS_CRATE_NAME, THIS_CRATE_VER,
};
use crate::text::{extend_strings, push_str, strings_of};
use vstd::prelude::*;
use vstd::string::*;

verus! {

/// What can go wrong while the task file is built or written.
#[derive(Debug)]
pub enum MakefileGenerationError {
    /// The environment lacks the key named.
    EnvMissingKey(String),
    /// Reading or writing failed; the text says how.
    IOError(String),
    CargoConfigError(CargoConfigError),
    ParameterError(ParameterError),
    READMEGenerationError(READMEGenerationError),
    /// A snapshot could not be written out as YAML.
    SerdeYAMLError(String),
    /// The task file could not be written out as TOML.
    TomlSerError(String),
}

/// The names of the tasks. A task file holds no task under any other name.
#[derive(Clone, Copy, Debug, PartialEq, Eq, Structural, Hash)]
pub enum TaskNames {
    CargoFixGenerated,
    CrateScaffold,
    GenerateAll,
    LibCodeGenerate,
    LibCodeGenerateDryRun,
    OpenapiCliCheck,
    OpenapiCliBashInstall,
    OutputDirClean,
    OutputDirCreate,
    SpecDownloadDefault,
    SpecDownload,
    SpecValidate,
}

impl TaskNames {
    /// The name as the task file writes it.
    pub open spec fn name_text(self) -> Seq<char> {
        match self {
            TaskNames::CargoFixGenerated => "cargo-fix-generated"@,
            TaskNames::CrateScaffold => "crate-scaffold"@,
            TaskNames::GenerateAll => "generate-all"@,
            TaskNames::LibCodeGenerate => "lib-code-generate"@,
            TaskNames::LibCodeGenerateDryRun => "lib-code-generate-dry-run"@,
            TaskNames::OpenapiCliCheck => "openapi-cli-check"@,
            TaskNames::OpenapiCliBashInstall => "openapi-cli-bash-install"@,
            TaskNames::OutputDirClean => "output-dir-clean"@,
            TaskNames::OutputDirCreate => "output-dir-create"@,
            TaskNames::SpecDownloadDefault => "spec-download-default"@,
            TaskNames::SpecDownload => "spec-download"@,
            TaskNames::SpecValidate => "spec-validate"@,
        }
    }

    /// The name as the task file writes it.
    pub fn as_str(&self) -> (r: &'static str)
        ensures
            r@ == self.name_text(),
    {
        match self {
            TaskNames::CargoFixGenerated => "cargo-fix-generated",
            TaskNames::CrateScaffold => "crate-scaffold",
            TaskNames::GenerateAll => "generate-all",
            TaskNames::LibCodeGenerate => "lib-code-generate",
            TaskNames::LibCodeGenerateDryRun => "lib-code-generate-dry-run",
            TaskNames::OpenapiCliCheck => "openapi-cli-check",
            TaskNames::OpenapiCliBashInstall => "openapi-cli-bash-install",
            TaskNames::OutputDirClean => "output-dir-clean",
            TaskNames::OutputDirCreate => "output-dir-create",
            TaskNames::SpecDownloadDefault => "spec-download-default",
            TaskNames::SpecDownload => "spec-download",
            TaskNames::SpecValidate => "spec-validate",
        }
    }

    /// What the task does, in a sentence.
    pub open spec fn description_text(self) -> Seq<char> {
        match self {
            TaskNames::CargoFixGenerated => "A task that does cargo fix"@,
            TaskNames::CrateScaffold => "A task that scaffolds the crate"@,
            TaskNames::GenerateAll => "A task that does all of the generation steps "@,
            TaskNames::LibCodeGenerate => "A task that generates the code lib from the openapi spec"@,
            TaskNames::LibCodeGenerateDryRun =>
                "A task that does a DRY RUN of generating the code lib from the openapi spec"@,
            TaskNames::OpenapiCliCheck => "A task that checks openapi-generator cli artifact"@,
            TaskNames::OpenapiCliBashInstall =>
                "A task that installs openapi-generator cli artifact"@,
            TaskNames::OutputDirClean => "A task that cleans a library directory"@,
            TaskNames::OutputDirCreate => "A task that sets up a library directory"@,
            TaskNames::SpecDownloadDefault => "A task that downloads default spec if known"@,
            TaskNames::SpecDownload => "A task that downloads spec if known"@,
            TaskNames::SpecValidate => "A task that validates the spec"@,
        }
    }

    /// What the task does, in a sentence.
    pub fn description(&self) -> (r: &'static str)
        ensures
            r@ == self.description_text(),
    {
        match self {
            TaskNames::CargoFixGenerated => "A task that does cargo fix",
            TaskNames::CrateScaffold => "A task that scaffolds the crate",
            TaskNames::GenerateAll => "A task that does all of the generation steps ",
            TaskNames::LibCodeGenerate => "A task that generates the code lib from the openapi spec",
            TaskNames::LibCodeGenerateDryRun =>
                "A task that does a DRY RUN of generating the code lib from the openapi spec",
            TaskNames::OpenapiCliCheck => "A task that checks openapi-generator cli artifact",
            TaskNames::OpenapiCliBashInstall =>
                "A task that installs openapi-generator cli artifact",
            TaskNames::OutputDirClean => "A task that cleans a library directory",
            TaskNames::OutputDirCreate => "A task that sets up a library directory",
            TaskNames::SpecDownloadDefault => "A task that downloads default spec if known",
            TaskNames::SpecDownload => "A task that downloads spec if known",
            TaskNames::SpecValidate => "A task that validates the spec",
        }
    }
}

/// No two names are written alike, so the task file can tell its tasks apart
/// by what it writes.
pub proof fn lemma_task_names_are_written_apart(a: TaskNames, b: TaskNames)
    ensures
        a.name_text() == b.name_text() <==> a == b,
{
    reveal_strlit("cargo-fix-generated");
    reveal_strlit("crate-scaffold");
    reveal_strlit("generate-all");
    reveal_strlit("lib-code-generate");
    reveal_strlit("lib-code-generate-dry-run");
    reveal_strlit("openapi-cli-check");
    reveal_strlit("openapi-cli-bash-install");
    reveal_strlit("output-dir-clean");
    reveal_strlit("output-dir-create");
    reveal_strlit("spec-download-default");
    reveal_strlit("spec-download");
    reveal_strlit("spec-validate");
    if a != b && a.name_text().len() == b.name_text().len() {
        assert(a.name_text()[1] != b.name_text()[1] || a.name_text()[5] != b.name_text()[5]);
    }
}

/// A value of the environment: a text, or a script whose output is the value.
#[derive(Debug)]
pub enum EnvValue {
    Value(String),
    Script(Vec<String>),
}

/// A value of the environment, as plain text.
pub enum EnvValueView {
    Value(Seq<char>),
    Script(Seq<Seq<char>>),
}

impl View for EnvValue {
    type V = EnvValueView;

    open spec fn view(&self) -> EnvValueView {
        match self {
            EnvValue::Value(s) => EnvValueView::Value(s@),
            EnvValue::Script(lines) => EnvValueView::Script(lines.deep_view()),
        }
    }
}

/// A task: what it is, what it runs, and which tasks run before it.
#[derive(Debug)]
pub struct Task {
    pub category: Option<String>,
    pub description: Option<String>,
    pub command: Option<String>,
    pub args: Option<Vec<String>>,
    /// The tasks that run before this one.
    pub dependencies: Option<Vec<TaskNames>>,
    /// What runs the script.
    pub script_runner: Option<String>,
    /// The lines of a script to run in place of a command.
    pub script: Option<Vec<String>>,
    /// The lines of a script that decides whether the task runs.
    pub condition_script: Option<Vec<String>>,
}

/// A task, as plain text.
pub struct TaskView {
    pub category: Option<Seq<char>>,
    pub description: Option<Seq<char>>,
    pub command: Option<Seq<char>>,
    pub args: Option<Seq<Seq<char>>>,
    pub dependencies: Option<Seq<TaskNames>>,
    pub script_runner: Option<Seq<char>>,
    pub script: Option<Seq<Seq<char>>>,
    pub condition_script: Option<Seq<Seq<char>>>,
}

impl View for Task {
    type V = TaskView;

    open spec fn view(&self) -> TaskView {
        TaskView {
            category: self.category.deep_view(),
            description: self.description.deep_view(),
            command: self.command.deep_view(),
            args: self.args.deep_view(),
            dependencies: match self.dependencies {
                Some(names) => Some(names@),
                None => None,
            },
            script_runner: self.script_runner.deep_view(),
            script: self.script.deep_view(),
            condition_script: self.condition_script.deep_view(),
        }
    }
}

/// The category that every task of the tool is filed under: the tool's
/// name and version.
pub open spec fn default_category_text() -> Seq<char> {
    THIS_CRATE_NAME@ + " "@ + ("v"@ + THIS_CRATE_VER@)
}

impl TaskView {
    /// A task that is described and filed, and does nothing yet.
    pub open spec fn described(description: Seq<char>) -> TaskView {
        TaskView {
            category: Some(default_category_text()),
            description: Some(description),
            command: None,
            args: None,
            dependencies: None,
            script_runner: None,
            script: None,
            condition_script: None,
        }
    }

    /// The names of the tasks that run before this one.
    pub open spec fn prerequisites(self) -> Seq<TaskNames> {
        match self.dependencies {
            Some(names) => names,
            None => Seq::empty(),
        }
    }
}

impl Task {
    /// A task that is described and filed, and does nothing yet.
    fn described(description: &str) -> (r: Task)
        ensures
            r@ == TaskView::described(description@),
    {
        Task {
            category: NamedTask::default_category(),
            description: Some(description.to_owned()),
            command: None,
            args: None,
            dependencies: None,
            script_runner: None,
            script: None,
            condition_script: None,
        }
    }
}

impl NamedTask {
    /// The category that every task of the tool is filed under.
    pub fn default_category() -> (r: Option<String>)
        ensures
            r.deep_view() == Some(default_category_text()),
    {
        let mut category = get_this_crate_name().to_owned();
        category.append(" ");
        category.append(get_this_crate_ver_pretty().as_str());
        Some(category)
    }
}

/// A task under its name.
#[derive(Debug)]
pub struct NamedTask {
    pub name: TaskNames,
    pub task: Task,
}

/// A task under its name, as plain text.
pub struct NamedTaskView {
    pub name: TaskNames,
    pub task: TaskView,
}

impl View for NamedTask {
    type V = NamedTaskView;

    open spec fn view(&self) -> NamedTaskView {
        NamedTaskView { name: self.name, task: self.task@ }
    }
}

/// The script that tells whether the code generator is installed.
pub const OPENAPI_CLI_CONDITION_SCRIPT: &'static str = r#"
    #!/bin/bash
    # check if openapi cli command exists
    if command -v ${OPEN_API_GENERATOR_CLI_SCRIPT} >& /dev/null ;  then
      echo "Found OpenAPI CLI command."
      exit 0
    else
      echo "Missing OpenAPI CLI command. Try running `cargo make openapi-cli-bash-install`"
      exit 1
    fi
"#;

/// The script that fetches the code generator's launcher and asks the user
/// whether to enable it, to read it first, or to delete it again.
pub const OPENAPI_CLI_INSTALL_SCRIPT: &'static str = r#"
    #!/bin/bash
    # enable the downloaded cli artifact file
    CLI_SUBDIR=$HOME/${OPEN_API_GENERATOR_CLI_SUBDIR}
    CLI_PATH=$HOME/${OPEN_API_GENERATOR_CLI_PATH}
    CLI_SCRIPT=${OPEN_API_GENERATOR_CLI_SCRIPT}
    if [[ ! -s "$HOME/.bash_profile" && -s "$HOME/.profile" ]] ; then
        PROFILE_FILE="$HOME/.profile"
    else
        PROFILE_FILE="$HOME/.bash_profile"
    fi
    # echo $CLI_SCRIPT
    function check_cli
    {
        source $PROFILE_FILE
        if command -v $CLI_SCRIPT >& /dev/null
        then
            echo "Install success. You can now run the \"$CLI_SCRIPT\" command"
            echo "After running \"source $PROFILE_FILE\""
            exit 0
        else
            echo "Install failed."
            exit 0
        fi
    }
    function enable_cli
    {
        chmod u+x $CLI_PATH
        line_to_add="export PATH=\$PATH:$CLI_SUBDIR/"
        if ! grep -q "$line_to_add" "${PROFILE_FILE}" ; then
            echo "Adding \"$line_to_add\" to ${PROFILE_FILE}."
            echo "\# OpenAPI Generator CLI" >> $PROFILE_FILE
            echo "$line_to_add" >> $PROFILE_FILE
        else
            echo "Line already found in $PROFILE_FILE"
        fi
        check_cli
    }
    # review the downloaded cli artifact file and optionally enable
    function deal_with_cli
    {
        echo Downloaded Open API Generator CLI script at $CLI_PATH
        echo Do you want to enable, review the script or delete it?
        select erd in "Enable" "Review" "Delete"; do
            case $erd in
                Enable)
                    enable_cli
                    break
                    ;;
                Review)
                    less $CLI_PATH
                    deal_with_cli
                    break
                    ;;
                Delete)
                    rm $CLI_PATH
                    rm -rf $CLI_SUBDIR
                    exit 1
                    ;;
            esac
        done
    }
    # get the cli
    function get_cli
    {
        mkdir -p $CLI_SUBDIR
        wget -N ${OPEN_API_GENERATOR_CLI_URL} -O $CLI_PATH
    }

    get_cli
    deal_with_cli
"#;

/// The environment of the task file, one value for each of its keys. The
/// task file writes each key in capitals.
#[derive(Debug)]
pub struct MakefileEnv {
    /// The URL of the application.
    pub api_url: EnvValue,
    /// The name of the application.
    pub api_name: EnvValue,
    /// The name of the generated crate.
    pub lib_name: EnvValue,
    /// The directory of the generated crate as the run knew it.
    pub original_output_dir: EnvValue,
    /// The directory of the generated crate: the one the task runner works in when a task runs.
    pub output_dir: EnvValue,
    /// The directory for scratch files.
    pub output_temp_dir: EnvValue,
    /// Where the code generator's launcher can be fetched.
    pub open_api_generator_cli_url: EnvValue,
    /// The directory, below the user's home, that the launcher is put in.
    pub open_api_generator_cli_subdir: EnvValue,
    /// The path of the launcher below the user's home.
    pub open_api_generator_cli_path: EnvValue,
    /// The file name of the launcher.
    pub open_api_generator_cli_script: EnvValue,
    /// The name of the options file of the code generator.
    pub open_api_generator_config_file: EnvValue,
    /// The path of the options file.
    pub open_api_generator_config_path: EnvValue,
    /// The directory that specifications are fetched into.
    pub spec_file_download_dir: EnvValue,
    /// The file name of the specification.
    pub spec_file_name: EnvValue,
    /// The path of the specification.
    pub spec_file_path: EnvValue,
    /// The URL of the specification, empty where the run has none.
    pub spec_file_url: EnvValue,
}

/// The environment of the task file, as plain text.
pub struct MakefileEnvView {
    pub api_url: EnvValueView,
    pub api_name: EnvValueView,
    pub lib_name: EnvValueView,
    pub original_output_dir: EnvValueView,
    pub output_dir: EnvValueView,
    pub output_temp_dir: EnvValueView,
    pub open_api_generator_cli_url: EnvValueView,
    pub open_api_generator_cli_subdir: EnvValueView,
    pub open_api_generator_cli_path: EnvValueView,
    pub open_api_generator_cli_script: EnvValueView,
    pub open_api_generator_config_file: EnvValueView,
    pub open_api_generator_config_path: EnvValueView,
    pub spec_file_download_dir: EnvValueView,
    pub spec_file_name: EnvValueView,
    pub spec_file_path: EnvValueView,
    pub spec_file_url: EnvValueView,
}

impl View for MakefileEnv {
    type V = MakefileEnvView;

    open spec fn view(&self) -> MakefileEnvView {
        MakefileEnvView {
            api_url: self.api_url@,
            api_name: self.api_name@,
            lib_name: self.lib_name@,
            original_output_dir: self.original_output_dir@,
            output_dir: self.output_dir@,
            output_temp_dir: self.output_temp_dir@,
            open_api_generator_cli_url: self.open_api_generator_cli_url@,
            open_api_generator_cli_subdir: self.open_api_generator_cli_subdir@,
            open_api_generator_cli_path: self.open_api_generator_cli_path@,
            open_api_generator_cli_script: self.open_api_generator_cli_script@,
            open_api_generator_config_file: self.open_api_generator_config_file@,
            open_api_generator_config_path: self.open_api_generator_config_path@,
            spec_file_download_dir: self.spec_file_download_dir@,
            spec_file_name: self.spec_file_name@,
            spec_file_path: self.spec_file_path@,
            spec_file_url: self.spec_file_url@,
        }
    }
}

/// The environment for a run. The directory of the crate is not written
/// down: a script asks for it when a task runs, so that it is the directory
/// the task runner works in.
pub open spec fn makefile_env_for(cli: &Cli) -> MakefileEnvView
    recommends
        cli.inner_cli.spec_file_name() is Some,
{
    MakefileEnvView {
        api_url: EnvValueView::Value(url_text(cli.inner_cli.api_url)),
        api_name: EnvValueView::Value(cli.inner_cli.site_or_api_name@),
        lib_name: EnvValueView::Value(cli.inner_cli.lib_name()),
        original_output_dir: EnvValueView::Value(cli.inner_cli.output_project_dir()),
        output_dir: EnvValueView::Script(seq!["pwd"@]),
        output_temp_dir: EnvValueView::Value("./"@ + Paths::TempDir.path_text()),
        open_api_generator_cli_url: EnvValueView::Value(MakefileEnv::OPEN_API_GENERATOR_CLI_URL@),
        open_api_generator_cli_subdir: EnvValueView::Value(MakefileEnv::OPEN_API_GENERATOR_CLI_SUBDIR@),
        open_api_generator_cli_path: EnvValueView::Value(
            "${OPEN_API_GENERATOR_CLI_SUBDIR}/${OPEN_API_GENERATOR_CLI_SCRIPT}"@,
        ),
        open_api_generator_cli_script: EnvValueView::Value(MakefileEnv::OPEN_API_GENERATOR_CLI_SCRIPT@),
        open_api_generator_config_file: EnvValueView::Value(MakefileEnv::OPEN_API_GENERATOR_CONFIG_FILE@),
        open_api_generator_config_path: EnvValueView::Value("${OPEN_API_GENERATOR_CONFIG_FILE}"@),
        spec_file_download_dir: EnvValueView::Value("${OUTPUT_TEMP_DIR}/specdl"@),
        spec_file_name: EnvValueView::Value(cli.inner_cli.spec_file_name()->0),
        spec_file_path: EnvValueView::Value("${SPEC_FILE_NAME}"@),
        spec_file_url: EnvValueView::Value(
            match cli.inner_cli.api_spec_url_opt {
                Some(url) => url_text(url),
                None => Seq::empty(),
            },
        ),
    }
}

impl MakefileEnv {
    /// The name of the options file of the code generator.
    pub const OPEN_API_GENERATOR_CONFIG_FILE: &'static str = "generator_config.yaml";

    /// Where the code generator's launcher can be fetched.
    pub const OPEN_API_GENERATOR_CLI_URL: &'static str =
        "https://raw.githubusercontent.com/OpenAPITools/openapi-generator/master/bin/utils/openapi-generator-cli.sh";

    /// The directory, below the user's home, that the launcher is put in.
    pub const OPEN_API_GENERATOR_CLI_SUBDIR: &'static str = "bin/openapitools";

    /// The file name of the launcher.
    pub const OPEN_API_GENERATOR_CLI_SCRIPT: &'static str = "openapi-generator-cli";

    /// The name of the task file.
    pub const MAKEFILE_NAME: &'static str = "Makefile.toml";

    /// The environment for a run. There is none for a run whose
    /// specification has no file name.
    pub fn try_from(cli: &Cli) -> (r: Result<Self, MakefileGenerationError>)
        ensures
            match r {
                Ok(env) => cli.inner_cli.spec_file_name() is Some && env@ == makefile_env_for(cli),
                Err(MakefileGenerationError::ParameterError(e)) =>
                    cli.inner_cli.refuses_spec_file_name(e),
                Err(_) => false,
            },
    {
        let spec_file_name = match cli.inner_cli.try_get_spec_file_name() {
            Ok(name) => name,
            Err(e) => {
                return Err(MakefileGenerationError::ParameterError(e));
            },
        };
        let mut output_temp_dir = "./".to_owned();
        output_temp_dir.append(Paths::TempDir.path());
        let spec_file_url = match &cli.inner_cli.api_spec_url_opt {
            Some(url) => url_as_string(url),
            None => String::new(),
        };
        let env = Self {
            api_url: EnvValue::Value(url_as_string(&cli.inner_cli.api_url)),
            api_name: EnvValue::Value(cli.inner_cli.site_or_api_name.clone()),
            lib_name: EnvValue::Value(cli.inner_cli.get_lib_name()),
            original_output_dir: EnvValue::Value(cli.inner_cli.get_output_project_dir_string()),
            output_dir: EnvValue::Script(strings_of(&["pwd"])),
            output_temp_dir: EnvValue::Value(output_temp_dir),
            open_api_generator_cli_url: EnvValue::Value(Self::OPEN_API_GENERATOR_CLI_URL.to_owned()),
            open_api_generator_cli_subdir: EnvValue::Value(Self::OPEN_API_GENERATOR_CLI_SUBDIR.to_owned()),
            open_api_generator_cli_path: EnvValue::Value(
                "${OPEN_API_GENERATOR_CLI_SUBDIR}/${OPEN_API_GENERATOR_CLI_SCRIPT}".to_owned(),
            ),
            open_api_generator_cli_script: EnvValue::Value(Self::OPEN_API_GENERATOR_CLI_SCRIPT.to_owned()),
            open_api_generator_config_file: EnvValue::Value(Self::OPEN_API_GENERATOR_CONFIG_FILE.to_owned()),
            open_api_generator_config_path: EnvValue::Value("${OPEN_API_GENERATOR_CONFIG_FILE}".to_owned()),
            spec_file_download_dir: EnvValue::Value("${OUTPUT_TEMP_DIR}/specdl".to_owned()),
            spec_file_name: EnvValue::Value(spec_file_name),
            spec_file_path: EnvValue::Value("${SPEC_FILE_NAME}".to_owned()),
            spec_file_url: EnvValue::Value(spec_file_url),
        };
        proof {
            assert(env.output_dir@->Script_0 =~= seq!["pwd"@]);
        }
        Ok(env)
    }
}

/// The task that lets `cargo fix` mend the generated code, for all targets and features.
pub open spec fn cargo_fix_task() -> NamedTaskView {
    NamedTaskView {
        name: TaskNames::CargoFixGenerated,
        task: TaskView {
            command: Some("cargo"@),
            args: Some(seq![
                "fix"@,
                "--broken-code"@,
                "--edition"@,
                "--edition-idioms"@,
                "--allow-dirty"@,
                "--all-targets"@,
                "--all-features"@,
                "--verbose"@,
                "--verbose"@,
            ]),
            ..TaskView::described("Fix ${LIB_NAME} project generated code'."@)
        },
    }
}

/// The task that sets the crate up: it runs nothing itself, and has the directory made and emptied first.
pub open spec fn crate_scaffold_task() -> NamedTaskView {
    NamedTaskView {
        name: TaskNames::CrateScaffold,
        task: TaskView {
            dependencies: Some(seq![TaskNames::OutputDirCreate, TaskNames::OutputDirClean]),
            ..TaskView::described("Setup ${LIB_NAME} project'."@)
        },
    }
}

/// The task that checks that the code generator's launcher is installed.
pub open spec fn openapi_cli_check_task() -> NamedTaskView {
    NamedTaskView {
        name: TaskNames::OpenapiCliCheck,
        task: TaskView {
            command: Some("command"@),
            args: Some(seq![
                "-v"@,
                "${OPEN_API_GENERATOR_CLI_SCRIPT}"@,
            ]),
            ..TaskView::described("Check that openapi cli generator tool is installed"@)
        },
    }
}

/// The task that installs the code generator's launcher, by the install script.
pub open spec fn openapi_cli_install_task() -> NamedTaskView {
    NamedTaskView {
        name: TaskNames::OpenapiCliBashInstall,
        task: TaskView {
            script: Some(trimmed_lines(OPENAPI_CLI_INSTALL_SCRIPT@)),
            ..TaskView::described("Install Open API generator CLI'."@)
        },
    }
}

/// The task that empties the directory of the crate.
pub open spec fn output_dir_clean_task() -> NamedTaskView {
    NamedTaskView {
        name: TaskNames::OutputDirClean,
        task: TaskView {
            command: Some("rm"@),
            args: Some(seq![
                "-rf"@,
                "${OUTPUT_DIR}/*"@,
            ]),
            ..TaskView::described("Setup ${LIB_NAME} output dir at ${OUTPUT_DIR}'."@)
        },
    }
}

/// The task that makes the directory of the crate.
pub open spec fn output_dir_create_task() -> NamedTaskView {
    NamedTaskView {
        name: TaskNames::OutputDirCreate,
        task: TaskView {
            command: Some("mkdir"@),
            ..TaskView::described("Create ${LIB_NAME} output dir at ${OUTPUT_DIR}'."@)
        },
    }
}

/// The task that fetches the specification from the URL the run was given.
pub open spec fn spec_download_default_task() -> NamedTaskView {
    NamedTaskView {
        name: TaskNames::SpecDownloadDefault,
        task: TaskView {
            command: Some("wget"@),
            args: Some(seq![
                "${SPEC_FILE_URL}"@,
                "-O"@,
                "${SPEC_FILE_PATH}"@,
            ]),
            ..TaskView::described("Downloads ${API_NAME} Open API specification from '${API_URL}'."@)
        },
    }
}

/// The task that fetches the specification from the URL it is called with.
pub open spec fn spec_download_task() -> NamedTaskView {
    NamedTaskView {
        name: TaskNames::SpecDownload,
        task: TaskView {
            command: Some("wget"@),
            args: Some(seq![
                "${@}"@,
                "-O"@,
                "${SPEC_FILE_PATH}"@,
            ]),
            ..TaskView::described("Downloads ${API_NAME} Open API specification from specified vararg'."@)
        },
    }
}

/// The arguments with which the code generator is called.
pub open spec fn code_generation_opts() -> Seq<Seq<char>> {
    seq![
        "generate"@,
        "--generator-name"@,
        "rust"@,
        "--output"@,
        "${OUTPUT_DIR}"@,
        "--input-spec"@,
        "${SPEC_FILE_PATH}"@,
        "--config"@,
        "${OPEN_API_GENERATOR_CONFIG_PATH}"@,
    ]
}

/// The task that generates the code of the crate from the specification,
/// or, as a dry run, only goes through the motions. The check that the code
/// generator's launcher is installed runs before it, and it runs only where
/// the launcher is found.
pub open spec fn lib_code_generator_task(dry_run: bool) -> NamedTaskView {
    NamedTaskView {
        name: if dry_run {
            TaskNames::LibCodeGenerateDryRun
        } else {
            TaskNames::LibCodeGenerate
        },
        task: TaskView {
            dependencies: Some(seq![TaskNames::OpenapiCliCheck]),
            condition_script: Some(trimmed_lines(OPENAPI_CLI_CONDITION_SCRIPT@)),
            command: Some("${OPEN_API_GENERATOR_CLI_SCRIPT}"@),
            args: Some(
                if dry_run {
                    code_generation_opts().push("--dry-run"@)
                } else {
                    code_generation_opts()
                },
            ),
            ..TaskView::described("Generate ${LIB_NAME} code"@)
        },
    }
}

/// The task that has the code generator check the specification. Its
/// description is the sentence that goes with its name.
pub open spec fn spec_validate_task() -> NamedTaskView {
    NamedTaskView {
        name: TaskNames::SpecValidate,
        task: TaskView {
            command: Some("${OPEN_API_GENERATOR_CLI_SCRIPT}"@),
            args: Some(seq!["validate"@, "--input-spec"@, "${SPEC_FILE_PATH}"@, "--recommend"@]),
            ..TaskView::described(TaskNames::SpecValidate.description_text())
        },
    }
}

/// The first lines of the script of the task that does everything, up to
/// the dependency on this tool.
pub const GENERATE_ALL_HEADER_HEAD: &'static str = r#"
      //! ```cargo
      //! [dependencies]
      //! "#;

/// The lines that follow the dependency on this tool.
pub const GENERATE_ALL_HEADER_TAIL: &'static str = r#"
      //! serde_yaml = { version = "0.9.19" }
      //! tokio = { version = "1.26.0", features = ["full"] }
      //! ```
    "#;

/// The script's program, up to the name of this tool.
pub const GENERATE_ALL_BODY_HEAD: &'static str = r#"
      use "#;

/// The script's program from the name of this tool to the first snapshot.
pub const GENERATE_ALL_BODY_IMPORTS: &'static str = r#"::{
        cli::CLIError,
        generate::{
          cargos::CargoConfigurator,
          readmes::READMEGenerator
        }
      };
      mod yaml_specs {
        pub const CARGO_CONFIGURATOR_YAML: &'static str = ""#;

/// The script's program between the two snapshots.
pub const GENERATE_ALL_BODY_BETWEEN: &'static str = r#"";
        pub const README_GENERATOR_YAML: &'static str = ""#;

/// The script's program after the second snapshot.
pub const GENERATE_ALL_BODY_TAIL: &'static str = r#"";
      }
      #[tokio::main]
      async fn main() -> Result<(), CLIError> {
        let cargo_configurator: CargoConfigurator = serde_yaml::from_str(yaml_specs::CARGO_CONFIGURATOR_YAML)?;
        cargo_configurator.update_cargo_manifest_post_generation().await?;
        cargo_configurator.update_cargo_manifest_post_fix_edition().await?;
        let readme_generator: READMEGenerator = serde_yaml::from_str(yaml_specs::README_GENERATOR_YAML)?;
        readme_generator.update_readme_md_file().await?;
        println!("updates complete");
        Ok(())
      }
    "#;

/// The line of a manifest by which the script of a run depends on this
/// tool: by version, and in a trial run by the local path where one is
/// named, or else by the repository where one is named.
pub open spec fn self_dependency_line(cli: &Cli) -> Seq<char> {
    let by_version = THIS_CRATE_NAME@ + " = { version = \""@ + THIS_CRATE_VER@ + "\""@;
    match cli.inner_cli.command {
        Some(command) => match command@.local_path {
            Some(path) => by_version + ", path = \""@ + path + "\" } "@,
            None => match command@.repo_url {
                Some(url) => by_version + ", git = \""@ + url + "\" } "@,
                None => by_version + " }"@,
            },
        },
        None => by_version + " }"@,
    }
}

/// The script of the task that does everything, as it is laid out before
/// its indentation is taken off: first the manifest it runs under.
pub open spec fn generate_all_header(cli: &Cli) -> Seq<char> {
    GENERATE_ALL_HEADER_HEAD@ + self_dependency_line(cli) + GENERATE_ALL_HEADER_TAIL@
}

/// Then its program, which holds the two snapshots word for word.
pub open spec fn generate_all_body(
    cargo_configurator_yaml: Seq<char>,
    readme_generator_yaml: Seq<char>,
) -> Seq<char> {
    GENERATE_ALL_BODY_HEAD@ + THIS_CRATE_NAME@ + GENERATE_ALL_BODY_IMPORTS@ + cargo_configurator_yaml
        + GENERATE_ALL_BODY_BETWEEN@ + readme_generator_yaml + GENERATE_ALL_BODY_TAIL@
}

/// The task that does everything: once the code is generated and mended,
/// its script brings the manifest and the README up to date, from the two
/// snapshots it is given.
pub open spec fn generate_all_task(
    cli: &Cli,
    cargo_configurator_yaml: Seq<char>,
    readme_generator_yaml: Seq<char>,
) -> NamedTaskView {
    NamedTaskView {
        name: TaskNames::GenerateAll,
        task: TaskView {
            dependencies: Some(seq![TaskNames::LibCodeGenerate, TaskNames::CargoFixGenerated]),
            script_runner: Some("@rust"@),
            script: Some(
                trimmed_lines(generate_all_header(cli)) + trimmed_lines(
                    generate_all_body(cargo_configurator_yaml, readme_generator_yaml),
                ),
            ),
            ..TaskView::described("Generate ${LIB_NAME} code and try to get it up to par"@)
        },
    }
}

/// Whether `c` is a letter of the Latin alphabet, a digit or an underscore.
pub open spec fn is_identifier_char(c: char) -> bool {
    let u = c as u32;
    ||| 0x61 <= u <= 0x7A
    ||| 0x41 <= u <= 0x5A
    ||| 0x30 <= u <= 0x39
    ||| u == 0x5F
}

/// Whether `name` is an identifier written with letters of the Latin
/// alphabet, digits and underscores alone, and no digit first.
pub open spec fn is_plain_identifier(name: Seq<char>) -> bool {
    &&& name.len() > 0
    &&& !(0x30 <= name[0] as u32 <= 0x39)
    &&& forall|i: int| 0 <= i < name.len() ==> is_identifier_char(#[trigger] name[i])
}

/// Calls `Ident::new` of `syn` (the type is that of `proc_macro2`) with the
/// span of the call site, and writes the identifier out. Trusted: an
/// identifier is written as it was given. `Ident::new` panics on a text
/// that is no identifier; a plain identifier always is one.
#[verifier::external_body]
fn identifier_text(name: &str) -> (r: String)
    requires
        is_plain_identifier(name@),
    ensures
        r@ == name@,
{
    syn::Ident::new(name, proc_macro2::Span::call_site()).to_string()
}

/// The name of this tool is a plain identifier.
pub proof fn lemma_this_crate_name_is_identifier()
    ensures
        is_plain_identifier(THIS_CRATE_NAME@),
{
    reveal_strlit("openapi_lib_generator");
}

impl NamedTask {
    /// The task that lets `cargo fix` mend the generated code, for all targets and features.
    pub fn make_cargo_fix_task() -> (r: Self)
        ensures
            r@ == cargo_fix_task(),
    {
        let mut task = Task::described("Fix ${LIB_NAME} project generated code'.");
        task.command = Some("cargo".to_owned());
        let args = strings_of(&[
            "fix",
            "--broken-code",
            "--edition",
            "--edition-idioms",
            "--allow-dirty",
            "--all-targets",
            "--all-features",
            "--verbose",
            "--verbose",
        ]);
        proof {
            assert(args.deep_view() =~= cargo_fix_task().task.args->0);
        }
        task.args = Some(args);
        Self { name: TaskNames::CargoFixGenerated, task }
    }

    /// The task that sets the crate up: it runs nothing itself, and has the directory made and emptied first.
    pub fn make_crate_scaffold_task() -> (r: Self)
        ensures
            r@ == crate_scaffold_task(),
    {
        let mut task = Task::described("Setup ${LIB_NAME} project'.");
        let mut dependencies: Vec<TaskNames> = Vec::new();
        dependencies.push(TaskNames::OutputDirCreate);
        dependencies.push(TaskNames::OutputDirClean);
        proof {
            assert(dependencies@ =~= crate_scaffold_task().task.dependencies->0);
        }
        task.dependencies = Some(dependencies);
        Self { name: TaskNames::CrateScaffold, task }
    }

    /// The task that checks that the code generator's launcher is installed.
    pub fn make_openapi_cli_check_task() -> (r: Self)
        ensures
            r@ == openapi_cli_check_task(),
    {
        let mut task = Task::described("Check that openapi cli generator tool is installed");
        task.command = Some("command".to_owned());
        let args = strings_of(&[
            "-v",
            "${OPEN_API_GENERATOR_CLI_SCRIPT}",
        ]);
        proof {
            assert(args.deep_view() =~= openapi_cli_check_task().task.args->0);
        }
        task.args = Some(args);
        Self { name: TaskNames::OpenapiCliCheck, task }
    }

    /// The task that installs the code generator's launcher, by the install script.
    pub fn make_openapi_cli_install_task() -> (r: Self)
        ensures
            r@ == openapi_cli_install_task(),
    {
        let mut task = Task::described("Install Open API generator CLI'.");
        task.script = Some(trim_lines_vec(OPENAPI_CLI_INSTALL_SCRIPT));
        Self { name: TaskNames::OpenapiCliBashInstall, task }
    }

    /// The task that empties the directory of the crate.
    pub fn make_output_dir_clean_task() -> (r: Self)
        ensures
            r@ == output_dir_clean_task(),
    {
        let mut task = Task::described("Setup ${LIB_NAME} output dir at ${OUTPUT_DIR}'.");
        task.command = Some("rm".to_owned());
        let args = strings_of(&[
            "-rf",
            "${OUTPUT_DIR}/*",
        ]);
        proof {
            assert(args.deep_view() =~= output_dir_clean_task().task.args->0);
        }
        task.args = Some(args);
        Self { name: TaskNames::OutputDirClean, task }
    }

    /// The task that makes the directory of the crate.
    pub fn make_output_dir_create_task() -> (r: Self)
        ensures
            r@ == output_dir_create_task(),
    {
        let mut task = Task::described("Create ${LIB_NAME} output dir at ${OUTPUT_DIR}'.");
        task.command = Some("mkdir".to_owned());
        Self { name: TaskNames::OutputDirCreate, task }
    }

    /// The task that fetches the specification from the URL the run was given.
    pub fn make_spec_download_default_task() -> (r: Self)
        ensures
            r@ == spec_download_default_task(),
    {
        let mut task = Task::described("Downloads ${API_NAME} Open API specification from '${API_URL}'.");
        task.command = Some("wget".to_owned());
        let args = strings_of(&[
            "${SPEC_FILE_URL}",
            "-O",
            "${SPEC_FILE_PATH}",
        ]);
        proof {
            assert(args.deep_view() =~= spec_download_default_task().task.args->0);
        }
        task.args = Some(args);
        Self { name: TaskNames::SpecDownloadDefault, task }
    }

    /// The task that fetches the specification from the URL it is called with.
    pub fn make_spec_download_task() -> (r: Self)
        ensures
            r@ == spec_download_task(),
    {
        let mut task = Task::described("Downloads ${API_NAME} Open API specification from specified vararg'.");
        task.command = Some("wget".to_owned());
        let args = strings_of(&[
            "${@}",
            "-O",
            "${SPEC_FILE_PATH}",
        ]);
        proof {
            assert(args.deep_view() =~= spec_download_task().task.args->0);
        }
        task.args = Some(args);
        Self { name: TaskNames::SpecDownload, task }
    }

    /// The arguments with which the code generator is called.
    fn code_generation_opts() -> (r: Vec<String>)
        ensures
            r.deep_view() == code_generation_opts(),
    {
        let r = strings_of(
            &[
                "generate",
                "--generator-name",
                "rust",
                "--output",
                "${OUTPUT_DIR}",
                "--input-spec",
                "${SPEC_FILE_PATH}",
                "--config",
                "${OPEN_API_GENERATOR_CONFIG_PATH}",
            ],
        );
        proof {
            assert(r.deep_view() =~= code_generation_opts());
        }
        r
    }

    /// The task that generates the code of the crate from the specification,
    /// after the check that the code generator's launcher is installed. Only
    /// with `Some(true)` is it a dry run, under the name of one.
    pub fn make_lib_code_generator_task(is_dry_run: Option<bool>) -> (r: Self)
        ensures
            r@ == lib_code_generator_task(is_dry_run == Some(true)),
    {
        let mut args = Self::code_generation_opts();
        let mut name = TaskNames::LibCodeGenerate;
        match is_dry_run {
            Some(true) => {
                push_str(&mut args, "--dry-run");
                name = TaskNames::LibCodeGenerateDryRun;
            },
            _ => {},
        }
        let mut dependencies: Vec<TaskNames> = Vec::new();
        dependencies.push(TaskNames::OpenapiCliCheck);
        proof {
            assert(dependencies@ =~= seq![TaskNames::OpenapiCliCheck]);
        }
        let mut task = Task::described("Generate ${LIB_NAME} code");
        task.dependencies = Some(dependencies);
        task.condition_script = Some(trim_lines_vec(OPENAPI_CLI_CONDITION_SCRIPT));
        task.command = Some("${OPEN_API_GENERATOR_CLI_SCRIPT}".to_owned());
        task.args = Some(args);
        Self { name, task }
    }

    /// The task that has the code generator check the specification.
    pub fn make_spec_validate_task() -> (r: Self)
        ensures
            r@ == spec_validate_task(),
    {
        let name = TaskNames::SpecValidate;
        let mut task = Task::described(name.description());
        task.command = Some("${OPEN_API_GENERATOR_CLI_SCRIPT}".to_owned());
        let args = strings_of(&["validate", "--input-spec", "${SPEC_FILE_PATH}", "--recommend"]);
        proof {
            assert(args.deep_view() =~= spec_validate_task().task.args->0);
        }
        task.args = Some(args);
        Self { name, task }
    }

    /// The line of a manifest by which the script of a run depends on this tool.
    fn make_self_dependency_line(cli: &Cli) -> (r: String)
        ensures
            r@ == self_dependency_line(cli),
    {
        let mut line = get_this_crate_name().to_owned();
        line.append(" = { version = \"");
        line.append(get_this_crate_ver());
        line.append("\"");
        match &cli.inner_cli.command {
            Some(
                SubCommands::TestGeneration {
                    generator_crate_local_path_opt,
                    generator_crate_repo_url_opt,
                },
            ) => match generator_crate_local_path_opt {
                Some(path) => {
                    line.append(", path = \"");
                    line.append(path.as_str());
                    line.append("\" } ");
                },
                None => match generator_crate_repo_url_opt {
                    Some(url) => {
                        line.append(", git = \"");
                        line.append(url_as_string(url).as_str());
                        line.append("\" } ");
                    },
                    None => {
                        line.append(" }");
                    },
                },
            },
            None => {
                line.append(" }");
            },
        }
        line
    }

    /// The task that does everything. `cargo_configurator_yaml` and
    /// `readme_generator_yaml` are the snapshots, in YAML, of what the run
    /// adds to the manifest and of the parts of its README; the script of
    /// the task holds them word for word.
    pub fn make_generate_all_task(
        cli: &Cli,
        cargo_configurator_yaml: &str,
        readme_generator_yaml: &str,
    ) -> (r: Result<Self, MakefileGenerationError>)
        ensures
            r matches Ok(named) && named@ == generate_all_task(
                cli,
                cargo_configurator_yaml@,
                readme_generator_yaml@,
            ),
    {
        proof {
            lemma_this_crate_name_is_identifier();
        }
        let this_crate_ident = identifier_text(get_this_crate_name());
        let mut header = GENERATE_ALL_HEADER_HEAD.to_owned();
        header.append(Self::make_self_dependency_line(cli).as_str());
        header.append(GENERATE_ALL_HEADER_TAIL);
        let mut body = GENERATE_ALL_BODY_HEAD.to_owned();
        body.append(this_crate_ident.as_str());
        body.append(GENERATE_ALL_BODY_IMPORTS);
        body.append(cargo_configurator_yaml);
        body.append(GENERATE_ALL_BODY_BETWEEN);
        body.append(readme_generator_yaml);
        body.append(GENERATE_ALL_BODY_TAIL);
        let mut script_lines = trim_lines_vec(header.as_str());
        let script_body = trim_lines_vec(body.as_str());
        extend_strings(&mut script_lines, &script_body);
        let mut dependencies: Vec<TaskNames> = Vec::new();
        dependencies.push(TaskNames::LibCodeGenerate);
        dependencies.push(TaskNames::CargoFixGenerated);
        let mut task = Task::described("Generate ${LIB_NAME} code and try to get it up to par");
        task.dependencies = Some(dependencies);
        task.script_runner = Some("@rust".to_owned());
        task.script = Some(script_lines);
        proof {
            let want = generate_all_task(cli, cargo_configurator_yaml@, readme_generator_yaml@);
            assert(task@.dependencies->0 =~= want.task.dependencies->0);
        }
        Ok(Self { name: TaskNames::GenerateAll, task })
    }
}

/// The task file: the environment and the tasks, each under its name. No
/// name is used twice in it, and whatever has to run before one of its tasks
/// is one of its tasks.
#[derive(Debug)]
pub struct MakefileSpec {
    env: MakefileEnv,
    tasks: Vec<NamedTask>,
}

/// The task file, as plain text.
pub struct MakefileSpecView {
    pub env: MakefileEnvView,
    pub tasks: Seq<NamedTaskView>,
}

impl MakefileSpecView {
    /// Whether the task file holds a task under `name`.
    pub open spec fn holds(self, name: TaskNames) -> bool {
        exists|i: int| 0 <= i < self.tasks.len() && (#[trigger] self.tasks[i]).name == name
    }

    /// Whether no two tasks have the same name.
    pub open spec fn has_unique_names(self) -> bool {
        forall|i: int, j: int|
            0 <= i < self.tasks.len() && 0 <= j < self.tasks.len() && i != j ==> (
            #[trigger] self.tasks[i]).name != (#[trigger] self.tasks[j]).name
    }

    /// Whether every task that has to run before another is in the task file.
    pub open spec fn is_closed(self) -> bool {
        forall|i: int, k: int|
            0 <= i < self.tasks.len() && 0 <= k < self.tasks[i].task.prerequisites().len()
                ==> self.holds(#[trigger] self.tasks[i].task.prerequisites()[k])
    }
}

/// The tasks of a run, in the order they are entered: eleven that every
/// run has, and the task that fetches the specification from the run's own
/// URL where the run has one.
pub open spec fn tasks_for(
    cli: &Cli,
    cargo_configurator_yaml: Seq<char>,
    readme_generator_yaml: Seq<char>,
) -> Seq<NamedTaskView> {
    let fixed = seq![
        cargo_fix_task(),
        crate_scaffold_task(),
        generate_all_task(cli, cargo_configurator_yaml, readme_generator_yaml),
        lib_code_generator_task(false),
        lib_code_generator_task(true),
        openapi_cli_check_task(),
        openapi_cli_install_task(),
        output_dir_clean_task(),
        output_dir_create_task(),
        spec_download_task(),
        spec_validate_task(),
    ];
    if cli.inner_cli.api_spec_url_opt is Some {
        fixed.push(spec_download_default_task())
    } else {
        fixed
    }
}

/// The task file of a run.
pub open spec fn makefile_for(
    cli: &Cli,
    cargo_configurator_yaml: Seq<char>,
    readme_generator_yaml: Seq<char>,
) -> MakefileSpecView
    recommends
        cli.inner_cli.spec_file_name() is Some,
{
    MakefileSpecView {
        env: makefile_env_for(cli),
        tasks: tasks_for(cli, cargo_configurator_yaml, readme_generator_yaml),
    }
}

/// The task file of any run is sound: no name is used twice, and whatever
/// has to run before a task is a task of the file. It always holds the
/// tasks that set the crate up and that do everything, and it holds the
/// task that fetches the specification from the run's URL exactly where the
/// run has such a URL.
pub proof fn lemma_makefile_is_sound(
    cli: &Cli,
    cargo_configurator_yaml: Seq<char>,
    readme_generator_yaml: Seq<char>,
)
    ensures
        makefile_for(cli, cargo_configurator_yaml, readme_generator_yaml).has_unique_names(),
        makefile_for(cli, cargo_configurator_yaml, readme_generator_yaml).is_closed(),
        makefile_for(cli, cargo_configurator_yaml, readme_generator_yaml).holds(
            TaskNames::CrateScaffold,
        ),
        makefile_for(cli, cargo_configurator_yaml, readme_generator_yaml).holds(
            TaskNames::GenerateAll,
        ),
        makefile_for(cli, cargo_configurator_yaml, readme_generator_yaml).holds(
            TaskNames::SpecDownloadDefault,
        ) <==> cli.inner_cli.api_spec_url_opt is Some,
{
    let file = makefile_for(cli, cargo_configurator_yaml, readme_generator_yaml);
    let tasks = file.tasks;
    assert(tasks[0].name == TaskNames::CargoFixGenerated);
    assert(tasks[1].name == TaskNames::CrateScaffold);
    assert(tasks[2].name == TaskNames::GenerateAll);
    assert(tasks[3].name == TaskNames::LibCodeGenerate);
    assert(tasks[4].name == TaskNames::LibCodeGenerateDryRun);
    assert(tasks[5].name == TaskNames::OpenapiCliCheck);
    assert(tasks[6].name == TaskNames::OpenapiCliBashInstall);
    assert(tasks[7].name == TaskNames::OutputDirClean);
    assert(tasks[8].name == TaskNames::OutputDirCreate);
    assert(tasks[9].name == TaskNames::SpecDownload);
    assert(tasks[10].name == TaskNames::SpecValidate);
    if cli.inner_cli.api_spec_url_opt is Some {
        assert(tasks[11].name == TaskNames::SpecDownloadDefault);
    }
    assert(file.holds(TaskNames::CargoFixGenerated));
    assert(file.holds(TaskNames::LibCodeGenerate));
    assert(file.holds(TaskNames::OpenapiCliCheck));
    assert(file.holds(TaskNames::OutputDirClean));
    assert(file.holds(TaskNames::OutputDirCreate));
    assert forall|i: int, k: int|
        0 <= i < tasks.len() && 0 <= k < tasks[i].task.prerequisites().len() implies file.holds(
        #[trigger] tasks[i].task.prerequisites()[k],
    ) by {
        if i == 1 {
            assert(tasks[1].task.prerequisites() == seq![
                TaskNames::OutputDirCreate,
                TaskNames::OutputDirClean,
            ]);
        } else if i == 2 {
            assert(tasks[2].task.prerequisites() == seq![
                TaskNames::LibCodeGenerate,
                TaskNames::CargoFixGenerated,
            ]);
        } else if i == 3 || i == 4 {
            assert(tasks[i].task.prerequisites() == seq![TaskNames::OpenapiCliCheck]);
        } else {
            assert(tasks[i].task.dependencies is None);
        }
    }
}

impl View for MakefileSpec {
    type V = MakefileSpecView;

    closed spec fn view(&self) -> MakefileSpecView {
        MakefileSpecView {
            env: self.env@,
            tasks: self.tasks@.map_values(|named: NamedTask| named@),
        }
    }
}

impl MakefileSpec {
    #[verifier::type_invariant]
    spec fn is_sound(self) -> bool {
        self@.has_unique_names() && self@.is_closed()
    }

    /// The task file of a run, given the two snapshots that the task that
    /// does everything carries. There is none for a run whose specification
    /// has no file name.
    pub fn try_from(cli: &Cli, cargo_configurator_yaml: &str, readme_generator_yaml: &str) -> (r:
        Result<Self, MakefileGenerationError>)
        ensures
            match r {
                Ok(file) => {
                    &&& cli.inner_cli.spec_file_name() is Some
                    &&& file@ == makefile_for(cli, cargo_configurator_yaml@, readme_generator_yaml@)
                    &&& file@.has_unique_names()
                    &&& file@.is_closed()
                },
                Err(MakefileGenerationError::ParameterError(e)) => {
                    &&& cli.inner_cli.spec_file_name() is None
                    &&& cli.inner_cli.refuses_spec_file_name(e)
                },
                Err(_) => false,
            },
    {
        let env = match MakefileEnv::try_from(cli) {
            Ok(env) => env,
            Err(e) => {
                return Err(e);
            },
        };
        let generate_all = match NamedTask::make_generate_all_task(
            cli,
            cargo_configurator_yaml,
            readme_generator_yaml,
        ) {
            Ok(named) => named,
            Err(e) => {
                return Err(e);
            },
        };
        let mut tasks: Vec<NamedTask> = Vec::new();
        tasks.push(NamedTask::make_cargo_fix_task());
        tasks.push(NamedTask::make_crate_scaffold_task());
        tasks.push(generate_all);
        tasks.push(NamedTask::make_lib_code_generator_task(None));
        tasks.push(NamedTask::make_lib_code_generator_task(Some(true)));
        tasks.push(NamedTask::make_openapi_cli_check_task());
        tasks.push(NamedTask::make_openapi_cli_install_task());
        tasks.push(NamedTask::make_output_dir_clean_task());
        tasks.push(NamedTask::make_output_dir_create_task());
        tasks.push(NamedTask::make_spec_download_task());
        tasks.push(NamedTask::make_spec_validate_task());
        if cli.inner_cli.api_spec_url_opt.is_some() {
            tasks.push(NamedTask::make_spec_download_default_task());
        }
        proof {
            assert(tasks@.map_values(|named: NamedTask| named@) =~= tasks_for(
                cli,
                cargo_configurator_yaml@,
                readme_generator_yaml@,
            ));
            lemma_makefile_is_sound(cli, cargo_configurator_yaml@, readme_generator_yaml@);
        }
        Ok(Self { env, tasks })
    }

    /// The environment of the task file.
    pub fn env(&self) -> (r: &MakefileEnv)
        ensures
            r@ == self@.env,
    {
        &self.env
    }

    /// The tasks of the task file.
    pub fn tasks(&self) -> (r: &Vec<NamedTask>)
        ensures
            r@.map_values(|named: NamedTask| named@) == self@.tasks,
            self@.has_unique_names(),
            self@.is_closed(),
    {
        proof {
            use_type_invariant(self);
        }
        &self.tasks
    }
}

} // verus!
