//! The parameters of a run: what the command line gave, and what is made of
//! it before anything is written.

use crate::generate::cargos::CargoConfigError;
use crate::generate::crate_scaffolds::CrateScaffoldingError;
use crate::generate::makefiles::MakefileGenerationError;
use crate::generate::parameters::{
    file_name_of_path, try_file_name_from_path_url, url_path, url_text, ParameterError,
};
use crate::generate::readmes::READMEGenerationError;
use crate::generate::utils::{get_temp_subdir, temp_subdir_of, ProcessError};
use crate::generate::yamls::YAMLGenerationError;
use crate::testing::{TestingError, TESTING_SPEC_FILE_NAME};
use crate::text::{join_path, join_path_of, split, split_on};
use url::Url;
use vstd::prelude::*;
use vstd::string::*;

verus! {

/// The files and directories with a fixed place in the generated crate.
#[derive(Clone, Copy, Debug, PartialEq, Eq, Structural)]
pub enum Paths {
    GitignoreFile,
    GitDir,
    CargoMakefile,
    CargoTomlFile,
    ReadmeMdFile,
    TempDir,
}

impl Paths {
    /// The place below the crate's directory.
    pub open spec fn path_text(self) -> Seq<char> {
        match self {
            Paths::GitignoreFile => ".gitignore"@,
            Paths::GitDir => ".git"@,
            Paths::CargoMakefile => "Makefile.toml"@,
            Paths::CargoTomlFile => "Cargo.toml"@,
            Paths::ReadmeMdFile => "README.md"@,
            Paths::TempDir => "temp"@,
        }
    }

    /// The place below the crate's directory.
    pub fn path(&self) -> (r: &'static str)
        ensures
            r@ == self.path_text(),
    {
        match self {
            Paths::GitignoreFile => ".gitignore",
            Paths::GitDir => ".git",
            Paths::CargoMakefile => "Makefile.toml",
            Paths::CargoTomlFile => "Cargo.toml",
            Paths::ReadmeMdFile => "README.md",
            Paths::TempDir => "temp",
        }
    }

    /// A few words that say what is kept there.
    pub open spec fn description_text(self) -> Seq<char> {
        match self {
            Paths::GitignoreFile => ".gitignore file"@,
            Paths::GitDir => ".git dir"@,
            Paths::CargoMakefile => "Cargo Make make file"@,
            Paths::CargoTomlFile => "Cargo.toml file"@,
            Paths::ReadmeMdFile => "README.md file"@,
            Paths::TempDir => "temp dir"@,
        }
    }

    /// A few words that say what is kept there.
    pub fn description(&self) -> (r: &'static str)
        ensures
            r@ == self.description_text(),
    {
        match self {
            Paths::GitignoreFile => ".gitignore file",
            Paths::GitDir => ".git dir",
            Paths::CargoMakefile => "Cargo Make make file",
            Paths::CargoTomlFile => "Cargo.toml file",
            Paths::ReadmeMdFile => "README.md file",
            Paths::TempDir => "temp dir",
        }
    }
}

/// The modes of a run other than the ordinary one.
#[derive(Clone, Debug)]
pub enum SubCommands {
    /// A trial run: the tool generates a crate for a sample application into
    /// a scratch directory. The generated crate depends on this tool, which it
    /// finds at the local path, or else in the repository at the URL.
    TestGeneration {
        generator_crate_local_path_opt: Option<String>,
        generator_crate_repo_url_opt: Option<Url>,
    },
}

/// What a trial run says of where this tool is found, as plain text.
pub struct SubCommandsView {
    pub local_path: Option<Seq<char>>,
    pub repo_url: Option<Seq<char>>,
}

impl View for SubCommands {
    type V = SubCommandsView;

    open spec fn view(&self) -> SubCommandsView {
        match self {
            SubCommands::TestGeneration {
                generator_crate_local_path_opt,
                generator_crate_repo_url_opt,
            } => SubCommandsView {
                local_path: match generator_crate_local_path_opt {
                    Some(path) => Some(path@),
                    None => None,
                },
                repo_url: match generator_crate_repo_url_opt {
                    Some(url) => Some(url_text(*url)),
                    None => None,
                },
            },
        }
    }
}

impl SubCommands {
    /// A copy that says the same.
    pub fn duplicate(&self) -> (r: Self)
        ensures
            r@ == self@,
    {
        match self {
            SubCommands::TestGeneration {
                generator_crate_local_path_opt,
                generator_crate_repo_url_opt,
            } => SubCommands::TestGeneration {
                generator_crate_local_path_opt: match generator_crate_local_path_opt {
                    Some(path) => Some(path.clone()),
                    None => None,
                },
                generator_crate_repo_url_opt: match generator_crate_repo_url_opt {
                    Some(url) => Some(url.clone()),
                    None => None,
                },
            },
        }
    }
}

/// Everything that can stop a run.
#[derive(Debug)]
pub enum CLIError {
    CargoConfigError(CargoConfigError),
    CrateScaffoldingError(CrateScaffoldingError),
    MakefileGenerationError(MakefileGenerationError),
    ParameterError(ParameterError),
    READMEGenerationError(READMEGenerationError),
    /// A snapshot could not be read back from YAML.
    SerdeYAMLError(String),
    YAMLGenerationError(YAMLGenerationError),
    TestingError(TestingError),
    ProcessError(ProcessError),
}

/// What the command line gave.
#[derive(Clone, Debug)]
pub struct InnerCli {
    /// The name of the site or application; the generated crate is named after it.
    pub site_or_api_name: String,
    /// The URL of the application, for the documents only.
    pub api_url: Url,
    /// Where the OpenAPI specification can be fetched.
    pub api_spec_url_opt: Option<Url>,
    /// A local file with the specification, which goes before the URL.
    pub local_api_spec_filepath_opt: Option<String>,
    /// A name for the generated crate, in place of the one made from the site's name.
    pub lib_name_opt: Option<String>,
    /// More authors for the generated crate, with `;` between them.
    pub extra_authors: Option<String>,
    /// The directory of the generated crate.
    pub output_project_dir_opt: Option<String>,
    /// The directory the tool was started in, which takes the crate where no
    /// other directory is named.
    pub working_dir: String,
    /// Whether the tool runs the generator itself once the documents are written.
    pub autogenerate: bool,
    pub command: Option<SubCommands>,
}

impl InnerCli {
    /// The directory for scratch files below the crate's directory.
    pub const TEMP_DIR_NAME: &'static str = "temp";

    /// The list of authors in `s`: its pieces between semicolons, as they stand.
    pub fn parse_authors_string(s: &str) -> (r: Vec<String>)
        ensures
            r.deep_view() == split_on(s@, ';'),
    {
        split(s, ';')
    }

    /// The extra authors of the run: the pieces between semicolons of what
    /// was given, and none where nothing was given.
    pub open spec fn extra_authors_list(&self) -> Seq<Seq<char>> {
        match self.extra_authors {
            Some(s) => split_on(s@, ';'),
            None => Seq::empty(),
        }
    }

    /// The extra authors, one by one. A run that names none has none.
    pub fn get_extra_authors(&self) -> (r: Vec<String>)
        ensures
            r.deep_view() == self.extra_authors_list(),
            self.extra_authors is None ==> r.len() == 0,
    {
        match &self.extra_authors {
            Some(s) => Self::parse_authors_string(s.as_str()),
            None => {
                let r: Vec<String> = Vec::new();
                proof {
                    assert(r.deep_view() =~= Seq::<Seq<char>>::empty());
                }
                r
            },
        }
    }

    /// The crate's name where none is given: the site's name and `_api_lib`.
    pub open spec fn default_lib_name(&self) -> Seq<char> {
        self.site_or_api_name@ + "_api_lib"@
    }

    fn get_default_lib_name(&self) -> (r: String)
        ensures
            r@ == self.default_lib_name(),
    {
        let mut r = self.site_or_api_name.clone();
        r.append("_api_lib");
        r
    }

    /// The name of the generated crate.
    pub open spec fn lib_name(&self) -> Seq<char> {
        match self.lib_name_opt {
            Some(name) => name@,
            None => self.default_lib_name(),
        }
    }

    /// The name of the generated crate: the one given, or else the site's
    /// name and `_api_lib`.
    pub fn get_lib_name(&self) -> (r: String)
        ensures
            r@ == self.lib_name(),
            self.lib_name_opt is None ==> r@ == self.site_or_api_name@ + "_api_lib"@,
    {
        match &self.lib_name_opt {
            Some(name) => name.clone(),
            None => self.get_default_lib_name(),
        }
    }

    /// The file name for a specification whose URL names none.
    pub open spec fn default_spec_file_name(&self) -> Seq<char> {
        self.lib_name() + ".yaml"@
    }

    fn get_default_spec_file_name(&self) -> (r: String)
        ensures
            r@ == self.default_spec_file_name(),
    {
        let mut r = self.get_lib_name();
        r.append(".yaml");
        r
    }

    /// The directory of the generated crate.
    pub open spec fn output_project_dir(&self) -> Seq<char> {
        match self.output_project_dir_opt {
            Some(dir) => dir@,
            None => self.working_dir@,
        }
    }

    /// The directory of the generated crate: the one given, or else the
    /// directory the tool was started in.
    pub fn get_output_project_dir(&self) -> (r: String)
        ensures
            r@ == self.output_project_dir(),
    {
        match &self.output_project_dir_opt {
            Some(dir) => dir.clone(),
            None => self.working_dir.clone(),
        }
    }

    /// The directory of the generated crate, as text.
    pub fn get_output_project_dir_string(&self) -> (r: String)
        ensures
            r@ == self.output_project_dir(),
    {
        self.get_output_project_dir()
    }

    /// A fixed place in the generated crate, as a path.
    pub fn get_output_project_subpath(&self, subpath: &Paths) -> (r: String)
        ensures
            r@ == join_path_of(self.output_project_dir(), subpath.path_text()),
    {
        join_path(self.get_output_project_dir().as_str(), subpath.path())
    }

    /// A fixed place in the generated crate, as text.
    pub fn get_output_project_subpath_string(&self, subpath: &Paths) -> (r: String)
        ensures
            r@ == join_path_of(self.output_project_dir(), subpath.path_text()),
    {
        self.get_output_project_subpath(subpath)
    }

    /// The file name of the specification, where one can be told: the local
    /// file as it was given, or else the last segment of the URL's path, and
    /// the default name where that segment is empty.
    pub open spec fn spec_file_name(&self) -> Option<Seq<char>> {
        match self.local_api_spec_filepath_opt {
            Some(path) => Some(path@),
            None => match self.api_spec_url_opt {
                Some(url) => match file_name_of_path(url_path(url)) {
                    Some(name) => Some(
                        if name.len() == 0 {
                            self.default_spec_file_name()
                        } else {
                            name
                        },
                    ),
                    None => None,
                },
                None => None,
            },
        }
    }

    /// Whether `e` says why the specification has no file name: there is
    /// neither a local file nor a URL, or the URL, which the error quotes,
    /// has a path without segments.
    pub open spec fn refuses_spec_file_name(&self, e: ParameterError) -> bool {
        match e {
            ParameterError::APIUrlNeededIfNoLocalFile => {
                &&& self.local_api_spec_filepath_opt is None
                &&& self.api_spec_url_opt is None
            },
            ParameterError::APIPathNeedsSegments(text) => {
                &&& self.local_api_spec_filepath_opt is None
                &&& self.api_spec_url_opt matches Some(url)
                &&& file_name_of_path(url_path(url)) is None
                &&& text@ == url_text(url)
            },
            ParameterError::APIPathSegmentsNeedsLast => false,
        }
    }

    /// The file name of the specification. Without a local file and without
    /// a URL there is none, nor is there for a URL whose path has no segments.
    pub fn try_get_spec_file_name(&self) -> (r: Result<String, ParameterError>)
        ensures
            match r {
                Ok(name) => self.spec_file_name() == Some(name@),
                Err(e) => self.spec_file_name() is None && self.refuses_spec_file_name(e),
            },
    {
        match &self.local_api_spec_filepath_opt {
            Some(path) => Ok(path.clone()),
            None => match &self.api_spec_url_opt {
                None => Err(ParameterError::APIUrlNeededIfNoLocalFile),
                Some(url) => match try_file_name_from_path_url(url) {
                    Ok(name) => {
                        if name.as_str().is_empty() {
                            Ok(self.get_default_spec_file_name())
                        } else {
                            Ok(name)
                        }
                    },
                    Err(e) => Err(e),
                },
            },
        }
    }
}

/// The moment of a run, in nanoseconds since 1970-01-01T00:00:00Z.
#[derive(Clone, Copy, Debug, PartialEq, Eq, Structural)]
pub struct GenerationTimestamp {
    pub nanos: i64,
}

/// The RFC 3339 text for a moment in UTC that is given in nanoseconds since
/// 1970-01-01T00:00:00Z, as `chrono` writes it.
pub uninterp spec fn rfc3339_text(nanos: int) -> Seq<char>;

/// Calls `DateTime::from_timestamp_nanos` and `DateTime::to_rfc3339` of
/// `chrono`. Trusted: the text depends on the number alone. Neither call
/// fails: every `i64` is a moment that `chrono` can hold.
#[verifier::external_body]
fn rfc3339_of_nanos(nanos: i64) -> (r: String)
    ensures
        r@ == rfc3339_text(nanos as int),
{
    chrono::DateTime::from_timestamp_nanos(nanos).to_rfc3339()
}

/// The parameters of a run, settled: what the command line gave, with the
/// places of a trial run filled in, and the moment the run began.
#[derive(Clone, Debug)]
pub struct Cli {
    pub inner_cli: InnerCli,
    pub generation_timestamp: GenerationTimestamp,
}

impl InnerCli {
    /// Whether this is a trial run.
    pub open spec fn is_test_generation(&self) -> bool {
        self.command is Some
    }

    /// Where the sample specification of a trial run is stored: in the
    /// system's directory for temporary files.
    pub open spec fn sample_spec_path_of(temp_root: Seq<char>) -> Seq<char> {
        join_path_of(temp_root, TESTING_SPEC_FILE_NAME@)
    }

    /// The path at which the sample specification has to be written before
    /// the run goes on: a trial run without a local specification file needs
    /// it, no other run does.
    pub fn sample_spec_path(&self, temp_root: &str) -> (r: Option<String>)
        ensures
            r.deep_view() == if self.is_test_generation()
                && self.local_api_spec_filepath_opt is None {
                Some(Self::sample_spec_path_of(temp_root@))
            } else {
                None
            },
    {
        if self.command.is_some() && self.local_api_spec_filepath_opt.is_none() {
            Some(join_path(temp_root, TESTING_SPEC_FILE_NAME))
        } else {
            None
        }
    }

    /// The local specification file after the parameters are settled: the one
    /// given, or else, in a trial run, the sample.
    pub open spec fn settled_spec_file(&self, temp_root: Seq<char>) -> Option<Seq<char>> {
        match self.local_api_spec_filepath_opt {
            Some(path) => Some(path@),
            None => if self.is_test_generation() {
                Some(Self::sample_spec_path_of(temp_root))
            } else {
                None
            },
        }
    }

    /// The directory named for the crate after the parameters are settled: the
    /// one given, or else, in a trial run, the scratch directory.
    pub open spec fn settled_output_dir(&self, temp_root: Seq<char>) -> Option<Seq<char>> {
        match self.output_project_dir_opt {
            Some(dir) => Some(dir@),
            None => if self.is_test_generation() {
                Some(temp_subdir_of(temp_root))
            } else {
                None
            },
        }
    }

    /// The directory of the crate after the parameters are settled: the one
    /// given, or else the scratch directory in a trial run, and the directory
    /// the tool was started in in any other.
    pub open spec fn effective_output_dir(&self, temp_root: Seq<char>) -> Seq<char> {
        match self.output_project_dir_opt {
            Some(dir) => dir@,
            None => if self.is_test_generation() {
                temp_subdir_of(temp_root)
            } else {
                self.working_dir@
            },
        }
    }

    /// Whether the specification can be found: there is a local file or a URL,
    /// or the run is a trial run, which brings its own.
    pub open spec fn has_spec_source(&self) -> bool {
        ||| self.is_test_generation()
        ||| self.local_api_spec_filepath_opt is Some
        ||| self.api_spec_url_opt is Some
    }
}

impl Cli {
    /// The moment the run began, as RFC 3339 text.
    pub fn get_generation_timestamp_string(&self) -> (r: String)
        ensures
            r@ == rfc3339_text(self.generation_timestamp.nanos as int),
    {
        rfc3339_of_nanos(self.generation_timestamp.nanos)
    }

    /// Settles the parameters of a run that began at `generation_timestamp`.
    /// `temp_root` is the system's directory for temporary files. A trial run
    /// takes the sample specification and the scratch directory where it
    /// names no others. Any other run needs a local specification file or the
    /// URL of one, and fails without. Nothing else is changed.
    pub fn new(inner_cli: InnerCli, generation_timestamp: GenerationTimestamp, temp_root: &str) -> (r:
        Result<Cli, CLIError>)
        ensures
            match r {
                Ok(cli) => {
                    &&& inner_cli.has_spec_source()
                    &&& cli.inner_cli.local_api_spec_filepath_opt is Some
                        || cli.inner_cli.api_spec_url_opt is Some
                    &&& cli.generation_timestamp == generation_timestamp
                    &&& cli.inner_cli == (InnerCli {
                        local_api_spec_filepath_opt: cli.inner_cli.local_api_spec_filepath_opt,
                        output_project_dir_opt: cli.inner_cli.output_project_dir_opt,
                        ..inner_cli
                    })
                    &&& cli.inner_cli.local_api_spec_filepath_opt.deep_view()
                        == inner_cli.settled_spec_file(temp_root@)
                    &&& cli.inner_cli.output_project_dir_opt.deep_view()
                        == inner_cli.settled_output_dir(temp_root@)
                    &&& cli.inner_cli.output_project_dir() == inner_cli.effective_output_dir(
                        temp_root@,
                    )
                },
                Err(CLIError::ParameterError(ParameterError::APIUrlNeededIfNoLocalFile)) =>
                    !inner_cli.has_spec_source(),
                Err(_) => false,
            },
    {
        let mut inner_cli = inner_cli;
        if inner_cli.command.is_some() {
            if inner_cli.local_api_spec_filepath_opt.is_none() {
                inner_cli.local_api_spec_filepath_opt = Some(
                    join_path(temp_root, TESTING_SPEC_FILE_NAME),
                );
            }
            if inner_cli.output_project_dir_opt.is_none() {
                inner_cli.output_project_dir_opt = Some(get_temp_subdir(temp_root));
            }
        } else if inner_cli.local_api_spec_filepath_opt.is_none()
            && inner_cli.api_spec_url_opt.is_none() {
            return Err(CLIError::ParameterError(ParameterError::APIUrlNeededIfNoLocalFile));
        }
        Ok(Cli { inner_cli, generation_timestamp })
    }
}

} // verus!
