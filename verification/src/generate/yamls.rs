//! The options file of the code generator.

use crate::cli::Cli;
use crate::generate::makefiles::MakefileEnv;
use crate::text::{join_path, join_path_of};
use vstd::prelude::*;
use vstd::string::*;

verus! {

/// What can go wrong while the options file is written.
#[derive(Debug)]
pub enum YAMLGenerationError {
    /// Reading or writing failed; the text says how.
    IOError(String),
    /// The options could not be written out as YAML.
    SerdeYAMLError(String),
}

/// The options of the Rust generator of OpenAPI Generator, under the names
/// that the generator reads.
#[derive(Debug)]
#[allow(non_snake_case)]
pub struct OpenAPIRustGeneratorConfigs {
    /// Use the best fitting integer type where a minimum or maximum is set.
    pub bestFitInt: bool,
    /// A suffix for the names of all enums.
    pub enumNameSuffix: String,
    /// Leave the time of generation out of the generated files.
    pub hideGenerationTimestamp: bool,
    /// The HTTP library the generated code is written for: `hyper` or `reqwest`.
    pub library: String,
    /// The name of the generated package.
    pub packageName: String,
    /// The version of the generated package.
    pub packageVersion: String,
    /// Prefer unsigned integers where the minimum is not negative.
    pub preferUnsignedInt: bool,
    /// Generate asynchronous calls (`reqwest` only).
    pub supportAsync: bool,
    /// Support `reqwest-middleware` (`reqwest` only).
    pub supportMiddleware: bool,
    /// Wrap return types in an enum of all 2xx answers (`reqwest` only).
    pub supportMultipleResponses: bool,
    /// Give each generated function one argument that holds all parameters.
    pub useSingleRequestParameter: bool,
    /// Support signatures of AWS, version 4.
    pub withAWSV4Signature: bool,
}

impl OpenAPIRustGeneratorConfigs {
    /// Whether every option but the package's name has the value the
    /// generator's documentation gives as its default.
    pub open spec fn has_default_options(&self) -> bool {
        &&& !self.bestFitInt
        &&& self.enumNameSuffix@ == Seq::<char>::empty()
        &&& self.hideGenerationTimestamp
        &&& self.library@ == "reqwest"@
        &&& self.packageVersion@ == "1.0.0"@
        &&& !self.preferUnsignedInt
        &&& self.supportAsync
        &&& !self.supportMiddleware
        &&& !self.supportMultipleResponses
        &&& !self.useSingleRequestParameter
        &&& !self.withAWSV4Signature
    }

    /// The options for a run: the defaults, in a package named as the run names its crate.
    pub fn new(cli: &Cli) -> (r: Self)
        ensures
            r.has_default_options(),
            r.packageName@ == cli.inner_cli.lib_name(),
    {
        let mut r = Self::default();
        r.packageName = cli.inner_cli.get_lib_name();
        r
    }

    /// Where the options file of a run is written: under its fixed name, in
    /// the directory of the generated crate.
    pub fn config_file_path(cli: &Cli) -> (r: String)
        ensures
            r@ == join_path_of(
                cli.inner_cli.output_project_dir(),
                MakefileEnv::OPEN_API_GENERATOR_CONFIG_FILE@,
            ),
    {
        join_path(
            cli.inner_cli.get_output_project_dir().as_str(),
            MakefileEnv::OPEN_API_GENERATOR_CONFIG_FILE,
        )
    }
}

impl Default for OpenAPIRustGeneratorConfigs {
    fn default() -> (r: Self)
        ensures
            r.has_default_options(),
            r.packageName@ == "openapi"@,
    {
        Self {
            bestFitInt: false,
            enumNameSuffix: String::new(),
            hideGenerationTimestamp: true,
            library: "reqwest".to_owned(),
            packageName: "openapi".to_owned(),
            packageVersion: "1.0.0".to_owned(),
            preferUnsignedInt: false,
            supportAsync: true,
            supportMiddleware: false,
            supportMultipleResponses: false,
            useSingleRequestParameter: false,
            withAWSV4Signature: false,
        }
    }
}

} // verus!
