//! The fixed names of a trial run, in which the tool generates a crate for a
//! sample application into a scratch directory.

use crate::generate::utils::ProcessError;
use vstd::prelude::*;

verus! {

/// The file name under which the sample specification is stored.
pub const TESTING_SPEC_FILE_NAME: &'static str = "petshoppe_test_spec.yaml";

/// The word that marks the scratch directory of a trial run.
pub const TEST_SUBDIR_NAME: &'static str = "testing";

/// The URL of the sample application.
pub const TEST_API_URL: &'static str = "https://www.petshoppe.example";

/// The name of the sample application.
pub const TEST_API_NAME: &'static str = "PetShoppe";

/// What can go wrong in a trial run.
#[derive(Debug)]
pub enum TestingError {
    /// Reading or writing failed; the text says how.
    IOError(String),
    /// A process could not be run or did not succeed.
    ProcessError(ProcessError),
}

} // verus!
