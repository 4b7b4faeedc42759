//! The documents of a generated crate and the steps that put them in place.

pub mod cargos;
pub mod crate_scaffolds;
pub mod makefiles;
pub mod parameters;
pub mod readmes;
pub mod utils;
pub mod yamls;

pub use cargos::CargoConfigError;
pub use crate_scaffolds::CrateScaffoldingError;
pub use makefiles::MakefileGenerationError;
pub use parameters::ParameterError;
pub use readmes::READMEGenerationError;
pub use utils::ProcessError;
pub use yamls::YAMLGenerationError;
