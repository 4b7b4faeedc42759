//! Scaffolding of client crates for OpenAPI web applications: the parameters
//! of a run, the documents written for it, and the order of its steps.

pub mod cli;
pub mod generate;
pub mod orchestrate;
pub mod testing;
pub mod text;
