//! Pre-builds the dependency packages of one package of a cargo workspace.
//!
//! The library reads the package ids out of `cargo metadata` output, decides
//! which of them to build and with which arguments, and picks the exit code.
//! Running the processes is left to the program around it.

pub mod text;
pub mod package;
pub mod plan;
pub mod metadata;
pub mod command;
