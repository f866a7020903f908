//! Core logic of a build-and-run code-execution sandbox: command
//! construction, telemetry parsing, verdict classification, and
//! output bounding, with machine-checked contracts.

pub mod compile;
pub mod compile_and_execute;
pub mod error;
pub mod execute;
pub mod run_command;
pub mod text;
pub mod types;
