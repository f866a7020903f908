//! The pipeline orchestrator's verified core: a combined request builds
//! first and runs only when a bundle came out of the build; a compile
//! failure is a normal terminal outcome, not an error.

use vstd::prelude::*;

use crate::compile::CompileRequest;
use crate::compile::CompileResponse;
use crate::execute::ExecuteOptions;
use crate::execute::ExecuteResponse;
use crate::run_command::CommandOutput;

verus! {

/// A request to compile source text and, when the build succeeds, run the
/// resulting bundle in one call.
#[derive(Debug)]
pub struct CompileAndExecuteRequest {
    pub compile: CompileRequest,
    pub execute: ExecuteOptions,
}

/// The outcome of a combined request.
#[derive(Debug)]
pub struct CompileAndExecuteResponse {
    /// Telemetry of the build command.
    pub compile: CommandOutput,
    /// The run result; absent exactly when the build produced no bundle.
    pub execute: Option<ExecuteResponse>,
}

/// Assembles the combined response. The caller runs the bundle exactly when
/// the build produced one, so the run result is present exactly when a
/// bundle was built — a compile failure short-circuits to an absent run.
pub fn combined_response(compile: CompileResponse, execute: Option<ExecuteResponse>) -> (r:
    CompileAndExecuteResponse)
    requires
        execute is Some <==> compile.executable is Some,
    ensures
        r.compile == compile.compile_output,
        r.execute == execute,
        r.execute is Some <==> compile.executable is Some,
{
    CompileAndExecuteResponse { compile: compile.compile_output, execute }
}

} // verus!
