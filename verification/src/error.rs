//! Request-failure model. A validation error is the caller's fault and
//! surfaces with its own message and a client status; an infrastructure
//! error surfaces only as a generic status and message, so that no internal
//! detail leaks to the caller.

use vstd::prelude::*;
use vstd::slice::slice_to_vec;
use vstd::string::StringSliceAdditionalSpecFns;

use crate::text::lit_bytes;

verus! {

/// HTTP-style status for a validation error.
pub const VALIDATION_STATUS: u16 = 400;

/// HTTP-style status for an infrastructure error.
pub const INFRASTRUCTURE_STATUS: u16 = 500;

/// How a request failure is classified.
#[derive(Clone, Copy, PartialEq, Eq, Structural, Debug)]
pub enum ErrorKind {
    /// The request itself is bad (an invalid file-I/O name, a malformed
    /// bundle). Reported to the caller with a specific message.
    Validation,
    /// The sandbox itself failed (a process could not be spawned, telemetry
    /// could not be parsed, storage was unreachable). Logged in full but
    /// reported to the caller only generically.
    Infrastructure,
}

/// A request failure: its classification plus a detail message.
#[derive(Debug)]
pub struct AppError {
    pub kind: ErrorKind,
    pub message: Vec<u8>,
}

/// Status code owed to each kind of failure.
pub open spec fn spec_status_code(kind: ErrorKind) -> u16 {
    match kind {
        ErrorKind::Validation => VALIDATION_STATUS,
        ErrorKind::Infrastructure => INFRASTRUCTURE_STATUS,
    }
}

/// The only text an infrastructure failure may show the caller.
pub open spec fn generic_failure_message() -> Seq<u8> {
    "Internal Server Error".spec_bytes()
}

impl AppError {
    /// A client error with a caller-visible message.
    pub fn validation(message: Vec<u8>) -> (e: AppError)
        ensures
            e.kind is Validation,
            e.message == message,
    {
        AppError { kind: ErrorKind::Validation, message }
    }

    /// An internal failure whose detail is for the log only.
    pub fn infrastructure(message: Vec<u8>) -> (e: AppError)
        ensures
            e.kind is Infrastructure,
            e.message == message,
    {
        AppError { kind: ErrorKind::Infrastructure, message }
    }

    /// The HTTP-style status this failure surfaces with.
    pub fn status_code(&self) -> (c: u16)
        ensures
            c == spec_status_code(self.kind),
            c == VALIDATION_STATUS <==> self.kind is Validation,
    {
        match self.kind {
            ErrorKind::Validation => VALIDATION_STATUS,
            ErrorKind::Infrastructure => INFRASTRUCTURE_STATUS,
        }
    }

    /// The message shown to the caller: a validation message verbatim, and
    /// for infrastructure failures the generic text alone — never the
    /// internal detail.
    pub fn public_message(&self) -> (m: Vec<u8>)
        ensures
            self.kind is Validation ==> m@ == self.message@,
            self.kind is Infrastructure ==> m@ == generic_failure_message(),
    {
        match self.kind {
            ErrorKind::Validation => slice_to_vec(self.message.as_slice()),
            ErrorKind::Infrastructure => lit_bytes("Internal Server Error"),
        }
    }
}

} // verus!
