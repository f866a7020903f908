//! The runner's verified core: file-I/O name validation, verdict
//! classification of the raw wait status, response assembly, and the output
//! guard that bounds and prepares offloading of oversized responses.
//! Unpacking the bundle, spawning the process, and talking to blob storage
//! are I/O and live outside the library.

use vstd::math::max;
use vstd::math::min;
use vstd::prelude::*;
use vstd::string::StringSliceAdditionalSpecFns;

use crate::error::AppError;
use crate::run_command::CommandOutput;
use crate::text::lit_bytes;
use crate::text::push_bytes;
use crate::text::push_lit;
use crate::types::Executable;

verus! {

/// Total byte budget for the streams of one inline response.
pub const RESPONSE_BYTE_BUDGET: usize = 5000000;

/// Serialized-response size above which the full response is offloaded to
/// external storage before the inline copy is truncated.
pub const OFFLOAD_THRESHOLD: usize = 5500000;

/// The raw wait status that the timeout tool's kill is reported as: exit
/// status 124, which as a raw wait status sits shifted into the high byte
/// (124 * 256). Callers comparing a shell-reported exit status instead of a
/// raw wait status must not use this value.
pub const TIMEOUT_WAIT_STATUS: i32 = 31744;

/// What the caller supplies for running a bundle.
#[derive(Debug)]
pub struct ExecuteOptions {
    /// Bytes fed to the child's standard input.
    pub stdin: Vec<u8>,
    /// Wall-clock limit in milliseconds.
    pub timeout_ms: u32,
    /// When set, `<name>.in` is pre-populated with the stdin bytes and
    /// `<name>.out` is read back after the run. Must be alphanumeric.
    pub file_io_name: Option<Vec<u8>>,
}

/// A request to run a previously built bundle.
#[derive(Debug)]
pub struct ExecuteRequest {
    pub executable: Executable,
    pub options: ExecuteOptions,
}

/// Coarse classification of one program run.
#[derive(Clone, Copy, PartialEq, Eq, Structural, Debug)]
pub enum Verdict {
    Accepted,
    /// Reserved: this core performs no reference-answer comparison.
    WrongAnswer,
    TimeLimitExceeded,
    RuntimeError,
}

impl Default for Verdict {
    fn default() -> (v: Self)
        ensures
            v is Accepted,
    {
        Verdict::Accepted
    }
}

/// The verdict a raw wait status is owed: the timeout tool's kill status
/// means the time limit was exceeded, zero means accepted, and anything
/// else is a runtime error.
pub open spec fn spec_verdict_of(wait_status: i32) -> Verdict {
    if wait_status == TIMEOUT_WAIT_STATUS {
        Verdict::TimeLimitExceeded
    } else if wait_status == 0 {
        Verdict::Accepted
    } else {
        Verdict::RuntimeError
    }
}

/// Classifies a raw wait status. A run is accepted exactly when the program
/// exited with status zero, and the time limit was exceeded exactly when
/// the status is the timeout tool's kill status.
pub fn verdict_of(wait_status: i32) -> (v: Verdict)
    ensures
        v == spec_verdict_of(wait_status),
        v is Accepted <==> wait_status == 0,
        v is TimeLimitExceeded <==> wait_status == TIMEOUT_WAIT_STATUS,
{
    if wait_status == TIMEOUT_WAIT_STATUS {
        Verdict::TimeLimitExceeded
    } else if wait_status == 0 {
        Verdict::Accepted
    } else {
        Verdict::RuntimeError
    }
}

/// The result of one run, as returned to the caller.
#[derive(Debug)]
pub struct ExecuteResponse {
    /// Captured standard output.
    pub stdout: Vec<u8>,
    /// Contents of `<file_io_name>.out`, when file I/O was requested and
    /// the program produced the file.
    pub file_output: Option<Vec<u8>>,
    /// Captured standard error.
    pub stderr: Vec<u8>,
    /// Elapsed wall time.
    pub wall_time: Vec<u8>,
    /// Peak resident memory in kilobytes.
    pub memory_usage: Vec<u8>,
    /// The raw OS wait status; not a normalized exit status.
    pub exit_code: i32,
    /// Name of the terminating signal, when there was one.
    pub exit_signal: Option<Vec<u8>>,
    pub verdict: Verdict,
    /// Where the full output can be retrieved when it was too large to
    /// return inline.
    pub full_output_url: Option<Vec<u8>>,
}

impl Default for ExecuteResponse {
    fn default() -> (r: Self)
        ensures
            r.stdout@.len() == 0,
            r.file_output is None,
            r.stderr@.len() == 0,
            r.wall_time@.len() == 0,
            r.memory_usage@.len() == 0,
            r.exit_code == 0,
            r.exit_signal is None,
            r.verdict is Accepted,
            r.full_output_url is None,
    {
        ExecuteResponse {
            stdout: Vec::new(),
            file_output: None,
            stderr: Vec::new(),
            wall_time: Vec::new(),
            memory_usage: Vec::new(),
            exit_code: 0,
            exit_signal: None,
            verdict: Verdict::Accepted,
            full_output_url: None,
        }
    }
}

/// An ASCII digit or letter.
pub open spec fn is_alnum_byte(b: u8) -> bool {
    (48 <= b <= 57) || (65 <= b <= 90) || (97 <= b <= 122)
}

/// A file-I/O name fit to build filesystem paths from: every byte is an
/// ASCII digit or letter, so it can name no other directory.
pub open spec fn file_io_name_ok(name: Seq<u8>) -> bool {
    forall|i: int| 0 <= i < name.len() ==> is_alnum_byte(name[i])
}

/// A name holding a path separator, a dot, or whitespace is never a valid
/// file-I/O name, so such a request is rejected before any filesystem path
/// is built from the name.
pub proof fn lemma_file_io_name_rejects_path_chars(name: Seq<u8>, i: int)
    requires
        0 <= i < name.len(),
        name[i] == 47 || name[i] == 46 || name[i] == 32 || name[i] == 9 || name[i] == 10
            || name[i] == 13,
    ensures
        !file_io_name_ok(name),
{
    assert(!is_alnum_byte(name[i]));
}

/// Accepts exactly the valid file-I/O names; anything else is the caller's
/// fault and is answered with a validation error.
pub fn validate_file_io_name(name: &Vec<u8>) -> (r: Result<(), AppError>)
    ensures
        r is Ok <==> file_io_name_ok(name@),
        r matches Err(e) ==> e.kind is Validation,
{
    let len = name.len();
    let mut i: usize = 0;
    while i < len
        invariant
            len == name@.len(),
            i <= len,
            forall|j: int| 0 <= j < i ==> is_alnum_byte(name@[j]),
        decreases len - i,
    {
        let b = name[i];
        let ok = (48 <= b && b <= 57) || (65 <= b && b <= 90) || (97 <= b && b <= 122);
        if !ok {
            return Err(AppError::validation(
                lit_bytes("Invalid file I/O name. It must be alphanumeric, like \"cowdating\"."),
            ));
        }
        i = i + 1;
    }
    Ok(())
}

/// The `<name>.in` filename that is pre-populated with the stdin bytes.
/// Callers must have validated the name first.
pub fn file_io_input_name(name: &Vec<u8>) -> (r: Vec<u8>)
    requires
        file_io_name_ok(name@),
    ensures
        r@ == name@ + ".in".spec_bytes(),
{
    let mut out = Vec::new();
    push_bytes(&mut out, name.as_slice());
    push_lit(&mut out, ".in");
    proof {
        assert(out@ =~= name@ + ".in".spec_bytes());
    }
    out
}

/// The `<name>.out` filename that is read back after the run. Callers must
/// have validated the name first.
pub fn file_io_output_name(name: &Vec<u8>) -> (r: Vec<u8>)
    requires
        file_io_name_ok(name@),
    ensures
        r@ == name@ + ".out".spec_bytes(),
{
    let mut out = Vec::new();
    push_bytes(&mut out, name.as_slice());
    push_lit(&mut out, ".out");
    proof {
        assert(out@ =~= name@ + ".out".spec_bytes());
    }
    out
}

/// Builds the run result from the executor's telemetry and the optional
/// file-I/O output. The verdict comes deterministically from the raw wait
/// status: accepted exactly on status zero.
pub fn execute_response_from(output: CommandOutput, file_output: Option<Vec<u8>>) -> (r:
    ExecuteResponse)
    ensures
        r.stdout == output.stdout,
        r.stderr == output.stderr,
        r.wall_time == output.wall_time,
        r.memory_usage == output.memory_usage,
        r.exit_code == output.exit_code,
        r.exit_signal == output.exit_signal,
        r.file_output == file_output,
        r.verdict == spec_verdict_of(output.exit_code),
        r.verdict is Accepted <==> output.exit_code == 0,
        r.full_output_url is None,
{
    let verdict = verdict_of(output.exit_code);
    ExecuteResponse {
        stdout: output.stdout,
        file_output,
        stderr: output.stderr,
        wall_time: output.wall_time,
        memory_usage: output.memory_usage,
        exit_code: output.exit_code,
        exit_signal: output.exit_signal,
        verdict,
        full_output_url: None,
    }
}

/// Marker appended to a stream that had to be cut.
pub open spec fn truncation_marker() -> Seq<u8> {
    "\n[Truncated]".spec_bytes()
}

/// `s` bounded to `max_len` bytes: unchanged when it fits; otherwise cut to
/// exactly `max_len` bytes, ending with the truncation marker whenever the
/// marker itself fits.
pub open spec fn spec_truncated(s: Seq<u8>, max_len: int) -> Seq<u8> {
    if s.len() <= max_len {
        s
    } else if truncation_marker().len() <= max_len {
        s.subrange(0, max_len - truncation_marker().len()) + truncation_marker()
    } else {
        s.subrange(0, max_len)
    }
}

/// Bounds one stream to `max_len` bytes, marking it when it was cut. The
/// result's length is exactly the smaller of the stream's length and
/// `max_len`, so a nonempty stream stays nonempty whenever `max_len` is
/// positive.
pub fn truncate_if_needed(s: Vec<u8>, max_len: usize) -> (r: Vec<u8>)
    ensures
        r@ == spec_truncated(s@, max_len as int),
        r@.len() == min(s@.len() as int, max_len as int),
{
    let ghost orig = s@;
    let mut s = s;
    if s.len() > max_len {
        let mut marker = lit_bytes("\n[Truncated]");
        if marker.len() <= max_len {
            s.truncate(max_len - marker.len());
            s.append(&mut marker);
            proof {
                assert(s@ =~= spec_truncated(orig, max_len as int));
            }
        } else {
            s.truncate(max_len);
        }
    }
    s
}

/// Byte budget the file-I/O output keeps out of `budget`: at least a third,
/// and more when the other streams (`other` bytes together) leave room.
pub open spec fn spec_file_budget(budget: int, other: int) -> int {
    max(budget / 3, budget - min(other, budget))
}

/// Byte budget stderr keeps out of what remains: at least half, and more
/// when stdout (`stdout_len` bytes) leaves room.
pub open spec fn spec_stderr_budget(remaining: int, stdout_len: int) -> int {
    max(remaining / 2, remaining - min(stdout_len, remaining))
}

/// The bounded views of (file output, stderr, stdout) under `budget` total
/// bytes: the file output is bounded first and keeps a guaranteed floor,
/// then stderr out of what remains, and stdout takes the rest.
pub open spec fn spec_bounded_streams(
    file_output: Option<Seq<u8>>,
    stderr: Seq<u8>,
    stdout: Seq<u8>,
    budget: int,
) -> (Option<Seq<u8>>, Seq<u8>, Seq<u8>) {
    let bounded_file = match file_output {
        Option::Some(f) => Option::Some(
            spec_truncated(f, spec_file_budget(budget, stdout.len() + stderr.len() as int)),
        ),
        Option::None => Option::None,
    };
    let after_file = budget - (match bounded_file {
        Option::Some(f) => f.len() as int,
        Option::None => 0,
    });
    let bounded_stderr = spec_truncated(stderr, spec_stderr_budget(after_file, stdout.len() as int));
    let after_stderr = after_file - bounded_stderr.len();
    let bounded_stdout = spec_truncated(stdout, after_stderr);
    (bounded_file, bounded_stderr, bounded_stdout)
}

/// View of an optional byte vector.
pub open spec fn opt_bytes_view(o: Option<Vec<u8>>) -> Option<Seq<u8>> {
    match o {
        Option::Some(v) => Option::Some(v@),
        Option::None => Option::None,
    }
}

/// The smaller of `a + b` and `cap`, computed without overflowing.
fn min_sum_clamped(a: usize, b: usize, cap: usize) -> (r: usize)
    ensures
        r as int == min(a as int + b as int, cap as int),
{
    if a >= cap {
        cap
    } else if b >= cap - a {
        cap
    } else {
        a + b
    }
}

/// The larger of two lengths.
fn max_usize(a: usize, b: usize) -> (r: usize)
    ensures
        r as int == max(a as int, b as int),
{
    if a >= b {
        a
    } else {
        b
    }
}

/// The smaller of two lengths.
fn min_usize(a: usize, b: usize) -> (r: usize)
    ensures
        r as int == min(a as int, b as int),
{
    if a <= b {
        a
    } else {
        b
    }
}

/// The output guard: bounds the response's streams so that together they
/// never exceed the response byte budget, while no stream that was nonempty
/// is ever cut to nothing — the file output keeps at least a third of the
/// budget, stderr at least half of what remains, and stdout all of the
/// rest. Everything that is not an output stream is returned unchanged.
pub fn truncate_response(response: ExecuteResponse) -> (r: ExecuteResponse)
    ensures
        ({
            let (bounded_file, bounded_stderr, bounded_stdout) = spec_bounded_streams(
                opt_bytes_view(response.file_output),
                response.stderr@,
                response.stdout@,
                RESPONSE_BYTE_BUDGET as int,
            );
            &&& opt_bytes_view(r.file_output) == bounded_file
            &&& r.stderr@ == bounded_stderr
            &&& r.stdout@ == bounded_stdout
        }),
        r.wall_time == response.wall_time,
        r.memory_usage == response.memory_usage,
        r.exit_code == response.exit_code,
        r.exit_signal == response.exit_signal,
        r.verdict == response.verdict,
        r.full_output_url == response.full_output_url,
        r.stdout@.len() + r.stderr@.len() + (match r.file_output {
            Some(f) => f@.len() as int,
            None => 0,
        }) <= RESPONSE_BYTE_BUDGET,
        response.stdout@.len() > 0 ==> r.stdout@.len() > 0,
        response.stderr@.len() > 0 ==> r.stderr@.len() > 0,
        (match (response.file_output, r.file_output) {
            (Some(f), Some(g)) => f@.len() > 0 ==> g@.len() > 0,
            (Some(f), None) => false,
            (None, Some(g)) => false,
            (None, None) => true,
        }),
{
    let ExecuteResponse {
        stdout,
        file_output,
        stderr,
        wall_time,
        memory_usage,
        exit_code,
        exit_signal,
        verdict,
        full_output_url,
    } = response;
    let mut remaining: usize = RESPONSE_BYTE_BUDGET;
    let bounded_file = match file_output {
        Some(f) => {
            let other = min_sum_clamped(stdout.len(), stderr.len(), remaining);
            let file_budget = max_usize(remaining / 3, remaining - other);
            let bounded = truncate_if_needed(f, file_budget);
            remaining = remaining - bounded.len();
            Some(bounded)
        },
        None => None,
    };
    let stderr_budget = max_usize(remaining / 2, remaining - min_usize(stdout.len(), remaining));
    let bounded_stderr = truncate_if_needed(stderr, stderr_budget);
    let remaining = remaining - bounded_stderr.len();
    let bounded_stdout = truncate_if_needed(stdout, remaining);
    ExecuteResponse {
        stdout: bounded_stdout,
        file_output: bounded_file,
        stderr: bounded_stderr,
        wall_time,
        memory_usage,
        exit_code,
        exit_signal,
        verdict,
        full_output_url,
    }
}

/// Whether a serialized response of `serialized_len` bytes is too large to
/// return inline and must be offloaded to external storage first.
pub fn needs_offload(serialized_len: usize) -> (r: bool)
    ensures
        r == (serialized_len > OFFLOAD_THRESHOLD),
{
    serialized_len > OFFLOAD_THRESHOLD
}

/// Storage key under which an oversized response body is persisted, from a
/// fresh unique identifier.
pub open spec fn spec_output_key(id: Seq<u8>) -> Seq<u8> {
    "outputs/".spec_bytes() + id + ".json".spec_bytes()
}

/// Builds the storage key for an oversized response body.
pub fn output_key_for(id: &Vec<u8>) -> (r: Vec<u8>)
    ensures
        r@ == spec_output_key(id@),
{
    let mut out = lit_bytes("outputs/");
    push_bytes(&mut out, id.as_slice());
    push_lit(&mut out, ".json");
    proof {
        assert(out@ =~= spec_output_key(id@));
    }
    out
}

/// Storage key under which an oversized request input is persisted, from a
/// fresh unique identifier.
pub open spec fn spec_input_key(id: Seq<u8>) -> Seq<u8> {
    "inputs/".spec_bytes() + id + ".txt".spec_bytes()
}

/// Builds the storage key for an oversized request input.
pub fn input_key_for(id: &Vec<u8>) -> (r: Vec<u8>)
    ensures
        r@ == spec_input_key(id@),
{
    let mut out = lit_bytes("inputs/");
    push_bytes(&mut out, id.as_slice());
    push_lit(&mut out, ".txt");
    proof {
        assert(out@ =~= spec_input_key(id@));
    }
    out
}

} // verus!
