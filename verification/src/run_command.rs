//! The resource-limited executor's verified core: building the wrapped
//! shell line, parsing the timing report out of captured stderr, and
//! decoding the raw wait status. Spawning the process itself is I/O and
//! lives outside the library; it hands the captured bytes back in.

use vstd::prelude::*;
use vstd::slice::slice_subrange;
use vstd::slice::slice_to_vec;
use vstd::string::StringSliceAdditionalSpecFns;

use crate::error::AppError;
use crate::text::capture_line;
use crate::text::dec_digits;
use crate::text::find_at_or_before;
use crate::text::line_capture;
use crate::text::lit_bytes;
use crate::text::match_at;
use crate::text::push_bytes;
use crate::text::push_dec_u32;
use crate::text::push_lit;
use crate::text::rfind_bytes;
use crate::text::rfind_seq;

verus! {

/// What the caller supplies for one process invocation.
#[derive(Debug)]
pub struct CommandOptions {
    /// Bytes fed to the child's standard input.
    pub stdin: Vec<u8>,
    /// Wall-clock limit; the child is terminated after this many
    /// milliseconds, rounded down to whole seconds.
    pub timeout_ms: u32,
}

/// Telemetry of one finished process invocation.
#[derive(Debug)]
pub struct CommandOutput {
    /// Captured standard output.
    pub stdout: Vec<u8>,
    /// Captured standard error, with the timing report removed.
    pub stderr: Vec<u8>,
    /// Elapsed wall time as reported by the instrumentation, with its
    /// leading three characters stripped.
    pub wall_time: Vec<u8>,
    /// Peak resident set size in kilobytes, as reported.
    pub memory_usage: Vec<u8>,
    /// The raw OS wait status. Note that this is not a normalized exit
    /// status: an exit status N appears here as N shifted into the high
    /// byte.
    pub exit_code: i32,
    /// Name of the terminating signal, when there was one.
    pub exit_signal: Option<Vec<u8>>,
}

/// The timing report fields recovered from captured stderr.
#[derive(Debug)]
pub struct TimingOutput {
    /// Stderr with the timing report removed.
    pub stderr: Vec<u8>,
    /// The wall-time field, with its leading three characters stripped.
    pub wall_time: Vec<u8>,
    /// The peak-memory field.
    pub memory_usage: Vec<u8>,
}

/// First line of the instrumentation report appended to stderr.
pub open spec fn timing_marker() -> Seq<u8> {
    "\tCommand being timed:".spec_bytes()
}

/// Report line holding the elapsed wall time.
pub open spec fn wall_time_prefix() -> Seq<u8> {
    "\tElapsed (wall clock) time (h:mm:ss or m:ss): ".spec_bytes()
}

/// Report line holding the peak resident memory.
pub open spec fn memory_prefix() -> Seq<u8> {
    "\tMaximum resident set size (kbytes): ".spec_bytes()
}

/// Shell prefix that disables core dumps, lifts the stack limit, and wraps
/// the child in the timing instrumentation and the timeout tool.
pub open spec fn limit_prefix() -> Seq<u8> {
    "ulimit -c 0 && ulimit -s unlimited && /usr/bin/time -v /usr/bin/timeout ".spec_bytes()
}

/// The whole shell line for one invocation: limits, instrumentation, a hard
/// timeout of the whole seconds of `timeout_ms`, then the command itself.
pub open spec fn spec_wrapped_command(command: Seq<u8>, timeout_ms: u32) -> Seq<u8> {
    limit_prefix() + dec_digits((timeout_ms / 1000) as nat) + "s ".spec_bytes() + command
}

/// What parsing the timing report out of captured stderr yields: the
/// remaining stderr, the wall-time field stripped of its first three
/// characters, and the memory field — or nothing when the report or either
/// field cannot be found, or the wall-time field is too short to strip.
pub open spec fn spec_parse_timing(stderr: Seq<u8>) -> Option<(Seq<u8>, Seq<u8>, Seq<u8>)> {
    match rfind_seq(stderr, timing_marker()) {
        Option::None => Option::None,
        Option::Some(start) => {
            let clean = stderr.subrange(0, start);
            let tail = stderr.subrange(start, stderr.len() as int);
            match line_capture(tail, wall_time_prefix()) {
                Option::None => Option::None,
                Option::Some(w) => match line_capture(tail, memory_prefix()) {
                    Option::None => Option::None,
                    Option::Some(m) => if w.len() > 3 {
                        Option::Some((clean, w.subrange(3, w.len() as int), m))
                    } else {
                        Option::None
                    },
                },
            }
        },
    }
}

/// A hit reported by `find_at_or_before` really is a match, no later than
/// where the search started.
proof fn lemma_find_at_or_before_is_match(h: Seq<u8>, n: Seq<u8>, i: int, j: int)
    requires
        find_at_or_before(h, n, i) == Some(j),
    ensures
        match_at(h, n, j),
        j <= i,
    decreases i + 1,
{
    if i < 0 {
    } else if match_at(h, n, i) {
    } else {
        lemma_find_at_or_before_is_match(h, n, i - 1, j);
    }
}

/// Builds the resource-limited shell line for `command`.
pub fn wrapped_command(command: &Vec<u8>, timeout_ms: u32) -> (r: Vec<u8>)
    ensures
        r@ == spec_wrapped_command(command@, timeout_ms),
{
    let mut out = lit_bytes(
        "ulimit -c 0 && ulimit -s unlimited && /usr/bin/time -v /usr/bin/timeout ",
    );
    push_dec_u32(&mut out, timeout_ms / 1000);
    push_lit(&mut out, "s ");
    push_bytes(&mut out, command.as_slice());
    proof {
        assert(out@ =~= spec_wrapped_command(command@, timeout_ms));
    }
    out
}

/// Recovers the timing report fields from captured stderr. Fails — as an
/// infrastructure error, since an unmeasured run cannot be told from a
/// malformed one — exactly when `spec_parse_timing` yields nothing.
pub fn parse_timing_stderr(stderr: &Vec<u8>) -> (r: Result<TimingOutput, AppError>)
    ensures
        match r {
            Ok(t) => spec_parse_timing(stderr@) == Some((t.stderr@, t.wall_time@, t.memory_usage@)),
            Err(e) => spec_parse_timing(stderr@) is None && e.kind is Infrastructure,
        },
{
    let marker = lit_bytes("\tCommand being timed:");
    let start = match rfind_bytes(stderr.as_slice(), marker.as_slice()) {
        Some(i) => i,
        None => {
            return Err(AppError::infrastructure(
                lit_bytes("Failed to parse timing output: could not find the timing report"),
            ));
        },
    };
    proof {
        lemma_find_at_or_before_is_match(
            stderr@,
            timing_marker(),
            stderr@.len() - timing_marker().len(),
            start as int,
        );
    }
    let clean = slice_to_vec(slice_subrange(stderr.as_slice(), 0, start));
    let tail = slice_to_vec(slice_subrange(stderr.as_slice(), start, stderr.len()));
    let wall_prefix = lit_bytes("\tElapsed (wall clock) time (h:mm:ss or m:ss): ");
    let wall_raw = match capture_line(tail.as_slice(), wall_prefix.as_slice()) {
        Some(v) => v,
        None => {
            return Err(AppError::infrastructure(
                lit_bytes("Failed to parse wall time: could not find the report line"),
            ));
        },
    };
    let mem_prefix = lit_bytes("\tMaximum resident set size (kbytes): ");
    let memory_usage = match capture_line(tail.as_slice(), mem_prefix.as_slice()) {
        Some(v) => v,
        None => {
            return Err(AppError::infrastructure(
                lit_bytes("Failed to parse memory usage: could not find the report line"),
            ));
        },
    };
    if wall_raw.len() <= 3 {
        return Err(AppError::infrastructure(
            lit_bytes("Failed to parse wall time: the field is shorter than expected"),
        ));
    }
    let wall_time = slice_to_vec(slice_subrange(wall_raw.as_slice(), 3, wall_raw.len()));
    Ok(TimingOutput { stderr: clean, wall_time, memory_usage })
}

/// Signal number encoded in a raw wait status: the low seven bits, when
/// they mark termination by a signal (neither zero — a normal exit — nor
/// all ones — a stop marker), following the POSIX wait-status encoding.
pub open spec fn spec_wait_status_signal(status: i32) -> Option<i32> {
    if status & 0x7f != 0 && status & 0x7f != 0x7f {
        Some(status & 0x7f)
    } else {
        None
    }
}

/// Decodes the terminating signal, if any, out of a raw wait status.
pub fn wait_status_signal(status: i32) -> (r: Option<i32>)
    ensures
        r == spec_wait_status_signal(status),
{
    let low = status & 0x7f;
    if low != 0 && low != 0x7f {
        Some(low)
    } else {
        None
    }
}

/// Relies on std's `str::from_utf8`, which accepts exactly valid UTF-8:
/// whether the captured bytes are valid text.
#[verifier::external_body]
fn is_valid_utf8(bytes: &Vec<u8>) -> (r: bool)
    ensures
        r == vstd::utf8::valid_utf8(bytes@),
{
    core::str::from_utf8(bytes).is_ok()
}

/// How the OS toolkit renders signal number `signal`: a `SIG*` name for a
/// known signal, or a fallback text naming the number.
pub uninterp spec fn signal_display(signal: int) -> Seq<u8>;

/// Relies on nix's `Signal::try_from` and `Signal::as_str`: both match on
/// the signal number alone, so the rendering is a function of the number.
#[verifier::external_body]
fn signal_name(signal: i32) -> (r: Vec<u8>)
    ensures
        r@ == signal_display(signal as int),
{
    match nix::sys::signal::Signal::try_from(signal) {
        Ok(s) => s.as_str().as_bytes().to_vec(),
        Err(_) => format!("Unknown signal {signal}").into_bytes(),
    }
}

/// Assembles the telemetry record for one finished process: checks that
/// the captured output is valid text, strips the timing report from
/// stderr, parses wall time and memory out of it, and decodes and names
/// the wait status's terminating signal. Fails exactly when the captured
/// output is not valid text or the timing report cannot be parsed; either
/// is an infrastructure fault, never the user program's.
pub fn command_output_from_parts(exit_code: i32, stdout: Vec<u8>, stderr: &Vec<u8>) -> (r: Result<
    CommandOutput,
    AppError,
>)
    ensures
        match r {
            Ok(out) => {
                &&& vstd::utf8::valid_utf8(stdout@)
                &&& vstd::utf8::valid_utf8(stderr@)
                &&& spec_parse_timing(stderr@) == Some(
                    (out.stderr@, out.wall_time@, out.memory_usage@),
                )
                &&& out.stdout == stdout
                &&& out.exit_code == exit_code
                &&& match spec_wait_status_signal(exit_code) {
                    Some(sig) => out.exit_signal matches Some(name) && name@ == signal_display(
                        sig as int,
                    ),
                    None => out.exit_signal is None,
                }
            },
            Err(e) => {
                &&& (!vstd::utf8::valid_utf8(stdout@) || !vstd::utf8::valid_utf8(stderr@)
                    || spec_parse_timing(stderr@) is None)
                &&& e.kind is Infrastructure
            },
        },
{
    if !is_valid_utf8(stderr) || !is_valid_utf8(&stdout) {
        return Err(AppError::infrastructure(
            lit_bytes("Failed to decode captured output as text"),
        ));
    }
    let timing = match parse_timing_stderr(stderr) {
        Ok(t) => t,
        Err(e) => {
            return Err(e);
        },
    };
    let exit_signal = match wait_status_signal(exit_code) {
        Some(sig) => Some(signal_name(sig)),
        None => None,
    };
    Ok(
        CommandOutput {
            stdout,
            stderr: timing.stderr,
            wall_time: timing.wall_time,
            memory_usage: timing.memory_usage,
            exit_code,
            exit_signal,
        },
    )
}

} // verus!
