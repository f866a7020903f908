//! The timing-report parser and the wrapped command line.

use judge_core::error::ErrorKind;
use judge_core::run_command::parse_timing_stderr;
use judge_core::run_command::wrapped_command;

const LIMIT_PREFIX: &str = "ulimit -c 0 && ulimit -s unlimited && /usr/bin/time -v /usr/bin/timeout ";

#[test]
fn wrapped_command_rounds_timeout_down_to_seconds() {
    let line = wrapped_command(&b"./run".to_vec(), 2500);
    assert_eq!(line, format!("{LIMIT_PREFIX}2s ./run").into_bytes());
}

#[test]
fn wrapped_command_one_second() {
    let line = wrapped_command(&b"./run".to_vec(), 1000);
    assert_eq!(line, format!("{LIMIT_PREFIX}1s ./run").into_bytes());
}

#[test]
fn wrapped_command_sub_second_timeout_becomes_zero() {
    let line = wrapped_command(&b"g++ x.cpp".to_vec(), 999);
    assert_eq!(line, format!("{LIMIT_PREFIX}0s g++ x.cpp").into_bytes());
}

#[test]
fn wrapped_command_build_timeout() {
    let line = wrapped_command(&b"javac Main.java".to_vec(), judge_core::compile::COMPILE_TIMEOUT_MS);
    assert_eq!(line, format!("{LIMIT_PREFIX}20s javac Main.java").into_bytes());
}

fn report(wall: &str, kbytes: &str) -> String {
    format!(
        "\tCommand being timed: \"./prog\"\n\
         \tUser time (seconds): 0.00\n\
         \tElapsed (wall clock) time (h:mm:ss or m:ss): {wall}\n\
         \tMaximum resident set size (kbytes): {kbytes}\n\
         \tExit status: 0\n"
    )
}

#[test]
fn parse_strips_report_and_fields() {
    let stderr = format!("warning: unused variable\n{}", report("0:01.97", "4321")).into_bytes();
    let t = parse_timing_stderr(&stderr).unwrap();
    assert_eq!(t.stderr, b"warning: unused variable\n".to_vec());
    assert_eq!(t.wall_time, b"1.97".to_vec());
    assert_eq!(t.memory_usage, b"4321".to_vec());
}

#[test]
fn parse_keeps_empty_stderr_empty() {
    let stderr = report("0:00.03", "1500").into_bytes();
    let t = parse_timing_stderr(&stderr).unwrap();
    assert_eq!(t.stderr, Vec::<u8>::new());
}

#[test]
fn parse_hour_format_wall_time() {
    let stderr = report("1:02:03", "99").into_bytes();
    let t = parse_timing_stderr(&stderr).unwrap();
    assert_eq!(t.wall_time, b"2:03".to_vec());
}

#[test]
fn parse_uses_last_report_when_program_prints_one() {
    // A program may print the marker itself; the report appended by the
    // instrumentation is the last one, and everything before it stays.
    let fake = "\tCommand being timed: fake\n";
    let stderr = format!("{fake}more output\n{}", report("0:00.10", "7")).into_bytes();
    let t = parse_timing_stderr(&stderr).unwrap();
    assert_eq!(t.stderr, format!("{fake}more output\n").into_bytes());
    assert_eq!(t.wall_time, b"0.10".to_vec());
}

#[test]
fn parse_fails_without_marker() {
    let err = parse_timing_stderr(&b"plain diagnostics\n".to_vec()).unwrap_err();
    assert!(matches!(err.kind, ErrorKind::Infrastructure));
}

#[test]
fn parse_fails_without_wall_time_line() {
    let stderr = format!(
        "\tCommand being timed: \"./prog\"\n\tMaximum resident set size (kbytes): 10\n"
    )
    .into_bytes();
    let err = parse_timing_stderr(&stderr).unwrap_err();
    assert!(matches!(err.kind, ErrorKind::Infrastructure));
}

#[test]
fn parse_fails_without_memory_line() {
    let stderr = format!(
        "\tCommand being timed: \"./prog\"\n\
         \tElapsed (wall clock) time (h:mm:ss or m:ss): 0:01.00\n"
    )
    .into_bytes();
    let err = parse_timing_stderr(&stderr).unwrap_err();
    assert!(matches!(err.kind, ErrorKind::Infrastructure));
}

#[test]
fn parse_fails_on_too_short_wall_time() {
    let stderr = format!(
        "\tCommand being timed: \"./prog\"\n\
         \tElapsed (wall clock) time (h:mm:ss or m:ss): ab\n\
         \tMaximum resident set size (kbytes): 10\n"
    )
    .into_bytes();
    let err = parse_timing_stderr(&stderr).unwrap_err();
    assert!(matches!(err.kind, ErrorKind::Infrastructure));
}
