//! Compile planning, file-I/O validation, and end-to-end response
//! assembly scenarios.

use judge_core::compile::compile_plan;
use judge_core::compile::compile_succeeded;
use judge_core::compile::make_compile_response;
use judge_core::compile::precompiled_header_path;
use judge_core::compile::wants_precompiled_header;
use judge_core::compile::CompileRequest;
use judge_core::compile_and_execute::combined_response;
use judge_core::error::ErrorKind;
use judge_core::execute::execute_response_from;
use judge_core::execute::file_io_input_name;
use judge_core::execute::file_io_output_name;
use judge_core::execute::validate_file_io_name;
use judge_core::execute::Verdict;
use judge_core::run_command::CommandOutput;
use judge_core::types::Language;

fn command_output(exit_code: i32, stdout: &[u8], stderr: &[u8]) -> CommandOutput {
    CommandOutput {
        stdout: stdout.to_vec(),
        stderr: stderr.to_vec(),
        wall_time: b"0.05".to_vec(),
        memory_usage: b"2048".to_vec(),
        exit_code,
        exit_signal: None,
    }
}

fn cpp_request(source: &str, flags: &str) -> CompileRequest {
    CompileRequest {
        source_code: source.as_bytes().to_vec(),
        compiler_options: flags.as_bytes().to_vec(),
        language: Language::Cpp,
    }
}

#[test]
fn cpp_plan_builds_with_gcc() {
    let req = cpp_request("int main() {}", "-O2 -Wall");
    let plan = compile_plan(&req, &b"/tmp/src".to_vec(), &b"/tmp/out".to_vec());
    assert_eq!(plan.source_filename, b"program.cpp".to_vec());
    assert_eq!(
        plan.build_command,
        b"g++ -I/tmp/precompiled-headers -o /tmp/out/program -O2 -Wall program.cpp".to_vec()
    );
    assert_eq!(plan.run_command, b"./program".to_vec());
}

#[test]
fn java_plan_uses_public_class_name() {
    let req = CompileRequest {
        source_code: b"public class Foo { public static void main(String[] a) {} }".to_vec(),
        compiler_options: Vec::new(),
        language: Language::Java21,
    };
    let plan = compile_plan(&req, &b"/tmp/src".to_vec(), &b"/tmp/out".to_vec());
    assert_eq!(plan.source_filename, b"Foo.java".to_vec());
    assert_eq!(plan.build_command, b"javac -d /tmp/out  Foo.java".to_vec());
    assert_eq!(plan.run_command, b"java Foo".to_vec());
}

#[test]
fn java_plan_falls_back_to_main() {
    let req = CompileRequest {
        source_code: b"class quiet {}".to_vec(),
        compiler_options: Vec::new(),
        language: Language::Java21,
    };
    let plan = compile_plan(&req, &b"/tmp/src".to_vec(), &b"/tmp/out".to_vec());
    assert_eq!(plan.source_filename, b"Main.java".to_vec());
    assert_eq!(plan.run_command, b"java Main".to_vec());
}

#[test]
fn python_plan_copies_the_script() {
    let req = CompileRequest {
        source_code: b"print('hi')".to_vec(),
        compiler_options: Vec::new(),
        language: Language::Py12,
    };
    let plan = compile_plan(&req, &b"/tmp/src".to_vec(), &b"/tmp/out".to_vec());
    assert_eq!(plan.source_filename, b"program.py".to_vec());
    assert_eq!(
        plan.build_command,
        b"cp /tmp/src/program.py /tmp/out/program.py".to_vec()
    );
    assert_eq!(plan.run_command, b"python3.12 program.py".to_vec());
}

#[test]
fn precompiled_header_only_for_the_pinned_combination() {
    let wanted = cpp_request("#include <bits/stdc++.h>\nint main() {}", "-std=c++23 -O2");
    assert!(wants_precompiled_header(&wanted));
    let other_std = cpp_request("#include <bits/stdc++.h>\nint main() {}", "-std=c++20 -O2");
    assert!(!wants_precompiled_header(&other_std));
    let no_opt = cpp_request("#include <bits/stdc++.h>\nint main() {}", "-std=c++23");
    assert!(!wants_precompiled_header(&no_opt));
    let no_header = cpp_request("int main() {}", "-std=c++23 -O2");
    assert!(!wants_precompiled_header(&no_header));
    let mut java = cpp_request("#include <bits/stdc++.h>", "-std=c++23 -O2");
    java.language = Language::Java21;
    assert!(!wants_precompiled_header(&java));
}

#[test]
fn precompiled_header_path_is_pinned() {
    assert_eq!(
        precompiled_header_path(),
        b"/tmp/precompiled-headers/bits/stdc++.h.gch/23".to_vec()
    );
}

#[test]
fn file_io_names_accept_alphanumeric_only() {
    assert!(validate_file_io_name(&b"cowdating".to_vec()).is_ok());
    assert!(validate_file_io_name(&b"Cow123".to_vec()).is_ok());
    assert!(validate_file_io_name(&Vec::new()).is_ok());
    for bad in [
        b"cow/dating".as_slice(),
        b"cow.dating",
        b"cow dating",
        b"../etc/passwd",
        b"cow\tdating",
        b"cow\ndating",
    ] {
        let err = validate_file_io_name(&bad.to_vec()).unwrap_err();
        assert!(matches!(err.kind, ErrorKind::Validation));
        assert_eq!(
            err.message,
            b"Invalid file I/O name. It must be alphanumeric, like \"cowdating\".".to_vec()
        );
    }
}

#[test]
fn file_io_filenames_add_the_suffixes() {
    assert_eq!(file_io_input_name(&b"cowdating".to_vec()), b"cowdating.in".to_vec());
    assert_eq!(file_io_output_name(&b"cowdating".to_vec()), b"cowdating.out".to_vec());
}

#[test]
fn successful_build_carries_a_bundle() {
    // A trivial program that printed "hello" once run: the build exits
    // with status zero, so the response holds a bundle with the run
    // command, and running it yields an accepted verdict on wait status 0.
    let build = command_output(0, b"", b"");
    let resp = make_compile_response(build, Some(b"archive bytes".to_vec()), b"./program".to_vec());
    let bundle = resp.executable.as_ref().unwrap();
    assert_eq!(bundle.run_command, b"./program".to_vec());
    assert_eq!(resp.compile_output.exit_code, 0);

    let run = execute_response_from(command_output(0, b"hello\n", b""), None);
    assert!(matches!(run.verdict, Verdict::Accepted));
    assert_eq!(run.stdout, b"hello\n".to_vec());
    assert_eq!(run.exit_code, 0);
    assert_eq!(run.full_output_url, None);

    let combined = combined_response(resp, Some(run));
    assert_eq!(combined.compile.exit_code, 0);
    assert!(combined.execute.is_some());
}

#[test]
fn failed_build_has_no_bundle_and_keeps_diagnostics() {
    // A syntactically invalid program: non-zero status, diagnostics on the
    // error stream, and no bundle; the combined pipeline short-circuits.
    assert!(!compile_succeeded(256));
    let build = command_output(256, b"", b"error: expected ';'\n");
    let resp = make_compile_response(build, None, b"./program".to_vec());
    assert!(resp.executable.is_none());
    assert_eq!(resp.compile_output.exit_code, 256);
    assert!(!resp.compile_output.stderr.is_empty());

    let combined = combined_response(resp, None);
    assert_eq!(combined.compile.exit_code, 256);
    assert!(combined.execute.is_none());
}

#[test]
fn doubling_scenario_response() {
    // A program that read 21 and wrote 42: the assembled response carries
    // the doubled value on stdout with an accepted verdict.
    let run = execute_response_from(command_output(0, b"42\n", b""), None);
    assert!(matches!(run.verdict, Verdict::Accepted));
    assert_eq!(run.stdout, b"42\n".to_vec());
}

#[test]
fn file_io_run_attaches_file_output() {
    let run = execute_response_from(
        command_output(0, b"", b""),
        Some(b"file answer\n".to_vec()),
    );
    assert_eq!(run.file_output, Some(b"file answer\n".to_vec()));
}

#[test]
fn timed_out_run_is_classified() {
    let run = execute_response_from(command_output(31744, b"", b""), None);
    assert!(matches!(run.verdict, Verdict::TimeLimitExceeded));
}
