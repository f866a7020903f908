//! The compiler's verified core: choosing the source filename, the build
//! command and the run command for each language, the precompiled-header
//! decision, and assembling the compile response. Writing the source file,
//! spawning the toolchain and archiving its output are I/O and live outside
//! the library.

use vstd::prelude::*;
use vstd::string::StringSliceAdditionalSpecFns;

use crate::run_command::CommandOutput;
use crate::text::contains_bytes;
use crate::text::contains_seq;
use crate::text::lit_bytes;
use crate::text::push_bytes;
use crate::text::push_lit;
use crate::types::b64_decoding;
use crate::types::b64_encoding;
use crate::types::bundle_from_archive;
use crate::types::Executable;
use crate::types::Language;

verus! {

/// Wall-clock limit for one build. Builds are the slow step, so this is
/// generous relative to run timeouts.
pub const COMPILE_TIMEOUT_MS: u32 = 20000;

/// A request to build source text into a portable bundle.
#[derive(Debug)]
pub struct CompileRequest {
    /// Untrusted source text.
    pub source_code: Vec<u8>,
    /// Untrusted compiler flags, passed through to the toolchain.
    pub compiler_options: Vec<u8>,
    pub language: Language,
}

/// The outcome of a build. A user compile error is a normal outcome, not a
/// failure: the bundle is absent and the telemetry carries the diagnostics.
#[derive(Debug)]
pub struct CompileResponse {
    /// The built bundle; absent exactly when the build did not succeed.
    pub executable: Option<Executable>,
    /// Telemetry of the build command.
    pub compile_output: CommandOutput,
}

/// Name of the public class that the Java heuristic finds in source text,
/// if any: a function of the source text alone.
pub uninterp spec fn java_public_class(source: Seq<u8>) -> Option<Seq<u8>>;

/// Relies on regex to find the first `public class <identifier>` in the
/// source text; the result depends on the text alone.
#[verifier::external_body]
fn java_class_name(source: &Vec<u8>) -> (r: Option<Vec<u8>>)
    ensures
        match r {
            Some(c) => java_public_class(source@) == Some(c@),
            None => java_public_class(source@) is None,
        },
{
    let text = String::from_utf8_lossy(source);
    let re = regex::Regex::new(r"public\s+class\s+(\w+)").unwrap();
    re.captures(&text).map(|caps| caps[1].as_bytes().to_vec())
}

/// The source filename each language expects: a fixed name for C++ and
/// Python, and for Java the public class name (or a fallback) with the
/// `.java` suffix.
pub open spec fn spec_source_filename(language: Language, java_class: Option<Seq<u8>>) -> Seq<
    u8,
> {
    match language {
        Language::Cpp => "program.cpp".spec_bytes(),
        Language::Java21 => (match java_class {
            Option::Some(c) => c,
            Option::None => "Main".spec_bytes(),
        }) + ".java".spec_bytes(),
        Language::Py12 => "program.py".spec_bytes(),
    }
}

/// The build command for each language, run from the source directory: the
/// native compiler writing into the output directory, the JVM compiler
/// writing its class files there, or a plain copy of the script.
pub open spec fn spec_build_command(
    language: Language,
    flags: Seq<u8>,
    java_class: Option<Seq<u8>>,
    source_dir: Seq<u8>,
    out_dir: Seq<u8>,
) -> Seq<u8> {
    match language {
        Language::Cpp => "g++ -I/tmp/precompiled-headers -o ".spec_bytes() + out_dir
            + "/program ".spec_bytes() + flags + " program.cpp".spec_bytes(),
        Language::Java21 => "javac -d ".spec_bytes() + out_dir + " ".spec_bytes() + flags
            + " ".spec_bytes() + spec_source_filename(Language::Java21, java_class),
        Language::Py12 => "cp ".spec_bytes() + source_dir + "/program.py ".spec_bytes() + out_dir
            + "/program.py".spec_bytes(),
    }
}

/// The command that runs the unpacked bundle: the binary, the JVM on the
/// class name, or the interpreter on the script.
pub open spec fn spec_run_command(language: Language, java_class: Option<Seq<u8>>) -> Seq<u8> {
    match language {
        Language::Cpp => "./program".spec_bytes(),
        Language::Java21 => "java ".spec_bytes() + (match java_class {
            Option::Some(c) => c,
            Option::None => "Main".spec_bytes(),
        }),
        Language::Py12 => "python3.12 program.py".spec_bytes(),
    }
}

/// Everything the build step needs ahead of any I/O: where to put the
/// source text, what to run to build it, and what will run the result.
#[derive(Debug)]
pub struct CompilePlan {
    /// Filename the source text is written to, inside the source directory.
    pub source_filename: Vec<u8>,
    /// Shell command that performs the build, run from the source
    /// directory.
    pub build_command: Vec<u8>,
    /// Shell command recorded in the bundle to run the built artifact.
    pub run_command: Vec<u8>,
}

/// Lays out the build for one request: the language decides the filename
/// and both commands, and for Java the public-class heuristic picks the
/// filename and entry point.
pub fn compile_plan(req: &CompileRequest, source_dir: &Vec<u8>, out_dir: &Vec<u8>) -> (r:
    CompilePlan)
    ensures
        r.source_filename@ == spec_source_filename(
            req.language,
            java_public_class(req.source_code@),
        ),
        r.build_command@ == spec_build_command(
            req.language,
            req.compiler_options@,
            java_public_class(req.source_code@),
            source_dir@,
            out_dir@,
        ),
        r.run_command@ == spec_run_command(req.language, java_public_class(req.source_code@)),
{
    match req.language {
        Language::Cpp => {
            let source_filename = lit_bytes("program.cpp");
            let mut build_command = lit_bytes("g++ -I/tmp/precompiled-headers -o ");
            push_bytes(&mut build_command, out_dir.as_slice());
            push_lit(&mut build_command, "/program ");
            push_bytes(&mut build_command, req.compiler_options.as_slice());
            push_lit(&mut build_command, " program.cpp");
            let run_command = lit_bytes("./program");
            proof {
                assert(build_command@ =~= spec_build_command(
                    req.language,
                    req.compiler_options@,
                    java_public_class(req.source_code@),
                    source_dir@,
                    out_dir@,
                ));
            }
            CompilePlan { source_filename, build_command, run_command }
        },
        Language::Java21 => {
            let class = match java_class_name(&req.source_code) {
                Some(c) => c,
                None => lit_bytes("Main"),
            };
            let mut source_filename: Vec<u8> = Vec::new();
            push_bytes(&mut source_filename, class.as_slice());
            push_lit(&mut source_filename, ".java");
            let mut build_command = lit_bytes("javac -d ");
            push_bytes(&mut build_command, out_dir.as_slice());
            push_lit(&mut build_command, " ");
            push_bytes(&mut build_command, req.compiler_options.as_slice());
            push_lit(&mut build_command, " ");
            push_bytes(&mut build_command, source_filename.as_slice());
            let mut run_command = lit_bytes("java ");
            push_bytes(&mut run_command, class.as_slice());
            proof {
                assert(source_filename@ =~= spec_source_filename(
                    req.language,
                    java_public_class(req.source_code@),
                ));
                assert(build_command@ =~= spec_build_command(
                    req.language,
                    req.compiler_options@,
                    java_public_class(req.source_code@),
                    source_dir@,
                    out_dir@,
                ));
                assert(run_command@ =~= spec_run_command(
                    req.language,
                    java_public_class(req.source_code@),
                ));
            }
            CompilePlan { source_filename, build_command, run_command }
        },
        Language::Py12 => {
            let source_filename = lit_bytes("program.py");
            let mut build_command = lit_bytes("cp ");
            push_bytes(&mut build_command, source_dir.as_slice());
            push_lit(&mut build_command, "/program.py ");
            push_bytes(&mut build_command, out_dir.as_slice());
            push_lit(&mut build_command, "/program.py");
            let run_command = lit_bytes("python3.12 program.py");
            proof {
                assert(build_command@ =~= spec_build_command(
                    req.language,
                    req.compiler_options@,
                    java_public_class(req.source_code@),
                    source_dir@,
                    out_dir@,
                ));
            }
            CompilePlan { source_filename, build_command, run_command }
        },
    }
}

/// Whether this request is the one fixed combination whose standard-library
/// header is worth precompiling: the native language, optimized, on the
/// pinned language version, and actually including the big header. A cache
/// miss or failure must degrade to a slower build, never fail the request.
pub fn wants_precompiled_header(req: &CompileRequest) -> (r: bool)
    ensures
        r == (req.language is Cpp && contains_seq(req.compiler_options@, "-O2".spec_bytes())
            && contains_seq(req.compiler_options@, "-std=c++23".spec_bytes()) && contains_seq(
            req.source_code@,
            "#include <bits/stdc++.h>".spec_bytes(),
        )),
{
    let is_cpp = match req.language {
        Language::Cpp => true,
        Language::Java21 => false,
        Language::Py12 => false,
    };
    if !is_cpp {
        return false;
    }
    let o2 = lit_bytes("-O2");
    if !contains_bytes(req.compiler_options.as_slice(), o2.as_slice()) {
        return false;
    }
    let std_flag = lit_bytes("-std=c++23");
    if !contains_bytes(req.compiler_options.as_slice(), std_flag.as_slice()) {
        return false;
    }
    let big_header = lit_bytes("#include <bits/stdc++.h>");
    contains_bytes(req.source_code.as_slice(), big_header.as_slice())
}

/// Where the precompiled header for the pinned flag combination is cached.
pub fn precompiled_header_path() -> (r: Vec<u8>)
    ensures
        r@ == "/tmp/precompiled-headers/bits/stdc++.h.gch/23".spec_bytes(),
{
    lit_bytes("/tmp/precompiled-headers/bits/stdc++.h.gch/23")
}

/// Whether a build's raw wait status means the build succeeded and its
/// output is worth bundling.
pub fn compile_succeeded(wait_status: i32) -> (r: bool)
    ensures
        r == (wait_status == 0),
{
    wait_status == 0
}

/// Assembles the compile response. A failed user compile is a normal,
/// reportable outcome: the caller hands in the archived build output
/// exactly when the build exited with status zero, and the response carries
/// a bundle exactly then — never on a failed build.
pub fn make_compile_response(
    compile_output: CommandOutput,
    archive: Option<Vec<u8>>,
    run_command: Vec<u8>,
) -> (r: CompileResponse)
    requires
        archive is Some <==> compile_output.exit_code == 0,
        (match archive {
            Some(a) => a@.len() <= usize::MAX / 4,
            None => true,
        }),
    ensures
        r.compile_output == compile_output,
        r.executable is Some <==> r.compile_output.exit_code == 0,
        (match (archive, r.executable) {
            (Some(a), Some(e)) => {
                &&& e.files@ == b64_encoding(a@)
                &&& b64_decoding(e.files@) == Some(a@)
                &&& e.run_command == run_command
            },
            (None, None) => true,
            _ => false,
        }),
{
    match archive {
        Some(a) => CompileResponse {
            executable: Some(bundle_from_archive(&a, run_command)),
            compile_output,
        },
        None => CompileResponse { executable: None, compile_output },
    }
}

} // verus!
