//! Per-language execution plans for the sandbox, and the record of what one
//! sandbox step produced.
//!
//! A plan names, for each step, the container image, the argument vector run
//! inside the container, whether the test case's input is piped to standard
//! input, the step's resource limits, and the fixed in-container path the
//! scratch directory is mounted at. The binary turns each step into one
//! sandbox-process invocation; nothing here touches a process.

use vstd::prelude::*;
use vstd::string::StringExecFns;
use crate::config::ExecutionConfig;
use crate::result::{TestResult, Verdict};
use crate::submission::SubmissionLanguage;
use crate::text::{dec_int, i64_to_dec};

verus! {

/// Ceiling for every compile step, independent of the submission's limits.
pub const COMPILE_TIME_LIMIT_MS: u64 = 10000;

/// Memory ceiling for every compile step, in megabytes.
pub const COMPILE_MEMORY_LIMIT_MB: i64 = 1024;

/// What one sandbox step produced: the captured streams, the exit status,
/// and whether the step's own time limit won the race against the process.
#[derive(Clone, Debug)]
pub struct ExecutionOutput {
    pub stdout: String,
    pub stderr: String,
    pub exit_code: i32,
    pub timed_out: bool,
}

impl ExecutionOutput {
    /// The record of a process that ran to completion within its time limit.
    pub fn completed(stdout: String, stderr: String, exit_code: i32) -> (r: ExecutionOutput)
        ensures
            r.stdout == stdout,
            r.stderr == stderr,
            r.exit_code == exit_code,
            !r.timed_out,
    {
        ExecutionOutput { stdout, stderr, exit_code, timed_out: false }
    }

    /// The record of a step whose process could not be spawned or piped at
    /// all; `detail` is the reported reason.
    pub fn spawn_failure(detail: &str) -> (r: ExecutionOutput)
        ensures
            r.stdout@ == Seq::<char>::empty(),
            r.stderr@ == "Execution error: "@ + detail@,
            r.exit_code == -1,
            !r.timed_out,
    {
        let mut stderr = String::from_str("Execution error: ");
        stderr.append(detail);
        ExecutionOutput { stdout: String::new(), stderr, exit_code: -1, timed_out: false }
    }

    /// The record of a step whose supervising task was lost.
    pub fn join_failure() -> (r: ExecutionOutput)
        ensures
            r.stdout@ == Seq::<char>::empty(),
            r.stderr@ == "Internal error"@,
            r.exit_code == -1,
            !r.timed_out,
    {
        ExecutionOutput {
            stdout: String::new(),
            stderr: String::from_str("Internal error"),
            exit_code: -1,
            timed_out: false,
        }
    }

    /// The record of a step whose time limit won the race.
    pub fn timeout() -> (r: ExecutionOutput)
        ensures
            r.stdout@ == Seq::<char>::empty(),
            r.stderr@ == "Time limit exceeded"@,
            r.exit_code == -1,
            r.timed_out,
    {
        ExecutionOutput {
            stdout: String::new(),
            stderr: String::from_str("Time limit exceeded"),
            exit_code: -1,
            timed_out: true,
        }
    }
}

/// One sandbox-process invocation: image, in-container command, what goes to
/// standard input, the step's limits, and where the scratch directory is
/// mounted inside the container.
#[derive(Clone, Debug)]
pub struct SandboxStep {
    pub image: String,
    pub command: Vec<String>,
    pub uses_case_input: bool,
    pub time_limit_ms: u64,
    pub memory_limit_mb: i64,
    pub mount_point: String,
}

/// The two pipeline shapes, plus the case of a language the judge declares
/// but cannot execute.
#[derive(Clone, Debug)]
pub enum ExecutionPlan {
    Unsupported,
    RunOnly(SandboxStep),
    CompileThenRun(SandboxStep, SandboxStep),
}

/// What a step must look like.
pub open spec fn step_shape(
    s: SandboxStep,
    image: Seq<char>,
    command: Seq<Seq<char>>,
    uses_case_input: bool,
    time_limit_ms: u64,
    memory_limit_mb: i64,
) -> bool {
    &&& s.image@ == image
    &&& s.command.deep_view() == command
    &&& s.uses_case_input == uses_case_input
    &&& s.time_limit_ms == time_limit_ms
    &&& s.memory_limit_mb == memory_limit_mb
    &&& s.mount_point@ == "/app"@
}

/// Python's single run step: the interpreter on the canonical source file,
/// under the submission's own limits, fed the case's input.
pub open spec fn python_run_step(s: SandboxStep, time_limit_ms: u64, memory_limit_mb: i64) -> bool {
    step_shape(
        s,
        "klaus-judge-python:latest"@,
        seq!["python"@, "solution.py"@],
        true,
        time_limit_ms,
        memory_limit_mb,
    )
}

/// The C++ compile step: fixed generous ceilings, nothing on standard input.
pub open spec fn cpp_compile_step(s: SandboxStep) -> bool {
    step_shape(
        s,
        "klaus-judge-cpp:latest"@,
        seq!["g++"@, "-o"@, "solution"@, "solution.cpp"@],
        false,
        COMPILE_TIME_LIMIT_MS,
        COMPILE_MEMORY_LIMIT_MB,
    )
}

/// The C++ run step: the produced executable under the submission's limits.
pub open spec fn cpp_run_step(s: SandboxStep, time_limit_ms: u64, memory_limit_mb: i64) -> bool {
    step_shape(
        s,
        "klaus-judge-cpp:latest"@,
        seq!["./solution"@],
        true,
        time_limit_ms,
        memory_limit_mb,
    )
}

/// The plan each language gets: run-only for Python, compile-then-run for
/// C++, and no execution at all for the declared but unimplemented languages.
pub open spec fn plan_shape(
    p: ExecutionPlan,
    language: SubmissionLanguage,
    time_limit_ms: u64,
    memory_limit_mb: i64,
) -> bool {
    match language {
        SubmissionLanguage::Python => p matches ExecutionPlan::RunOnly(s) && python_run_step(
            s,
            time_limit_ms,
            memory_limit_mb,
        ),
        SubmissionLanguage::Cpp => p matches ExecutionPlan::CompileThenRun(c, r)
            && cpp_compile_step(c) && cpp_run_step(r, time_limit_ms, memory_limit_mb),
        SubmissionLanguage::Java => p is Unsupported,
        SubmissionLanguage::Rust => p is Unsupported,
    }
}

/// Plans sandbox executions. Holds the execution configuration; the scratch
/// directory root and the cleanup flag in it are read by the binary when it
/// carries a plan out.
pub struct Executor {
    pub config: ExecutionConfig,
}

impl Executor {
    /// An executor over the given configuration.
    pub fn new(config: ExecutionConfig) -> (r: Executor)
        ensures
            r.config == config,
    {
        Executor { config }
    }

    /// The step sequence for one test of one submission, under the case's
    /// effective limits.
    pub fn plan_execution(
        &self,
        language: &SubmissionLanguage,
        time_limit_ms: u64,
        memory_limit_mb: i64,
    ) -> (p: ExecutionPlan)
        ensures
            plan_shape(p, *language, time_limit_ms, memory_limit_mb),
    {
        match language {
            SubmissionLanguage::Python => {
                let command = vec![String::from_str("python"), String::from_str("solution.py")];
                proof {
                    assert(command.deep_view() =~= seq!["python"@, "solution.py"@]);
                }
                ExecutionPlan::RunOnly(
                    SandboxStep {
                        image: String::from_str("klaus-judge-python:latest"),
                        command,
                        uses_case_input: true,
                        time_limit_ms,
                        memory_limit_mb,
                        mount_point: String::from_str("/app"),
                    },
                )
            },
            SubmissionLanguage::Cpp => {
                let compile_command = vec![
                    String::from_str("g++"),
                    String::from_str("-o"),
                    String::from_str("solution"),
                    String::from_str("solution.cpp"),
                ];
                let run_command = vec![String::from_str("./solution")];
                proof {
                    assert(compile_command.deep_view() =~= seq![
                        "g++"@,
                        "-o"@,
                        "solution"@,
                        "solution.cpp"@,
                    ]);
                    assert(run_command.deep_view() =~= seq!["./solution"@]);
                }
                ExecutionPlan::CompileThenRun(
                    SandboxStep {
                        image: String::from_str("klaus-judge-cpp:latest"),
                        command: compile_command,
                        uses_case_input: false,
                        time_limit_ms: COMPILE_TIME_LIMIT_MS,
                        memory_limit_mb: COMPILE_MEMORY_LIMIT_MB,
                        mount_point: String::from_str("/app"),
                    },
                    SandboxStep {
                        image: String::from_str("klaus-judge-cpp:latest"),
                        command: run_command,
                        uses_case_input: true,
                        time_limit_ms,
                        memory_limit_mb,
                        mount_point: String::from_str("/app"),
                    },
                )
            },
            SubmissionLanguage::Java => ExecutionPlan::Unsupported,
            SubmissionLanguage::Rust => ExecutionPlan::Unsupported,
        }
    }
}

/// The argument vector of the sandbox-runtime invocation that carries a step
/// out: a one-off container, network disabled, the step's memory ceiling, one
/// CPU, the scratch directory bind-mounted read-write at the step's fixed
/// in-container path, then the image and the in-container command.
pub open spec fn docker_args_spec(step: SandboxStep, host_dir: Seq<char>) -> Seq<Seq<char>> {
    seq![
        "run"@,
        "--rm"@,
        "--network=none"@,
        "--memory="@ + dec_int(step.memory_limit_mb as int) + "m"@,
        "--cpus=1"@,
        "-v"@,
        host_dir + ":"@ + step.mount_point@ + ":rw"@,
        step.image@,
    ] + step.command.deep_view()
}

/// Build the sandbox-runtime argument vector for one step, given the host
/// path of the scratch directory.
pub fn docker_args(step: &SandboxStep, host_dir: &str) -> (args: Vec<String>)
    ensures
        args.deep_view() == docker_args_spec(*step, host_dir@),
{
    let mut args: Vec<String> = Vec::new();
    args.push(String::from_str("run"));
    args.push(String::from_str("--rm"));
    args.push(String::from_str("--network=none"));
    let mut memory = String::from_str("--memory=");
    memory.append(i64_to_dec(step.memory_limit_mb).as_str());
    memory.append("m");
    args.push(memory);
    args.push(String::from_str("--cpus=1"));
    args.push(String::from_str("-v"));
    let mut mount = String::from_str(host_dir);
    mount.append(":");
    mount.append(step.mount_point.as_str());
    mount.append(":rw");
    args.push(mount);
    args.push(step.image.clone());
    let ghost head = args.deep_view();
    proof {
        assert(head =~~= docker_args_spec(*step, host_dir@).take(8));
        assert(head + step.command.deep_view().take(0) =~~= head);
    }
    let mut i: usize = 0;
    while i < step.command.len()
        invariant
            0 <= i <= step.command@.len(),
            args.deep_view() == head + step.command.deep_view().take(i as int),
        decreases step.command@.len() - i,
    {
        let ghost pre = args@;
        let ghost pre_dv = args.deep_view();
        let element = step.command[i].clone();
        args.push(element);
        proof {
            assert(args@ == pre.push(step.command@[i as int]));
            assert(step.command.deep_view()[i as int] == step.command@[i as int]@);
            assert(pre_dv == head + step.command.deep_view().take(i as int));
            assert(pre_dv.len() == pre.len());
            assert(step.command.deep_view().len() == step.command@.len());
            assert(pre.len() == head.len() + i);
            assert((head + step.command.deep_view().take(i + 1)).len() == pre.len() + 1);
            assert forall|j: int| 0 <= j < args@.len() implies args.deep_view()[j] == (head
                + step.command.deep_view().take(i + 1))[j] by {
                assert(args.deep_view()[j] == args@[j]@);
                if j < pre.len() {
                    assert(args@[j] == pre[j]);
                    assert(pre_dv[j] == pre[j]@);
                } else {
                    assert(args@[j] == step.command@[i as int]);
                }
            }
            assert(args.deep_view() =~~= head + step.command.deep_view().take(i + 1));
        }
        i = i + 1;
    }
    proof {
        assert(step.command.deep_view().take(step.command@.len() as int) =~~= step.command.deep_view());
        assert(args.deep_view() =~~= docker_args_spec(*step, host_dir@));
    }
    args
}

/// Whether a finished compile step stops the pipeline: it does exactly when
/// the compiler exited non-zero, and the compile output then goes to the
/// evaluator in place of a run.
pub fn compile_halts(output: &ExecutionOutput) -> (r: bool)
    ensures
        r == (output.exit_code != 0),
{
    output.exit_code != 0
}

/// The result recorded for a language the judge declares but cannot execute.
pub fn unsupported_language_result() -> (r: TestResult)
    ensures
        r.test_case_id == 0,
        r.verdict == Verdict::SystemError,
        r.execution_time_ms == 0,
        r.memory_used_kb == 0,
        r.output is None,
        r.error_message matches Some(m) && m@ == "Language not implemented"@,
{
    TestResult {
        test_case_id: 0,
        verdict: Verdict::SystemError,
        execution_time_ms: 0,
        memory_used_kb: 0,
        output: None,
        error_message: Some(String::from_str("Language not implemented")),
    }
}

} // verus!
