use judge_worker::config::ExecutionConfig;
use judge_worker::executor::{
    compile_halts, unsupported_language_result, ExecutionOutput, ExecutionPlan, Executor,
    SandboxStep, COMPILE_MEMORY_LIMIT_MB, COMPILE_TIME_LIMIT_MS,
};
use judge_worker::result::Verdict;
use judge_worker::submission::SubmissionLanguage;
use judge_worker::text::{i64_to_dec, u64_to_dec};

fn executor() -> Executor {
    Executor::new(ExecutionConfig {
        work_dir: "/tmp/judge".to_string(),
        default_time_limit_ms: 5000,
        default_memory_limit_mb: 256,
        max_output_size_kb: 1024,
        cleanup_on_success: true,
    })
}

fn commands(step: &SandboxStep) -> Vec<&str> {
    step.command.iter().map(|c| c.as_str()).collect()
}

#[test]
fn python_gets_a_single_run_step() {
    match executor().plan_execution(&SubmissionLanguage::Python, 2000, 128) {
        ExecutionPlan::RunOnly(step) => {
            assert_eq!(step.image.as_str(), "klaus-judge-python:latest");
            assert_eq!(commands(&step), vec!["python", "solution.py"]);
            assert!(step.uses_case_input);
            assert_eq!(step.time_limit_ms, 2000);
            assert_eq!(step.memory_limit_mb, 128);
            assert_eq!(step.mount_point.as_str(), "/app");
        }
        _ => panic!("expected a run-only plan for Python"),
    }
}

#[test]
fn cpp_gets_compile_then_run() {
    match executor().plan_execution(&SubmissionLanguage::Cpp, 2000, 128) {
        ExecutionPlan::CompileThenRun(compile, run) => {
            assert_eq!(compile.image.as_str(), "klaus-judge-cpp:latest");
            assert_eq!(commands(&compile), vec!["g++", "-o", "solution", "solution.cpp"]);
            assert!(!compile.uses_case_input);
            assert_eq!(compile.time_limit_ms, COMPILE_TIME_LIMIT_MS);
            assert_eq!(compile.time_limit_ms, 10000);
            assert_eq!(compile.memory_limit_mb, COMPILE_MEMORY_LIMIT_MB);
            assert_eq!(compile.memory_limit_mb, 1024);
            assert_eq!(compile.mount_point.as_str(), "/app");

            assert_eq!(run.image.as_str(), "klaus-judge-cpp:latest");
            assert_eq!(commands(&run), vec!["./solution"]);
            assert!(run.uses_case_input);
            assert_eq!(run.time_limit_ms, 2000);
            assert_eq!(run.memory_limit_mb, 128);
        }
        _ => panic!("expected a compile-then-run plan for C++"),
    }
}

#[test]
fn declared_but_unimplemented_languages_get_no_plan() {
    assert!(matches!(
        executor().plan_execution(&SubmissionLanguage::Java, 2000, 128),
        ExecutionPlan::Unsupported
    ));
    assert!(matches!(
        executor().plan_execution(&SubmissionLanguage::Rust, 2000, 128),
        ExecutionPlan::Unsupported
    ));
}

#[test]
fn unsupported_language_result_is_a_zero_time_system_error() {
    let r = unsupported_language_result();
    assert_eq!(r.verdict, Verdict::SystemError);
    assert_eq!(r.execution_time_ms, 0);
    assert_eq!(r.memory_used_kb, 0);
    assert!(r.output.is_none());
    assert_eq!(r.error_message.as_deref(), Some("Language not implemented"));
}

#[test]
fn compile_halts_exactly_on_nonzero_exit() {
    let ok = ExecutionOutput::completed("".to_string(), "".to_string(), 0);
    let bad = ExecutionOutput::completed("".to_string(), "error: expected ';'".to_string(), 1);
    assert!(!compile_halts(&ok));
    assert!(compile_halts(&bad));
}

#[test]
fn execution_output_constructors() {
    let done = ExecutionOutput::completed("out".to_string(), "err".to_string(), 3);
    assert_eq!(done.stdout, "out");
    assert_eq!(done.stderr, "err");
    assert_eq!(done.exit_code, 3);
    assert!(!done.timed_out);

    let spawn = ExecutionOutput::spawn_failure("no such binary");
    assert_eq!(spawn.stdout, "");
    assert_eq!(spawn.stderr, "Execution error: no such binary");
    assert_eq!(spawn.exit_code, -1);
    assert!(!spawn.timed_out);

    let join = ExecutionOutput::join_failure();
    assert_eq!(join.stderr, "Internal error");
    assert_eq!(join.exit_code, -1);
    assert!(!join.timed_out);

    let late = ExecutionOutput::timeout();
    assert_eq!(late.stdout, "");
    assert_eq!(late.stderr, "Time limit exceeded");
    assert_eq!(late.exit_code, -1);
    assert!(late.timed_out);
}

#[test]
fn docker_args_spell_out_one_invocation() {
    let step = SandboxStep {
        image: "klaus-judge-python:latest".to_string(),
        command: vec!["python".to_string(), "solution.py".to_string()],
        uses_case_input: true,
        time_limit_ms: 2000,
        memory_limit_mb: 128,
        mount_point: "/app".to_string(),
    };
    let args = judge_worker::executor::docker_args(&step, "/tmp/judge/run_1");
    assert_eq!(
        args,
        vec![
            "run",
            "--rm",
            "--network=none",
            "--memory=128m",
            "--cpus=1",
            "-v",
            "/tmp/judge/run_1:/app:rw",
            "klaus-judge-python:latest",
            "python",
            "solution.py",
        ]
    );
}

#[test]
fn decimal_rendering() {
    assert_eq!(u64_to_dec(0), "0");
    assert_eq!(u64_to_dec(7), "7");
    assert_eq!(u64_to_dec(10), "10");
    assert_eq!(u64_to_dec(256), "256");
    assert_eq!(u64_to_dec(u64::MAX), "18446744073709551615");
    assert_eq!(i64_to_dec(-1), "-1");
    assert_eq!(i64_to_dec(1024), "1024");
    assert_eq!(i64_to_dec(i64::MIN), "-9223372036854775808");
}
