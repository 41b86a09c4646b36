//! Mapping one finished execution to a verdict.
//!
//! The rules apply in strict precedence: a timeout (either the step's own
//! timeout signal or measured wall-clock time over the limit) beats
//! everything; then a non-zero exit code; only then is the captured standard
//! output compared, after a single full-string trim on both sides, against
//! the expected text. No partial credit, no further normalisation.

use vstd::prelude::*;
use vstd::string::StringExecFns;
use crate::executor::ExecutionOutput;
use crate::result::{TestResult, Verdict};
use crate::text::{str_eq, trim_spec, trim_str};

verus! {

/// The verdict the precedence rules assign to one finished execution.
pub open spec fn eval_verdict(
    timed_out: bool,
    exit_code: i32,
    stdout: Seq<char>,
    expected: Seq<char>,
    elapsed_ms: u64,
    time_limit_ms: u64,
) -> Verdict {
    if timed_out || elapsed_ms > time_limit_ms {
        Verdict::TimeLimitExceeded
    } else if exit_code != 0 {
        Verdict::RuntimeError
    } else if trim_spec(stdout) == trim_spec(expected) {
        Verdict::Accepted
    } else {
        Verdict::WrongAnswer
    }
}

/// The message recorded with a wrong answer: both trimmed texts, expected
/// first.
pub open spec fn wrong_answer_message(expected: Seq<char>, actual: Seq<char>) -> Seq<char> {
    "Expected:\n"@ + expected + "\n\nGot:\n"@ + actual
}

/// Turn one finished execution into the result recorded for its test case.
/// The caller stamps the test case's identifier on afterwards; memory is
/// never measured and is reported as zero.
pub fn evaluate(
    output: ExecutionOutput,
    expected: &str,
    elapsed_ms: u64,
    time_limit_ms: u64,
) -> (r: TestResult)
    ensures
        r.verdict == eval_verdict(
            output.timed_out,
            output.exit_code,
            output.stdout@,
            expected@,
            elapsed_ms,
            time_limit_ms,
        ),
        r.test_case_id == 0,
        r.execution_time_ms == elapsed_ms,
        r.memory_used_kb == 0,
        r.output matches Some(o) && o@ == output.stdout@,
        r.verdict == Verdict::TimeLimitExceeded ==> (r.error_message matches Some(m) && m@
            == "Time limit exceeded"@),
        r.verdict == Verdict::RuntimeError ==> (r.error_message matches Some(m) && m@
            == output.stderr@),
        r.verdict == Verdict::Accepted ==> r.error_message is None,
        r.verdict == Verdict::WrongAnswer ==> (r.error_message matches Some(m) && m@
            == wrong_answer_message(trim_spec(expected@), trim_spec(output.stdout@))),
{
    if output.timed_out || elapsed_ms > time_limit_ms {
        return TestResult {
            test_case_id: 0,
            verdict: Verdict::TimeLimitExceeded,
            execution_time_ms: elapsed_ms,
            memory_used_kb: 0,
            output: Some(output.stdout),
            error_message: Some(String::from_str("Time limit exceeded")),
        };
    }
    if output.exit_code != 0 {
        return TestResult {
            test_case_id: 0,
            verdict: Verdict::RuntimeError,
            execution_time_ms: elapsed_ms,
            memory_used_kb: 0,
            output: Some(output.stdout),
            error_message: Some(output.stderr),
        };
    }
    let actual_trimmed = trim_str(output.stdout.as_str()).to_owned();
    let expected_trimmed = trim_str(expected).to_owned();
    if str_eq(actual_trimmed.as_str(), expected_trimmed.as_str()) {
        TestResult {
            test_case_id: 0,
            verdict: Verdict::Accepted,
            execution_time_ms: elapsed_ms,
            memory_used_kb: 0,
            output: Some(output.stdout),
            error_message: None,
        }
    } else {
        let mut message = String::from_str("Expected:\n");
        message.append(expected_trimmed.as_str());
        message.append("\n\nGot:\n");
        message.append(actual_trimmed.as_str());
        proof {
            assert(message@ =~= wrong_answer_message(trim_spec(expected@), trim_spec(
                output.stdout@,
            )));
        }
        TestResult {
            test_case_id: 0,
            verdict: Verdict::WrongAnswer,
            execution_time_ms: elapsed_ms,
            memory_used_kb: 0,
            output: Some(output.stdout),
            error_message: Some(message),
        }
    }
}

/// A run that finishes in time, exits cleanly, and prints the expected text
/// itself — whatever leading and trailing white space both copies share — is
/// accepted.
pub proof fn lemma_identical_output_accepted(text: Seq<char>, elapsed_ms: u64, time_limit_ms: u64)
    requires
        elapsed_ms <= time_limit_ms,
    ensures
        eval_verdict(false, 0, text, text, elapsed_ms, time_limit_ms) == Verdict::Accepted,
{
}

/// More generally: any run in time, exiting cleanly, whose output equals the
/// expected text after the single trim on both sides, is accepted.
pub proof fn lemma_matching_output_accepted(
    stdout: Seq<char>,
    expected: Seq<char>,
    elapsed_ms: u64,
    time_limit_ms: u64,
)
    requires
        elapsed_ms <= time_limit_ms,
        trim_spec(stdout) == trim_spec(expected),
    ensures
        eval_verdict(false, 0, stdout, expected, elapsed_ms, time_limit_ms) == Verdict::Accepted,
{
}

/// Over the time limit — by the step's own timeout signal or by measured
/// wall-clock time — the verdict is a time-limit exceeded, whatever the
/// output, the expected text or the exit code.
pub proof fn lemma_overtime_always_exceeds(
    timed_out: bool,
    exit_code: i32,
    stdout: Seq<char>,
    expected: Seq<char>,
    elapsed_ms: u64,
    time_limit_ms: u64,
)
    requires
        timed_out || elapsed_ms > time_limit_ms,
    ensures
        eval_verdict(timed_out, exit_code, stdout, expected, elapsed_ms, time_limit_ms)
            == Verdict::TimeLimitExceeded,
{
}

/// A non-zero exit code within the time limit is a runtime error even when
/// the output happens to match the expected text: exit status takes
/// precedence over content.
pub proof fn lemma_exit_code_precedes_content(
    exit_code: i32,
    stdout: Seq<char>,
    expected: Seq<char>,
    elapsed_ms: u64,
    time_limit_ms: u64,
)
    requires
        exit_code != 0,
        elapsed_ms <= time_limit_ms,
        trim_spec(stdout) == trim_spec(expected),
    ensures
        eval_verdict(false, exit_code, stdout, expected, elapsed_ms, time_limit_ms)
            == Verdict::RuntimeError,
{
}

} // verus!
