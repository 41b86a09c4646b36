use judge_worker::evaluator::evaluate;
use judge_worker::executor::ExecutionOutput;
use judge_worker::result::Verdict;
use judge_worker::text::{str_eq, trim_str};

fn finished(stdout: &str, stderr: &str, exit_code: i32) -> ExecutionOutput {
    ExecutionOutput {
        stdout: stdout.to_string(),
        stderr: stderr.to_string(),
        exit_code,
        timed_out: false,
    }
}

#[test]
fn accepted_when_trimmed_output_matches() {
    let r = evaluate(finished("5\n", "", 0), "5", 10, 100);
    assert_eq!(r.verdict, Verdict::Accepted);
    assert_eq!(r.execution_time_ms, 10);
    assert_eq!(r.memory_used_kb, 0);
    assert_eq!(r.test_case_id, 0);
    assert_eq!(r.output.as_deref(), Some("5\n"));
    assert!(r.error_message.is_none());
}

#[test]
fn wrong_answer_on_mismatch() {
    let r = evaluate(finished("5 \n", "", 0), "6", 10, 100);
    assert_eq!(r.verdict, Verdict::WrongAnswer);
    assert_eq!(r.error_message.as_deref(), Some("Expected:\n6\n\nGot:\n5"));
    assert_eq!(r.output.as_deref(), Some("5 \n"));
}

#[test]
fn accepted_same_text_whatever_surrounding_whitespace() {
    let r = evaluate(finished("  hello world \t\n", "", 0), "  hello world \t\n", 99, 99);
    assert_eq!(r.verdict, Verdict::Accepted);
}

#[test]
fn over_limit_is_time_limit_exceeded_despite_match() {
    let r = evaluate(finished("same", "", 0), "same", 1500, 1000);
    assert_eq!(r.verdict, Verdict::TimeLimitExceeded);
    assert_eq!(r.error_message.as_deref(), Some("Time limit exceeded"));
    assert_eq!(r.execution_time_ms, 1500);
}

#[test]
fn timeout_flag_is_time_limit_exceeded_within_limit() {
    let out = ExecutionOutput {
        stdout: String::new(),
        stderr: "Time limit exceeded".to_string(),
        exit_code: -1,
        timed_out: true,
    };
    let r = evaluate(out, "anything", 5, 1000);
    assert_eq!(r.verdict, Verdict::TimeLimitExceeded);
}

#[test]
fn nonzero_exit_is_runtime_error_despite_matching_output() {
    let r = evaluate(finished("42\n", "segfault", 139), "42", 10, 100);
    assert_eq!(r.verdict, Verdict::RuntimeError);
    assert_eq!(r.error_message.as_deref(), Some("segfault"));
    assert_eq!(r.output.as_deref(), Some("42\n"));
}

#[test]
fn trim_drops_leading_and_trailing_whitespace_only() {
    assert_eq!(trim_str("  a b \t\r\n"), "a b");
    assert_eq!(trim_str("plain"), "plain");
    assert_eq!(trim_str(" \n\t "), "");
    assert_eq!(trim_str(""), "");
    assert_eq!(trim_str("\u{00A0}x\u{3000}"), "x");
}

#[test]
fn str_eq_compares_contents() {
    assert!(str_eq("abc", "abc"));
    assert!(!str_eq("abc", "abd"));
    assert!(!str_eq("abc", "abcd"));
}
