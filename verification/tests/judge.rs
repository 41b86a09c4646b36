use judge_worker::judge::{pause_after, parse_submission_id, JudgeState, LoopEvent, ERROR_BACKOFF_MS};
use judge_worker::result::{TestResult, Verdict};
use judge_worker::test_case::TestCase;

fn result_with(verdict: Verdict, time_ms: u64, memory_kb: i64) -> TestResult {
    TestResult {
        test_case_id: 1,
        verdict,
        execution_time_ms: time_ms,
        memory_used_kb: memory_kb,
        output: None,
        error_message: None,
    }
}

#[test]
fn all_accepted_and_complete_is_accepted() {
    let mut st = JudgeState::start(7, 2);
    assert!(!st.is_done());
    assert_eq!(st.next_case_index(), Some(0));
    st.record(result_with(Verdict::Accepted, 10, 100));
    assert!(!st.is_done());
    assert_eq!(st.next_case_index(), Some(1));
    st.record(result_with(Verdict::Accepted, 5, 50));
    assert!(st.is_done());
    assert_eq!(st.next_case_index(), None);
    let out = st.finish(None);
    assert_eq!(out.final_verdict, Verdict::Accepted);
    assert_eq!(out.total_time_ms, 15);
    assert_eq!(out.max_memory_kb, 100);
    assert_eq!(out.test_results.len(), 2);
    assert_eq!(out.passed_tests(), 2);
    assert_eq!(out.total_tests(), 2);
    assert_eq!(out.submission_id, 7);
    assert!(out.compilation_output.is_none());
}

#[test]
fn first_failure_halts_and_fixes_the_verdict() {
    let mut st = JudgeState::start(9, 3);
    st.record(result_with(Verdict::Accepted, 10, 0));
    st.record(result_with(Verdict::WrongAnswer, 7, 0));
    assert!(st.is_done());
    assert_eq!(st.next_case_index(), None);
    let out = st.finish(None);
    assert_eq!(out.final_verdict, Verdict::WrongAnswer);
    assert_eq!(out.test_results.len(), 2);
    assert_eq!(out.total_time_ms, 17);
    assert_eq!(out.passed_tests(), 1);
}

#[test]
fn incomplete_accepted_run_is_not_done() {
    let mut st = JudgeState::start(9, 3);
    st.record(result_with(Verdict::Accepted, 1, 0));
    st.record(result_with(Verdict::Accepted, 1, 0));
    assert!(!st.is_done());
    assert_eq!(st.next_case_index(), Some(2));
}

#[test]
fn empty_problem_short_circuits_to_system_error() {
    let st = JudgeState::start(3, 0);
    assert!(st.is_done());
    assert_eq!(st.next_case_index(), None);
    let out = st.finish(None);
    assert_eq!(out.final_verdict, Verdict::SystemError);
    assert_eq!(out.total_time_ms, 0);
    assert_eq!(out.max_memory_kb, 0);
    assert_eq!(out.test_results.len(), 0);
}

#[test]
fn total_time_sums_only_produced_results() {
    let mut st = JudgeState::start(5, 4);
    st.record(result_with(Verdict::Accepted, 11, 0));
    st.record(result_with(Verdict::TimeLimitExceeded, 1000, 0));
    assert!(st.is_done());
    let out = st.finish(None);
    assert_eq!(out.final_verdict, Verdict::TimeLimitExceeded);
    assert_eq!(out.total_time_ms, 1011);
    assert_eq!(out.test_results.len(), 2);
}

#[test]
fn peak_memory_is_the_maximum_over_produced_results() {
    let mut st = JudgeState::start(5, 3);
    st.record(result_with(Verdict::Accepted, 1, 20));
    st.record(result_with(Verdict::Accepted, 1, 80));
    st.record(result_with(Verdict::Accepted, 1, 40));
    let out = st.finish(None);
    assert_eq!(out.max_memory_kb, 80);
}

#[test]
fn parse_submission_id_accepts_a_hyphenated_uuid() {
    let u = uuid::Uuid::parse_str("67e55044-10b1-426f-9247-bb680e5fe0c8").unwrap();
    assert_eq!(
        parse_submission_id("67e55044-10b1-426f-9247-bb680e5fe0c8"),
        Some(u.as_u128())
    );
}

#[test]
fn parse_submission_id_rejects_garbage() {
    assert_eq!(parse_submission_id("not-a-uuid"), None);
    assert_eq!(parse_submission_id(""), None);
}

#[test]
fn pause_after_each_loop_outcome() {
    assert_eq!(pause_after(LoopEvent::NoJob, 1000), Some(1000));
    assert_eq!(pause_after(LoopEvent::JobHandled, 1000), None);
    assert_eq!(pause_after(LoopEvent::JobFailed, 1000), Some(ERROR_BACKOFF_MS));
    assert_eq!(ERROR_BACKOFF_MS, 5000);
}

#[test]
fn effective_limits_prefer_usable_overrides() {
    let case = TestCase {
        id: 1,
        problem_id: 2,
        input: String::new(),
        expected_output: String::new(),
        time_limit: Some(2000),
        memory_limit: Some(512),
        is_sample: false,
    };
    assert_eq!(case.effective_time_limit_ms(5000), 2000);
    assert_eq!(case.effective_memory_limit_mb(256), 512);

    let defaulted = TestCase { time_limit: None, memory_limit: None, ..case };
    assert_eq!(defaulted.effective_time_limit_ms(5000), 5000);
    assert_eq!(defaulted.effective_memory_limit_mb(256), 256);

    let negative = TestCase { time_limit: Some(-1), memory_limit: None, ..defaulted };
    assert_eq!(negative.effective_time_limit_ms(5000), 5000);
}
