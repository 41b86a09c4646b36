//! The judging loop's decisions: decoding a claimed job, the fail-fast
//! aggregation over a submission's test cases, and the pacing of the polling
//! loop.
//!
//! Judging one submission is an explicit state machine. `JudgeState::start`
//! opens the run over the fetched test-case count; as long as the machine is
//! not done, the next case (in fetched order) is executed and its result
//! handed to `record`; `finish` closes the run into the aggregate that is
//! persisted. The binary drives the machine and performs the sandbox and
//! persistence calls between steps.

use vstd::prelude::*;
use crate::result::{SubmissionResult, TestResult, Verdict, peak_memory, sum_times};

verus! {

/// How long the loop backs off after an error while judging, distinct from
/// and longer than the normal poll interval, in milliseconds.
pub const ERROR_BACKOFF_MS: u64 = 5000;

/// Name for the identifier value that the textual forms of a UUID parse to;
/// the result depends on the characters alone.
pub uninterp spec fn uuid_of_str(s: Seq<char>) -> Option<u128>;

/// Relies on `uuid::Uuid::parse_str` to recognise the textual UUID forms,
/// and on `uuid::Uuid::as_u128` for the 128-bit value of what was parsed.
#[verifier::external_body]
fn parse_uuid_u128(s: &str) -> (r: Option<u128>)
    ensures
        r == uuid_of_str(s@),
{
    match uuid::Uuid::parse_str(s) {
        Ok(u) => Some(u.as_u128()),
        Err(_) => None,
    }
}

/// Decode a claimed job's raw payload as a submission identifier. A payload
/// that is no UUID yields nothing: the iteration is abandoned and the job,
/// already removed from the queue, is lost.
pub fn parse_submission_id(payload: &str) -> (r: Option<u128>)
    ensures
        r == uuid_of_str(payload@),
{
    parse_uuid_u128(payload)
}

/// What one iteration of the polling loop ended as.
#[derive(Clone, Copy, Debug, PartialEq, Eq, Structural)]
pub enum LoopEvent {
    /// The queue delivered nothing within the pop's bounded wait.
    NoJob,
    /// A job was claimed and handled, well or badly but under control.
    JobHandled,
    /// Handling a job failed in an uncontrolled way.
    JobFailed,
}

/// How long the loop pauses before its next iteration: the poll interval
/// after an empty poll, the fixed backoff after a failure, and nothing after
/// a handled job.
pub open spec fn pause_after_spec(event: LoopEvent, poll_interval_ms: u64) -> Option<u64> {
    match event {
        LoopEvent::NoJob => Some(poll_interval_ms),
        LoopEvent::JobHandled => None,
        LoopEvent::JobFailed => Some(ERROR_BACKOFF_MS),
    }
}

/// The pause the loop takes before its next iteration, if any.
pub fn pause_after(event: LoopEvent, poll_interval_ms: u64) -> (r: Option<u64>)
    ensures
        r == pause_after_spec(event, poll_interval_ms),
{
    match event {
        LoopEvent::NoJob => Some(poll_interval_ms),
        LoopEvent::JobHandled => None,
        LoopEvent::JobFailed => Some(ERROR_BACKOFF_MS),
    }
}

/// The state of judging one submission: which results were produced so far,
/// their running aggregates, and the verdict as fixed so far.
pub struct JudgeState {
    pub submission_id: u128,
    pub total_cases: usize,
    pub results: Vec<TestResult>,
    pub total_time_ms: u64,
    pub max_memory_kb: i64,
    pub verdict: Verdict,
}

impl JudgeState {
    /// The machine's invariant. The aggregates are exactly the sum and the
    /// peak over the produced results; the verdict is `Accepted` while every
    /// produced result is, and otherwise it is the verdict of the last
    /// produced result, which is the first and only non-accepted one. A
    /// problem without test cases is a system error with nothing produced.
    pub open spec fn wf(self) -> bool {
        &&& self.results@.len() <= self.total_cases
        &&& self.total_time_ms == sum_times(self.results@)
        &&& self.max_memory_kb == peak_memory(self.results@)
        &&& (self.total_cases == 0 ==> self.verdict == Verdict::SystemError && self.results@.len()
            == 0)
        &&& (self.total_cases > 0 ==> {
            ||| (self.verdict == Verdict::Accepted && forall|i: int|
                0 <= i < self.results@.len() ==> self.results@[i].verdict == Verdict::Accepted)
            ||| (self.verdict != Verdict::Accepted && self.results@.len() > 0
                && self.results@.last().verdict == self.verdict && forall|i: int|
                0 <= i < self.results@.len() - 1 ==> self.results@[i].verdict == Verdict::Accepted)
        })
    }

    /// Whether judging is over: a verdict other than `Accepted` is fixed, or
    /// every test case has a produced result.
    pub open spec fn done(self) -> bool {
        self.verdict != Verdict::Accepted || self.results@.len() >= self.total_cases
    }

    /// Open the run over a submission and its fetched test-case count. A
    /// problem with no test cases short-circuits: the run is already done,
    /// as a system error with zero time, zero memory and no results.
    pub fn start(submission_id: u128, total_cases: usize) -> (st: JudgeState)
        ensures
            st.wf(),
            st.submission_id == submission_id,
            st.total_cases == total_cases,
            st.results@.len() == 0,
            st.total_time_ms == 0,
            st.max_memory_kb == 0,
            st.verdict == if total_cases == 0 {
                Verdict::SystemError
            } else {
                Verdict::Accepted
            },
            st.done() <==> total_cases == 0,
    {
        JudgeState {
            submission_id,
            total_cases,
            results: Vec::new(),
            total_time_ms: 0,
            max_memory_kb: 0,
            verdict: if total_cases == 0 {
                Verdict::SystemError
            } else {
                Verdict::Accepted
            },
        }
    }

    /// Whether judging is over.
    pub fn is_done(&self) -> (r: bool)
        ensures
            r == self.done(),
    {
        self.verdict != Verdict::Accepted || self.results.len() >= self.total_cases
    }

    /// Which test case, by position in fetched order, runs next; nothing once
    /// the run is done.
    pub fn next_case_index(&self) -> (r: Option<usize>)
        ensures
            self.done() ==> r is None,
            !self.done() ==> (r matches Some(i) && i == self.results@.len()),
    {
        if self.is_done() {
            None
        } else {
            Some(self.results.len())
        }
    }

    /// Take in the result of the test case that just ran: add its time to the
    /// sum, fold its memory into the peak, and fix its verdict as final if it
    /// is not accepted — after which no further case runs.
    pub fn record(&mut self, result: TestResult)
        requires
            old(self).wf(),
            !old(self).done(),
            old(self).total_time_ms + result.execution_time_ms <= u64::MAX,
        ensures
            final(self).wf(),
            final(self).submission_id == old(self).submission_id,
            final(self).total_cases == old(self).total_cases,
            final(self).results@ == old(self).results@.push(result),
            final(self).total_time_ms == old(self).total_time_ms + result.execution_time_ms,
            final(self).max_memory_kb == if result.memory_used_kb > old(self).max_memory_kb {
                result.memory_used_kb
            } else {
                old(self).max_memory_kb
            },
            final(self).verdict == result.verdict,
            final(self).done() <==> (result.verdict != Verdict::Accepted || old(
                self,
            ).results@.len() + 1 == old(self).total_cases),
    {
        self.total_time_ms = self.total_time_ms + result.execution_time_ms;
        if result.memory_used_kb > self.max_memory_kb {
            self.max_memory_kb = result.memory_used_kb;
        }
        if result.verdict != Verdict::Accepted {
            self.verdict = result.verdict;
        }
        proof {
            assert(old(self).results@.push(result).drop_last() =~= old(self).results@);
        }
        self.results.push(result);
    }

    /// Close the run into the aggregate that is persisted. Only the verdict,
    /// the summed time and the peak memory of it are written back onto the
    /// submission row; the per-test detail is not retained.
    pub fn finish(self, compilation_output: Option<String>) -> (r: SubmissionResult)
        requires
            self.wf(),
            self.done(),
        ensures
            r.submission_id == self.submission_id,
            r.final_verdict == self.verdict,
            r.total_time_ms == self.total_time_ms,
            r.max_memory_kb == self.max_memory_kb,
            r.test_results@ == self.results@,
            r.compilation_output == compilation_output,
    {
        SubmissionResult {
            submission_id: self.submission_id,
            final_verdict: self.verdict,
            total_time_ms: self.total_time_ms,
            max_memory_kb: self.max_memory_kb,
            test_results: self.results,
            compilation_output,
        }
    }
}

/// The final verdict is `Accepted` exactly when every produced result is
/// accepted and the produced count equals the problem's test-case count — no
/// case was skipped. (A problem without test cases is judged a system error
/// instead, so it stands outside this law.)
pub proof fn lemma_accepted_iff_all_pass(st: JudgeState)
    requires
        st.wf(),
        st.done(),
        st.total_cases > 0,
    ensures
        st.verdict == Verdict::Accepted <==> ((forall|i: int|
            0 <= i < st.results@.len() ==> st.results@[i].verdict == Verdict::Accepted)
            && st.results@.len() == st.total_cases),
{
}

/// Fail-fast: a non-accepted result is always the last produced one, so no
/// later test case was executed or recorded.
pub proof fn lemma_fail_fast(st: JudgeState)
    requires
        st.wf(),
    ensures
        forall|i: int|
            0 <= i < st.results@.len() && st.results@[i].verdict != Verdict::Accepted
                ==> st.results@.len() == i + 1,
{
}

/// The summed time is exactly the sum of the execution times over the
/// produced results — over those alone.
pub proof fn lemma_total_time_is_sum(st: JudgeState)
    requires
        st.wf(),
    ensures
        st.total_time_ms == sum_times(st.results@),
{
}

/// A problem with no test cases is judged a system error, with zero summed
/// time, zero peak memory and no produced results.
pub proof fn lemma_empty_problem_is_system_error(st: JudgeState)
    requires
        st.wf(),
        st.total_cases == 0,
    ensures
        st.verdict == Verdict::SystemError,
        st.results@.len() == 0,
        st.total_time_ms == 0,
        st.max_memory_kb == 0,
{
}

} // verus!
