//! Verdicts and the per-test and per-submission result records.

use vstd::prelude::*;

verus! {

/// Outcome classification, both for one executed test case and for a whole
/// judged submission.
#[derive(Clone, Copy, Debug, PartialEq, Eq, Structural)]
pub enum Verdict {
    Accepted,
    WrongAnswer,
    TimeLimitExceeded,
    MemoryLimitExceeded,
    RuntimeError,
    CompilationError,
    SystemError,
}

/// The string form under which a verdict is persisted.
pub open spec fn verdict_label(v: Verdict) -> Seq<char> {
    match v {
        Verdict::Accepted => "ACCEPTED"@,
        Verdict::WrongAnswer => "WRONG_ANSWER"@,
        Verdict::TimeLimitExceeded => "TIME_LIMIT_EXCEEDED"@,
        Verdict::MemoryLimitExceeded => "MEMORY_LIMIT_EXCEEDED"@,
        Verdict::RuntimeError => "RUNTIME_ERROR"@,
        Verdict::CompilationError => "COMPILATION_ERROR"@,
        Verdict::SystemError => "SYSTEM_ERROR"@,
    }
}

impl Verdict {
    /// The string form under which the verdict is written back to the
    /// submission row.
    pub fn as_str(&self) -> (r: &str)
        ensures
            r@ == verdict_label(*self),
    {
        match self {
            Verdict::Accepted => "ACCEPTED",
            Verdict::WrongAnswer => "WRONG_ANSWER",
            Verdict::TimeLimitExceeded => "TIME_LIMIT_EXCEEDED",
            Verdict::MemoryLimitExceeded => "MEMORY_LIMIT_EXCEEDED",
            Verdict::RuntimeError => "RUNTIME_ERROR",
            Verdict::CompilationError => "COMPILATION_ERROR",
            Verdict::SystemError => "SYSTEM_ERROR",
        }
    }
}

/// Result of one executed test case. Identifiers are carried as the 128-bit
/// value of the UUID under which the row is stored. Memory is never actually
/// sampled by the sandbox and is reported as zero.
#[derive(Clone, Debug)]
pub struct TestResult {
    pub test_case_id: u128,
    pub verdict: Verdict,
    pub execution_time_ms: u64,
    pub memory_used_kb: i64,
    pub output: Option<String>,
    pub error_message: Option<String>,
}

/// Sum of the execution times over a sequence of produced results.
pub open spec fn sum_times(rs: Seq<TestResult>) -> int
    decreases rs.len(),
{
    if rs.len() == 0 {
        0
    } else {
        sum_times(rs.drop_last()) + rs.last().execution_time_ms
    }
}

/// Peak memory over a sequence of produced results, starting from zero.
pub open spec fn peak_memory(rs: Seq<TestResult>) -> int
    decreases rs.len(),
{
    if rs.len() == 0 {
        0
    } else {
        let rest = peak_memory(rs.drop_last());
        if rs.last().memory_used_kb > rest {
            rs.last().memory_used_kb as int
        } else {
            rest
        }
    }
}

/// How many results of a sequence are accepted.
pub open spec fn count_accepted(rs: Seq<TestResult>) -> nat
    decreases rs.len(),
{
    if rs.len() == 0 {
        0
    } else {
        count_accepted(rs.drop_last()) + if rs.last().verdict == Verdict::Accepted {
            1nat
        } else {
            0nat
        }
    }
}

/// Counting one more result adds one exactly when it is accepted.
proof fn lemma_count_accepted_take_step(rs: Seq<TestResult>, i: int)
    requires
        0 <= i < rs.len(),
    ensures
        count_accepted(rs.take(i + 1)) == count_accepted(rs.take(i)) + if rs[i].verdict
            == Verdict::Accepted {
            1nat
        } else {
            0nat
        },
{
    assert(rs.take(i + 1).drop_last() =~= rs.take(i));
    assert(rs.take(i + 1).last() == rs[i]);
}

/// Aggregate outcome of judging one submission.
#[derive(Clone, Debug)]
pub struct SubmissionResult {
    pub submission_id: u128,
    pub final_verdict: Verdict,
    pub total_time_ms: u64,
    pub max_memory_kb: i64,
    pub test_results: Vec<TestResult>,
    pub compilation_output: Option<String>,
}

impl SubmissionResult {
    /// How many of the produced results are accepted.
    pub fn passed_tests(&self) -> (r: usize)
        ensures
            r == count_accepted(self.test_results@),
    {
        let mut count: usize = 0;
        let mut i: usize = 0;
        proof {
            assert(self.test_results@.take(0) =~= Seq::<TestResult>::empty());
        }
        while i < self.test_results.len()
            invariant
                0 <= i <= self.test_results@.len(),
                count == count_accepted(self.test_results@.take(i as int)),
                count <= i,
            decreases self.test_results@.len() - i,
        {
            proof {
                lemma_count_accepted_take_step(self.test_results@, i as int);
            }
            if self.test_results[i].verdict == Verdict::Accepted {
                count = count + 1;
            }
            i = i + 1;
        }
        proof {
            assert(self.test_results@.take(self.test_results@.len() as int) =~= self.test_results@);
        }
        count
    }

    /// How many results were produced at all.
    pub fn total_tests(&self) -> (r: usize)
        ensures
            r == self.test_results@.len(),
    {
        self.test_results.len()
    }
}

} // verus!
