//! Test cases and the effective per-case resource limits.

use vstd::prelude::*;

verus! {

/// One test case of a problem, as read from its row. Cases are fetched in
/// ascending order-key order and never modified. Identifiers are carried as
/// the 128-bit value of the row's UUID.
#[derive(Clone, Debug)]
pub struct TestCase {
    pub id: u128,
    pub problem_id: u128,
    pub input: String,
    pub expected_output: String,
    pub time_limit: Option<i32>,
    pub memory_limit: Option<i64>,
    pub is_sample: bool,
}

/// The time limit a case is run under: its own override when it carries a
/// usable one, else the configured default. A negative override cannot be a
/// duration and counts as absent.
pub open spec fn effective_time_limit_spec(limit: Option<i32>, default_ms: u64) -> u64 {
    match limit {
        Some(t) => if t >= 0 {
            t as u64
        } else {
            default_ms
        },
        None => default_ms,
    }
}

/// The memory limit a case is run under: its own override when present, else
/// the configured default.
pub open spec fn effective_memory_limit_spec(limit: Option<i64>, default_mb: i64) -> i64 {
    match limit {
        Some(m) => m,
        None => default_mb,
    }
}

impl TestCase {
    /// The time limit, in milliseconds, this case is run under.
    pub fn effective_time_limit_ms(&self, default_ms: u64) -> (r: u64)
        ensures
            r == effective_time_limit_spec(self.time_limit, default_ms),
    {
        match self.time_limit {
            Some(t) => if t >= 0 {
                t as u64
            } else {
                default_ms
            },
            None => default_ms,
        }
    }

    /// The memory limit, in megabytes, this case is run under.
    pub fn effective_memory_limit_mb(&self, default_mb: i64) -> (r: i64)
        ensures
            r == effective_memory_limit_spec(self.memory_limit, default_mb),
    {
        match self.memory_limit {
            Some(m) => m,
            None => default_mb,
        }
    }
}

} // verus!
