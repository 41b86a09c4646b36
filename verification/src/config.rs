//! The worker's configuration surface. Loading it from the environment is the
//! binary's job; this module holds the settled values and their validation.

use vstd::prelude::*;
use vstd::string::StringExecFns;
use crate::errors::JudgeError;

verus! {

/// Where the persistence store is and how many connections to pool.
#[derive(Clone, Debug)]
pub struct DatabaseConfig {
    pub url: String,
    pub max_connections: u32,
}

/// Where the shared queue is and under which name jobs arrive.
#[derive(Clone, Debug)]
pub struct RedisConfig {
    pub url: String,
    pub queue_name: String,
}

/// How the polling loop paces itself.
#[derive(Clone, Debug)]
pub struct WorkerConfig {
    pub concurrency: usize,
    pub poll_interval_ms: u64,
}

/// How submissions are executed: where scratch directories live and which
/// limits apply when a test case carries no override of its own. The default
/// time limit is carried in milliseconds. The output-size cap is declared but
/// not applied anywhere yet.
#[derive(Clone, Debug)]
pub struct ExecutionConfig {
    pub work_dir: String,
    pub default_time_limit_ms: u64,
    pub default_memory_limit_mb: i64,
    pub max_output_size_kb: usize,
    pub cleanup_on_success: bool,
}

/// How the worker logs.
#[derive(Clone, Debug)]
pub struct LoggingConfig {
    pub level: String,
    pub json_format: bool,
    pub file_path: Option<String>,
}

/// The whole configuration surface.
#[derive(Clone, Debug)]
pub struct Settings {
    pub database: DatabaseConfig,
    pub redis: RedisConfig,
    pub worker: WorkerConfig,
    pub execution: ExecutionConfig,
    pub logging: LoggingConfig,
}

impl Settings {
    /// Whether the settled values are usable: the worker must be allowed at
    /// least one concurrent judge, and the default time limit must be
    /// positive.
    pub fn validate(&self) -> (r: Result<(), JudgeError>)
        ensures
            r is Ok <==> (self.worker.concurrency > 0 && self.execution.default_time_limit_ms > 0),
            self.worker.concurrency == 0 ==> (r matches Err(e) && e matches JudgeError::Config(m)
                && m@ == "Worker concurrency must be greater than 0"@),
            self.worker.concurrency > 0 && self.execution.default_time_limit_ms == 0 ==> (
            r matches Err(e) && e matches JudgeError::Config(m) && m@
                == "Time limit must be positive"@),
    {
        if self.worker.concurrency == 0 {
            return Err(
                JudgeError::Config(String::from_str("Worker concurrency must be greater than 0")),
            );
        }
        if self.execution.default_time_limit_ms == 0 {
            return Err(JudgeError::Config(String::from_str("Time limit must be positive")));
        }
        Ok(())
    }
}

} // verus!
