//! Core logic of an online-judge worker.
//!
//! The worker claims submission identifiers from a shared queue, fetches the
//! submission and the test cases of its problem, runs the submitted program
//! against each case inside an isolated sandbox, and writes an aggregate
//! verdict back. This crate holds the judging logic itself, verified:
//! the per-language execution plans, the evaluation of a finished execution
//! into a verdict, the fail-fast aggregation over test cases, and the small
//! decisions of the polling loop. The unverified binary around it performs
//! the queue, database, filesystem and sandbox-process calls and feeds their
//! results through these functions.

pub mod config;
pub mod errors;
pub mod evaluator;
pub mod executor;
pub mod judge;
pub mod queue;
pub mod result;
pub mod submission;
pub mod test_case;
pub mod text;
