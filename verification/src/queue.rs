//! Decoding what a blocking pop on the shared job queue delivered.
//!
//! A delivered item is a two-element record whose second element is the
//! submission identifier string; an empty reply within the pop's bounded wait
//! means "no job", which is not an error. The pop itself is a queue call the
//! binary makes; its reply is decoded here.

use vstd::prelude::*;
use crate::judge::{LoopEvent, pause_after_spec};

verus! {

/// The job payload a queue reply carries, if any: the second element of a
/// delivered record of at least two elements.
pub open spec fn job_payload_spec(reply: Option<Seq<Seq<char>>>) -> Option<Seq<char>> {
    match reply {
        Some(values) => if values.len() >= 2 {
            Some(values[1])
        } else {
            None
        },
        None => None,
    }
}

/// Take the job payload out of a queue reply. A missing reply — the pop's
/// bounded wait ran out — is "no job", not an error; so is a record of the
/// wrong shape.
pub fn extract_job_payload(reply: Option<Vec<String>>) -> (r: Option<String>)
    ensures
        r is Some <==> job_payload_spec(reply.deep_view()) is Some,
        r matches Some(p) ==> job_payload_spec(reply.deep_view()) == Some(p@),
{
    match reply {
        Some(mut values) => {
            if values.len() >= 2 {
                Some(values.remove(1))
            } else {
                None
            }
        },
        None => None,
    }
}

/// An empty poll is no error: the reply decodes to "no job", and the worker
/// then pauses exactly the configured poll interval before polling again.
pub proof fn lemma_empty_poll_waits_poll_interval(poll_interval_ms: u64)
    ensures
        job_payload_spec(None) is None,
        pause_after_spec(LoopEvent::NoJob, poll_interval_ms) == Some(poll_interval_ms),
{
}

} // verus!
