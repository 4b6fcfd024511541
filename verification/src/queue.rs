//! The job queue as its two ends see it: the name that both know, and the
//! shape of what a blocking pop hands back.

use vstd::prelude::*;

verus! {

/// The name of the list in which the jobs wait.
pub const QUEUE_NAME: &'static str = "vpaas:queue";

/// The serialized job in the reply to a blocking pop. The reply holds the
/// name of the list and then the item that was taken from it; a shorter reply
/// holds no job.
pub open spec fn payload_of(reply: Seq<String>) -> Option<String> {
    if reply.len() >= 2 {
        Some(reply[1])
    } else {
        None
    }
}

/// Picks the serialized job out of the reply to a blocking pop.
pub fn job_payload(reply: &Vec<String>) -> (payload: Option<&String>)
    ensures
        match payload {
            Some(payload) => payload_of(reply@) == Some(*payload),
            None => payload_of(reply@) is None,
        },
{
    if reply.len() >= 2 {
        Some(&reply[1])
    } else {
        None
    }
}

} // verus!
