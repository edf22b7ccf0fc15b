//! The messages exchanged with a worker over its work stream.

use vstd::prelude::*;

verus! {

/// A task sent to a worker: the postzegel code to report, under a task id
/// and an idempotency id (the same one again when the event is a retry).
#[derive(Debug, Clone)]
pub struct WorkAssignment {
    pub task_id: u64,
    pub idempotency_id: u64,
    pub postzegel_code: String,
}

/// A worker's answer to an assignment: an empty `error` means success.
#[derive(Debug, Clone)]
pub struct WorkAcknowledgement {
    pub task_id: u64,
    pub error: String,
}

} // verus!
