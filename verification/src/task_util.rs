//! Idempotency ids, failure reasons, and the handler that puts a failed
//! task's event back on the balancer's backlog.

use vstd::prelude::*;
use vstd::string::StringExecFns;
use crate::channel::{is_refusal_text, Sink};
use crate::postzegel::PostzegelEvent;

verus! {

/// The id under which a postzegel event is delivered: it stays the same
/// when the event is retried, so that a receiver can spot repeats.
#[derive(Debug, Clone, Copy, PartialEq, Eq, Structural)]
pub struct IdemId {
    id: u64,
}

impl View for IdemId {
    type V = u64;

    closed spec fn view(&self) -> u64 {
        self.id
    }
}

impl IdemId {
    /// The idempotency id with number `id`.
    pub fn new(id: u64) -> (r: IdemId)
        ensures
            r@ == id,
    {
        IdemId { id }
    }

    /// The number of this idempotency id.
    pub fn as_number(&self) -> (r: u64)
        ensures
            r == self@,
    {
        self.id
    }
}

/// Idempotency ids compare exactly as their numbers: two ids are equal if
/// and only if they have the same number.
pub proof fn lemma_ids_compare_as_numbers(a: IdemId, b: IdemId)
    ensures
        (a == b) <==> (a@ == b@),
{
}

/// Why a task failed.
#[derive(Debug)]
pub enum FailReason {
    /// The worker went away.
    Disconnect,
    /// The worker did not answer in time.
    Timeout,
    /// The worker reported an error, with its message.
    WorkerError(String),
}

/// How a failure reason reads.
pub open spec fn fail_reason_text(reason: FailReason) -> Seq<char> {
    match reason {
        FailReason::Disconnect => "worker disconnected"@,
        FailReason::Timeout => "task timed out"@,
        FailReason::WorkerError(msg) => "failed: "@ + msg@,
    }
}

impl FailReason {
    /// The reason as text: "worker disconnected", "task timed out", or
    /// "failed: " followed by the worker's message.
    pub fn to_display_string(&self) -> (s: String)
        ensures
            s@ == fail_reason_text(*self),
    {
        match self {
            FailReason::Disconnect => String::from_str("worker disconnected"),
            FailReason::Timeout => String::from_str("task timed out"),
            FailReason::WorkerError(msg) => String::from_str("failed: ").concat(msg.as_str()),
        }
    }
}

/// An entry of the balancer's backlog: an event, and the idempotency id it
/// had when it is a retry.
pub type BacklogEntry = (PostzegelEvent, Option<IdemId>);

/// What to do when a task fails: put its event back on the backlog.
pub struct TaskFailureHandler {
    event: PostzegelEvent,
    sink: Sink<BacklogEntry>,
}

impl TaskFailureHandler {
    /// The event that this handler puts back.
    pub closed spec fn event(&self) -> PostzegelEvent {
        self.event
    }

    /// The sink through which this handler puts its event back.
    pub closed spec fn backlog(&self) -> Sink<BacklogEntry> {
        self.sink
    }

    /// A handler that puts `event` back through `sink`.
    pub fn new(event: PostzegelEvent, sink: Sink<BacklogEntry>) -> (r: Self)
        ensures
            r.event() == event,
            r.backlog() == sink,
    {
        TaskFailureHandler { event, sink }
    }

    /// The backlog entry of a retry: the handler's event, with the
    /// idempotency id that the failed delivery had.
    pub fn retry_entry(&self, idempotency_id: IdemId) -> (r: BacklogEntry)
        ensures
            r == (self.event(), Some(idempotency_id)),
    {
        (self.event, Some(idempotency_id))
    }

    /// Puts the event back on the backlog, as `retry_entry(idempotency_id)`
    /// without waiting. If the backlog refuses it, that entry comes back with
    /// the reason ("full" or "backlog closed!").
    pub fn fail_task(self, idempotency_id: IdemId) -> (r: Result<(), (BacklogEntry, String)>)
        ensures
            r matches Err((entry, reason)) ==> entry == (self.event(), Some(idempotency_id))
                && is_refusal_text(reason@),
    {
        let entry = self.retry_entry(idempotency_id);
        self.sink.try_send(entry)
    }
}

} // verus!
