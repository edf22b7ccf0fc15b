//! Decisions of the test client: which assignments it acknowledges, and
//! which of those it reports as failed (for testing the retry path).

use vstd::prelude::*;
use vstd::string::StringExecFns;
use crate::rpc::WorkAcknowledgement;
use crate::text::{decimal, u32_to_decimal};

verus! {

/// Every how many acknowledgements one is reported as failed: the given
/// number, `u32::MAX` when none is given, and at least 1.
pub open spec fn spec_fail_every_nth(given: Option<u32>) -> u32 {
    let n = match given {
        Some(n) => n,
        None => u32::MAX,
    };
    if n < 1 {
        1
    } else {
        n
    }
}

/// Every how many acknowledgements one is reported as failed (see
/// `spec_fail_every_nth`).
pub fn fail_every_nth(given: Option<u32>) -> (r: u32)
    ensures
        r == spec_fail_every_nth(given),
        r >= 1,
        given is None ==> r == u32::MAX,
        given matches Some(n) ==> r >= n && (r == n || r == 1),
{
    let n = match given {
        Some(n) => n,
        None => u32::MAX,
    };
    if n < 1 {
        1
    } else {
        n
    }
}

/// Every how many answers one fails is the larger of 1 and the given
/// number, and `u32::MAX` when none is given: it is at least 1 and at least
/// the given number, and it is one of the two.
pub proof fn lemma_fail_every_nth_is_max_of_one_and_given(n: u32)
    ensures
        spec_fail_every_nth(Some(n)) >= 1,
        spec_fail_every_nth(Some(n)) >= n,
        spec_fail_every_nth(Some(n)) == n || spec_fail_every_nth(Some(n)) == 1,
        n >= 1 ==> spec_fail_every_nth(Some(n)) == n,
        spec_fail_every_nth(None) == u32::MAX,
{
}

/// Whether the client still acknowledges, having sent `ack_sent` answers:
/// always without a limit, else while below it.
pub open spec fn may_acknowledge(ack_sent: u32, max_ack: Option<u32>) -> bool {
    match max_ack {
        None => true,
        Some(m) => ack_sent < m,
    }
}

/// The error text of the `count`-th answer: empty, or "test failure "
/// and the count when `count` is a multiple of `fail_every_nth`.
pub open spec fn answer_error(count: u32, fail_every_nth: u32) -> Seq<char> {
    if count % fail_every_nth != 0 {
        Seq::<char>::empty()
    } else {
        "test failure "@ + decimal(count as nat)
    }
}

/// The client's answer to the assignment of task `task_id`, having sent
/// `ack_sent` answers so far. While it may acknowledge, it counts one more
/// answer and sends it, with an error on every `fail_every_nth`-th; after
/// that it sends nothing. The count comes back with the answer.
pub fn respond(ack_sent: u32, max_ack: Option<u32>, fail_every_nth: u32, task_id: u64) -> (r: (
    u32,
    Option<WorkAcknowledgement>,
))
    requires
        fail_every_nth >= 1,
        max_ack is Some || ack_sent < u32::MAX,
    ensures
        may_acknowledge(ack_sent, max_ack) ==> {
            &&& r.0 == ack_sent + 1
            &&& r.1 matches Some(ack) && ack.task_id == task_id && ack.error@ == answer_error(
                r.0,
                fail_every_nth,
            )
        },
        !may_acknowledge(ack_sent, max_ack) ==> r.0 == ack_sent && r.1 is None,
{
    let max = match max_ack {
        Some(m) => m,
        None => u32::MAX,
    };
    if max_ack.is_none() || ack_sent < max {
        let count = ack_sent + 1;
        let error = if count % fail_every_nth != 0 {
            String::new()
        } else {
            String::from_str("test failure ").concat(u32_to_decimal(count).as_str())
        };
        (count, Some(WorkAcknowledgement { task_id, error }))
    } else {
        (ack_sent, None)
    }
}

/// What to do after an attempt to connect.
#[derive(Debug, Clone, Copy, PartialEq, Eq, Structural)]
pub enum ConnectStep {
    /// The attempt connected: use that connection.
    Connected,
    /// The attempt failed; make attempt `next_attempt` (counted from 0).
    Retry { next_attempt: u32 },
    /// The attempt failed and no attempts are left: give up.
    GiveUp,
}

/// The step after attempt `attempt` (counted from 0, the first attempt
/// being 0) fails or succeeds: the first attempt is followed by at most
/// `max_connection_retry` retries, so attempts run from 0 to
/// `max_connection_retry`.
pub open spec fn spec_next_connect_step(attempt: u32, max_connection_retry: u32, connected: bool) -> ConnectStep {
    if connected {
        ConnectStep::Connected
    } else if attempt < max_connection_retry {
        ConnectStep::Retry { next_attempt: (attempt + 1) as u32 }
    } else {
        ConnectStep::GiveUp
    }
}

/// Whether attempt `attempt` (counted from 0) is made: the first attempt
/// always is, and after it up to `max_connection_retry` retries.
pub fn may_attempt(attempt: u32, max_connection_retry: u32) -> (r: bool)
    ensures
        r == (attempt <= max_connection_retry),
{
    attempt <= max_connection_retry
}

/// What to do after attempt `attempt` to connect: use the connection when
/// it succeeded, else retry while fewer than `max_connection_retry`
/// retries were made, else give up.
pub fn next_connect_step(attempt: u32, max_connection_retry: u32, connected: bool) -> (r: ConnectStep)
    ensures
        r == spec_next_connect_step(attempt, max_connection_retry, connected),
{
    if connected {
        ConnectStep::Connected
    } else if attempt < max_connection_retry {
        ConnectStep::Retry { next_attempt: attempt + 1 }
    } else {
        ConnectStep::GiveUp
    }
}

} // verus!
