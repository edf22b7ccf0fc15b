//! The balancer's backlog: scanned events wait there until a worker takes
//! them, and go back there when no worker did or when a worker failed them.

use vstd::prelude::*;
use crate::channel::{channel, is_refusal_text, Fork, Sink, Source};
use crate::dispatcher::AssignResult;
use crate::global::ChannelKey;
use crate::postzegel::PostzegelEvent;
use crate::task_util::{BacklogEntry, IdemId, TaskFailureHandler};

verus! {

/// How many entries the backlog holds at most.
pub const BACKLOG_SIZE: usize = 1024;

/// Reads scanned events from `source` and keeps a backlog of events that
/// wait for a worker.
pub struct Balancer {
    source: Source<PostzegelEvent>,
    backlog_sink: Sink<BacklogEntry>,
    backlog_source: Source<BacklogEntry>,
}

impl Balancer {
    /// Where the scanned events come from.
    pub closed spec fn events(&self) -> Source<PostzegelEvent> {
        self.source
    }

    /// The key of the backlog's channel.
    pub closed spec fn backlog_key(&self) -> ChannelKey {
        self.backlog_sink.channel_key()
    }

    /// Whether the backlog's receiver is still inside.
    pub closed spec fn holds_backlog(&self) -> bool {
        &&& self.backlog_source.holds_receiver()
        &&& self.backlog_source.channel_key() == ChannelKey::BalancerBacklog
        &&& self.backlog_sink.channel_key() == ChannelKey::BalancerBacklog
    }

    /// How many entries the backlog holds at most, as its sink and its
    /// source record it.
    pub closed spec fn backlog_capacity(&self) -> (usize, usize) {
        (self.backlog_sink.capacity(), self.backlog_source.capacity())
    }

    /// A balancer reading from `source`, with an empty backlog of
    /// `BACKLOG_SIZE` entries on the `BalancerBacklog` channel.
    pub fn new(source: Source<PostzegelEvent>) -> (r: Balancer)
        ensures
            r.events() == source,
            r.backlog_key() == ChannelKey::BalancerBacklog,
            r.backlog_capacity() == (BACKLOG_SIZE, BACKLOG_SIZE),
            r.holds_backlog(),
    {
        let (backlog_sink, backlog_source) = channel(BACKLOG_SIZE, ChannelKey::BalancerBacklog);
        Balancer { source, backlog_sink, backlog_source }
    }

    /// Another sink on the backlog.
    pub fn backlog_sink(&self) -> (r: Sink<BacklogEntry>)
        ensures
            r.channel_key() == self.backlog_key(),
            r.capacity() == self.backlog_capacity().0,
    {
        self.backlog_sink.fork()
    }

    /// The balancer's parts: the scanned events, a sink on the backlog and
    /// the backlog's source.
    pub fn into_parts(self) -> (r: (Source<PostzegelEvent>, Sink<BacklogEntry>, Source<BacklogEntry>))
        requires
            self.holds_backlog(),
        ensures
            r.0 == self.events(),
            r.1.channel_key() == ChannelKey::BalancerBacklog,
            r.1.capacity() == self.backlog_capacity().0,
            r.2.capacity() == self.backlog_capacity().1,
            r.2.holds_receiver(),
            r.2.channel_key() == ChannelKey::BalancerBacklog,
    {
        (self.source, self.backlog_sink, self.backlog_source)
    }
}

/// The handler for a task of `event`: on failure it puts `event` back on
/// the backlog that `backlog` sends to.
pub fn failure_handler(backlog: &Sink<BacklogEntry>, event: PostzegelEvent) -> (r: TaskFailureHandler)
    ensures
        r.event() == event,
        r.backlog().channel_key() == backlog.channel_key(),
        r.backlog().capacity() == backlog.capacity(),
{
    TaskFailureHandler::new(event, backlog.fork())
}

/// After an attempt to assign `event`: when it was assigned nothing is
/// done and `None` comes back; otherwise `event` goes back on the backlog
/// as a new entry (without idempotency id) and what that send gave comes
/// back. A refused entry comes back with its reason.
pub fn requeue_unassigned(
    backlog: &Sink<BacklogEntry>,
    event: PostzegelEvent,
    assignment: &AssignResult,
) -> (r: Option<Result<(), (BacklogEntry, String)>>)
    ensures
        r is None <==> assignment is Assigned,
        r matches Some(Err((entry, reason))) ==> entry == (event, None::<IdemId>) && is_refusal_text(reason@),
{
    match assignment {
        AssignResult::Assigned(_) => None,
        _ => Some(backlog.try_send((event, None))),
    }
}

/// Puts a freshly scanned `event` on the backlog as a new entry (without
/// idempotency id), without waiting. A refused entry comes back with its
/// reason.
pub fn forward_event(backlog: &Sink<BacklogEntry>, event: PostzegelEvent) -> (r: Result<
    (),
    (BacklogEntry, String),
>)
    ensures
        r matches Err((entry, reason)) ==> entry == (event, None::<IdemId>)
            && is_refusal_text(reason@),
{
    backlog.try_send((event, None))
}

} // verus!
