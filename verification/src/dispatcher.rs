//! The dispatcher: hands events to ready workers, keeps track of the tasks
//! in flight, and settles them when a worker acknowledges or fails them.
//!
//! Assigning a task takes three steps, because the router waits between
//! them: `begin_assign` numbers the task, `claim_worker` (once a worker is
//! ready) hands it to the worker at the front of the ready queue, and
//! `finish_assign` settles the outcome of sending it to that worker.

use vstd::prelude::*;
use dashmap::DashMap;
use crate::channel::Sink;
use crate::rpc::{WorkAcknowledgement, WorkAssignment};
use crate::task_util::{BacklogEntry, FailReason, IdemId, TaskFailureHandler};
use crate::workers::{queue_ids, WorkerId, Workers, READY_CAPACITY};

verus! {

/// A task as delivered to one worker.
#[derive(Debug, Clone, Copy, PartialEq, Eq, Hash, Structural)]
pub struct WorkId {
    pub worker_id: u32,
    pub task_id: u64,
}

/// How an attempt to assign a task ended.
#[derive(Debug, Clone, PartialEq, Eq)]
pub enum AssignResult {
    /// The task went to a worker.
    Assigned(WorkId),
    /// No worker was there to take it.
    NoWorkers,
    /// Sending it to the worker failed, with the reason.
    Error(String),
}

/// The key under which a task is kept in flight.
pub open spec fn key_of(work_id: WorkId) -> (u32, u64) {
    (work_id.worker_id, work_id.task_id)
}

/// The map of tasks in flight, keyed by (worker, task).
pub type InFlightMap = DashMap<(u32, u64), (IdemId, TaskFailureHandler)>;

/// A task in flight as the map hands it out: its key and its value.
pub type InFlightEntry = ((u32, u64), (IdemId, TaskFailureHandler));

/// The tasks in flight that a map of them holds: for each (worker, task),
/// the idempotency id and the code of the event.
pub uninterp spec fn in_flight_tasks(m: InFlightMap) -> Map<(u32, u64), (u64, Seq<u8>)>;

/// `DashMap::new`: an empty map.
#[verifier::external_body]
fn in_flight_new() -> (r: InFlightMap)
    ensures
        in_flight_tasks(r).dom().is_empty(),
{
    DashMap::new()
}

/// `DashMap::contains_key`: whether the map holds `key`.
#[verifier::external_body]
fn in_flight_contains(m: &InFlightMap, key: (u32, u64)) -> (r: bool)
    ensures
        r == in_flight_tasks(*m).contains_key(key),
{
    m.contains_key(&key)
}

/// `DashMap::insert`: maps `key` to `value`, replacing what it held.
#[verifier::external_body]
fn in_flight_insert(
    m: &mut InFlightMap,
    key: (u32, u64),
    value: (IdemId, TaskFailureHandler),
) -> (r: Option<(IdemId, TaskFailureHandler)>)
    ensures
        in_flight_tasks(*final(m)) == in_flight_tasks(*old(m)).insert(
            key,
            (value.0@, value.1.event()@),
        ),
        r is Some <==> in_flight_tasks(*old(m)).contains_key(key),
{
    m.insert(key, value)
}

/// `DashMap::remove`: takes `key` out, and hands back its key and value
/// when the map held it.
#[verifier::external_body]
fn in_flight_remove(m: &mut InFlightMap, key: (u32, u64)) -> (r: Option<InFlightEntry>)
    ensures
        in_flight_tasks(*final(m)) == in_flight_tasks(*old(m)).remove(key),
        r is Some <==> in_flight_tasks(*old(m)).contains_key(key),
        r matches Some((k, v)) ==> k == key && (v.0@, v.1.event()@) == in_flight_tasks(
            *old(m),
        )[key],
{
    m.remove(&key)
}

/// `x + 1`, wrapping to 0 after `u32::MAX`.
pub open spec fn next_u32(x: u32) -> u32 {
    if x == u32::MAX {
        0
    } else {
        (x + 1) as u32
    }
}

/// `x + 1`, wrapping to 0 after `u64::MAX`.
pub open spec fn next_u64(x: u64) -> u64 {
    if x == u64::MAX {
        0
    } else {
        (x + 1) as u64
    }
}

/// The idempotency id under which task `task_id` is delivered: the one it
/// already had when it is a retry, else its own task id.
pub open spec fn idempotency_for(given: Option<IdemId>, task_id: u64) -> u64 {
    match given {
        Some(i) => i@,
        None => task_id,
    }
}

/// Keeps the workers and the tasks in flight (the backlog is elsewhere).
pub struct Dispatcher {
    top_worker_id: u32,
    top_task_id: u64,
    workers: Workers,
    in_flight: InFlightMap,
}

/// A retry, as a failure handler's send reports it: `None` when there was
/// no task to retry, else what the send gave.
pub type RetryOutcome = Option<Result<(), (BacklogEntry, String)>>;

/// A task that was settled without a retry: its idempotency id and failure
/// handler, handed back unused.
pub type SettledTask = (IdemId, TaskFailureHandler);

/// What became of a worker's answer.
pub enum AckOutcome {
    /// The answer acknowledged the task; the settled task, when it was in
    /// flight, comes back unused.
    Completed(Option<SettledTask>),
    /// The answer reported an error, so the task was failed; what its retry
    /// gave comes back.
    Failed(RetryOutcome),
}

/// A refused retry is the event of the task in flight under `key`, with
/// that task's idempotency id.
pub open spec fn refused_retry_matches(
    outcome: RetryOutcome,
    tasks: Map<(u32, u64), (u64, Seq<u8>)>,
    key: (u32, u64),
) -> bool {
    outcome matches Some(Err((entry, _))) ==> {
        &&& entry.0@ == tasks[key].1
        &&& entry.1 matches Some(idem) && idem@ == tasks[key].0
    }
}

impl Dispatcher {
    /// The id that the next worker gets.
    pub closed spec fn next_worker_id(&self) -> u32 {
        self.top_worker_id
    }

    /// The id that the next task gets.
    pub closed spec fn next_task_id(&self) -> u64 {
        self.top_task_id
    }

    /// The ready workers with their sinks, front first.
    pub closed spec fn queue(&self) -> Seq<(u32, Sink<WorkAssignment>)> {
        self.workers.queue()
    }

    /// The busy workers, each with the sink kept for it.
    pub closed spec fn busy_sinks(&self) -> Map<u32, Sink<WorkAssignment>> {
        self.workers.busy_sinks()
    }

    /// The ids of the ready workers, front first.
    pub open spec fn available(&self) -> Seq<u32> {
        queue_ids(self.queue())
    }

    /// The ids of the busy workers.
    pub open spec fn busy(&self) -> Set<u32> {
        self.busy_sinks().dom()
    }

    /// The tasks in flight: (worker, task) to (idempotency id, event code).
    pub closed spec fn in_flight(&self) -> Map<(u32, u64), (u64, Seq<u8>)> {
        in_flight_tasks(self.in_flight)
    }

    /// No worker is ready twice or both ready and busy, every known worker
    /// has an id below the next one, and every task in flight has a task id
    /// below the next one.
    pub open spec fn wf(&self) -> bool {
        &&& self.available().no_duplicates()
        &&& forall|i: int|
            0 <= i < self.available().len() ==> !self.busy().contains(
                #[trigger] self.available()[i],
            )
        &&& forall|i: int|
            0 <= i < self.available().len() ==> #[trigger] self.available()[i]
                < self.next_worker_id()
        &&& forall|w: u32| #[trigger] self.busy().contains(w) ==> w < self.next_worker_id()
        &&& forall|k: (u32, u64)| #[trigger] self.in_flight().contains_key(k) ==> k.1
            < self.next_task_id()
    }

    /// `post` is `pre` after settling the task `work_id`: when it was in
    /// flight it is no longer, and its worker left the busy set for the
    /// back of the ready queue, with the sink kept for it; otherwise nothing
    /// changed.
    pub open spec fn settled(pre: &Dispatcher, post: &Dispatcher, work_id: WorkId) -> bool {
        &&& post.next_worker_id() == pre.next_worker_id()
        &&& post.next_task_id() == pre.next_task_id()
        &&& if pre.in_flight().contains_key(key_of(work_id)) {
            &&& post.in_flight() == pre.in_flight().remove(key_of(work_id))
            &&& post.queue() == pre.queue().push(
                (work_id.worker_id, pre.busy_sinks()[work_id.worker_id]),
            )
            &&& post.busy_sinks() == pre.busy_sinks().remove(work_id.worker_id)
        } else {
            &&& post.in_flight() == pre.in_flight()
            &&& post.queue() == pre.queue()
            &&& post.busy_sinks() == pre.busy_sinks()
        }
    }

    /// Settling `work_id` can go ahead at once: either the task is not in
    /// flight, or its worker is busy and the ready queue has room for it
    /// (when it has none, the caller waits).
    pub open spec fn can_settle(&self, work_id: WorkId) -> bool {
        self.in_flight().contains_key(key_of(work_id)) ==> {
            &&& self.busy().contains(work_id.worker_id)
            &&& self.available().len() < READY_CAPACITY
        }
    }

    proof fn lemma_queue_push(q: Seq<(u32, Sink<WorkAssignment>)>, e: (u32, Sink<WorkAssignment>))
        ensures
            queue_ids(q.push(e)) == queue_ids(q).push(e.0),
    {
        assert(queue_ids(q.push(e)) =~= queue_ids(q).push(e.0));
    }

    proof fn lemma_wf_settled(pre: &Dispatcher, post: &Dispatcher, work_id: WorkId)
        requires
            pre.wf(),
            pre.can_settle(work_id),
            Self::settled(pre, post, work_id),
        ensures
            post.wf(),
    {
        if pre.in_flight().contains_key(key_of(work_id)) {
            let w = work_id.worker_id;
            Self::lemma_queue_push(pre.queue(), (w, pre.busy_sinks()[w]));
            assert(post.available() == pre.available().push(w));
            assert(post.busy() =~= pre.busy().remove(w));
            assert forall|i: int| 0 <= i < post.available().len() implies #[trigger] post.available()[i]
                < post.next_worker_id() by {
                if i < pre.available().len() {
                    assert(post.available()[i] == pre.available()[i]);
                }
            }
            assert forall|i: int| 0 <= i < post.available().len() implies !post.busy().contains(
                #[trigger] post.available()[i],
            ) by {
                if i < pre.available().len() {
                    assert(post.available()[i] == pre.available()[i]);
                }
            }
            assert forall|i: int, j: int|
                0 <= i < post.available().len() && 0 <= j < post.available().len() && i != j
                    implies post.available()[i] != post.available()[j] by {
                if i < pre.available().len() && j < pre.available().len() {
                    assert(post.available()[i] == pre.available()[i]);
                    assert(post.available()[j] == pre.available()[j]);
                } else if i < pre.available().len() {
                    assert(post.available()[i] == pre.available()[i]);
                    assert(!pre.busy().contains(pre.available()[i]));
                } else if j < pre.available().len() {
                    assert(post.available()[j] == pre.available()[j]);
                    assert(!pre.busy().contains(pre.available()[j]));
                }
            }
            assert forall|v: u32| #[trigger] post.busy().contains(v) implies v
                < post.next_worker_id() by {
                assert(pre.busy().contains(v));
            }
            assert forall|k: (u32, u64)| #[trigger] post.in_flight().contains_key(k) implies k.1
                < post.next_task_id() by {
                assert(pre.in_flight().contains_key(k));
            }
        } else {
            assert(post.available() == pre.available());
            assert(post.busy() == pre.busy());
        }
    }

    proof fn lemma_wf_frame(pre: &Dispatcher, post: &Dispatcher)
        requires
            pre.wf(),
            post.available() == pre.available(),
            post.next_worker_id() == pre.next_worker_id(),
            post.busy().subset_of(pre.busy()),
            post.next_task_id() == pre.next_task_id(),
            post.in_flight().dom().subset_of(pre.in_flight().dom()),
        ensures
            post.wf(),
    {
        assert forall|k: (u32, u64)| #[trigger] post.in_flight().contains_key(k) implies k.1
            < post.next_task_id() by {
            assert(pre.in_flight().dom().contains(k));
        }
    }

    /// A dispatcher with no workers and no tasks; ids start at 0.
    pub fn new() -> (r: Dispatcher)
        ensures
            r.next_worker_id() == 0,
            r.next_task_id() == 0,
            r.queue() == Seq::<(u32, Sink<WorkAssignment>)>::empty(),
            r.busy() == Set::<u32>::empty(),
            r.in_flight() == Map::<(u32, u64), (u64, Seq<u8>)>::empty(),
            r.wf(),
    {
        let r = Dispatcher {
            top_worker_id: 0,
            top_task_id: 0,
            workers: Workers::new(),
            in_flight: in_flight_new(),
        };
        proof {
            assert(r.in_flight() =~= Map::<(u32, u64), (u64, Seq<u8>)>::empty());
            assert(r.available() =~= Seq::<u32>::empty());
        }
        r
    }

    /// Whether `worker` is busy.
    pub fn is_busy(&self, worker: WorkerId) -> (r: bool)
        ensures
            r == self.busy().contains(worker),
    {
        self.workers.is_busy(worker)
    }

    /// Whether the task `work_id` is in flight.
    pub fn is_in_flight(&self, work_id: WorkId) -> (r: bool)
        ensures
            r == self.in_flight().contains_key(key_of(work_id)),
    {
        in_flight_contains(&self.in_flight, (work_id.worker_id, work_id.task_id))
    }

    /// Whether some worker is ready to take a task.
    pub fn has_available_worker(&self) -> (r: bool)
        ensures
            r == (self.available().len() > 0),
    {
        self.workers.has_available()
    }

    /// Whether the ready queue has room for one more worker.
    pub fn has_room(&self) -> (r: bool)
        ensures
            r == (self.available().len() < READY_CAPACITY),
    {
        self.workers.has_room()
    }

    /// Whether a task can be handed out now: some worker is ready and the
    /// one in front is not busy (in a well-formed dispatcher it never is).
    pub fn can_claim(&self) -> (r: bool)
        ensures
            r == (self.available().len() > 0 && !self.busy().contains(self.available()[0])),
    {
        self.workers.can_hand_out()
    }

    /// The id that the next worker will get.
    pub fn peek_next_worker_id(&self) -> (r: WorkerId)
        ensures
            r == self.next_worker_id(),
    {
        self.top_worker_id
    }

    /// Registers a worker that receives its tasks through `task_sender`: it
    /// gets the next worker id (which then moves on, wrapping after
    /// `u32::MAX`) and joins the back of the ready queue with that sink. The
    /// id must not be busy (in a well-formed dispatcher it never is), and
    /// the ready queue must have room (else the caller waits).
    pub fn new_worker(&mut self, task_sender: Sink<WorkAssignment>) -> (r: WorkerId)
        requires
            !old(self).busy().contains(old(self).next_worker_id()),
            old(self).available().len() < READY_CAPACITY,
        ensures
            r == old(self).next_worker_id(),
            final(self).next_worker_id() == next_u32(old(self).next_worker_id()),
            final(self).next_task_id() == old(self).next_task_id(),
            final(self).queue() == old(self).queue().push((r, task_sender)),
            final(self).available() == old(self).available().push(r),
            final(self).busy_sinks() == old(self).busy_sinks(),
            final(self).in_flight() == old(self).in_flight(),
            old(self).wf() && old(self).next_worker_id() < u32::MAX ==> final(self).wf(),
    {
        let worker_id = self.top_worker_id;
        self.top_worker_id = self.top_worker_id.wrapping_add(1);
        proof {
            if old(self).wf() && old(self).next_worker_id() < u32::MAX {
                assert(!self.workers.available().contains(worker_id));
            }
        }
        self.workers.add_new(worker_id, task_sender);
        proof {
            if old(self).wf() && old(self).next_worker_id() < u32::MAX {
                assert forall|i: int| 0 <= i < self.available().len() implies #[trigger] self.available()[i]
                    < self.next_worker_id() by {
                    if i < old(self).available().len() {
                        assert(self.available()[i] == old(self).available()[i]);
                    }
                }
                assert forall|k: (u32, u64)| #[trigger] self.in_flight().contains_key(k) implies k.1
                    < self.next_task_id() by {
                    assert(old(self).in_flight().contains_key(k));
                }
            }
        }
        worker_id
    }

    /// Forgets a worker that went away: it is no longer busy, and the task
    /// kept under (worker, task 0) is dropped from the tasks in flight. That
    /// task's failure is then reported, but it is no longer in flight, so
    /// nothing is put back on the backlog. A ready worker stays in the
    /// ready queue.
    pub fn remove_worker(&mut self, worker_id: WorkerId)
        ensures
            final(self).next_worker_id() == old(self).next_worker_id(),
            final(self).next_task_id() == old(self).next_task_id(),
            final(self).queue() == old(self).queue(),
            final(self).busy_sinks() == old(self).busy_sinks().remove(worker_id),
            final(self).in_flight() == old(self).in_flight().remove((worker_id, 0)),
            old(self).wf() ==> final(self).wf(),
    {
        self.workers.remove(worker_id);
        let ongoing_task = in_flight_remove(&mut self.in_flight, (worker_id, 0));
        if let Some((key, _)) = ongoing_task {
            let task = WorkId { worker_id: key.0, task_id: key.1 };
            let ghost before = *self;
            let _ = self.fail_work(task, FailReason::Disconnect);
            proof {
                assert(!before.in_flight().contains_key(key_of(task)));
            }
        }
        proof {
            assert(self.busy() =~= old(self).busy().remove(worker_id));
            if old(self).wf() {
                Self::lemma_wf_frame(&*old(self), &*self);
            }
        }
    }

    /// A worker acknowledged `work_id`: when that task is in flight it is
    /// settled (see `settled`) without a retry: its idempotency id and
    /// failure handler come back unused. Otherwise nothing changes and
    /// `None` comes back.
    pub fn complete_work(&mut self, work_id: WorkId) -> (r: Option<SettledTask>)
        requires
            old(self).can_settle(work_id),
        ensures
            r is Some <==> old(self).in_flight().contains_key(key_of(work_id)),
            r matches Some((idem, handler)) ==> {
                &&& idem@ == old(self).in_flight()[key_of(work_id)].0
                &&& handler.event()@ == old(self).in_flight()[key_of(work_id)].1
            },
            Self::settled(&*old(self), &*final(self), work_id),
            old(self).wf() ==> final(self).wf(),
    {
        let ongoing_task = in_flight_remove(&mut self.in_flight, (work_id.worker_id, work_id.task_id));
        let r = match ongoing_task {
            Some((_, task)) => {
                self.workers.mark_ready(work_id.worker_id);
                Some(task)
            },
            None => None,
        };
        proof {
            if r is None {
                assert(old(self).in_flight().remove(key_of(work_id)) =~= old(self).in_flight());
            }
            assert(self.in_flight() =~= old(self).in_flight().remove(key_of(work_id)));
            if old(self).wf() {
                Self::lemma_wf_settled(&*old(self), &*self, work_id);
            }
        }
        r
    }

    /// A task failed: when it is in flight it is settled (see `settled`) and
    /// its event is put back on the backlog as a retry, with the idempotency
    /// id that it was delivered under; what that send gave is returned. When
    /// it is not in flight nothing changes and `None` comes back. A refused
    /// retry comes back with the event's code and that idempotency id.
    pub fn fail_work(&mut self, task_id: WorkId, reason: FailReason) -> (r: RetryOutcome)
        requires
            old(self).can_settle(task_id),
        ensures
            r is Some <==> old(self).in_flight().contains_key(key_of(task_id)),
            Self::settled(&*old(self), &*final(self), task_id),
            refused_retry_matches(r, old(self).in_flight(), key_of(task_id)),
            old(self).wf() ==> final(self).wf(),
    {
        let existing = in_flight_remove(&mut self.in_flight, (task_id.worker_id, task_id.task_id));
        let r = match existing {
            Some((_, (idempotency_id, failure_handler))) => {
                self.workers.mark_ready(task_id.worker_id);
                Some(failure_handler.fail_task(idempotency_id))
            },
            None => None,
        };
        proof {
            if r is None {
                assert(old(self).in_flight().remove(key_of(task_id)) =~= old(self).in_flight());
            }
            assert(self.in_flight() =~= old(self).in_flight().remove(key_of(task_id)));
            if old(self).wf() {
                Self::lemma_wf_settled(&*old(self), &*self, task_id);
            }
        }
        r
    }

    /// First step of assigning a task: it gets the next task id (which then
    /// moves on, wrapping after `u64::MAX`). A retry keeps the idempotency
    /// id it had; a new event takes its task id as idempotency id.
    pub fn begin_assign(&mut self, postzegel_code: String, idempotency_id: Option<IdemId>) -> (r: (
        WorkAssignment,
        IdemId,
    ))
        ensures
            r.0.task_id == old(self).next_task_id(),
            r.1@ == idempotency_for(idempotency_id, old(self).next_task_id()),
            r.0.idempotency_id == r.1@,
            r.0.postzegel_code@ == postzegel_code@,
            final(self).next_task_id() == next_u64(old(self).next_task_id()),
            final(self).next_worker_id() == old(self).next_worker_id(),
            final(self).queue() == old(self).queue(),
            final(self).busy_sinks() == old(self).busy_sinks(),
            final(self).in_flight() == old(self).in_flight(),
            old(self).wf() && old(self).next_task_id() < u64::MAX ==> final(self).wf(),
    {
        let task_id = self.top_task_id;
        self.top_task_id = self.top_task_id.wrapping_add(1);
        let idempotency_id = match idempotency_id {
            Some(i) => i,
            None => IdemId::new(task_id),
        };
        let work = WorkAssignment {
            task_id,
            idempotency_id: idempotency_id.as_number(),
            postzegel_code,
        };
        proof {
            assert(self.available() == old(self).available());
            assert(self.busy() == old(self).busy());
            assert(self.next_worker_id() == old(self).next_worker_id());
            if old(self).wf() && old(self).next_task_id() < u64::MAX {
                assert forall|k: (u32, u64)| #[trigger] self.in_flight().contains_key(k) implies k.1
                    < self.next_task_id() by {
                    assert(old(self).in_flight().contains_key(k));
                }
                assert(self.wf());
            }
        }
        (work, idempotency_id)
    }

    /// Second step: the worker at the front of the ready queue becomes busy
    /// with `work`, which is now in flight under (worker, task) with its
    /// idempotency id and failure handler. The sink that the worker stood in
    /// the queue with comes back, to send `work` on; a fork of it is kept
    /// for the worker while it is busy. Some worker must be ready (else the
    /// caller waits for one), and it must not be busy (in a well-formed
    /// dispatcher it never is).
    pub fn claim_worker(
        &mut self,
        work: &WorkAssignment,
        idempotency_id: IdemId,
        handler: TaskFailureHandler,
    ) -> (r: (WorkId, Sink<WorkAssignment>))
        requires
            old(self).available().len() > 0,
            !old(self).busy().contains(old(self).available()[0]),
        ensures
            r.0.worker_id == old(self).queue()[0].0,
            r.1 == old(self).queue()[0].1,
            r.0.task_id == work.task_id,
            final(self).queue() == old(self).queue().drop_first(),
            final(self).busy_sinks() == old(self).busy_sinks().insert(
                r.0.worker_id,
                final(self).busy_sinks()[r.0.worker_id],
            ),
            final(self).busy_sinks()[r.0.worker_id].channel_key() == r.1.channel_key(),
            final(self).in_flight() == old(self).in_flight().insert(
                key_of(r.0),
                (idempotency_id@, handler.event()@),
            ),
            final(self).next_worker_id() == old(self).next_worker_id(),
            final(self).next_task_id() == old(self).next_task_id(),
            old(self).wf() && work.task_id < old(self).next_task_id() ==> final(self).wf(),
    {
        let (worker, sender) = self.workers.find_available();
        let work_id = WorkId { worker_id: worker, task_id: work.task_id };
        let _ = in_flight_insert(
            &mut self.in_flight,
            (work_id.worker_id, work_id.task_id),
            (idempotency_id, handler),
        );
        proof {
            if old(self).wf() && work.task_id < old(self).next_task_id() {
                assert forall|i: int| 0 <= i < self.available().len() implies #[trigger] self.available()[i]
                    < self.next_worker_id() by {
                    assert(self.available()[i] == old(self).available()[i + 1]);
                }
                assert forall|k: (u32, u64)| #[trigger] self.in_flight().contains_key(k) implies k.1
                    < self.next_task_id() by {
                    if k != key_of(work_id) {
                        assert(old(self).in_flight().contains_key(k));
                    }
                }
            }
        }
        (work_id, sender)
    }

    /// Last step, once `work` was sent to the worker of `work_id`: on success
    /// the task is assigned and nothing is retried. If sending failed, the
    /// task leaves the tasks in flight, its event is put back on the
    /// backlog as a retry under its idempotency id, and the failure's text
    /// comes back with what the retry's send gave. The worker stays busy
    /// either way.
    pub fn finish_assign(&mut self, work_id: WorkId, sent: Result<(), String>) -> (r: (
        AssignResult,
        RetryOutcome,
    ))
        ensures
            match sent {
                Ok(()) => {
                    &&& r.0 == AssignResult::Assigned(work_id)
                    &&& r.1 is None
                    &&& final(self).in_flight() == old(self).in_flight()
                },
                Err(e) => {
                    &&& r.0 matches AssignResult::Error(msg) && msg@ == e@
                    &&& r.1 is Some <==> old(self).in_flight().contains_key(key_of(work_id))
                    &&& final(self).in_flight() == old(self).in_flight().remove(key_of(work_id))
                },
            },
            refused_retry_matches(r.1, old(self).in_flight(), key_of(work_id)),
            final(self).queue() == old(self).queue(),
            final(self).busy_sinks() == old(self).busy_sinks(),
            final(self).next_worker_id() == old(self).next_worker_id(),
            final(self).next_task_id() == old(self).next_task_id(),
            old(self).wf() ==> final(self).wf(),
    {
        let r = match sent {
            Ok(()) => (AssignResult::Assigned(work_id), None),
            Err(err) => {
                let removed = in_flight_remove(
                    &mut self.in_flight,
                    (work_id.worker_id, work_id.task_id),
                );
                let retry = match removed {
                    Some((_, (idempotency_id, handler))) => Some(handler.fail_task(idempotency_id)),
                    None => None,
                };
                (AssignResult::Error(err), retry)
            },
        };
        proof {
            if old(self).wf() {
                Self::lemma_wf_frame(&*old(self), &*self);
            }
        }
        r
    }

    /// In a well-formed dispatcher the id that the next worker gets is
    /// fresh: no ready or busy worker has it, so registering a worker never
    /// trips the check that it is not busy.
    pub proof fn lemma_next_worker_id_is_fresh(d: &Dispatcher)
        requires
            d.wf(),
        ensures
            !d.busy().contains(d.next_worker_id()),
            !d.available().contains(d.next_worker_id()),
    {
    }

    /// Right after a task is handed to a worker, it is in flight and its
    /// worker is busy; while the ready queue has room it can be settled.
    pub proof fn lemma_claimed_task_can_settle(
        pre: &Dispatcher,
        post: &Dispatcher,
        work_id: WorkId,
        value: (u64, Seq<u8>),
    )
        requires
            post.busy_sinks().dom() == pre.busy_sinks().dom().insert(work_id.worker_id),
            post.in_flight() == pre.in_flight().insert(key_of(work_id), value),
            post.available().len() < READY_CAPACITY,
        ensures
            post.can_settle(work_id),
            post.in_flight().contains_key(key_of(work_id)),
            post.busy().contains(work_id.worker_id),
    {
    }

    /// Round robin: when the worker at the front of the ready queue takes a
    /// task and that task is settled, the queue has turned by one: that
    /// worker now waits behind every worker that was ready before it, with
    /// the sink that was kept for it while it was busy.
    pub proof fn lemma_round_robin(
        pre: &Dispatcher,
        mid: &Dispatcher,
        post: &Dispatcher,
        work_id: WorkId,
        kept: Sink<WorkAssignment>,
        value: (u64, Seq<u8>),
    )
        requires
            pre.queue().len() > 0,
            work_id.worker_id == pre.queue()[0].0,
            mid.queue() == pre.queue().drop_first(),
            mid.busy_sinks() == pre.busy_sinks().insert(work_id.worker_id, kept),
            mid.in_flight() == pre.in_flight().insert(key_of(work_id), value),
            Self::settled(mid, post, work_id),
        ensures
            post.queue() == pre.queue().drop_first().push((pre.queue()[0].0, kept)),
            post.queue().len() == pre.queue().len(),
            !post.in_flight().contains_key(key_of(work_id)),
    {
        assert(mid.in_flight().contains_key(key_of(work_id)));
    }

    /// Settling a task twice (a repeated acknowledgement, or an
    /// acknowledgement after a failure) changes nothing the second time.
    pub proof fn lemma_settling_twice_changes_nothing(
        pre: &Dispatcher,
        mid: &Dispatcher,
        post: &Dispatcher,
        work_id: WorkId,
    )
        requires
            Self::settled(pre, mid, work_id),
            Self::settled(mid, post, work_id),
        ensures
            post.in_flight() == mid.in_flight(),
            post.queue() == mid.queue(),
            post.busy_sinks() == mid.busy_sinks(),
            post.next_worker_id() == mid.next_worker_id(),
            post.next_task_id() == mid.next_task_id(),
    {
        assert(!mid.in_flight().contains_key(key_of(work_id)));
    }

    /// A worker answered: an empty error acknowledges the task (as
    /// `complete_work`, without a retry), any other fails it with that
    /// error as reason (as `fail_work`, with a retry). Either way the task
    /// is settled.
    pub fn handle_ack(&mut self, worker_id: WorkerId, ack: WorkAcknowledgement) -> (r: AckOutcome)
        requires
            old(self).can_settle(WorkId { worker_id, task_id: ack.task_id }),
        ensures
            (ack.error@.len() == 0) <==> r is Completed,
            r matches AckOutcome::Completed(settled) ==> {
                &&& settled is Some <==> old(self).in_flight().contains_key((worker_id, ack.task_id))
                &&& settled matches Some((idem, handler)) ==> {
                    &&& idem@ == old(self).in_flight()[(worker_id, ack.task_id)].0
                    &&& handler.event()@ == old(self).in_flight()[(worker_id, ack.task_id)].1
                }
            },
            r matches AckOutcome::Failed(retry) ==> {
                &&& retry is Some <==> old(self).in_flight().contains_key((worker_id, ack.task_id))
                &&& refused_retry_matches(retry, old(self).in_flight(), (worker_id, ack.task_id))
            },
            Self::settled(&*old(self), &*final(self), WorkId { worker_id, task_id: ack.task_id }),
            old(self).wf() ==> final(self).wf(),
    {
        let task_id = WorkId { worker_id, task_id: ack.task_id };
        if ack.error.as_str().is_empty() {
            AckOutcome::Completed(self.complete_work(task_id))
        } else {
            AckOutcome::Failed(self.fail_work(task_id, FailReason::WorkerError(ack.error)))
        }
    }
}

/// A retried event keeps its idempotency id: its first delivery, as task
/// `first_task`, is made under `first_task`'s own id; the retry entry carries
/// that id; and the retry, whatever task id `retry_task` it gets, is
/// delivered under the same id.
pub proof fn lemma_retry_keeps_idempotency_id(first_task: u64, retry_task: u64, retry: IdemId)
    requires
        retry@ == idempotency_for(None, first_task),
    ensures
        idempotency_for(Some(retry), retry_task) == idempotency_for(None, first_task),
        idempotency_for(None, first_task) == first_task,
{
}

/// Workers get ids 0, 1, 2, ... in the order in which they register, so no
/// id is given twice: `ids` are the ids that successive `new_worker` calls
/// return on a dispatcher made by `Dispatcher::new` (which starts at 0; each
/// call returns the next id and moves it on by `next_u32`, and no other
/// operation moves it), for at most 2^32 registrations.
pub proof fn lemma_worker_ids_in_call_order(ids: Seq<u32>)
    requires
        ids.len() > 0,
        ids.len() <= u32::MAX as int + 1,
        ids[0] == 0,
        forall|i: int| 0 <= i < ids.len() - 1 ==> #[trigger] ids[i + 1] == next_u32(ids[i]),
    ensures
        forall|i: int| 0 <= i < ids.len() ==> #[trigger] ids[i] == i,
        ids.no_duplicates(),
    decreases ids.len(),
{
    if ids.len() > 1 {
        let shorter = ids.drop_last();
        assert forall|i: int| 0 <= i < shorter.len() - 1 implies #[trigger] shorter[i + 1] == next_u32(
            shorter[i],
        ) by {
            assert(shorter[i + 1] == ids[i + 1]);
            assert(shorter[i] == ids[i]);
        }
        lemma_worker_ids_in_call_order(shorter);
        let last = ids.len() - 1;
        assert(shorter[last - 1] == last - 1);
        assert(ids[last] == next_u32(ids[last - 1]));
        assert forall|i: int| 0 <= i < ids.len() implies #[trigger] ids[i] == i by {
            if i < last {
                assert(ids[i] == shorter[i]);
            }
        }
    }
}

/// A task whose send to its worker fails leaves the tasks in flight as they
/// were before it was assigned: it was numbered with the next task id, so in
/// a well-formed dispatcher nothing was in flight under its key before
/// `claim_worker` put it there, and `finish_assign` takes it out again.
pub proof fn lemma_failed_send_restores_in_flight(
    before: &Dispatcher,
    begun: &Dispatcher,
    claimed: &Dispatcher,
    finished: &Dispatcher,
    work_id: WorkId,
    value: (u64, Seq<u8>),
)
    requires
        before.wf(),
        work_id.task_id == before.next_task_id(),
        begun.in_flight() == before.in_flight(),
        claimed.in_flight() == begun.in_flight().insert(key_of(work_id), value),
        finished.in_flight() == claimed.in_flight().remove(key_of(work_id)),
    ensures
        finished.in_flight() == before.in_flight(),
{
    assert(!before.in_flight().contains_key(key_of(work_id)));
    assert(finished.in_flight() =~= before.in_flight());
}

} // verus!
