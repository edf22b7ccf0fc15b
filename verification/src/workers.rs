//! The worker pool: workers that are ready, in the order in which they
//! became ready, and workers that are busy with a task.

use vstd::prelude::*;
use std::collections::VecDeque;
use dashmap::DashMap;
use crate::channel::{Fork, Sink};
use crate::rpc::WorkAssignment;

verus! {

/// A worker's number, given out when it connects.
pub type WorkerId = u32;

#[verifier::external_type_specification]
#[verifier::external_body]
#[verifier::reject_recursive_types(K)]
#[verifier::reject_recursive_types(V)]
#[verifier::reject_recursive_types(S)]
pub struct ExDashMap<K, V, S>(DashMap<K, V, S>);

/// What a map of busy workers holds: each busy worker's id, with the sink
/// kept for it.
pub uninterp spec fn busy_workers(m: DashMap<u32, Sink<WorkAssignment>>) -> Map<u32, Sink<WorkAssignment>>;

/// `DashMap::with_capacity`: an empty map. Its source rounds the capacity
/// up to a multiple of the shard count and allocates; the `requires` keeps
/// the capacity far from where that could overflow.
#[verifier::external_body]
fn busy_with_capacity(capacity: usize) -> (m: DashMap<u32, Sink<WorkAssignment>>)
    requires
        capacity <= 0x10_0000,
    ensures
        busy_workers(m).dom().is_empty(),
{
    DashMap::with_capacity(capacity)
}

/// `DashMap::contains_key`: whether the map holds `worker`.
#[verifier::external_body]
fn busy_contains(m: &DashMap<u32, Sink<WorkAssignment>>, worker: u32) -> (r: bool)
    ensures
        r == busy_workers(*m).contains_key(worker),
{
    m.contains_key(&worker)
}

/// `DashMap::insert`: maps `worker` to `handle`; the old value comes back
/// when the map held `worker` already.
#[verifier::external_body]
fn busy_insert(
    m: &mut DashMap<u32, Sink<WorkAssignment>>,
    worker: u32,
    handle: Sink<WorkAssignment>,
) -> (r: Option<Sink<WorkAssignment>>)
    ensures
        busy_workers(*final(m)) == busy_workers(*old(m)).insert(worker, handle),
        r is Some <==> busy_workers(*old(m)).contains_key(worker),
        r matches Some(v) ==> v == busy_workers(*old(m))[worker],
{
    m.insert(worker, handle)
}

/// `DashMap::remove`: takes `worker` out, and hands back its key and value
/// when the map held it.
#[verifier::external_body]
fn busy_remove(m: &mut DashMap<u32, Sink<WorkAssignment>>, worker: u32) -> (r: Option<
    (u32, Sink<WorkAssignment>),
>)
    ensures
        busy_workers(*final(m)) == busy_workers(*old(m)).remove(worker),
        r is Some <==> busy_workers(*old(m)).contains_key(worker),
        r matches Some((k, v)) ==> k == worker && v == busy_workers(*old(m))[worker],
{
    m.remove(&worker)
}

/// The ids in a queue of ready workers, front first.
pub open spec fn queue_ids(q: Seq<(u32, Sink<WorkAssignment>)>) -> Seq<u32> {
    q.map_values(|e: (u32, Sink<WorkAssignment>)| e.0)
}

/// The capacity with which the map of busy workers starts.
pub const BUSY_CAPACITY: usize = 1024;

/// How many ready workers the queue holds at most; a worker that becomes
/// ready while it is full waits for room.
pub const READY_CAPACITY: usize = 1024;

/// The worker pool. Each worker carries the sink on which it gets its
/// assignments.
pub struct Workers {
    available: VecDeque<(WorkerId, Sink<WorkAssignment>)>,
    busy: DashMap<WorkerId, Sink<WorkAssignment>>,
}

impl Workers {
    /// The ready workers with their sinks, in the order in which they will
    /// be handed out.
    pub closed spec fn queue(&self) -> Seq<(u32, Sink<WorkAssignment>)> {
        self.available@
    }

    /// The ids of the ready workers, front first.
    pub open spec fn available(&self) -> Seq<u32> {
        queue_ids(self.queue())
    }

    /// The busy workers, each with the sink kept for it.
    pub closed spec fn busy_sinks(&self) -> Map<u32, Sink<WorkAssignment>> {
        busy_workers(self.busy)
    }

    /// The ids of the busy workers.
    pub open spec fn busy(&self) -> Set<u32> {
        self.busy_sinks().dom()
    }

    /// No worker is ready twice, and no worker is both ready and busy.
    pub open spec fn wf(&self) -> bool {
        &&& self.available().no_duplicates()
        &&& forall|i: int|
            0 <= i < self.available().len() ==> !self.busy().contains(
                #[trigger] self.available()[i],
            )
    }

    /// An empty pool.
    pub fn new() -> (r: Workers)
        ensures
            r.queue() == Seq::<(u32, Sink<WorkAssignment>)>::empty(),
            r.available() == Seq::<u32>::empty(),
            r.busy() == Set::<u32>::empty(),
            r.wf(),
    {
        let r = Workers { available: VecDeque::new(), busy: busy_with_capacity(BUSY_CAPACITY) };
        proof {
            assert(r.available() =~= Seq::<u32>::empty());
            assert(r.busy() =~= Set::<u32>::empty());
        }
        r
    }

    /// Whether `worker` is busy.
    pub fn is_busy(&self, worker: WorkerId) -> (r: bool)
        ensures
            r == self.busy().contains(worker),
    {
        busy_contains(&self.busy, worker)
    }

    /// Whether some worker is ready.
    pub fn has_available(&self) -> (r: bool)
        ensures
            r == (self.available().len() > 0),
    {
        self.available.len() > 0
    }

    /// Whether the ready queue has room for one more worker.
    pub fn has_room(&self) -> (r: bool)
        ensures
            r == (self.available().len() < READY_CAPACITY),
    {
        self.available.len() < READY_CAPACITY
    }

    /// Whether the front of the ready queue can be handed out: some worker
    /// is ready and the one in front is not busy.
    pub fn can_hand_out(&self) -> (r: bool)
        ensures
            r == (self.available().len() > 0 && !self.busy().contains(self.available()[0])),
    {
        if self.available.len() == 0 {
            return false;
        }
        let front: WorkerId = self.available[0].0;
        proof {
            assert(self.available()[0] == self.available@[0].0);
        }
        !busy_contains(&self.busy, front)
    }

    /// A new worker joins at the back of the ready queue with its sink. It
    /// must not be busy, and the queue must have room (a full queue makes
    /// the caller wait).
    pub fn add_new(&mut self, worker: WorkerId, data: Sink<WorkAssignment>)
        requires
            !old(self).busy().contains(worker),
            old(self).available().len() < READY_CAPACITY,
        ensures
            final(self).queue() == old(self).queue().push((worker, data)),
            final(self).available() == old(self).available().push(worker),
            final(self).busy_sinks() == old(self).busy_sinks(),
            old(self).wf() && !old(self).available().contains(worker) ==> final(self).wf(),
    {
        let ghost q = self.available@;
        self.available.push_back((worker, data));
        proof {
            assert(queue_ids(q.push((worker, data))) =~= queue_ids(q).push(worker));
        }
    }

    /// Forgets that `worker` is busy. A ready worker stays in the queue.
    pub fn remove(&mut self, worker: WorkerId)
        ensures
            final(self).queue() == old(self).queue(),
            final(self).available() == old(self).available(),
            final(self).busy_sinks() == old(self).busy_sinks().remove(worker),
            final(self).busy() == old(self).busy().remove(worker),
            old(self).wf() ==> final(self).wf(),
    {
        let _ = busy_remove(&mut self.busy, worker);
    }

    /// A busy worker becomes ready: it leaves the busy set and joins the back
    /// of the ready queue with the sink that was kept for it. It must be
    /// busy, and the queue must have room (a full queue makes the caller
    /// wait).
    pub fn mark_ready(&mut self, worker: WorkerId)
        requires
            old(self).busy().contains(worker),
            old(self).available().len() < READY_CAPACITY,
        ensures
            final(self).queue() == old(self).queue().push((worker, old(self).busy_sinks()[worker])),
            final(self).available() == old(self).available().push(worker),
            final(self).busy_sinks() == old(self).busy_sinks().remove(worker),
            final(self).busy() == old(self).busy().remove(worker),
            old(self).wf() ==> final(self).wf(),
    {
        let ghost q = self.available@;
        let existing = busy_remove(&mut self.busy, worker);
        match existing {
            Some(worker_data) => {
                proof {
                    assert(queue_ids(q.push(worker_data)) =~= queue_ids(q).push(worker));
                }
                self.available.push_back(worker_data);
            },
            None => vstd::pervasive::unreached(),
        }
    }

    /// The worker at the front of the ready queue becomes busy and is handed
    /// out with its sink, exactly as it stands in the queue; a fork of that
    /// sink is kept for it while it is busy. The queue must not be empty
    /// (the caller waits for a worker instead) and that worker must not be
    /// busy already.
    pub fn find_available(&mut self) -> (r: (WorkerId, Sink<WorkAssignment>))
        requires
            old(self).available().len() > 0,
            !old(self).busy().contains(old(self).available()[0]),
        ensures
            r == old(self).queue()[0],
            r.0 == old(self).available()[0],
            final(self).queue() == old(self).queue().drop_first(),
            final(self).available() == old(self).available().drop_first(),
            final(self).busy_sinks() == old(self).busy_sinks().insert(
                r.0,
                final(self).busy_sinks()[r.0],
            ),
            final(self).busy_sinks()[r.0].channel_key() == r.1.channel_key(),
            final(self).busy() == old(self).busy().insert(r.0),
            old(self).wf() ==> final(self).wf(),
    {
        let ghost q = self.available@;
        let front = self.available.pop_front();
        match front {
            Some((worker_id, data)) => {
                proof {
                    assert(queue_ids(q.subrange(1, q.len() as int)) =~= queue_ids(q).drop_first());
                    assert(q.subrange(1, q.len() as int) =~= q.drop_first());
                }
                let existing = busy_insert(&mut self.busy, worker_id, data.fork());
                match existing {
                    Some(_) => vstd::pervasive::unreached(),
                    None => (worker_id, data),
                }
            },
            None => vstd::pervasive::unreached(),
        }
    }
}

} // verus!
