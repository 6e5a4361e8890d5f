//! The worker: the single consumer of the ready queue.
//!
//! A worker owns an arena of tasks (indexed by task identifier), the bounded
//! FIFO ready queue of runnable task identifiers, a status flag driving its
//! poll loop, a shared counter that counter computations increment, and the
//! log of terminal results it has delivered.
//!
//! In a running system the queue, the status flag and the task slots are the
//! only state shared across threads, each protected by channel or lock
//! semantics that serialize access. The functions here make every such
//! serialized transition explicit: `step` is one iteration of the worker's
//! poll loop, `wake` is one invocation of a task's wake capability, and
//! `submit_new` is one submission from a producer. Any interleaving of a run
//! is a sequence of these calls.

use vstd::prelude::*;

use crate::MAX_QUEUED_TASKS;
use crate::async_task::{
    AsyncTask, AsyncTaskResult, Computation, PollOutcome, counter_delta_of, poll_outcome_of,
    slot_after_poll,
};
use crate::spawner::SpawnError;

verus! {

/// Lifecycle of the worker's poll loop: monotonic, no reverse transitions.
/// Once `Stopped`, no further polls occur.
#[derive(Clone, Copy, Debug, PartialEq, Eq, Structural)]
pub enum WorkerStatus {
    Running,
    Stopping,
    Stopped,
}

/// One terminal result the worker delivered: which task finished, and with
/// what result.
#[derive(Clone, Debug, PartialEq, Eq)]
pub struct Completion {
    pub task_id: usize,
    pub result: AsyncTaskResult,
}

/// The mathematical state of a worker: what each contract below speaks of.
#[verifier::ext_equal]
pub ghost struct WorkerModel {
    /// Poll-loop status.
    pub status: WorkerStatus,
    /// Computation slot of each task ever spawned, indexed by task identifier.
    pub slots: Seq<Option<Computation>>,
    /// Ready queue: identifiers of runnable tasks, front first.
    pub queue: Seq<usize>,
    /// Bound on the ready queue; submissions beyond it are rejected.
    pub capacity: int,
    /// The shared counter that counter computations increment.
    pub counter: int,
    /// Terminal results delivered so far, in delivery order.
    pub completed: Seq<Completion>,
}

/// The computation slots of an arena of tasks.
pub open spec fn slots_of(tasks: Seq<AsyncTask>) -> Seq<Option<Computation>> {
    tasks.map_values(|t: AsyncTask| t.slot)
}

impl WorkerModel {
    /// Well-formedness: the queue respects its bound and only holds
    /// identifiers of tasks that exist; the counter never exceeds the number
    /// of delivered results; arena indices fit the machine.
    pub open spec fn wf(self) -> bool {
        &&& self.queue.len() <= self.capacity
        &&& forall|i: int| 0 <= i < self.queue.len() ==> (self.queue[i] as int) < self.slots.len()
        &&& 0 <= self.counter <= self.completed.len()
        &&& self.slots.len() <= usize::MAX
    }

    /// A worker accepts a submission while its consumer side is alive (not
    /// `Stopped`) and the queue has room.
    pub open spec fn accepts(self) -> bool {
        &&& !(self.status is Stopped)
        &&& self.queue.len() < self.capacity
    }
}

/// The state of a freshly started worker: running, empty arena and queue,
/// queue bound fixed at `MAX_QUEUED_TASKS`.
pub open spec fn initial_worker() -> WorkerModel {
    WorkerModel {
        status: WorkerStatus::Running,
        slots: Seq::empty(),
        queue: Seq::empty(),
        capacity: MAX_QUEUED_TASKS as int,
        counter: 0,
        completed: Seq::empty(),
    }
}

/// One iteration of the worker's poll loop.
///
/// `Stopped` workers do nothing; a `Stopping` worker transitions to
/// `Stopped`, leaving still-queued tasks dropped unpolled; a `Running`
/// worker takes the task at the front of the queue, if any, and performs
/// exactly one poll of its computation slot:
/// - an empty slot (the task already finished) is left alone;
/// - a pending poll returns the successor computation to the slot, leaving
///   the task idle until its wake capability is invoked;
/// - a ready poll empties the slot, records the terminal result, and bumps
///   the counter by the computation's contribution.
pub open spec fn step_spec(m: WorkerModel) -> WorkerModel {
    match m.status {
        WorkerStatus::Stopped => m,
        WorkerStatus::Stopping => WorkerModel { status: WorkerStatus::Stopped, ..m },
        WorkerStatus::Running => {
            if m.queue.len() == 0 {
                m
            } else {
                let id = m.queue[0] as int;
                let rest = m.queue.drop_first();
                if !(id < m.slots.len()) {
                    WorkerModel { queue: rest, ..m }
                } else {
                    match m.slots[id] {
                        None => WorkerModel { queue: rest, ..m },
                        Some(c) => match poll_outcome_of(c) {
                            PollOutcome::Pending => WorkerModel {
                                queue: rest,
                                slots: m.slots.update(id, slot_after_poll(c)),
                                ..m
                            },
                            PollOutcome::Ready(r) => WorkerModel {
                                queue: rest,
                                slots: m.slots.update(id, None),
                                counter: m.counter + counter_delta_of(c),
                                completed: m.completed.push(
                                    Completion { task_id: m.queue[0], result: r },
                                ),
                                ..m
                            },
                        },
                    }
                }
            }
        },
    }
}

/// A fresh submission: the new task's slot joins the arena under the next
/// identifier, which is enqueued at the tail.
pub open spec fn spawned(m: WorkerModel, c: Computation) -> WorkerModel {
    WorkerModel {
        slots: m.slots.push(Some(c)),
        queue: m.queue.push(m.slots.len() as usize),
        ..m
    }
}

/// A wake of task `id`: the identifier is resubmitted at the tail of the
/// queue, exactly as a fresh submission; the slot is untouched.
pub open spec fn woken(m: WorkerModel, id: usize) -> WorkerModel {
    WorkerModel { queue: m.queue.push(id), ..m }
}

/// A stop request: a `Running` worker is sent toward `Stopping`; a worker
/// already on its way out is left alone, keeping the status monotonic.
pub open spec fn stop_requested(m: WorkerModel) -> WorkerModel {
    if m.status is Running {
        WorkerModel { status: WorkerStatus::Stopping, ..m }
    } else {
        m
    }
}

/// Repeated poll-loop iterations while the worker is running and work is
/// queued: what "letting the worker drain" means.
pub open spec fn drain_spec(m: WorkerModel) -> WorkerModel
    decreases m.queue.len(),
{
    if m.status is Running && m.queue.len() > 0 {
        drain_spec(step_spec(m))
    } else {
        m
    }
}

/// One poll-loop iteration preserves well-formedness.
pub proof fn lemma_step_preserves_wf(m: WorkerModel)
    requires
        m.wf(),
    ensures
        step_spec(m).wf(),
{
    let m2 = step_spec(m);
    assert(forall|i: int| 0 <= i < m2.queue.len() ==> (m2.queue[i] as int) < m2.slots.len())
        by {
        if m.status is Running && m.queue.len() > 0 {
            assert(forall|i: int|
                0 <= i < m.queue.drop_first().len() ==> m.queue.drop_first()[i] == m.queue[i + 1]);
        }
    };
}

/// The worker: one consumer of the ready queue, an arena of every task ever
/// submitted to it, and the log of results it has delivered.
pub struct Worker {
    pub(crate) status: WorkerStatus,
    pub(crate) tasks: Vec<AsyncTask>,
    pub(crate) queue: Vec<usize>,
    pub(crate) capacity: usize,
    pub(crate) counter: usize,
    pub(crate) completed: Vec<Completion>,
}

impl View for Worker {
    type V = WorkerModel;

    closed spec fn view(&self) -> WorkerModel {
        WorkerModel {
            status: self.status,
            slots: slots_of(self.tasks@),
            queue: self.queue@,
            capacity: self.capacity as int,
            counter: self.counter as int,
            completed: self.completed@,
        }
    }
}

impl Worker {
    /// A freshly started worker, as `start()` creates it: running, with an
    /// empty ready queue bounded at `MAX_QUEUED_TASKS`.
    pub fn new() -> (w: Worker)
        ensures
            w@ == initial_worker(),
            w@.wf(),
    {
        let w = Worker {
            status: WorkerStatus::Running,
            tasks: Vec::new(),
            queue: Vec::new(),
            capacity: MAX_QUEUED_TASKS,
            counter: 0,
            completed: Vec::new(),
        };
        proof {
            assert(w@.slots =~= initial_worker().slots);
            assert(w@ =~= initial_worker());
        }
        w
    }

    /// Perform one iteration of the poll loop; see `step_spec` for the full
    /// case analysis this realizes.
    pub fn step(&mut self)
        requires
            old(self)@.wf(),
        ensures
            final(self)@ == step_spec(old(self)@),
            final(self)@.wf(),
    {
        proof {
            lemma_step_preserves_wf(old(self)@);
        }
        match self.status {
            WorkerStatus::Stopped => {
                proof {
                    assert(self@ =~= step_spec(old(self)@));
                }
            },
            WorkerStatus::Stopping => {
                self.status = WorkerStatus::Stopped;
                proof {
                    assert(self@ =~= step_spec(old(self)@));
                }
            },
            WorkerStatus::Running => {
                if self.queue.len() == 0 {
                    proof {
                        assert(self@ =~= step_spec(old(self)@));
                    }
                } else {
                    let id = self.queue.remove(0);
                    proof {
                        assert(old(self)@.queue[0] == id);
                        assert(self.queue@ =~= old(self)@.queue.drop_first());
                        assert((id as int) < self.tasks@.len());
                    }
                    let t = self.tasks.remove(id);
                    let AsyncTask { task_id: tid, uuid: tuuid, name: tname, slot: prev } = t;
                    let ghost tasks0 = old(self).tasks@;
                    match prev {
                        None => {
                            self.tasks.insert(
                                id,
                                AsyncTask { task_id: tid, uuid: tuuid, name: tname, slot: None },
                            );
                            proof {
                                assert(self.tasks@ =~= tasks0);
                                assert(self@ =~= step_spec(old(self)@));
                            }
                        },
                        Some(c) => {
                            let bump: bool = match &c {
                                Computation::AddToCounter => true,
                                _ => false,
                            };
                            let ghost c0 = c;
                            let (outcome, next) = c.poll_once();
                            self.tasks.insert(
                                id,
                                AsyncTask { task_id: tid, uuid: tuuid, name: tname, slot: next },
                            );
                            proof {
                                assert(self.tasks@ =~= tasks0.update(
                                    id as int,
                                    AsyncTask { task_id: tid, uuid: tuuid, name: tname, slot: next },
                                ));
                                assert(slots_of(self.tasks@) =~= old(self)@.slots.update(
                                    id as int,
                                    slot_after_poll(c0),
                                ));
                            }
                            match outcome {
                                PollOutcome::Pending => {
                                    proof {
                                        assert(self@ =~= step_spec(old(self)@));
                                    }
                                },
                                PollOutcome::Ready(r) => {
                                    self.completed.push(Completion { task_id: id, result: r });
                                    if bump {
                                        let upper = self.completed.len();
                                        proof {
                                            assert(self.counter < upper);
                                        }
                                        self.counter = self.counter + 1;
                                    }
                                    proof {
                                        assert(self@ =~= step_spec(old(self)@));
                                    }
                                },
                            }
                        },
                    }
                }
            },
        }
    }

    /// Run the poll loop until the worker would idle: until it is no longer
    /// running or the ready queue is empty. Equivalent to letting the worker
    /// drain on its own thread while no producer interleaves.
    pub fn run_until_idle(&mut self)
        requires
            old(self)@.wf(),
        ensures
            final(self)@ == drain_spec(old(self)@),
            final(self)@.wf(),
    {
        loop
            invariant
                self@.wf(),
                drain_spec(self@) == drain_spec(old(self)@),
            ensures
                self@.wf(),
                drain_spec(self@) == drain_spec(old(self)@),
                !(self@.status is Running && self@.queue.len() > 0),
            decreases self@.queue.len(),
        {
            let running = match self.status {
                WorkerStatus::Running => true,
                _ => false,
            };
            if !(running && self.queue.len() > 0) {
                break;
            }
            self.step();
        }
    }

    /// One submission from a producer: accept the new task into the arena
    /// and the queue, or reject it, reporting why. `uuid` and `name` are the
    /// diagnostic identity the caller fixed for the task.
    pub(crate) fn submit_new(&mut self, c: Computation, uuid: u128, name: String) -> (r: Result<
        usize,
        SpawnError,
    >)
        requires
            old(self)@.wf(),
        ensures
            final(self)@.wf(),
            old(self)@.status is Stopped ==> r == Err::<usize, SpawnError>(
                SpawnError::Disconnected,
            ) && final(self)@ == old(self)@,
            !(old(self)@.status is Stopped) && old(self)@.queue.len() >= old(self)@.capacity
                ==> r == Err::<usize, SpawnError>(SpawnError::QueueFull)
                && final(self)@ == old(self)@,
            old(self)@.accepts() ==> (r matches Ok(id) && id as int == old(self)@.slots.len())
                && final(self)@ == spawned(old(self)@, c),
    {
        match self.status {
            WorkerStatus::Stopped => {
                return Err(SpawnError::Disconnected);
            },
            _ => {},
        }
        if self.queue.len() >= self.capacity {
            return Err(SpawnError::QueueFull);
        }
        let id = self.tasks.len();
        self.tasks.push(AsyncTask { task_id: id, uuid, name, slot: Some(c) });
        self.queue.push(id);
        let arena_len = self.tasks.len();
        proof {
            assert(slots_of(self.tasks@) =~= old(self)@.slots.push(Some(c)));
            assert(self@ =~= spawned(old(self)@, c));
            assert(self@.slots.len() == arena_len);
            assert forall|i: int| 0 <= i < self@.queue.len() implies (self@.queue[i] as int)
                < self@.slots.len() by {
                if i < old(self)@.queue.len() {
                    assert((old(self)@.queue[i] as int) < old(self)@.slots.len());
                }
            };
        }
        Ok(id)
    }

    /// One invocation of task `task_id`'s wake capability: resubmit the task
    /// to the ready queue, or report recoverably why it could not be. The
    /// capability is not consumed: it may be invoked again, by any number of
    /// completion sources.
    pub fn wake(&mut self, task_id: usize) -> (r: Result<(), SpawnError>)
        requires
            old(self)@.wf(),
            (task_id as int) < old(self)@.slots.len(),
        ensures
            final(self)@.wf(),
            old(self)@.status is Stopped ==> r == Err::<(), SpawnError>(SpawnError::Disconnected)
                && final(self)@ == old(self)@,
            !(old(self)@.status is Stopped) && old(self)@.queue.len() >= old(self)@.capacity
                ==> r == Err::<(), SpawnError>(SpawnError::QueueFull) && final(self)@ == old(self)@,
            old(self)@.accepts() ==> r == Ok::<(), SpawnError>(()) && final(self)@ == woken(
                old(self)@,
                task_id,
            ),
    {
        match self.status {
            WorkerStatus::Stopped => {
                return Err(SpawnError::Disconnected);
            },
            _ => {},
        }
        if self.queue.len() >= self.capacity {
            return Err(SpawnError::QueueFull);
        }
        self.queue.push(task_id);
        proof {
            assert(self@ =~= woken(old(self)@, task_id));
        }
        Ok(())
    }

    /// Ask the poll loop to wind down: a running worker is moved toward
    /// `Stopping`; it exits after observing the change. Fire-and-forget.
    pub fn request_stop(&mut self)
        requires
            old(self)@.wf(),
        ensures
            final(self)@ == stop_requested(old(self)@),
            final(self)@.wf(),
    {
        match self.status {
            WorkerStatus::Running => {
                self.status = WorkerStatus::Stopping;
                proof {
                    assert(self@ =~= stop_requested(old(self)@));
                }
            },
            _ => {
                proof {
                    assert(self@ =~= stop_requested(old(self)@));
                }
            },
        }
    }

    /// Current poll-loop status.
    pub fn status(&self) -> (s: WorkerStatus)
        ensures
            s == self@.status,
    {
        self.status
    }

    /// Number of identifiers currently in the ready queue.
    pub fn queue_len(&self) -> (n: usize)
        ensures
            n == self@.queue.len(),
    {
        self.queue.len()
    }

    /// Bound of the ready queue.
    pub fn capacity(&self) -> (n: usize)
        ensures
            n == self@.capacity,
    {
        self.capacity
    }

    /// Number of tasks ever submitted (the arena size).
    pub fn task_count(&self) -> (n: usize)
        ensures
            n == self@.slots.len(),
    {
        self.tasks.len()
    }

    /// Current value of the shared counter.
    pub fn counter(&self) -> (n: usize)
        ensures
            n == self@.counter,
    {
        self.counter
    }

    /// Number of terminal results delivered so far.
    pub fn completed_len(&self) -> (n: usize)
        ensures
            n == self@.completed.len(),
    {
        self.completed.len()
    }

    /// The `i`-th terminal result delivered, in delivery order.
    pub fn completed_at(&self, i: usize) -> (c: &Completion)
        requires
            i < self@.completed.len(),
        ensures
            *c == self@.completed[i as int],
    {
        &self.completed[i]
    }

    /// Whether task `task_id` still holds a not-yet-finished computation.
    pub fn slot_is_occupied(&self, task_id: usize) -> (b: bool)
        requires
            (task_id as int) < self@.slots.len(),
        ensures
            b == (self@.slots[task_id as int] is Some),
    {
        self.tasks[task_id].slot.is_some()
    }

    /// Diagnostic 128-bit identity of task `task_id`.
    pub fn task_uuid(&self, task_id: usize) -> (u: u128)
        requires
            (task_id as int) < self@.slots.len(),
    {
        self.tasks[task_id].uuid
    }

    /// Diagnostic name of task `task_id`.
    pub fn task_name(&self, task_id: usize) -> (n: &String)
        requires
            (task_id as int) < self@.slots.len(),
    {
        &self.tasks[task_id].name
    }
}

} // verus!
