//! The spawner: the clonable producer side of the ready queue.
//!
//! Any number of spawners, cloned freely across producer contexts, submit
//! work to the same worker and therefore share the same backpressure bound.
//! A submission failure is synchronous and local: the work was never
//! scheduled, and the caller decides whether to retry or drop it.

use vstd::prelude::*;
use vstd::string::StringExecFns;

use crate::async_task::Computation;
use crate::worker::{Worker, spawned, woken};

verus! {

/// Why a submission was rejected: the ready queue is at capacity, or its
/// consumer side is gone (the worker has stopped).
#[derive(Clone, Copy, Debug, PartialEq, Eq, Structural)]
pub enum SpawnError {
    QueueFull,
    Disconnected,
}

/// A handle for submitting work: a clone of the queue's producer side plus
/// a diagnostic source name.
#[derive(Clone)]
pub struct Spawner {
    pub(crate) source_name: String,
}

impl View for Spawner {
    type V = Seq<char>;

    closed spec fn view(&self) -> Seq<char> {
        self.source_name@
    }
}

/// Relies on uuid::Uuid::new_v4 for a fresh random task identity, read out
/// with uuid::Uuid::as_u128. The value is random: nothing is assumed of it,
/// and task uniqueness rests on arena indices instead.
#[verifier::external_body]
fn fresh_uuid() -> u128 {
    uuid::Uuid::new_v4().as_u128()
}

impl Spawner {
    /// A spawner that will mark its tasks as coming from `source_name`.
    pub fn new(source_name: String) -> (s: Spawner)
        ensures
            s@ == source_name@,
    {
        Spawner { source_name }
    }

    /// Wrap `computation` in a fresh task (new identity, this spawner's
    /// diagnostic name) and submit it to the worker's ready queue.
    ///
    /// Accepted exactly when the queue has room and the worker has not
    /// stopped; the new task's identifier, its wake handle, is returned.
    /// On rejection the worker is untouched: the work was never scheduled.
    pub fn spawn_non_blocking(&self, worker: &mut Worker, computation: Computation) -> (r: Result<
        usize,
        SpawnError,
    >)
        requires
            old(worker)@.wf(),
        ensures
            final(worker)@.wf(),
            old(worker)@.status is Stopped ==> r == Err::<usize, SpawnError>(
                SpawnError::Disconnected,
            ) && final(worker)@ == old(worker)@,
            !(old(worker)@.status is Stopped) && old(worker)@.queue.len() >= old(worker)@.capacity
                ==> r == Err::<usize, SpawnError>(SpawnError::QueueFull)
                && final(worker)@ == old(worker)@,
            old(worker)@.accepts() ==> (r matches Ok(id) && id as int == old(worker)@.slots.len())
                && final(worker)@ == spawned(old(worker)@, computation),
    {
        let uuid = fresh_uuid();
        let mut name = self.source_name.clone();
        name.append(" task");
        worker.submit_new(computation, uuid, name)
    }

    /// Resubmit an existing task, by its identifier, to the ready queue:
    /// the operation a task's wake capability performs. Subject to the same
    /// backpressure and disconnection failures as a fresh submission.
    pub fn send(&self, worker: &mut Worker, task_id: usize) -> (r: Result<(), SpawnError>)
        requires
            old(worker)@.wf(),
            (task_id as int) < old(worker)@.slots.len(),
        ensures
            final(worker)@.wf(),
            old(worker)@.status is Stopped ==> r == Err::<(), SpawnError>(
                SpawnError::Disconnected,
            ) && final(worker)@ == old(worker)@,
            !(old(worker)@.status is Stopped) && old(worker)@.queue.len() >= old(worker)@.capacity
                ==> r == Err::<(), SpawnError>(SpawnError::QueueFull)
                && final(worker)@ == old(worker)@,
            old(worker)@.accepts() ==> r == Ok::<(), SpawnError>(()) && final(worker)@ == woken(
                old(worker)@,
                task_id,
            ),
    {
        worker.wake(task_id)
    }

    /// A further handle onto the same producer side, carrying the same
    /// diagnostic source name.
    pub fn clone_sender(&self) -> (s: Spawner)
        ensures
            s@ == self@,
    {
        Spawner { source_name: self.source_name.clone() }
    }
}

} // verus!
