//! Tasks: schedulable units pairing a suspendable computation with their
//! bookkeeping (identity and diagnostics).
//!
//! A computation is a poll-resumable state machine: one poll step either
//! yields a terminal result from the closed taxonomy (success marker or error
//! message) or suspends, having arranged for an external wake to resubmit the
//! owning task later.

use vstd::prelude::*;

verus! {

/// Marker for the kinds of value a computation may leave behind when it
/// finishes; the runtime itself never interprets the payload further.
pub trait TaskResult {}

impl TaskResult for String {}

impl TaskResult for () {}

/// The terminal result of a computation: a success marker or an error
/// message. The closed taxonomy the worker delivers for every finished task.
#[derive(Clone, Debug, PartialEq, Eq)]
pub enum AsyncTaskResult {
    Success,
    Error(String),
}

/// What one poll step of a computation reports back to the worker.
#[derive(Debug, PartialEq, Eq)]
pub enum PollOutcome {
    /// The computation reached its terminal result; the task is done.
    Ready(AsyncTaskResult),
    /// The computation suspended; it has arranged for a wake to resubmit
    /// the task once its external event arrives.
    Pending,
}

/// A suspendable computation, modelled as an explicit state machine.
///
/// The three shapes cover the behaviours the executor must cope with:
/// finishing on the first poll, suspending once until an external wake
/// arrives, and finishing with a visible side effect (bumping the worker's
/// shared counter).
#[derive(Clone, Debug, PartialEq, Eq)]
pub enum Computation {
    /// Resolves on its first poll with the given terminal result.
    Finish(AsyncTaskResult),
    /// Suspends on its first poll (its wake must be invoked externally),
    /// then resolves with the given terminal result on the next poll.
    WaitThenFinish(AsyncTaskResult),
    /// Resolves on its first poll with a success marker after incrementing
    /// the worker's shared counter by exactly one.
    AddToCounter,
}

/// The outcome a single poll of `c` reports.
pub open spec fn poll_outcome_of(c: Computation) -> PollOutcome {
    match c {
        Computation::Finish(r) => PollOutcome::Ready(r),
        Computation::WaitThenFinish(_) => PollOutcome::Pending,
        Computation::AddToCounter => PollOutcome::Ready(AsyncTaskResult::Success),
    }
}

/// What a single poll of `c` leaves in the task's computation slot:
/// `None` once the terminal result is reached, or the successor state of a
/// suspended computation.
pub open spec fn slot_after_poll(c: Computation) -> Option<Computation> {
    match c {
        Computation::Finish(_) => None,
        Computation::WaitThenFinish(r) => Some(Computation::Finish(r)),
        Computation::AddToCounter => None,
    }
}

/// How much one poll of `c` adds to the worker's shared counter.
pub open spec fn counter_delta_of(c: Computation) -> int {
    match c {
        Computation::AddToCounter => 1,
        _ => 0,
    }
}

/// True of computations that reach their terminal result on the very next
/// poll, without suspending first.
pub open spec fn completes_now(c: Computation) -> bool {
    !(c is WaitThenFinish)
}

impl Computation {
    /// Perform one poll step, consuming this state and handing back the
    /// outcome together with what remains for the slot.
    pub fn poll_once(self) -> (r: (PollOutcome, Option<Computation>))
        ensures
            r.0 == poll_outcome_of(self),
            r.1 == slot_after_poll(self),
    {
        match self {
            Computation::Finish(res) => (PollOutcome::Ready(res), None),
            Computation::WaitThenFinish(res) => (PollOutcome::Pending, Some(Computation::Finish(res))),
            Computation::AddToCounter => (PollOutcome::Ready(AsyncTaskResult::Success), None),
        }
    }
}

/// A schedulable task: an opaque unique identity plus a mutually-exclusive
/// slot holding the not-yet-finished computation, or nothing once the
/// computation has reached its terminal result.
///
/// Tasks live in the worker's arena, indexed by `task_id`; a wake handle for
/// a task is just its identifier, resubmitted to the ready queue.
pub struct AsyncTask {
    /// Arena index of the task, used when resubmitting it to the queue.
    pub task_id: usize,
    /// Random 128-bit identity, for diagnostics only.
    pub uuid: u128,
    /// Human-readable name carrying the source name of the spawner that
    /// submitted the task; diagnostic only.
    pub name: String,
    /// At most one not-yet-finished computation; empty once complete.
    pub slot: Option<Computation>,
}

} // verus!
