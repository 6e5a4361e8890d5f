//! Laws of the executor: what holds of every run, proved over the worker's
//! model transitions.
//!
//! Each law quantifies over all well-formed worker states, not over one
//! chosen scenario: draining delivers every immediately-completing queued
//! task exactly once, backpressure rejects exactly the submissions beyond
//! capacity, a suspended task woken once is polled again to completion, and
//! a stopped worker polls nothing ever after.

use vstd::prelude::*;

use crate::async_task::{AsyncTaskResult, Computation, completes_now, counter_delta_of};
use crate::worker::{
    Completion, WorkerModel, WorkerStatus, drain_spec, lemma_step_preserves_wf, spawned,
    step_spec, woken,
};

verus! {

/// Every identifier in the ready queue refers to a task whose slot holds a
/// computation that completes on its next poll.
pub open spec fn all_queued_complete_now(m: WorkerModel) -> bool {
    forall|i: int|
        0 <= i < m.queue.len() ==> {
            &&& m.slots[#[trigger] m.queue[i] as int] is Some
            &&& completes_now(m.slots[m.queue[i] as int].unwrap())
        }
}

/// No identifier appears twice in the ready queue.
pub open spec fn queue_distinct(m: WorkerModel) -> bool {
    forall|i: int, j: int|
        0 <= i < j < m.queue.len() ==> #[trigger] m.queue[i] != #[trigger] m.queue[j]
}

/// How many queued tasks hold a counter computation: the total the shared
/// counter will grow by when the queue drains.
pub open spec fn counter_tasks_in(queue: Seq<usize>, slots: Seq<Option<Computation>>) -> int
    decreases queue.len(),
{
    if queue.len() == 0 {
        0
    } else {
        let head: int = if (queue[0] as int) < slots.len() && slots[queue[0] as int] == Some(
            Computation::AddToCounter,
        ) {
            1
        } else {
            0
        };
        head + counter_tasks_in(queue.drop_first(), slots)
    }
}

/// Updating a slot whose identifier is not in the queue does not change how
/// many queued tasks hold a counter computation.
proof fn lemma_counter_tasks_update_out(
    queue: Seq<usize>,
    slots: Seq<Option<Computation>>,
    id: int,
    v: Option<Computation>,
)
    requires
        0 <= id < slots.len(),
        forall|i: int| 0 <= i < queue.len() ==> (#[trigger] queue[i] as int) != id,
    ensures
        counter_tasks_in(queue, slots.update(id, v)) == counter_tasks_in(queue, slots),
    decreases queue.len(),
{
    if queue.len() > 0 {
        assert(forall|i: int|
            0 <= i < queue.drop_first().len() ==> queue.drop_first()[i] == queue[i + 1]);
        lemma_counter_tasks_update_out(queue.drop_first(), slots, id, v);
    }
}

/// Draining leaves alone the slot of a task that is not queued.
proof fn lemma_drain_untouched_slot(m: WorkerModel, id: int)
    requires
        m.wf(),
        0 <= id < m.slots.len(),
        forall|i: int| 0 <= i < m.queue.len() ==> (#[trigger] m.queue[i] as int) != id,
    ensures
        drain_spec(m).slots.len() == m.slots.len(),
        drain_spec(m).slots[id] == m.slots[id],
    decreases m.queue.len(),
{
    if m.status is Running && m.queue.len() > 0 {
        let m1 = step_spec(m);
        lemma_step_preserves_wf(m);
        assert(forall|i: int|
            0 <= i < m.queue.drop_first().len() ==> #[trigger] m.queue.drop_first()[i]
                == m.queue[i + 1]);
        lemma_drain_untouched_slot(m1, id);
    }
}

/// Draining delivers exactly the queued work, each task once.
///
/// If a running worker's queue holds distinct identifiers of tasks that all
/// complete on their next poll, then letting the worker drain leaves the
/// queue empty, delivers exactly one terminal result per queued task — no
/// duplicate and no missing execution, every queued slot ends empty — and
/// grows the shared counter by exactly the number of queued counter
/// computations.
pub proof fn lemma_drain_completes_all(m: WorkerModel)
    requires
        m.wf(),
        m.status is Running,
        all_queued_complete_now(m),
        queue_distinct(m),
    ensures
        drain_spec(m).status == m.status,
        drain_spec(m).queue.len() == 0,
        drain_spec(m).completed.len() == m.completed.len() + m.queue.len(),
        drain_spec(m).counter == m.counter + counter_tasks_in(m.queue, m.slots),
        drain_spec(m).slots.len() == m.slots.len(),
        forall|i: int|
            0 <= i < m.queue.len() ==> drain_spec(m).slots[#[trigger] m.queue[i] as int] is None,
    decreases m.queue.len(),
{
    if m.queue.len() > 0 {
        let id = m.queue[0] as int;
        let c = m.slots[id].unwrap();
        let m1 = step_spec(m);
        lemma_step_preserves_wf(m);
        assert(forall|i: int|
            0 <= i < m.queue.drop_first().len() ==> #[trigger] m.queue.drop_first()[i]
                == m.queue[i + 1]);
        assert(m1.completed.len() == m.completed.len() + 1);
        assert(m1.counter == m.counter + counter_delta_of(c));
        assert(forall|i: int| 0 <= i < m1.queue.len() ==> (#[trigger] m1.queue[i] as int) != id);
        assert(all_queued_complete_now(m1));
        assert(queue_distinct(m1));
        lemma_counter_tasks_update_out(m.queue.drop_first(), m.slots, id, m1.slots[id]);
        lemma_drain_completes_all(m1);
        lemma_drain_untouched_slot(m1, id);
        assert(m1.slots[id] is None);
        assert forall|i: int|
            1 <= i < m.queue.len() implies drain_spec(m1).slots[#[trigger] m.queue[i] as int]
            is None by {
            assert(m1.queue[i - 1] == m.queue[i]);
            assert(drain_spec(m1).slots[m1.queue[i - 1] as int] is None);
        };
    }
}

/// One submission attempt: accepted exactly when the queue has room and the
/// worker has not stopped; a rejected submission leaves the worker untouched.
pub open spec fn spawn_attempt(m: WorkerModel, c: Computation) -> WorkerModel {
    if m.accepts() {
        spawned(m, c)
    } else {
        m
    }
}

/// The worker state after `n` submission attempts in a row, with no
/// concurrent draining.
pub open spec fn spawn_many(m: WorkerModel, c: Computation, n: nat) -> WorkerModel
    decreases n,
{
    if n == 0 {
        m
    } else {
        spawn_many(spawn_attempt(m, c), c, (n - 1) as nat)
    }
}

/// How many of `n` submission attempts in a row are accepted.
pub open spec fn spawn_many_accepted(m: WorkerModel, c: Computation, n: nat) -> int
    decreases n,
{
    if n == 0 {
        0
    } else {
        (if m.accepts() {
            1int
        } else {
            0int
        }) + spawn_many_accepted(spawn_attempt(m, c), c, (n - 1) as nat)
    }
}

/// Backpressure holds: of `n` submissions without concurrent draining, the
/// worker accepts exactly as many as the queue has room for. Submitting up
/// to the remaining room succeeds in full; submitting more sees every
/// submission beyond the bound rejected.
pub proof fn lemma_backpressure(m: WorkerModel, c: Computation, n: nat)
    requires
        !(m.status is Stopped),
        m.queue.len() <= m.capacity,
    ensures
        spawn_many_accepted(m, c, n) == if n <= m.capacity - m.queue.len() {
            n as int
        } else {
            m.capacity - m.queue.len()
        },
        spawn_many(m, c, n).queue.len() == m.queue.len() + spawn_many_accepted(m, c, n),
    decreases n,
{
    if n > 0 {
        lemma_backpressure(spawn_attempt(m, c), c, (n - 1) as nat);
    }
}

/// Wake round-trip correctness.
///
/// A queued task whose computation suspends on its first poll is polled
/// once and left idle: the queue empties and nothing is delivered. One
/// invocation of its wake capability resubmits it — accepted, since the
/// queue has room — and the next poll reaches its terminal result, which is
/// delivered exactly once.
pub proof fn lemma_wake_round_trip(m: WorkerModel, id: usize, r: AsyncTaskResult)
    requires
        m.wf(),
        m.status is Running,
        m.queue == seq![id],
        m.slots[id as int] == Some(Computation::WaitThenFinish(r)),
    ensures
        ({
            let m1 = step_spec(m);
            let m2 = woken(m1, id);
            let m3 = step_spec(m2);
            &&& m1.queue.len() == 0
            &&& m1.slots[id as int] == Some(Computation::Finish(r))
            &&& m1.completed == m.completed
            &&& m1.accepts()
            &&& m2.queue == seq![id]
            &&& m3.queue.len() == 0
            &&& m3.slots[id as int] is None
            &&& m3.completed == m.completed.push(Completion { task_id: id, result: r })
            &&& m3.counter == m.counter
        }),
{
    let m1 = step_spec(m);
    let m2 = woken(m1, id);
    let m3 = step_spec(m2);
    assert(m.queue[0] == id);
    assert(m1.queue =~= m.queue.drop_first());
    assert(m1.queue.len() == 0);
    assert(m2.queue =~= seq![id]);
    assert(m3.queue =~= m2.queue.drop_first());
}

/// The worker state after `n` further iterations of the poll loop.
pub open spec fn steps_spec(m: WorkerModel, n: nat) -> WorkerModel
    decreases n,
{
    if n == 0 {
        m
    } else {
        steps_spec(step_spec(m), (n - 1) as nat)
    }
}

/// A stopped worker is inert: no number of further loop iterations polls
/// anything, delivers anything, or changes any state.
pub proof fn lemma_stopped_is_inert(m: WorkerModel, n: nat)
    requires
        m.status is Stopped,
    ensures
        steps_spec(m, n) == m,
    decreases n,
{
    if n > 0 {
        lemma_stopped_is_inert(m, (n - 1) as nat);
    }
}

/// Stopping halts the worker within one iteration, dropping queued tasks
/// unpolled.
///
/// A worker sent toward `Stopping` exits on its very next loop iteration:
/// the only change is the status becoming `Stopped`. Tasks still queued at
/// that point are dropped unpolled — the queue, the slots, the counter and
/// the delivered results never change again, however many iterations follow.
pub proof fn lemma_stop_halts(m: WorkerModel, n: nat)
    requires
        m.status is Stopping,
    ensures
        step_spec(m) == (WorkerModel { status: WorkerStatus::Stopped, ..m }),
        n >= 1 ==> steps_spec(m, n) == (WorkerModel { status: WorkerStatus::Stopped, ..m }),
{
    if n >= 1 {
        lemma_stopped_is_inert(step_spec(m), (n - 1) as nat);
    }
}

} // verus!
