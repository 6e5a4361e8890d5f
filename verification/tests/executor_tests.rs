use task_runtime::MAX_QUEUED_TASKS;
use task_runtime::async_task::{AsyncTaskResult, Computation, PollOutcome};
use task_runtime::spawner::{SpawnError, Spawner};
use task_runtime::worker::{Worker, WorkerStatus};

#[test]
fn drain_trivial_computations() {
    let mut w = Worker::new();
    let sp = Spawner::new(String::from("test"));
    for _i in 0..5 {
        sp.spawn_non_blocking(&mut w, Computation::Finish(AsyncTaskResult::Success))
            .expect("submission within capacity must be accepted");
    }
    assert_eq!(w.queue_len(), 5);
    w.run_until_idle();
    assert_eq!(w.completed_len(), 5);
    assert_eq!(w.queue_len(), 0);
    for i in 0..5 {
        let c = w.completed_at(i);
        assert_eq!(c.task_id, i);
        assert_eq!(c.result, AsyncTaskResult::Success);
    }
}

#[test]
fn fifo_order_of_distinct_submissions() {
    let mut w = Worker::new();
    let sp = Spawner::new(String::from("test"));
    sp.spawn_non_blocking(&mut w, Computation::Finish(AsyncTaskResult::Error(String::from("a"))))
        .unwrap();
    sp.spawn_non_blocking(&mut w, Computation::Finish(AsyncTaskResult::Success)).unwrap();
    sp.spawn_non_blocking(&mut w, Computation::Finish(AsyncTaskResult::Error(String::from("b"))))
        .unwrap();
    w.run_until_idle();
    assert_eq!(w.completed_len(), 3);
    assert_eq!(w.completed_at(0).task_id, 0);
    assert_eq!(w.completed_at(0).result, AsyncTaskResult::Error(String::from("a")));
    assert_eq!(w.completed_at(1).task_id, 1);
    assert_eq!(w.completed_at(1).result, AsyncTaskResult::Success);
    assert_eq!(w.completed_at(2).task_id, 2);
    assert_eq!(w.completed_at(2).result, AsyncTaskResult::Error(String::from("b")));
}

#[test]
fn backpressure_rejects_beyond_capacity() {
    let mut w = Worker::new();
    let sp = Spawner::new(String::from("test"));
    assert_eq!(w.capacity(), MAX_QUEUED_TASKS);
    for _i in 0..MAX_QUEUED_TASKS {
        sp.spawn_non_blocking(&mut w, Computation::Finish(AsyncTaskResult::Success))
            .expect("submissions up to capacity must all be accepted");
    }
    let overflow = sp.spawn_non_blocking(&mut w, Computation::Finish(AsyncTaskResult::Success));
    assert_eq!(overflow, Err(SpawnError::QueueFull));
    assert_eq!(w.queue_len(), MAX_QUEUED_TASKS);
    assert_eq!(w.task_count(), MAX_QUEUED_TASKS);
}

#[test]
fn wake_round_trip_reaches_terminal_result() {
    let mut w = Worker::new();
    let sp = Spawner::new(String::from("test"));
    let id = sp
        .spawn_non_blocking(
            &mut w,
            Computation::WaitThenFinish(AsyncTaskResult::Error(String::from("late"))),
        )
        .unwrap();
    w.step();
    assert_eq!(w.completed_len(), 0);
    assert_eq!(w.queue_len(), 0);
    assert!(w.slot_is_occupied(id), "a suspended task keeps its computation");
    sp.send(&mut w, id).expect("wake resubmission must be accepted while there is room");
    assert_eq!(w.queue_len(), 1);
    w.step();
    assert_eq!(w.completed_len(), 1);
    assert_eq!(w.completed_at(0).task_id, id);
    assert_eq!(w.completed_at(0).result, AsyncTaskResult::Error(String::from("late")));
    assert!(!w.slot_is_occupied(id));
}

#[test]
fn suspended_task_is_never_repolled_without_wake() {
    let mut w = Worker::new();
    let sp = Spawner::new(String::from("test"));
    let id = sp
        .spawn_non_blocking(&mut w, Computation::WaitThenFinish(AsyncTaskResult::Success))
        .unwrap();
    w.run_until_idle();
    assert_eq!(w.completed_len(), 0);
    assert_eq!(w.queue_len(), 0);
    assert!(w.slot_is_occupied(id));
}

#[test]
fn duplicate_wake_is_harmless() {
    let mut w = Worker::new();
    let sp = Spawner::new(String::from("test"));
    let id = sp
        .spawn_non_blocking(&mut w, Computation::WaitThenFinish(AsyncTaskResult::Success))
        .unwrap();
    w.step();
    // Two completion sources race to wake the same task: it may appear in
    // the queue twice, and the second poll finds the slot already empty.
    sp.send(&mut w, id).unwrap();
    sp.send(&mut w, id).unwrap();
    assert_eq!(w.queue_len(), 2);
    w.run_until_idle();
    assert_eq!(w.completed_len(), 1);
    assert_eq!(w.completed_at(0).task_id, id);
    assert_eq!(w.completed_at(0).result, AsyncTaskResult::Success);
}

#[test]
fn counter_computations_each_increment_once() {
    let mut w = Worker::new();
    let sp = Spawner::new(String::from("test"));
    for _i in 0..5 {
        sp.spawn_non_blocking(&mut w, Computation::AddToCounter).unwrap();
    }
    assert_eq!(w.counter(), 0);
    w.run_until_idle();
    assert_eq!(w.counter(), 5);
    assert_eq!(w.completed_len(), 5);
    for i in 0..5 {
        assert_eq!(w.completed_at(i).result, AsyncTaskResult::Success);
    }
}

#[test]
fn submissions_after_worker_stopped_are_disconnected() {
    let mut w = Worker::new();
    let sp = Spawner::new(String::from("test"));
    let id = sp
        .spawn_non_blocking(&mut w, Computation::WaitThenFinish(AsyncTaskResult::Success))
        .unwrap();
    w.request_stop();
    assert_eq!(w.status(), WorkerStatus::Stopping);
    // The consumer is still alive while stopping: submissions are accepted.
    sp.spawn_non_blocking(&mut w, Computation::Finish(AsyncTaskResult::Success)).unwrap();
    w.step();
    assert_eq!(w.status(), WorkerStatus::Stopped);
    let spawn_after = sp.spawn_non_blocking(&mut w, Computation::Finish(AsyncTaskResult::Success));
    assert_eq!(spawn_after, Err(SpawnError::Disconnected));
    let wake_after = sp.send(&mut w, id);
    assert_eq!(wake_after, Err(SpawnError::Disconnected));
}

#[test]
fn poll_once_semantics() {
    let (outcome, next) = Computation::Finish(AsyncTaskResult::Success).poll_once();
    assert_eq!(outcome, PollOutcome::Ready(AsyncTaskResult::Success));
    assert!(next.is_none());
    let (outcome, next) = Computation::WaitThenFinish(AsyncTaskResult::Success).poll_once();
    assert_eq!(outcome, PollOutcome::Pending);
    assert_eq!(next, Some(Computation::Finish(AsyncTaskResult::Success)));
    let (outcome, next) = Computation::AddToCounter.poll_once();
    assert_eq!(outcome, PollOutcome::Ready(AsyncTaskResult::Success));
    assert!(next.is_none());
}
