use task_runtime::async_task::{AsyncTaskResult, Computation};
use task_runtime::runtime::{AsyncRuntime, RuntimeError};
use task_runtime::worker::WorkerStatus;

#[test]
fn get_spawner_before_start_is_a_configuration_error() {
    let rt = AsyncRuntime::new();
    let got = rt.get_spawner();
    assert!(matches!(got, Err(RuntimeError::NotStarted)));
}

#[test]
fn get_spawner_after_start_is_independently_usable() {
    let mut rt = AsyncRuntime::new();
    rt.start().expect("starting a stopped runtime must succeed");
    let sp_a = rt.get_spawner().expect("a started runtime has a spawner");
    let sp_b = sp_a.clone();
    let sp_c = sp_a.clone_sender();
    let id_a = sp_a
        .spawn_non_blocking(rt.worker_mut(), Computation::Finish(AsyncTaskResult::Success))
        .unwrap();
    let id_b = sp_b
        .spawn_non_blocking(rt.worker_mut(), Computation::Finish(AsyncTaskResult::Success))
        .unwrap();
    let id_c = sp_c
        .spawn_non_blocking(rt.worker_mut(), Computation::Finish(AsyncTaskResult::Success))
        .unwrap();
    assert_eq!((id_a, id_b, id_c), (0, 1, 2));
    rt.worker_mut().run_until_idle();
    assert_eq!(rt.worker_mut().completed_len(), 3);
}

#[test]
fn start_twice_is_rejected() {
    let mut rt = AsyncRuntime::new();
    rt.start().unwrap();
    assert_eq!(rt.start(), Err(RuntimeError::AlreadyRunning));
}

#[test]
fn runtime_can_be_restarted_after_stop() {
    let mut rt = AsyncRuntime::new();
    rt.start().unwrap();
    rt.stop();
    rt.start().expect("a stopped runtime may be started again");
    assert_eq!(rt.worker_mut().status(), WorkerStatus::Running);
}

#[test]
fn stop_drops_queued_tasks_unpolled() {
    let mut rt = AsyncRuntime::new();
    rt.start().unwrap();
    let sp = rt.get_spawner().unwrap();
    for _i in 0..3 {
        sp.spawn_non_blocking(rt.worker_mut(), Computation::AddToCounter).unwrap();
    }
    rt.stop();
    assert_eq!(rt.worker_mut().status(), WorkerStatus::Stopping);
    // The worker observes the stop request on its next iteration and exits;
    // whatever was still queued is dropped without ever being polled.
    rt.worker_mut().step();
    assert_eq!(rt.worker_mut().status(), WorkerStatus::Stopped);
    for _i in 0..10 {
        rt.worker_mut().step();
    }
    assert_eq!(rt.worker_mut().status(), WorkerStatus::Stopped);
    assert_eq!(rt.worker_mut().completed_len(), 0);
    assert_eq!(rt.worker_mut().counter(), 0);
    assert_eq!(rt.worker_mut().queue_len(), 3);
}

#[test]
fn spawner_survives_stop_and_reports_disconnection() {
    let mut rt = AsyncRuntime::new();
    rt.start().unwrap();
    let sp = rt.get_spawner().unwrap();
    rt.stop();
    rt.worker_mut().step();
    let got = sp.spawn_non_blocking(rt.worker_mut(), Computation::AddToCounter);
    assert!(got.is_err());
    assert!(rt.get_spawner().is_ok(), "the spawner handle survives until a restart replaces it");
}

#[test]
fn concrete_counter_scenario() {
    // Start the runtime, submit five computations that each increment the
    // shared counter and immediately complete, let the worker drain: the
    // counter reads exactly five, one increment per computation.
    let mut rt = AsyncRuntime::new();
    rt.start().unwrap();
    let sp = rt.get_spawner().unwrap();
    for _i in 0..5 {
        sp.spawn_non_blocking(rt.worker_mut(), Computation::AddToCounter).unwrap();
    }
    rt.worker_mut().run_until_idle();
    assert_eq!(rt.worker_mut().counter(), 5);
    assert_eq!(rt.worker_mut().completed_len(), 5);
    assert_eq!(rt.worker_mut().queue_len(), 0);
}

#[test]
fn task_diagnostics_carry_the_spawner_name() {
    let mut rt = AsyncRuntime::new();
    rt.start().unwrap();
    let sp = rt.get_spawner().unwrap();
    let id = sp
        .spawn_non_blocking(rt.worker_mut(), Computation::Finish(AsyncTaskResult::Success))
        .unwrap();
    assert_eq!(rt.worker_mut().task_name(id), "Runtime task");
    // The random identity comes from a version-4 UUID: its version nibble
    // is fixed even though the rest of the value is random.
    let uuid = rt.worker_mut().task_uuid(id);
    assert_eq!((uuid >> 76) & 0xF, 4);
}
