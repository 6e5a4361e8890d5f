//! The runtime: lifecycle control around one worker and one spawner.
//!
//! A runtime is a process-scoped object with explicit start and stop. It
//! does not auto-start: until `start()` there is no worker and no spawner,
//! and asking for a spawner fails with a configuration error. `stop()` is
//! fire-and-forget: it sends the worker toward `Stopping`, and the worker
//! exits after observing the change on a later iteration of its loop.

use vstd::prelude::*;
use vstd::pervasive::unreached;
use vstd::string::StringExecFns;

use crate::spawner::Spawner;
use crate::worker::{Worker, WorkerModel, initial_worker, stop_requested};

verus! {

/// Lifecycle of the runtime itself.
#[derive(Clone, Copy, Debug, PartialEq, Eq, Structural)]
pub enum RuntimeStatus {
    Stopped,
    Running,
}

/// Configuration errors of the runtime lifecycle.
#[derive(Clone, Copy, Debug, PartialEq, Eq, Structural)]
pub enum RuntimeError {
    /// `start()` was called while the runtime was already running.
    AlreadyRunning,
    /// A spawner was requested before the runtime was ever started.
    NotStarted,
}

/// The mathematical state of a runtime: its status, the state of its worker
/// if one was started, and the source name of its spawner if one exists.
#[verifier::ext_equal]
pub ghost struct RuntimeModel {
    pub status: RuntimeStatus,
    pub worker: Option<WorkerModel>,
    pub spawner: Option<Seq<char>>,
}

impl RuntimeModel {
    /// Well-formedness: the worker, if any, is well-formed.
    pub open spec fn wf(self) -> bool {
        match self.worker {
            Some(w) => w.wf(),
            None => true,
        }
    }
}

/// A runtime owning at most one worker and one spawner at a time.
pub struct AsyncRuntime {
    status: RuntimeStatus,
    worker: Option<Worker>,
    spawner: Option<Spawner>,
}

impl View for AsyncRuntime {
    type V = RuntimeModel;

    closed spec fn view(&self) -> RuntimeModel {
        RuntimeModel {
            status: self.status,
            worker: match self.worker {
                Some(w) => Some(w@),
                None => None,
            },
            spawner: match self.spawner {
                Some(s) => Some(s@),
                None => None,
            },
        }
    }
}

impl AsyncRuntime {
    /// A stopped runtime with no worker and no spawner.
    pub fn new() -> (rt: AsyncRuntime)
        ensures
            rt@.status is Stopped,
            rt@.worker is None,
            rt@.spawner is None,
            rt@.wf(),
    {
        AsyncRuntime { status: RuntimeStatus::Stopped, worker: None, spawner: None }
    }

    /// Start the runtime: create the bounded ready queue with its worker,
    /// and a spawner bound to the queue's producer side.
    ///
    /// Starting an already running runtime fails rather than silently
    /// replacing the live worker and spawner.
    pub fn start(&mut self) -> (r: Result<(), RuntimeError>)
        requires
            old(self)@.wf(),
        ensures
            final(self)@.wf(),
            old(self)@.status is Running ==> r == Err::<(), RuntimeError>(
                RuntimeError::AlreadyRunning,
            ) && final(self)@ == old(self)@,
            old(self)@.status is Stopped ==> r == Ok::<(), RuntimeError>(())
                && final(self)@.status is Running
                && final(self)@.worker == Some(initial_worker())
                && final(self)@.spawner == Some("Runtime"@),
    {
        match self.status {
            RuntimeStatus::Running => Err(RuntimeError::AlreadyRunning),
            RuntimeStatus::Stopped => {
                self.worker = Some(Worker::new());
                self.spawner = Some(Spawner::new(String::from_str("Runtime")));
                self.status = RuntimeStatus::Running;
                Ok(())
            },
        }
    }

    /// A clone of the current spawner, independently usable by any producer
    /// context; fails with the configuration error if the runtime was never
    /// started.
    pub fn get_spawner(&self) -> (r: Result<Spawner, RuntimeError>)
        ensures
            self@.spawner matches Some(name) ==> (r matches Ok(s) && s@ == name),
            self@.spawner is None ==> r == Err::<Spawner, RuntimeError>(RuntimeError::NotStarted),
    {
        match &self.spawner {
            None => Err(RuntimeError::NotStarted),
            Some(sp) => Ok(sp.clone_sender()),
        }
    }

    /// Stop the runtime: send the worker toward `Stopping` and mark the
    /// runtime stopped. Fire-and-forget: the call does not wait for the
    /// worker to exit, and the spawner handle survives until a restart
    /// replaces it.
    pub fn stop(&mut self)
        requires
            old(self)@.wf(),
        ensures
            final(self)@.wf(),
            final(self)@.status is Stopped,
            old(self)@.worker matches Some(w) ==> final(self)@.worker == Some(stop_requested(w)),
            old(self)@.worker is None ==> final(self)@.worker is None,
            final(self)@.spawner == old(self)@.spawner,
    {
        match &mut self.worker {
            Some(w) => {
                w.request_stop();
            },
            None => {},
        }
        self.status = RuntimeStatus::Stopped;
    }

    /// Exclusive access to the worker's shared state, for driving its poll
    /// loop and wake transitions explicitly.
    pub fn worker_mut(&mut self) -> (w: &mut Worker)
        requires
            old(self)@.worker is Some,
        ensures
            (*w)@ == old(self)@.worker.unwrap(),
            final(self)@.worker == Some((*final(w))@),
            final(self)@.status == old(self)@.status,
            final(self)@.spawner == old(self)@.spawner,
    {
        match &mut self.worker {
            Some(w) => w,
            None => unreached(),
        }
    }

    /// Read access to the worker's shared state, if a worker exists.
    pub fn worker_ref(&self) -> (w: Option<&Worker>)
        ensures
            self@.worker is Some <==> w is Some,
            w matches Some(wr) ==> self@.worker == Some((*wr)@),
    {
        match &self.worker {
            Some(w) => Some(w),
            None => None,
        }
    }
}

} // verus!
