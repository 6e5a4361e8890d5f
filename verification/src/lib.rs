//! A minimal cooperative task executor: a runtime that accepts suspendable
//! units of work, drives them to completion on one dedicated worker, and
//! re-schedules them when they signal readiness through a wake capability.
//!
//! The moving parts: a bounded multi-producer/single-consumer ready queue of
//! runnable task identifiers (the sole backpressure mechanism), a clonable
//! spawner wrapping the queue's producer side, a worker holding the consumer
//! side that polls one task per loop iteration, and a runtime owning the
//! lifecycle. Each shared-state transition of the protocol — a submission, a
//! wake, one iteration of the worker's loop, a stop request — is an
//! executable function whose contract states the transition exactly, and the
//! laws in `laws` prove what holds of whole runs: draining delivers every
//! queued task exactly once, backpressure rejects exactly the submissions
//! beyond capacity, a woken task is polled again to completion, and a
//! stopped worker never polls again.

pub mod async_task;
pub mod laws;
pub mod runtime;
pub mod spawner;
pub mod worker;

use vstd::prelude::*;

verus! {

/// Greatest number of runnable tasks the ready queue will hold at once;
/// submissions beyond this bound are rejected, never buffered.
pub const MAX_QUEUED_TASKS: usize = 10_000;

} // verus!
