//! The handles on spawned tasks.

use vstd::prelude::*;

verus! {

/// The handle on a task that runs on the worker that spawned it. It names the task and
/// the worker; to wait for the task is the business of whoever holds the handle.
#[derive(Debug, Clone, Copy, PartialEq, Eq, Structural)]
pub struct LocalJoinHandle {
    /// The number of the task on its worker.
    pub task: u64,
    /// The worker that spawned the task and runs it.
    pub worker: usize,
}

/// The handle on a task that was placed on some async worker of the runtime, which may
/// be another than the one that asked for it.
#[derive(Debug, Clone, Copy, PartialEq, Eq, Structural)]
pub struct RemoteJoinHandle {
    /// The ticket under which the task was placed.
    pub ticket: u64,
    /// The worker that the task was placed on.
    pub worker: usize,
}

} // verus!
