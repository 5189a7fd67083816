//! The client of a runtime, which places work on the workers.

use crate::rt::join_handle::RemoteJoinHandle;
use vstd::prelude::*;

verus! {

/// The kinds of blocking work that synchronous workers do.
#[derive(Debug, Clone, Copy, PartialEq, Eq, Structural)]
pub enum SynchronousTaskType {
    /// A system call that may block for a while, such as the creation of a socket.
    Syscall,
}

/// The async worker that runs the dispatchers of TCP servers.
pub const TCP_DISPATCHER_WORKER: usize = 0;

/// The client of a runtime: what a thread needs to know to place work on the workers
/// of the runtime that owns it. A runtime has at least one worker of each kind.
#[derive(Debug, Clone, Copy, PartialEq, Eq, Structural)]
pub struct RuntimeClient {
    async_workers: usize,
    sync_workers: usize,
}

/// The mathematical value of a [`RuntimeClient`].
pub struct RuntimeClientView {
    /// Number of async workers of the runtime.
    pub async_workers: usize,
    /// Number of synchronous workers of the runtime.
    pub sync_workers: usize,
}

impl RuntimeClientView {
    /// The async worker that the task with ticket `ticket` is placed on: the workers
    /// take the tickets in turn.
    pub open spec fn async_worker_for(self, ticket: u64) -> usize {
        (ticket as int % self.async_workers as int) as usize
    }

    /// The synchronous worker that the blocking task with ticket `ticket` is placed
    /// on: the workers take the tickets in turn.
    pub open spec fn sync_worker_for(self, ticket: u64) -> usize {
        (ticket as int % self.sync_workers as int) as usize
    }
}

impl View for RuntimeClient {
    type V = RuntimeClientView;

    closed spec fn view(&self) -> RuntimeClientView {
        RuntimeClientView { async_workers: self.async_workers, sync_workers: self.sync_workers }
    }
}

impl RuntimeClient {
    #[verifier::type_invariant]
    spec fn has_workers(&self) -> bool {
        self.async_workers > 0 && self.sync_workers > 0
    }

    /// The client of a runtime with the given numbers of workers.
    pub fn new(async_workers: usize, sync_workers: usize) -> (client: RuntimeClient)
        requires
            async_workers > 0,
            sync_workers > 0,
        ensures
            client@ == (RuntimeClientView { async_workers, sync_workers }),
    {
        RuntimeClient { async_workers, sync_workers }
    }

    /// Number of async workers of the runtime; never zero.
    pub fn async_workers(&self) -> (count: usize)
        ensures
            count == self@.async_workers,
            count > 0,
    {
        proof {
            use_type_invariant(self);
        }
        self.async_workers
    }

    /// Number of synchronous workers of the runtime; never zero.
    pub fn sync_workers(&self) -> (count: usize)
        ensures
            count == self@.sync_workers,
            count > 0,
    {
        proof {
            use_type_invariant(self);
        }
        self.sync_workers
    }

    /// Places a task on some async worker of the runtime. The closure that makes the
    /// task's future travels to that worker and makes the future there, so the future
    /// never crosses threads.
    pub fn spawn_on_any(&self, ticket: u64) -> (handle: RemoteJoinHandle)
        ensures
            handle == (RemoteJoinHandle { ticket, worker: self@.async_worker_for(ticket) }),
            handle.worker < self@.async_workers,
    {
        proof {
            use_type_invariant(self);
        }
        let worker: usize = (ticket % (self.async_workers as u64)) as usize;
        RemoteJoinHandle { ticket, worker }
    }

    /// Places a blocking closure of the given kind on some synchronous worker of the
    /// runtime, and returns the index of that worker.
    pub fn spawn_sync_on_any(&self, kind: SynchronousTaskType, ticket: u64) -> (worker: usize)
        ensures
            worker == self@.sync_worker_for(ticket),
            worker < self@.sync_workers,
    {
        proof {
            use_type_invariant(self);
        }
        (ticket % (self.sync_workers as u64)) as usize
    }

    /// Places the dispatcher of a TCP server: on the async worker that is set apart
    /// for dispatchers.
    pub fn spawn_tcp_dispatcher(&self, ticket: u64) -> (handle: RemoteJoinHandle)
        ensures
            handle == (RemoteJoinHandle { ticket, worker: TCP_DISPATCHER_WORKER }),
            handle.worker < self@.async_workers,
    {
        proof {
            use_type_invariant(self);
        }
        RemoteJoinHandle { ticket, worker: TCP_DISPATCHER_WORKER }
    }
}

} // verus!
