//! The free functions through which tasks reach the runtime.

use crate::rt::async_agent::AsyncAgent;
use crate::rt::join_handle::LocalJoinHandle;
use crate::rt::join_handle::RemoteJoinHandle;
use crate::rt::ready_after_poll::ReadyAfterPoll;
use crate::rt::runtime_client::RuntimeClient;
use vstd::prelude::*;

verus! {

/// Spawns a task for `future` on the async worker of the calling thread, whose agent
/// is `agent`. The task stays on that worker for good.
pub fn spawn<F>(agent: &mut AsyncAgent<F>, future: F) -> (handle: LocalJoinHandle)
    requires
        old(agent)@.well_formed(),
    ensures
        final(agent)@.well_formed(),
        final(agent)@ == old(agent)@.after_spawn(future),
        handle == (LocalJoinHandle { task: old(agent)@.spawned, worker: old(agent)@.worker }),
{
    agent.spawn(future)
}

/// Spawns a task on some async worker of the runtime of `client`. The future is made by
/// a closure on the worker that the handle names, under the ticket that the handle
/// carries.
pub fn spawn_on_any(client: &RuntimeClient, ticket: u64) -> (handle: RemoteJoinHandle)
    ensures
        handle == (RemoteJoinHandle { ticket, worker: client@.async_worker_for(ticket) }),
        handle.worker < client@.async_workers,
{
    client.spawn_on_any(ticket)
}

/// Yields to the other tasks of the worker: the state that is returned is not ready at
/// its first poll and ready at the next.
pub fn yield_now() -> (state: ReadyAfterPoll)
    ensures
        !state@,
{
    ReadyAfterPoll::default()
}

} // verus!
