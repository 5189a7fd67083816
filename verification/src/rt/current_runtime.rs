//! The registration of a thread with the runtime that owns it.

use crate::rt::runtime_client::RuntimeClient;
use vstd::prelude::*;

verus! {

/// The registration of one thread with the runtime that owns it: empty for a thread
/// that no runtime owns, and set once, at the start of a worker thread, for the others.
#[derive(Debug)]
pub struct CurrentRuntime {
    client: Option<RuntimeClient>,
}

impl View for CurrentRuntime {
    type V = Option<RuntimeClient>;

    closed spec fn view(&self) -> Option<RuntimeClient> {
        self.client
    }
}

impl CurrentRuntime {
    /// The registration of a thread that no runtime owns.
    pub fn new() -> (current: CurrentRuntime)
        ensures
            current@ is None,
    {
        CurrentRuntime { client: None }
    }
}

/// Calls `f` with the client of the runtime that owns the thread.
///
/// The thread must be owned by a runtime.
pub fn with<F, R>(current: &CurrentRuntime, f: F) -> (result: R) where
    F: FnOnce(&RuntimeClient) -> R,

    requires
        current@ is Some,
        call_requires(f, (&current@->0,)),
    ensures
        call_ensures(f, (&current@->0,), result),
{
    match &current.client {
        Some(client) => f(client),
        None => vstd::pervasive::unreached(),
    }
}

/// A copy of the client of the runtime that owns the thread, if one does.
pub fn try_get(current: &CurrentRuntime) -> (client: Option<RuntimeClient>)
    ensures
        client == current@,
{
    current.client
}

/// Whether a runtime owns the thread.
pub fn is_some(current: &CurrentRuntime) -> (registered: bool)
    ensures
        registered == current@ is Some,
{
    current.client.is_some()
}

/// Registers the thread with the runtime of `value`.
///
/// The thread must not be registered yet: a thread belongs to one runtime for good.
pub fn set(current: &mut CurrentRuntime, value: RuntimeClient)
    requires
        old(current)@ is None,
    ensures
        final(current)@ == Some(value),
{
    current.client = Some(value);
}

} // verus!
