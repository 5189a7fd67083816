//! The state behind a cooperative yield.

use vstd::prelude::*;

verus! {

/// The state of a task that yields: it is not ready the first time it is polled, and
/// ready every time after that.
#[derive(Debug, Clone, Copy, PartialEq, Eq, Structural)]
pub struct ReadyAfterPoll {
    first_poll_completed: bool,
}

impl View for ReadyAfterPoll {
    type V = bool;

    /// Whether the first poll has taken place.
    closed spec fn view(&self) -> bool {
        self.first_poll_completed
    }
}

impl ReadyAfterPoll {
    /// Polls once. The result says whether the task may go on: `false` at the first
    /// poll, when the task is to be woken at once and put behind the others that are
    /// ready, and `true` from then on.
    pub fn poll(&mut self) -> (ready: bool)
        ensures
            ready == old(self)@,
            final(self)@,
    {
        let ready = self.first_poll_completed;
        self.first_poll_completed = true;
        ready
    }
}

impl Default for ReadyAfterPoll {
    fn default() -> (state: ReadyAfterPoll)
        ensures
            !state@,
    {
        ReadyAfterPoll { first_poll_completed: false }
    }
}

} // verus!
