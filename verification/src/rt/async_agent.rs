//! The executor of one async worker.

use crate::rt::join_handle::LocalJoinHandle;
use vstd::prelude::*;

verus! {

/// A task of one async worker: what the worker polls, under the number it has there.
#[derive(Debug)]
pub struct Task<T> {
    /// The number of the task on its worker.
    pub id: u64,
    /// The worker that the task was spawned on.
    pub home: usize,
    /// What is polled: the future, as the embedding program holds it.
    pub future: T,
}

/// The executor of one async worker: a queue of the tasks that are ready to be polled,
/// served first come, first served, by the thread of the worker alone.
#[derive(Debug)]
pub struct AsyncAgent<T> {
    worker: usize,
    spawned: u64,
    ready: Vec<Task<T>>,
}

/// The mathematical value of an [`AsyncAgent`].
pub struct AsyncAgentView<T> {
    /// The worker that the agent serves.
    pub worker: usize,
    /// The number that the next task gets: the number of tasks spawned on the worker
    /// so far, which stops counting at the last number there is.
    pub spawned: u64,
    /// The tasks that are ready, the next one to be polled first.
    pub ready: Seq<Task<T>>,
}

/// Everything that can happen to the queue of an agent.
pub enum AgentEvent<T> {
    /// A future is spawned on the worker.
    Spawn(T),
    /// The worker takes the next task to poll it.
    Next,
    /// A task that was polled is offered to the queue again.
    Reschedule(Task<T>),
}

impl<T> AsyncAgentView<T> {
    /// What every agent satisfies: each task in its queue was spawned on its worker.
    pub open spec fn well_formed(self) -> bool {
        forall|i: int| 0 <= i < self.ready.len() ==> (#[trigger] self.ready[i]).home == self.worker
    }

    /// The agent after a task with the given future was spawned on it.
    pub open spec fn after_spawn(self, future: T) -> AsyncAgentView<T> {
        AsyncAgentView {
            spawned: if self.spawned < u64::MAX {
                (self.spawned + 1) as u64
            } else {
                self.spawned
            },
            ready: self.ready.push(Task { id: self.spawned, home: self.worker, future }),
            ..self
        }
    }

    /// The task that the worker polls next, if one is ready.
    pub open spec fn next_task(self) -> Option<Task<T>> {
        if self.ready.len() > 0 {
            Some(self.ready[0])
        } else {
            None
        }
    }

    /// The agent after the worker took the next task.
    pub open spec fn after_next(self) -> AsyncAgentView<T> {
        if self.ready.len() > 0 {
            AsyncAgentView { ready: self.ready.subrange(1, self.ready.len() as int), ..self }
        } else {
            self
        }
    }

    /// Whether the agent takes `task` into its queue: only a task of its own worker.
    pub open spec fn accepts(self, task: Task<T>) -> bool {
        task.home == self.worker
    }

    /// The agent after `task` was offered to its queue.
    pub open spec fn after_reschedule(self, task: Task<T>) -> AsyncAgentView<T> {
        if self.accepts(task) {
            AsyncAgentView { ready: self.ready.push(task), ..self }
        } else {
            self
        }
    }

    /// The agent after `event`.
    pub open spec fn step(self, event: AgentEvent<T>) -> AsyncAgentView<T> {
        match event {
            AgentEvent::Spawn(future) => self.after_spawn(future),
            AgentEvent::Next => self.after_next(),
            AgentEvent::Reschedule(task) => self.after_reschedule(task),
        }
    }

    /// The agent after the events, one after the other.
    pub open spec fn run(self, events: Seq<AgentEvent<T>>) -> AsyncAgentView<T>
        decreases events.len(),
    {
        if events.len() == 0 {
            self
        } else {
            self.run(events.drop_last()).step(events.last())
        }
    }
}

impl<T> View for AsyncAgent<T> {
    type V = AsyncAgentView<T>;

    closed spec fn view(&self) -> AsyncAgentView<T> {
        AsyncAgentView { worker: self.worker, spawned: self.spawned, ready: self.ready@ }
    }
}

impl<T> AsyncAgent<T> {
    /// The agent of `worker`, with nothing to do yet.
    pub fn new(worker: usize) -> (agent: AsyncAgent<T>)
        ensures
            agent@.well_formed(),
            agent@ == (AsyncAgentView { worker, spawned: 0, ready: Seq::<Task<T>>::empty() }),
    {
        AsyncAgent { worker, spawned: 0, ready: Vec::new() }
    }

    /// The worker that the agent serves.
    pub fn worker(&self) -> (worker: usize)
        ensures
            worker == self@.worker,
    {
        self.worker
    }

    /// Number of tasks spawned on the worker so far.
    pub fn spawned(&self) -> (count: u64)
        ensures
            count == self@.spawned,
    {
        self.spawned
    }

    /// Number of tasks that are ready to be polled.
    pub fn ready_len(&self) -> (count: usize)
        ensures
            count == self@.ready.len(),
    {
        self.ready.len()
    }

    /// Schedules `future` as a new task of this worker and puts it behind the tasks
    /// that are ready. The task never leaves the worker.
    pub fn spawn(&mut self, future: T) -> (handle: LocalJoinHandle)
        requires
            old(self)@.well_formed(),
        ensures
            final(self)@.well_formed(),
            final(self)@ == old(self)@.after_spawn(future),
            handle == (LocalJoinHandle { task: old(self)@.spawned, worker: old(self)@.worker }),
    {
        let id = self.spawned;
        if self.spawned < u64::MAX {
            self.spawned = self.spawned + 1;
        }
        self.ready.push(Task { id, home: self.worker, future });
        assert forall|i: int| 0 <= i < self@.ready.len() implies (#[trigger] self@.ready[i]).home
            == self@.worker by {
            if i < old(self)@.ready.len() {
                assert(self@.ready[i] == old(self)@.ready[i]);
            }
        }
        LocalJoinHandle { task: id, worker: self.worker }
    }

    /// Takes the task that is to be polled next, if one is ready. The task is one of
    /// this worker's.
    pub fn next_ready(&mut self) -> (task: Option<Task<T>>)
        requires
            old(self)@.well_formed(),
        ensures
            final(self)@.well_formed(),
            task == old(self)@.next_task(),
            task matches Some(task) ==> task.home == old(self)@.worker,
            final(self)@ == old(self)@.after_next(),
    {
        if self.ready.len() == 0 {
            None
        } else {
            let task = self.ready.remove(0);
            assert(self.ready@ =~= old(self)@.ready.subrange(1, old(self)@.ready.len() as int));
            Some(task)
        }
    }

    /// Puts a task that was polled and is not finished behind the tasks that are
    /// ready, as a yield does. A task of another worker is refused and handed back:
    /// tasks do not migrate.
    pub fn reschedule(&mut self, task: Task<T>) -> (refused: Option<Task<T>>)
        requires
            old(self)@.well_formed(),
        ensures
            final(self)@.well_formed(),
            refused == if old(self)@.accepts(task) {
                None
            } else {
                Some(task)
            },
            final(self)@ == old(self)@.after_reschedule(task),
    {
        if task.home == self.worker {
            self.ready.push(task);
            assert forall|i: int| 0 <= i < self@.ready.len() implies (#[trigger] self@.ready[i]).home
                == self@.worker by {
                if i < old(self)@.ready.len() {
                    assert(self@.ready[i] == old(self)@.ready[i]);
                }
            }
            None
        } else {
            Some(task)
        }
    }
}

/// One step keeps the queue of an agent to the tasks of its own worker.
pub proof fn lemma_step_keeps_affinity<T>(agent: AsyncAgentView<T>, event: AgentEvent<T>)
    requires
        agent.well_formed(),
    ensures
        agent.step(event).well_formed(),
        agent.step(event).worker == agent.worker,
{
    let after = agent.step(event);
    assert forall|i: int| 0 <= i < after.ready.len() implies (#[trigger] after.ready[i]).home
        == after.worker by {
        match event {
            AgentEvent::Spawn(_) => {
                if i < agent.ready.len() {
                    assert(after.ready[i] == agent.ready[i]);
                }
            },
            AgentEvent::Next => {
                if agent.ready.len() > 0 {
                    assert(after.ready[i] == agent.ready[i + 1]);
                }
            },
            AgentEvent::Reschedule(task) => {
                if i < agent.ready.len() {
                    assert(after.ready[i] == agent.ready[i]);
                }
            },
        }
    }
}

/// A task never runs on another worker than the one it was spawned on. Whatever is
/// spawned, taken and offered again on an agent, in whatever order, the task that the
/// agent hands out to be polled is one of its own worker, and a spawn gives the new
/// task that worker as its home.
pub proof fn lemma_worker_affinity<T>(agent: AsyncAgentView<T>, events: Seq<AgentEvent<T>>)
    requires
        agent.well_formed(),
    ensures
        agent.run(events).well_formed(),
        agent.run(events).worker == agent.worker,
        agent.run(events).next_task() matches Some(task) ==> task.home == agent.worker,
        forall|future: T| (#[trigger] agent.run(events).after_spawn(future)).ready.last().home
            == agent.worker,
    decreases events.len(),
{
    if events.len() > 0 {
        lemma_worker_affinity(agent, events.drop_last());
        lemma_step_keeps_affinity(agent.run(events.drop_last()), events.last());
    }
}

} // verus!
