use folo::rt::async_agent::Task;
use folo::rt::current_runtime;
use folo::rt::runtime_client::TCP_DISPATCHER_WORKER;
use folo::rt::spawn;
use folo::rt::spawn_on_any;
use folo::rt::yield_now;
use folo::rt::AsyncAgent;
use folo::rt::CurrentRuntime;
use folo::rt::LocalJoinHandle;
use folo::rt::ReadyAfterPoll;
use folo::rt::RemoteJoinHandle;
use folo::rt::RuntimeClient;
use folo::rt::SynchronousTaskType;

#[test]
fn a_thread_is_registered_once() {
    let mut current = CurrentRuntime::new();
    assert!(!current_runtime::is_some(&current));
    assert!(current_runtime::try_get(&current).is_none());
    let client = RuntimeClient::new(4, 2);
    current_runtime::set(&mut current, client);
    assert!(current_runtime::is_some(&current));
    assert_eq!(current_runtime::try_get(&current), Some(client));
}

#[test]
fn with_hands_the_registered_client_to_the_closure() {
    let mut current = CurrentRuntime::new();
    current_runtime::set(&mut current, RuntimeClient::new(8, 3));
    let workers = current_runtime::with(&current, |client| {
        (client.async_workers(), client.sync_workers())
    });
    assert_eq!(workers, (8, 3));
    let handle = current_runtime::with(&current, |client| client.spawn_on_any(10));
    assert_eq!(handle, RemoteJoinHandle { ticket: 10, worker: 2 });
}

#[test]
fn tasks_are_placed_on_the_workers_in_turn() {
    let client = RuntimeClient::new(4, 3);
    for ticket in 0..12u64 {
        assert_eq!(
            spawn_on_any(&client, ticket),
            RemoteJoinHandle { ticket, worker: (ticket % 4) as usize }
        );
        assert_eq!(
            client.spawn_sync_on_any(SynchronousTaskType::Syscall, ticket),
            (ticket % 3) as usize
        );
    }
    assert_eq!(spawn_on_any(&client, u64::MAX).worker, 3);
    let single = RuntimeClient::new(1, 1);
    assert_eq!(spawn_on_any(&single, 77).worker, 0);
    assert_eq!(single.spawn_sync_on_any(SynchronousTaskType::Syscall, 77), 0);
}

#[test]
fn a_dispatcher_goes_to_the_worker_set_apart_for_it() {
    let client = RuntimeClient::new(4, 3);
    assert_eq!(TCP_DISPATCHER_WORKER, 0);
    assert_eq!(
        client.spawn_tcp_dispatcher(5),
        RemoteJoinHandle { ticket: 5, worker: 0 }
    );
}

#[test]
fn a_spawned_task_runs_on_the_worker_that_spawned_it() {
    let mut agent: AsyncAgent<&str> = AsyncAgent::new(6);
    assert_eq!(agent.worker(), 6);
    assert_eq!(agent.ready_len(), 0);
    assert_eq!(spawn(&mut agent, "first"), LocalJoinHandle { task: 0, worker: 6 });
    assert_eq!(spawn(&mut agent, "second"), LocalJoinHandle { task: 1, worker: 6 });
    assert_eq!(agent.spawn("third"), LocalJoinHandle { task: 2, worker: 6 });
    assert_eq!(agent.ready_len(), 3);
    for (id, future) in [(0u64, "first"), (1, "second"), (2, "third")] {
        let task = agent.next_ready().unwrap();
        assert_eq!(task.id, id);
        assert_eq!(task.home, 6);
        assert_eq!(task.future, future);
    }
    assert!(agent.next_ready().is_none());
    assert_eq!(agent.ready_len(), 0);
}

#[test]
fn a_task_that_yields_goes_behind_the_others() {
    let mut agent: AsyncAgent<u8> = AsyncAgent::new(0);
    spawn(&mut agent, 10);
    spawn(&mut agent, 20);
    let first = agent.next_ready().unwrap();
    assert_eq!(first.future, 10);
    assert!(agent.reschedule(first).is_none());
    assert_eq!(agent.next_ready().unwrap().future, 20);
    assert_eq!(agent.next_ready().unwrap().future, 10);
    assert!(agent.next_ready().is_none());
}

#[test]
fn a_task_of_another_worker_is_refused() {
    let mut home: AsyncAgent<u8> = AsyncAgent::new(1);
    let mut other: AsyncAgent<u8> = AsyncAgent::new(2);
    spawn(&mut home, 5);
    let task = home.next_ready().unwrap();
    let refused = other.reschedule(task).unwrap();
    assert_eq!(refused.home, 1);
    assert_eq!(refused.future, 5);
    assert_eq!(other.ready_len(), 0);
    assert!(other
        .reschedule(Task { id: 0, home: 2, future: 9 })
        .is_none());
    assert_eq!(other.ready_len(), 1);
}

#[test]
fn a_yield_is_ready_at_the_second_poll() {
    let mut state = yield_now();
    assert!(!state.poll());
    assert!(state.poll());
    assert!(state.poll());
    let mut state = ReadyAfterPoll::default();
    assert!(!state.poll());
    assert!(state.poll());
}
