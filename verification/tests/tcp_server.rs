use folo::io::Error;
use folo::net::tcp_dispatcher::DispatcherState;
use folo::net::TcpConnection;
use folo::net::TcpServerBuilder;
use folo::net::TcpServerHandle;
use folo::rt::RemoteJoinHandle;
use std::future::Ready;

fn handler(connection: TcpConnection) -> Ready<Result<(), Error>> {
    drop(connection);
    std::future::ready(Ok(()))
}

type Handler = fn(TcpConnection) -> Ready<Result<(), Error>>;

fn builder() -> TcpServerBuilder<Handler, Ready<Result<(), Error>>> {
    TcpServerBuilder::new()
}

#[test]
fn a_server_without_a_port_is_refused() {
    match builder().on_accept(handler).build() {
        Err(Error::InvalidOptions(message)) => assert_eq!(message, "port must be set"),
        _ => panic!("a server needs a port"),
    }
}

#[test]
fn a_server_with_nothing_set_is_refused_for_its_port() {
    match builder().build() {
        Err(Error::InvalidOptions(message)) => assert_eq!(message, "port must be set"),
        _ => panic!("a server needs a port"),
    }
    let builder: TcpServerBuilder<Handler, Ready<Result<(), Error>>> = TcpServerBuilder::default();
    match builder.build() {
        Err(Error::InvalidOptions(message)) => assert_eq!(message, "port must be set"),
        _ => panic!("a server needs a port"),
    }
}

#[test]
fn a_server_without_a_handler_is_refused() {
    match builder().port(8080).build() {
        Err(Error::InvalidOptions(message)) => assert_eq!(message, "on_accept must be set"),
        _ => panic!("a server needs a handler"),
    }
}

#[test]
fn a_configured_server_is_ready_to_start() {
    let launch = builder().on_accept(handler).port(1234).port(8080).build().ok().unwrap();
    assert_eq!(launch.seed.port(), 8080);
    let dispatcher = launch.seed.into_dispatcher();
    assert_eq!(dispatcher.port(), 8080);
    assert_eq!(dispatcher.state(), DispatcherState::Init);
    assert_eq!(dispatcher.in_flight(), 0);
    assert_eq!(dispatcher.listen_socket(), None);
    // Nothing was reported and nothing was signalled yet.
    assert!(matches!(
        launch.startup_completed_rx.try_recv(),
        Err(oneshot::TryRecvError::Empty)
    ));
    assert!(!launch.shutdown_tx.is_closed());
}

#[test]
fn the_shutdown_signal_of_a_launch_reaches_its_dispatcher() {
    let launch = builder().port(8080).on_accept(handler).build().ok().unwrap();
    let mut dispatcher = launch.seed.into_dispatcher();
    let shutdown_rx = dispatcher.take_shutdown_signal().unwrap();
    assert!(dispatcher.take_shutdown_signal().is_none());
    let join = RemoteJoinHandle { ticket: 1, worker: 0 };
    let mut handle = TcpServerHandle::started(join, launch.shutdown_tx, Some(Ok(())))
        .ok()
        .unwrap();
    assert!(matches!(shutdown_rx.try_recv(), Err(oneshot::TryRecvError::Empty)));
    handle.stop();
    assert!(matches!(shutdown_rx.try_recv(), Ok(())));
}

#[test]
fn stopping_twice_signals_once() {
    let (shutdown_tx, shutdown_rx) = oneshot::channel::<()>();
    let join = RemoteJoinHandle { ticket: 9, worker: 0 };
    let mut handle = TcpServerHandle::new(join, shutdown_tx);
    assert!(!handle.is_stopped());
    assert_eq!(handle.join_handle(), join);

    handle.stop();
    assert!(handle.is_stopped());
    assert!(matches!(shutdown_rx.try_recv(), Ok(())));

    // The signal was taken out of the channel; a second stop puts nothing in.
    handle.stop();
    handle.stop();
    assert!(handle.is_stopped());
    assert_eq!(handle.join_handle(), join);
    assert!(matches!(
        shutdown_rx.try_recv(),
        Err(oneshot::TryRecvError::Disconnected)
    ));
}

#[test]
fn stopping_a_server_whose_dispatcher_is_gone_is_harmless() {
    let (shutdown_tx, shutdown_rx) = oneshot::channel::<()>();
    drop(shutdown_rx);
    let mut handle = TcpServerHandle::new(RemoteJoinHandle { ticket: 0, worker: 0 }, shutdown_tx);
    handle.stop();
    assert!(handle.is_stopped());
    handle.stop();
    assert!(handle.is_stopped());
}

#[test]
fn letting_go_of_the_handle_does_not_stop_the_server() {
    let (shutdown_tx, shutdown_rx) = oneshot::channel::<()>();
    let handle = TcpServerHandle::new(RemoteJoinHandle { ticket: 0, worker: 0 }, shutdown_tx);
    drop(handle);
    // No signal was sent: the channel is closed without a message.
    assert!(matches!(
        shutdown_rx.try_recv(),
        Err(oneshot::TryRecvError::Disconnected)
    ));
}

#[test]
fn a_failed_startup_is_the_error_of_the_build() {
    let (shutdown_tx, _shutdown_rx) = oneshot::channel::<()>();
    let join = RemoteJoinHandle { ticket: 0, worker: 0 };
    let report = Some(Err(Error::Winsock { code: -1, detail: 10048 }));
    match TcpServerHandle::started(join, shutdown_tx, report) {
        Err(Error::Winsock { code, detail }) => {
            assert_eq!(code, -1);
            assert_eq!(detail, 10048);
        }
        _ => panic!("the error of the startup must be the error of the build"),
    }
}

#[test]
fn a_dispatcher_that_died_silently_is_an_internal_error() {
    let (shutdown_tx, _shutdown_rx) = oneshot::channel::<()>();
    let join = RemoteJoinHandle { ticket: 0, worker: 0 };
    match TcpServerHandle::started(join, shutdown_tx, None) {
        Err(Error::Internal(message)) => {
            assert_eq!(message, "TCP dispatcher died before reporting startup result")
        }
        _ => panic!("a missing report must be an internal error"),
    }
}
