use folo::io::BindOutcome;
use folo::io::BindRequest;
use folo::io::CompletionEngine;
use folo::io::CompletionPort;
use folo::io::Error;
use folo::net::tcp_dispatcher::handle_accepted;
use folo::net::tcp_dispatcher::AcceptLoopAction;
use folo::net::tcp_dispatcher::AcceptLoopEvent;
use folo::net::tcp_dispatcher::DispatcherState;
use folo::net::tcp_dispatcher::StartupNext;
use folo::net::tcp_dispatcher::StartupReport;
use folo::net::tcp_dispatcher::StartupStage;
use folo::net::winsock::AddressRequest;
use folo::net::winsock::ListenRequest;
use folo::net::winsock::SocketRequest;
use folo::net::winsock::CONCURRENT_ACCEPT_OPERATIONS;
use folo::net::winsock::PENDING_CONNECTION_LIMIT;
use folo::net::TcpConnection;
use folo::net::TcpDispatcher;
use std::future::Ready;
use std::sync::atomic::AtomicUsize;
use std::sync::atomic::Ordering;
use std::sync::Arc;

const LISTENER: usize = 0x100;

type Handler = fn(TcpConnection) -> Ready<Result<(), Error>>;
type Dispatcher = TcpDispatcher<Handler, Ready<Result<(), Error>>>;

fn handler(connection: TcpConnection) -> Ready<Result<(), Error>> {
    drop(connection);
    std::future::ready(Ok(()))
}

struct Server {
    dispatcher: Dispatcher,
    engine: CompletionEngine,
    startup_rx: oneshot::Receiver<Result<(), Error>>,
    shutdown_tx: oneshot::Sender<()>,
}

fn server(port: u16) -> Server {
    let (startup_tx, startup_rx) = oneshot::channel();
    let (shutdown_tx, shutdown_rx) = oneshot::channel();
    Server {
        dispatcher: TcpDispatcher::new(port, handler as Handler, startup_tx, shutdown_rx),
        engine: CompletionEngine::new(0, CompletionPort::new(900)),
        startup_rx,
        shutdown_tx,
    }
}

/// Takes a dispatcher through a startup in which every step succeeds.
fn started(port: u16) -> Server {
    let mut server = server(port);
    server.dispatcher.run();
    server.dispatcher.startup(&server.engine, StartupReport::SocketsInitialized);
    server.dispatcher.startup(&server.engine, StartupReport::SocketCreated(Ok(LISTENER)));
    server.dispatcher.startup(&server.engine, StartupReport::AddressBound(Ok(())));
    server.dispatcher.startup(&server.engine, StartupReport::Listening(Ok(())));
    match server
        .dispatcher
        .startup(&server.engine, StartupReport::PortBound(BindOutcome::Completed))
    {
        StartupNext::Started { refill, reply } => {
            assert_eq!(refill, 1024);
            assert!(reply.send());
        }
        _ => panic!("the startup must succeed"),
    }
    server
}

#[test]
fn the_depth_of_the_pipeline_and_the_backlog_are_as_documented() {
    assert_eq!(CONCURRENT_ACCEPT_OPERATIONS, 1024);
    assert_eq!(PENDING_CONNECTION_LIMIT, 4096);
    assert_eq!(ListenRequest::with_backlog_hint(1).backlog, -4096);
}

#[test]
fn the_port_is_written_high_byte_first() {
    assert_eq!(AddressRequest::any_address(1, 8080).port_in_network_order(), [0x1f, 0x90]);
    assert_eq!(AddressRequest::any_address(1, 80).port_in_network_order(), [0, 80]);
    assert_eq!(AddressRequest::any_address(1, 256).port_in_network_order(), [1, 0]);
    assert_eq!(AddressRequest::any_address(1, 65535).port_in_network_order(), [255, 255]);
    assert_eq!(AddressRequest::any_address(1, 1).port_in_network_order(), [0, 1]);
}

#[test]
fn a_startup_goes_through_its_steps() {
    let mut server = server(8080);
    assert_eq!(server.dispatcher.state(), DispatcherState::Init);
    assert_eq!(server.dispatcher.port(), 8080);

    assert!(matches!(server.dispatcher.run(), StartupNext::InitializeSockets));
    assert_eq!(
        server.dispatcher.state(),
        DispatcherState::Starting(StartupStage::InitializingSockets)
    );

    match server.dispatcher.startup(&server.engine, StartupReport::SocketsInitialized) {
        StartupNext::CreateSocket(request) => assert_eq!(
            request,
            SocketRequest { family: 2, kind: 1, protocol: 6, flags: 1 }
        ),
        _ => panic!("the socket comes first"),
    }
    assert_eq!(server.dispatcher.listen_socket(), None);

    match server
        .dispatcher
        .startup(&server.engine, StartupReport::SocketCreated(Ok(LISTENER)))
    {
        StartupNext::BindAddress(request) => assert_eq!(
            request,
            AddressRequest { socket: LISTENER, family: 2, address: 0, port: 8080 }
        ),
        _ => panic!("the address comes second"),
    }
    assert_eq!(server.dispatcher.listen_socket(), Some(LISTENER));

    match server.dispatcher.startup(&server.engine, StartupReport::AddressBound(Ok(()))) {
        StartupNext::Listen(request) => {
            assert_eq!(request, ListenRequest { socket: LISTENER, backlog: -4096 })
        }
        _ => panic!("listening comes third"),
    }

    match server.dispatcher.startup(&server.engine, StartupReport::Listening(Ok(()))) {
        StartupNext::BindToPort(request) => assert_eq!(
            request,
            BindRequest {
                handle: LISTENER,
                port: 900,
                completion_key: 0,
                concurrency: 1,
                notification_modes: 2,
            }
        ),
        _ => panic!("the completion port comes last"),
    }
    assert_eq!(
        server.dispatcher.state(),
        DispatcherState::Starting(StartupStage::BindingToPort)
    );
    assert_eq!(server.dispatcher.in_flight(), 0);
    assert!(matches!(
        server.startup_rx.try_recv(),
        Err(oneshot::TryRecvError::Empty)
    ));

    match server
        .dispatcher
        .startup(&server.engine, StartupReport::PortBound(BindOutcome::Completed))
    {
        StartupNext::Started { refill, reply } => {
            assert_eq!(refill, 1024);
            assert!(reply.is_ok());
            assert!(reply.error().is_none());
            // Nothing is on the channel before the reply is sent, and success after.
            assert!(matches!(
                server.startup_rx.try_recv(),
                Err(oneshot::TryRecvError::Empty)
            ));
            assert!(reply.send());
        }
        _ => panic!("the startup must succeed"),
    }
    assert_eq!(server.dispatcher.state(), DispatcherState::Accepting);
    assert_eq!(server.dispatcher.in_flight(), 1024);
    assert!(matches!(server.startup_rx.try_recv(), Ok(Ok(()))));
}

#[test]
fn a_port_that_is_taken_fails_the_startup_with_the_error_of_the_platform() {
    let mut server = server(8080);
    server.dispatcher.run();
    server.dispatcher.startup(&server.engine, StartupReport::SocketsInitialized);
    server.dispatcher.startup(&server.engine, StartupReport::SocketCreated(Ok(LISTENER)));
    let conflict = Error::Winsock { code: -1, detail: 10048 };
    match server
        .dispatcher
        .startup(&server.engine, StartupReport::AddressBound(Err(conflict)))
    {
        StartupNext::Failed { created, reply } => {
            assert!(!reply.is_ok());
            assert!(matches!(reply.error(), Some(Error::Winsock { code: -1, detail: 10048 })));
            assert_eq!(created, Some(LISTENER));
            assert!(reply.send());
        }
        _ => panic!("the startup must fail"),
    }
    assert_eq!(server.dispatcher.state(), DispatcherState::Terminated);
    assert_eq!(server.dispatcher.in_flight(), 0);
    match server.startup_rx.try_recv() {
        Ok(Err(Error::Winsock { code, detail })) => {
            assert_eq!(code, -1);
            assert_eq!(detail, 10048);
        }
        _ => panic!("the error must be reported to whoever built the server"),
    }
    // The dispatcher has ended: it ignores whatever comes.
    assert!(matches!(
        server.dispatcher.startup(&server.engine, StartupReport::Listening(Ok(()))),
        StartupNext::Ignored
    ));
    assert!(matches!(server.dispatcher.run(), StartupNext::Ignored));
    assert!(matches!(
        server.dispatcher.run_accept_loop(AcceptLoopEvent::ShutdownSignalled),
        AcceptLoopAction::Ignored
    ));
    assert_eq!(server.dispatcher.state(), DispatcherState::Terminated);
}

#[test]
fn every_step_of_the_startup_can_fail() {
    // The socket cannot be created.
    let mut s = server(1);
    s.dispatcher.run();
    s.dispatcher.startup(&s.engine, StartupReport::SocketsInitialized);
    match s.dispatcher.startup(
        &s.engine,
        StartupReport::SocketCreated(Err(Error::Winsock { code: -1, detail: 10024 })),
    ) {
        StartupNext::Failed { created, reply } => {
            assert!(matches!(reply.error(), Some(Error::Winsock { code: -1, detail: 10024 })));
            assert_eq!(created, None);
            assert!(reply.send());
        }
        _ => panic!("the startup must fail"),
    }
    assert!(matches!(
        s.startup_rx.try_recv(),
        Ok(Err(Error::Winsock { code: -1, detail: 10024 }))
    ));

    // The socket cannot listen.
    let mut s = server(1);
    s.dispatcher.run();
    s.dispatcher.startup(&s.engine, StartupReport::SocketsInitialized);
    s.dispatcher.startup(&s.engine, StartupReport::SocketCreated(Ok(LISTENER)));
    s.dispatcher.startup(&s.engine, StartupReport::AddressBound(Ok(())));
    match s.dispatcher.startup(
        &s.engine,
        StartupReport::Listening(Err(Error::Winsock { code: -1, detail: 10022 })),
    ) {
        StartupNext::Failed { created, reply } => {
            assert!(matches!(reply.error(), Some(Error::Winsock { code: -1, detail: 10022 })));
            assert_eq!(created, Some(LISTENER));
            assert!(reply.send());
        }
        _ => panic!("the startup must fail"),
    }
    assert_eq!(s.dispatcher.state(), DispatcherState::Terminated);

    // The socket cannot be bound to the completion port.
    for outcome in [
        BindOutcome::AssociationFailed(Error::Windows { code: 87 }),
        BindOutcome::ModeFailed(Error::Windows { code: 87 }),
    ] {
        let mut s = server(1);
        s.dispatcher.run();
        s.dispatcher.startup(&s.engine, StartupReport::SocketsInitialized);
        s.dispatcher.startup(&s.engine, StartupReport::SocketCreated(Ok(LISTENER)));
        s.dispatcher.startup(&s.engine, StartupReport::AddressBound(Ok(())));
        s.dispatcher.startup(&s.engine, StartupReport::Listening(Ok(())));
        match s.dispatcher.startup(&s.engine, StartupReport::PortBound(outcome)) {
            StartupNext::Failed { created, reply } => {
                assert!(matches!(reply.error(), Some(Error::Windows { code: 87 })));
                assert_eq!(created, Some(LISTENER));
                assert!(reply.send());
            }
            _ => panic!("the startup must fail"),
        }
        assert_eq!(s.dispatcher.state(), DispatcherState::Terminated);
        assert_eq!(s.dispatcher.in_flight(), 0);
        assert!(matches!(
            s.startup_rx.try_recv(),
            Ok(Err(Error::Windows { code: 87 }))
        ));
    }
}

#[test]
fn a_report_out_of_turn_is_ignored_by_the_startup() {
    let mut s = server(1);
    // Before the dispatcher runs, nothing is expected.
    assert!(matches!(
        s.dispatcher.startup(&s.engine, StartupReport::SocketsInitialized),
        StartupNext::Ignored
    ));
    assert_eq!(s.dispatcher.state(), DispatcherState::Init);
    s.dispatcher.run();
    assert!(matches!(
        s.dispatcher.startup(&s.engine, StartupReport::SocketCreated(Ok(LISTENER))),
        StartupNext::Ignored
    ));
    assert!(matches!(
        s.dispatcher.startup(&s.engine, StartupReport::PortBound(BindOutcome::Completed)),
        StartupNext::Ignored
    ));
    assert_eq!(
        s.dispatcher.state(),
        DispatcherState::Starting(StartupStage::InitializingSockets)
    );
    assert_eq!(s.dispatcher.listen_socket(), None);
    assert!(matches!(
        s.dispatcher.run_accept_loop(AcceptLoopEvent::AcceptCompleted(Ok(5))),
        AcceptLoopAction::Ignored
    ));
    assert!(matches!(s.startup_rx.try_recv(), Err(oneshot::TryRecvError::Empty)));
}

#[test]
fn an_accepted_connection_is_dispatched_and_replaced() {
    let mut s = started(8080);
    match s.dispatcher.run_accept_loop(AcceptLoopEvent::AcceptCompleted(Ok(0x200))) {
        AcceptLoopAction::Dispatch { socket, on_accept: _, refill } => {
            assert_eq!(socket, 0x200);
            assert_eq!(refill, 1);
        }
        _ => panic!("the connection must be dispatched"),
    }
    assert_eq!(s.dispatcher.state(), DispatcherState::Accepting);
    assert_eq!(s.dispatcher.in_flight(), 1024);
}

#[test]
fn a_failed_acceptance_is_reported_and_replaced() {
    let mut s = started(8080);
    let failure = Error::Windows { code: 64 };
    match s.dispatcher.run_accept_loop(AcceptLoopEvent::AcceptCompleted(Err(failure))) {
        AcceptLoopAction::Report { error, refill } => {
            assert!(matches!(error, Error::Windows { code: 64 }));
            assert_eq!(refill, 1);
        }
        _ => panic!("the failure must be reported"),
    }
    assert_eq!(s.dispatcher.state(), DispatcherState::Accepting);
    assert_eq!(s.dispatcher.in_flight(), 1024);
}

#[test]
fn a_burst_of_connections_never_drains_the_pipeline() {
    let mut s = started(8080);
    let mut dispatched = 0;
    for connection in 0..256usize {
        match s
            .dispatcher
            .run_accept_loop(AcceptLoopEvent::AcceptCompleted(Ok(0x1000 + connection)))
        {
            AcceptLoopAction::Dispatch { socket, on_accept: _, refill } => {
                assert_eq!(socket, 0x1000 + connection);
                assert_eq!(refill, 1);
                dispatched += 1;
            }
            _ => panic!("every connection must be dispatched"),
        }
        assert_eq!(s.dispatcher.in_flight(), 1024);
    }
    assert_eq!(dispatched, 256);
    assert_eq!(s.dispatcher.state(), DispatcherState::Accepting);
}

#[test]
fn an_idle_server_shuts_down_on_the_signal() {
    let mut s = started(8080);
    let shutdown_rx = s.dispatcher.take_shutdown_signal().unwrap();
    assert!(s.shutdown_tx.send(()).is_ok());
    assert!(matches!(shutdown_rx.try_recv(), Ok(())));
    match s.dispatcher.run_accept_loop(AcceptLoopEvent::ShutdownSignalled) {
        AcceptLoopAction::Exit { listen_socket, abandoned } => {
            let listen_socket = listen_socket.unwrap();
            assert_eq!(listen_socket.raw(), LISTENER);
            assert_eq!(listen_socket.port(), Some(900));
            assert_eq!(abandoned, 1024);
        }
        _ => panic!("the dispatcher must exit"),
    }
    assert_eq!(s.dispatcher.state(), DispatcherState::Terminated);
    assert_eq!(s.dispatcher.in_flight(), 0);
    assert_eq!(s.dispatcher.listen_socket(), None);
    assert!(matches!(
        s.dispatcher.run_accept_loop(AcceptLoopEvent::AcceptCompleted(Ok(1))),
        AcceptLoopAction::Ignored
    ));
}

#[test]
fn a_connection_exists_only_for_a_bound_socket() {
    let engine = CompletionEngine::new(3, CompletionPort::new(700));
    let connection = TcpConnection::bind(&engine, 0x200, BindOutcome::Completed).ok().unwrap();
    assert_eq!(connection.raw_socket(), 0x200);
    assert_eq!(connection.port(), 700);
    let socket = connection.into_socket();
    assert_eq!(socket.raw(), 0x200);
    assert_eq!(socket.port(), Some(700));
    assert!(socket.is_bound());

    let failed = TcpConnection::bind(
        &engine,
        0x200,
        BindOutcome::AssociationFailed(Error::Windows { code: 6 }),
    );
    assert!(matches!(failed, Err(Error::Windows { code: 6 })));
    let failed =
        TcpConnection::bind(&engine, 0x200, BindOutcome::ModeFailed(Error::Windows { code: 5 }));
    assert!(matches!(failed, Err(Error::Windows { code: 5 })));
}

#[test]
fn the_handler_is_called_once_with_a_bound_connection() {
    let calls = Arc::new(AtomicUsize::new(0));
    let seen = Arc::new(AtomicUsize::new(0));
    let on_accept = {
        let calls = Arc::clone(&calls);
        let seen = Arc::clone(&seen);
        move |connection: TcpConnection| {
            calls.fetch_add(1, Ordering::SeqCst);
            seen.store(connection.raw_socket(), Ordering::SeqCst);
            assert_eq!(connection.port(), 700);
            std::future::ready(Ok::<(), Error>(()))
        }
    };
    let engine = CompletionEngine::new(3, CompletionPort::new(700));
    let handled = handle_accepted(on_accept, &engine, 0x200, BindOutcome::Completed);
    assert!(handled.is_ok());
    assert_eq!(calls.load(Ordering::SeqCst), 1);
    assert_eq!(seen.load(Ordering::SeqCst), 0x200);
}

#[test]
fn the_handler_is_not_called_for_a_socket_that_could_not_be_bound() {
    let calls = Arc::new(AtomicUsize::new(0));
    let on_accept = {
        let calls = Arc::clone(&calls);
        move |_connection: TcpConnection| {
            calls.fetch_add(1, Ordering::SeqCst);
            std::future::ready(Ok::<(), Error>(()))
        }
    };
    let engine = CompletionEngine::new(3, CompletionPort::new(700));
    let handled = handle_accepted(
        on_accept.clone(),
        &engine,
        0x200,
        BindOutcome::AssociationFailed(Error::Windows { code: 6 }),
    );
    assert!(matches!(handled, Err(Error::Windows { code: 6 })));
    let handled = handle_accepted(
        on_accept,
        &engine,
        0x200,
        BindOutcome::ModeFailed(Error::Windows { code: 5 }),
    );
    assert!(matches!(handled, Err(Error::Windows { code: 5 })));
    assert_eq!(calls.load(Ordering::SeqCst), 0);
}

#[test]
fn one_connection_from_accept_to_handler_and_shutdown() {
    let calls = Arc::new(AtomicUsize::new(0));
    let on_accept = {
        let calls = Arc::clone(&calls);
        move |connection: TcpConnection| {
            calls.fetch_add(1, Ordering::SeqCst);
            drop(connection);
            std::future::ready(Ok::<(), Error>(()))
        }
    };
    let (startup_tx, startup_rx) = oneshot::channel();
    let (shutdown_tx, shutdown_rx) = oneshot::channel();
    let mut dispatcher = TcpDispatcher::new(8080, on_accept, startup_tx, shutdown_rx);
    let engine = CompletionEngine::new(0, CompletionPort::new(900));
    dispatcher.run();
    dispatcher.startup(&engine, StartupReport::SocketsInitialized);
    dispatcher.startup(&engine, StartupReport::SocketCreated(Ok(LISTENER)));
    dispatcher.startup(&engine, StartupReport::AddressBound(Ok(())));
    dispatcher.startup(&engine, StartupReport::Listening(Ok(())));
    match dispatcher.startup(&engine, StartupReport::PortBound(BindOutcome::Completed)) {
        StartupNext::Started { refill: _, reply } => assert!(reply.send()),
        _ => panic!("the startup must succeed"),
    }
    assert!(matches!(startup_rx.try_recv(), Ok(Ok(()))));

    let worker = CompletionEngine::new(1, CompletionPort::new(901));
    match dispatcher.run_accept_loop(AcceptLoopEvent::AcceptCompleted(Ok(0x200))) {
        AcceptLoopAction::Dispatch { socket, on_accept, refill } => {
            assert_eq!(refill, 1);
            assert!(handle_accepted(on_accept, &worker, socket, BindOutcome::Completed).is_ok());
        }
        _ => panic!("the connection must be dispatched"),
    }
    assert_eq!(calls.load(Ordering::SeqCst), 1);

    let signal = dispatcher.take_shutdown_signal().unwrap();
    let mut handle = folo::net::TcpServerHandle::new(
        folo::rt::RemoteJoinHandle { ticket: 0, worker: 0 },
        shutdown_tx,
    );
    handle.stop();
    assert!(matches!(signal.try_recv(), Ok(())));
    assert!(matches!(
        dispatcher.run_accept_loop(AcceptLoopEvent::ShutdownSignalled),
        AcceptLoopAction::Exit { .. }
    ));
    assert_eq!(dispatcher.state(), DispatcherState::Terminated);
    assert_eq!(calls.load(Ordering::SeqCst), 1);
}

#[test]
fn a_reply_that_nobody_waits_for_is_not_delivered() {
    let (startup_tx, startup_rx) = oneshot::channel();
    let (_shutdown_tx, shutdown_rx) = oneshot::channel();
    drop(startup_rx);
    let mut dispatcher: Dispatcher =
        TcpDispatcher::new(8080, handler as Handler, startup_tx, shutdown_rx);
    let engine = CompletionEngine::new(0, CompletionPort::new(900));
    dispatcher.run();
    dispatcher.startup(&engine, StartupReport::SocketsInitialized);
    match dispatcher.startup(
        &engine,
        StartupReport::SocketCreated(Err(Error::Windows { code: 5 })),
    ) {
        StartupNext::Failed { created, reply } => {
            assert_eq!(created, None);
            assert!(matches!(reply.error(), Some(Error::Windows { code: 5 })));
            assert!(!reply.send());
        }
        _ => panic!("the startup must fail"),
    }
    assert_eq!(dispatcher.state(), DispatcherState::Terminated);
}
