//! The dispatcher of a TCP server: it owns the listening socket, keeps a fixed number of
//! accept operations in flight and hands every accepted connection to the user's handler.

use crate::io::completion_port::BindOutcome;
use crate::io::completion_port::BindOutcomeView;
use crate::io::completion_port::BindRequest;
use crate::io::completion_port::OwnedHandle;
use crate::io::completion_port::OwnedHandleView;
use crate::io::completion_port::COMPLETION_KEY;
use crate::io::completion_port::FILE_SKIP_SET_EVENT_ON_HANDLE;
use crate::io::completion_port::PORT_CONCURRENCY;
use crate::io::engine::CompletionEngine;
use crate::io::error::result_view;
use crate::io::error::Error;
use crate::io::error::ErrorView;
use crate::net::tcp_connection::connection_after_bind;
use crate::net::tcp_connection::TcpConnection;
use crate::net::winsock::any_address_request;
use crate::net::winsock::listen_request;
use crate::net::winsock::tcp_socket_request;
use crate::net::winsock::AddressRequest;
use crate::net::winsock::ListenRequest;
use crate::net::winsock::SocketRequest;
use crate::net::winsock::CONCURRENT_ACCEPT_OPERATIONS;
use std::future::Future;
use std::marker::PhantomData;
use std::rc::Rc;
use vstd::pervasive::cloned;
use vstd::prelude::*;

verus! {

/// The steps of the startup of a dispatcher, in their order.
#[derive(Debug, Clone, Copy, PartialEq, Eq, Structural)]
pub enum StartupStage {
    /// The socket library of the platform is being initialized.
    InitializingSockets,
    /// The listening socket is being created.
    CreatingSocket,
    /// The listening socket is being bound to its port on every interface.
    BindingAddress,
    /// The listening socket is being put into the listening state.
    Listening,
    /// The listening socket is being bound to the worker's completion port.
    BindingToPort,
}

/// The states of a dispatcher.
#[derive(Debug, Clone, Copy, PartialEq, Eq, Structural)]
pub enum DispatcherState {
    /// The dispatcher was made and has not run yet.
    Init,
    /// The dispatcher is starting up.
    Starting(StartupStage),
    /// The dispatcher accepts connections.
    Accepting,
    /// The dispatcher has ended, after a failed startup or after a shutdown.
    Terminated,
}

/// What the embedding program reports to a dispatcher that is starting up.
#[derive(Debug)]
pub enum StartupReport {
    /// The socket library is initialized.
    SocketsInitialized,
    /// The listening socket was created, or could not be.
    SocketCreated(Result<usize, Error>),
    /// The listening socket was bound to its address, or could not be.
    AddressBound(Result<(), Error>),
    /// The listening socket listens, or could not be made to.
    Listening(Result<(), Error>),
    /// The binding of the listening socket to the completion port ended.
    PortBound(BindOutcome),
}

/// The mathematical value of a [`StartupReport`].
pub enum StartupReportView {
    SocketsInitialized,
    SocketCreated(Result<usize, ErrorView>),
    AddressBound(Result<(), ErrorView>),
    Listening(Result<(), ErrorView>),
    PortBound(BindOutcomeView),
}

impl View for StartupReport {
    type V = StartupReportView;

    open spec fn view(&self) -> StartupReportView {
        match *self {
            StartupReport::SocketsInitialized => StartupReportView::SocketsInitialized,
            StartupReport::SocketCreated(Ok(socket)) => StartupReportView::SocketCreated(
                Ok(socket),
            ),
            StartupReport::SocketCreated(Err(error)) => StartupReportView::SocketCreated(
                Err(error@),
            ),
            StartupReport::AddressBound(Ok(_)) => StartupReportView::AddressBound(Ok(())),
            StartupReport::AddressBound(Err(error)) => StartupReportView::AddressBound(
                Err(error@),
            ),
            StartupReport::Listening(Ok(_)) => StartupReportView::Listening(Ok(())),
            StartupReport::Listening(Err(error)) => StartupReportView::Listening(Err(error@)),
            StartupReport::PortBound(outcome) => StartupReportView::PortBound(outcome@),
        }
    }
}

/// The result of a startup on its way to whoever built the server: the value to
/// report, beside the sending end of the channel that carries it. The dispatcher
/// decides the value; sending it is all that is left to do.
#[derive(Debug)]
pub struct StartupReply {
    sender: Option<oneshot::Sender<Result<(), Error>>>,
    value: Result<(), Error>,
}

/// The mathematical value of a [`StartupReply`].
pub struct StartupReplyView {
    /// The value that is reported: success, or the error that ended the startup.
    pub value: Result<(), ErrorView>,
    /// Whether the reply holds the sending end of the startup channel.
    pub deliverable: bool,
}

impl View for StartupReply {
    type V = StartupReplyView;

    closed spec fn view(&self) -> StartupReplyView {
        StartupReplyView { value: result_view(self.value), deliverable: self.sender is Some }
    }
}

impl StartupReply {
    /// Whether the reply reports success.
    pub fn is_ok(&self) -> (ok: bool)
        ensures
            ok == self@.value is Ok,
    {
        self.value.is_ok()
    }

    /// A copy of the error that the reply reports, if it reports one.
    pub fn error(&self) -> (error: Option<Error>)
        ensures
            match error {
                Some(error) => self@.value == Err::<(), ErrorView>(error@),
                None => self@.value is Ok,
            },
    {
        match &self.value {
            Ok(_) => None,
            Err(error) => Some(error.duplicate()),
        }
    }

    /// Puts the value of the reply on the startup channel, as it is. That nobody may
    /// be listening any more is no concern of the dispatcher.
    pub fn send(self) -> (delivered: bool)
        ensures
            delivered ==> self@.deliverable,
    {
        match self.sender {
            Some(sender) => sender.send(self.value).is_ok(),
            None => false,
        }
    }
}

/// What a dispatcher that is starting up asks the embedding program to do next.
#[derive(Debug)]
pub enum StartupNext {
    /// Make sure that the socket library of the platform is initialized.
    InitializeSockets,
    /// Create the listening socket.
    CreateSocket(SocketRequest),
    /// Bind the listening socket to its address.
    BindAddress(AddressRequest),
    /// Put the listening socket into the listening state.
    Listen(ListenRequest),
    /// Bind the listening socket to the completion port of the worker.
    BindToPort(BindRequest),
    /// The startup succeeded. `reply` reports the success and is to be sent; then
    /// `refill` accept operations are to be started before anything is awaited.
    Started { refill: usize, reply: StartupReply },
    /// The startup failed and the dispatcher has ended. `reply` reports the error that
    /// ended it and is to be sent; `created` is the listening socket, if it was
    /// created, to be closed.
    Failed { created: Option<usize>, reply: StartupReply },
    /// The report did not fit the state of the dispatcher and was ignored.
    Ignored,
}

/// The mathematical value of a [`StartupNext`].
pub enum StartupNextView {
    InitializeSockets,
    CreateSocket(SocketRequest),
    BindAddress(AddressRequest),
    Listen(ListenRequest),
    BindToPort(BindRequest),
    Started { refill: usize, reply: StartupReplyView },
    Failed { created: Option<usize>, reply: StartupReplyView },
    Ignored,
}

impl View for StartupNext {
    type V = StartupNextView;

    open spec fn view(&self) -> StartupNextView {
        match *self {
            StartupNext::InitializeSockets => StartupNextView::InitializeSockets,
            StartupNext::CreateSocket(request) => StartupNextView::CreateSocket(request),
            StartupNext::BindAddress(request) => StartupNextView::BindAddress(request),
            StartupNext::Listen(request) => StartupNextView::Listen(request),
            StartupNext::BindToPort(request) => StartupNextView::BindToPort(request),
            StartupNext::Started { refill, reply } => StartupNextView::Started {
                refill,
                reply: reply@,
            },
            StartupNext::Failed { created, reply } => StartupNextView::Failed {
                created,
                reply: reply@,
            },
            StartupNext::Ignored => StartupNextView::Ignored,
        }
    }
}

/// What happens to a dispatcher that accepts connections.
#[derive(Debug)]
pub enum AcceptLoopEvent {
    /// One of the acceptances in flight ended, with the raw value of an accepted socket
    /// or with an error.
    AcceptCompleted(Result<usize, Error>),
    /// The shutdown signal arrived.
    ShutdownSignalled,
}

/// What a dispatcher that accepts connections asks the embedding program to do.
#[derive(Debug)]
pub enum AcceptLoopAction<A> {
    /// Spawn a task on some async worker that binds `socket` to the completion port of
    /// that worker and then calls `on_accept` with the connection; start `refill`
    /// acceptances before anything is awaited.
    Dispatch { socket: usize, on_accept: A, refill: usize },
    /// An acceptance failed. The failure is worth a line in the log and nothing more;
    /// start `refill` acceptances before anything is awaited.
    Report { error: Error, refill: usize },
    /// The dispatcher has ended. The `abandoned` acceptances in flight are to be
    /// cancelled and the listening socket is to be closed.
    Exit { listen_socket: Option<OwnedHandle>, abandoned: usize },
    /// The event did not fit the state of the dispatcher and was ignored.
    Ignored,
}

/// The mathematical value of an [`AcceptLoopEvent`].
pub enum AcceptLoopEventView {
    AcceptCompleted(Result<usize, ErrorView>),
    ShutdownSignalled,
}

impl View for AcceptLoopEvent {
    type V = AcceptLoopEventView;

    open spec fn view(&self) -> AcceptLoopEventView {
        match *self {
            AcceptLoopEvent::AcceptCompleted(completed) => AcceptLoopEventView::AcceptCompleted(
                result_view(completed),
            ),
            AcceptLoopEvent::ShutdownSignalled => AcceptLoopEventView::ShutdownSignalled,
        }
    }
}

/// The mathematical value of an [`AcceptLoopAction`], but for the handler that a
/// dispatch carries.
pub enum AcceptLoopActionView {
    Dispatch { socket: usize, refill: usize },
    Report { error: ErrorView, refill: usize },
    Exit { listen_socket: Option<OwnedHandleView>, abandoned: usize },
    Ignored,
}

/// The view of an action of the accept loop.
pub open spec fn action_view<A>(action: AcceptLoopAction<A>) -> AcceptLoopActionView {
    match action {
        AcceptLoopAction::Dispatch { socket, on_accept: _, refill } => AcceptLoopActionView::Dispatch {
            socket,
            refill,
        },
        AcceptLoopAction::Report { error, refill } => AcceptLoopActionView::Report {
            error: error@,
            refill,
        },
        AcceptLoopAction::Exit { listen_socket, abandoned } => AcceptLoopActionView::Exit {
            listen_socket: handle_option_view(listen_socket),
            abandoned,
        },
        AcceptLoopAction::Ignored => AcceptLoopActionView::Ignored,
    }
}

/// The mathematical value of a [`TcpDispatcher`].
pub struct DispatcherView {
    pub state: DispatcherState,
    /// The TCP port to listen on.
    pub port: u16,
    /// The listening socket, once it is created.
    pub listen_socket: Option<OwnedHandleView>,
    /// Number of acceptances in flight.
    pub in_flight: usize,
    /// Whether the dispatcher still holds the sending end of the startup channel, as it
    /// does until the startup has ended and the reply is made.
    pub owes_startup_report: bool,
    /// Whether the dispatcher still holds the receiving end of the shutdown signal.
    pub holds_shutdown_signal: bool,
}

impl StartupReportView {
    /// The stage of the startup that the report belongs to.
    pub open spec fn stage(self) -> StartupStage {
        match self {
            StartupReportView::SocketsInitialized => StartupStage::InitializingSockets,
            StartupReportView::SocketCreated(_) => StartupStage::CreatingSocket,
            StartupReportView::AddressBound(_) => StartupStage::BindingAddress,
            StartupReportView::Listening(_) => StartupStage::Listening,
            StartupReportView::PortBound(_) => StartupStage::BindingToPort,
        }
    }

    /// The error that the report carries, if the step it reports failed.
    pub open spec fn failure(self) -> Option<ErrorView> {
        match self {
            StartupReportView::SocketCreated(Err(error)) => Some(error),
            StartupReportView::AddressBound(Err(error)) => Some(error),
            StartupReportView::Listening(Err(error)) => Some(error),
            StartupReportView::PortBound(BindOutcomeView::AssociationFailed(error)) => Some(error),
            StartupReportView::PortBound(BindOutcomeView::ModeFailed(error)) => Some(error),
            _ => None,
        }
    }
}

impl DispatcherView {
    /// What every dispatcher satisfies. While it accepts connections, the number of
    /// acceptances in flight is the full depth of the pipeline and its listening
    /// socket is bound to a completion port; outside of that state nothing is in
    /// flight. The listening socket exists from its creation on, and is unbound until
    /// the last step of the startup. The startup report is owed until the startup has
    /// ended.
    pub open spec fn well_formed(self) -> bool {
        &&& self.port != 0
        &&& self.state == DispatcherState::Accepting ==> {
            &&& self.in_flight == CONCURRENT_ACCEPT_OPERATIONS
            &&& self.listen_socket is Some
            &&& self.listen_socket->0.is_bound()
        }
        &&& self.state != DispatcherState::Accepting ==> self.in_flight == 0
        &&& self.state matches DispatcherState::Starting(stage) ==> {
            &&& self.owes_startup_report
            &&& (stage == StartupStage::InitializingSockets || stage
                == StartupStage::CreatingSocket ==> self.listen_socket is None)
            &&& (stage == StartupStage::BindingAddress || stage == StartupStage::Listening || stage
                == StartupStage::BindingToPort ==> self.listen_socket is Some
                && !self.listen_socket->0.is_bound())
        }
        &&& self.state == DispatcherState::Init ==> self.owes_startup_report
            && self.listen_socket is None
    }

    /// Whether `report` is the one that the dispatcher waits for.
    pub open spec fn expects(self, report: StartupReportView) -> bool {
        self.state == DispatcherState::Starting(report.stage())
    }

    /// The raw value of the listening socket, if it was created.
    pub open spec fn created_socket(self) -> Option<usize> {
        match self.listen_socket {
            Some(socket) => Some(socket.raw),
            None => None,
        }
    }

    /// The dispatcher after it was told to run.
    pub open spec fn after_run(self) -> DispatcherView {
        if self.state == DispatcherState::Init {
            DispatcherView {
                state: DispatcherState::Starting(StartupStage::InitializingSockets),
                ..self
            }
        } else {
            self
        }
    }

    /// The dispatcher after `report`, on the worker whose completion port is `port`.
    ///
    /// A report that the dispatcher does not wait for changes nothing. A failed step
    /// ends the dispatcher. Any other report takes the startup one step further; the
    /// last one makes the dispatcher accept connections, with a full pipeline.
    pub open spec fn after_startup(self, port: usize, report: StartupReportView) -> DispatcherView {
        if !self.expects(report) {
            self
        } else if report.failure() is Some {
            DispatcherView {
                state: DispatcherState::Terminated,
                owes_startup_report: false,
                listen_socket: match report {
                    StartupReportView::PortBound(outcome) => Some(
                        self.listen_socket->0.after_bind(port, outcome),
                    ),
                    _ => self.listen_socket,
                },
                ..self
            }
        } else {
            match report {
                StartupReportView::SocketsInitialized => DispatcherView {
                    state: DispatcherState::Starting(StartupStage::CreatingSocket),
                    ..self
                },
                StartupReportView::SocketCreated(created) => DispatcherView {
                    state: DispatcherState::Starting(StartupStage::BindingAddress),
                    listen_socket: Some(OwnedHandleView { raw: created->Ok_0, port: None }),
                    ..self
                },
                StartupReportView::AddressBound(_) => DispatcherView {
                    state: DispatcherState::Starting(StartupStage::Listening),
                    ..self
                },
                StartupReportView::Listening(_) => DispatcherView {
                    state: DispatcherState::Starting(StartupStage::BindingToPort),
                    ..self
                },
                StartupReportView::PortBound(outcome) => DispatcherView {
                    state: DispatcherState::Accepting,
                    owes_startup_report: false,
                    listen_socket: Some(self.listen_socket->0.after_bind(port, outcome)),
                    in_flight: CONCURRENT_ACCEPT_OPERATIONS,
                    ..self
                },
            }
        }
    }

    /// What the dispatcher asks for after `report`.
    pub open spec fn startup_next(self, port: usize, report: StartupReportView) -> StartupNextView {
        if !self.expects(report) {
            StartupNextView::Ignored
        } else if report.failure() is Some {
            StartupNextView::Failed {
                created: self.created_socket(),
                reply: StartupReplyView {
                    value: Err(report.failure()->0),
                    deliverable: self.owes_startup_report,
                },
            }
        } else {
            match report {
                StartupReportView::SocketsInitialized => StartupNextView::CreateSocket(
                    tcp_socket_request(),
                ),
                StartupReportView::SocketCreated(created) => StartupNextView::BindAddress(
                    any_address_request(created->Ok_0, self.port),
                ),
                StartupReportView::AddressBound(_) => StartupNextView::Listen(
                    listen_request(self.listen_socket->0.raw),
                ),
                StartupReportView::Listening(_) => StartupNextView::BindToPort(
                    BindRequest {
                        handle: self.listen_socket->0.raw,
                        port,
                        completion_key: COMPLETION_KEY,
                        concurrency: PORT_CONCURRENCY,
                        notification_modes: FILE_SKIP_SET_EVENT_ON_HANDLE,
                    },
                ),
                StartupReportView::PortBound(_) => StartupNextView::Started {
                    refill: CONCURRENT_ACCEPT_OPERATIONS,
                    reply: StartupReplyView {
                        value: Ok(()),
                        deliverable: self.owes_startup_report,
                    },
                },
            }
        }
    }

    /// What the dispatcher asks for when `event` happens: one dispatch for every
    /// accepted connection, one report for every failed acceptance, each with one
    /// acceptance to start in place of the one that ended; the exit at the shutdown
    /// signal, with everything in flight to cancel; nothing in any other state.
    pub open spec fn accept_loop_next(self, event: AcceptLoopEventView) -> AcceptLoopActionView {
        if self.state != DispatcherState::Accepting {
            AcceptLoopActionView::Ignored
        } else {
            match event {
                AcceptLoopEventView::AcceptCompleted(Ok(socket)) => AcceptLoopActionView::Dispatch {
                    socket,
                    refill: 1,
                },
                AcceptLoopEventView::AcceptCompleted(Err(error)) => AcceptLoopActionView::Report {
                    error,
                    refill: 1,
                },
                AcceptLoopEventView::ShutdownSignalled => AcceptLoopActionView::Exit {
                    listen_socket: self.listen_socket,
                    abandoned: self.in_flight,
                },
            }
        }
    }

    /// The actions that the dispatcher asks for when the acceptances in flight end one
    /// after the other with `completions`.
    pub open spec fn actions_for(self, completions: Seq<Result<usize, ErrorView>>) -> Seq<
        AcceptLoopActionView,
    > {
        Seq::new(
            completions.len(),
            |i: int|
                self.after_events(ended_acceptances(i as nat)).accept_loop_next(
                    AcceptLoopEventView::AcceptCompleted(completions[i]),
                ),
        )
    }

    /// The dispatcher after something happened while it accepted connections.
    ///
    /// An acceptance that ends is replaced at once, so the pipeline stays full. The
    /// shutdown signal ends the dispatcher and leaves nothing in flight. In any other
    /// state nothing changes.
    pub open spec fn after_accept_loop(self, shutdown: bool) -> DispatcherView {
        if self.state != DispatcherState::Accepting {
            self
        } else if shutdown {
            DispatcherView {
                state: DispatcherState::Terminated,
                listen_socket: None,
                in_flight: 0,
                ..self
            }
        } else {
            self
        }
    }
}

/// The dispatcher of a TCP server. It runs as one task on one async worker, and
/// belongs to the thread of that worker: the type can neither be sent to another thread
/// nor be shared with one.
#[verifier::reject_recursive_types(A)]
#[verifier::reject_recursive_types(AF)]
pub struct TcpDispatcher<A, AF> where
    A: Fn(TcpConnection) -> AF + Clone + Send + 'static,
    AF: Future<Output = Result<(), Error>> + 'static,
 {
    state: DispatcherState,
    port: u16,
    on_accept: A,
    startup_completed_tx: Option<oneshot::Sender<Result<(), Error>>>,
    shutdown_rx: Option<oneshot::Receiver<()>>,
    listen_socket: Option<OwnedHandle>,
    in_flight: usize,
    single_threaded: PhantomData<Rc<()>>,
}

/// The view of a handle that may be missing.
pub open spec fn handle_option_view(handle: Option<OwnedHandle>) -> Option<OwnedHandleView> {
    match handle {
        Some(handle) => Some(handle@),
        None => None,
    }
}

impl<A, AF> View for TcpDispatcher<A, AF> where
    A: Fn(TcpConnection) -> AF + Clone + Send + 'static,
    AF: Future<Output = Result<(), Error>> + 'static,
 {
    type V = DispatcherView;

    closed spec fn view(&self) -> DispatcherView {
        DispatcherView {
            state: self.state,
            port: self.port,
            listen_socket: handle_option_view(self.listen_socket),
            in_flight: self.in_flight,
            owes_startup_report: self.startup_completed_tx is Some,
            holds_shutdown_signal: self.shutdown_rx is Some,
        }
    }
}

impl<A, AF> TcpDispatcher<A, AF> where
    A: Fn(TcpConnection) -> AF + Clone + Send + 'static,
    AF: Future<Output = Result<(), Error>> + 'static,
 {
    /// The handler that every accepted connection is given to.
    pub closed spec fn handler(&self) -> A {
        self.on_accept
    }

    /// A dispatcher for `port` that reports its startup on `startup_completed_tx` and
    /// ends when `shutdown_rx` receives the signal.
    pub fn new(
        port: u16,
        on_accept: A,
        startup_completed_tx: oneshot::Sender<Result<(), Error>>,
        shutdown_rx: oneshot::Receiver<()>,
    ) -> (dispatcher: Self)
        requires
            port != 0,
        ensures
            dispatcher@.well_formed(),
            dispatcher.handler() == on_accept,
            dispatcher@ == (DispatcherView {
                state: DispatcherState::Init,
                port,
                listen_socket: None,
                in_flight: 0,
                owes_startup_report: true,
                holds_shutdown_signal: true,
            }),
    {
        TcpDispatcher {
            state: DispatcherState::Init,
            port,
            on_accept,
            startup_completed_tx: Some(startup_completed_tx),
            shutdown_rx: Some(shutdown_rx),
            listen_socket: None,
            in_flight: 0,
            single_threaded: PhantomData,
        }
    }

    /// The state of the dispatcher.
    pub fn state(&self) -> (state: DispatcherState)
        ensures
            state == self@.state,
    {
        self.state
    }

    /// The TCP port of the dispatcher.
    pub fn port(&self) -> (port: u16)
        ensures
            port == self@.port,
    {
        self.port
    }

    /// Number of acceptances in flight.
    pub fn in_flight(&self) -> (count: usize)
        ensures
            count == self@.in_flight,
    {
        self.in_flight
    }

    /// The raw value of the listening socket, once it is created.
    pub fn listen_socket(&self) -> (socket: Option<usize>)
        ensures
            socket == self@.created_socket(),
    {
        match &self.listen_socket {
            Some(socket) => Some(socket.raw()),
            None => None,
        }
    }

    /// Hands out the receiving end of the shutdown signal, for the embedding program
    /// to await beside the acceptances. It is there to be taken once.
    pub fn take_shutdown_signal(&mut self) -> (receiver: Option<oneshot::Receiver<()>>)
        ensures
            receiver is Some <==> old(self)@.holds_shutdown_signal,
            final(self)@ == (DispatcherView { holds_shutdown_signal: false, ..old(self)@ }),
            final(self).handler() == old(self).handler(),
    {
        self.shutdown_rx.take()
    }

    /// Starts the dispatcher: a dispatcher that has not run yet begins its startup and
    /// asks for the first step of it. A dispatcher that has run is left alone.
    pub fn run(&mut self) -> (next: StartupNext)
        requires
            old(self)@.well_formed(),
        ensures
            final(self)@.well_formed(),
            final(self)@ == old(self)@.after_run(),
            final(self).handler() == old(self).handler(),
            next@ == if old(self)@.state == DispatcherState::Init {
                StartupNextView::InitializeSockets
            } else {
                StartupNextView::Ignored
            },
    {
        match self.state {
            DispatcherState::Init => {
                self.state = DispatcherState::Starting(StartupStage::InitializingSockets);
                StartupNext::InitializeSockets
            },
            _ => StartupNext::Ignored,
        }
    }
    /// Makes the reply that carries `value` to whoever built the server, and hands the
    /// sending end of the startup channel over to it.
    fn reply_with(&mut self, value: Result<(), Error>) -> (reply: StartupReply)
        ensures
            final(self)@ == (DispatcherView { owes_startup_report: false, ..old(self)@ }),
            final(self).handler() == old(self).handler(),
            reply@ == (StartupReplyView {
                value: result_view(value),
                deliverable: old(self)@.owes_startup_report,
            }),
    {
        StartupReply { sender: self.startup_completed_tx.take(), value }
    }

    /// Takes the startup one step further: records what the embedding program reports
    /// of the step it was asked for, on the worker that owns `engine`, and tells it
    /// what to do next.
    ///
    /// The steps are: initialize the socket library; create an overlapped-capable TCP
    /// socket; bind it to the dispatcher's port on every interface; listen, with the
    /// negated limit of pending connections as backlog; bind the socket to the
    /// completion port of the worker. The failure of a step ends the dispatcher, and
    /// the reply that comes back carries the error of that step to whoever built the
    /// server. After the last step the reply carries success, and the dispatcher
    /// accepts connections.
    pub fn startup(&mut self, engine: &CompletionEngine, report: StartupReport) -> (next:
        StartupNext)
        requires
            old(self)@.well_formed(),
        ensures
            final(self)@.well_formed(),
            final(self)@ == old(self)@.after_startup(engine@.port, report@),
            final(self).handler() == old(self).handler(),
            next@ == old(self)@.startup_next(engine@.port, report@),
    {
        let created = self.listen_socket();
        match (self.state, report) {
            (
                DispatcherState::Starting(StartupStage::InitializingSockets),
                StartupReport::SocketsInitialized,
            ) => {
                self.state = DispatcherState::Starting(StartupStage::CreatingSocket);
                StartupNext::CreateSocket(SocketRequest::tcp())
            },
            (
                DispatcherState::Starting(StartupStage::CreatingSocket),
                StartupReport::SocketCreated(Ok(socket)),
            ) => {
                self.listen_socket = Some(OwnedHandle::new(socket));
                self.state = DispatcherState::Starting(StartupStage::BindingAddress);
                StartupNext::BindAddress(AddressRequest::any_address(socket, self.port))
            },
            (
                DispatcherState::Starting(StartupStage::CreatingSocket),
                StartupReport::SocketCreated(Err(error)),
            ) => self.fail_startup(error, created),
            (
                DispatcherState::Starting(StartupStage::BindingAddress),
                StartupReport::AddressBound(Ok(_)),
            ) => {
                self.state = DispatcherState::Starting(StartupStage::Listening);
                StartupNext::Listen(ListenRequest::with_backlog_hint(created.unwrap()))
            },
            (
                DispatcherState::Starting(StartupStage::BindingAddress),
                StartupReport::AddressBound(Err(error)),
            ) => self.fail_startup(error, created),
            (
                DispatcherState::Starting(StartupStage::Listening),
                StartupReport::Listening(Ok(_)),
            ) => {
                self.state = DispatcherState::Starting(StartupStage::BindingToPort);
                StartupNext::BindToPort(
                    BindRequest {
                        handle: created.unwrap(),
                        port: engine.port_handle(),
                        completion_key: COMPLETION_KEY,
                        concurrency: PORT_CONCURRENCY,
                        notification_modes: FILE_SKIP_SET_EVENT_ON_HANDLE,
                    },
                )
            },
            (
                DispatcherState::Starting(StartupStage::Listening),
                StartupReport::Listening(Err(error)),
            ) => self.fail_startup(error, created),
            (
                DispatcherState::Starting(StartupStage::BindingToPort),
                StartupReport::PortBound(outcome),
            ) => {
                let mut socket = self.listen_socket.take().unwrap();
                let bound = engine.bind_io_primitive(&mut socket, outcome);
                self.listen_socket = Some(socket);
                match bound {
                    Ok(_) => {
                        let reply = self.reply_with(Ok(()));
                        self.state = DispatcherState::Accepting;
                        self.in_flight = CONCURRENT_ACCEPT_OPERATIONS;
                        StartupNext::Started { refill: CONCURRENT_ACCEPT_OPERATIONS, reply }
                    },
                    Err(error) => self.fail_startup(error, created),
                }
            },
            _ => StartupNext::Ignored,
        }
    }

    /// Ends a startup that failed with `error`.
    fn fail_startup(&mut self, error: Error, created: Option<usize>) -> (next: StartupNext)
        ensures
            final(self)@ == (DispatcherView {
                state: DispatcherState::Terminated,
                owes_startup_report: false,
                ..old(self)@
            }),
            final(self).handler() == old(self).handler(),
            next@ == (StartupNextView::Failed {
                created,
                reply: StartupReplyView {
                    value: Err(error@),
                    deliverable: old(self)@.owes_startup_report,
                },
            }),
    {
        let reply = self.reply_with(Err(error));
        self.state = DispatcherState::Terminated;
        StartupNext::Failed { created, reply }
    }

    /// Handles what happens while the dispatcher accepts connections, and says what
    /// the embedding program is to do before it awaits the next event.
    ///
    /// An accepted connection is dispatched to the handler, and a failed acceptance
    /// is reported and otherwise ignored; either way the acceptance is replaced, so
    /// that the pipeline is full again before anything is awaited. The shutdown signal
    /// ends the dispatcher: the listening socket is handed out to be closed, and every
    /// acceptance in flight is to be cancelled. A dispatcher in another state ignores
    /// the event.
    pub fn run_accept_loop(&mut self, event: AcceptLoopEvent) -> (action: AcceptLoopAction<A>)
        requires
            old(self)@.well_formed(),
        ensures
            final(self)@.well_formed(),
            final(self)@ == old(self)@.after_accept_loop(event is ShutdownSignalled),
            final(self).handler() == old(self).handler(),
            action_view(action) == old(self)@.accept_loop_next(event@),
            action matches AcceptLoopAction::Dispatch { socket: _, on_accept, refill: _ } ==> cloned(
                old(self).handler(),
                on_accept,
            ),
            action matches AcceptLoopAction::Report { error, refill: _ } ==> event
                == AcceptLoopEvent::AcceptCompleted(Err(error)),
    {
        match self.state {
            DispatcherState::Accepting => {},
            _ => {
                return AcceptLoopAction::Ignored;
            },
        }
        match event {
            AcceptLoopEvent::AcceptCompleted(completed) => {
                self.in_flight = self.in_flight - 1;
                let refill = CONCURRENT_ACCEPT_OPERATIONS - self.in_flight;
                self.in_flight = self.in_flight + refill;
                match completed {
                    Ok(socket) => AcceptLoopAction::Dispatch {
                        socket,
                        on_accept: self.on_accept.clone(),
                        refill,
                    },
                    Err(error) => AcceptLoopAction::Report { error, refill },
                }
            },
            AcceptLoopEvent::ShutdownSignalled => {
                let abandoned = self.in_flight;
                self.in_flight = 0;
                self.state = DispatcherState::Terminated;
                AcceptLoopAction::Exit { listen_socket: self.listen_socket.take(), abandoned }
            },
        }
    }
}

/// The work of the task that handles one accepted connection, on the worker that owns
/// `engine`: the socket is bound to the completion port of that worker, and then, and
/// only then, the handler is called with the connection, once. The result is the
/// future that the handler returned, for the worker to drive, or the error of the
/// binding, in which case the handler was not called.
pub fn handle_accepted<A, AF>(
    on_accept: A,
    engine: &CompletionEngine,
    socket: usize,
    outcome: BindOutcome,
) -> (handled: Result<AF, Error>) where
    A: Fn(TcpConnection) -> AF + Clone + Send + 'static,
    AF: Future<Output = Result<(), Error>> + 'static,

    requires
        forall|connection: TcpConnection|
            connection@ == (OwnedHandleView { raw: socket, port: Some(engine@.port) })
                ==> call_requires(on_accept, (connection,)),
    ensures
        match handled {
            Ok(future) => {
                &&& outcome@ == BindOutcomeView::Completed
                &&& exists|connection: TcpConnection|
                    connection@ == (OwnedHandleView { raw: socket, port: Some(engine@.port) })
                        && call_ensures(on_accept, (connection,), future)
            },
            Err(error) => connection_after_bind(engine@.port, socket, outcome@) == Err::<
                OwnedHandleView,
                ErrorView,
            >(error@),
        },
{
    match TcpConnection::bind(engine, socket, outcome) {
        Ok(connection) => Ok(on_accept(connection)),
        Err(error) => Err(error),
    }
}

/// The events of `n` acceptances that end one after the other.
pub open spec fn ended_acceptances(n: nat) -> Seq<DispatcherEvent> {
    Seq::new(n, |k: int| DispatcherEvent::AcceptCompleted)
}

/// Everything that can happen to a dispatcher.
pub enum DispatcherEvent {
    /// The dispatcher is told to run.
    Run,
    /// A step of the startup is reported, on the worker with the given completion port.
    Startup(usize, StartupReportView),
    /// An acceptance in flight ended.
    AcceptCompleted,
    /// The shutdown signal arrived.
    ShutdownSignalled,
}

impl DispatcherView {
    /// The dispatcher after `event`.
    pub open spec fn step(self, event: DispatcherEvent) -> DispatcherView {
        match event {
            DispatcherEvent::Run => self.after_run(),
            DispatcherEvent::Startup(port, report) => self.after_startup(port, report),
            DispatcherEvent::AcceptCompleted => self.after_accept_loop(false),
            DispatcherEvent::ShutdownSignalled => self.after_accept_loop(true),
        }
    }

    /// The dispatcher after the events, one after the other.
    pub open spec fn after_events(self, events: Seq<DispatcherEvent>) -> DispatcherView
        decreases events.len(),
    {
        if events.len() == 0 {
            self
        } else {
            self.after_events(events.drop_last()).step(events.last())
        }
    }
}

/// While a dispatcher accepts connections, the number of acceptances in flight is the
/// full depth of the pipeline, whatever happened before: after any events, in any
/// order, a dispatcher that accepts has exactly that many in flight, and one that does
/// not accept has none.
pub proof fn lemma_pipeline_stays_full(dispatcher: DispatcherView, events: Seq<DispatcherEvent>)
    requires
        dispatcher.well_formed(),
    ensures
        dispatcher.after_events(events).well_formed(),
        dispatcher.after_events(events).port == dispatcher.port,
        dispatcher.after_events(events).in_flight == if dispatcher.after_events(events).state
            == DispatcherState::Accepting {
            CONCURRENT_ACCEPT_OPERATIONS
        } else {
            0
        },
    decreases events.len(),
{
    if events.len() > 0 {
        lemma_pipeline_stays_full(dispatcher, events.drop_last());
    }
}

/// Every accepted connection is dispatched exactly once. When the acceptances of an
/// accepting dispatcher end one after the other, the dispatcher asks for as many
/// actions as acceptances ended, the action for each is its own: a dispatch of that
/// very socket for a connection, a report of that very error for a failure; and the
/// dispatcher goes on accepting with a full pipeline.
pub proof fn lemma_every_connection_is_dispatched_once(
    dispatcher: DispatcherView,
    completions: Seq<Result<usize, ErrorView>>,
)
    requires
        dispatcher.well_formed(),
        dispatcher.state == DispatcherState::Accepting,
    ensures
        dispatcher.actions_for(completions).len() == completions.len(),
        forall|i: int|
            0 <= i < completions.len() ==> (#[trigger] dispatcher.actions_for(completions)[i])
                == match completions[i] {
                Ok(socket) => AcceptLoopActionView::Dispatch { socket, refill: 1 },
                Err(error) => AcceptLoopActionView::Report { error, refill: 1 },
            },
        dispatcher.after_events(ended_acceptances(completions.len())) == dispatcher,
{
    assert forall|n: nat| #[trigger]
        dispatcher.after_events(ended_acceptances(n)) == dispatcher by {
        lemma_completions_keep_accepting(dispatcher, n);
    }
}

/// Acceptances that end leave an accepting dispatcher as it is.
pub proof fn lemma_completions_keep_accepting(dispatcher: DispatcherView, n: nat)
    requires
        dispatcher.state == DispatcherState::Accepting,
    ensures
        dispatcher.after_events(ended_acceptances(n)) == dispatcher,
    decreases n,
{
    if n > 0 {
        lemma_completions_keep_accepting(dispatcher, (n - 1) as nat);
        assert(ended_acceptances(n).drop_last() =~= ended_acceptances((n - 1) as nat));
    }
}

/// A dispatcher moves through its states in one direction. It leaves the initial state
/// only by being run, and then starts up; a startup ends in accepting or in the final
/// state; accepting ends only with the shutdown signal; and nothing leads out of the
/// final state.
pub proof fn lemma_states_move_forward(
    dispatcher: DispatcherView,
    port: usize,
    report: StartupReportView,
    shutdown: bool,
)
    requires
        dispatcher.well_formed(),
    ensures
        dispatcher.state == DispatcherState::Init ==> {
            &&& dispatcher.after_run().state == DispatcherState::Starting(
                StartupStage::InitializingSockets,
            )
            &&& dispatcher.after_startup(port, report) == dispatcher
            &&& dispatcher.after_accept_loop(shutdown) == dispatcher
        },
        dispatcher.state is Starting ==> {
            &&& dispatcher.after_run() == dispatcher
            &&& dispatcher.after_accept_loop(shutdown) == dispatcher
            &&& dispatcher.after_startup(port, report).state != DispatcherState::Init
            &&& (dispatcher.after_startup(port, report).state == DispatcherState::Terminated
                <==> dispatcher.expects(report) && report.failure() is Some)
            &&& (dispatcher.after_startup(port, report).state == DispatcherState::Accepting
                <==> dispatcher.expects(report) && report == StartupReportView::PortBound(
                BindOutcomeView::Completed,
            ))
        },
        dispatcher.state == DispatcherState::Accepting ==> {
            &&& dispatcher.after_run() == dispatcher
            &&& dispatcher.after_startup(port, report) == dispatcher
            &&& dispatcher.after_accept_loop(shutdown).state == if shutdown {
                DispatcherState::Terminated
            } else {
                DispatcherState::Accepting
            }
        },
        dispatcher.state == DispatcherState::Terminated ==> {
            &&& dispatcher.after_run() == dispatcher
            &&& dispatcher.after_startup(port, report) == dispatcher
            &&& dispatcher.after_accept_loop(shutdown) == dispatcher
        },
{
}

} // verus!
