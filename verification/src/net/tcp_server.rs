//! The user's side of a TCP server: the builder that configures and launches it, and the
//! handle that stops it.

use crate::io::error::Error;
use crate::io::error::ErrorView;
use crate::net::tcp_connection::TcpConnection;
use crate::net::tcp_dispatcher::DispatcherState;
use crate::net::tcp_dispatcher::DispatcherView;
use crate::net::tcp_dispatcher::TcpDispatcher;
use crate::rt::join_handle::RemoteJoinHandle;
use std::future::Future;
use std::marker::PhantomData;
use std::rc::Rc;
use vstd::prelude::*;

verus! {

/// The message of the error for a server without a port.
pub open spec fn port_must_be_set() -> Seq<char> {
    "port must be set"@
}

/// The message of the error for a server without a handler.
pub open spec fn on_accept_must_be_set() -> Seq<char> {
    "on_accept must be set"@
}

/// The message of the error for a dispatcher that ended without a word.
pub open spec fn dispatcher_died() -> Seq<char> {
    "TCP dispatcher died before reporting startup result"@
}

/// Collects the options of a TCP server: the port to listen on, on every IPv4
/// interface, and the handler that is called once for every accepted connection. Both
/// are required. A builder stays on the thread that made it.
#[verifier::reject_recursive_types(A)]
#[verifier::reject_recursive_types(AF)]
pub struct TcpServerBuilder<A, AF> where
    A: Fn(TcpConnection) -> AF + Clone + Send + 'static,
    AF: Future<Output = Result<(), Error>> + 'static,
 {
    port: Option<u16>,
    on_accept: Option<A>,
    single_threaded: PhantomData<Rc<()>>,
}

/// What a dispatcher is made of. Unlike the dispatcher itself it may travel: it is
/// made where the server is built, and turned into the dispatcher on the worker that
/// runs it.
#[verifier::reject_recursive_types(A)]
#[verifier::reject_recursive_types(AF)]
pub struct DispatcherSeed<A, AF> where
    A: Fn(TcpConnection) -> AF + Clone + Send + 'static,
    AF: Future<Output = Result<(), Error>> + 'static,
 {
    port: u16,
    on_accept: A,
    startup_completed_tx: oneshot::Sender<Result<(), Error>>,
    shutdown_rx: oneshot::Receiver<()>,
}

impl<A, AF> DispatcherSeed<A, AF> where
    A: Fn(TcpConnection) -> AF + Clone + Send + 'static,
    AF: Future<Output = Result<(), Error>> + 'static,
 {
    #[verifier::type_invariant]
    spec fn has_port(&self) -> bool {
        self.port != 0
    }

    /// The TCP port that the dispatcher will listen on.
    pub closed spec fn target_port(&self) -> u16 {
        self.port
    }

    /// The handler that the dispatcher will give every accepted connection to.
    pub closed spec fn handler(&self) -> A {
        self.on_accept
    }

    /// The TCP port that the dispatcher will listen on; never zero.
    pub fn port(&self) -> (port: u16)
        ensures
            port == self.target_port(),
            port != 0,
    {
        proof {
            use_type_invariant(self);
        }
        self.port
    }

    /// Makes the dispatcher, on the worker that is to run it. The dispatcher has not
    /// run yet.
    pub fn into_dispatcher(self) -> (dispatcher: TcpDispatcher<A, AF>)
        ensures
            dispatcher@.well_formed(),
            dispatcher.handler() == self.handler(),
            dispatcher@ == (DispatcherView {
                state: DispatcherState::Init,
                port: self.target_port(),
                listen_socket: None,
                in_flight: 0,
                owes_startup_report: true,
                holds_shutdown_signal: true,
            }),
    {
        proof {
            use_type_invariant(&self);
        }
        TcpDispatcher::new(self.port, self.on_accept, self.startup_completed_tx, self.shutdown_rx)
    }
}

/// A server that is configured and ready to be started: what the dispatcher is made
/// of, the channel end on which the dispatcher reports its startup, and the channel end
/// that signals it to shut down.
#[verifier::reject_recursive_types(A)]
#[verifier::reject_recursive_types(AF)]
pub struct TcpServerLaunch<A, AF> where
    A: Fn(TcpConnection) -> AF + Clone + Send + 'static,
    AF: Future<Output = Result<(), Error>> + 'static,
 {
    pub seed: DispatcherSeed<A, AF>,
    pub startup_completed_rx: oneshot::Receiver<Result<(), Error>>,
    pub shutdown_tx: oneshot::Sender<()>,
}

impl<A, AF> TcpServerBuilder<A, AF> where
    A: Fn(TcpConnection) -> AF + Clone + Send + 'static,
    AF: Future<Output = Result<(), Error>> + 'static,
 {
    /// The port that was set, if one was.
    pub closed spec fn configured_port(&self) -> Option<u16> {
        self.port
    }

    /// The handler that was set, if one was.
    pub closed spec fn configured_handler(&self) -> Option<A> {
        self.on_accept
    }

    #[verifier::type_invariant]
    spec fn port_is_not_zero(&self) -> bool {
        self.port != Some(0u16)
    }

    /// The error that [`TcpServerBuilder::build`] gives for the options as they are, if
    /// it gives one: the port is looked at first.
    pub open spec fn missing_option(&self) -> Option<ErrorView> {
        if self.configured_port() is None {
            Some(ErrorView::InvalidOptions(port_must_be_set()))
        } else if self.configured_handler() is None {
            Some(ErrorView::InvalidOptions(on_accept_must_be_set()))
        } else {
            None
        }
    }

    /// A builder with nothing set.
    pub fn new() -> (builder: Self)
        ensures
            builder.configured_port() is None,
            builder.configured_handler() is None,
    {
        TcpServerBuilder { port: None, on_accept: None, single_threaded: PhantomData }
    }

    /// Sets the TCP port to listen on. The port is not zero.
    pub fn port(self, port: u16) -> (builder: Self)
        requires
            port != 0,
        ensures
            builder.configured_port() == Some(port),
            builder.configured_handler() == self.configured_handler(),
    {
        let mut builder = self;
        builder.port = Some(port);
        builder
    }

    /// Sets the function to call when a connection is accepted. It may be called from
    /// any async worker and any number of times at once, and it owns the connection
    /// that it is given.
    pub fn on_accept(self, callback: A) -> (builder: Self)
        ensures
            builder.configured_port() == self.configured_port(),
            builder.configured_handler() == Some(callback),
    {
        proof {
            use_type_invariant(&self);
        }
        let mut builder = self;
        builder.on_accept = Some(callback);
        builder
    }

    /// Checks the options and makes the server ready to be started.
    ///
    /// Without a port the error is `InvalidOptions("port must be set")`; with a port
    /// and without a handler it is `InvalidOptions("on_accept must be set")`. Nothing
    /// is created in either case. With both, the result holds what the dispatcher is
    /// made of, with the port and the handler that were set, and the two channel ends
    /// that stay with the caller.
    pub fn build(self) -> (launch: Result<TcpServerLaunch<A, AF>, Error>)
        ensures
            self.missing_option() is Some ==> launch is Err && launch->Err_0@
                == self.missing_option()->0,
            self.missing_option() is None ==> {
                &&& launch is Ok
                &&& launch->Ok_0.seed.target_port() == self.configured_port()->0
                &&& launch->Ok_0.seed.handler() == self.configured_handler()->0
            },
    {
        proof {
            use_type_invariant(&self);
        }
        let port = match self.port {
            Some(port) => port,
            None => {
                return Err(Error::invalid_options("port must be set"));
            },
        };
        let on_accept = match self.on_accept {
            Some(on_accept) => on_accept,
            None => {
                return Err(Error::invalid_options("on_accept must be set"));
            },
        };
        let (startup_completed_tx, startup_completed_rx) = oneshot::channel();
        let (shutdown_tx, shutdown_rx) = oneshot::channel();
        Ok(
            TcpServerLaunch {
                seed: DispatcherSeed { port, on_accept, startup_completed_tx, shutdown_rx },
                startup_completed_rx,
                shutdown_tx,
            },
        )
    }
}

impl<A, AF> Default for TcpServerBuilder<A, AF> where
    A: Fn(TcpConnection) -> AF + Clone + Send + 'static,
    AF: Future<Output = Result<(), Error>> + 'static,
 {
    fn default() -> (builder: Self)
        ensures
            builder.configured_port() is None,
            builder.configured_handler() is None,
    {
        Self::new()
    }
}

/// What the caller of a build learns from the startup report of the dispatcher: the
/// report itself if there is one, and an internal error if the dispatcher ended
/// without reporting.
pub open spec fn startup_result(report: Option<Result<(), Error>>) -> Result<(), ErrorView> {
    match report {
        Some(Ok(_)) => Ok(()),
        Some(Err(error)) => Err(error@),
        None => Err(ErrorView::Internal(dispatcher_died())),
    }
}

/// The control surface of a running TCP server. Letting go of the handle does not stop
/// the server: only [`TcpServerHandle::stop`] does. A handle stays on the thread that
/// built the server.
pub struct TcpServerHandle {
    dispatcher_join_handle: RemoteJoinHandle,
    // Consumed when the signal is sent.
    dispatcher_shutdown_tx: Option<oneshot::Sender<()>>,
    single_threaded: PhantomData<Rc<()>>,
}

/// The mathematical value of a [`TcpServerHandle`].
pub struct TcpServerHandleView {
    /// The handle on the dispatcher task.
    pub join_handle: RemoteJoinHandle,
    /// Whether the shutdown signal has been sent.
    pub stopped: bool,
}

impl TcpServerHandleView {
    /// The handle after a call of [`TcpServerHandle::stop`].
    pub open spec fn after_stop(self) -> TcpServerHandleView {
        TcpServerHandleView { stopped: true, ..self }
    }
}

impl View for TcpServerHandle {
    type V = TcpServerHandleView;

    closed spec fn view(&self) -> TcpServerHandleView {
        TcpServerHandleView {
            join_handle: self.dispatcher_join_handle,
            stopped: self.dispatcher_shutdown_tx is None,
        }
    }
}

impl TcpServerHandle {
    /// The handle of a server whose dispatcher runs as the task `dispatcher_join_handle`
    /// and is stopped through `dispatcher_shutdown_tx`.
    pub fn new(
        dispatcher_join_handle: RemoteJoinHandle,
        dispatcher_shutdown_tx: oneshot::Sender<()>,
    ) -> (handle: TcpServerHandle)
        ensures
            handle@ == (TcpServerHandleView { join_handle: dispatcher_join_handle, stopped: false }),
    {
        TcpServerHandle {
            dispatcher_join_handle,
            dispatcher_shutdown_tx: Some(dispatcher_shutdown_tx),
            single_threaded: PhantomData,
        }
    }

    /// Ends a build: turns the startup report of the dispatcher, or the lack of one,
    /// into the handle of the running server or into the error of the build.
    pub fn started(
        dispatcher_join_handle: RemoteJoinHandle,
        dispatcher_shutdown_tx: oneshot::Sender<()>,
        report: Option<Result<(), Error>>,
    ) -> (handle: Result<TcpServerHandle, Error>)
        ensures
            match handle {
                Ok(handle) => startup_result(report) is Ok && handle@ == (TcpServerHandleView {
                    join_handle: dispatcher_join_handle,
                    stopped: false,
                }),
                Err(error) => startup_result(report) == Err::<(), ErrorView>(error@),
            },
    {
        match report {
            Some(Ok(_)) => Ok(TcpServerHandle::new(dispatcher_join_handle, dispatcher_shutdown_tx)),
            Some(Err(error)) => Err(error),
            None => Err(Error::internal("TCP dispatcher died before reporting startup result")),
        }
    }

    /// The handle on the dispatcher task, for waiting until the server has ended.
    pub fn join_handle(&self) -> (handle: RemoteJoinHandle)
        ensures
            handle == self@.join_handle,
    {
        self.dispatcher_join_handle
    }

    /// Whether the shutdown signal has been sent.
    pub fn is_stopped(&self) -> (stopped: bool)
        ensures
            stopped == self@.stopped,
    {
        self.dispatcher_shutdown_tx.is_none()
    }

    /// Stops the server: signals the dispatcher to shut down, and returns at once. The
    /// signal is sent by the first call; every later call does nothing.
    pub fn stop(&mut self)
        ensures
            final(self)@ == old(self)@.after_stop(),
            old(self)@.stopped ==> *final(self) == *old(self),
    {
        match self.dispatcher_shutdown_tx.take() {
            Some(dispatcher_shutdown_tx) => {
                // The dispatcher may have ended already; then there is nobody to tell.
                let _ = dispatcher_shutdown_tx.send(());
            },
            None => {},
        }
    }
}

/// Stopping a server any number of times is stopping it once: a call on a handle that
/// was stopped before leaves it as it is, so every call after the first changes
/// nothing.
pub proof fn lemma_stop_is_idempotent(handle: TcpServerHandleView)
    ensures
        handle.after_stop().stopped,
        handle.stopped ==> handle.after_stop() == handle,
        handle.after_stop().after_stop() == handle.after_stop(),
{
}

} // verus!
