//! An accepted connection, as the acceptor hands it to the user's handler.

use crate::io::completion_port::bind_result;
use crate::io::completion_port::BindOutcome;
use crate::io::completion_port::BindOutcomeView;
use crate::io::completion_port::OwnedHandle;
use crate::io::completion_port::OwnedHandleView;
use crate::io::engine::CompletionEngine;
use crate::io::error::Error;
use crate::io::error::ErrorView;
use vstd::prelude::*;

verus! {

/// An accepted TCP connection: a socket that is bound to the completion port of the
/// worker that handles it. There is no connection without that binding.
#[derive(Debug)]
pub struct TcpConnection {
    socket: OwnedHandle,
}

impl View for TcpConnection {
    type V = OwnedHandleView;

    closed spec fn view(&self) -> OwnedHandleView {
        self.socket@
    }
}

/// What becomes of an accepted socket that a worker binds to its port: a connection
/// on that port if the binding succeeded, and the error of the binding if not.
pub open spec fn connection_after_bind(
    port: usize,
    socket: usize,
    outcome: BindOutcomeView,
) -> Result<OwnedHandleView, ErrorView> {
    match bind_result(OwnedHandleView { raw: socket, port: None }, outcome) {
        Ok(_) => Ok(OwnedHandleView { raw: socket, port: Some(port) }),
        Err(error) => Err(error),
    }
}

/// The view of a result that holds a connection or an error.
pub open spec fn connection_result_view(result: Result<TcpConnection, Error>) -> Result<
    OwnedHandleView,
    ErrorView,
> {
    match result {
        Ok(connection) => Ok(connection@),
        Err(error) => Err(error@),
    }
}

impl TcpConnection {
    #[verifier::type_invariant]
    spec fn bound(&self) -> bool {
        self.socket@.is_bound()
    }

    /// Makes a connection of the accepted socket `socket`, on the worker that owns
    /// `engine`: records how the binding of the socket to the worker's completion port
    /// ended, and hands the connection out only if the socket is bound.
    pub fn bind(engine: &CompletionEngine, socket: usize, outcome: BindOutcome) -> (connection:
        Result<TcpConnection, Error>)
        ensures
            connection_result_view(connection) == connection_after_bind(
                engine@.port,
                socket,
                outcome@,
            ),
    {
        let mut handle = OwnedHandle::new(socket);
        match engine.bind_io_primitive(&mut handle, outcome) {
            Ok(_) => Ok(TcpConnection { socket: handle }),
            Err(error) => Err(error),
        }
    }

    /// The raw value of the connection's socket.
    pub fn raw_socket(&self) -> (raw: usize)
        ensures
            raw == self@.raw,
    {
        self.socket.raw()
    }

    /// The raw value of the completion port that the connection is bound to.
    pub fn port(&self) -> (port: usize)
        ensures
            self@.port == Some(port),
    {
        proof {
            use_type_invariant(self);
        }
        self.socket.port().unwrap()
    }

    /// Gives up the connection and hands out its socket, for the caller to close.
    pub fn into_socket(self) -> (socket: OwnedHandle)
        ensures
            socket@ == self@,
            socket@.is_bound(),
    {
        proof {
            use_type_invariant(&self);
        }
        self.socket
    }
}

} // verus!
