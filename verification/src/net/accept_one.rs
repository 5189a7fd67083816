//! One acceptance: from the creation of the socket that will be the connection to the
//! accepted, configured socket.

use crate::io::engine::phase_after_start;
use crate::io::engine::CompletionEngine;
use crate::io::engine::CompletionPacket;
use crate::io::engine::Routing;
use crate::io::error::ErrorView;
use crate::io::engine::EngineView;
use crate::io::engine::OperationView;
use crate::io::engine::PhaseView;
use crate::io::error::Error;
use crate::io::lifecycle::lemma_first_vacant;
use crate::io::operation_result::OperationResult;
use crate::io::pinned_buffer::PinnedBufferView;
use crate::io::pinned_buffer::ADDRESS_LENGTH;
use crate::net::winsock::accept_request;
use crate::net::winsock::configure_request;
use crate::net::winsock::tcp_socket_request;
use crate::net::winsock::AcceptRequest;
use crate::net::winsock::ConfigureRequest;
use crate::net::winsock::SocketRequest;
use vstd::prelude::*;

verus! {

/// How far an acceptance has come.
#[derive(Debug, Clone, Copy, PartialEq, Eq, Structural)]
pub enum AcceptStage {
    /// Nothing was done yet.
    Created,
    /// A synchronous worker creates the socket for the connection.
    CreatingSocket,
    /// The accept operation is in flight on the listening socket.
    Accepting,
    /// A synchronous worker applies the fixups to the accepted socket.
    Configuring,
    /// The acceptance has ended, with a connection or with an error.
    Finished,
}

/// How the fixups of an accepted socket ended: the update of the accept context, and
/// then, only if that succeeded, the query for the receive-side-scaling processor.
#[derive(Debug)]
pub enum ConfigureOutcome {
    /// The accept context could not be updated; the query was not made.
    ContextFailed(Error),
    /// The context was updated and the query was answered.
    AffinityAnswered,
    /// The context was updated; the query failed.
    AffinityFailed(Error),
}

/// What the query for the receive-side-scaling processor told. None of it stops an
/// acceptance: the information is a hint for dispatching.
#[derive(Debug)]
pub enum AffinityQuery {
    /// The adapter answered.
    Answered,
    /// The adapter does not support receive-side scaling or has it switched off, or
    /// the socket is not connected yet. Nothing to report.
    Unavailable,
    /// The query failed for another reason, which is worth a line in the log.
    Failed(Error),
}

/// What the embedding program reports to an acceptance.
#[derive(Debug)]
pub enum AcceptReport {
    /// The acceptance is to begin.
    Begin,
    /// The socket for the connection was created, or could not be.
    SocketCreated(Result<usize, Error>),
    /// The accept operation resolved.
    Completed(OperationResult),
    /// The fixups were applied, or could not be.
    Configured(ConfigureOutcome),
}

/// What an acceptance asks the embedding program to do next.
#[derive(Debug)]
pub enum AcceptNext {
    /// Create the socket for the connection, on a synchronous worker.
    CreateSocket(SocketRequest),
    /// Begin the accept operation on the reserved control block and await it.
    BeginAccept(AcceptRequest),
    /// Apply the fixups to the accepted socket, on a synchronous worker.
    Configure(ConfigureRequest),
    /// The connection is accepted and usable; `socket` is its raw value, not yet bound
    /// to any completion port.
    Accepted { socket: usize, affinity: AffinityQuery },
    /// The acceptance failed. `created` is the socket created for it, to be closed.
    Failed { error: Error, created: Option<usize> },
    /// The report did not fit the stage of the acceptance and was ignored.
    Ignored,
}

/// The state of one acceptance.
#[derive(Debug)]
pub struct AcceptOne {
    listen_socket: usize,
    stage: AcceptStage,
    connection_socket: Option<usize>,
    block: Option<usize>,
}

/// The mathematical value of an [`AcceptOne`].
pub struct AcceptOneView {
    /// The raw value of the listening socket.
    pub listen_socket: usize,
    pub stage: AcceptStage,
    /// The socket created for the connection, once there is one.
    pub connection_socket: Option<usize>,
    /// The control block of the accept operation, while it is in flight.
    pub block: Option<usize>,
}

impl View for AcceptOne {
    type V = AcceptOneView;

    closed spec fn view(&self) -> AcceptOneView {
        AcceptOneView {
            listen_socket: self.listen_socket,
            stage: self.stage,
            connection_socket: self.connection_socket,
            block: self.block,
        }
    }
}

/// What the answer to the affinity query means for an accepted connection.
pub open spec fn affinity_of(outcome: ConfigureOutcome) -> AffinityQuery {
    match outcome {
        ConfigureOutcome::AffinityFailed(error) => if error@.is_rss_unavailable() {
            AffinityQuery::Unavailable
        } else {
            AffinityQuery::Failed(error)
        },
        _ => AffinityQuery::Answered,
    }
}

/// The buffer that an operation result carries, on success as on failure.
pub open spec fn buffer_of(result: OperationResult) -> PinnedBufferView {
    match result {
        Ok(buffer) => buffer@,
        Err(error) => error.buffer@,
    }
}

impl AcceptOneView {
    /// Whether the acceptance satisfies what every acceptance does: an operation in
    /// flight has a control block and a socket, and fixups have a socket to work on.
    pub open spec fn well_formed(self) -> bool {
        &&& self.stage == AcceptStage::Accepting ==> self.block is Some
            && self.connection_socket is Some
        &&& self.stage == AcceptStage::Configuring ==> self.connection_socket is Some
    }

    /// The engine as the acceptance leaves it after `report`.
    ///
    /// A created socket takes a buffer from the pool and reserves an operation for it.
    /// A resolved operation gives its buffer back to the pool, at whatever stage the
    /// report comes. Nothing else touches the engine.
    pub open spec fn engine_after(self, engine: EngineView, report: AcceptReport) -> EngineView {
        match report {
            AcceptReport::SocketCreated(Ok(_)) => if self.stage == AcceptStage::CreatingSocket {
                (EngineView { pool: engine.pool.after_supply(), ..engine }).after_new_operation(
                    engine.pool.next_buffer(),
                )
            } else {
                engine
            },
            AcceptReport::Completed(result) => EngineView {
                pool: engine.pool.after_release(buffer_of(result)),
                ..engine
            },
            _ => engine,
        }
    }

    /// The control block that the accept operation gets when the socket is created.
    pub open spec fn reserved_block(self, engine: EngineView) -> usize {
        (EngineView { pool: engine.pool.after_supply(), ..engine }).next_block() as usize
    }

    /// The acceptance after `report`.
    pub open spec fn after(self, engine: EngineView, report: AcceptReport) -> AcceptOneView {
        match (self.stage, report) {
            (AcceptStage::Created, AcceptReport::Begin) => AcceptOneView {
                stage: AcceptStage::CreatingSocket,
                ..self
            },
            (AcceptStage::CreatingSocket, AcceptReport::SocketCreated(Ok(socket))) => AcceptOneView {
                stage: AcceptStage::Accepting,
                connection_socket: Some(socket),
                block: Some(self.reserved_block(engine)),
                ..self
            },
            (AcceptStage::CreatingSocket, AcceptReport::SocketCreated(Err(_))) => AcceptOneView {
                stage: AcceptStage::Finished,
                ..self
            },
            (AcceptStage::Accepting, AcceptReport::Completed(Ok(_))) => AcceptOneView {
                stage: AcceptStage::Configuring,
                block: None,
                ..self
            },
            (AcceptStage::Accepting, AcceptReport::Completed(Err(_))) => AcceptOneView {
                stage: AcceptStage::Finished,
                block: None,
                ..self
            },
            (AcceptStage::Configuring, AcceptReport::Configured(_)) => AcceptOneView {
                stage: AcceptStage::Finished,
                ..self
            },
            _ => self,
        }
    }

    /// What the acceptance asks for after `report`.
    pub open spec fn next(self, engine: EngineView, report: AcceptReport) -> AcceptNext {
        match (self.stage, report) {
            (AcceptStage::Created, AcceptReport::Begin) => AcceptNext::CreateSocket(
                tcp_socket_request(),
            ),
            (AcceptStage::CreatingSocket, AcceptReport::SocketCreated(Ok(socket))) => {
                AcceptNext::BeginAccept(
                    accept_request(self.reserved_block(engine), self.listen_socket, socket),
                )
            },
            (AcceptStage::CreatingSocket, AcceptReport::SocketCreated(Err(error))) => {
                AcceptNext::Failed { error, created: None }
            },
            (AcceptStage::Accepting, AcceptReport::Completed(Ok(_))) => AcceptNext::Configure(
                configure_request(self.connection_socket->0, self.listen_socket),
            ),
            (AcceptStage::Accepting, AcceptReport::Completed(Err(error))) => AcceptNext::Failed {
                error: error.inner,
                created: self.connection_socket,
            },
            (
                AcceptStage::Configuring,
                AcceptReport::Configured(ConfigureOutcome::ContextFailed(error)),
            ) => AcceptNext::Failed { error, created: self.connection_socket },
            (AcceptStage::Configuring, AcceptReport::Configured(outcome)) => AcceptNext::Accepted {
                socket: self.connection_socket->0,
                affinity: affinity_of(outcome),
            },
            _ => AcceptNext::Ignored,
        }
    }
}

impl AcceptOne {
    #[verifier::type_invariant]
    spec fn consistent(&self) -> bool {
        self@.well_formed()
    }

    /// An acceptance on the listening socket with the raw value `listen_socket`.
    pub fn new(listen_socket: usize) -> (accept: AcceptOne)
        ensures
            accept@ == (AcceptOneView {
                listen_socket,
                stage: AcceptStage::Created,
                connection_socket: None,
                block: None,
            }),
            accept@.well_formed(),
    {
        AcceptOne {
            listen_socket,
            stage: AcceptStage::Created,
            connection_socket: None,
            block: None,
        }
    }

    /// How far the acceptance has come.
    pub fn stage(&self) -> (stage: AcceptStage)
        ensures
            stage == self@.stage,
    {
        self.stage
    }

    /// The control block of the accept operation, while it is in flight.
    pub fn block(&self) -> (block: Option<usize>)
        ensures
            block == self@.block,
    {
        self.block
    }

    /// The socket created for the connection, once there is one.
    pub fn connection_socket(&self) -> (socket: Option<usize>)
        ensures
            socket == self@.connection_socket,
    {
        self.connection_socket
    }

    /// Takes the acceptance one step further: records what the embedding program
    /// reports and tells it what to do next.
    ///
    /// The steps are: create the socket for the connection; take a buffer from the
    /// pool, reserve an operation and begin the accept, with no first data and one
    /// address length for each of the two addresses; when the operation resolves, give
    /// the buffer back and apply the fixups; when they are applied, hand the socket
    /// out. An error of the socket creation, of the operation or of the context update
    /// ends the acceptance; a failed affinity query does not.
    pub fn execute(&mut self, engine: &mut CompletionEngine, report: AcceptReport) -> (next:
        AcceptNext)
        requires
            old(engine).well_formed(),
        ensures
            old(self)@.well_formed(),
            final(self)@.well_formed(),
            final(engine).well_formed(),
            final(self)@ == old(self)@.after(old(engine)@, report),
            final(engine)@ == old(self)@.engine_after(old(engine)@, report),
            next == old(self)@.next(old(engine)@, report),
    {
        proof {
            use_type_invariant(&*self);
        }
        match report {
            AcceptReport::Begin => {
                if self.stage == AcceptStage::Created {
                    self.stage = AcceptStage::CreatingSocket;
                    AcceptNext::CreateSocket(SocketRequest::tcp())
                } else {
                    AcceptNext::Ignored
                }
            },
            AcceptReport::SocketCreated(created) => {
                if self.stage == AcceptStage::CreatingSocket {
                    match created {
                        Ok(socket) => {
                            let buffer = engine.acquire_buffer();
                            // The output of an accept is the local and the remote address.
                            assert(buffer@.len >= 2 * ADDRESS_LENGTH);
                            let block = engine.new_operation(buffer);
                            self.connection_socket = Some(socket);
                            self.block = Some(block);
                            self.stage = AcceptStage::Accepting;
                            AcceptNext::BeginAccept(
                                AcceptRequest::new(block, self.listen_socket, socket),
                            )
                        },
                        Err(error) => {
                            self.stage = AcceptStage::Finished;
                            AcceptNext::Failed { error, created: None }
                        },
                    }
                } else {
                    AcceptNext::Ignored
                }
            },
            AcceptReport::Completed(result) => {
                let accepting = self.stage == AcceptStage::Accepting;
                match result {
                    Ok(buffer) => {
                        engine.release_buffer(buffer);
                        if accepting {
                            self.stage = AcceptStage::Configuring;
                            self.block = None;
                            AcceptNext::Configure(
                                ConfigureRequest::new(
                                    self.connection_socket.unwrap(),
                                    self.listen_socket,
                                ),
                            )
                        } else {
                            AcceptNext::Ignored
                        }
                    },
                    Err(error) => {
                        let (inner, buffer) = error.into_inner_and_buffer();
                        engine.release_buffer(buffer);
                        if accepting {
                            self.stage = AcceptStage::Finished;
                            self.block = None;
                            AcceptNext::Failed { error: inner, created: self.connection_socket }
                        } else {
                            AcceptNext::Ignored
                        }
                    },
                }
            },
            AcceptReport::Configured(outcome) => {
                if self.stage == AcceptStage::Configuring {
                    self.stage = AcceptStage::Finished;
                    match outcome {
                        ConfigureOutcome::ContextFailed(error) => AcceptNext::Failed {
                            error,
                            created: self.connection_socket,
                        },
                        ConfigureOutcome::AffinityAnswered => AcceptNext::Accepted {
                            socket: self.connection_socket.unwrap(),
                            affinity: AffinityQuery::Answered,
                        },
                        ConfigureOutcome::AffinityFailed(error) => {
                            let affinity = if error.is_rss_unavailable() {
                                AffinityQuery::Unavailable
                            } else {
                                AffinityQuery::Failed(error)
                            };
                            AcceptNext::Accepted {
                                socket: self.connection_socket.unwrap(),
                                affinity,
                            }
                        },
                    }
                } else {
                    AcceptNext::Ignored
                }
            },
        }
    }

    /// Ends an acceptance that nobody waits for any more, as a dispatcher does with
    /// every acceptance in flight when it shuts down. An accept operation in flight is
    /// abandoned, so that its control block and buffer outlive it until the platform
    /// is done with them. The result is the socket created for the connection, to be
    /// closed.
    pub fn cancel(self, engine: &mut CompletionEngine) -> (socket: Option<usize>)
        requires
            old(engine).well_formed(),
        ensures
            final(engine).well_formed(),
            socket == self@.connection_socket,
            final(engine)@ == if self@.stage == AcceptStage::Accepting {
                old(engine)@.after_abandon(self@.block->0)
            } else {
                old(engine)@
            },
    {
        proof {
            use_type_invariant(&self);
        }
        if self.stage == AcceptStage::Accepting {
            engine.abandon(self.block.unwrap());
        }
        self.connection_socket
    }
}

/// A connection is handed out only after its accept operation has resolved: an
/// acceptance gives a connection only from the stage of the fixups, it enters that
/// stage only by the report of its operation's success, and the socket it hands out is
/// the one that was created for it.
pub proof fn lemma_accepted_after_completion(
    accept: AcceptOneView,
    engine: EngineView,
    report: AcceptReport,
)
    requires
        accept.well_formed(),
    ensures
        accept.after(engine, report).well_formed(),
        accept.next(engine, report) is Accepted ==> accept.stage == AcceptStage::Configuring
            && accept.next(engine, report)->socket == accept.connection_socket->0,
        accept.after(engine, report).stage == AcceptStage::Configuring ==> accept.stage
            == AcceptStage::Configuring || (accept.stage == AcceptStage::Accepting && report
            matches AcceptReport::Completed(Ok(_))),
        accept.stage == AcceptStage::Finished ==> accept.after(engine, report) == accept
            && accept.next(engine, report) is Ignored,
{
}

/// The operation that an acceptance reserves gets a buffer with room for both
/// addresses, at full length, and is in the table under the control block that the
/// acceptance remembers and puts into its request.
pub proof fn lemma_accept_reserves_operation(
    accept: AcceptOneView,
    engine: EngineView,
    socket: usize,
)
    requires
        accept.stage == AcceptStage::CreatingSocket,
        engine.slots.len() < usize::MAX,
    ensures
        ({
            let report = AcceptReport::SocketCreated(Ok(socket));
            let block = accept.reserved_block(engine);
            &&& accept.after(engine, report).block == Some(block)
            &&& accept.next(engine, report) == AcceptNext::BeginAccept(
                accept_request(block, accept.listen_socket, socket),
            )
            &&& accept.engine_after(engine, report).entry(block) == Some(
                OperationView { buffer: engine.pool.next_buffer(), phase: PhaseView::Reserved },
            )
            &&& engine.pool.next_buffer().len >= 2 * ADDRESS_LENGTH
            &&& engine.entry(block) is None
        }),
{
    lemma_first_vacant(engine.slots, 0);
}

/// An acceptance never waits for a buffer and never fails for want of one. With
/// nothing on the free list of the pool, the report of the created socket is answered
/// in the same step by the request to begin the accept, on an operation whose buffer
/// is a new allocation of full length, with room for both addresses; the free list
/// stays empty, and nothing that was lent before is touched.
pub proof fn lemma_acceptance_allocates_on_empty_pool(
    accept: AcceptOneView,
    engine: EngineView,
    socket: usize,
)
    requires
        accept.stage == AcceptStage::CreatingSocket,
        engine.pool.free.len() == 0,
        engine.slots.len() < usize::MAX,
    ensures
        ({
            let report = AcceptReport::SocketCreated(Ok(socket));
            let block = accept.reserved_block(engine);
            &&& accept.next(engine, report) is BeginAccept
            &&& accept.after(engine, report).stage == AcceptStage::Accepting
            &&& accept.engine_after(engine, report).entry(block) == Some(
                OperationView { buffer: engine.pool.fresh(), phase: PhaseView::Reserved },
            )
            &&& engine.pool.fresh().len >= 2 * ADDRESS_LENGTH
            &&& accept.engine_after(engine, report).pool.free.len() == 0
            &&& forall|other: usize|
                other != block ==> accept.engine_after(engine, report).entry(other)
                    == engine.entry(other)
        }),
{
    lemma_first_vacant(engine.slots, 0);
}

/// An acceptance that is given up while its accept is in flight leaves nothing behind
/// and frees nothing too early. From the report of the created socket on: once the
/// operation is started and the acceptance cancelled, the platform still holds the
/// operation with the buffer that was lent; the packet that arrives later releases
/// both, hands no result to anybody, and gives the buffer back to the pool; and a
/// second packet finds nothing.
pub proof fn lemma_cancelled_acceptance_is_reclaimed(
    accept: AcceptOneView,
    engine: EngineView,
    socket: usize,
    initiated: Result<(), ErrorView>,
    packet: CompletionPacket,
)
    requires
        accept.stage == AcceptStage::CreatingSocket,
        engine.slots.len() < usize::MAX,
        phase_after_start(initiated) is Pending,
        packet.block == accept.reserved_block(engine),
    ensures
        ({
            let report = AcceptReport::SocketCreated(Ok(socket));
            let block = accept.reserved_block(engine);
            let lent = engine.pool.next_buffer();
            let cancelled = accept.engine_after(engine, report).after_start(
                block,
                initiated,
            ).after_abandon(block);
            &&& accept.after(engine, report).stage == AcceptStage::Accepting
            &&& accept.after(engine, report).block == Some(block)
            &&& cancelled.entry(block) == Some(
                OperationView { buffer: lent, phase: PhaseView::Abandoned },
            )
            &&& cancelled.held_by_platform(block)
            &&& cancelled.result(block) is None
            &&& cancelled.pool == engine.pool.after_supply()
            &&& cancelled.routing(packet) == Routing::Reclaimed
            &&& cancelled.after_route(packet).entry(block) is None
            &&& cancelled.after_route(packet).result(block) is None
            &&& cancelled.after_route(packet).pool == engine.pool.after_supply().after_release(lent)
            &&& cancelled.after_route(packet).routing(packet) == Routing::Unmatched
        }),
{
    lemma_first_vacant(engine.slots, 0);
}

} // verus!
