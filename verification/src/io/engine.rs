//! The completion engine of one async worker: the table of its operations, from the
//! reservation of a control block to the release of it.
//!
//! The engine makes no system call. The embedding program starts an operation on the
//! platform and reports what the initiator said; it takes completion packets from the
//! port and hands them over; the engine keeps track of who holds each buffer and
//! decides what every packet means.

use crate::io::completion_port::BindOutcome;
use crate::io::completion_port::bind_result;
use crate::io::completion_port::CompletionPort;
use crate::io::completion_port::OwnedHandle;
use crate::io::error::Error;
use crate::io::error::result_view;
use crate::io::error::ErrorView;
use crate::io::operation_result::OperationError;
use crate::io::operation_result::OperationResult;
use crate::io::pinned_buffer::BufferPool;
use crate::io::pinned_buffer::BufferPoolView;
use crate::io::pinned_buffer::PinnedBuffer;
use crate::io::pinned_buffer::PinnedBufferView;
use crate::io::pinned_buffer::BUFFER_CAPACITY;
use vstd::prelude::*;

verus! {

/// Status of a completion packet whose operation succeeded.
pub const STATUS_SUCCESS: i32 = 0;

/// Where an operation stands between the reservation of its control block and the
/// release of it.
#[derive(Debug)]
pub enum Phase {
    /// The control block is reserved and holds the buffer; nothing was started yet.
    Reserved,
    /// The platform has the control block and the buffer, and somebody awaits the result.
    Pending,
    /// The completion packet arrived with success; the result waits to be taken.
    Succeeded,
    /// The operation failed, at once or by its completion packet; the error waits to be
    /// taken together with the buffer.
    Failed(Error),
    /// The platform has the control block and the buffer, and nobody awaits the result
    /// any more.
    Abandoned,
}

/// The mathematical value of a [`Phase`].
pub enum PhaseView {
    Reserved,
    Pending,
    Succeeded,
    Failed(ErrorView),
    Abandoned,
}

impl View for Phase {
    type V = PhaseView;

    open spec fn view(&self) -> PhaseView {
        match *self {
            Phase::Reserved => PhaseView::Reserved,
            Phase::Pending => PhaseView::Pending,
            Phase::Succeeded => PhaseView::Succeeded,
            Phase::Failed(error) => PhaseView::Failed(error@),
            Phase::Abandoned => PhaseView::Abandoned,
        }
    }
}

impl PhaseView {
    /// Whether the platform may still read or write the control block and the buffer.
    pub open spec fn held_by_platform(self) -> bool {
        self is Pending || self is Abandoned
    }
}

/// One operation of the table: the lent buffer and the phase of the operation.
#[derive(Debug)]
pub struct Operation {
    buffer: PinnedBuffer,
    phase: Phase,
}

/// The mathematical value of an [`Operation`].
pub struct OperationView {
    pub buffer: PinnedBufferView,
    pub phase: PhaseView,
}

impl View for Operation {
    type V = OperationView;

    closed spec fn view(&self) -> OperationView {
        OperationView { buffer: self.buffer@, phase: self.phase@ }
    }
}

/// What the platform posts to the completion port when an operation has finished.
#[derive(Debug, Clone, Copy, PartialEq, Eq, Structural)]
pub struct CompletionPacket {
    /// The control block of the operation that finished.
    pub block: usize,
    /// The platform's status for the operation; `STATUS_SUCCESS` or an error code.
    pub status: i32,
    /// The number of bytes the operation transferred.
    pub bytes_transferred: u32,
}

/// What became of a completion packet.
#[derive(Debug, Clone, Copy, PartialEq, Eq, Structural)]
pub enum Routing {
    /// The packet resolved a pending operation; its awaiter is to be woken.
    Resolved,
    /// The packet belonged to an abandoned operation; control block and buffer are
    /// released, the result is discarded.
    Reclaimed,
    /// No operation in flight has this control block; the packet changed nothing.
    Unmatched,
}

/// What an operation hands to whoever takes its result, as mathematical values.
pub enum ResultView {
    /// The buffer, with the transferred bytes as its used length.
    Success(PinnedBufferView),
    /// The error, and the buffer beside it.
    Failure(ErrorView, PinnedBufferView),
}

/// The used length of a buffer after a transfer: the bytes transferred, and never more
/// than the buffer holds.
pub open spec fn transferred_len(bytes_transferred: u32) -> usize {
    if bytes_transferred <= BUFFER_CAPACITY {
        bytes_transferred as usize
    } else {
        BUFFER_CAPACITY
    }
}

/// The phase that a started operation enters, by what its initiator reported: success
/// and "queued" both mean that a completion packet will come; anything else is the
/// failure of the operation, and no packet follows.
pub open spec fn phase_after_start(initiated: Result<(), ErrorView>) -> PhaseView {
    match initiated {
        Ok(_) => PhaseView::Pending,
        Err(error) => if error.is_io_pending() {
            PhaseView::Pending
        } else {
            PhaseView::Failed(error)
        },
    }
}

/// The mathematical value of a [`CompletionEngine`]: its port, its pool and its table
/// of operations, indexed by control block.
pub struct EngineView {
    pub port: usize,
    pub pool: BufferPoolView,
    pub slots: Seq<Option<OperationView>>,
}

/// The first vacant slot at or after `start`, or the length of the table if every slot
/// from there on is taken.
pub open spec fn first_vacant_from(slots: Seq<Option<OperationView>>, start: int) -> int
    decreases slots.len() - start,
{
    if start < 0 || start >= slots.len() {
        slots.len() as int
    } else if slots[start] is None {
        start
    } else {
        first_vacant_from(slots, start + 1)
    }
}

impl EngineView {
    /// The operation with control block `block`, if the table holds one.
    pub open spec fn entry(self, block: usize) -> Option<OperationView> {
        if block < self.slots.len() {
            self.slots[block as int]
        } else {
            None
        }
    }

    /// The phase of the operation with control block `block`.
    pub open spec fn phase(self, block: usize) -> Option<PhaseView> {
        match self.entry(block) {
            Some(operation) => Some(operation.phase),
            None => None,
        }
    }

    /// Whether the platform may still use the control block `block` and its buffer.
    pub open spec fn held_by_platform(self, block: usize) -> bool {
        match self.entry(block) {
            Some(operation) => operation.phase.held_by_platform(),
            None => false,
        }
    }

    /// The control block that the next operation gets: the first vacant slot.
    pub open spec fn next_block(self) -> int {
        first_vacant_from(self.slots, 0)
    }

    /// The table with `slot` in place `block`, grown by one slot if `block` is its length.
    pub open spec fn with_slot(self, block: int, slot: Option<OperationView>) -> EngineView {
        if block == self.slots.len() {
            EngineView { slots: self.slots.push(slot), ..self }
        } else if 0 <= block < self.slots.len() {
            EngineView { slots: self.slots.update(block, slot), ..self }
        } else {
            self
        }
    }

    /// The engine after `buffer` was given to a new operation.
    pub open spec fn after_new_operation(self, buffer: PinnedBufferView) -> EngineView {
        self.with_slot(
            self.next_block(),
            Some(OperationView { buffer, phase: PhaseView::Reserved }),
        )
    }

    /// The engine after the initiator of the reserved operation `block` reported
    /// `initiated`. An operation that is not reserved is left alone.
    pub open spec fn after_start(self, block: usize, initiated: Result<(), ErrorView>) -> EngineView {
        match self.entry(block) {
            Some(operation) => if operation.phase is Reserved {
                self.with_slot(
                    block as int,
                    Some(OperationView { phase: phase_after_start(initiated), ..operation }),
                )
            } else {
                self
            },
            None => self,
        }
    }

    /// What becomes of `packet` in this state.
    pub open spec fn routing(self, packet: CompletionPacket) -> Routing {
        match self.phase(packet.block) {
            Some(PhaseView::Pending) => Routing::Resolved,
            Some(PhaseView::Abandoned) => Routing::Reclaimed,
            _ => Routing::Unmatched,
        }
    }

    /// The engine after `packet` was routed.
    ///
    /// A pending operation is resolved: on success its buffer gets the transferred bytes
    /// as used length, on any other status it fails with that status. An abandoned
    /// operation is released: its slot becomes vacant and its buffer goes to the pool.
    /// A packet for anything else changes nothing.
    pub open spec fn after_route(self, packet: CompletionPacket) -> EngineView {
        match self.entry(packet.block) {
            Some(operation) => match operation.phase {
                PhaseView::Pending => if packet.status == STATUS_SUCCESS {
                    self.with_slot(
                        packet.block as int,
                        Some(
                            OperationView {
                                buffer: operation.buffer.with_len(
                                    transferred_len(packet.bytes_transferred),
                                ),
                                phase: PhaseView::Succeeded,
                            },
                        ),
                    )
                } else {
                    self.with_slot(
                        packet.block as int,
                        Some(
                            OperationView {
                                phase: PhaseView::Failed(ErrorView::Windows { code: packet.status }),
                                ..operation
                            },
                        ),
                    )
                },
                PhaseView::Abandoned => EngineView {
                    pool: self.pool.after_release(operation.buffer),
                    ..self.with_slot(packet.block as int, None)
                },
                _ => self,
            },
            None => self,
        }
    }

    /// The engine after the bytes of the buffer of the reserved operation `block` were
    /// replaced by `storage`, as the initiator of an operation may do with the region
    /// it is lent. Nothing else is reserved for writing.
    pub open spec fn after_write(self, block: usize, storage: Seq<u8>) -> EngineView {
        match self.entry(block) {
            Some(operation) => if operation.phase is Reserved {
                self.with_slot(
                    block as int,
                    Some(
                        OperationView { buffer: operation.buffer.with_storage(storage), ..operation },
                    ),
                )
            } else {
                self
            },
            None => self,
        }
    }

    /// The engine after the packets were routed, one after the other.
    pub open spec fn after_route_all(self, packets: Seq<CompletionPacket>) -> EngineView
        decreases packets.len(),
    {
        if packets.len() == 0 {
            self
        } else {
            self.after_route_all(packets.drop_last()).after_route(packets.last())
        }
    }

    /// The control blocks of the operations that the packets resolve, in the order of
    /// the packets: the awaiters to wake.
    pub open spec fn resolved_by(self, packets: Seq<CompletionPacket>) -> Seq<usize>
        decreases packets.len(),
    {
        if packets.len() == 0 {
            Seq::<usize>::empty()
        } else {
            let earlier = self.resolved_by(packets.drop_last());
            if self.after_route_all(packets.drop_last()).routing(packets.last())
                == Routing::Resolved {
                earlier.push(packets.last().block)
            } else {
                earlier
            }
        }
    }

    /// What the awaiter of `block` gets when it asks for the result: the result of a
    /// resolved operation, nothing in any other case.
    pub open spec fn result(self, block: usize) -> Option<ResultView> {
        match self.entry(block) {
            Some(operation) => match operation.phase {
                PhaseView::Succeeded => Some(ResultView::Success(operation.buffer)),
                PhaseView::Failed(error) => Some(ResultView::Failure(error, operation.buffer)),
                _ => None,
            },
            None => None,
        }
    }

    /// The engine after the awaiter of `block` asked for the result: a resolved
    /// operation leaves the table, anything else stays.
    pub open spec fn after_take(self, block: usize) -> EngineView {
        if self.result(block) is Some {
            self.with_slot(block as int, None)
        } else {
            self
        }
    }

    /// The engine after the awaiter of `block` gave up.
    ///
    /// An operation that the platform holds stays in the table, marked abandoned, with
    /// its buffer. One that the platform does not hold leaves the table at once and its
    /// buffer goes to the pool.
    pub open spec fn after_abandon(self, block: usize) -> EngineView {
        match self.entry(block) {
            Some(operation) => match operation.phase {
                PhaseView::Pending => self.with_slot(
                    block as int,
                    Some(OperationView { phase: PhaseView::Abandoned, ..operation }),
                ),
                PhaseView::Abandoned => self,
                _ => EngineView {
                    pool: self.pool.after_release(operation.buffer),
                    ..self.with_slot(block as int, None)
                },
            },
            None => self,
        }
    }
}

/// The view of an operation result.
pub open spec fn operation_result_view(result: OperationResult) -> ResultView {
    match result {
        Ok(buffer) => ResultView::Success(buffer@),
        Err(error) => ResultView::Failure(error.inner@, error.buffer@),
    }
}

/// The view of what an awaiter may get.
pub open spec fn taken_view(taken: Option<OperationResult>) -> Option<ResultView> {
    match taken {
        Some(result) => Some(operation_result_view(result)),
        None => None,
    }
}

/// The completion engine of one async worker: the completion port, the buffer pool and
/// the table of operations. The index of an operation in the table is the identity of
/// its control block, and stays the same from reservation to release.
#[derive(Debug)]
pub struct CompletionEngine {
    port: CompletionPort,
    pool: BufferPool,
    slots: Vec<Option<Operation>>,
}

/// The packets that a dequeue brought, if it did not fail: those it returned, and none
/// after a wait whose time was up.
pub open spec fn dequeued_packets(dequeued: Result<Vec<CompletionPacket>, Error>) -> Option<
    Seq<CompletionPacket>,
> {
    match dequeued {
        Ok(packets) => Some(packets@),
        Err(error) => if error@.is_wait_timeout() {
            Some(Seq::<CompletionPacket>::empty())
        } else {
            None
        },
    }
}

/// The view of one slot of the table.
pub open spec fn slot_view(slot: Option<Operation>) -> Option<OperationView> {
    match slot {
        Some(operation) => Some(operation@),
        None => None,
    }
}

impl View for CompletionEngine {
    type V = EngineView;

    closed spec fn view(&self) -> EngineView {
        EngineView {
            port: self.port@,
            pool: self.pool@,
            slots: Seq::new(self.slots@.len(), |i: int| slot_view(self.slots@[i])),
        }
    }
}

impl CompletionEngine {
    /// What every engine satisfies: its pool is well formed.
    pub closed spec fn well_formed(&self) -> bool {
        self.pool.well_formed()
    }

    /// An engine for `worker` on the port `port`, with an empty pool and an empty table.
    pub fn new(worker: usize, port: CompletionPort) -> (engine: CompletionEngine)
        ensures
            engine.well_formed(),
            engine@ == (EngineView {
                port: port@,
                pool: BufferPoolView {
                    worker,
                    free: Seq::<PinnedBufferView>::empty(),
                    allocated: 0,
                },
                slots: Seq::<Option<OperationView>>::empty(),
            }),
    {
        let engine = CompletionEngine { port, pool: BufferPool::new(worker), slots: Vec::new() };
        assert(engine@.slots =~= Seq::<Option<OperationView>>::empty());
        engine
    }

    /// The raw value of the engine's completion port.
    pub fn port_handle(&self) -> (handle: usize)
        ensures
            handle == self@.port,
    {
        self.port.handle()
    }

    /// Number of slots in the table, vacant ones included.
    pub fn table_len(&self) -> (len: usize)
        ensures
            len == self@.slots.len(),
    {
        self.slots.len()
    }

    /// The phase of the operation with control block `block`, if the table holds one.
    pub fn phase(&self, block: usize) -> (phase: Option<Phase>)
        ensures
            phase_option_view(phase) == self@.phase(block),
    {
        if block >= self.slots.len() {
            return None;
        }
        match &self.slots[block] {
            Some(operation) => Some(
                match &operation.phase {
                    Phase::Reserved => Phase::Reserved,
                    Phase::Pending => Phase::Pending,
                    Phase::Succeeded => Phase::Succeeded,
                    Phase::Failed(error) => Phase::Failed(error.duplicate()),
                    Phase::Abandoned => Phase::Abandoned,
                },
            ),
            None => None,
        }
    }

    /// Whether the platform may still use the control block `block` and its buffer.
    pub fn held_by_platform(&self, block: usize) -> (held: bool)
        ensures
            held == self@.held_by_platform(block),
    {
        if block >= self.slots.len() {
            return false;
        }
        match &self.slots[block] {
            Some(operation) => match &operation.phase {
                Phase::Pending => true,
                Phase::Abandoned => true,
                _ => false,
            },
            None => false,
        }
    }

    /// Hands out a buffer of the engine's pool; see [`PinnedBuffer::from_pool`].
    pub fn acquire_buffer(&mut self) -> (buffer: PinnedBuffer)
        requires
            old(self).well_formed(),
        ensures
            final(self).well_formed(),
            buffer@ == old(self)@.pool.next_buffer(),
            buffer@.len == BUFFER_CAPACITY,
            buffer@.capacity() == BUFFER_CAPACITY,
            final(self)@ == (EngineView { pool: old(self)@.pool.after_supply(), ..old(self)@ }),
    {
        let buffer = PinnedBuffer::from_pool(&mut self.pool);
        assert(self@.slots =~= old(self)@.slots);
        buffer
    }

    /// Takes a buffer back into the engine's pool; see [`BufferPool::release`].
    pub fn release_buffer(&mut self, buffer: PinnedBuffer) -> (recycled: bool)
        requires
            old(self).well_formed(),
        ensures
            final(self).well_formed(),
            recycled == old(self)@.pool.recycles(buffer@),
            final(self)@ == (EngineView {
                pool: old(self)@.pool.after_release(buffer@),
                ..old(self)@
            }),
    {
        let recycled = self.pool.release(buffer);
        assert(self@.slots =~= old(self)@.slots);
        recycled
    }

    /// Reserves a control block for a new operation and gives it `buffer`. The block is
    /// the first vacant slot of the table; the table grows only when none is vacant.
    pub fn new_operation(&mut self, buffer: PinnedBuffer) -> (block: usize)
        requires
            old(self).well_formed(),
        ensures
            final(self).well_formed(),
            block == old(self)@.next_block(),
            old(self)@.entry(block) is None,
            final(self)@ == old(self)@.after_new_operation(buffer@),
            final(self)@.entry(block) == Some(
                OperationView { buffer: buffer@, phase: PhaseView::Reserved },
            ),
    {
        let mut block: usize = 0;
        while block < self.slots.len() && self.slots[block].is_some()
            invariant
                block <= self.slots@.len(),
                *self == *old(self),
                first_vacant_from(self@.slots, 0) == first_vacant_from(self@.slots, block as int),
            decreases self.slots@.len() - block,
        {
            block += 1;
        }
        let operation = Operation { buffer, phase: Phase::Reserved };
        if block < self.slots.len() {
            self.slots[block] = Some(operation);
            assert(self@.slots =~= old(self)@.slots.update(block as int, Some(operation@)));
        } else {
            self.slots.push(Some(operation));
            assert(self@.slots =~= old(self)@.slots.push(Some(operation@)));
        }
        block
    }

    /// Records what the initiator of the reserved operation `block` reported.
    ///
    /// After success, and after the platform's "queued" status, the operation is pending
    /// and resolves when its completion packet arrives. Any other error resolves it at
    /// once. An operation that is not reserved is left alone.
    pub fn start(&mut self, block: usize, initiated: Result<(), Error>)
        requires
            old(self).well_formed(),
        ensures
            final(self).well_formed(),
            final(self)@ == old(self)@.after_start(block, result_view(initiated)),
    {
        if block >= self.slots.len() {
            return ;
        }
        match self.slots[block].take() {
            Some(operation) => {
                let Operation { buffer, phase } = operation;
                let next = match phase {
                    Phase::Reserved => match initiated {
                        Ok(_) => Phase::Pending,
                        Err(error) => if error.is_io_pending() {
                            Phase::Pending
                        } else {
                            Phase::Failed(error)
                        },
                    },
                    other => other,
                };
                let restored = Operation { buffer, phase: next };
                self.slots[block] = Some(restored);
                assert(self@.slots =~= old(self)@.after_start(block, result_view(initiated)).slots);
            },
            None => {
                assert(self@.slots =~= old(self)@.slots);
            },
        }
    }

    /// Routes one completion packet to its operation, found by the control block.
    pub fn route(&mut self, packet: CompletionPacket) -> (routing: Routing)
        requires
            old(self).well_formed(),
        ensures
            final(self).well_formed(),
            routing == old(self)@.routing(packet),
            final(self)@ == old(self)@.after_route(packet),
    {
        if packet.block >= self.slots.len() {
            return Routing::Unmatched;
        }
        match self.slots[packet.block].take() {
            Some(operation) => {
                let Operation { buffer, phase } = operation;
                match phase {
                    Phase::Pending => {
                        let mut buffer = buffer;
                        let resolved = if packet.status == STATUS_SUCCESS {
                            let len: usize = if packet.bytes_transferred as usize
                                <= BUFFER_CAPACITY {
                                packet.bytes_transferred as usize
                            } else {
                                BUFFER_CAPACITY
                            };
                            buffer.set_len(len);
                            Operation { buffer, phase: Phase::Succeeded }
                        } else {
                            Operation {
                                buffer,
                                phase: Phase::Failed(Error::Windows { code: packet.status }),
                            }
                        };
                        self.slots[packet.block] = Some(resolved);
                        assert(self@.slots =~= old(self)@.after_route(packet).slots);
                        Routing::Resolved
                    },
                    Phase::Abandoned => {
                        self.pool.release(buffer);
                        assert(self@.slots =~= old(self)@.after_route(packet).slots);
                        Routing::Reclaimed
                    },
                    other => {
                        self.slots[packet.block] = Some(Operation { buffer, phase: other });
                        assert(self@.slots =~= old(self)@.slots);
                        Routing::Unmatched
                    },
                }
            },
            None => {
                assert(self@.slots =~= old(self)@.slots);
                Routing::Unmatched
            },
        }
    }

    /// Gives the awaiter of `block` the result of its operation, once there is one.
    ///
    /// A resolved operation leaves the table and its buffer goes to the caller: alone
    /// after success, beside the error after failure. For an operation that is not
    /// resolved, and for a block that the table does not hold, the answer is `None` and
    /// nothing changes.
    pub fn take_result(&mut self, block: usize) -> (taken: Option<OperationResult>)
        requires
            old(self).well_formed(),
        ensures
            final(self).well_formed(),
            taken_view(taken) == old(self)@.result(block),
            final(self)@ == old(self)@.after_take(block),
    {
        if block >= self.slots.len() {
            return None;
        }
        match self.slots[block].take() {
            Some(operation) => {
                let Operation { buffer, phase } = operation;
                match phase {
                    Phase::Succeeded => {
                        assert(self@.slots =~= old(self)@.after_take(block).slots);
                        Some(Ok(buffer))
                    },
                    Phase::Failed(error) => {
                        assert(self@.slots =~= old(self)@.after_take(block).slots);
                        Some(Err(OperationError::new(error, buffer)))
                    },
                    other => {
                        self.slots[block] = Some(Operation { buffer, phase: other });
                        assert(self@.slots =~= old(self)@.slots);
                        None
                    },
                }
            },
            None => {
                assert(self@.slots =~= old(self)@.slots);
                None
            },
        }
    }

    /// Records that the awaiter of `block` gave up on its operation.
    ///
    /// While the platform holds the operation, control block and buffer stay where they
    /// are and the operation is marked abandoned: the arrival of its packet releases
    /// them. An operation that the platform does not hold is released at once.
    pub fn abandon(&mut self, block: usize)
        requires
            old(self).well_formed(),
        ensures
            final(self).well_formed(),
            final(self)@ == old(self)@.after_abandon(block),
    {
        if block >= self.slots.len() {
            return ;
        }
        match self.slots[block].take() {
            Some(operation) => {
                let Operation { buffer, phase } = operation;
                match phase {
                    Phase::Pending => {
                        self.slots[block] = Some(Operation { buffer, phase: Phase::Abandoned });
                        assert(self@.slots =~= old(self)@.after_abandon(block).slots);
                    },
                    Phase::Abandoned => {
                        self.slots[block] = Some(Operation { buffer, phase: Phase::Abandoned });
                        assert(self@.slots =~= old(self)@.slots);
                    },
                    _ => {
                        self.pool.release(buffer);
                        assert(self@.slots =~= old(self)@.after_abandon(block).slots);
                    },
                }
            },
            None => {
                assert(self@.slots =~= old(self)@.slots);
            },
        }
    }

    /// Binds an I/O primitive to the engine's completion port; see
    /// [`CompletionPort::bind`].
    pub fn bind_io_primitive(&self, handle: &mut OwnedHandle, outcome: BindOutcome) -> (result:
        Result<(), Error>)
        ensures
            final(handle)@ == old(handle)@.after_bind(self@.port, outcome@),
            result_view(result) == bind_result(old(handle)@, outcome@),
    {
        self.port.bind(handle, outcome)
    }

    /// Starts the reserved operation `block`: calls `initiator` with the writable
    /// storage of the operation's buffer, the control block, and the place for the
    /// number of bytes transferred at once, and records what it reports as
    /// [`CompletionEngine::start`] does.
    ///
    /// The initiator is not called for an operation that is not reserved, and nothing
    /// changes then. Whatever the initiator reports, the buffer stays in the table at
    /// its address; an operation that completed at once is still resolved by its
    /// completion packet only.
    pub fn begin<F>(&mut self, block: usize, initiator: F) where
        F: FnOnce(&mut [u8; 4096], usize, &mut u32) -> Result<(), Error>,

        requires
            old(self).well_formed(),
            old(self)@.phase(block) == Some(PhaseView::Reserved) ==> forall|
                region: &mut [u8; 4096],
                immediate: &mut u32,
            |
                region@ == old(self)@.entry(block)->0.buffer.storage && *immediate == 0
                    ==> call_requires(initiator, (region, block, immediate)),
        ensures
            final(self).well_formed(),
            old(self)@.phase(block) != Some(PhaseView::Reserved) ==> final(self)@ == old(self)@,
            old(self)@.phase(block) == Some(PhaseView::Reserved) ==> exists|
                region: &mut [u8; 4096],
                immediate: &mut u32,
                reported: Result<(), Error>,
            |
                {
                    &&& region@ == old(self)@.entry(block)->0.buffer.storage
                    &&& *immediate == 0
                    &&& #[trigger] call_ensures(initiator, (region, block, immediate), reported)
                    &&& old(self)@.after_write(block, final(region)@).after_start(
                        block,
                        result_view(reported),
                    ) == final(self)@
                },
    {
        if block >= self.slots.len() {
            return ;
        }
        match self.slots[block].take() {
            Some(operation) => {
                let Operation { buffer, phase } = operation;
                match phase {
                    Phase::Reserved => {
                        let mut buffer = buffer;
                        let mut immediate: u32 = 0;
                        let initiated = initiator(buffer.as_mut_storage(), block, &mut immediate);
                        let ghost storage = buffer@.storage;
                        let ghost reported = result_view(initiated);
                        self.slots[block] = Some(Operation { buffer, phase: Phase::Reserved });
                        assert(self@.slots =~= old(self)@.after_write(block, storage).slots);
                        self.start(block, initiated);
                        assert(old(self)@.after_write(block, storage).after_start(block, reported)
                            == self@);
                    },
                    other => {
                        self.slots[block] = Some(Operation { buffer, phase: other });
                        assert(self@.slots =~= old(self)@.slots);
                    },
                }
            },
            None => {
                assert(self@.slots =~= old(self)@.slots);
            },
        }
    }

    /// Routes a batch of completion packets, in their order, and returns the control
    /// blocks of the operations they resolved: the awaiters to wake.
    pub fn route_all(&mut self, packets: &Vec<CompletionPacket>) -> (resolved: Vec<usize>)
        requires
            old(self).well_formed(),
        ensures
            final(self).well_formed(),
            final(self)@ == old(self)@.after_route_all(packets@),
            resolved@ == old(self)@.resolved_by(packets@),
    {
        let mut resolved: Vec<usize> = Vec::new();
        let mut i: usize = 0;
        while i < packets.len()
            invariant
                i <= packets@.len(),
                self.well_formed(),
                self@ == old(self)@.after_route_all(packets@.take(i as int)),
                resolved@ == old(self)@.resolved_by(packets@.take(i as int)),
            decreases packets@.len() - i,
        {
            let packet = packets[i];
            assert(packets@.take(i + 1).drop_last() =~= packets@.take(i as int));
            assert(packets@.take(i + 1).last() == packet);
            match self.route(packet) {
                Routing::Resolved => {
                    resolved.push(packet.block);
                },
                _ => {},
            }
            i += 1;
        }
        assert(packets@.take(i as int) =~= packets@);
        resolved
    }

    /// Asks `dequeue` for up to `max_batch` completion packets, waiting at most
    /// `timeout` milliseconds, and routes what it returns.
    ///
    /// A wait that ends because its time was up is no failure: nothing is resolved and
    /// nothing changes. Any other error of the dequeue is a failure of the port itself;
    /// it is handed to the caller and changes nothing.
    pub fn poll_completions<F>(&mut self, dequeue: F, max_batch: usize, timeout: u32) -> (polled:
        Result<Vec<usize>, Error>) where
        F: FnOnce(usize, usize, u32) -> Result<Vec<CompletionPacket>, Error>,

        requires
            old(self).well_formed(),
            call_requires(dequeue, (old(self)@.port, max_batch, timeout)),
        ensures
            final(self).well_formed(),
            exists|dequeued: Result<Vec<CompletionPacket>, Error>|
                {
                    &&& #[trigger] call_ensures(
                        dequeue,
                        (old(self)@.port, max_batch, timeout),
                        dequeued,
                    )
                    &&& match dequeued_packets(dequeued) {
                        Some(packets) => {
                            &&& polled is Ok
                            &&& polled->Ok_0@ == old(self)@.resolved_by(packets)
                            &&& final(self)@ == old(self)@.after_route_all(packets)
                        },
                        None => {
                            &&& polled is Err
                            &&& dequeued is Err
                            &&& polled->Err_0 == dequeued->Err_0
                            &&& final(self)@ == old(self)@
                        },
                    }
                },
    {
        let dequeued = dequeue(self.port.handle(), max_batch, timeout);
        let ghost outcome = dequeued;
        let polled = match dequeued {
            Ok(packets) => Ok(self.route_all(&packets)),
            Err(error) => if error.is_wait_timeout() {
                Ok(Vec::new())
            } else {
                Err(error)
            },
        };
        assert(call_ensures(dequeue, (old(self)@.port, max_batch, timeout), outcome));
        polled
    }

}

/// The view of a phase that may be missing.
pub open spec fn phase_option_view(phase: Option<Phase>) -> Option<PhaseView> {
    match phase {
        Some(phase) => Some(phase@),
        None => None,
    }
}

} // verus!
