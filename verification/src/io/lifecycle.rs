//! What holds of every operation of a completion engine, whatever is done to the engine
//! while the operation is in its table.

use crate::io::engine::first_vacant_from;
use crate::io::engine::CompletionPacket;
use crate::io::engine::EngineView;
use crate::io::engine::OperationView;
use crate::io::engine::PhaseView;
use crate::io::engine::ResultView;
use crate::io::engine::Routing;
use crate::io::engine::phase_after_start;
use crate::io::engine::transferred_len;
use crate::io::engine::STATUS_SUCCESS;
use crate::io::error::ErrorView;
use crate::io::pinned_buffer::BufferPoolView;
use crate::io::pinned_buffer::PinnedBufferView;
use vstd::prelude::*;

verus! {

/// Everything that can happen to a completion engine.
pub enum EngineEvent {
    /// A buffer is given to a new operation.
    NewOperation(PinnedBufferView),
    /// The initiator of a reserved operation wrote into the storage it was lent.
    Write(usize, Seq<u8>),
    /// The initiator of a reserved operation reported how the start went.
    Start(usize, Result<(), ErrorView>),
    /// A completion packet is routed.
    Route(CompletionPacket),
    /// The awaiter of an operation asks for the result.
    TakeResult(usize),
    /// The awaiter of an operation gives up.
    Abandon(usize),
    /// The pool hands out a buffer.
    AcquireBuffer,
    /// A buffer comes back to the pool.
    ReleaseBuffer(PinnedBufferView),
}

impl EngineEvent {
    /// Whether the event is the arrival of the completion packet of `block`.
    pub open spec fn completes(self, block: usize) -> bool {
        match self {
            EngineEvent::Route(packet) => packet.block == block,
            _ => false,
        }
    }
}

impl EngineView {
    /// The engine after `event`.
    pub open spec fn step(self, event: EngineEvent) -> EngineView {
        match event {
            EngineEvent::NewOperation(buffer) => self.after_new_operation(buffer),
            EngineEvent::Write(block, storage) => self.after_write(block, storage),
            EngineEvent::Start(block, initiated) => self.after_start(block, initiated),
            EngineEvent::Route(packet) => self.after_route(packet),
            EngineEvent::TakeResult(block) => self.after_take(block),
            EngineEvent::Abandon(block) => self.after_abandon(block),
            EngineEvent::AcquireBuffer => EngineView { pool: self.pool.after_supply(), ..self },
            EngineEvent::ReleaseBuffer(buffer) => EngineView {
                pool: self.pool.after_release(buffer),
                ..self
            },
        }
    }

    /// The engine after the events, one after the other.
    pub open spec fn run(self, events: Seq<EngineEvent>) -> EngineView
        decreases events.len(),
    {
        if events.len() == 0 {
            self
        } else {
            self.run(events.drop_last()).step(events.last())
        }
    }
}

/// The slot that a new operation gets is inside the table and vacant, or it is the slot
/// just behind the table; every slot before it, from `start` on, is taken.
pub proof fn lemma_first_vacant(slots: Seq<Option<OperationView>>, start: int)
    requires
        0 <= start <= slots.len(),
    ensures
        start <= first_vacant_from(slots, start) <= slots.len(),
        first_vacant_from(slots, start) < slots.len() ==> slots[first_vacant_from(slots, start)]
            is None,
        forall|i: int| start <= i < first_vacant_from(slots, start) ==> (#[trigger] slots[i])
            is Some,
    decreases slots.len() - start,
{
    if start < slots.len() && slots[start] is Some {
        lemma_first_vacant(slots, start + 1);
    }
}

/// A new operation never takes the control block of an operation that is in the table.
pub proof fn lemma_new_operation_takes_vacant_block(engine: EngineView, block: usize)
    requires
        engine.entry(block) is Some,
    ensures
        engine.next_block() != block,
{
    lemma_first_vacant(engine.slots, 0);
}

/// While the platform holds an operation, no event but the arrival of its own
/// completion packet releases it or touches its buffer: after the event the operation
/// is still held under its control block, and its buffer is the very buffer it had,
/// bytes and used length included.
pub proof fn lemma_stable_while_held(engine: EngineView, event: EngineEvent, block: usize)
    requires
        engine.held_by_platform(block),
        !event.completes(block),
    ensures
        engine.step(event).held_by_platform(block),
        engine.step(event).entry(block)->0.buffer == engine.entry(block)->0.buffer,
{
    lemma_new_operation_takes_vacant_block(engine, block);
}

/// Starting an operation leaves its buffer where and as it is: the operation that the
/// platform then holds has the control block and the buffer that were reserved.
pub proof fn lemma_stable_at_start(
    engine: EngineView,
    block: usize,
    initiated: Result<(), ErrorView>,
)
    requires
        engine.phase(block) == Some(PhaseView::Reserved),
    ensures
        engine.after_start(block, initiated).entry(block) == Some(
            OperationView {
                buffer: engine.entry(block)->0.buffer,
                phase: phase_after_start(initiated),
            },
        ),
{
}

/// The completion packet of a pending operation finds it under the control block it
/// was started with, and resolves it in place: the buffer has the same storage at the
/// same address, with the transferred bytes as used length after success, and unchanged
/// beside the platform's status after failure.
pub proof fn lemma_stable_at_completion(engine: EngineView, packet: CompletionPacket)
    requires
        engine.phase(packet.block) == Some(PhaseView::Pending),
    ensures
        engine.routing(packet) == Routing::Resolved,
        engine.after_route(packet).entry(packet.block) is Some,
        engine.after_route(packet).entry(packet.block)->0.buffer.same_storage(
            engine.entry(packet.block)->0.buffer,
        ),
        engine.after_route(packet).result(packet.block) == Some(
            if packet.status == STATUS_SUCCESS {
                ResultView::Success(
                    engine.entry(packet.block)->0.buffer.with_len(
                        transferred_len(packet.bytes_transferred),
                    ),
                )
            } else {
                ResultView::Failure(
                    ErrorView::Windows { code: packet.status },
                    engine.entry(packet.block)->0.buffer,
                )
            },
        ),
{
}

/// However the start, the abandonment and the completion of operations interleave,
/// neither the control block nor the buffer of an operation is released before its
/// completion packet is observed: after any events without that packet, an operation
/// that the platform held is still in the table, still held, with the buffer it had.
pub proof fn lemma_held_until_packet(engine: EngineView, events: Seq<EngineEvent>, block: usize)
    requires
        engine.held_by_platform(block),
        forall|i: int| 0 <= i < events.len() ==> !(#[trigger] events[i]).completes(block),
    ensures
        engine.run(events).held_by_platform(block),
        engine.run(events).entry(block)->0.buffer == engine.entry(block)->0.buffer,
    decreases events.len(),
{
    if events.len() > 0 {
        lemma_held_until_packet(engine, events.drop_last(), block);
        lemma_stable_while_held(engine.run(events.drop_last()), events.last(), block);
    }
}

/// From its start to the routing of its completion, an operation stays under one
/// control block with one buffer. Whatever happens to the engine between the start of
/// an operation and the arrival of its packet, the packet is matched to the operation
/// under the control block it was started with, and the buffer found there is the
/// buffer that was lent at the start, at the same address.
pub proof fn lemma_stable_address(
    engine: EngineView,
    block: usize,
    initiated: Result<(), ErrorView>,
    events: Seq<EngineEvent>,
    packet: CompletionPacket,
)
    requires
        engine.phase(block) == Some(PhaseView::Reserved),
        phase_after_start(initiated) is Pending,
        forall|i: int| 0 <= i < events.len() ==> !(#[trigger] events[i]).completes(block),
        packet.block == block,
    ensures
        ({
            let arrived = engine.after_start(block, initiated).run(events);
            &&& arrived.held_by_platform(block)
            &&& arrived.entry(block)->0.buffer == engine.entry(block)->0.buffer
            &&& arrived.routing(packet) != Routing::Unmatched
            &&& arrived.routing(packet) == Routing::Resolved ==> arrived.after_route(packet).entry(
                block,
            )->0.buffer.same_storage(engine.entry(block)->0.buffer)
        }),
{
    lemma_held_until_packet(engine.after_start(block, initiated), events, block);
}

/// The buffer of a resolved operation goes to the awaiter exactly once: the result
/// carries the buffer of the operation, taking it vacates the slot and leaves the pool
/// alone, and a second request finds nothing.
pub proof fn lemma_result_taken_once(engine: EngineView, block: usize)
    requires
        engine.result(block) is Some,
    ensures
        match engine.result(block)->0 {
            ResultView::Success(buffer) => buffer == engine.entry(block)->0.buffer,
            ResultView::Failure(_, buffer) => buffer == engine.entry(block)->0.buffer,
        },
        engine.after_take(block).entry(block) is None,
        engine.after_take(block).pool == engine.pool,
        engine.after_take(block).result(block) is None,
        engine.after_take(block).after_take(block) == engine.after_take(block),
{
}

/// The buffer of an abandoned operation goes to the pool exactly once: the completion
/// packet releases slot and buffer, and a second packet for the same control block
/// finds nothing and changes nothing.
pub proof fn lemma_abandoned_reclaimed_once(engine: EngineView, packet: CompletionPacket)
    requires
        engine.phase(packet.block) == Some(PhaseView::Abandoned),
    ensures
        engine.routing(packet) == Routing::Reclaimed,
        engine.after_route(packet).entry(packet.block) is None,
        engine.after_route(packet).pool == engine.pool.after_release(
            engine.entry(packet.block)->0.buffer,
        ),
        engine.after_route(packet).routing(packet) == Routing::Unmatched,
        engine.after_route(packet).after_route(packet) == engine.after_route(packet),
{
}

/// The whole life of an operation that is awaited to its end. A buffer given to a new
/// operation, started, completed by its packet and taken by the awaiter comes back to
/// the caller as the same buffer, and the engine is left with the slot vacant and the
/// pool untouched.
pub proof fn lemma_awaited_operation_returns_buffer(
    engine: EngineView,
    buffer: PinnedBufferView,
    initiated: Result<(), ErrorView>,
    packet: CompletionPacket,
)
    requires
        engine.next_block() == packet.block,
        phase_after_start(initiated) is Pending,
    ensures
        ({
            let resolved = engine.after_new_operation(buffer).after_start(
                packet.block,
                initiated,
            ).after_route(packet);
            &&& resolved.result(packet.block) == Some(
                if packet.status == STATUS_SUCCESS {
                    ResultView::Success(buffer.with_len(transferred_len(packet.bytes_transferred)))
                } else {
                    ResultView::Failure(ErrorView::Windows { code: packet.status }, buffer)
                },
            )
            &&& resolved.after_take(packet.block).entry(packet.block) is None
            &&& resolved.after_take(packet.block).pool == engine.pool
        }),
{
    lemma_first_vacant(engine.slots, 0);
}

/// The whole life of an operation whose awaiter gives up. A buffer given to a new
/// operation that is started and then abandoned stays in the table until the packet
/// arrives; the packet vacates the slot and hands the buffer to the pool.
pub proof fn lemma_abandoned_operation_returns_buffer(
    engine: EngineView,
    buffer: PinnedBufferView,
    initiated: Result<(), ErrorView>,
    packet: CompletionPacket,
)
    requires
        engine.next_block() == packet.block,
        phase_after_start(initiated) is Pending,
    ensures
        ({
            let abandoned = engine.after_new_operation(buffer).after_start(
                packet.block,
                initiated,
            ).after_abandon(packet.block);
            &&& abandoned.entry(packet.block) == Some(
                OperationView { buffer, phase: PhaseView::Abandoned },
            )
            &&& abandoned.pool == engine.pool
            &&& abandoned.after_route(packet).entry(packet.block) is None
            &&& abandoned.after_route(packet).pool == engine.pool.after_release(buffer)
        }),
{
    lemma_first_vacant(engine.slots, 0);
}

/// An operation is resolved by its own completion packet and by nothing else: packets
/// for other control blocks leave it exactly as it is and do not put it among the
/// operations to wake. In particular a poll that dequeues nothing wakes nobody.
pub proof fn lemma_no_spurious_wakeup(
    engine: EngineView,
    packets: Seq<CompletionPacket>,
    block: usize,
)
    requires
        forall|i: int| 0 <= i < packets.len() ==> (#[trigger] packets[i]).block != block,
    ensures
        engine.after_route_all(packets).entry(block) == engine.entry(block),
        !engine.resolved_by(packets).contains(block),
    decreases packets.len(),
{
    if packets.len() > 0 {
        lemma_no_spurious_wakeup(engine, packets.drop_last(), block);
        let earlier = engine.resolved_by(packets.drop_last());
        assert forall|i: int| 0 <= i < earlier.push(packets.last().block).len() implies
            earlier.push(packets.last().block)[i] != block by {
            if i < earlier.len() {
                assert(earlier.contains(earlier[i]));
            }
        }
    }
}

/// A packet touches the operation of its own control block and no other.
pub proof fn lemma_route_leaves_others(engine: EngineView, packet: CompletionPacket, block: usize)
    requires
        packet.block != block,
    ensures
        engine.after_route(packet).entry(block) == engine.entry(block),
{
}

/// When the platform fails every operation of a set at once, as it does with the
/// accepts in flight on a socket that is closed, every one of them resolves with its
/// error and keeps its buffer: for pending operations with distinct control blocks and
/// one failing packet each, routing the packets resolves all of them, in the order of
/// the packets, each with the status of its own packet beside the buffer it was lent.
pub proof fn lemma_failed_packets_fail_all(engine: EngineView, packets: Seq<CompletionPacket>)
    requires
        forall|i: int|
            0 <= i < packets.len() ==> engine.phase((#[trigger] packets[i]).block) == Some(
                PhaseView::Pending,
            ) && packets[i].status != STATUS_SUCCESS,
        forall|i: int, j: int|
            0 <= i < j < packets.len() ==> (#[trigger] packets[i]).block != (
            #[trigger] packets[j]).block,
    ensures
        forall|i: int|
            0 <= i < packets.len() ==> engine.after_route_all(packets).result(
                (#[trigger] packets[i]).block,
            ) == Some(
                ResultView::Failure(
                    ErrorView::Windows { code: packets[i].status },
                    engine.entry(packets[i].block)->0.buffer,
                ),
            ),
        engine.resolved_by(packets) == Seq::new(packets.len(), |i: int| packets[i].block),
        engine.after_route_all(packets).pool == engine.pool,
    decreases packets.len(),
{
    if packets.len() > 0 {
        let earlier = packets.drop_last();
        let last = packets.last();
        lemma_failed_packets_fail_all(engine, earlier);
        assert forall|i: int| 0 <= i < earlier.len() implies (#[trigger] earlier[i]).block
            != last.block by {
            assert(earlier[i] == packets[i]);
        }
        lemma_no_spurious_wakeup(engine, earlier, last.block);
        let before = engine.after_route_all(earlier);
        assert(before.phase(last.block) == Some(PhaseView::Pending));
        assert forall|i: int| 0 <= i < packets.len() implies engine.after_route_all(
            packets,
        ).result((#[trigger] packets[i]).block) == Some(
            ResultView::Failure(
                ErrorView::Windows { code: packets[i].status },
                engine.entry(packets[i].block)->0.buffer,
            ),
        ) by {
            if i < earlier.len() {
                assert(earlier[i] == packets[i]);
                lemma_route_leaves_others(before, last, packets[i].block);
            }
        }
        assert(engine.resolved_by(packets) =~= Seq::new(
            packets.len(),
            |i: int| packets[i].block,
        ));
    } else {
        assert(engine.resolved_by(packets) =~= Seq::new(
            packets.len(),
            |i: int| packets[i].block,
        ));
    }
}

/// The buffers of the operations that the packets belong to, in the order of the
/// packets.
pub open spec fn buffers_of(engine: EngineView, packets: Seq<CompletionPacket>) -> Seq<
    PinnedBufferView,
> {
    Seq::new(packets.len(), |i: int| engine.entry(packets[i].block)->0.buffer)
}

/// The pool after the buffers came back to it, one after the other.
pub open spec fn after_releases(pool: BufferPoolView, buffers: Seq<PinnedBufferView>) -> BufferPoolView
    decreases buffers.len(),
{
    if buffers.len() == 0 {
        pool
    } else {
        after_releases(pool, buffers.drop_last()).after_release(buffers.last())
    }
}

/// When the awaiters of a set of operations are gone, as they are after a dispatcher
/// has shut down and dropped every acceptance in flight, the packets that arrive
/// afterwards bring every buffer back: for abandoned operations with distinct control
/// blocks and one packet each, routing the packets vacates every slot, wakes nobody,
/// and leaves the pool as it is after the release of each of the lent buffers, in the
/// order of the packets.
pub proof fn lemma_abandoned_packets_reclaim_all(
    engine: EngineView,
    packets: Seq<CompletionPacket>,
)
    requires
        forall|i: int|
            0 <= i < packets.len() ==> engine.phase((#[trigger] packets[i]).block) == Some(
                PhaseView::Abandoned,
            ),
        forall|i: int, j: int|
            0 <= i < j < packets.len() ==> (#[trigger] packets[i]).block != (
            #[trigger] packets[j]).block,
    ensures
        forall|i: int|
            0 <= i < packets.len() ==> engine.after_route_all(packets).entry(
                (#[trigger] packets[i]).block,
            ) is None,
        engine.resolved_by(packets) == Seq::<usize>::empty(),
        engine.after_route_all(packets).pool == after_releases(
            engine.pool,
            buffers_of(engine, packets),
        ),
    decreases packets.len(),
{
    if packets.len() > 0 {
        let earlier = packets.drop_last();
        let last = packets.last();
        lemma_abandoned_packets_reclaim_all(engine, earlier);
        assert forall|i: int| 0 <= i < earlier.len() implies (#[trigger] earlier[i]).block
            != last.block by {
            assert(earlier[i] == packets[i]);
        }
        lemma_no_spurious_wakeup(engine, earlier, last.block);
        let before = engine.after_route_all(earlier);
        assert(before.phase(last.block) == Some(PhaseView::Abandoned));
        assert forall|i: int| 0 <= i < packets.len() implies engine.after_route_all(
            packets,
        ).entry((#[trigger] packets[i]).block) is None by {
            if i < earlier.len() {
                assert(earlier[i] == packets[i]);
                lemma_route_leaves_others(before, last, packets[i].block);
            }
        }
        assert(buffers_of(engine, packets).drop_last() =~= buffers_of(engine, earlier));
        assert(buffers_of(engine, packets).last() == engine.entry(last.block)->0.buffer);
    }
}

} // verus!
