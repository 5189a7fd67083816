//! The account of the buffers of a completion engine: which buffers it holds, and that
//! none appears or disappears except by the ways in and out.

use crate::io::engine::EngineView;
use crate::io::engine::OperationView;
use crate::io::engine::PhaseView;
use crate::io::lifecycle::lemma_first_vacant;
use crate::io::lifecycle::EngineEvent;
use crate::io::pinned_buffer::PinnedBufferView;
use vstd::multiset::Multiset;
use vstd::prelude::*;

verus! {

broadcast use vstd::multiset::group_multiset_axioms;

/// What a buffer is known by: the pool that allocated it and the address it got
/// there.
pub open spec fn identity(buffer: PinnedBufferView) -> (usize, u64) {
    (buffer.origin, buffer.address)
}

/// The buffer that a slot of the table holds, if it holds one.
pub open spec fn slot_buffers(slot: Option<OperationView>) -> Multiset<(usize, u64)> {
    match slot {
        Some(operation) => Multiset::singleton(identity(operation.buffer)),
        None => Multiset::empty(),
    }
}

/// The buffers that the operations of a table hold.
pub open spec fn table_buffers(slots: Seq<Option<OperationView>>) -> Multiset<(usize, u64)>
    decreases slots.len(),
{
    if slots.len() == 0 {
        Multiset::empty()
    } else {
        table_buffers(slots.drop_last()).add(slot_buffers(slots.last()))
    }
}

/// The buffers that wait on a free list.
pub open spec fn free_buffers(free: Seq<PinnedBufferView>) -> Multiset<(usize, u64)>
    decreases free.len(),
{
    if free.len() == 0 {
        Multiset::empty()
    } else {
        free_buffers(free.drop_last()).add(Multiset::singleton(identity(free.last())))
    }
}

impl EngineView {
    /// Every buffer that the engine holds, in its table or in its pool.
    pub open spec fn buffers(self) -> Multiset<(usize, u64)> {
        table_buffers(self.slots).add(free_buffers(self.pool.free))
    }

    /// The buffer that `event` brings into the engine: the one given to a new
    /// operation, the one that comes back to its own pool, and the one that the pool
    /// allocates when it is asked with an empty free list.
    pub open spec fn entering(self, event: EngineEvent) -> Multiset<(usize, u64)> {
        match event {
            EngineEvent::NewOperation(buffer) => Multiset::singleton(identity(buffer)),
            EngineEvent::ReleaseBuffer(buffer) => if self.pool.recycles(buffer) {
                Multiset::singleton(identity(buffer))
            } else {
                Multiset::empty()
            },
            EngineEvent::AcquireBuffer => if self.pool.free.len() == 0 {
                Multiset::singleton(identity(self.pool.fresh()))
            } else {
                Multiset::empty()
            },
            _ => Multiset::empty(),
        }
    }

    /// The buffer that `event` takes out of the engine: the one that goes to the
    /// awaiter with the result of its operation, the one that the pool hands out, and
    /// the buffer of another worker's pool that a released operation leaves behind,
    /// which is let go.
    pub open spec fn leaving(self, event: EngineEvent) -> Multiset<(usize, u64)> {
        match event {
            EngineEvent::TakeResult(block) => if self.result(block) is Some {
                slot_buffers(self.entry(block))
            } else {
                Multiset::empty()
            },
            EngineEvent::AcquireBuffer => Multiset::singleton(identity(self.pool.next_buffer())),
            EngineEvent::Route(packet) => match self.entry(packet.block) {
                Some(operation) => if operation.phase is Abandoned && !self.pool.recycles(
                    operation.buffer,
                ) {
                    Multiset::singleton(identity(operation.buffer))
                } else {
                    Multiset::empty()
                },
                None => Multiset::empty(),
            },
            EngineEvent::Abandon(block) => match self.entry(block) {
                Some(operation) => if !operation.phase.held_by_platform() && !self.pool.recycles(
                    operation.buffer,
                ) {
                    Multiset::singleton(identity(operation.buffer))
                } else {
                    Multiset::empty()
                },
                None => Multiset::empty(),
            },
            _ => Multiset::empty(),
        }
    }
}

impl EngineView {
    /// The buffers that came into the engine in the course of `events`.
    pub open spec fn entered(self, events: Seq<EngineEvent>) -> Multiset<(usize, u64)>
        decreases events.len(),
    {
        if events.len() == 0 {
            Multiset::empty()
        } else {
            self.entered(events.drop_last()).add(
                self.run(events.drop_last()).entering(events.last()),
            )
        }
    }

    /// The buffers that left the engine in the course of `events`.
    pub open spec fn left(self, events: Seq<EngineEvent>) -> Multiset<(usize, u64)>
        decreases events.len(),
    {
        if events.len() == 0 {
            Multiset::empty()
        } else {
            self.left(events.drop_last()).add(
                self.run(events.drop_last()).leaving(events.last()),
            )
        }
    }
}

/// Replacing one slot of a table exchanges the buffer of that slot and leaves the
/// others.
pub proof fn lemma_table_update(
    slots: Seq<Option<OperationView>>,
    block: int,
    slot: Option<OperationView>,
)
    requires
        0 <= block < slots.len(),
    ensures
        forall|v: (usize, u64)|
            #[trigger] table_buffers(slots.update(block, slot)).count(v) + slot_buffers(
                slots[block],
            ).count(v) == table_buffers(slots).count(v) + slot_buffers(slot).count(v),
    decreases slots.len(),
{
    let updated = slots.update(block, slot);
    let shorter = slots.drop_last();
    assert(table_buffers(updated) == table_buffers(updated.drop_last()).add(
        slot_buffers(updated.last()),
    ));
    assert(table_buffers(slots) == table_buffers(shorter).add(slot_buffers(slots.last())));
    if block == slots.len() - 1 {
        assert(updated.drop_last() =~= shorter);
    } else {
        assert(updated.drop_last() =~= shorter.update(block, slot));
        assert(shorter[block] == slots[block]);
        lemma_table_update(shorter, block, slot);
        assert forall|v: (usize, u64)|
            #[trigger] table_buffers(updated).count(v) + slot_buffers(slots[block]).count(v)
                == table_buffers(slots).count(v) + slot_buffers(slot).count(v) by {
            assert(table_buffers(shorter.update(block, slot)).count(v) + slot_buffers(
                shorter[block],
            ).count(v) == table_buffers(shorter).count(v) + slot_buffers(slot).count(v));
        }
    }
}

/// A slot added behind a table adds its buffer.
pub proof fn lemma_table_push(slots: Seq<Option<OperationView>>, slot: Option<OperationView>)
    ensures
        forall|v: (usize, u64)|
            #[trigger] table_buffers(slots.push(slot)).count(v) == table_buffers(slots).count(v)
                + slot_buffers(slot).count(v),
{
    assert(slots.push(slot).drop_last() =~= slots);
}

/// A buffer added to a free list is added to its buffers.
pub proof fn lemma_free_push(free: Seq<PinnedBufferView>, buffer: PinnedBufferView)
    ensures
        forall|v: (usize, u64)|
            #[trigger] free_buffers(free.push(buffer)).count(v) == free_buffers(free).count(v)
                + Multiset::singleton(identity(buffer)).count(v),
{
    assert(free.push(buffer).drop_last() =~= free);
}

/// No event loses a buffer and none makes one up. The buffers that an engine holds
/// after an event, together with the one that left by the event, are the buffers it
/// held before together with the one that came in.
pub proof fn lemma_buffers_are_conserved(engine: EngineView, event: EngineEvent)
    ensures
        engine.step(event).buffers().add(engine.leaving(event)) == engine.buffers().add(
            engine.entering(event),
        ),
{
    let after = engine.step(event);
    match event {
        EngineEvent::NewOperation(buffer) => {
            lemma_first_vacant(engine.slots, 0);
            let block = engine.next_block();
            let slot = Some(OperationView { buffer, phase: PhaseView::Reserved });
            if block == engine.slots.len() {
                lemma_table_push(engine.slots, slot);
            } else {
                lemma_table_update(engine.slots, block, slot);
            }
        },
        EngineEvent::Write(block, _) => {
            if after != engine {
                lemma_table_update(engine.slots, block as int, after.slots[block as int]);
            }
        },
        EngineEvent::Start(block, _) => {
            if after != engine {
                lemma_table_update(engine.slots, block as int, after.slots[block as int]);
            }
        },
        EngineEvent::Route(packet) => {
            if after != engine {
                lemma_table_update(
                    engine.slots,
                    packet.block as int,
                    after.slots[packet.block as int],
                );
                lemma_free_push(engine.pool.free, engine.entry(packet.block)->0.buffer);
            }
        },
        EngineEvent::TakeResult(block) => {
            if after != engine {
                lemma_table_update(engine.slots, block as int, after.slots[block as int]);
            }
        },
        EngineEvent::Abandon(block) => {
            if after != engine {
                lemma_table_update(engine.slots, block as int, after.slots[block as int]);
                lemma_free_push(engine.pool.free, engine.entry(block)->0.buffer);
            }
        },
        EngineEvent::AcquireBuffer => {},
        EngineEvent::ReleaseBuffer(buffer) => {
            lemma_free_push(engine.pool.free, buffer);
        },
    }
    assert(after.buffers().add(engine.leaving(event)) =~= engine.buffers().add(
        engine.entering(event),
    ));
}

/// Over any course of events the account of an engine balances: the buffers it holds
/// at the end, together with all that left, are the buffers it held at the start
/// together with all that came in: every buffer that was lent is in the table, in the
/// pool, or out again.
pub proof fn lemma_account_balances(engine: EngineView, events: Seq<EngineEvent>)
    ensures
        engine.run(events).buffers().add(engine.left(events)) == engine.buffers().add(
            engine.entered(events),
        ),
    decreases events.len(),
{
    if events.len() > 0 {
        let earlier = events.drop_last();
        let before = engine.run(earlier);
        lemma_account_balances(engine, earlier);
        lemma_buffers_are_conserved(before, events.last());
        let balanced_earlier = before.buffers().add(engine.left(earlier));
        let balanced_step = before.step(events.last()).buffers().add(
            before.leaving(events.last()),
        );
        assert forall|v: (usize, u64)|
            engine.run(events).buffers().add(engine.left(events)).count(v) == engine.buffers().add(
                engine.entered(events),
            ).count(v) by {
            assert(balanced_earlier.count(v) == engine.buffers().add(
                engine.entered(earlier),
            ).count(v));
            assert(balanced_step.count(v) == before.buffers().add(
                before.entering(events.last()),
            ).count(v));
        }
    }
    assert(engine.run(events).buffers().add(engine.left(events)) =~= engine.buffers().add(
        engine.entered(events),
    ));
}

} // verus!
