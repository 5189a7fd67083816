//! Pinned buffers and the pool of one worker that recycles them.

use vstd::prelude::*;
use vstd::slice::slice_subrange;

verus! {

/// Bytes that one endpoint address occupies in the output of an accept operation: the
/// size of an IPv4 socket address plus the sixteen bytes of padding the platform asks for.
pub const ADDRESS_LENGTH: usize = 32;

/// Capacity of every pinned buffer. It is fixed for the life of a buffer and large enough
/// for the biggest operation the runtime issues; an accept alone needs two address
/// lengths.
pub const BUFFER_CAPACITY: usize = 4096;

/// What a buffer knows about itself beside its bytes.
#[derive(Debug)]
struct Header {
    address: u64,
    origin: usize,
    len: usize,
}

impl Header {
    #[verifier::type_invariant]
    spec fn len_within_capacity(&self) -> bool {
        self.len <= BUFFER_CAPACITY
    }
}

/// A byte buffer whose storage stays where it is for as long as the buffer lives.
///
/// The capacity is fixed when the buffer is allocated; only the used length and the
/// bytes change. `address` identifies the storage: a pool gives every buffer it
/// allocates an address of its own, for as long as it has addresses left.
#[derive(Debug)]
pub struct PinnedBuffer {
    header: Header,
    storage: Box<[u8; 4096]>,
}

/// The mathematical value of a [`PinnedBuffer`].
pub struct PinnedBufferView {
    /// Identity of the storage.
    pub address: u64,
    /// The worker whose pool allocated the buffer.
    pub origin: usize,
    /// The whole storage; its length is the capacity.
    pub storage: Seq<u8>,
    /// Length of the used prefix.
    pub len: usize,
}

impl PinnedBufferView {
    /// The capacity fixed at allocation.
    pub open spec fn capacity(self) -> nat {
        self.storage.len()
    }

    /// The used prefix of the storage.
    pub open spec fn contents(self) -> Seq<u8> {
        self.storage.subrange(0, self.len as int)
    }

    /// The same buffer with another used length.
    pub open spec fn with_len(self, len: usize) -> PinnedBufferView {
        PinnedBufferView { len, ..self }
    }

    /// The same buffer with other bytes in its storage.
    pub open spec fn with_storage(self, storage: Seq<u8>) -> PinnedBufferView {
        PinnedBufferView { storage, ..self }
    }

    /// Whether `other` is this buffer, whatever happened to its bytes and its used
    /// length: the same storage, at the same address, of the same capacity, from the
    /// same pool.
    pub open spec fn same_storage(self, other: PinnedBufferView) -> bool {
        &&& self.address == other.address
        &&& self.origin == other.origin
        &&& self.capacity() == other.capacity()
    }
}

impl View for PinnedBuffer {
    type V = PinnedBufferView;

    closed spec fn view(&self) -> PinnedBufferView {
        PinnedBufferView {
            address: self.header.address,
            origin: self.header.origin,
            storage: self.storage@,
            len: self.header.len,
        }
    }
}

impl PinnedBuffer {
    /// Length of the used prefix.
    pub fn len(&self) -> (len: usize)
        ensures
            len == self@.len,
            len <= BUFFER_CAPACITY,
    {
        proof {
            use_type_invariant(&self.header);
        }
        self.header.len
    }

    /// Whether the used prefix is empty.
    pub fn is_empty(&self) -> (empty: bool)
        ensures
            empty == (self@.len == 0),
    {
        self.header.len == 0
    }

    /// The capacity fixed at allocation.
    pub fn capacity(&self) -> (capacity: usize)
        ensures
            capacity == self@.capacity(),
            capacity == BUFFER_CAPACITY,
    {
        BUFFER_CAPACITY
    }

    /// Identity of the storage.
    pub fn address(&self) -> (address: u64)
        ensures
            address == self@.address,
    {
        self.header.address
    }

    /// The worker whose pool allocated the buffer.
    pub fn origin(&self) -> (origin: usize)
        ensures
            origin == self@.origin,
    {
        self.header.origin
    }

    /// Sets the used length, as the completion of an operation does with the number of
    /// bytes transferred. Storage, address and capacity stay as they are.
    pub fn set_len(&mut self, len: usize)
        requires
            len <= BUFFER_CAPACITY,
        ensures
            final(self)@ == old(self)@.with_len(len),
    {
        self.header.len = len;
    }

    /// The used prefix.
    pub fn as_slice(&self) -> (bytes: &[u8])
        ensures
            bytes@ == self@.contents(),
    {
        proof {
            use_type_invariant(&self.header);
        }
        slice_subrange(self.storage.as_slice(), 0, self.header.len)
    }

    /// The whole storage, writable: the region that an operation lends to the platform.
    /// Whatever is written, the buffer keeps its address, its capacity and its used
    /// length.
    pub fn as_mut_storage(&mut self) -> (region: &mut [u8; 4096])
        ensures
            region@ == old(self)@.storage,
            final(self)@ == old(self)@.with_storage(final(region)@),
    {
        &mut *self.storage
    }
}

/// The free list of one worker: buffers that came back and wait to be handed out again.
#[derive(Debug)]
pub struct BufferPool {
    worker: usize,
    free: Vec<PinnedBuffer>,
    allocated: u64,
}

/// The mathematical value of a [`BufferPool`].
pub struct BufferPoolView {
    /// The worker that owns the pool.
    pub worker: usize,
    /// The buffers waiting to be handed out; the last one goes first.
    pub free: Seq<PinnedBufferView>,
    /// The address that the next allocation gets: the number of buffers allocated so
    /// far, which stops counting at the last address there is.
    pub allocated: u64,
}

impl BufferPoolView {
    /// A freshly allocated buffer of this pool: zeroed, full length, at the next address.
    pub open spec fn fresh(self) -> PinnedBufferView {
        PinnedBufferView {
            address: self.allocated,
            origin: self.worker,
            storage: Seq::new(BUFFER_CAPACITY as nat, |i: int| 0u8),
            len: BUFFER_CAPACITY,
        }
    }

    /// Whether a buffer that comes back is one of this pool's.
    pub open spec fn recycles(self, buffer: PinnedBufferView) -> bool {
        buffer.origin == self.worker
    }

    /// The pool after a buffer came back: kept if it is one of the pool's, let go if not.
    pub open spec fn after_release(self, buffer: PinnedBufferView) -> BufferPoolView {
        if self.recycles(buffer) {
            BufferPoolView { free: self.free.push(buffer), ..self }
        } else {
            self
        }
    }

    /// Whether the pool has an address left that it has not given yet.
    pub open spec fn has_fresh_address(self) -> bool {
        self.allocated < u64::MAX
    }

    /// The buffer that the pool hands out next: the last that came back, at full length
    /// again, or a fresh one when none is waiting.
    pub open spec fn next_buffer(self) -> PinnedBufferView {
        if self.free.len() > 0 {
            self.free.last().with_len(BUFFER_CAPACITY)
        } else {
            self.fresh()
        }
    }

    /// The pool after it handed out a buffer: without the last buffer of the free
    /// list, or, if the list was empty, with one allocation more.
    pub open spec fn after_supply(self) -> BufferPoolView {
        if self.free.len() > 0 {
            BufferPoolView { free: self.free.drop_last(), ..self }
        } else if self.has_fresh_address() {
            BufferPoolView { allocated: (self.allocated + 1) as u64, ..self }
        } else {
            self
        }
    }
}

impl View for BufferPool {
    type V = BufferPoolView;

    closed spec fn view(&self) -> BufferPoolView {
        BufferPoolView {
            worker: self.worker,
            free: Seq::new(self.free@.len(), |i: int| self.free@[i]@),
            allocated: self.allocated,
        }
    }
}

impl BufferPool {
    /// What every pool satisfies: each buffer on its free list is one of its own.
    pub closed spec fn well_formed(&self) -> bool {
        forall|i: int| 0 <= i < self.free@.len() ==> (#[trigger] self.free@[i]).header.origin
            == self.worker
    }

    /// An empty pool for `worker`.
    pub fn new(worker: usize) -> (pool: BufferPool)
        ensures
            pool.well_formed(),
            pool@ == (BufferPoolView {
                worker,
                free: Seq::<PinnedBufferView>::empty(),
                allocated: 0,
            }),
    {
        let pool = BufferPool { worker, free: Vec::new(), allocated: 0 };
        assert(pool@.free =~= Seq::<PinnedBufferView>::empty());
        pool
    }

    /// The worker that owns the pool.
    pub fn worker(&self) -> (worker: usize)
        ensures
            worker == self@.worker,
    {
        self.worker
    }

    /// Number of buffers waiting on the free list.
    pub fn available(&self) -> (count: usize)
        ensures
            count == self@.free.len(),
    {
        self.free.len()
    }

    /// Number of buffers allocated so far.
    pub fn allocated(&self) -> (count: u64)
        ensures
            count == self@.allocated,
    {
        self.allocated
    }

    /// Takes a buffer back. One that this pool allocated joins the free list; one from
    /// another worker's pool is let go, since free lists are never shared.
    pub fn release(&mut self, buffer: PinnedBuffer) -> (recycled: bool)
        requires
            old(self).well_formed(),
        ensures
            final(self).well_formed(),
            recycled == old(self)@.recycles(buffer@),
            final(self)@ == old(self)@.after_release(buffer@),
    {
        if buffer.header.origin == self.worker {
            self.free.push(buffer);
            assert(self@.free =~= old(self)@.free.push(buffer@));
            true
        } else {
            false
        }
    }
}

impl PinnedBuffer {
    /// Hands out a buffer of the pool at full length. The free list is used first; when
    /// it is empty a new buffer is allocated, so the call never waits for one to return
    /// and never fails for want of one.
    pub fn from_pool(pool: &mut BufferPool) -> (buffer: PinnedBuffer)
        requires
            old(pool).well_formed(),
        ensures
            final(pool).well_formed(),
            buffer@ == old(pool)@.next_buffer(),
            final(pool)@ == old(pool)@.after_supply(),
            buffer@.origin == old(pool)@.worker,
            buffer@.len == BUFFER_CAPACITY,
            buffer@.capacity() == BUFFER_CAPACITY,
    {
        match pool.free.pop() {
            Some(mut buffer) => {
                buffer.header.len = BUFFER_CAPACITY;
                assert(pool@.free =~= old(pool)@.free.drop_last());
                buffer
            },
            None => {
                let buffer = PinnedBuffer {
                    header: Header {
                        address: pool.allocated,
                        origin: pool.worker,
                        len: BUFFER_CAPACITY,
                    },
                    storage: Box::new([0u8; 4096]),
                };
                if pool.allocated < u64::MAX {
                    pool.allocated = pool.allocated + 1;
                }
                assert(buffer@.storage =~= old(pool)@.fresh().storage);
                assert(pool@.free =~= old(pool)@.free);
                buffer
            },
        }
    }
}

/// A pool whose free list is empty answers with a new allocation: the buffer it hands
/// out is fresh, zeroed and of full length, with room for the two addresses of an
/// accept; nothing is taken from the list or waited for; and while the pool has an
/// address left the number of allocations grows by one.
pub proof fn lemma_exhausted_pool_allocates(pool: BufferPoolView)
    requires
        pool.free.len() == 0,
    ensures
        pool.next_buffer() == pool.fresh(),
        pool.next_buffer().len == BUFFER_CAPACITY,
        pool.next_buffer().len >= 2 * ADDRESS_LENGTH,
        pool.next_buffer().origin == pool.worker,
        pool.after_supply().free.len() == 0,
        pool.has_fresh_address() ==> pool.after_supply().allocated == pool.allocated + 1,
{
}

/// A buffer that went back to its own pool is the next one handed out: same storage at
/// the same address, at full length again.
pub proof fn lemma_released_buffer_is_reused(pool: BufferPoolView, buffer: PinnedBufferView)
    requires
        pool.recycles(buffer),
    ensures
        pool.after_release(buffer).next_buffer() == buffer.with_len(BUFFER_CAPACITY),
        pool.after_release(buffer).after_supply() == pool,
{
    assert(pool.free.push(buffer).drop_last() =~= pool.free);
}

} // verus!
