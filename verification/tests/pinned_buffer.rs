use folo::io::pinned_buffer::ADDRESS_LENGTH;
use folo::io::pinned_buffer::BUFFER_CAPACITY;
use folo::io::BufferPool;
use folo::io::PinnedBuffer;

#[test]
fn an_empty_pool_allocates_instead_of_waiting() {
    let mut pool = BufferPool::new(3);
    assert_eq!(pool.available(), 0);
    assert_eq!(pool.allocated(), 0);
    let first = PinnedBuffer::from_pool(&mut pool);
    let second = PinnedBuffer::from_pool(&mut pool);
    assert_eq!(first.address(), 0);
    assert_eq!(second.address(), 1);
    assert_eq!(first.origin(), 3);
    assert_eq!(pool.allocated(), 2);
    assert_eq!(pool.available(), 0);
}

#[test]
fn a_fresh_buffer_is_zeroed_and_full() {
    let mut pool = BufferPool::new(0);
    let buffer = PinnedBuffer::from_pool(&mut pool);
    assert_eq!(buffer.capacity(), 4096);
    assert_eq!(BUFFER_CAPACITY, 4096);
    assert_eq!(buffer.len(), 4096);
    assert!(!buffer.is_empty());
    assert!(buffer.len() >= 2 * ADDRESS_LENGTH);
    assert_eq!(ADDRESS_LENGTH, 32);
    assert_eq!(buffer.as_slice().len(), 4096);
    assert!(buffer.as_slice().iter().all(|byte| *byte == 0));
}

#[test]
fn a_released_buffer_is_handed_out_again() {
    let mut pool = BufferPool::new(1);
    let mut buffer = PinnedBuffer::from_pool(&mut pool);
    let address = buffer.address();
    buffer.set_len(10);
    assert!(pool.release(buffer));
    assert_eq!(pool.available(), 1);
    let again = PinnedBuffer::from_pool(&mut pool);
    assert_eq!(again.address(), address);
    assert_eq!(again.len(), 4096);
    assert_eq!(pool.available(), 0);
    assert_eq!(pool.allocated(), 1);
}

#[test]
fn the_last_released_goes_first() {
    let mut pool = BufferPool::new(1);
    let a = PinnedBuffer::from_pool(&mut pool);
    let b = PinnedBuffer::from_pool(&mut pool);
    assert!(pool.release(a));
    assert!(pool.release(b));
    assert_eq!(PinnedBuffer::from_pool(&mut pool).address(), 1);
    assert_eq!(PinnedBuffer::from_pool(&mut pool).address(), 0);
    assert_eq!(PinnedBuffer::from_pool(&mut pool).address(), 2);
}

#[test]
fn a_buffer_of_another_worker_is_let_go() {
    let mut home = BufferPool::new(1);
    let mut elsewhere = BufferPool::new(2);
    let buffer = PinnedBuffer::from_pool(&mut home);
    assert!(!elsewhere.release(buffer));
    assert_eq!(elsewhere.available(), 0);
    assert_eq!(home.available(), 0);
    assert_eq!(home.worker(), 1);
    assert_eq!(elsewhere.worker(), 2);
}

#[test]
fn the_used_length_changes_and_the_capacity_does_not() {
    let mut pool = BufferPool::new(0);
    let mut buffer = PinnedBuffer::from_pool(&mut pool);
    buffer.set_len(0);
    assert!(buffer.is_empty());
    assert_eq!(buffer.as_slice().len(), 0);
    assert_eq!(buffer.capacity(), 4096);
    buffer.set_len(64);
    assert_eq!(buffer.len(), 64);
    assert_eq!(buffer.as_slice().len(), 64);
    buffer.set_len(4096);
    assert_eq!(buffer.len(), 4096);
    assert_eq!(buffer.capacity(), 4096);
}

#[test]
fn what_is_written_to_the_storage_is_read_back() {
    let mut pool = BufferPool::new(0);
    let mut buffer = PinnedBuffer::from_pool(&mut pool);
    let address = buffer.address();
    {
        let storage = buffer.as_mut_storage();
        storage[0] = 0xAB;
        storage[63] = 0xCD;
        storage[4095] = 0xEF;
    }
    buffer.set_len(64);
    assert_eq!(buffer.address(), address);
    assert_eq!(buffer.as_slice()[0], 0xAB);
    assert_eq!(buffer.as_slice()[1], 0);
    assert_eq!(buffer.as_slice()[63], 0xCD);
    buffer.set_len(4096);
    assert_eq!(buffer.as_slice()[4095], 0xEF);
}
