use folo::io::BufferPool;
use folo::io::Error;
use folo::io::OperationError;
use folo::io::OperationResult;
use folo::io::OperationResultExt;
use folo::io::PinnedBuffer;

#[test]
fn operation_error_keeps_error_and_buffer() {
    let mut pool = BufferPool::new(7);
    let buffer = PinnedBuffer::from_pool(&mut pool);
    let address = buffer.address();
    let error = OperationError::new(Error::Windows { code: 995 }, buffer);
    let (inner, buffer) = error.into_inner_and_buffer();
    assert!(matches!(inner, Error::Windows { code: 995 }));
    assert_eq!(buffer.address(), address);
    assert_eq!(buffer.origin(), 7);
}

#[test]
fn into_inner_drops_the_buffer_of_a_failure() {
    let mut pool = BufferPool::new(0);
    let buffer = PinnedBuffer::from_pool(&mut pool);
    let failed: OperationResult = Err(OperationError::new(Error::Windows { code: 5 }, buffer));
    match failed.into_inner() {
        Err(Error::Windows { code }) => assert_eq!(code, 5),
        _ => panic!("the failure must stay a failure"),
    }
    let buffer = PinnedBuffer::from_pool(&mut pool);
    let address = buffer.address();
    let succeeded: OperationResult = Ok(buffer);
    match succeeded.into_inner() {
        Ok(buffer) => assert_eq!(buffer.address(), address),
        Err(_) => panic!("the success must stay a success"),
    }
}

#[test]
fn a_released_buffer_of_a_failure_is_back_in_its_pool() {
    let mut pool = BufferPool::new(2);
    let buffer = PinnedBuffer::from_pool(&mut pool);
    let address = buffer.address();
    let error = OperationError::new(Error::Windows { code: 64 }, buffer);
    assert_eq!(pool.available(), 0);
    let inner = error.into_inner_releasing(&mut pool);
    assert!(matches!(inner, Error::Windows { code: 64 }));
    assert_eq!(pool.available(), 1);
    assert_eq!(PinnedBuffer::from_pool(&mut pool).address(), address);

    // The plain form lets the buffer go: the pool never sees it again.
    let buffer = PinnedBuffer::from_pool(&mut pool);
    let lost = buffer.address();
    let error = OperationError::new(Error::Windows { code: 64 }, buffer);
    let _ = error.into_inner();
    assert_eq!(pool.available(), 0);
    assert_eq!(PinnedBuffer::from_pool(&mut pool).address(), lost + 1);
}

#[test]
fn releasing_conversion_keeps_a_success_and_recycles_a_failure() {
    let mut pool = BufferPool::new(2);
    let mut elsewhere = BufferPool::new(3);
    let buffer = PinnedBuffer::from_pool(&mut pool);
    let address = buffer.address();
    let succeeded: OperationResult = Ok(buffer);
    let buffer = succeeded.into_inner_releasing(&mut pool).ok().unwrap();
    assert_eq!(buffer.address(), address);
    assert_eq!(pool.available(), 0);

    let failed: OperationResult = Err(OperationError::new(Error::Windows { code: 5 }, buffer));
    assert!(matches!(
        failed.into_inner_releasing(&mut pool),
        Err(Error::Windows { code: 5 })
    ));
    assert_eq!(pool.available(), 1);

    // Released on another worker, the buffer is let go.
    let buffer = PinnedBuffer::from_pool(&mut pool);
    let failed: OperationResult = Err(OperationError::new(Error::Windows { code: 5 }, buffer));
    assert!(failed.into_inner_releasing(&mut elsewhere).is_err());
    assert_eq!(elsewhere.available(), 0);
    assert_eq!(pool.available(), 0);
}
