//! What an I/O operation resolves to.

use crate::io::error::Error;
use crate::io::pinned_buffer::BufferPool;
use crate::io::pinned_buffer::PinnedBuffer;
use vstd::prelude::*;

verus! {

/// The failure of an I/O operation that was attempted on a buffer. It holds the buffer
/// beside the error, so that a failed operation never costs the caller its buffer.
#[derive(Debug)]
pub struct OperationError {
    pub inner: Error,
    pub buffer: PinnedBuffer,
}

impl OperationError {
    /// Pairs an error with the buffer of the operation that failed.
    pub fn new(inner: Error, buffer: PinnedBuffer) -> (error: OperationError)
        ensures
            error.inner == inner,
            error.buffer == buffer,
    {
        OperationError { inner, buffer }
    }

    /// The error alone. The buffer is let go for good: its storage is freed and comes
    /// back to no pool. A caller that wants the buffer recycled uses
    /// [`OperationError::into_inner_releasing`].
    pub fn into_inner(self) -> (inner: Error)
        ensures
            inner == self.inner,
    {
        self.inner
    }

    /// The error alone, with the buffer given back to `pool`: it joins the free list if
    /// the pool is the one it came from, and is let go if it is another worker's.
    pub fn into_inner_releasing(self, pool: &mut BufferPool) -> (inner: Error)
        requires
            old(pool).well_formed(),
        ensures
            final(pool).well_formed(),
            inner == self.inner,
            final(pool)@ == old(pool)@.after_release(self.buffer@),
    {
        pool.release(self.buffer);
        self.inner
    }

    /// The error and the buffer, for a caller that wants to use the buffer again.
    pub fn into_inner_and_buffer(self) -> (parts: (Error, PinnedBuffer))
        ensures
            parts.0 == self.inner,
            parts.1 == self.buffer,
    {
        (self.inner, self.buffer)
    }
}

/// What an operation resolves to: the buffer, or the error together with the buffer.
pub type OperationResult = Result<PinnedBuffer, OperationError>;

/// The plain result that is left of an operation result once the buffer of a failed
/// operation is let go.
pub open spec fn without_error_buffer(result: OperationResult) -> Result<PinnedBuffer, Error> {
    match result {
        Ok(buffer) => Ok(buffer),
        Err(error) => Err(error.inner),
    }
}

/// The buffer that a failed operation carries beside its error.
pub open spec fn failed_buffer(result: OperationResult) -> Option<PinnedBuffer> {
    match result {
        Ok(_) => None,
        Err(error) => Some(error.buffer),
    }
}

/// Conversion of an operation result for callers that do not care about the buffer of a
/// failed operation.
pub trait OperationResultExt: Sized {
    /// What the conversions return.
    spec fn inner(self) -> Result<PinnedBuffer, Error>;

    /// The buffer that the conversions take out of the result.
    spec fn dropped_buffer(self) -> Option<PinnedBuffer>;

    /// The buffer after success, the error alone after failure. The buffer of a failed
    /// operation is let go for good: its storage is freed and comes back to no pool.
    fn into_inner(self) -> (plain: Result<PinnedBuffer, Error>)
        ensures
            plain == self.inner(),
    ;

    /// The buffer after success, the error alone after failure, with the buffer of a
    /// failed operation given back to `pool`.
    fn into_inner_releasing(self, pool: &mut BufferPool) -> (plain: Result<PinnedBuffer, Error>)
        requires
            old(pool).well_formed(),
        ensures
            final(pool).well_formed(),
            plain == self.inner(),
            final(pool)@ == match self.dropped_buffer() {
                Some(buffer) => old(pool)@.after_release(buffer@),
                None => old(pool)@,
            },
    ;
}

impl OperationResultExt for Result<PinnedBuffer, OperationError> {
    open spec fn inner(self) -> Result<PinnedBuffer, Error> {
        without_error_buffer(self)
    }

    open spec fn dropped_buffer(self) -> Option<PinnedBuffer> {
        failed_buffer(self)
    }

    fn into_inner(self) -> (plain: Result<PinnedBuffer, Error>) {
        match self {
            Ok(buffer) => Ok(buffer),
            Err(OperationError { inner, buffer: _ }) => Err(inner),
        }
    }

    fn into_inner_releasing(self, pool: &mut BufferPool) -> (plain: Result<PinnedBuffer, Error>) {
        match self {
            Ok(buffer) => Ok(buffer),
            Err(error) => Err(error.into_inner_releasing(pool)),
        }
    }
}

} // verus!
