//! Completion-based I/O: errors, pinned buffers, operation results and the completion engine.

pub mod completion_port;
pub mod conservation;
pub mod engine;
pub mod error;
pub mod lifecycle;
pub mod operation_result;
pub mod pinned_buffer;

pub use completion_port::BindOutcome;
pub use completion_port::BindRequest;
pub use completion_port::CompletionPort;
pub use completion_port::OwnedHandle;
pub use engine::CompletionEngine;
pub use engine::CompletionPacket;
pub use engine::EngineView;
pub use engine::Phase;
pub use engine::Routing;
pub use error::Error;
pub use error::ErrorView;
pub use operation_result::OperationError;
pub use operation_result::OperationResult;
pub use operation_result::OperationResultExt;
pub use pinned_buffer::BufferPool;
pub use pinned_buffer::BufferPoolView;
pub use pinned_buffer::PinnedBuffer;
pub use pinned_buffer::PinnedBufferView;
