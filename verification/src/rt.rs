//! The surface of the runtime that the I/O core stands on: the client through which
//! work is placed on workers, the executor of one async worker, and the registration of
//! a thread with its runtime.

pub mod async_agent;
pub mod current_runtime;
pub mod functions;
pub mod join_handle;
pub mod ready_after_poll;
pub mod runtime_client;

pub use async_agent::AsyncAgent;
pub use current_runtime::CurrentRuntime;
pub use functions::spawn;
pub use functions::spawn_on_any;
pub use functions::yield_now;
pub use join_handle::LocalJoinHandle;
pub use join_handle::RemoteJoinHandle;
pub use ready_after_poll::ReadyAfterPoll;
pub use runtime_client::RuntimeClient;
pub use runtime_client::SynchronousTaskType;
