//! The verified core of a thread-per-core asynchronous I/O runtime: the bookkeeping of the
//! per-worker completion engine, the pinned buffer pool, and the decisions of the TCP
//! acceptor that runs on top of them.
//!
//! Everything here is free of system calls. The embedding program performs the platform
//! work (creating sockets, dequeuing completion packets, awaiting) and reports each outcome
//! to the state machines of this crate, which decide what happens next.

pub mod io;
pub mod net;
pub mod rt;
