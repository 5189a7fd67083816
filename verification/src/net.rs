//! TCP on top of the completion engine: the acceptor, its dispatcher and the server handle.

pub mod accept_one;
pub mod channel;
pub mod tcp_connection;
pub mod tcp_dispatcher;
pub mod tcp_server;
pub mod winsock;

pub use accept_one::AcceptOne;
pub use tcp_connection::TcpConnection;
pub use tcp_dispatcher::TcpDispatcher;
pub use tcp_server::DispatcherSeed;
pub use tcp_server::TcpServerBuilder;
pub use tcp_server::TcpServerHandle;
pub use tcp_server::TcpServerLaunch;
