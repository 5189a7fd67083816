//! The arguments of the socket calls that the acceptor asks the embedding program to make.

use crate::io::pinned_buffer::ADDRESS_LENGTH;
use vstd::prelude::*;

verus! {

/// Address family of IPv4.
pub const AF_INET: u16 = 2;

/// Socket type of a stream socket.
pub const SOCK_STREAM: i32 = 1;

/// Protocol number of TCP.
pub const IPPROTO_TCP: i32 = 6;

/// Socket flag: the socket supports overlapped operations.
pub const WSA_FLAG_OVERLAPPED: u32 = 1;

/// The address that stands for every IPv4 interface of the machine.
pub const INADDR_ANY: u32 = 0;

/// Option level of the socket itself.
pub const SOL_SOCKET: i32 = 65535;

/// Socket option that makes an accepted socket inherit the context of its listener.
pub const SO_UPDATE_ACCEPT_CONTEXT: i32 = 28683;

/// Control code that asks for the processor that receive-side scaling assigned.
pub const SIO_QUERY_RSS_PROCESSOR_INFO: u32 = 1207959589;

/// Number of accept operations that a dispatcher keeps in flight.
pub const CONCURRENT_ACCEPT_OPERATIONS: usize = 1024;

/// Length of the queue of connections that wait to be accepted. The default of the
/// platform is far too short under load.
pub const PENDING_CONNECTION_LIMIT: i32 = 4096;

/// The arguments for creating a socket.
#[derive(Debug, Clone, Copy, PartialEq, Eq, Structural)]
pub struct SocketRequest {
    pub family: u16,
    pub kind: i32,
    pub protocol: i32,
    pub flags: u32,
}

/// The arguments for binding a socket to a local address.
#[derive(Debug, Clone, Copy, PartialEq, Eq, Structural)]
pub struct AddressRequest {
    pub socket: usize,
    pub family: u16,
    /// The IPv4 address, as the platform numbers it.
    pub address: u32,
    /// The port in host byte order; the caller converts it for the wire.
    pub port: u16,
}

/// The arguments for making a socket listen.
#[derive(Debug, Clone, Copy, PartialEq, Eq, Structural)]
pub struct ListenRequest {
    pub socket: usize,
    /// The backlog as the platform takes it: a negative number is a hint of that
    /// magnitude instead of a cap.
    pub backlog: i32,
}

/// The arguments for beginning an overlapped accept.
#[derive(Debug, Clone, Copy, PartialEq, Eq, Structural)]
pub struct AcceptRequest {
    /// The control block of the operation.
    pub block: usize,
    pub listen_socket: usize,
    /// The fresh, unbound socket that becomes the connection.
    pub connection_socket: usize,
    /// Bytes of first data to wait for before the accept completes.
    pub receive_data_length: u32,
    pub local_address_length: u32,
    pub remote_address_length: u32,
}

/// The arguments for the fixups of an accepted socket.
#[derive(Debug, Clone, Copy, PartialEq, Eq, Structural)]
pub struct ConfigureRequest {
    pub connection_socket: usize,
    /// The value that the option is set to: the raw value of the listening socket.
    pub listen_socket: usize,
    pub level: i32,
    pub option: i32,
    /// The control code of the query that follows the option.
    pub query: u32,
}

/// The request for an overlapped-capable IPv4 stream socket.
pub open spec fn tcp_socket_request() -> SocketRequest {
    SocketRequest {
        family: AF_INET,
        kind: SOCK_STREAM,
        protocol: IPPROTO_TCP,
        flags: WSA_FLAG_OVERLAPPED,
    }
}

/// The request for binding `socket` to `port` on every IPv4 interface.
pub open spec fn any_address_request(socket: usize, port: u16) -> AddressRequest {
    AddressRequest { socket, family: AF_INET, address: INADDR_ANY, port }
}

/// The two bytes of a port as they stand in a socket address and on the wire: the
/// high byte first.
pub open spec fn network_order(port: u16) -> Seq<u8> {
    seq![(port / 256) as u8, (port % 256) as u8]
}

/// The request for listening on `socket` with the backlog hint of the dispatcher.
pub open spec fn listen_request(socket: usize) -> ListenRequest {
    ListenRequest { socket, backlog: -4096i32 }
}

/// The request for one accept on `listen_socket` into `connection_socket`: no first
/// data is waited for, and each of the two addresses gets one address length.
pub open spec fn accept_request(
    block: usize,
    listen_socket: usize,
    connection_socket: usize,
) -> AcceptRequest {
    AcceptRequest {
        block,
        listen_socket,
        connection_socket,
        receive_data_length: 0,
        local_address_length: 32,
        remote_address_length: 32,
    }
}

/// The request for the fixups of `connection_socket`, accepted on `listen_socket`.
pub open spec fn configure_request(connection_socket: usize, listen_socket: usize) -> ConfigureRequest {
    ConfigureRequest {
        connection_socket,
        listen_socket,
        level: SOL_SOCKET,
        option: SO_UPDATE_ACCEPT_CONTEXT,
        query: SIO_QUERY_RSS_PROCESSOR_INFO,
    }
}

impl SocketRequest {
    /// The request for an overlapped-capable IPv4 stream socket.
    pub fn tcp() -> (request: SocketRequest)
        ensures
            request == tcp_socket_request(),
    {
        SocketRequest {
            family: AF_INET,
            kind: SOCK_STREAM,
            protocol: IPPROTO_TCP,
            flags: WSA_FLAG_OVERLAPPED,
        }
    }
}

impl AddressRequest {
    /// The request for binding `socket` to `port` on every IPv4 interface.
    pub fn any_address(socket: usize, port: u16) -> (request: AddressRequest)
        ensures
            request == any_address_request(socket, port),
    {
        AddressRequest { socket, family: AF_INET, address: INADDR_ANY, port }
    }
}

impl AddressRequest {
    /// The port as it is written into the socket address, in network byte order.
    pub fn port_in_network_order(&self) -> (bytes: [u8; 2])
        ensures
            bytes@ == network_order(self.port),
    {
        let port = self.port;
        let high: u8 = (port >> 8) as u8;
        let low: u8 = (port & 0xff) as u8;
        assert(high == (port / 256) as u8) by (bit_vector)
            requires
                high == (port >> 8) as u8,
        ;
        assert(low == (port % 256) as u8) by (bit_vector)
            requires
                low == (port & 0xff) as u8,
        ;
        let bytes = [high, low];
        assert(bytes@ =~= network_order(port));
        bytes
    }
}

impl ListenRequest {
    /// The request for listening on `socket`. The backlog is the negated limit of
    /// pending connections.
    pub fn with_backlog_hint(socket: usize) -> (request: ListenRequest)
        ensures
            request == listen_request(socket),
            request.backlog == -PENDING_CONNECTION_LIMIT,
    {
        ListenRequest { socket, backlog: -PENDING_CONNECTION_LIMIT }
    }
}

impl AcceptRequest {
    /// The request for one accept on `listen_socket` into `connection_socket`.
    pub fn new(block: usize, listen_socket: usize, connection_socket: usize) -> (request:
        AcceptRequest)
        ensures
            request == accept_request(block, listen_socket, connection_socket),
            request.local_address_length == ADDRESS_LENGTH,
            request.remote_address_length == ADDRESS_LENGTH,
    {
        AcceptRequest {
            block,
            listen_socket,
            connection_socket,
            receive_data_length: 0,
            local_address_length: ADDRESS_LENGTH as u32,
            remote_address_length: ADDRESS_LENGTH as u32,
        }
    }
}

impl ConfigureRequest {
    /// The request for the fixups of `connection_socket`, accepted on `listen_socket`.
    pub fn new(connection_socket: usize, listen_socket: usize) -> (request: ConfigureRequest)
        ensures
            request == configure_request(connection_socket, listen_socket),
    {
        ConfigureRequest {
            connection_socket,
            listen_socket,
            level: SOL_SOCKET,
            option: SO_UPDATE_ACCEPT_CONTEXT,
            query: SIO_QUERY_RSS_PROCESSOR_INFO,
        }
    }
}

} // verus!
