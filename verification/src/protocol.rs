//! The messages that cross the control channel, as plain values.

use vstd::prelude::*;

verus! {

/// Identifier that the agent assigns to a mirrored connection.
pub type ConnectionId = u64;

/// A TCP port number.
pub type Port = u16;

/// An IP address, held as the integer that its octets spell in network order.
#[derive(Clone, Copy, Debug, PartialEq, Eq, Hash, Structural)]
pub enum IpAddress {
    V4(u32),
    V6(u128),
}

/// An IP address together with a port.
#[derive(Clone, Copy, Debug, PartialEq, Eq, Hash, Structural)]
pub struct SocketAddress {
    pub ip: IpAddress,
    pub port: Port,
}

/// The agent accepted a connection on a mirrored port.
#[derive(Clone, Copy, Debug, PartialEq, Eq, Structural)]
pub struct NewTcpConnection {
    pub connection_id: ConnectionId,
    pub remote_address: SocketAddress,
    pub destination_port: Port,
    pub local_address: SocketAddress,
}

/// A chunk of bytes that the remote peer sent on a mirrored connection.
#[derive(Clone, Debug, PartialEq, Eq)]
pub struct TcpData {
    pub connection_id: ConnectionId,
    pub bytes: Vec<u8>,
}

/// The remote peer closed a mirrored connection.
#[derive(Clone, Copy, Debug, PartialEq, Eq, Structural)]
pub struct TcpClose {
    pub connection_id: ConnectionId,
}

/// Requests of the TCP layer to the agent.
#[derive(Clone, Copy, Debug, PartialEq, Eq, Structural)]
pub enum LayerTcp {
    /// Ask the agent to mirror the connections that arrive on this port.
    PortSubscribe(Port),
}

/// The envelope of every message that the layer sends to the agent.
#[derive(Clone, Copy, Debug, PartialEq, Eq, Structural)]
pub enum ClientMessage {
    Tcp(LayerTcp),
}

/// The transport protocol of a listener.
#[derive(Clone, Copy, Debug, PartialEq, Eq, Hash, Structural)]
pub enum Protocol {
    Tcp,
}

/// A subscription record: the port that the user's process asked for and the
/// loopback address on which it really listens.
#[derive(Clone, Copy, Debug, PartialEq, Eq, Hash, Structural)]
pub struct Listen {
    pub requested_port: Port,
    pub actual_local_addr: SocketAddress,
    pub protocol: Protocol,
}

} // verus!
