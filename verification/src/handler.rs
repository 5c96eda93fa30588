//! The mirror handler: what each message of the control channel does to the
//! port registry and the connection table.

use crate::channel::{channel_bound, open_channel, CHANNEL_CAPACITY};
use crate::connection::{Connection, ConnectionTable};
use crate::error::LayerError;
use crate::protocol::{
    ClientMessage, ConnectionId, LayerTcp, Listen, NewTcpConnection, Port, SocketAddress,
    TcpClose, TcpData,
};
use crate::registry::{subscribed, PortRegistry};
use std::io::ErrorKind;
use tokio::sync::mpsc::{Receiver, Sender};
use vstd::prelude::*;

verus! {

/// What a subscription request announces to the agent: the port, unless it
/// is subscribed already.
pub open spec fn announced(ports: Map<Port, SocketAddress>, listen: Listen) -> Result<
    ClientMessage,
    LayerError,
> {
    if ports.contains_key(listen.requested_port) {
        Err(LayerError::ListenAlreadyExists)
    } else {
        Ok(ClientMessage::Tcp(LayerTcp::PortSubscribe(listen.requested_port)))
    }
}

/// Where the local listener for a new connection is: the address recorded
/// for the connection's destination port.
pub open spec fn resolved(ports: Map<Port, SocketAddress>, port: Port) -> Result<
    SocketAddress,
    LayerError,
> {
    if ports.contains_key(port) {
        Ok(ports[port])
    } else {
        Err(LayerError::NoListener(port))
    }
}

/// Whether a new connection for `port` gets a tunnel, given how the attempt
/// to connect to the local listener ended: not without a listener, and not
/// without a local socket.
pub open spec fn admitted(
    ports: Map<Port, SocketAddress>,
    port: Port,
    connected: Result<(), ErrorKind>,
) -> Result<(), LayerError> {
    if !ports.contains_key(port) {
        Err(LayerError::NoListener(port))
    } else {
        match connected {
            Ok(_) => Ok(()),
            Err(kind) => Err(LayerError::LocalConnect(kind)),
        }
    }
}

/// What becomes of a subscription whose announcement was handed to the
/// control channel with the result `sent`: a message that the channel
/// refused is a transport error.
pub open spec fn delivered(sent: Result<(), ErrorKind>) -> Result<(), LayerError> {
    match sent {
        Ok(_) => Ok(()),
        Err(kind) => Err(LayerError::Transport(kind)),
    }
}

/// The table after a chunk for `id` was handed to its connection with the
/// result `written`, and what the handler returns: an unknown `id` is an
/// error; a connection whose write failed leaves the table.
pub open spec fn forwarded(
    table: Map<ConnectionId, Sender<Vec<u8>>>,
    id: ConnectionId,
    written: Result<(), LayerError>,
) -> (Map<ConnectionId, Sender<Vec<u8>>>, Result<(), LayerError>) {
    if !table.contains_key(id) {
        (table, Err(LayerError::NoConnectionId(id)))
    } else if written is Ok {
        (table, Ok(()))
    } else {
        (table.remove(id), written)
    }
}

/// The table after a close for `id`, and what the handler returns.
pub open spec fn closed(table: Map<ConnectionId, Sender<Vec<u8>>>, id: ConnectionId) -> (
    Map<ConnectionId, Sender<Vec<u8>>>,
    Result<(), LayerError>,
) {
    if table.contains_key(id) {
        (table.remove(id), Ok(()))
    } else {
        (table, Err(LayerError::NoConnectionId(id)))
    }
}

/// Handles traffic mirroring.
pub struct TcpMirrorHandler {
    ports: PortRegistry,
    connections: ConnectionTable,
}

impl TcpMirrorHandler {
    /// The subscribed ports, each with its listener's address.
    pub closed spec fn registry(&self) -> Map<Port, SocketAddress> {
        self.ports@
    }

    /// The live connections, each with the sender that feeds its tunnel.
    pub closed spec fn table(&self) -> Map<ConnectionId, Sender<Vec<u8>>> {
        self.connections@
    }

    /// A handler without subscriptions or connections.
    pub fn new() -> (handler: Self)
        ensures
            handler.registry() == Map::<Port, SocketAddress>::empty(),
            handler.table() == Map::<ConnectionId, Sender<Vec<u8>>>::empty(),
    {
        Self { ports: PortRegistry::new(), connections: ConnectionTable::new() }
    }

    /// The port registry.
    pub fn ports(&self) -> (ports: &PortRegistry)
        ensures
            ports@ == self.registry(),
    {
        &self.ports
    }

    /// The port registry, to change it.
    pub fn ports_mut(&mut self) -> (ports: &mut PortRegistry)
        ensures
            ports@ == old(self).registry(),
            final(self).registry() == final(ports)@,
            final(self).table() == old(self).table(),
    {
        &mut self.ports
    }

    /// The number of live connections.
    pub fn connection_count(&self) -> (count: usize)
        ensures
            count == self.table().len(),
            self.table().dom().finite(),
    {
        self.connections.len()
    }

    /// Whether a connection is live.
    pub fn has_connection(&self, id: ConnectionId) -> (present: bool)
        ensures
            present == self.table().contains_key(id),
    {
        self.connections.contains(id)
    }

    /// Registers a listener. On success the message that comes back is to be
    /// sent to the agent; a port that is registered already gives
    /// `ListenAlreadyExists`, and then there is nothing to send.
    pub fn handle_listen(&mut self, listen: Listen) -> (result: Result<ClientMessage, LayerError>)
        ensures
            final(self).registry() == subscribed(old(self).registry(), listen).0,
            result == announced(old(self).registry(), listen),
            final(self).table() == old(self).table(),
    {
        match self.ports.subscribe(listen) {
            Ok(()) => Ok(ClientMessage::Tcp(LayerTcp::PortSubscribe(listen.requested_port))),
            Err(error) => Err(error),
        }
    }

    /// Ends the handling of a subscription once its announcement was handed
    /// to the control channel with the result `sent`. A failure comes back
    /// as a transport error; the port stays subscribed either way.
    pub fn handle_announced(&self, sent: Result<(), ErrorKind>) -> (result: Result<(), LayerError>)
        ensures
            result == delivered(sent),
    {
        match sent {
            Ok(_) => Ok(()),
            Err(kind) => Err(LayerError::Transport(kind)),
        }
    }

    /// The loopback address to connect to for a new connection, or
    /// `NoListener` when its destination port is not subscribed.
    pub fn local_address(&self, connection: &NewTcpConnection) -> (result: Result<
        SocketAddress,
        LayerError,
    >)
        ensures
            result == resolved(self.registry(), connection.destination_port),
    {
        match self.ports.get(connection.destination_port) {
            Some(listen) => Ok(listen.actual_local_addr),
            None => Err(LayerError::NoListener(connection.destination_port)),
        }
    }

    /// Opens the tunnel for a new connection, once the attempt to connect to
    /// the local listener has ended with `connected`. A destination port
    /// that is not subscribed gives `NoListener`, a failed attempt gives
    /// `LocalConnect`, and both change nothing. Otherwise a channel is made;
    /// its sender goes into the table under the connection's identifier,
    /// replacing an entry that was there, and its receiver comes back, for
    /// the one tunnel that is to be started with it.
    pub fn handle_new_connection(
        &mut self,
        tcp_connection: NewTcpConnection,
        connected: Result<(), ErrorKind>,
    ) -> (result: Result<Receiver<Vec<u8>>, LayerError>)
        ensures
            final(self).registry() == old(self).registry(),
            result is Ok <==> admitted(
                old(self).registry(),
                tcp_connection.destination_port,
                connected,
            ) is Ok,
            match result {
                Ok(_) => {
                    &&& final(self).table().contains_key(tcp_connection.connection_id)
                    &&& channel_bound(final(self).table()[tcp_connection.connection_id])
                        == CHANNEL_CAPACITY
                    &&& final(self).table() == old(self).table().insert(
                        tcp_connection.connection_id,
                        final(self).table()[tcp_connection.connection_id],
                    )
                },
                Err(error) => {
                    &&& Err::<(), LayerError>(error) == admitted(
                        old(self).registry(),
                        tcp_connection.destination_port,
                        connected,
                    )
                    &&& final(self).table() == old(self).table()
                },
            },
    {
        if !self.ports.contains(tcp_connection.destination_port) {
            return Err(LayerError::NoListener(tcp_connection.destination_port));
        }
        if let Err(kind) = connected {
            return Err(LayerError::LocalConnect(kind));
        }
        let (sender, receiver) = open_channel(CHANNEL_CAPACITY);
        self.connections.insert(Connection::new(tcp_connection.connection_id, sender));
        Ok(receiver)
    }

    /// Ends the handling of a chunk for a connection that was taken out of
    /// the table: after a write that succeeded the connection goes back;
    /// after one that failed it is dropped, and the failure returned.
    pub fn settle(&mut self, connection: Connection, written: Result<(), LayerError>) -> (result:
        Result<(), LayerError>)
        ensures
            final(self).registry() == old(self).registry(),
            result == written,
            final(self).table() == (if written is Ok {
                old(self).table().insert(connection.id(), connection.writer())
            } else {
                old(self).table()
            }),
    {
        if written.is_ok() {
            self.connections.put_back(connection);
        }
        written
    }

    /// Forwards a chunk to the tunnel of its connection. An identifier that
    /// the table does not hold gives `NoConnectionId`. Otherwise the chunk is
    /// offered to the channel, whatever its length: when the channel takes
    /// it the table stays as it was; when the channel is full or closed the
    /// connection leaves the table and `ChannelSend` comes back.
    pub fn handle_new_data(&mut self, data: TcpData) -> (result: Result<(), LayerError>)
        ensures
            final(self).registry() == old(self).registry(),
            (final(self).table(), result) == forwarded(
                old(self).table(),
                data.connection_id,
                Ok(()),
            ) || (final(self).table(), result) == forwarded(
                old(self).table(),
                data.connection_id,
                Err(LayerError::ChannelSend),
            ),
    {
        let mut connection = match self.connections.take(data.connection_id) {
            Some(connection) => connection,
            None => {
                proof {
                    assert(old(self).table().remove(data.connection_id) =~= old(self).table());
                }
                return Err(LayerError::NoConnectionId(data.connection_id));
            },
        };
        let written = connection.write(data.bytes);
        proof {
            crate::connection::lemma_take_put_back(old(self).table(), data.connection_id);
        }
        self.settle(connection, written)
    }

    /// Tears a connection down: its sender is dropped, which ends its
    /// tunnel. An identifier that the table does not hold gives
    /// `NoConnectionId`.
    pub fn handle_close(&mut self, close: TcpClose) -> (result: Result<(), LayerError>)
        ensures
            final(self).registry() == old(self).registry(),
            (final(self).table(), result) == closed(old(self).table(), close.connection_id),
    {
        let TcpClose { connection_id } = close;
        if self.connections.remove(connection_id) {
            Ok(())
        } else {
            proof {
                assert(old(self).table().remove(connection_id) =~= old(self).table());
            }
            Err(LayerError::NoConnectionId(connection_id))
        }
    }
}

impl Default for TcpMirrorHandler {
    fn default() -> (handler: Self)
        ensures
            handler.registry() == Map::<Port, SocketAddress>::empty(),
            handler.table() == Map::<ConnectionId, Sender<Vec<u8>>>::empty(),
    {
        TcpMirrorHandler::new()
    }
}

/// The number of times that `port` is announced to the agent while the
/// subscription requests `listens` are handled in order, starting from the
/// registry `ports`.
pub open spec fn announcements(ports: Map<Port, SocketAddress>, listens: Seq<Listen>, port: Port) -> nat
    decreases listens.len(),
{
    if listens.len() == 0 {
        0
    } else {
        let now: nat = if announced(ports, listens[0]) == Ok::<ClientMessage, LayerError>(
            ClientMessage::Tcp(LayerTcp::PortSubscribe(port)),
        ) {
            1
        } else {
            0
        };
        now + announcements(subscribed(ports, listens[0]).0, listens.drop_first(), port)
    }
}

/// A port that is subscribed is never announced again.
pub proof fn lemma_subscribed_port_is_not_announced(
    ports: Map<Port, SocketAddress>,
    listens: Seq<Listen>,
    port: Port,
)
    requires
        ports.contains_key(port),
    ensures
        announcements(ports, listens, port) == 0,
    decreases listens.len(),
{
    if listens.len() > 0 {
        lemma_subscribed_port_is_not_announced(
            subscribed(ports, listens[0]).0,
            listens.drop_first(),
            port,
        );
    }
}

/// Whatever subscription requests arrive, and in whatever order, each port is
/// announced to the agent once at most.
pub proof fn lemma_port_is_announced_once_at_most(
    ports: Map<Port, SocketAddress>,
    listens: Seq<Listen>,
    port: Port,
)
    ensures
        announcements(ports, listens, port) <= 1,
    decreases listens.len(),
{
    if listens.len() > 0 {
        let after = subscribed(ports, listens[0]).0;
        if announced(ports, listens[0]) == Ok::<ClientMessage, LayerError>(
            ClientMessage::Tcp(LayerTcp::PortSubscribe(port)),
        ) {
            lemma_subscribed_port_is_not_announced(after, listens.drop_first(), port);
        } else {
            lemma_port_is_announced_once_at_most(after, listens.drop_first(), port);
        }
    }
}

/// Two subscription requests for one port: the second is refused with
/// `ListenAlreadyExists` and changes nothing, and if the port was free the
/// first is the one that announces it.
pub proof fn lemma_listen_twice(ports: Map<Port, SocketAddress>, first: Listen, second: Listen)
    requires
        first.requested_port == second.requested_port,
    ensures
        announced(subscribed(ports, first).0, second) == Err::<ClientMessage, LayerError>(
            LayerError::ListenAlreadyExists,
        ),
        subscribed(subscribed(ports, first).0, second).0 == subscribed(ports, first).0,
        !ports.contains_key(first.requested_port) ==> announced(ports, first) == Ok::<
            ClientMessage,
            LayerError,
        >(ClientMessage::Tcp(LayerTcp::PortSubscribe(first.requested_port))),
{
}

/// A message for a connection that the table does not hold is refused with
/// `NoConnectionId` and leaves the table as it was.
pub proof fn lemma_unknown_connection(
    table: Map<ConnectionId, Sender<Vec<u8>>>,
    id: ConnectionId,
    written: Result<(), LayerError>,
)
    requires
        !table.contains_key(id),
    ensures
        forwarded(table, id, written) == (
            table,
            Err::<(), LayerError>(LayerError::NoConnectionId(id)),
        ),
        closed(table, id) == (table, Err::<(), LayerError>(LayerError::NoConnectionId(id))),
{
}

/// After a chunk that the channel did not take, the connection is gone: a
/// close for it, or further data, is refused with `NoConnectionId`.
pub proof fn lemma_failed_write_forgets_connection(
    table: Map<ConnectionId, Sender<Vec<u8>>>,
    id: ConnectionId,
    written: Result<(), LayerError>,
    later: Result<(), LayerError>,
)
    requires
        table.contains_key(id),
        written is Err,
    ensures
        forwarded(table, id, written).1 == written,
        closed(forwarded(table, id, written).0, id).1 == Err::<(), LayerError>(
            LayerError::NoConnectionId(id),
        ),
        forwarded(forwarded(table, id, written).0, id, later).1 == Err::<(), LayerError>(
            LayerError::NoConnectionId(id),
        ),
{
}

/// Chunks that the channel takes leave the table as it is, and the close
/// that follows them removes the connection and nothing else.
pub proof fn lemma_close_after_data(table: Map<ConnectionId, Sender<Vec<u8>>>, id: ConnectionId)
    requires
        table.contains_key(id),
    ensures
        forwarded(table, id, Ok(())) == (table, Ok::<(), LayerError>(())),
        closed(table, id) == (table.remove(id), Ok::<(), LayerError>(())),
        !closed(table, id).0.contains_key(id),
{
}

/// The number of live connections goes up by one when a tunnel is opened
/// under a new identifier, stays when one is opened under an identifier
/// that is live, and goes down by one when a live connection is dropped.
pub proof fn lemma_connection_count(
    table: Map<ConnectionId, Sender<Vec<u8>>>,
    id: ConnectionId,
    writer: Sender<Vec<u8>>,
)
    requires
        table.dom().finite(),
    ensures
        table.insert(id, writer).len() == table.len() + (if table.contains_key(id) {
            0int
        } else {
            1int
        }),
        table.remove(id).len() == table.len() - (if table.contains_key(id) {
            1int
        } else {
            0int
        }),
{
    broadcast use vstd::map_lib::group_map_properties;
    broadcast use vstd::set_lib::group_set_properties;
    assert(table.insert(id, writer).dom() =~= table.dom().insert(id));
    assert(table.remove(id).dom() =~= table.dom().remove(id));
}

/// One change of the connection table, as the handler makes it.
pub enum TableStep {
    /// A tunnel was opened: its sender went in under the identifier.
    Opened(ConnectionId, Sender<Vec<u8>>),
    /// A chunk was handed to the connection's channel, with this result.
    Forwarded(ConnectionId, Result<(), LayerError>),
    /// A close arrived for the identifier.
    Closed(ConnectionId),
}

impl TableStep {
    /// The table after the step.
    pub open spec fn apply(self, table: Map<ConnectionId, Sender<Vec<u8>>>) -> Map<
        ConnectionId,
        Sender<Vec<u8>>,
    > {
        match self {
            TableStep::Opened(id, writer) => table.insert(id, writer),
            TableStep::Forwarded(id, written) => forwarded(table, id, written).0,
            TableStep::Closed(id) => closed(table, id).0,
        }
    }

    /// The number of tunnels that the step starts.
    pub open spec fn starts(self) -> nat {
        match self {
            TableStep::Opened(_, _) => 1,
            _ => 0,
        }
    }

    /// The number of senders that the step drops, each of which ends a
    /// tunnel: the sender that a new one replaces, the sender of a
    /// connection whose write failed, the sender of a connection that is
    /// closed.
    pub open spec fn drops(self, table: Map<ConnectionId, Sender<Vec<u8>>>) -> nat {
        match self {
            TableStep::Opened(id, _) => if table.contains_key(id) {
                1
            } else {
                0
            },
            TableStep::Forwarded(id, written) => if table.contains_key(id) && written is Err {
                1
            } else {
                0
            },
            TableStep::Closed(id) => if table.contains_key(id) {
                1
            } else {
                0
            },
        }
    }
}

/// The table after a run of steps.
pub open spec fn table_after(table: Map<ConnectionId, Sender<Vec<u8>>>, steps: Seq<TableStep>) -> Map<
    ConnectionId,
    Sender<Vec<u8>>,
>
    decreases steps.len(),
{
    if steps.len() == 0 {
        table
    } else {
        table_after(steps[0].apply(table), steps.drop_first())
    }
}

/// The number of tunnels that a run of steps starts.
pub open spec fn tunnels_started(steps: Seq<TableStep>) -> nat
    decreases steps.len(),
{
    if steps.len() == 0 {
        0
    } else {
        steps[0].starts() + tunnels_started(steps.drop_first())
    }
}

/// The number of senders that a run of steps drops.
pub open spec fn senders_dropped(table: Map<ConnectionId, Sender<Vec<u8>>>, steps: Seq<TableStep>) -> nat
    decreases steps.len(),
{
    if steps.len() == 0 {
        0
    } else {
        steps[0].drops(table) + senders_dropped(steps[0].apply(table), steps.drop_first())
    }
}

/// At every moment the table holds one connection for each tunnel that was
/// started and whose sender has not been dropped since.
pub proof fn lemma_one_connection_per_live_sender(
    table: Map<ConnectionId, Sender<Vec<u8>>>,
    steps: Seq<TableStep>,
)
    requires
        table.dom().finite(),
    ensures
        table_after(table, steps).dom().finite(),
        table_after(table, steps).len() + senders_dropped(table, steps) == table.len()
            + tunnels_started(steps),
    decreases steps.len(),
{
    if steps.len() > 0 {
        let next = steps[0].apply(table);
        match steps[0] {
            TableStep::Opened(id, writer) => {
                lemma_connection_count(table, id, writer);
            },
            TableStep::Forwarded(id, _) => {
                lemma_connection_count(table, id, table[id]);
            },
            TableStep::Closed(id) => {
                lemma_connection_count(table, id, table[id]);
            },
        }
        lemma_one_connection_per_live_sender(next, steps.drop_first());
    }
}

} // verus!
