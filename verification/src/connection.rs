//! Live mirrored connections and the table that holds them.

use crate::channel::{channel_bound, max_capacity, try_send};
use crate::error::LayerError;
use crate::protocol::ConnectionId;
use std::collections::HashMap;
use tokio::sync::mpsc::Sender;
use vstd::prelude::*;

verus! {

broadcast use vstd::std_specs::hash::group_hash_axioms;

/// A live mirrored connection: its identifier and the sending half of the
/// channel that feeds its tunnel. Dropping the connection drops the sender,
/// which is the one signal that ends the tunnel.
pub struct Connection {
    id: ConnectionId,
    writer: Sender<Vec<u8>>,
}

impl Connection {
    /// The identifier that the agent gave to the connection.
    pub closed spec fn id(&self) -> ConnectionId {
        self.id
    }

    /// The sending half of the tunnel's channel.
    pub closed spec fn writer(&self) -> Sender<Vec<u8>> {
        self.writer
    }

    pub fn new(id: ConnectionId, writer: Sender<Vec<u8>>) -> (connection: Self)
        ensures
            connection.id() == id,
            connection.writer() == writer,
    {
        Self { id, writer }
    }

    /// The connection's identifier.
    pub fn connection_id(&self) -> (id: ConnectionId)
        ensures
            id == self.id(),
    {
        self.id
    }

    /// The bound of the channel behind the connection.
    pub fn capacity(&self) -> (bound: usize)
        ensures
            bound == channel_bound(self.writer()),
    {
        max_capacity(&self.writer)
    }

    /// Hands a chunk to the tunnel, whatever its length, without waiting.
    /// The write succeeds when the chunk is in the channel and fails with
    /// `ChannelSend` when the channel is full or the tunnel is gone; which
    /// of the two happens is the channel's to say.
    pub fn write(&mut self, data: Vec<u8>) -> (result: Result<(), LayerError>)
        ensures
            *final(self) == *old(self),
            result == Ok::<(), LayerError>(()) || result == Err::<(), LayerError>(
                LayerError::ChannelSend,
            ),
    {
        try_send(&self.writer, data).into_result()
    }
}

/// Two connections are the same connection when their identifiers agree.
impl PartialEq for Connection {
    fn eq(&self, other: &Connection) -> (equal: bool) {
        self.id == other.id
    }
}

impl vstd::std_specs::cmp::PartialEqSpecImpl for Connection {
    open spec fn obeys_eq_spec() -> bool {
        true
    }

    open spec fn eq_spec(&self, other: &Connection) -> bool {
        self.id() == other.id()
    }
}

impl Eq for Connection {

}

/// The connection table: the sender of each live connection under the
/// connection's identifier. An identifier is in the table exactly as long as
/// its sender is alive.
pub struct ConnectionTable {
    writers: HashMap<ConnectionId, Sender<Vec<u8>>>,
}

impl ConnectionTable {
    /// The table as a map from identifier to sender.
    pub closed spec fn view(&self) -> Map<ConnectionId, Sender<Vec<u8>>> {
        self.writers@
    }

    pub fn new() -> (table: Self)
        ensures
            table@ == Map::<ConnectionId, Sender<Vec<u8>>>::empty(),
    {
        Self { writers: HashMap::new() }
    }

    /// Puts a connection into the table. An entry that was there under the
    /// same identifier is replaced, and its sender dropped.
    pub fn insert(&mut self, connection: Connection)
        ensures
            final(self)@ == old(self)@.insert(connection.id(), connection.writer()),
    {
        let Connection { id, writer } = connection;
        self.writers.insert(id, writer);
    }

    /// Removes the entry for `id` and hands it out, sender and all.
    pub fn take(&mut self, id: ConnectionId) -> (taken: Option<Connection>)
        ensures
            final(self)@ == old(self)@.remove(id),
            match taken {
                Some(connection) => old(self)@.contains_key(id) && connection.id() == id
                    && connection.writer() == old(self)@[id],
                None => !old(self)@.contains_key(id),
            },
    {
        match self.writers.remove(&id) {
            Some(writer) => Some(Connection { id, writer }),
            None => None,
        }
    }

    /// Puts back an entry that `take` handed out.
    pub fn put_back(&mut self, connection: Connection)
        ensures
            final(self)@ == old(self)@.insert(connection.id(), connection.writer()),
    {
        self.insert(connection)
    }

    /// Removes the entry for `id`, dropping its sender, and says whether
    /// there was one.
    pub fn remove(&mut self, id: ConnectionId) -> (present: bool)
        ensures
            present == old(self)@.contains_key(id),
            final(self)@ == old(self)@.remove(id),
    {
        self.writers.remove(&id).is_some()
    }

    /// Whether the table holds an entry for `id`.
    pub fn contains(&self, id: ConnectionId) -> (present: bool)
        ensures
            present == self@.contains_key(id),
    {
        self.writers.contains_key(&id)
    }

    /// The number of live connections.
    pub fn len(&self) -> (count: usize)
        ensures
            count == self@.len(),
            self@.dom().finite(),
    {
        self.writers.len()
    }
}

/// Taking an entry out and putting it back leaves the table as it was.
pub proof fn lemma_take_put_back(
    table: Map<ConnectionId, Sender<Vec<u8>>>,
    id: ConnectionId,
)
    requires
        table.contains_key(id),
    ensures
        table.remove(id).insert(id, table[id]) == table,
{
    assert(table.remove(id).insert(id, table[id]) =~= table);
}

} // verus!
