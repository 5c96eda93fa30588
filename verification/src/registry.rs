//! The port registry: which local ports are mirrored, and where the user's
//! process really listens for each.

use crate::error::LayerError;
use crate::protocol::{Listen, Port, Protocol, SocketAddress};
use std::collections::HashMap;
use vstd::prelude::*;

verus! {

broadcast use vstd::std_specs::hash::group_hash_axioms;

/// The registry after a subscription is asked for, and what the request
/// returns: a port that is there already is refused and nothing changes.
pub open spec fn subscribed(ports: Map<Port, SocketAddress>, listen: Listen) -> (
    Map<Port, SocketAddress>,
    Result<(), LayerError>,
) {
    if ports.contains_key(listen.requested_port) {
        (ports, Err(LayerError::ListenAlreadyExists))
    } else {
        (ports.insert(listen.requested_port, listen.actual_local_addr), Ok(()))
    }
}

/// The subscription records, one at most for each requested port.
pub struct PortRegistry {
    listeners: HashMap<Port, SocketAddress>,
}

impl PortRegistry {
    /// The registry as a map from requested port to the listener's address.
    pub closed spec fn view(&self) -> Map<Port, SocketAddress> {
        self.listeners@
    }

    pub fn new() -> (registry: Self)
        ensures
            registry@ == Map::<Port, SocketAddress>::empty(),
    {
        Self { listeners: HashMap::new() }
    }

    /// Records a subscription. Fails, and changes nothing, when the port has
    /// one already.
    pub fn subscribe(&mut self, listen: Listen) -> (result: Result<(), LayerError>)
        ensures
            (final(self)@, result) == subscribed(old(self)@, listen),
    {
        if self.listeners.contains_key(&listen.requested_port) {
            Err(LayerError::ListenAlreadyExists)
        } else {
            self.listeners.insert(listen.requested_port, listen.actual_local_addr);
            Ok(())
        }
    }

    /// The record for a port, if it is subscribed.
    pub fn get(&self, port: Port) -> (found: Option<Listen>)
        ensures
            found == (if self@.contains_key(port) {
                Some(
                    Listen {
                        requested_port: port,
                        actual_local_addr: self@[port],
                        protocol: Protocol::Tcp,
                    },
                )
            } else {
                None
            }),
    {
        match self.listeners.get(&port) {
            Some(address) => Some(
                Listen {
                    requested_port: port,
                    actual_local_addr: *address,
                    protocol: Protocol::Tcp,
                },
            ),
            None => None,
        }
    }

    /// Whether the port is subscribed.
    pub fn contains(&self, port: Port) -> (present: bool)
        ensures
            present == self@.contains_key(port),
    {
        self.listeners.contains_key(&port)
    }

    /// The number of subscribed ports.
    pub fn len(&self) -> (count: usize)
        ensures
            count == self@.len(),
            self@.dom().finite(),
    {
        self.listeners.len()
    }
}

/// A second subscription of a port is refused, whatever the first one
/// returned, and leaves the registry as the first one left it.
pub proof fn lemma_second_subscription_refused(
    ports: Map<Port, SocketAddress>,
    first: Listen,
    second: Listen,
)
    requires
        first.requested_port == second.requested_port,
    ensures
        subscribed(subscribed(ports, first).0, second) == (
            subscribed(ports, first).0,
            Err::<(), LayerError>(LayerError::ListenAlreadyExists),
        ),
{
}

} // verus!
