//! The errors of the mirror core.

use crate::protocol::{ConnectionId, Port};
use std::io::ErrorKind;
use vstd::prelude::*;

verus! {

/// The kinds of I/O error of the standard library, `std::io::ErrorKind`.
/// Verus reads the enum as the standard library declares it.
#[verifier::external_type_specification]
pub struct ExErrorKind(ErrorKind);

/// Why an operation of the mirror core failed.
///
/// Every kind but `Transport` ends one connection or one subscription and
/// leaves the core in working order.
#[derive(Clone, Copy, Debug, PartialEq, Eq)]
pub enum LayerError {
    /// The port is subscribed already.
    ListenAlreadyExists,
    /// A connection arrived for a port that nobody subscribed.
    NoListener(Port),
    /// Data or a close arrived for a connection that the table does not hold.
    NoConnectionId(ConnectionId),
    /// The tunnel's channel is full, or its receiver is gone.
    ChannelSend,
    /// The loopback socket could not be opened; the kind of the failure.
    LocalConnect(ErrorKind),
    /// The control channel refused a message; the kind of the failure.
    Transport(ErrorKind),
}

impl LayerError {
    /// Whether the error ends the whole session. Only a failure of the
    /// control channel does; every other error is recovered from locally.
    pub fn is_fatal(&self) -> (fatal: bool)
        ensures
            fatal == (*self is Transport),
    {
        match self {
            LayerError::Transport(_) => true,
            _ => false,
        }
    }
}

} // verus!
