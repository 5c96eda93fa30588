//! The bounded channel between the handler and a tunnel.
//!
//! The channel is tokio's. Verus sees none of its insides: what this module
//! says of it is taken on trust from tokio's source.

use crate::error::LayerError;
use tokio::sync::mpsc::error::TrySendError;
use tokio::sync::mpsc::{Receiver, Sender};
use vstd::prelude::*;

verus! {

/// The sending half of tokio's bounded channel, `tokio::sync::mpsc::Sender`.
/// It is carried as an opaque value.
#[verifier::external_type_specification]
#[verifier::external_body]
#[verifier::reject_recursive_types(T)]
pub struct ExSender<T>(Sender<T>);

/// The receiving half of tokio's bounded channel,
/// `tokio::sync::mpsc::Receiver`. It is carried as an opaque value.
#[verifier::external_type_specification]
#[verifier::external_body]
#[verifier::reject_recursive_types(T)]
pub struct ExReceiver<T>(Receiver<T>);

/// The number of chunks that a tunnel's channel holds before a send fails.
pub const CHANNEL_CAPACITY: usize = 1000;

/// How an attempt to hand a chunk to a tunnel ended.
#[derive(Clone, Copy, Debug, PartialEq, Eq, Structural)]
pub enum SendOutcome {
    /// The chunk is in the channel.
    Sent,
    /// The channel holds as many chunks as its bound allows.
    Full,
    /// The receiving half is closed or dropped.
    Closed,
}

/// The bound that a channel was made with, read off its sending half. It is
/// fixed when the channel is made and is what
/// `tokio::sync::mpsc::Sender::max_capacity` returns.
pub uninterp spec fn channel_bound(writer: Sender<Vec<u8>>) -> nat;

/// Calls `tokio::sync::mpsc::channel`, which panics when the bound is zero or
/// above an eighth of `usize::MAX`. Trusted: the sending half that comes back
/// carries the bound that was asked for.
#[verifier::external_body]
pub(crate) fn open_channel(bound: usize) -> (ends: (Sender<Vec<u8>>, Receiver<Vec<u8>>))
    requires
        0 < bound <= usize::MAX / 8,
    ensures
        channel_bound(ends.0) == bound,
{
    tokio::sync::mpsc::channel(bound)
}

/// Calls `tokio::sync::mpsc::Sender::max_capacity`. Trusted: the result is
/// the bound that the channel was made with.
#[verifier::external_body]
pub(crate) fn max_capacity(writer: &Sender<Vec<u8>>) -> (bound: usize)
    ensures
        bound == channel_bound(*writer),
{
    writer.max_capacity()
}

/// Calls `tokio::sync::mpsc::Sender::try_send`, which never waits. Nothing is
/// claimed of the outcome: it depends on how far the receiver has read.
#[verifier::external_body]
pub(crate) fn try_send(writer: &Sender<Vec<u8>>, chunk: Vec<u8>) -> (outcome: SendOutcome) {
    match writer.try_send(chunk) {
        Ok(()) => SendOutcome::Sent,
        Err(TrySendError::Full(_)) => SendOutcome::Full,
        Err(TrySendError::Closed(_)) => SendOutcome::Closed,
    }
}

/// What a write reports for each outcome of the send: success when the chunk
/// is in the channel, `ChannelSend` when it is not.
pub open spec fn write_result(outcome: SendOutcome) -> Result<(), LayerError> {
    match outcome {
        SendOutcome::Sent => Ok(()),
        SendOutcome::Full => Err(LayerError::ChannelSend),
        SendOutcome::Closed => Err(LayerError::ChannelSend),
    }
}

impl SendOutcome {
    /// Turns the outcome of a send into the result of the write.
    pub fn into_result(self) -> (result: Result<(), LayerError>)
        ensures
            result == write_result(self),
    {
        match self {
            SendOutcome::Sent => Ok(()),
            SendOutcome::Full => Err(LayerError::ChannelSend),
            SendOutcome::Closed => Err(LayerError::ChannelSend),
        }
    }
}

} // verus!
