//! The TCP mirror core of a traffic-interception layer.
//!
//! A remote agent copies the bytes of every connection that its pod accepts and
//! sends them over a control channel. This library keeps the bookkeeping that
//! replays them locally: which ports are subscribed, which connections are
//! live, what a tunnel does with each event, and which errors come back.

pub mod channel;
pub mod connection;
pub mod error;
pub mod handler;
pub mod protocol;
pub mod registry;
pub mod response_error;
pub mod tunnel;
