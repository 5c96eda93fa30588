//! What a tunnel decides.
//!
//! A tunnel replays the bytes of one mirrored connection into a loopback
//! socket and throws away whatever the local server answers. The socket, the
//! channel and the timer belong to whoever drives the tunnel; this module
//! holds the decisions: given the tunnel's state and the event that just
//! happened, what to do next.

use std::io::ErrorKind;
use vstd::prelude::*;

verus! {

/// How long a tunnel goes on draining the local socket after the remote side
/// closed, in seconds.
pub const DRAIN_SECONDS: u64 = 1;

/// Something that happened to a tunnel while it waited.
#[derive(Debug, PartialEq, Eq)]
pub enum TunnelEvent {
    /// The channel yielded a chunk, or `None` once every sender is gone.
    Remote(Option<Vec<u8>>),
    /// A read on the local socket ended, with a number of bytes or an error.
    LocalRead(Result<usize, ErrorKind>),
    /// The local socket did not take the chunk of the last `Write` in full.
    WriteFailed,
    /// The drain timer ran out.
    DrainElapsed,
}

/// What the driver of a tunnel does next.
#[derive(Debug, PartialEq, Eq)]
pub enum TunnelAction {
    /// Write the chunk to the local socket in full, then wait again.
    Write(Vec<u8>),
    /// Wait for the next event.
    Continue,
    /// Start the drain timer with that many seconds, then wait again.
    Drain(u64),
    /// Drop the local socket and stop.
    Exit,
}

/// The state of a tunnel.
#[derive(Clone, Copy, Debug, PartialEq, Eq, Structural)]
pub struct Tunnel {
    /// The channel reported that every sender is gone.
    pub remote_closed: bool,
    /// The tunnel has stopped.
    pub exited: bool,
}

impl Tunnel {
    /// Whether the event can happen in this state: the channel is waited on
    /// only until the remote side closed, the drain timer only afterwards.
    pub open spec fn enabled(self, event: TunnelEvent) -> bool {
        match event {
            TunnelEvent::Remote(_) => !self.remote_closed,
            TunnelEvent::DrainElapsed => self.remote_closed,
            _ => true,
        }
    }

    /// Whether the event ends a tunnel that is still running.
    pub open spec fn ends(event: TunnelEvent) -> bool {
        match event {
            TunnelEvent::Remote(_) => false,
            TunnelEvent::LocalRead(Ok(count)) => count == 0,
            TunnelEvent::LocalRead(Err(kind)) => kind != ErrorKind::WouldBlock,
            TunnelEvent::WriteFailed => true,
            TunnelEvent::DrainElapsed => true,
        }
    }

    /// The state after the event.
    pub open spec fn next(self, event: TunnelEvent) -> Tunnel {
        if self.exited {
            self
        } else if Self::ends(event) {
            Tunnel { remote_closed: self.remote_closed, exited: true }
        } else if event == TunnelEvent::Remote(None) {
            Tunnel { remote_closed: true, exited: false }
        } else {
            self
        }
    }

    /// What the event asks the driver to do.
    pub open spec fn action(self, event: TunnelEvent) -> TunnelAction {
        if self.exited || Self::ends(event) {
            TunnelAction::Exit
        } else {
            match event {
                TunnelEvent::Remote(Some(chunk)) => TunnelAction::Write(chunk),
                TunnelEvent::Remote(None) => TunnelAction::Drain(DRAIN_SECONDS),
                _ => TunnelAction::Continue,
            }
        }
    }

    /// A tunnel that has just been started.
    pub fn new() -> (tunnel: Self)
        ensures
            tunnel == (Tunnel { remote_closed: false, exited: false }),
    {
        Tunnel { remote_closed: false, exited: false }
    }

    /// Whether the driver waits on the channel.
    pub fn polls_remote(&self) -> (polls: bool)
        ensures
            polls == (!self.remote_closed && !self.exited),
    {
        !self.remote_closed && !self.exited
    }

    /// Whether the driver waits on the drain timer.
    pub fn drains(&self) -> (drains: bool)
        ensures
            drains == (self.remote_closed && !self.exited),
    {
        self.remote_closed && !self.exited
    }

    /// Takes an event and says what to do next.
    pub fn step(&mut self, event: TunnelEvent) -> (action: TunnelAction)
        requires
            old(self).enabled(event),
        ensures
            *final(self) == old(self).next(event),
            action == old(self).action(event),
    {
        if self.exited {
            return TunnelAction::Exit;
        }
        match event {
            TunnelEvent::Remote(Some(chunk)) => TunnelAction::Write(chunk),
            TunnelEvent::Remote(None) => {
                self.remote_closed = true;
                TunnelAction::Drain(DRAIN_SECONDS)
            },
            TunnelEvent::LocalRead(Ok(count)) => {
                if count == 0 {
                    self.exited = true;
                    TunnelAction::Exit
                } else {
                    TunnelAction::Continue
                }
            },
            TunnelEvent::LocalRead(Err(kind)) => {
                match kind {
                    ErrorKind::WouldBlock => TunnelAction::Continue,
                    _ => {
                        self.exited = true;
                        TunnelAction::Exit
                    },
                }
            },
            TunnelEvent::WriteFailed => {
                self.exited = true;
                TunnelAction::Exit
            },
            TunnelEvent::DrainElapsed => {
                self.exited = true;
                TunnelAction::Exit
            },
        }
    }
}

/// The bytes of a chunk that the channel yields; no bytes for any other event.
pub open spec fn chunk_of(event: TunnelEvent) -> Seq<u8> {
    match event {
        TunnelEvent::Remote(Some(chunk)) => chunk@,
        _ => Seq::empty(),
    }
}

/// The bytes that an action sends to the local socket.
pub open spec fn bytes_of(action: TunnelAction) -> Seq<u8> {
    match action {
        TunnelAction::Write(chunk) => chunk@,
        _ => Seq::empty(),
    }
}

/// All the bytes that the channel yields in a run of events, in order.
pub open spec fn offered(events: Seq<TunnelEvent>) -> Seq<u8>
    decreases events.len(),
{
    if events.len() == 0 {
        Seq::empty()
    } else {
        chunk_of(events[0]) + offered(events.drop_first())
    }
}

impl Tunnel {
    /// Whether each event of the run can happen in the state that the events
    /// before it lead to.
    pub open spec fn admits(self, events: Seq<TunnelEvent>) -> bool
        decreases events.len(),
    {
        events.len() == 0 || (self.enabled(events[0]) && self.next(events[0]).admits(
            events.drop_first(),
        ))
    }

    /// The state after a run of events.
    pub open spec fn run(self, events: Seq<TunnelEvent>) -> Tunnel
        decreases events.len(),
    {
        if events.len() == 0 {
            self
        } else {
            self.next(events[0]).run(events.drop_first())
        }
    }

    /// All the bytes that a run of events sends to the local socket, in
    /// order.
    pub open spec fn written(self, events: Seq<TunnelEvent>) -> Seq<u8>
        decreases events.len(),
    {
        if events.len() == 0 {
            Seq::empty()
        } else {
            bytes_of(self.action(events[0])) + self.next(events[0]).written(events.drop_first())
        }
    }
}

/// A tunnel that has stopped stays stopped and writes nothing more.
pub proof fn lemma_exit_is_final(tunnel: Tunnel, events: Seq<TunnelEvent>)
    requires
        tunnel.exited,
    ensures
        tunnel.run(events) == tunnel,
        tunnel.written(events) == Seq::<u8>::empty(),
    decreases events.len(),
{
    if events.len() > 0 {
        lemma_exit_is_final(tunnel, events.drop_first());
    }
}

/// Once the remote side has closed, the tunnel writes nothing more to the
/// local socket, and the remote side stays closed.
pub proof fn lemma_drain_writes_nothing(tunnel: Tunnel, events: Seq<TunnelEvent>)
    requires
        tunnel.remote_closed,
        tunnel.admits(events),
    ensures
        tunnel.run(events).remote_closed,
        tunnel.written(events) == Seq::<u8>::empty(),
    decreases events.len(),
{
    if events.len() > 0 {
        lemma_drain_writes_nothing(tunnel.next(events[0]), events.drop_first());
    }
}

/// When the channel reports that every sender is gone, a running tunnel is
/// told to start the drain timer, and when that timer runs out it stops.
pub proof fn lemma_remote_close_starts_the_drain(tunnel: Tunnel)
    requires
        !tunnel.exited,
        !tunnel.remote_closed,
    ensures
        tunnel.action(TunnelEvent::Remote(None)) == TunnelAction::Drain(DRAIN_SECONDS),
        tunnel.next(TunnelEvent::Remote(None)) == (Tunnel { remote_closed: true, exited: false }),
        tunnel.next(TunnelEvent::Remote(None)).enabled(TunnelEvent::DrainElapsed),
        tunnel.next(TunnelEvent::Remote(None)).next(TunnelEvent::DrainElapsed).exited,
{
}

/// A draining tunnel stops when the drain timer runs out, and a running
/// tunnel stops when the local socket ends the stream, fails a read other
/// than by `WouldBlock`, or fails a write.
pub proof fn lemma_stops(tunnel: Tunnel, event: TunnelEvent)
    requires
        tunnel.enabled(event),
        Tunnel::ends(event),
    ensures
        tunnel.next(event).exited,
        tunnel.action(event) == TunnelAction::Exit,
{
}

/// A tunnel that is still running after a run of events has written exactly
/// the bytes that the channel yielded, in the order in which it yielded
/// them.
pub proof fn lemma_writes_what_was_offered(tunnel: Tunnel, events: Seq<TunnelEvent>)
    requires
        tunnel.admits(events),
        !tunnel.run(events).exited,
    ensures
        tunnel.written(events) == offered(events),
    decreases events.len(),
{
    if events.len() > 0 {
        if tunnel.exited {
            lemma_exit_is_final(tunnel, events);
        } else {
            let after = tunnel.next(events[0]);
            if after.exited {
                lemma_exit_is_final(after, events.drop_first());
            }
            lemma_writes_what_was_offered(after, events.drop_first());
        }
    }
}

/// Whatever ends a tunnel, and whenever, what it has written is a prefix of
/// the bytes that the channel yielded: bytes may be missing at the end, none
/// is changed, added or out of order.
pub proof fn lemma_writes_a_prefix(tunnel: Tunnel, events: Seq<TunnelEvent>)
    requires
        tunnel.admits(events),
    ensures
        tunnel.written(events).is_prefix_of(offered(events)),
    decreases events.len(),
{
    if events.len() > 0 {
        if tunnel.exited {
            lemma_exit_is_final(tunnel, events);
        } else {
            let after = tunnel.next(events[0]);
            let rest = events.drop_first();
            lemma_writes_a_prefix(after, rest);
            let head_written = bytes_of(tunnel.action(events[0]));
            let head_offered = chunk_of(events[0]);
            if Tunnel::ends(events[0]) {
                lemma_exit_is_final(after, rest);
            } else {
                assert(head_written == head_offered);
                let w = after.written(rest);
                let o = offered(rest);
                assert((head_offered + w) =~= (head_offered + o).subrange(
                    0,
                    (head_offered + w).len() as int,
                ));
            }
        }
    }
}

} // verus!
