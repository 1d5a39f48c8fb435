//! The subscriber's side of the reload bus.
//!
//! The bus fans one unit signal out to every open live-view connection. Each
//! connection runs a forwarding loop: take the next thing from the bus, pass a
//! reload notice on to the browser, and so on until the bus closes or the
//! socket fails. A connection that falls behind loses the backlog it missed,
//! never the connection: lag is its own condition, distinct from closure.
//!
//! As with the watch loop, the waiting is the caller's and the decisions are
//! made here, in [`Forwarder::step`].

use vstd::prelude::*;

verus! {

/// How many notices the bus holds for a subscriber that is behind, before the
/// subscriber starts to lose the oldest.
pub const BUS_CAPACITY: usize = 32;

/// The text frame that tells a browser to reload.
pub const RELOAD_FRAME: &'static str = "reload";

/// What a subscription yields when asked for the next item.
#[derive(Clone, Copy, Debug, PartialEq, Eq)]
pub enum Reception {
    /// A reload notice.
    Notice,
    /// The subscriber fell behind and this many notices are lost to it; the
    /// subscription is intact and goes on from the oldest notice still held.
    Lagged(u64),
    /// The bus is gone: nothing will come any more.
    Closed,
}

/// Something that happened to a connection's forwarding loop.
#[derive(Clone, Copy, Debug, PartialEq, Eq)]
pub enum ForwardEvent {
    /// The subscription yielded this.
    Received(Reception),
    /// The write of a reload frame to the socket ended; `delivered` says
    /// whether it succeeded.
    Sent { delivered: bool },
}

/// What the connection is to do next.
#[derive(Clone, Copy, Debug, PartialEq, Eq)]
pub enum ForwardAction {
    /// Ask the subscription for the next item.
    Listen,
    /// Write one [`RELOAD_FRAME`] to the socket.
    SendReload,
    /// Close the socket and drop the subscription.
    Close,
    /// The event does not belong to this phase; nothing has changed.
    OutOfTurn,
}

/// Where a forwarding loop stands.
#[derive(Clone, Copy, Debug, PartialEq, Eq)]
pub enum ForwardPhase {
    /// Waiting for the bus.
    Listening,
    /// Waiting for the socket to take a frame.
    Sending,
    /// Done.
    Closed,
}

/// The transition function of a forwarding loop.
pub open spec fn forward_step(phase: ForwardPhase, event: ForwardEvent) -> (
    ForwardPhase,
    ForwardAction,
) {
    match (phase, event) {
        (ForwardPhase::Closed, _) => (ForwardPhase::Closed, ForwardAction::Close),
        (ForwardPhase::Listening, ForwardEvent::Received(Reception::Notice)) => (
            ForwardPhase::Sending,
            ForwardAction::SendReload,
        ),
        (ForwardPhase::Listening, ForwardEvent::Received(Reception::Lagged(_))) => (
            ForwardPhase::Listening,
            ForwardAction::Listen,
        ),
        (ForwardPhase::Listening, ForwardEvent::Received(Reception::Closed)) => (
            ForwardPhase::Closed,
            ForwardAction::Close,
        ),
        (ForwardPhase::Sending, ForwardEvent::Sent { delivered }) => if delivered {
            (ForwardPhase::Listening, ForwardAction::Listen)
        } else {
            (ForwardPhase::Closed, ForwardAction::Close)
        },
        _ => (phase, ForwardAction::OutOfTurn),
    }
}

/// The forwarding loop of one live-view connection.
#[derive(Clone, Copy, Debug, PartialEq, Eq)]
pub struct Forwarder {
    /// Where the loop stands.
    pub phase: ForwardPhase,
}

impl Forwarder {
    /// The loop of a connection that has just subscribed: it listens.
    pub fn new() -> (forwarder: Forwarder)
        ensures
            forwarder.phase == ForwardPhase::Listening,
    {
        Forwarder { phase: ForwardPhase::Listening }
    }

    /// Whether the loop has ended.
    pub fn is_closed(&self) -> (closed: bool)
        ensures
            closed == (self.phase == ForwardPhase::Closed),
    {
        match self.phase {
            ForwardPhase::Closed => true,
            _ => false,
        }
    }

    /// Takes one event: moves the loop on and says what to do.
    pub fn step(&mut self, event: ForwardEvent) -> (action: ForwardAction)
        ensures
            (final(self).phase, action) == forward_step(old(self).phase, event),
    {
        match self.phase {
            ForwardPhase::Closed => ForwardAction::Close,
            ForwardPhase::Listening => match event {
                ForwardEvent::Received(Reception::Notice) => {
                    self.phase = ForwardPhase::Sending;
                    ForwardAction::SendReload
                },
                ForwardEvent::Received(Reception::Lagged(_)) => ForwardAction::Listen,
                ForwardEvent::Received(Reception::Closed) => {
                    self.phase = ForwardPhase::Closed;
                    ForwardAction::Close
                },
                ForwardEvent::Sent { .. } => ForwardAction::OutOfTurn,
            },
            ForwardPhase::Sending => match event {
                ForwardEvent::Sent { delivered } => {
                    if delivered {
                        self.phase = ForwardPhase::Listening;
                        ForwardAction::Listen
                    } else {
                        self.phase = ForwardPhase::Closed;
                        ForwardAction::Close
                    }
                },
                ForwardEvent::Received(_) => ForwardAction::OutOfTurn,
            },
        }
    }
}

/// A connection is closed exactly when the bus itself is closed or its socket
/// write fails: an open loop ends on these two events and on no other.
pub proof fn lemma_closed_exactly_on_bus_closure_or_write_failure(
    phase: ForwardPhase,
    event: ForwardEvent,
)
    requires
        phase != ForwardPhase::Closed,
    ensures
        forward_step(phase, event).0 == ForwardPhase::Closed <==> (phase == ForwardPhase::Listening
            && event == ForwardEvent::Received(Reception::Closed)) || (phase
            == ForwardPhase::Sending && event == ForwardEvent::Sent { delivered: false }),
{
}

/// A subscriber that lagged is skipped forward, not closed: whatever the
/// number of notices it lost, it goes on listening.
pub proof fn lemma_lag_keeps_the_subscription(lost: u64)
    ensures
        forward_step(ForwardPhase::Listening, ForwardEvent::Received(Reception::Lagged(lost))) == (
            ForwardPhase::Listening,
            ForwardAction::Listen,
        ),
{
}

/// One frame per notice: a reload frame is written exactly when a listening
/// connection receives a notice.
pub proof fn lemma_one_frame_per_notice(phase: ForwardPhase, event: ForwardEvent)
    ensures
        forward_step(phase, event).1 == ForwardAction::SendReload <==> phase
            == ForwardPhase::Listening && event == ForwardEvent::Received(Reception::Notice),
{
}

/// A closed loop stays closed.
pub proof fn lemma_closed_is_final(event: ForwardEvent)
    ensures
        forward_step(ForwardPhase::Closed, event) == (ForwardPhase::Closed, ForwardAction::Close),
{
}

} // verus!
