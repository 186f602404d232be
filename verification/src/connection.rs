//! What happens on a connection, as the state machines of both ends see it.

use vstd::prelude::*;
use crate::message::{Message, MessageView};

verus! {

/// Where a connection is in its life. It never goes back.
#[derive(Debug, Clone, Copy, PartialEq, Eq, Structural)]
pub enum Phase {
    /// The handshake is not done yet.
    Greeting,
    /// The handshake is done and messages flow.
    Ready,
    /// The connection is over and what it held is released.
    Closed,
}

/// The place of a phase in the order in which a connection goes through
/// the phases.
pub open spec fn phase_rank(phase: Phase) -> int {
    match phase {
        Phase::Greeting => 0,
        Phase::Ready => 1,
        Phase::Closed => 2,
    }
}

/// One thing that happened on a connection.
#[derive(Debug, Clone, PartialEq, Eq)]
pub enum ConnectionEvent {
    /// A frame arrived and held this message.
    Frame(Message),
    /// The outbound queue of the connection handed out this message.
    Outbound(Message),
    /// The other side closed the stream.
    Closed,
    /// Reading failed: the transport broke, or a frame was too large or
    /// did not hold a message.
    ReceiveFailed,
    /// Writing failed.
    SendFailed,
    /// The controlling side asked every connection to end.
    Cancelled,
}

/// A `ConnectionEvent` as a mathematical value.
pub enum ConnectionEventView {
    Frame(MessageView),
    Outbound(MessageView),
    Closed,
    ReceiveFailed,
    SendFailed,
    Cancelled,
}

impl View for ConnectionEvent {
    type V = ConnectionEventView;

    open spec fn view(&self) -> ConnectionEventView {
        match *self {
            ConnectionEvent::Frame(m) => ConnectionEventView::Frame(m@),
            ConnectionEvent::Outbound(m) => ConnectionEventView::Outbound(m@),
            ConnectionEvent::Closed => ConnectionEventView::Closed,
            ConnectionEvent::ReceiveFailed => ConnectionEventView::ReceiveFailed,
            ConnectionEvent::SendFailed => ConnectionEventView::SendFailed,
            ConnectionEvent::Cancelled => ConnectionEventView::Cancelled,
        }
    }
}

/// Why a connection handler ends with an error.
#[derive(Debug, Clone, Copy, PartialEq, Eq, Structural)]
pub enum SessionError {
    /// Reading or writing failed.
    Transport,
    /// The stream ended before the handshake was answered.
    ClosedBeforeWelcome,
}

} // verus!
