//! The session protocol: the frame taxonomy and the state machine governing
//! the persistent connection between one agent and the server.
//!
//! The receiver dispatches each inbound frame through [`handle_frame`];
//! reflex frames go back onto the agent's shared queue, so the sender stays
//! the transport's single writer. Lifecycle transitions outside frame
//! handling go through [`session_step`].

use vstd::prelude::*;

use crate::errors::SyncError;
use crate::text::wire_trim;
use crate::text::normalize_wire_text;

verus! {

/// One unit of the session protocol.
#[derive(Clone, Debug)]
pub enum Frame {
    Ping(Vec<u8>),
    Pong(Vec<u8>),
    Close,
    Text(String),
}

/// One inbound unit as the transport hands it to the receiver: a protocol
/// frame, or a message kind outside the protocol.
#[derive(Clone, Debug)]
pub enum WireMessage {
    Frame(Frame),
    Unsupported,
}

/// The states of one agent's logical connection.
#[derive(Clone, Copy, Debug, PartialEq, Eq, Structural)]
pub enum SessionState {
    Connecting,
    Registered,
    Streaming,
    Closing,
    Closed,
}

/// A lifecycle event outside frame handling.
#[derive(Clone, Copy, Debug, PartialEq, Eq, Structural)]
pub enum SessionEvent {
    HandshakeCompleted,
    HandshakeFailed,
    RegistrationAccepted,
    RegistrationRejected,
    TransportFailed,
    TornDown,
    Reconnect,
}

/// The state after `event` arrives in state `state`: the handshake moves
/// `Connecting` to `Registered`, registration moves `Registered` to
/// `Streaming`, a transport failure anywhere starts the teardown, teardown
/// ends in `Closed`, and the supervisor re-enters `Connecting` from there.
/// An event that does not belong to the state changes nothing.
pub open spec fn next_state(state: SessionState, event: SessionEvent) -> SessionState {
    match (state, event) {
        (SessionState::Connecting, SessionEvent::HandshakeCompleted) => SessionState::Registered,
        (SessionState::Connecting, SessionEvent::HandshakeFailed) => SessionState::Closed,
        (SessionState::Registered, SessionEvent::RegistrationAccepted) => SessionState::Streaming,
        (SessionState::Registered, SessionEvent::RegistrationRejected) => SessionState::Closed,
        (_, SessionEvent::TransportFailed) => SessionState::Closing,
        (SessionState::Closing, SessionEvent::TornDown) => SessionState::Closed,
        (SessionState::Closed, SessionEvent::Reconnect) => SessionState::Connecting,
        _ => state,
    }
}

/// The lifecycle transition the supervisor takes on `event` in `state`.
pub fn session_step(state: SessionState, event: SessionEvent) -> (r: SessionState)
    ensures
        r == next_state(state, event),
{
    match (state, event) {
        (SessionState::Connecting, SessionEvent::HandshakeCompleted) => SessionState::Registered,
        (SessionState::Connecting, SessionEvent::HandshakeFailed) => SessionState::Closed,
        (SessionState::Registered, SessionEvent::RegistrationAccepted) => SessionState::Streaming,
        (SessionState::Registered, SessionEvent::RegistrationRejected) => SessionState::Closed,
        (_, SessionEvent::TransportFailed) => SessionState::Closing,
        (SessionState::Closing, SessionEvent::TornDown) => SessionState::Closed,
        (SessionState::Closed, SessionEvent::Reconnect) => SessionState::Connecting,
        _ => state,
    }
}

/// What the receiver does with one inbound frame: the state it moves to, the
/// one reflex frame it enqueues for the sender, and the value it writes to
/// the local clipboard.
#[derive(Debug)]
pub struct FrameStep {
    pub state: SessionState,
    pub emit: Option<Frame>,
    pub write: Option<String>,
}

/// Dispatches one inbound message while streaming.
///
/// A `Ping` is answered by exactly one `Pong` with the same payload and a
/// `Pong` by exactly one `Ping` with the same payload, so either peer may
/// probe liveness. A `Close` is acknowledged by exactly one `Close` and
/// moves the session to `Closing`. A `Text` value is stripped of wire
/// artifacts and written to the clipboard, or discarded when nothing is
/// left. Any other message kind is a fatal protocol violation.
pub fn handle_frame(state: SessionState, msg: WireMessage) -> (r: Result<FrameStep, SyncError>)
    requires
        state == SessionState::Streaming,
    ensures
        r is Err <==> msg is Unsupported,
        r == Err::<FrameStep, SyncError>(SyncError::ProtocolViolation) <==> msg is Unsupported,
        msg matches WireMessage::Frame(f) ==> match f {
            Frame::Ping(d) => {
                &&& r matches Ok(step)
                &&& step.state == SessionState::Streaming
                &&& step.emit matches Some(e) && (e matches Frame::Pong(p) && p@ == d@)
                &&& step.write is None
            },
            Frame::Pong(d) => {
                &&& r matches Ok(step)
                &&& step.state == SessionState::Streaming
                &&& step.emit matches Some(e) && (e matches Frame::Ping(p) && p@ == d@)
                &&& step.write is None
            },
            Frame::Close => {
                &&& r matches Ok(step)
                &&& step.state == SessionState::Closing
                &&& step.emit matches Some(e) && e is Close
                &&& step.write is None
            },
            Frame::Text(v) => {
                &&& r matches Ok(step)
                &&& step.state == SessionState::Streaming
                &&& step.emit is None
                &&& (step.write matches Some(w) ==> w@ == wire_trim(v@) && w@.len() > 0)
                &&& (step.write is None <==> wire_trim(v@).len() == 0)
            },
        },
{
    match msg {
        WireMessage::Frame(f) => {
            match f {
                Frame::Ping(d) => Ok(
                    FrameStep {
                        state: SessionState::Streaming,
                        emit: Some(Frame::Pong(d)),
                        write: None,
                    },
                ),
                Frame::Pong(d) => Ok(
                    FrameStep {
                        state: SessionState::Streaming,
                        emit: Some(Frame::Ping(d)),
                        write: None,
                    },
                ),
                Frame::Close => Ok(
                    FrameStep {
                        state: SessionState::Closing,
                        emit: Some(Frame::Close),
                        write: None,
                    },
                ),
                Frame::Text(v) => Ok(
                    FrameStep {
                        state: SessionState::Streaming,
                        emit: None,
                        write: normalize_wire_text(v.as_str()),
                    },
                ),
            }
        },
        WireMessage::Unsupported => Err(SyncError::ProtocolViolation),
    }
}

} // verus!
