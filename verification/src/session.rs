//! The per-connection relay session: routing of the initial request, the
//! classification of inbound frames, and the lifecycle state machine
//! `Connecting -> Active -> Closing -> Terminated`. The surrounding server
//! performs the asynchronous waits and feeds each observed event through
//! `step`, carrying out the action it returns.

use vstd::prelude::*;
use hyper_tungstenite::tungstenite::Message;
use crate::exts::is_close_of;
use crate::exts::message_is_close;

verus! {

/// What to do with an incoming request: open a relay session for an upgrade
/// request, or reject anything else.
#[derive(PartialEq, Eq, Structural, Clone, Copy, Debug)]
pub enum Route {
    OpenSession,
    Reject,
}

/// Routes a request by whether it is a protocol upgrade request. Only an
/// upgrade request opens a session; every other request is rejected, and the
/// registry is never touched for it.
pub fn route(is_upgrade: bool) -> (r: Route)
    ensures
        r is OpenSession <==> is_upgrade,
        r is Reject <==> !is_upgrade,
{
    if is_upgrade {
        Route::OpenSession
    } else {
        Route::Reject
    }
}

/// The status code of the rejection response sent for a non-upgrade request:
/// not found.
pub fn rejection_status() -> (s: u16)
    ensures
        s == 404,
{
    404
}

/// An inbound frame as the relay sees it: either a payload to fan out,
/// carried unchanged, or a close frame, which is never broadcast.
pub enum Frame {
    Data(Message),
    Close,
}

/// Builds the frame for a message whose close flag is already known: a close
/// frame is dropped on the floor, anything else is carried unchanged.
pub fn frame_for(m: Message, is_close: bool) -> (r: Frame)
    ensures
        is_close <==> r is Close,
        !is_close ==> (r matches Frame::Data(p) && p == m),
{
    if is_close {
        Frame::Close
    } else {
        Frame::Data(m)
    }
}

/// Sorts an inbound message into payload or close frame, asking the protocol
/// library whether the message is a close frame: exactly a close frame comes
/// out as `Frame::Close`, and the payload of a data frame is the received
/// message itself, unchanged.
pub fn classify(m: Message) -> (r: Frame)
    ensures
        r is Close <==> is_close_of(m),
        r matches Frame::Data(p) ==> p == m && !is_close_of(m),
{
    let is_close = message_is_close(&m);
    frame_for(m, is_close)
}

/// The lifecycle states of a relay session.
#[derive(PartialEq, Eq, Structural, Clone, Copy, Debug)]
pub enum SessionState {
    /// The upgrade handshake succeeded; the session is not yet registered.
    Connecting,
    /// Registered; the inbound and outbound loops are running.
    Active,
    /// The inbound loop has exited; the session must deregister, and the
    /// outbound loop is draining on its own.
    Closing,
    /// Both loops have exited and the session holds no more resources.
    Terminated,
}

/// The events a session observes.
#[derive(PartialEq, Eq, Structural, Clone, Copy, Debug)]
pub enum SessionEvent {
    /// The bidirectional stream is in hand.
    Opened,
    /// A non-close message arrived from the peer.
    InboundData,
    /// The peer sent a close frame.
    InboundClose,
    /// The read failed or the stream ended.
    InboundEnded,
    /// The outbound forwarder loop exited (its channel closed or a write
    /// failed). This never aborts the inbound loop.
    ForwarderDone,
}

/// The actions a session carries out; each event maps to at most one.
#[derive(PartialEq, Eq, Structural, Clone, Copy, Debug)]
pub enum SessionAction {
    /// Create the outbound queue and register its producer half.
    Register,
    /// Snapshot the registry excluding self, release the lock, fan out.
    Broadcast,
    /// Remove this session's id from the registry, unconditionally.
    Deregister,
    /// Nothing to do.
    Idle,
}

/// The session transition relation: from a state and an observed event to the
/// next state and the action owed. A close frame or a failed read ends the
/// inbound loop and obliges deregistration; a close frame is never broadcast;
/// the forwarder's own exit never tears the session down while the inbound
/// loop still runs.
pub open spec fn spec_step(s: SessionState, e: SessionEvent) -> (SessionState, SessionAction) {
    match (s, e) {
        (SessionState::Connecting, SessionEvent::Opened) => (
            SessionState::Active,
            SessionAction::Register,
        ),
        (SessionState::Active, SessionEvent::InboundData) => (
            SessionState::Active,
            SessionAction::Broadcast,
        ),
        (SessionState::Active, SessionEvent::InboundClose) => (
            SessionState::Closing,
            SessionAction::Deregister,
        ),
        (SessionState::Active, SessionEvent::InboundEnded) => (
            SessionState::Closing,
            SessionAction::Deregister,
        ),
        (SessionState::Active, SessionEvent::ForwarderDone) => (
            SessionState::Active,
            SessionAction::Idle,
        ),
        (SessionState::Closing, SessionEvent::ForwarderDone) => (
            SessionState::Terminated,
            SessionAction::Idle,
        ),
        _ => (s, SessionAction::Idle),
    }
}

/// Advances the session by one observed event.
pub fn step(s: SessionState, e: SessionEvent) -> (r: (SessionState, SessionAction))
    ensures
        r == spec_step(s, e),
{
    match (s, e) {
        (SessionState::Connecting, SessionEvent::Opened) => (
            SessionState::Active,
            SessionAction::Register,
        ),
        (SessionState::Active, SessionEvent::InboundData) => (
            SessionState::Active,
            SessionAction::Broadcast,
        ),
        (SessionState::Active, SessionEvent::InboundClose) => (
            SessionState::Closing,
            SessionAction::Deregister,
        ),
        (SessionState::Active, SessionEvent::InboundEnded) => (
            SessionState::Closing,
            SessionAction::Deregister,
        ),
        (SessionState::Active, SessionEvent::ForwarderDone) => (
            SessionState::Active,
            SessionAction::Idle,
        ),
        (SessionState::Closing, SessionEvent::ForwarderDone) => (
            SessionState::Terminated,
            SessionAction::Idle,
        ),
        _ => (s, SessionAction::Idle),
    }
}

} // verus!
