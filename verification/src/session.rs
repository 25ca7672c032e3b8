//! The per-connection lifecycle. Each connection walks
//! `Connecting -> Active -> Closing -> Closed`; the step function decides
//! the next state and which registry action the surrounding loop owes:
//! register on a completed handshake, handle each inbound frame while
//! active, unregister once the inbound read ends, nothing once closed.
//! `Closed` is terminal: a stale identity is never resurrected.

use vstd::prelude::*;

verus! {

/// Where one connection stands in its lifecycle.
#[derive(Clone, Copy, Debug, PartialEq, Eq, Structural)]
pub enum SessionState {
    /// The transport handshake has not completed yet.
    Connecting,
    /// Registered; inbound frames are being read and handled.
    Active,
    /// The inbound read ended; cleanup is owed.
    Closing,
    /// Unregistered; terminal.
    Closed,
}

/// What the transport reports about one connection.
#[derive(Clone, Copy, Debug, PartialEq, Eq, Structural)]
pub enum SessionEvent {
    /// The handshake succeeded and the duplex channel is up.
    HandshakeComplete,
    /// One inbound frame arrived.
    FrameArrived,
    /// The inbound read yielded end-of-stream.
    EndOfStream,
    /// The inbound read failed.
    TransportError,
    /// The registry entry has been removed and the outbound queue closed.
    CleanupDone,
}

/// What the surrounding loop must do after a step.
#[derive(Clone, Copy, Debug, PartialEq, Eq, Structural)]
pub enum SessionAction {
    /// Assign a fresh identity, register it, start the outbound pump.
    Register,
    /// Decode the frame and hand it to the protocol handler.
    HandleFrame,
    /// Remove the registry entry, closing the outbound queue.
    Unregister,
    /// Nothing.
    Ignore,
}

/// The transition table of the session lifecycle.
pub open spec fn spec_step(s: SessionState, e: SessionEvent) -> (SessionState, SessionAction) {
    match (s, e) {
        (SessionState::Connecting, SessionEvent::HandshakeComplete) => (
            SessionState::Active,
            SessionAction::Register,
        ),
        (SessionState::Active, SessionEvent::FrameArrived) => (
            SessionState::Active,
            SessionAction::HandleFrame,
        ),
        (SessionState::Active, SessionEvent::EndOfStream) => (
            SessionState::Closing,
            SessionAction::Unregister,
        ),
        (SessionState::Active, SessionEvent::TransportError) => (
            SessionState::Closing,
            SessionAction::Unregister,
        ),
        (SessionState::Closing, SessionEvent::CleanupDone) => (
            SessionState::Closed,
            SessionAction::Ignore,
        ),
        _ => (s, SessionAction::Ignore),
    }
}

/// Take one lifecycle step. An event that does not belong to the current
/// state changes nothing and asks for nothing.
pub fn step(s: SessionState, e: SessionEvent) -> (r: (SessionState, SessionAction))
    ensures
        r == spec_step(s, e),
{
    match (s, e) {
        (SessionState::Connecting, SessionEvent::HandshakeComplete) => (
            SessionState::Active,
            SessionAction::Register,
        ),
        (SessionState::Active, SessionEvent::FrameArrived) => (
            SessionState::Active,
            SessionAction::HandleFrame,
        ),
        (SessionState::Active, SessionEvent::EndOfStream) => (
            SessionState::Closing,
            SessionAction::Unregister,
        ),
        (SessionState::Active, SessionEvent::TransportError) => (
            SessionState::Closing,
            SessionAction::Unregister,
        ),
        (SessionState::Closing, SessionEvent::CleanupDone) => (
            SessionState::Closed,
            SessionAction::Ignore,
        ),
        _ => (s, SessionAction::Ignore),
    }
}

/// `Closed` is irreversible: no event leads out of it, and nothing more is
/// ever done for the connection.
pub proof fn lemma_closed_is_terminal(e: SessionEvent)
    ensures
        spec_step(SessionState::Closed, e).0 == SessionState::Closed,
        spec_step(SessionState::Closed, e).1 == SessionAction::Ignore,
{
}

} // verus!
