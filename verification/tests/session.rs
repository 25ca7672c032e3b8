use record_sync::registry::Registry;
use record_sync::session::{step, SessionAction, SessionEvent, SessionState};

#[test]
fn lifecycle_walks_connecting_to_closed() {
    let (s, a) = step(SessionState::Connecting, SessionEvent::HandshakeComplete);
    assert_eq!(s, SessionState::Active);
    assert_eq!(a, SessionAction::Register);

    let (s, a) = step(s, SessionEvent::FrameArrived);
    assert_eq!(s, SessionState::Active);
    assert_eq!(a, SessionAction::HandleFrame);

    let (s, a) = step(s, SessionEvent::EndOfStream);
    assert_eq!(s, SessionState::Closing);
    assert_eq!(a, SessionAction::Unregister);

    let (s, a) = step(s, SessionEvent::CleanupDone);
    assert_eq!(s, SessionState::Closed);
    assert_eq!(a, SessionAction::Ignore);
}

#[test]
fn transport_error_also_closes() {
    let (s, a) = step(SessionState::Active, SessionEvent::TransportError);
    assert_eq!(s, SessionState::Closing);
    assert_eq!(a, SessionAction::Unregister);
}

#[test]
fn closed_is_terminal() {
    for e in [
        SessionEvent::HandshakeComplete,
        SessionEvent::FrameArrived,
        SessionEvent::EndOfStream,
        SessionEvent::TransportError,
        SessionEvent::CleanupDone,
    ] {
        let (s, a) = step(SessionState::Closed, e);
        assert_eq!(s, SessionState::Closed);
        assert_eq!(a, SessionAction::Ignore);
    }
}

#[test]
fn out_of_place_events_change_nothing() {
    let (s, a) = step(SessionState::Connecting, SessionEvent::FrameArrived);
    assert_eq!(s, SessionState::Connecting);
    assert_eq!(a, SessionAction::Ignore);

    let (s, a) = step(SessionState::Closing, SessionEvent::FrameArrived);
    assert_eq!(s, SessionState::Closing);
    assert_eq!(a, SessionAction::Ignore);
}

#[test]
fn registry_identities_are_never_reused() {
    let mut registry = Registry::new();
    let a = registry.register();
    let b = registry.register();
    assert_eq!(a, 1);
    assert_eq!(b, 2);
    assert!(registry.is_registered(a));
    registry.unregister(a);
    assert!(!registry.is_registered(a));
    let c = registry.register();
    assert_ne!(c, a);
    assert_eq!(c, 3);
    assert_eq!(registry.count(), 2);
    assert_eq!(registry.client_ids().as_slice(), &[b, c]);
}
