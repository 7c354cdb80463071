//! The session state machine: routing by the leading byte, the bounded-read
//! outcomes, and the accept loop's directive.

use quido_node::session::{
    accept_directive, classify_first_byte, step, AcceptOutcome, LoopDirective, Route,
    SessionAction, SessionEvent, SessionState, SniffOutcome, SNIFF_TIMEOUT_MS, TUNNEL_MARKER,
};

#[test]
fn the_marker_byte_selects_the_tunnel_path() {
    assert_eq!(TUNNEL_MARKER, 0x01);
    assert_eq!(classify_first_byte(0x01), Route::Tunnel);
    let (state, action) = step(
        SessionState::Dispatching,
        SessionEvent::SniffFinished(SniffOutcome::Received(0x01)),
    );
    assert_eq!(state, SessionState::Handling { route: Route::Tunnel });
    assert_eq!(action, SessionAction::InvokeTunnelHandler);
}

#[test]
fn every_other_byte_selects_the_http_path() {
    for b in 0u16..=255 {
        let b = b as u8;
        if b == TUNNEL_MARKER {
            continue;
        }
        assert_eq!(classify_first_byte(b), Route::Http);
        let (state, action) = step(
            SessionState::Dispatching,
            SessionEvent::SniffFinished(SniffOutcome::Received(b)),
        );
        assert_eq!(state, SessionState::Handling { route: Route::Http });
        assert_eq!(action, SessionAction::InvokeHttpHandler { first: b });
    }
}

#[test]
fn sniff_timeout_closes_without_any_handler() {
    assert_eq!(SNIFF_TIMEOUT_MS, 5000);
    let (state, action) = step(
        SessionState::Dispatching,
        SessionEvent::SniffFinished(SniffOutcome::TimedOut),
    );
    assert_eq!(state, SessionState::Closed);
    assert_eq!(action, SessionAction::WarnAndClose);
}

#[test]
fn failed_read_closes_without_any_handler() {
    let (state, action) = step(
        SessionState::Dispatching,
        SessionEvent::SniffFinished(SniffOutcome::Failed),
    );
    assert_eq!(state, SessionState::Closed);
    assert_eq!(action, SessionAction::WarnAndClose);
}

#[test]
fn a_session_walks_from_accept_to_close() {
    let (s, a) = step(SessionState::Accepted, SessionEvent::Spawned);
    assert_eq!(s, SessionState::TlsHandshaking);
    assert_eq!(a, SessionAction::DriveHandshake);
    let (s, a) = step(s, SessionEvent::HandshakeSucceeded);
    assert_eq!(s, SessionState::TlsEstablished);
    assert_eq!(a, SessionAction::NoteEstablished);
    let (s, a) = step(s, SessionEvent::DispatchStarted);
    assert_eq!(s, SessionState::Dispatching);
    assert_eq!(a, SessionAction::AwaitFirstByte);
    let (s, a) = step(s, SessionEvent::SniffFinished(SniffOutcome::Received(b'G')));
    assert_eq!(s, SessionState::Handling { route: Route::Http });
    assert_eq!(a, SessionAction::InvokeHttpHandler { first: b'G' });
    let (s, a) = step(s, SessionEvent::HandlerFinished);
    assert_eq!(s, SessionState::Closed);
    assert_eq!(a, SessionAction::Finish);
}

#[test]
fn handshake_failure_ends_only_its_own_session() {
    let (s, a) = step(SessionState::TlsHandshaking, SessionEvent::HandshakeFailed);
    assert_eq!(s, SessionState::Closed);
    assert_eq!(a, SessionAction::WarnAndClose);
    // The loop keeps accepting: its directive never looks at session states.
    assert_eq!(accept_directive(AcceptOutcome::Accepted), LoopDirective::SpawnSession);
}

#[test]
fn closed_sessions_ignore_every_event() {
    let events = [
        SessionEvent::Spawned,
        SessionEvent::HandshakeSucceeded,
        SessionEvent::HandshakeFailed,
        SessionEvent::DispatchStarted,
        SessionEvent::SniffFinished(SniffOutcome::Received(0x01)),
        SessionEvent::SniffFinished(SniffOutcome::TimedOut),
        SessionEvent::HandlerFinished,
    ];
    for e in events {
        let (s, a) = step(SessionState::Closed, e);
        assert_eq!(s, SessionState::Closed);
        assert_eq!(a, SessionAction::Ignore);
    }
}

#[test]
fn accept_failure_aborts_the_serve_loop() {
    assert_eq!(accept_directive(AcceptOutcome::Failed), LoopDirective::AbortServe);
}
