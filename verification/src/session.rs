//! Per-connection session state machine and the accept loop's decision rule.
//!
//! A session is one accepted connection. Its task first drives the TLS
//! handshake, then reads exactly one leading byte under a bounded wait, and
//! routes the rest of the decrypted stream by that byte: the reserved marker
//! selects the raw-tunnel handler (marker consumed), any other byte selects
//! the HTTP/1.1 handler (the byte must be handed to it, since HTTP needs every
//! byte of the request line). A timeout or read failure closes the connection
//! without invoking any handler. All of this is connection-scoped: a failure
//! ends only its own session.

use vstd::prelude::*;

verus! {

/// The reserved first byte that selects the raw-tunnel path.
pub const TUNNEL_MARKER: u8 = 0x01;

/// The bounded wait, in milliseconds, for the leading byte of a freshly
/// established session.
pub const SNIFF_TIMEOUT_MS: u64 = 5000;

/// The two protocol handlers a decrypted stream can be routed to.
#[derive(Clone, Copy, PartialEq, Eq, Structural, Debug)]
pub enum Route {
    /// Opaque tunneled byte stream; the marker byte is already consumed.
    Tunnel,
    /// HTTP/1.1; the sniffed byte belongs to the request line.
    Http,
}

/// What the bounded read of the leading byte produced.
#[derive(Clone, Copy, PartialEq, Eq, Structural, Debug)]
pub enum SniffOutcome {
    /// Exactly one byte arrived in time.
    Received(u8),
    /// No byte arrived within the bounded wait.
    TimedOut,
    /// The read completed with an error or with no byte.
    Failed,
}

/// The states one connection session moves through, from acceptance to the
/// destruction of its unit of work.
#[derive(Clone, Copy, PartialEq, Eq, Structural, Debug)]
pub enum SessionState {
    Accepted,
    TlsHandshaking,
    TlsEstablished,
    Dispatching,
    Handling { route: Route },
    Closed,
}

/// Connection-scoped occurrences that advance a session.
#[derive(Clone, Copy, PartialEq, Eq, Structural, Debug)]
pub enum SessionEvent {
    /// The session's unit of work has started running.
    Spawned,
    HandshakeSucceeded,
    HandshakeFailed,
    /// The dispatcher is about to read the leading byte.
    DispatchStarted,
    SniffFinished(SniffOutcome),
    /// The selected handler returned, successfully or not.
    HandlerFinished,
}

/// What the session's driver must do next. Every action is confined to the
/// one connection the session belongs to.
#[derive(Clone, Copy, PartialEq, Eq, Structural, Debug)]
pub enum SessionAction {
    /// Perform the TLS handshake on the raw stream.
    DriveHandshake,
    /// Record (at informational level) that TLS is established.
    NoteEstablished,
    /// Read one byte from the decrypted stream, waiting at most
    /// `SNIFF_TIMEOUT_MS` milliseconds.
    AwaitFirstByte,
    /// Hand the stream to the raw-tunnel handler; the marker byte stays
    /// consumed.
    InvokeTunnelHandler,
    /// Hand the stream to the HTTP/1.1 handler together with the sniffed
    /// byte, which the handler must observe first.
    InvokeHttpHandler { first: u8 },
    /// Log a warning with the peer address and close the connection.
    WarnAndClose,
    /// Nothing remains to do; the unit of work ends.
    Finish,
    /// The event does not belong to this state; nothing happens.
    Ignore,
}

/// Which handler a given leading byte selects.
pub open spec fn spec_route_of(first: u8) -> Route {
    if first == TUNNEL_MARKER {
        Route::Tunnel
    } else {
        Route::Http
    }
}

/// The session transition relation: next state and required action for a
/// state and an event. Events that do not belong to the state leave it
/// unchanged and demand nothing.
pub open spec fn spec_step(state: SessionState, event: SessionEvent) -> (SessionState, SessionAction) {
    match (state, event) {
        (SessionState::Accepted, SessionEvent::Spawned) => (
            SessionState::TlsHandshaking,
            SessionAction::DriveHandshake,
        ),
        (SessionState::TlsHandshaking, SessionEvent::HandshakeSucceeded) => (
            SessionState::TlsEstablished,
            SessionAction::NoteEstablished,
        ),
        (SessionState::TlsHandshaking, SessionEvent::HandshakeFailed) => (
            SessionState::Closed,
            SessionAction::WarnAndClose,
        ),
        (SessionState::TlsEstablished, SessionEvent::DispatchStarted) => (
            SessionState::Dispatching,
            SessionAction::AwaitFirstByte,
        ),
        (SessionState::Dispatching, SessionEvent::SniffFinished(outcome)) => match outcome {
            SniffOutcome::Received(b) => if b == TUNNEL_MARKER {
                ((SessionState::Handling { route: Route::Tunnel }), SessionAction::InvokeTunnelHandler)
            } else {
                (
                    (SessionState::Handling { route: Route::Http }),
                    (SessionAction::InvokeHttpHandler { first: b }),
                )
            },
            SniffOutcome::TimedOut => (SessionState::Closed, SessionAction::WarnAndClose),
            SniffOutcome::Failed => (SessionState::Closed, SessionAction::WarnAndClose),
        },
        (SessionState::Handling { route: _ }, SessionEvent::HandlerFinished) => (
            SessionState::Closed,
            SessionAction::Finish,
        ),
        (s, _) => (s, SessionAction::Ignore),
    }
}

/// Classify a leading byte: the reserved marker selects the tunnel path,
/// every other byte value selects the HTTP path.
pub fn classify_first_byte(first: u8) -> (r: Route)
    ensures
        r == spec_route_of(first),
        r == Route::Tunnel <==> first == TUNNEL_MARKER,
{
    if first == TUNNEL_MARKER {
        Route::Tunnel
    } else {
        Route::Http
    }
}

/// Advance one session by one event.
pub fn step(state: SessionState, event: SessionEvent) -> (r: (SessionState, SessionAction))
    ensures
        r == spec_step(state, event),
{
    match (state, event) {
        (SessionState::Accepted, SessionEvent::Spawned) => (
            SessionState::TlsHandshaking,
            SessionAction::DriveHandshake,
        ),
        (SessionState::TlsHandshaking, SessionEvent::HandshakeSucceeded) => (
            SessionState::TlsEstablished,
            SessionAction::NoteEstablished,
        ),
        (SessionState::TlsHandshaking, SessionEvent::HandshakeFailed) => (
            SessionState::Closed,
            SessionAction::WarnAndClose,
        ),
        (SessionState::TlsEstablished, SessionEvent::DispatchStarted) => (
            SessionState::Dispatching,
            SessionAction::AwaitFirstByte,
        ),
        (SessionState::Dispatching, SessionEvent::SniffFinished(outcome)) => match outcome {
            SniffOutcome::Received(b) => if b == TUNNEL_MARKER {
                ((SessionState::Handling { route: Route::Tunnel }), SessionAction::InvokeTunnelHandler)
            } else {
                (
                    (SessionState::Handling { route: Route::Http }),
                    (SessionAction::InvokeHttpHandler { first: b }),
                )
            },
            SniffOutcome::TimedOut => (SessionState::Closed, SessionAction::WarnAndClose),
            SniffOutcome::Failed => (SessionState::Closed, SessionAction::WarnAndClose),
        },
        (SessionState::Handling { route: _ }, SessionEvent::HandlerFinished) => (
            SessionState::Closed,
            SessionAction::Finish,
        ),
        (s, _) => (s, SessionAction::Ignore),
    }
}

/// What the accept loop saw when it tried to accept one raw connection.
#[derive(Clone, Copy, PartialEq, Eq, Structural, Debug)]
pub enum AcceptOutcome {
    /// A raw connection and its peer address were obtained.
    Accepted,
    /// Accepting failed (for example, resource exhaustion).
    Failed,
}

/// What the accept loop does next.
#[derive(Clone, Copy, PartialEq, Eq, Structural, Debug)]
pub enum LoopDirective {
    /// Spawn one independent unit of work for the new connection and loop
    /// again at once, without waiting for any prior unit of work.
    SpawnSession,
    /// Propagate the accept error out of the serve loop; this stops the
    /// whole server.
    AbortServe,
}

/// Decide the accept loop's next move. A successful accept always spawns a
/// session; a failure to accept is fatal to the serve loop. No session event
/// is an input here: what happens inside one connection cannot steer the
/// loop.
pub fn accept_directive(outcome: AcceptOutcome) -> (r: LoopDirective)
    ensures
        outcome == AcceptOutcome::Accepted <==> r == LoopDirective::SpawnSession,
        outcome == AcceptOutcome::Failed <==> r == LoopDirective::AbortServe,
{
    match outcome {
        AcceptOutcome::Accepted => LoopDirective::SpawnSession,
        AcceptOutcome::Failed => LoopDirective::AbortServe,
    }
}

/// The leading byte routes the session: the reserved marker selects the
/// tunnel handler with the marker left consumed; every other byte selects the
/// HTTP handler and is handed to it unchanged.
pub proof fn lemma_marker_routes(b: u8)
    ensures
        b == TUNNEL_MARKER ==> spec_step(
            SessionState::Dispatching,
            SessionEvent::SniffFinished(SniffOutcome::Received(b)),
        ) == ((SessionState::Handling { route: Route::Tunnel }), SessionAction::InvokeTunnelHandler),
        b != TUNNEL_MARKER ==> spec_step(
            SessionState::Dispatching,
            SessionEvent::SniffFinished(SniffOutcome::Received(b)),
        ) == (
            (SessionState::Handling { route: Route::Http }),
            (SessionAction::InvokeHttpHandler { first: b }),
        ),
{
}

/// A handler is invoked only when dispatch received exactly one byte: no
/// state and event other than a successful sniff while dispatching can
/// produce a handler invocation, so a timeout or failed read never reaches a
/// handler.
pub proof fn lemma_no_handler_without_byte(state: SessionState, event: SessionEvent)
    ensures
        (spec_step(state, event).1 == SessionAction::InvokeTunnelHandler || spec_step(
            state,
            event,
        ).1 matches SessionAction::InvokeHttpHandler { first: _ }) ==> state
            == SessionState::Dispatching && (exists|b: u8|
            event == SessionEvent::SniffFinished(SniffOutcome::Received(b))),
{
}

/// A sniff timeout (or a failed read) closes the session: the machine reaches
/// the terminal state with a warn-and-close action, never a handler.
pub proof fn lemma_timeout_closes_without_handler()
    ensures
        spec_step(
            SessionState::Dispatching,
            SessionEvent::SniffFinished(SniffOutcome::TimedOut),
        ) == (SessionState::Closed, SessionAction::WarnAndClose),
        spec_step(
            SessionState::Dispatching,
            SessionEvent::SniffFinished(SniffOutcome::Failed),
        ) == (SessionState::Closed, SessionAction::WarnAndClose),
{
}

/// The closed state is terminal: no event moves a closed session or demands
/// any further action from its driver.
pub proof fn lemma_closed_is_terminal(event: SessionEvent)
    ensures
        spec_step(SessionState::Closed, event) == (SessionState::Closed, SessionAction::Ignore),
{
}

/// A handshake failure is local to its session: it ends that session with a
/// warn-and-close action and nothing more. The accept loop's directive is a
/// function of the accept outcome alone, so a failed handshake in one unit of
/// work cannot keep the loop from accepting and serving later connections.
pub proof fn lemma_handshake_failure_isolated(event: SessionEvent)
    ensures
        spec_step(SessionState::TlsHandshaking, SessionEvent::HandshakeFailed) == (
            SessionState::Closed,
            SessionAction::WarnAndClose,
        ),
        spec_step(
            spec_step(SessionState::TlsHandshaking, SessionEvent::HandshakeFailed).0,
            event,
        ).1 == SessionAction::Ignore,
{
}

} // verus!

