use vstd::prelude::*;

use crate::errors::{prefixed, WebMQError};

verus! {

/// How many leading bytes of a connection are inspected.
pub const TLS_CLIENT_HELLO_HEAD_SIZE: usize = 3;

/// How long, in seconds, a new connection may stay silent before it is dropped.
pub const IDLE_TIMEOUT_SECS: u64 = 30;

/// The record header that opens a TLS ClientHello: a handshake record, TLS 1.0 record layer.
pub open spec fn tls_client_hello_head() -> Seq<u8> {
    seq![0x16u8, 0x03u8, 0x01u8]
}

/// Whether the bytes seen at the start of a connection open a TLS ClientHello.
pub open spec fn is_client_hello_head(peeked: Seq<u8>) -> bool {
    peeked.len() >= 3 && peeked.take(3) == tls_client_hello_head()
}

/// The text logged for a connection that does not speak TLS.
pub open spec fn non_tls_text(peer: Option<Seq<char>>) -> Seq<char> {
    match peer {
        Some(addr) => "Received non-TLS data from peer: "@ + addr,
        None => "Received non-TLS data from peer"@,
    }
}

/// Whether the bytes seen at the start of a connection open a TLS ClientHello. Fewer than
/// three bytes do not.
pub fn is_tls_head(peeked: &[u8]) -> (r: bool)
    ensures
        r == is_client_hello_head(peeked@),
{
    if peeked.len() < TLS_CLIENT_HELLO_HEAD_SIZE {
        return false;
    }
    let r = peeked[0] == 0x16u8 && peeked[1] == 0x03u8 && peeked[2] == 0x01u8;
    proof {
        if r {
            assert(peeked@.take(3) =~= tls_client_hello_head());
        } else {
            assert(peeked@.take(3) != tls_client_hello_head()) by {
                if peeked@.take(3) == tls_client_hello_head() {
                    assert(peeked@.take(3)[0] == peeked@[0]);
                    assert(peeked@.take(3)[1] == peeked@[1]);
                    assert(peeked@.take(3)[2] == peeked@[2]);
                }
            }
        }
    }
    r
}

/// The error for a connection that does not speak TLS, naming the peer when it is known.
pub fn non_tls_error(peer: Option<&str>) -> (r: WebMQError)
    ensures
        r is TLS,
        r.message_spec() == non_tls_text(
            match peer {
                Some(p) => Some(p@),
                None => None,
            },
        ),
{
    let text = match peer {
        Some(addr) => prefixed("Received non-TLS data from peer: ", addr),
        None => String::from_str("Received non-TLS data from peer"),
    };
    WebMQError::TLS(text)
}

/// Checks the first bytes of a new connection. `peeked` is what a peek returned, `None`
/// when the peek failed. Returns `None` when they open a TLS ClientHello, and otherwise the
/// error to report before the connection is shut down.
pub fn confirm_request_as_tls(peeked: Option<&[u8]>, peer: Option<&str>) -> (r: Option<
    WebMQError,
>)
    ensures
        r is None <==> (peeked is Some && is_client_hello_head(peeked->0@)),
        r is Some ==> r->0 is TLS && r->0.message_spec() == non_tls_text(
            match peer {
                Some(p) => Some(p@),
                None => None,
            },
        ),
{
    match peeked {
        Some(head) => if is_tls_head(head) {
            None
        } else {
            Some(non_tls_error(peer))
        },
        None => Some(non_tls_error(peer)),
    }
}

/// Where a connection is in its life.
#[derive(PartialEq, Eq, Structural, Clone, Copy, Debug)]
pub enum ConnectionState {
    /// Just accepted; nothing read yet.
    Accepted,
    /// Classified as TLS; the server handshake runs.
    Handshaking,
    /// Encrypted; HTTP requests are served.
    Serving,
    /// Done; nothing more happens on it.
    Closed,
}

/// What happened on a connection.
#[derive(PartialEq, Eq, Structural, Clone, Copy, Debug)]
pub enum ConnectionEvent {
    /// Its first bytes were inspected; `true` when they open a TLS ClientHello.
    Classified(bool),
    /// The TLS handshake completed.
    HandshakeSucceeded,
    /// The TLS handshake failed.
    HandshakeFailed,
    /// The peer closed the connection, or the HTTP exchange stopped on an error.
    Ended,
}

/// What to do with a connection next.
#[derive(PartialEq, Eq, Structural, Clone, Copy, Debug)]
pub enum ConnectionAction {
    /// Run the TLS server handshake.
    Handshake,
    /// Shut the stream down without answering.
    Discard,
    /// Serve HTTP requests over the encrypted stream.
    Serve,
    /// Release what the connection holds.
    Release,
}

/// The next state of a connection, and the action to take, when `event` happens in `state`.
pub open spec fn step_spec(state: ConnectionState, event: ConnectionEvent) -> (
    ConnectionState,
    ConnectionAction,
) {
    match (state, event) {
        (ConnectionState::Accepted, ConnectionEvent::Classified(true)) => (
            ConnectionState::Handshaking,
            ConnectionAction::Handshake,
        ),
        (ConnectionState::Accepted, ConnectionEvent::Classified(false)) => (
            ConnectionState::Closed,
            ConnectionAction::Discard,
        ),
        (ConnectionState::Handshaking, ConnectionEvent::HandshakeSucceeded) => (
            ConnectionState::Serving,
            ConnectionAction::Serve,
        ),
        _ => (ConnectionState::Closed, ConnectionAction::Release),
    }
}

/// Decides the next state of a connection and the action to take.
pub fn step(state: ConnectionState, event: ConnectionEvent) -> (r: (
    ConnectionState,
    ConnectionAction,
))
    ensures
        r == step_spec(state, event),
{
    match (state, event) {
        (ConnectionState::Accepted, ConnectionEvent::Classified(true)) => (
            ConnectionState::Handshaking,
            ConnectionAction::Handshake,
        ),
        (ConnectionState::Accepted, ConnectionEvent::Classified(false)) => (
            ConnectionState::Closed,
            ConnectionAction::Discard,
        ),
        (ConnectionState::Handshaking, ConnectionEvent::HandshakeSucceeded) => (
            ConnectionState::Serving,
            ConnectionAction::Serve,
        ),
        _ => (ConnectionState::Closed, ConnectionAction::Release),
    }
}

/// The state a connection reaches from `state` when `events` happen, in order.
pub open spec fn run(state: ConnectionState, events: Seq<ConnectionEvent>) -> ConnectionState
    decreases events.len(),
{
    if events.len() == 0 {
        state
    } else {
        run(step_spec(state, events[0]).0, events.drop_first())
    }
}

/// A closed connection stays closed.
pub proof fn lemma_closed_stays_closed(events: Seq<ConnectionEvent>)
    ensures
        run(ConnectionState::Closed, events) == ConnectionState::Closed,
    decreases events.len(),
{
    if events.len() > 0 {
        lemma_closed_stays_closed(events.drop_first());
    }
}

/// A connection is served only after its first bytes were classified as TLS and the
/// handshake then succeeded: any other history leaves it short of serving or closed.
pub proof fn lemma_served_only_after_handshake(events: Seq<ConnectionEvent>)
    requires
        run(ConnectionState::Accepted, events) == ConnectionState::Serving,
    ensures
        events.len() == 2,
        events[0] == ConnectionEvent::Classified(true),
        events[1] == ConnectionEvent::HandshakeSucceeded,
{
    assert(events.len() > 0);
    let rest = events.drop_first();
    let after_first = step_spec(ConnectionState::Accepted, events[0]).0;
    assert(run(after_first, rest) == ConnectionState::Serving);
    if after_first == ConnectionState::Closed {
        lemma_closed_stays_closed(rest);
    } else {
        assert(events[0] == ConnectionEvent::Classified(true));
        assert(after_first == ConnectionState::Handshaking);
        assert(rest.len() > 0);
        assert(rest[0] == events[1]);
        let rest2 = rest.drop_first();
        let after_second = step_spec(ConnectionState::Handshaking, rest[0]).0;
        assert(run(after_second, rest2) == ConnectionState::Serving);
        if after_second == ConnectionState::Closed {
            lemma_closed_stays_closed(rest2);
        } else {
            assert(rest[0] == ConnectionEvent::HandshakeSucceeded);
            if rest2.len() > 0 {
                lemma_closed_stays_closed(rest2.drop_first());
            }
        }
    }
}

} // verus!
