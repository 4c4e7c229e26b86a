//! The setup of one accepted connection as a state machine: the caller
//! peeks, dials, reads and writes; the session decides what comes next.

use crate::classify::{classify_head, is_connect, request_mode, request_target, Mode};
use crate::text::lossy_text;
use vstd::prelude::*;
use vstd::string::*;
use vstd::utf8::{decode_utf8, valid_utf8};

verus! {

/// Where the setup of a connection stands between two actions.
#[derive(Clone, Copy, Debug, PartialEq, Eq, Structural)]
pub enum SessionState {
    /// The head of the request is being looked at, without consuming it.
    Peeking,
    /// The upstream is being dialed.
    Dialing { tunnel: bool, mode: Mode },
    /// The client's `CONNECT` request is being read off the stream.
    Draining { mode: Mode },
    /// The answer to the `CONNECT` request is being written to the client.
    Confirming { mode: Mode },
    /// The client's upgrade request is being read.
    AwaitingRequest,
    /// The client's upgrade request is being written to the upstream.
    SendingRequest,
    /// The upstream's answer to the upgrade request is being read.
    AwaitingResponse,
    /// The upstream's answer is being written to the client.
    SendingResponse,
    /// The setup is done and the two pipes run.
    Piping,
    /// The connection was given up.
    Abandoned,
}

/// What the caller reports back to the session.
#[derive(Clone, Debug)]
pub enum SessionEvent {
    /// The first bytes of the connection, at most 4096 of them.
    Peeked { head: Vec<u8> },
    /// The upstream is connected.
    Dialed,
    /// A read gave `len` bytes.
    Read { len: u64 },
    /// A write went through in full.
    Written,
    /// The last action failed.
    Failed,
}

/// What the caller is to do next.
#[derive(Clone, Debug)]
pub enum SessionAction {
    /// Connect to the upstream at `host` and `port`.
    Dial { host: String, port: u16 },
    /// Read once from the client.
    ReadClient,
    /// Read once from the upstream.
    ReadServer,
    /// Write the `len` bytes just read from the upstream to the client.
    WriteClient { len: u64 },
    /// Write the `len` bytes just read from the client to the upstream.
    WriteServer { len: u64 },
    /// Write the answer to a `CONNECT` request to the client.
    SendEstablished,
    /// Run the two shaping pipes until both have ended.
    StartPipes,
    /// Close the connection without a word.
    Abandon,
}

/// The answer to a `CONNECT` request, sent before any tunneled byte.
pub fn connection_established() -> (r: &'static str)
    ensures
        r@ == "HTTP/1.1 200 Connection Established\r\n\r\n"@,
{
    "HTTP/1.1 200 Connection Established\r\n\r\n"
}

/// What follows once the upstream is dialed and, for a tunnel, the client
/// has its answer: the upgrade relay, or the pipes.
pub open spec fn after_handshake(mode: Mode, next: SessionState, action: SessionAction) -> bool {
    if mode == Mode::Upgrade {
        next == SessionState::AwaitingRequest && action is ReadClient
    } else {
        next == SessionState::Piping && action is StartPipes
    }
}

/// Whether the session gives the connection up.
pub open spec fn gives_up(next: SessionState, action: SessionAction) -> bool {
    next == SessionState::Abandoned && action is Abandon
}

/// The step that a session takes from `state` on `event`.
///
/// The head of the request is read as text. A request without a host, a
/// failed action, a read of no bytes during a
/// handshake, and an event that does not fit the state all give the
/// connection up.
pub open spec fn session_allows(
    state: SessionState,
    event: SessionEvent,
    next: SessionState,
    action: SessionAction,
) -> bool {
    match (state, event) {
        (SessionState::Peeking, SessionEvent::Peeked { head }) => {
            let text = lossy_text(head@);
            if request_target(text).host.len() == 0 {
                gives_up(next, action)
            } else {
                &&& next == (SessionState::Dialing {
                    tunnel: is_connect(text),
                    mode: request_mode(text),
                })
                &&& action matches SessionAction::Dial { host, port }
                &&& host@ == request_target(text).host
                &&& port == request_target(text).port
            }
        },
        (SessionState::Dialing { tunnel, mode }, SessionEvent::Dialed) => {
            if tunnel {
                next == (SessionState::Draining { mode }) && action is ReadClient
            } else {
                after_handshake(mode, next, action)
            }
        },
        (SessionState::Draining { mode }, SessionEvent::Read { len }) if len > 0 => {
            next == (SessionState::Confirming { mode }) && action is SendEstablished
        },
        (SessionState::Confirming { mode }, SessionEvent::Written) => {
            after_handshake(mode, next, action)
        },
        (SessionState::AwaitingRequest, SessionEvent::Read { len }) if len > 0 => {
            next == SessionState::SendingRequest && action == (SessionAction::WriteServer { len })
        },
        (SessionState::SendingRequest, SessionEvent::Written) => {
            next == SessionState::AwaitingResponse && action is ReadServer
        },
        (SessionState::AwaitingResponse, SessionEvent::Read { len }) if len > 0 => {
            next == SessionState::SendingResponse && action == (SessionAction::WriteClient { len })
        },
        (SessionState::SendingResponse, SessionEvent::Written) => {
            next == SessionState::Piping && action is StartPipes
        },
        _ => gives_up(next, action),
    }
}

fn enter(mode: Mode) -> (r: (SessionState, SessionAction))
    ensures
        after_handshake(mode, r.0, r.1),
{
    match mode {
        Mode::Upgrade => (SessionState::AwaitingRequest, SessionAction::ReadClient),
        _ => (SessionState::Piping, SessionAction::StartPipes),
    }
}

/// The state a session starts in; its first action is to peek at the head of
/// the request.
pub fn session_start() -> (state: SessionState)
    ensures
        state == SessionState::Peeking,
{
    SessionState::Peeking
}

/// Takes one step of a connection's setup: given where it stands and what
/// the caller reports, says where it stands next and what the caller is to
/// do. A head that is UTF-8 is read as the text it encodes.
pub fn session_step(state: SessionState, event: SessionEvent) -> (r: (SessionState, SessionAction))
    ensures
        session_allows(state, event, r.0, r.1),
        event matches SessionEvent::Peeked { head } ==> (state is Peeking && valid_utf8(head@)
            ==> lossy_text(head@) == decode_utf8(head@)),
{
    let give_up = (SessionState::Abandoned, SessionAction::Abandon);
    match (state, event) {
        (SessionState::Peeking, SessionEvent::Peeked { head }) => {
            match classify_head(head.as_slice()) {
                Some((destination, mode)) => (
                    SessionState::Dialing { tunnel: destination.is_tunnel, mode },
                    SessionAction::Dial { host: destination.host, port: destination.port },
                ),
                None => give_up,
            }
        },
        (SessionState::Dialing { tunnel, mode }, SessionEvent::Dialed) => {
            if tunnel {
                (SessionState::Draining { mode }, SessionAction::ReadClient)
            } else {
                enter(mode)
            }
        },
        (SessionState::Draining { mode }, SessionEvent::Read { len }) => {
            if len > 0 {
                (SessionState::Confirming { mode }, SessionAction::SendEstablished)
            } else {
                give_up
            }
        },
        (SessionState::Confirming { mode }, SessionEvent::Written) => enter(mode),
        (SessionState::AwaitingRequest, SessionEvent::Read { len }) => {
            if len > 0 {
                (SessionState::SendingRequest, SessionAction::WriteServer { len })
            } else {
                give_up
            }
        },
        (SessionState::SendingRequest, SessionEvent::Written) => {
            (SessionState::AwaitingResponse, SessionAction::ReadServer)
        },
        (SessionState::AwaitingResponse, SessionEvent::Read { len }) => {
            if len > 0 {
                (SessionState::SendingResponse, SessionAction::WriteClient { len })
            } else {
                give_up
            }
        },
        (SessionState::SendingResponse, SessionEvent::Written) => {
            (SessionState::Piping, SessionAction::StartPipes)
        },
        _ => give_up,
    }
}

/// A tunnel is answered before it opens: the pipes never start right after
/// the dial or the drain of a `CONNECT` request, only once its answer has
/// been written; and that answer is sent only when the request has been
/// read off the stream.
pub proof fn lemma_tunnel_is_answered_first(
    state: SessionState,
    event: SessionEvent,
    next: SessionState,
    action: SessionAction,
)
    requires
        session_allows(state, event, next, action),
    ensures
        action is StartPipes ==> {
            ||| state matches SessionState::Dialing { tunnel, mode } && !tunnel
            ||| state is Confirming && event is Written
            ||| state is SendingResponse && event is Written
        },
        action is SendEstablished ==> state is Draining,
        next is Confirming ==> action is SendEstablished,
{
}

/// A failed action gives the connection up wherever the session stands, and
/// so does a read of no bytes.
pub proof fn lemma_failure_gives_up(
    state: SessionState,
    event: SessionEvent,
    next: SessionState,
    action: SessionAction,
)
    requires
        session_allows(state, event, next, action),
        event is Failed || event == (SessionEvent::Read { len: 0 }),
    ensures
        gives_up(next, action),
{
}

} // verus!
