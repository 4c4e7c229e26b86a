use lag_sim::classify::Mode;
use lag_sim::session::{
    connection_established, session_start, session_step, SessionAction, SessionEvent, SessionState,
};

fn peeked(head: &str) -> SessionEvent {
    SessionEvent::Peeked { head: head.as_bytes().to_vec() }
}

#[test]
fn connect_is_answered_before_the_tunnel_opens() {
    let head = "CONNECT example.test:443 HTTP/1.1\r\nHost: example.test:443\r\n\r\n";
    let (state, action) = session_step(session_start(), peeked(head));
    assert_eq!(state, SessionState::Dialing { tunnel: true, mode: Mode::Tunnel });
    match action {
        SessionAction::Dial { host, port } => {
            assert_eq!(host, "example.test");
            assert_eq!(port, 443);
        }
        other => panic!("unexpected action {:?}", other),
    }
    let (state, action) = session_step(state, SessionEvent::Dialed);
    assert_eq!(state, SessionState::Draining { mode: Mode::Tunnel });
    assert!(matches!(action, SessionAction::ReadClient));
    let (state, action) = session_step(state, SessionEvent::Read { len: head.len() as u64 });
    assert_eq!(state, SessionState::Confirming { mode: Mode::Tunnel });
    assert!(matches!(action, SessionAction::SendEstablished));
    assert_eq!(
        connection_established().as_bytes(),
        b"HTTP/1.1 200 Connection Established\r\n\r\n"
    );
    let (state, action) = session_step(state, SessionEvent::Written);
    assert_eq!(state, SessionState::Piping);
    assert!(matches!(action, SessionAction::StartPipes));
}

#[test]
fn forward_request_goes_straight_to_the_pipes() {
    let head = "GET / HTTP/1.1\r\nHost: example.test:8081\r\n\r\n";
    let (state, action) = session_step(SessionState::Peeking, peeked(head));
    assert_eq!(state, SessionState::Dialing { tunnel: false, mode: Mode::Forward });
    match action {
        SessionAction::Dial { host, port } => {
            assert_eq!(host, "example.test");
            assert_eq!(port, 8081);
        }
        other => panic!("unexpected action {:?}", other),
    }
    let (state, action) = session_step(state, SessionEvent::Dialed);
    assert_eq!(state, SessionState::Piping);
    assert!(matches!(action, SessionAction::StartPipes));
}

#[test]
fn upgrade_is_relayed_both_ways() {
    let head = "GET /ws HTTP/1.1\r\nHost: ws.test\r\nUpgrade: websocket\r\nSec-WebSocket-Key: k\r\n\r\n";
    let (state, _) = session_step(SessionState::Peeking, peeked(head));
    assert_eq!(state, SessionState::Dialing { tunnel: false, mode: Mode::Upgrade });
    let (state, action) = session_step(state, SessionEvent::Dialed);
    assert_eq!(state, SessionState::AwaitingRequest);
    assert!(matches!(action, SessionAction::ReadClient));
    let (state, action) = session_step(state, SessionEvent::Read { len: 90 });
    assert_eq!(state, SessionState::SendingRequest);
    assert!(matches!(action, SessionAction::WriteServer { len: 90 }));
    let (state, action) = session_step(state, SessionEvent::Written);
    assert_eq!(state, SessionState::AwaitingResponse);
    assert!(matches!(action, SessionAction::ReadServer));
    let (state, action) = session_step(state, SessionEvent::Read { len: 129 });
    assert_eq!(state, SessionState::SendingResponse);
    assert!(matches!(action, SessionAction::WriteClient { len: 129 }));
    let (state, action) = session_step(state, SessionEvent::Written);
    assert_eq!(state, SessionState::Piping);
    assert!(matches!(action, SessionAction::StartPipes));
}

#[test]
fn upgrade_through_a_tunnel_follows_the_answer() {
    let head = "CONNECT ws.test:80 HTTP/1.1\r\nUpgrade: websocket\r\nSec-WebSocket-Key: k\r\n\r\n";
    let (state, _) = session_step(SessionState::Peeking, peeked(head));
    assert_eq!(state, SessionState::Dialing { tunnel: true, mode: Mode::Upgrade });
    let (state, _) = session_step(state, SessionEvent::Dialed);
    assert_eq!(state, SessionState::Draining { mode: Mode::Upgrade });
    let (state, _) = session_step(state, SessionEvent::Read { len: 10 });
    let (state, action) = session_step(state, SessionEvent::Written);
    assert_eq!(state, SessionState::AwaitingRequest);
    assert!(matches!(action, SessionAction::ReadClient));
}

fn abandoned(state: SessionState, event: SessionEvent) -> bool {
    let (next, action) = session_step(state, event);
    next == SessionState::Abandoned && matches!(action, SessionAction::Abandon)
}

#[test]
fn request_without_host_is_abandoned() {
    assert!(abandoned(SessionState::Peeking, peeked("GET / HTTP/1.1\r\n\r\n")));
    assert!(abandoned(SessionState::Peeking, peeked("")));
    assert!(abandoned(SessionState::Peeking, peeked("CONNECT nowhere HTTP/1.1\r\n\r\n")));
    assert!(abandoned(SessionState::Peeking, SessionEvent::Failed));
}

#[test]
fn head_that_is_no_utf8_is_read_with_replacements() {
    let mut head = b"GET / HTTP/1.1\r\nX: ".to_vec();
    head.extend_from_slice(&[0xff, 0xfe]);
    head.extend_from_slice(b"\r\nHost: a\xc3.test:81\r\n\r\n");
    let (state, action) =
        session_step(SessionState::Peeking, SessionEvent::Peeked { head });
    assert_eq!(state, SessionState::Dialing { tunnel: false, mode: Mode::Forward });
    match action {
        SessionAction::Dial { host, port } => {
            assert_eq!(host, "a\u{fffd}.test");
            assert_eq!(port, 81);
        }
        other => panic!("unexpected action {:?}", other),
    }
}

#[test]
fn failed_dial_is_abandoned() {
    let dialing = SessionState::Dialing { tunnel: false, mode: Mode::Forward };
    assert!(abandoned(dialing, SessionEvent::Failed));
    let dialing = SessionState::Dialing { tunnel: true, mode: Mode::Tunnel };
    assert!(abandoned(dialing, SessionEvent::Failed));
}

#[test]
fn empty_read_during_a_handshake_is_abandoned() {
    assert!(abandoned(SessionState::Draining { mode: Mode::Tunnel }, SessionEvent::Read { len: 0 }));
    assert!(abandoned(SessionState::AwaitingRequest, SessionEvent::Read { len: 0 }));
    assert!(abandoned(SessionState::AwaitingResponse, SessionEvent::Read { len: 0 }));
    assert!(abandoned(SessionState::AwaitingRequest, SessionEvent::Failed));
    assert!(abandoned(SessionState::AwaitingResponse, SessionEvent::Failed));
}

#[test]
fn failed_write_during_a_handshake_is_abandoned() {
    assert!(abandoned(SessionState::Confirming { mode: Mode::Tunnel }, SessionEvent::Failed));
    assert!(abandoned(SessionState::SendingRequest, SessionEvent::Failed));
    assert!(abandoned(SessionState::SendingResponse, SessionEvent::Failed));
}

#[test]
fn event_out_of_turn_is_abandoned() {
    assert!(abandoned(SessionState::Peeking, SessionEvent::Dialed));
    assert!(abandoned(SessionState::Piping, SessionEvent::Written));
    assert!(abandoned(SessionState::Abandoned, SessionEvent::Dialed));
    assert!(abandoned(SessionState::SendingRequest, SessionEvent::Read { len: 4 }));
}
