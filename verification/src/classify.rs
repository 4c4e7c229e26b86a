//! Protocol classifier: reads the head of a request and resolves where the
//! connection is to go and how it is to be handled.

use crate::number::{parse_unsigned, parse_window};
use crate::text::{
    chars_of, contains_folded, find_char, find_first, find_last, find_line_end, find_non_space,
    find_space, find_trimmed_end, lemma_first_stop, line_end, lossy_text, rfind_char,
    skip_spaces, starts_with, starts_with_folded, text_of, token_end, trim_end,
    window_contains_folded, window_starts_with, window_starts_with_folded, Stop,
};
use vstd::prelude::*;
use vstd::string::*;
use vstd::utf8::{decode_utf8, valid_utf8};

verus! {

/// Host and port as read from a request, the host as plain characters.
pub struct Target {
    pub host: Seq<char>,
    pub port: u16,
}

/// The port that `s` names, or `fallback` where `s` is no port number.
pub open spec fn port_or(s: Seq<char>, fallback: u16) -> u16 {
    match parse_unsigned(s, 65535) {
        Some(n) => n as u16,
        None => fallback,
    }
}

/// Whether the request asks for a tunnel: it begins with `CONNECT` and a
/// blank, in capitals.
pub open spec fn is_connect(s: Seq<char>) -> bool {
    starts_with(s, 0, s.len() as int, "CONNECT "@)
}

/// The target of a tunnel request: the second token of its first line, split
/// at the first colon. The port is 443 wherever the token gives none that
/// reads as a port. A token without a colon, or no second token at all,
/// names no host.
pub open spec fn connect_target(s: Seq<char>) -> Target {
    let e = line_end(s, 0);
    let a = skip_spaces(s, token_end(s, 0, e), e);
    let b = token_end(s, a, e);
    let c = find_char(s, a, b, ':');
    if c < b {
        Target { host: s.subrange(a, c), port: port_or(s.subrange(c + 1, b), 443) }
    } else {
        Target { host: Seq::empty(), port: 443 }
    }
}

/// Whether the line that starts at `at` is a `Host` header, in any case.
pub open spec fn is_host_line(s: Seq<char>, at: int) -> bool {
    starts_with_folded(s, at, line_end(s, at), "host:"@)
}

/// What the `Host` header that starts at `at` makes of the target `before`
/// it: its value, trimmed, is split at the last colon into host and port, the
/// port falling back to 80. A value without a colon is the host, and the
/// port stays.
pub open spec fn host_line_target(s: Seq<char>, at: int, before: Target) -> Target {
    let e = line_end(s, at);
    let a = skip_spaces(s, at + 5, e);
    let b = trim_end(s, a, e);
    let c = rfind_char(s, a, b, ':');
    if c < b {
        Target { host: s.subrange(a, c), port: port_or(s.subrange(c + 1, b), 80) }
    } else {
        Target { host: s.subrange(a, b), port: before.port }
    }
}

/// The target of a forward request once the lines from `from` on are read,
/// `before` being what the earlier lines gave: each `Host` header overrides
/// what was found before it.
pub open spec fn forward_target(s: Seq<char>, from: int, before: Target) -> Target
    decreases s.len() - from,
{
    let e = line_end(s, from);
    let now = if is_host_line(s, from) {
        host_line_target(s, from, before)
    } else {
        before
    };
    if from <= e < s.len() {
        forward_target(s, e + 1, now)
    } else {
        now
    }
}

/// The target of a request: that of the tunnel it asks for, or else what its
/// `Host` headers say, starting from no host and port 80.
pub open spec fn request_target(s: Seq<char>) -> Target {
    if is_connect(s) {
        connect_target(s)
    } else {
        forward_target(s, 0, Target { host: Seq::empty(), port: 80 })
    }
}

fn port_in(v: &Vec<char>, from: usize, to: usize, fallback: u16) -> (port: u16)
    requires
        from <= to <= v.len(),
    ensures
        port == port_or(v@.subrange(from as int, to as int), fallback),
{
    match parse_window(v, from, to, 65535) {
        Some(n) => n as u16,
        None => fallback,
    }
}

/// Resolves the destination of a request from its first bytes, read as text.
///
/// Returns the host, the port and whether the request is a `CONNECT`. An
/// empty host means that none could be resolved.
pub fn parse_host_port(req: &str) -> (r: (String, u16, bool))
    ensures
        r.0@ == request_target(req@).host,
        r.1 == request_target(req@).port,
        r.2 == is_connect(req@),
{
    let v = chars_of(req);
    let n = v.len();
    let connect = chars_of("CONNECT ");
    if window_starts_with(&v, 0, n, &connect) {
        let e = find_line_end(&v, 0);
        let t = find_space(&v, 0, e);
        let a = find_non_space(&v, t, e);
        let b = find_space(&v, a, e);
        let c = find_first(&v, a, b, ':');
        if c < b {
            let host = req.substring_char(a, c).to_owned();
            let port = port_in(&v, c + 1, b, 443);
            (host, port, true)
        } else {
            (String::new(), 443, true)
        }
    } else {
        let host_name = chars_of("host:");
        proof {
            reveal_strlit("host:");
        }
        let mut host_from: usize = 0;
        let mut host_to: usize = 0;
        let mut port: u16 = 80;
        let mut at: usize = 0;
        let ghost start = Target { host: Seq::empty(), port: 80 };
        assert(v@.subrange(0, 0) =~= Seq::<char>::empty());
        loop
            invariant
                v@ == req@,
                n == v.len(),
                host_name@ == "host:"@,
                host_name@.len() == 5,
                at <= n,
                host_from <= host_to <= n,
                forward_target(v@, 0, start) == forward_target(
                    v@,
                    at as int,
                    Target { host: v@.subrange(host_from as int, host_to as int), port },
                ),
            ensures
                host_from <= host_to <= n,
                forward_target(v@, 0, start) == (Target {
                    host: v@.subrange(host_from as int, host_to as int),
                    port,
                }),
            decreases n - at,
        {
            let e = find_line_end(&v, at);
            if window_starts_with_folded(&v, at, e, &host_name) {
                let a = find_non_space(&v, at + 5, e);
                let b = find_trimmed_end(&v, a, e);
                let c = find_last(&v, a, b, ':');
                if c < b {
                    host_from = a;
                    host_to = c;
                    port = port_in(&v, c + 1, b, 80);
                } else {
                    host_from = a;
                    host_to = b;
                }
            }
            if e < n {
                at = e + 1;
            } else {
                break ;
            }
        }
        let host = req.substring_char(host_from, host_to).to_owned();
        (host, port, false)
    }
}

/// Whether a line of the text starts at `at`: at its beginning, or right
/// after a line feed.
pub open spec fn is_line_start(s: Seq<char>, at: int) -> bool {
    0 <= at <= s.len() && (at == 0 || s[at - 1] == '\n')
}

/// Whether the line that starts at `at` is an `Upgrade` header that names
/// `websocket`, in any case.
pub open spec fn is_upgrade_line(s: Seq<char>, at: int) -> bool {
    &&& starts_with_folded(s, at, line_end(s, at), "upgrade:"@)
    &&& contains_folded(s, at, line_end(s, at), "websocket"@)
}

/// Whether the line that starts at `at` is a `Sec-WebSocket-Key` header, in
/// any case.
pub open spec fn is_key_line(s: Seq<char>, at: int) -> bool {
    starts_with_folded(s, at, line_end(s, at), "sec-websocket-key:"@)
}

/// Whether the request asks for a WebSocket upgrade: it holds a line of each
/// of the two kinds.
pub open spec fn websocket_upgrade(s: Seq<char>) -> bool {
    &&& exists|i: int| is_line_start(s, i) && #[trigger] is_upgrade_line(s, i)
    &&& exists|j: int| is_line_start(s, j) && #[trigger] is_key_line(s, j)
}

/// Detects a WebSocket upgrade request: an `Upgrade` header whose value
/// holds `websocket`, together with a `Sec-WebSocket-Key` header.
pub fn is_websocket_upgrade(req: &str) -> (b: bool)
    ensures
        b == websocket_upgrade(req@),
{
    let v = chars_of(req);
    let n = v.len();
    let upgrade_name = chars_of("upgrade:");
    let websocket = chars_of("websocket");
    let key_name = chars_of("sec-websocket-key:");
    let mut up = false;
    let mut key = false;
    let mut at: usize = 0;
    loop
        invariant_except_break
            up == (exists|i: int| i < at && is_line_start(v@, i) && #[trigger] is_upgrade_line(v@, i)),
            key == (exists|j: int| j < at && is_line_start(v@, j) && #[trigger] is_key_line(v@, j)),
        invariant
            v@ == req@,
            n == v.len(),
            upgrade_name@ == "upgrade:"@,
            websocket@ == "websocket"@,
            key_name@ == "sec-websocket-key:"@,
            is_line_start(v@, at as int),
        ensures
            up == (exists|i: int| is_line_start(v@, i) && #[trigger] is_upgrade_line(v@, i)),
            key == (exists|j: int| is_line_start(v@, j) && #[trigger] is_key_line(v@, j)),
        decreases n - at,
    {
        let e = find_line_end(&v, at);
        proof {
            lemma_first_stop(v@, at as int, n as int, Stop::Is('\n'));
        }
        if window_starts_with_folded(&v, at, e, &upgrade_name) && window_contains_folded(
            &v,
            at,
            e,
            &websocket,
        ) {
            up = true;
        }
        if window_starts_with_folded(&v, at, e, &key_name) {
            key = true;
        }
        proof {
            assert forall|i: int| at < i <= e implies !is_line_start(v@, i) by {
                assert(v@[i - 1] != '\n');
            }
            assert(up == (exists|i: int|
                i <= e && is_line_start(v@, i) && #[trigger] is_upgrade_line(v@, i))) by {
                if up {
                    if is_upgrade_line(v@, at as int) {
                    } else {
                        let i = choose|i: int|
                            i < at && is_line_start(v@, i) && #[trigger] is_upgrade_line(v@, i);
                        assert(i <= e && is_line_start(v@, i) && is_upgrade_line(v@, i));
                    }
                }
            }
            assert(key == (exists|j: int|
                j <= e && is_line_start(v@, j) && #[trigger] is_key_line(v@, j))) by {
                if key {
                    if is_key_line(v@, at as int) {
                    } else {
                        let j = choose|j: int|
                            j < at && is_line_start(v@, j) && #[trigger] is_key_line(v@, j);
                        assert(j <= e && is_line_start(v@, j) && is_key_line(v@, j));
                    }
                }
            }
        }
        if e < n {
            at = e + 1;
        } else {
            break ;
        }
    }
    up && key
}

/// Whether the `Host` header that starts at `at` names a port: its value
/// holds a colon.
pub open spec fn names_port(s: Seq<char>, at: int) -> bool {
    let e = line_end(s, at);
    let a = skip_spaces(s, at + 5, e);
    let b = trim_end(s, a, e);
    rfind_char(s, a, b, ':') < b
}

/// Lines without a `Host` header leave the target as it was found before
/// them; so a forward request without any resolves to no host.
pub proof fn lemma_no_host_line(s: Seq<char>, from: int, before: Target)
    requires
        is_line_start(s, from),
        forall|i: int| from <= i && is_line_start(s, i) ==> !#[trigger] is_host_line(s, i),
    ensures
        forward_target(s, from, before) == before,
    decreases s.len() - from,
{
    let e = line_end(s, from);
    lemma_first_stop(s, from, s.len() as int, Stop::Is('\n'));
    if e < s.len() {
        assert(is_line_start(s, e + 1));
        lemma_no_host_line(s, e + 1, before);
    }
}

/// The last `Host` header of a forward request decides: the host is the one
/// it names, whatever came before it, and so is the port where it names one.
pub proof fn lemma_last_host_line_decides(s: Seq<char>, from: int, before: Target, last: int)
    requires
        is_line_start(s, from),
        is_line_start(s, last),
        from <= last,
        is_host_line(s, last),
        forall|i: int| last < i && is_line_start(s, i) ==> !#[trigger] is_host_line(s, i),
    ensures
        forward_target(s, from, before).host == host_line_target(s, last, before).host,
        names_port(s, last) ==> forward_target(s, from, before).port == host_line_target(
            s,
            last,
            before,
        ).port,
    decreases s.len() - from,
{
    let e = line_end(s, from);
    lemma_first_stop(s, from, s.len() as int, Stop::Is('\n'));
    if from == last {
        let now = host_line_target(s, last, before);
        if e < s.len() {
            assert(is_line_start(s, e + 1));
            lemma_no_host_line(s, e + 1, now);
        }
    } else {
        assert(s[last - 1] == '\n');
        assert(e <= last - 1);
        assert(is_line_start(s, e + 1));
        let now = if is_host_line(s, from) {
            host_line_target(s, from, before)
        } else {
            before
        };
        lemma_last_host_line_decides(s, e + 1, now, last);
    }
}

/// Where a connection goes: the resolved host and port, and whether the
/// client asked for a tunnel.
#[derive(Clone, Debug)]
pub struct Destination {
    pub host: String,
    pub port: u16,
    pub is_tunnel: bool,
}

/// How a connection is handled once its upstream is dialed.
#[derive(Clone, Copy, Debug, PartialEq, Eq, Structural)]
pub enum Mode {
    /// The request is passed on as it came.
    Forward,
    /// The client asked for an opaque tunnel with `CONNECT`.
    Tunnel,
    /// The client asked for a WebSocket upgrade.
    Upgrade,
}

/// The mode of a request: an upgrade where both of its headers are there,
/// else a tunnel where the request is a `CONNECT`, else plain forwarding.
pub open spec fn request_mode(s: Seq<char>) -> Mode {
    if websocket_upgrade(s) {
        Mode::Upgrade
    } else if is_connect(s) {
        Mode::Tunnel
    } else {
        Mode::Forward
    }
}

/// Classifies a connection by the head of its request: where it goes and how
/// it is handled, or `None` where no host can be resolved.
pub fn classify(req: &str) -> (r: Option<(Destination, Mode)>)
    ensures
        r.is_none() == (request_target(req@).host.len() == 0),
        r matches Some((destination, mode)) ==> {
            &&& destination.host@ == request_target(req@).host
            &&& destination.port == request_target(req@).port
            &&& destination.is_tunnel == is_connect(req@)
            &&& mode == request_mode(req@)
        },
{
    let (host, port, is_tunnel) = parse_host_port(req);
    if host.as_str().is_empty() {
        return None;
    }
    let mode = if is_websocket_upgrade(req) {
        Mode::Upgrade
    } else if is_tunnel {
        Mode::Tunnel
    } else {
        Mode::Forward
    };
    Some((Destination { host, port, is_tunnel }, mode))
}

/// Classifies a connection by its first bytes, read as text: see
/// [`classify`].
pub fn classify_head(head: &[u8]) -> (r: Option<(Destination, Mode)>)
    ensures
        r.is_none() == (request_target(lossy_text(head@)).host.len() == 0),
        r matches Some((destination, mode)) ==> {
            &&& destination.host@ == request_target(lossy_text(head@)).host
            &&& destination.port == request_target(lossy_text(head@)).port
            &&& destination.is_tunnel == is_connect(lossy_text(head@))
            &&& mode == request_mode(lossy_text(head@))
        },
        valid_utf8(head@) ==> lossy_text(head@) == decode_utf8(head@),
{
    let text = text_of(head);
    classify(text.as_str())
}

} // verus!
