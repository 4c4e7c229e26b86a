use lag_sim::classify::{is_websocket_upgrade, parse_host_port};

#[test]
fn host_header_with_port() {
    let (host, port, tunnel) =
        parse_host_port("GET /x HTTP/1.1\r\nHost: example.test:8081\r\nAccept: */*\r\n\r\n");
    assert_eq!(host, "example.test");
    assert_eq!(port, 8081);
    assert!(!tunnel);
}

#[test]
fn host_header_without_port() {
    let (host, port, tunnel) = parse_host_port("GET / HTTP/1.1\r\nHost: example.test\r\n\r\n");
    assert_eq!(host, "example.test");
    assert_eq!(port, 80);
    assert!(!tunnel);
}

#[test]
fn host_header_in_any_case() {
    let (host, port, _) = parse_host_port("GET / HTTP/1.1\nhOsT:   a.b \t\n");
    assert_eq!(host, "a.b");
    assert_eq!(port, 80);
}

#[test]
fn host_is_split_at_the_last_colon() {
    let (host, port, _) = parse_host_port("GET / HTTP/1.1\r\nHost: [::1]:8080\r\n\r\n");
    assert_eq!(host, "[::1]");
    assert_eq!(port, 8080);
}

#[test]
fn host_port_that_is_no_number_falls_back() {
    let (host, port, _) = parse_host_port("GET / HTTP/1.1\r\nHost: a:70000\r\n\r\n");
    assert_eq!(host, "a");
    assert_eq!(port, 80);
    let (_, port, _) = parse_host_port("GET / HTTP/1.1\r\nHost: a:\r\n\r\n");
    assert_eq!(port, 80);
    let (_, port, _) = parse_host_port("GET / HTTP/1.1\r\nHost: a:+81\r\n\r\n");
    assert_eq!(port, 81);
    let (_, port, _) = parse_host_port("GET / HTTP/1.1\r\nHost: a:65535\r\n\r\n");
    assert_eq!(port, 65535);
    let (_, port, _) = parse_host_port("GET / HTTP/1.1\r\nHost: a:65536\r\n\r\n");
    assert_eq!(port, 80);
}

#[test]
fn later_host_header_overrides() {
    let (host, port, _) = parse_host_port("GET / HTTP/1.1\r\nHost: a:81\r\nHost: b\r\n\r\n");
    assert_eq!(host, "b");
    assert_eq!(port, 81);
}

#[test]
fn no_host_resolves_to_nothing() {
    let (host, port, tunnel) = parse_host_port("GET / HTTP/1.1\r\nAccept: */*\r\n\r\n");
    assert_eq!(host, "");
    assert_eq!(port, 80);
    assert!(!tunnel);
    let (host, _, _) = parse_host_port("");
    assert_eq!(host, "");
}

#[test]
fn connect_request_names_the_tunnel() {
    let (host, port, tunnel) =
        parse_host_port("CONNECT example.test:443 HTTP/1.1\r\nHost: example.test:443\r\n\r\n");
    assert_eq!(host, "example.test");
    assert_eq!(port, 443);
    assert!(tunnel);
}

#[test]
fn connect_port_falls_back_to_443() {
    let (host, port, tunnel) = parse_host_port("CONNECT example.test:https HTTP/1.1\r\n\r\n");
    assert_eq!(host, "example.test");
    assert_eq!(port, 443);
    assert!(tunnel);
    let (host, port, _) = parse_host_port("CONNECT example.test:8443\r\n\r\n");
    assert_eq!(host, "example.test");
    assert_eq!(port, 8443);
}

#[test]
fn connect_without_colon_names_no_host() {
    let (host, port, tunnel) = parse_host_port("CONNECT example.test HTTP/1.1\r\n\r\n");
    assert_eq!(host, "");
    assert_eq!(port, 443);
    assert!(tunnel);
    let (host, port, tunnel) = parse_host_port("CONNECT \r\nHost: a\r\n");
    assert_eq!(host, "");
    assert_eq!(port, 443);
    assert!(tunnel);
}

#[test]
fn connect_is_told_by_capitals_only() {
    let (host, _, tunnel) = parse_host_port("connect a:1 HTTP/1.1\r\nHost: b\r\n\r\n");
    assert!(!tunnel);
    assert_eq!(host, "b");
}

#[test]
fn upgrade_needs_both_headers() {
    let both = "GET /chat HTTP/1.1\r\nHost: a\r\nUpgrade: websocket\r\nSec-WebSocket-Key: x\r\n\r\n";
    assert!(is_websocket_upgrade(both));
    assert!(!is_websocket_upgrade("GET / HTTP/1.1\r\nUpgrade: websocket\r\n\r\n"));
    assert!(!is_websocket_upgrade("GET / HTTP/1.1\r\nSec-WebSocket-Key: x\r\n\r\n"));
    assert!(!is_websocket_upgrade("GET / HTTP/1.1\r\nUpgrade: h2c\r\nSec-WebSocket-Key: x\r\n\r\n"));
    assert!(!is_websocket_upgrade(""));
}

#[test]
fn upgrade_is_told_in_any_case() {
    assert!(is_websocket_upgrade("UPGRADE: WebSocket\nsec-websocket-KEY: k\n"));
    assert!(is_websocket_upgrade("upgrade:xwebsocketx\nSEC-WEBSOCKET-KEY:\n"));
    assert!(is_websocket_upgrade("Upgrade: websoc\u{212A}et\nSec-WebSoc\u{212A}et-Key: k"));
    assert!(!is_websocket_upgrade(" Upgrade: websocket\nSec-WebSocket-Key: k\n"));
}

#[test]
fn white_space_beyond_ascii_separates_tokens() {
    let (host, port, tunnel) = parse_host_port("CONNECT \u{3000}a.test:8443\u{a0}HTTP/1.1\n");
    assert_eq!(host, "a.test");
    assert_eq!(port, 8443);
    assert!(tunnel);
    let (host, port, _) = parse_host_port("GET / HTTP/1.1\nHost:\u{2003}b.test:82\u{2028}\n");
    assert_eq!(host, "b.test");
    assert_eq!(port, 82);
}

#[test]
fn host_header_on_the_first_line_counts() {
    let (host, port, tunnel) = parse_host_port("Host: only.test:9");
    assert_eq!(host, "only.test");
    assert_eq!(port, 9);
    assert!(!tunnel);
}

#[test]
fn empty_host_value_resolves_to_nothing() {
    let (host, port, _) = parse_host_port("GET / HTTP/1.1\r\nHost:   \r\n\r\n");
    assert_eq!(host, "");
    assert_eq!(port, 80);
    let (host, port, _) = parse_host_port("GET / HTTP/1.1\r\nHost: :8080\r\n\r\n");
    assert_eq!(host, "");
    assert_eq!(port, 8080);
}
