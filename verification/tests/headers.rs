use tunnel_client::error::ConfigError;
use tunnel_client::headers::{host_header, host_with_port, is_host, split_host, Header};
use tunnel_client::text::{push_decimal, same_text, starts_with};

fn header(name: &str, value: &str) -> Header {
    Header { name: String::from(name), value: value.as_bytes().to_vec() }
}

#[test]
fn host_is_recognised_in_any_case() {
    assert!(is_host("host"));
    assert!(is_host("Host"));
    assert!(is_host("HOST"));
    assert!(is_host("hOsT"));
}

#[test]
fn other_names_are_not_host() {
    assert!(!is_host(""));
    assert!(!is_host("hos"));
    assert!(!is_host("hosts"));
    assert!(!is_host("x-host"));
    assert!(!is_host("h\u{f6}st"));
    assert!(!is_host("authorization"));
}

#[test]
fn an_explicit_host_header_is_taken_out_of_the_list() {
    let (host, others) = split_host(vec![header("host", "front.example")]);
    assert_eq!(host, Some(b"front.example".to_vec()));
    assert!(others.is_empty());
}

#[test]
fn other_headers_stay_in_their_order() {
    let (host, others) = split_host(vec![
        header("x-first", "1"),
        header("host", "front.example"),
        header("x-second", "2"),
        header("authorization", "Basic abc"),
    ]);
    assert_eq!(host, Some(b"front.example".to_vec()));
    assert_eq!(
        others,
        vec![header("x-first", "1"), header("x-second", "2"), header("authorization", "Basic abc")]
    );
}

#[test]
fn the_first_of_several_host_headers_wins_and_none_stays() {
    let (host, others) = split_host(vec![
        header("Host", "first.example"),
        header("x-other", "1"),
        header("host", "second.example"),
    ]);
    assert_eq!(host, Some(b"first.example".to_vec()));
    assert_eq!(others, vec![header("x-other", "1")]);
}

#[test]
fn a_list_without_host_is_left_alone() {
    let headers = vec![header("x-first", "1"), header("x-second", "2")];
    let (host, others) = split_host(headers.clone());
    assert_eq!(host, None);
    assert_eq!(others, headers);
    let (host, others) = split_host(vec![]);
    assert_eq!(host, None);
    assert!(others.is_empty());
}

#[test]
fn a_header_value_need_not_be_text() {
    let raw = Header { name: String::from("host"), value: vec![0xff, 0x00, 0x80] };
    let (host, _) = split_host(vec![raw]);
    assert_eq!(host, Some(vec![0xff, 0x00, 0x80]));
}

#[test]
fn the_ports_of_http_are_not_written() {
    assert_eq!(host_with_port("example.com", 80), "example.com");
    assert_eq!(host_with_port("example.com", 443), "example.com");
}

#[test]
fn any_other_port_is_written_in_decimal() {
    assert_eq!(host_with_port("example.com", 8080), "example.com:8080");
    assert_eq!(host_with_port("example.com", 0), "example.com:0");
    assert_eq!(host_with_port("example.com", 7), "example.com:7");
    assert_eq!(host_with_port("example.com", 81), "example.com:81");
    assert_eq!(host_with_port("example.com", 444), "example.com:444");
    assert_eq!(host_with_port("example.com", 1000), "example.com:1000");
    assert_eq!(host_with_port("example.com", 65535), "example.com:65535");
    assert_eq!(host_with_port("[::1]", 9000), "[::1]:9000");
    assert_eq!(host_with_port("", 10), ":10");
}

#[test]
fn decimal_is_written_behind_what_is_there() {
    let mut out = String::from("port ");
    push_decimal(&mut out, 12345);
    assert_eq!(out, "port 12345");
    push_decimal(&mut out, 0);
    assert_eq!(out, "port 123450");
    for n in [0u16, 9, 10, 99, 100, 101, 9999, 10000, 60009, u16::MAX] {
        let mut text = String::new();
        push_decimal(&mut text, n);
        assert_eq!(text, format!("{}", n));
    }
}

#[test]
fn prefixes() {
    assert!(starts_with("http://proxy", "http://"));
    assert!(starts_with("http://", "http://"));
    assert!(starts_with("anything", ""));
    assert!(starts_with("", ""));
    assert!(!starts_with("http:/", "http://"));
    assert!(!starts_with("https://proxy", "http://"));
    assert!(!starts_with("HTTP://proxy", "http://"));
    assert!(!starts_with("", "h"));
    assert!(starts_with("\u{e9}t\u{e9}", "\u{e9}t"));
}

#[test]
fn sameness_of_texts() {
    assert!(same_text("", ""));
    assert!(same_text("wss", "wss"));
    assert!(!same_text("ws", "wss"));
    assert!(!same_text("wss", "ws"));
    assert!(!same_text("wss", "wsS"));
    assert!(same_text("\u{e9}", "\u{e9}"));
    assert!(!same_text("\u{e9}", "e"));
}

#[test]
fn an_explicit_host_header_is_used_as_it_is() {
    assert_eq!(
        host_header(Some(b"front.example".to_vec()), "example.com", 8080),
        Ok(b"front.example".to_vec())
    );
    assert_eq!(host_header(Some(vec![0x01, 0xff]), "example.com", 80), Ok(vec![0x01, 0xff]));
}

#[test]
fn the_host_header_is_made_of_the_server_address() {
    assert_eq!(host_header(None, "example.com", 80), Ok(b"example.com".to_vec()));
    assert_eq!(host_header(None, "example.com", 443), Ok(b"example.com".to_vec()));
    assert_eq!(host_header(None, "example.com", 8080), Ok(b"example.com:8080".to_vec()));
    assert_eq!(host_header(None, "[2001:db8::1]", 8443), Ok(b"[2001:db8::1]:8443".to_vec()));
}

#[test]
fn a_host_header_holds_the_utf8_bytes_of_its_text() {
    assert_eq!(host_header(None, "b\u{fc}cher.example", 80), Ok("b\u{fc}cher.example".as_bytes().to_vec()));
    assert_eq!(host_header(None, "tab\there", 80), Ok(b"tab\there".to_vec()));
    assert_eq!(host_header(None, "", 80), Ok(Vec::new()));
}

#[test]
fn a_host_with_control_characters_is_no_header_value() {
    assert_eq!(host_header(None, "bad\nhost", 80), Err(ConfigError::InvalidHostHeader));
    assert_eq!(host_header(None, "bad\rhost", 8080), Err(ConfigError::InvalidHostHeader));
    assert_eq!(host_header(None, "bad\u{7f}host", 80), Err(ConfigError::InvalidHostHeader));
    assert_eq!(host_header(None, "bad\u{0}host", 80), Err(ConfigError::InvalidHostHeader));
    assert_eq!(host_header(None, "\u{1f}", 80), Err(ConfigError::InvalidHostHeader));
}
