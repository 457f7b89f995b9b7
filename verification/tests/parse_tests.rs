//! Header-boundary detection and request-line parsing on concrete buffers.

use dash_server::http::{is_end_of_header, parse_request_line, ParseResult};

#[test]
fn header_end_too_short() {
    assert!(!is_end_of_header(b""));
    assert!(!is_end_of_header(b"\r\n\r"));
}

#[test]
fn header_end_exact() {
    assert!(is_end_of_header(b"\r\n\r\n"));
}

#[test]
fn header_end_at_tail() {
    assert!(is_end_of_header(b"GET / HTTP/1.0\r\n\r\n"));
}

#[test]
fn header_end_in_middle() {
    assert!(is_end_of_header(b"GET / HTTP/1.0\r\n\r\nbody bytes"));
}

#[test]
fn header_end_absent() {
    assert!(!is_end_of_header(b"GET / HTTP/1.0\r\n\r"));
    assert!(!is_end_of_header(b"GET / HTTP/1.0\n\n"));
}

#[test]
fn parse_empty_first_line_is_malformed() {
    let buf: Vec<u8> = b"\r\n\r\n".to_vec();
    assert!(matches!(parse_request_line(&buf), ParseResult::Malformed));
}

#[test]
fn parse_whitespace_only_line_is_malformed() {
    let buf: Vec<u8> = b"   \t \r\n\r\n".to_vec();
    assert!(matches!(parse_request_line(&buf), ParseResult::Malformed));
}

#[test]
fn parse_post_is_method_not_allowed() {
    let buf: Vec<u8> = b"POST /x HTTP/1.0\r\n\r\n".to_vec();
    assert!(matches!(parse_request_line(&buf), ParseResult::MethodNotAllowed));
}

#[test]
fn parse_lowercase_get_is_method_not_allowed() {
    let buf: Vec<u8> = b"get /x HTTP/1.0\r\n\r\n".to_vec();
    assert!(matches!(parse_request_line(&buf), ParseResult::MethodNotAllowed));
}

#[test]
fn parse_missing_target_is_not_found() {
    let buf: Vec<u8> = b"GET\r\n\r\n".to_vec();
    assert!(matches!(parse_request_line(&buf), ParseResult::NotFound));
}

#[test]
fn parse_root_target_is_not_found() {
    let buf: Vec<u8> = b"GET / HTTP/1.0\r\n\r\n".to_vec();
    assert!(matches!(parse_request_line(&buf), ParseResult::NotFound));
}

#[test]
fn parse_target_strips_leading_slash() {
    let buf: Vec<u8> = b"GET /test_data/doc.mpd HTTP/1.0\r\n\r\n".to_vec();
    match parse_request_line(&buf) {
        ParseResult::Target(t) => assert_eq!(t, b"test_data/doc.mpd".to_vec()),
        _ => panic!("expected a target"),
    }
}

#[test]
fn parse_reads_only_first_line() {
    let buf: Vec<u8> = b"GET /a HTTP/1.0\r\nHost: nowhere\r\n\r\n".to_vec();
    match parse_request_line(&buf) {
        ParseResult::Target(t) => assert_eq!(t, b"a".to_vec()),
        _ => panic!("expected a target"),
    }
}

#[test]
fn parse_target_without_version_token() {
    let buf: Vec<u8> = b"GET /abc\r\n\r\n".to_vec();
    match parse_request_line(&buf) {
        ParseResult::Target(t) => assert_eq!(t, b"abc".to_vec()),
        _ => panic!("expected a target"),
    }
}
