//! Response bytes on concrete values: status lines, content-type selection,
//! the decimal content-length, and the full 200 response.

use dash_server::handler::file_response;
use dash_server::response::{
    content_type_for, decimal_bytes, response_404, response_405, response_408, response_413,
};

#[test]
fn status_line_literals() {
    assert_eq!(response_404(), b"HTTP/1.1 404 NOT FOUND\r\n\r\n".to_vec());
    assert_eq!(response_405(), b"HTTP/1.1 405 Method Not Allowed\r\n\r\n".to_vec());
    assert_eq!(response_408(), b"HTTP/1.1 408 REQUEST TIMEOUT\r\n\r\n".to_vec());
    assert_eq!(response_413(), b"HTTP/1.1 413 PAYLOAD TOO LARGE\r\n\r\n".to_vec());
}

#[test]
fn decimal_bytes_values() {
    assert_eq!(decimal_bytes(0), b"0".to_vec());
    assert_eq!(decimal_bytes(7), b"7".to_vec());
    assert_eq!(decimal_bytes(10), b"10".to_vec());
    assert_eq!(decimal_bytes(1280), b"1280".to_vec());
    assert_eq!(decimal_bytes(4096), b"4096".to_vec());
}

#[test]
fn content_type_of_mpd() {
    let path: Vec<u8> = b"videos/stream.mpd".to_vec();
    assert_eq!(content_type_for(&path), b"application/dash+xml".to_vec());
}

#[test]
fn content_type_of_bare_suffix() {
    let path: Vec<u8> = b".mpd".to_vec();
    assert_eq!(content_type_for(&path), b"application/dash+xml".to_vec());
}

#[test]
fn content_type_of_other_files() {
    let path: Vec<u8> = b"segment.m4s".to_vec();
    assert_eq!(content_type_for(&path), b"application/octet-stream".to_vec());
    let upper: Vec<u8> = b"stream.MPD".to_vec();
    assert_eq!(content_type_for(&upper), b"application/octet-stream".to_vec());
    let short: Vec<u8> = b"mpd".to_vec();
    assert_eq!(content_type_for(&short), b"application/octet-stream".to_vec());
}

#[test]
fn ok_response_exact_bytes() {
    let path: Vec<u8> = b"a.mpd".to_vec();
    let body: Vec<u8> = b"hello".to_vec();
    let resp = file_response("*", &path, &Some(body));
    let expected = b"HTTP/1.1 200 OK\r\nAccess-Control-Allow-Origin: *\r\nContent-type: \
        application/dash+xml\r\nContent-Length: 5\r\n\r\nhello"
        .to_vec();
    assert_eq!(resp, expected);
}

#[test]
fn ok_response_carries_configured_origin() {
    let path: Vec<u8> = b"data.bin".to_vec();
    let body: Vec<u8> = b"\x00\x01\x02".to_vec();
    let resp = file_response("https://origin.example", &path, &Some(body));
    let text = String::from_utf8_lossy(&resp).to_string();
    assert!(text.contains("Access-Control-Allow-Origin: https://origin.example\r\n"));
    assert!(text.contains("Content-type: application/octet-stream\r\n"));
    assert!(text.contains("Content-Length: 3\r\n"));
}

#[test]
fn ok_response_empty_body() {
    let path: Vec<u8> = b"empty.txt".to_vec();
    let resp = file_response("*", &path, &Some(Vec::new()));
    let expected = b"HTTP/1.1 200 OK\r\nAccess-Control-Allow-Origin: *\r\nContent-type: \
        application/octet-stream\r\nContent-Length: 0\r\n\r\n"
        .to_vec();
    assert_eq!(resp, expected);
}

#[test]
fn unreadable_file_is_404() {
    let path: Vec<u8> = b"no/such/file".to_vec();
    let resp = file_response("*", &path, &None);
    assert_eq!(resp, b"HTTP/1.1 404 NOT FOUND\r\n\r\n".to_vec());
}
