//! Request completeness and path extraction on raw bytes.

use static_site::assets::bytes_eq;
use static_site::http::{find_byte, parse_path, request_complete};

#[test]
fn completeness_needs_the_empty_line() {
    assert!(!request_complete(b""));
    assert!(!request_complete(b"GET"));
    assert!(!request_complete(b"GET / HTTP/1.1\r\n"));
    assert!(!request_complete(b"GET / HTTP/1.1\r\nHost: x\r\n"));
    assert!(request_complete(b"GET / HTTP/1.1\r\nHost: x\r\n\r\n"));
    assert!(request_complete(b"GET / HTTP/1.1\r\n\r\ntrailing"));
    assert!(!request_complete(b"\r\n\r"));
    assert!(request_complete(b"\r\n\r\n"));
}

#[test]
fn path_is_between_the_first_two_spaces() {
    assert_eq!(parse_path(b"GET / HTTP/1.1\r\n\r\n"), Some(b"/".to_vec()));
    assert_eq!(
        parse_path(b"GET /web.js HTTP/1.1\r\n\r\n"),
        Some(b"/web.js".to_vec())
    );
    assert_eq!(
        parse_path(b"GET /web_bg.wasm HTTP/1.1\r\n\r\n"),
        Some(b"/web_bg.wasm".to_vec())
    );
    assert_eq!(parse_path(b"HEAD /x Y"), Some(b"/x".to_vec()));
}

#[test]
fn missing_delimiters_give_no_path() {
    assert_eq!(parse_path(b""), None);
    assert_eq!(parse_path(b"GET"), None);
    assert_eq!(parse_path(b"GET /only-one-space"), None);
}

#[test]
fn find_byte_reports_the_first_hit() {
    assert_eq!(find_byte(b"abcabc", b'b', 0), Some(1));
    assert_eq!(find_byte(b"abcabc", b'b', 2), Some(4));
    assert_eq!(find_byte(b"abcabc", b'z', 0), None);
    assert_eq!(find_byte(b"", b'a', 0), None);
}

#[test]
fn byte_equality_is_exact() {
    assert!(bytes_eq(b"", b""));
    assert!(bytes_eq(b"/web.js", b"/web.js"));
    assert!(!bytes_eq(b"/web.js", b"/web.j"));
    assert!(!bytes_eq(b"/web.js", b"/web.jS"));
}
