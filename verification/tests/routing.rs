//! Requests against the fixed route table: exact matches, the root
//! fallback, and byte-identical repetition.

use static_site::assets::site_routes;
use static_site::assets::RouteTable;
use static_site::server::handle_request;

fn demo_table() -> RouteTable {
    site_routes(
        b"<html>counter</html>".to_vec(),
        false,
        b"console.log('counter');".to_vec(),
        false,
        b"\0asm-blob".to_vec(),
        false,
    )
}

fn expected_response(content_type: &str, gzipped: bool, body: &[u8]) -> Vec<u8> {
    let mut r = format!("HTTP/1.1 200 OK\r\nContent-Type: {}\r\n", content_type).into_bytes();
    if gzipped {
        r.extend_from_slice(b"Content-Encoding: gzip\r\n");
    }
    r.extend_from_slice(format!("Content-Length: {}\r\n\r\n", body.len()).as_bytes());
    r.extend_from_slice(body);
    r
}

#[test]
fn root_route_serves_exact_bytes() {
    let table = demo_table();
    let r = handle_request(&table, b"GET / HTTP/1.1\r\nHost: x\r\n\r\n");
    assert_eq!(r, expected_response("text/html", false, b"<html>counter</html>"));
}

#[test]
fn script_route_serves_exact_bytes() {
    let table = demo_table();
    let r = handle_request(&table, b"GET /web.js HTTP/1.1\r\nHost: x\r\n\r\n");
    assert_eq!(
        r,
        expected_response("text/javascript", false, b"console.log('counter');")
    );
}

#[test]
fn blob_route_serves_exact_bytes() {
    let table = demo_table();
    let r = handle_request(&table, b"GET /web_bg.wasm HTTP/1.1\r\nHost: x\r\n\r\n");
    assert_eq!(r, expected_response("application/wasm", false, b"\0asm-blob"));
}

#[test]
fn unknown_path_falls_back_to_root() {
    let table = demo_table();
    let root = handle_request(&table, b"GET / HTTP/1.1\r\nHost: x\r\n\r\n");
    let other = handle_request(&table, b"GET /missing.txt HTTP/1.1\r\nHost: x\r\n\r\n");
    assert_eq!(other, root);
}

#[test]
fn deep_unknown_path_falls_back_to_root() {
    let table = demo_table();
    let root = handle_request(&table, b"GET / HTTP/1.1\r\nHost: x\r\n\r\n");
    let other = handle_request(&table, b"GET /a/b/c?q=1 HTTP/1.1\r\nHost: x\r\n\r\n");
    assert_eq!(other, root);
}

#[test]
fn unparseable_request_falls_back_to_root() {
    let table = demo_table();
    let root = handle_request(&table, b"GET / HTTP/1.1\r\nHost: x\r\n\r\n");
    let other = handle_request(&table, b"garbage");
    assert_eq!(other, root);
}

#[test]
fn repeated_requests_yield_identical_bytes() {
    let table = demo_table();
    let first = handle_request(&table, b"GET /web.js HTTP/1.1\r\nHost: a\r\n\r\n");
    let second = handle_request(&table, b"GET /web.js HTTP/1.1\r\nHost: a\r\n\r\n");
    assert_eq!(first, second);
}

#[test]
fn get_root_scenario_with_gzip_headers() {
    let table = site_routes(
        b"pretend-gzip-bytes".to_vec(),
        true,
        b"js".to_vec(),
        true,
        b"wasm".to_vec(),
        true,
    );
    let r = handle_request(&table, b"GET / HTTP/1.1\r\nHost: x\r\n\r\n");
    let text = String::from_utf8_lossy(&r).into_owned();
    assert!(text.starts_with("HTTP/1.1 200 OK\r\n"));
    assert!(text.contains("Content-Type: text/html\r\n"));
    assert!(text.contains("Content-Encoding: gzip\r\n"));
    let split = r.windows(4).position(|w| w == b"\r\n\r\n").unwrap();
    assert_eq!(&r[split + 4..], b"pretend-gzip-bytes");
}
