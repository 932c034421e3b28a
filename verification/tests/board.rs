//! Board values, framing details, the seed, the frame queues, and the gzip
//! round trip through a served response.

use std::io::{Read, Write};

use flate2::read::GzDecoder;
use flate2::write::GzEncoder;
use flate2::Compression;

use static_site::assets::{site_routes, StaticAsset};
use static_site::clock::init;
use static_site::netcfg::{board_mac, board_net_config, seed_from_le_bytes};
use static_site::queue::{board_packet_queues, PacketQueue, FRAME_QUEUE_CAPACITY};
use static_site::response::build_response;
use static_site::server::handle_request;

#[test]
fn clock_tree_resolves_to_board_values() {
    let c = init();
    assert_eq!(c.hse_hz, 8_000_000);
    assert!(c.hsi48_enabled);
    assert_eq!(c.pll_prediv, 2);
    assert_eq!(c.pll_mul, 125);
    assert_eq!(c.pll_divp, 2);
    assert_eq!(c.pll_divq, 2);
    assert_eq!(c.ahb_div, 1);
    assert_eq!(c.sysclk(), 250_000_000);
    assert_eq!(c.hclk(), 250_000_000);
}

#[test]
fn network_identity_is_the_board_one() {
    let c = board_net_config();
    assert_eq!(
        (c.address.o1, c.address.o2, c.address.o3, c.address.o4),
        (192, 168, 177, 222)
    );
    assert_eq!(c.prefix_len, 24);
    let g = c.gateway.unwrap();
    assert_eq!((g.o1, g.o2, g.o3, g.o4), (192, 168, 177, 1));
    assert_eq!(board_mac(), vec![0x00, 0x00, 0xDE, 0xAD, 0xBE, 0xEF]);
}

#[test]
fn seed_reads_little_endian() {
    let bytes = [1u8, 2, 3, 4, 5, 6, 7, 8];
    assert_eq!(seed_from_le_bytes(&bytes), u64::from_le_bytes(bytes));
    let zero = [0u8; 8];
    assert_eq!(seed_from_le_bytes(&zero), 0);
    let max = [0xFFu8; 8];
    assert_eq!(seed_from_le_bytes(&max), u64::MAX);
}

#[test]
fn response_framing_is_exact_for_an_empty_body() {
    let a = StaticAsset {
        body: Vec::new(),
        content_type: b"text/html".to_vec(),
        gzipped: false,
    };
    let r = build_response(&a);
    assert_eq!(
        r,
        b"HTTP/1.1 200 OK\r\nContent-Type: text/html\r\nContent-Length: 0\r\n\r\n".to_vec()
    );
}

#[test]
fn content_length_counts_the_body_in_decimal() {
    let a = StaticAsset {
        body: vec![7u8; 1234],
        content_type: b"application/wasm".to_vec(),
        gzipped: false,
    };
    let r = build_response(&a);
    let text = String::from_utf8_lossy(&r).into_owned();
    assert!(text.contains("Content-Length: 1234\r\n"));
}

#[test]
fn frame_queues_are_bounded_and_fifo() {
    let (mut tx, rx) = board_packet_queues();
    assert_eq!(FRAME_QUEUE_CAPACITY, 4);
    assert_eq!(rx.capacity, 4);
    for k in 0..4u8 {
        assert!(tx.enqueue(vec![k, k + 10]));
    }
    assert!(tx.is_full());
    // The fifth producer is refused; nothing changes.
    assert!(!tx.enqueue(vec![99]));
    assert_eq!(tx.len(), 4);
    for k in 0..4u8 {
        assert_eq!(tx.dequeue(), Some(vec![k, k + 10]));
    }
    assert_eq!(tx.dequeue(), None);
    assert_eq!(tx.len(), 0);
}

#[test]
fn fresh_queue_is_empty() {
    let mut q = PacketQueue::new(1);
    assert_eq!(q.len(), 0);
    assert!(!q.is_full());
    assert!(q.enqueue(vec![1]));
    assert!(q.is_full());
}

#[test]
fn gzip_encoded_response_round_trips_to_the_original_asset() {
    let original = b"<html>the uncompressed counter page</html>".to_vec();
    let mut enc = GzEncoder::new(Vec::new(), Compression::default());
    enc.write_all(&original).unwrap();
    let compressed = enc.finish().unwrap();

    let table = site_routes(
        compressed.clone(),
        true,
        b"js".to_vec(),
        true,
        b"wasm".to_vec(),
        true,
    );
    let r = handle_request(&table, b"GET / HTTP/1.1\r\nHost: x\r\n\r\n");

    let split = r.windows(4).position(|w| w == b"\r\n\r\n").unwrap();
    let body = &r[split + 4..];
    assert_eq!(body, compressed.as_slice());

    let mut dec = GzDecoder::new(body);
    let mut recovered = Vec::new();
    dec.read_to_end(&mut recovered).unwrap();
    assert_eq!(recovered, original);
}
