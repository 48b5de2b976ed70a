use x402_swarm::ipc::{decode_frame, encode_frame, is_newer, IPC_FILE, IPC_SIZE};
use x402_swarm::ipfs::{ipfs_payload, IPFS_PAYLOAD_VERSION};
use x402_swarm::memory::{edge_key, liquidation_key_prefix, TOME_KEY_PREFIX};
use x402_swarm::oracle::Market;
use x402_swarm::text::decimal_string;

#[test]
fn frame_roundtrip() {
    let payload: Vec<u8> = vec![1, 2, 3, 250, 0, 7];
    let image = encode_frame(&payload);
    assert_eq!(image.len(), IPC_SIZE);
    assert_eq!(&image[0..4], &[6, 0, 0, 0]);
    assert_eq!(&image[4..10], payload.as_slice());
    assert!(image[10..].iter().all(|b| *b == 0));
    assert_eq!(decode_frame(&image), Some(payload));
}

#[test]
fn frame_largest_payload() {
    let payload: Vec<u8> = (0..IPC_SIZE - 4).map(|i| (i % 251) as u8).collect();
    let image = encode_frame(&payload);
    assert_eq!(&image[0..4], &[0xfc, 0x0f, 0, 0]);
    assert_eq!(decode_frame(&image), Some(payload));
}

#[test]
fn frame_empty_or_oversized_reads_as_nothing() {
    let image = encode_frame(&[]);
    assert_eq!(decode_frame(&image), None);
    let mut bad = vec![0u8; IPC_SIZE];
    bad[0] = 0xfd;
    bad[1] = 0x0f;
    assert_eq!(decode_frame(&bad), None);
    let zeros = vec![0u8; IPC_SIZE];
    assert_eq!(decode_frame(&zeros), None);
    assert_eq!(IPC_FILE, "/tmp/x402_ipc.mmap");
}

#[test]
fn freshness() {
    assert!(is_newer(5, 4));
    assert!(!is_newer(4, 4));
    assert!(!is_newer(3, 4));
}

#[test]
fn decimal_rendering() {
    assert_eq!(decimal_string(0), "0");
    assert_eq!(decimal_string(7), "7");
    assert_eq!(decimal_string(300), "300");
    assert_eq!(decimal_string(1_712_345_678), "1712345678");
    assert_eq!(decimal_string(u64::MAX), u64::MAX.to_string());
}

#[test]
fn edge_keys() {
    let prefix = liquidation_key_prefix("0xHumanTrader");
    assert_eq!(prefix, "edge:0xHumanTrader");
    assert_eq!(edge_key(&prefix, 1_700_000_000), "edge:0xHumanTrader:1700000000");
    assert_eq!(edge_key(TOME_KEY_PREFIX, 42), "tome:42");
    assert_ne!(edge_key("tome", 1), edge_key("tome", 10));
}

#[test]
fn ipfs_record_and_market_price() {
    let p = ipfs_payload("ts=1,target=idle");
    assert_eq!(p.version, "1.0");
    assert_eq!(IPFS_PAYLOAD_VERSION, "1.0");
    assert_eq!(p.payload, "ts=1,target=idle");
    let m = Market { outcome_prices: Some(vec!["0.62".to_string(), "0.38".to_string()]) };
    assert_eq!(m.yes_price().map(|s| s.as_str()), Some("0.62"));
    let empty = Market { outcome_prices: Some(vec![]) };
    assert_eq!(empty.yes_price(), None);
    let none = Market { outcome_prices: None };
    assert_eq!(none.yes_price(), None);
}

#[test]
fn knowledge_tomes_are_markdown() {
    assert!(x402_swarm::memory::is_knowledge_tome("md"));
    assert!(!x402_swarm::memory::is_knowledge_tome("txt"));
    assert!(!x402_swarm::memory::is_knowledge_tome(""));
    assert!(x402_swarm::auto_ramp::ramp_evaluation_due(100));
    assert!(x402_swarm::auto_ramp::ramp_evaluation_due(0));
    assert!(!x402_swarm::auto_ramp::ramp_evaluation_due(101));
}
