use sttp::transport::{DecodeError, SignalIndexCache};
use sttp::Guid;

const SIGNAL_ID: &str = "a1a2a3a4-b1b2-c1c2-d1d2-d3d4d5d6d7d8";
const SUBSCRIBER_ID: &str = "0f0e0d0c-0b0a-0908-0706-050403020100";

fn uuid_bytes(text: &str) -> Vec<u8> {
    uuid::Uuid::parse_str(text).unwrap().as_bytes().to_vec()
}

fn record(index: i32, id: &str, source: &[u8], key: u64) -> Vec<u8> {
    let mut b = Vec::new();
    b.extend_from_slice(&index.to_be_bytes());
    b.extend_from_slice(&uuid_bytes(id));
    b.extend_from_slice(&(source.len() as u32).to_be_bytes());
    b.extend_from_slice(source);
    b.extend_from_slice(&key.to_be_bytes());
    b
}

fn image(declared: u32, records: &[Vec<u8>]) -> Vec<u8> {
    let mut b = Vec::new();
    b.extend_from_slice(&declared.to_be_bytes());
    b.extend_from_slice(&uuid_bytes(SUBSCRIBER_ID));
    b.extend_from_slice(&(records.len() as u32).to_be_bytes());
    for r in records {
        b.extend_from_slice(r);
    }
    b
}

fn signal_guid() -> Guid {
    Guid::from_u128(uuid::Uuid::parse_str(SIGNAL_ID).unwrap().as_u128())
}

#[test]
fn decodes_single_record_image() {
    let buffer = image(0x1D, &[record(7, SIGNAL_ID, b"DEVICE1", 42)]);
    let mut cache = SignalIndexCache::new();
    let subscriber = cache.decode(&buffer).unwrap();
    assert_eq!(subscriber.as_u128(), 0x0f0e0d0c_0b0a_0908_0706_050403020100);
    assert!(cache.contains(7));
    assert_eq!(cache.signal_index(signal_guid()), 7);
    assert_eq!(cache.count(), 1);
    assert_eq!(cache.signal_id(7), signal_guid());
    assert_eq!(cache.source(7), "DEVICE1");
    assert_eq!(cache.id(7), 42);
    assert_eq!(cache.record(7), (signal_guid(), "DEVICE1", 42, true));
    assert_eq!(cache.signal_ids(), vec![signal_guid()]);
}

#[test]
fn missing_index_gives_sentinels() {
    let cache = SignalIndexCache::new();
    assert!(!cache.contains(3));
    assert!(cache.signal_id(3).is_nil());
    assert_eq!(cache.source(3), "");
    assert_eq!(cache.id(3), u64::MAX);
    assert_eq!(cache.record(3), (Guid::nil(), "", 0, false));
    assert_eq!(cache.signal_index(signal_guid()), -1);
    assert_eq!(cache.count(), 0);
}

#[test]
fn later_record_shadows_earlier_index() {
    let other = "11111111-2222-3333-4444-555555555555";
    let buffer = image(0, &[record(7, SIGNAL_ID, b"A", 1), record(7, other, b"B", 2)]);
    let mut cache = SignalIndexCache::new();
    cache.decode(&buffer).unwrap();
    assert_eq!(cache.source(7), "B");
    assert_eq!(cache.id(7), 2);
    assert_eq!(cache.count(), 2);
    assert_eq!(cache.signal_index(signal_guid()), 7);
}

#[test]
fn negative_index_decodes() {
    let buffer = image(0, &[record(-2, SIGNAL_ID, b"", 0)]);
    let mut cache = SignalIndexCache::new();
    cache.decode(&buffer).unwrap();
    assert!(cache.contains(-2));
    assert_eq!(cache.source(-2), "");
}

#[test]
fn every_truncation_fails_and_leaves_cache() {
    let buffer = image(0x1D, &[record(7, SIGNAL_ID, b"DEVICE1", 42)]);
    for k in 0..buffer.len() {
        let mut cache = SignalIndexCache::new();
        assert_eq!(cache.decode(&buffer[..k]), Err(DecodeError::Truncated), "prefix {}", k);
        assert_eq!(cache.count(), 0);
        assert!(!cache.contains(7));
    }
}

#[test]
fn declared_length_beyond_buffer_fails() {
    let buffer = image(1000, &[]);
    let mut cache = SignalIndexCache::new();
    assert_eq!(cache.decode(&buffer), Err(DecodeError::Truncated));
}

#[test]
fn invalid_utf8_source_fails() {
    let buffer = image(0, &[record(1, SIGNAL_ID, &[0xFF, 0xFE], 5)]);
    let mut cache = SignalIndexCache::new();
    assert_eq!(cache.decode(&buffer), Err(DecodeError::InvalidUtf8));
    assert!(!cache.contains(1));
}

#[test]
fn decoding_twice_gives_same_lookups() {
    let buffer = image(0x1D, &[record(7, SIGNAL_ID, b"DEVICE1", 42), record(9, SUBSCRIBER_ID, b"X", 3)]);
    let mut a = SignalIndexCache::new();
    let mut b = SignalIndexCache::new();
    assert_eq!(a.decode(&buffer), b.decode(&buffer));
    for i in [7, 9, 8] {
        assert_eq!(a.record(i), b.record(i));
    }
}

#[test]
fn guid_from_bytes_reads_big_endian() {
    let bytes: Vec<u8> = (1..=16).collect();
    assert_eq!(Guid::from_bytes(&bytes).as_u128(), 0x0102030405060708090a0b0c0d0e0f10);
}
