use std::sync::Arc;
use sttp::transport::{CompactMeasurement, DecodeError, SignalIndexCache, StateFlags};
use sttp::{Guid, Ticks};

const SIGNAL_ID: &str = "a1a2a3a4-b1b2-c1c2-d1d2-d3d4d5d6d7d8";

fn cache() -> Arc<SignalIndexCache> {
    let mut b = Vec::new();
    b.extend_from_slice(&0u32.to_be_bytes());
    b.extend_from_slice(&[0u8; 16]);
    b.extend_from_slice(&1u32.to_be_bytes());
    b.extend_from_slice(&7i32.to_be_bytes());
    b.extend_from_slice(uuid::Uuid::parse_str(SIGNAL_ID).unwrap().as_bytes());
    b.extend_from_slice(&7u32.to_be_bytes());
    b.extend_from_slice(b"DEVICE1");
    b.extend_from_slice(&42u64.to_be_bytes());
    let mut c = SignalIndexCache::new();
    c.decode(&b).unwrap();
    Arc::new(c)
}

fn signal_guid() -> Guid {
    Guid::from_u128(uuid::Uuid::parse_str(SIGNAL_ID).unwrap().as_u128())
}

fn sender(include_time: bool, ms: bool, base: u64, ts: u64) -> CompactMeasurement {
    let mut m = CompactMeasurement::new(cache(), include_time, ms);
    m.set_signal_id(signal_guid());
    m.set_value_bits(1.5f32.to_bits());
    m.set_timestamp(Ticks::new(ts));
    m.set_flags(StateFlags::from_bits(StateFlags::BAD_DATA));
    m.set_base_time_offsets(base, 0);
    m
}

fn receiver(include_time: bool, ms: bool, base: u64) -> CompactMeasurement {
    let mut r = CompactMeasurement::new(cache(), include_time, ms);
    r.set_base_time_offsets(base, 0);
    r
}

#[test]
fn absolute_timestamp_round_trip() {
    let ts = Ticks::new(637669683993391278).set_leap_second().val;
    let mut m = sender(true, false, 0, ts);
    let bytes = m.encode();
    assert_eq!(bytes.len(), 17);
    assert_eq!(bytes[0], 0x02);
    assert_eq!(&bytes[1..5], &[0, 0, 0, 7]);
    assert_eq!(&bytes[5..9], &1.5f32.to_be_bytes());
    let mut r = receiver(true, false, 0);
    assert_eq!(r.decode(&bytes), Ok(17));
    assert_eq!(r.signal_id(), signal_guid());
    assert_eq!(f32::from_bits(r.value_bits()) as f64, 1.5);
    assert_eq!(r.timestamp().val, ts);
    assert_eq!(r.get_runtime_id(), 7);
}

#[test]
fn tick_offset_round_trip() {
    let base = 637669683000000000;
    let ts = base + 123_456;
    let mut m = sender(true, false, base, ts);
    assert_eq!(m.get_binary_length(), 13);
    assert_eq!(m.get_timestamp_c4(), 123_456);
    let bytes = m.encode();
    assert_eq!(bytes.len(), 13);
    assert_eq!(bytes[0] & 0x80, 0x80);
    let mut r = receiver(true, false, base);
    assert_eq!(r.decode(&bytes), Ok(13));
    assert_eq!(r.timestamp().val, ts);
    assert_eq!(r.flags().bits(), sttp::transport::state_flags::DATA_QUALITY_MASK);
}

#[test]
fn millisecond_offset_round_trip_drops_sub_millisecond() {
    let base = 637669683000000000;
    let ts = base + 25 * 10_000 + 7;
    let mut m = sender(true, true, base, ts);
    assert_eq!(m.get_binary_length(), 11);
    assert_eq!(m.get_timestamp_c2(), 25);
    let bytes = m.encode();
    let mut r = receiver(true, true, base);
    assert_eq!(r.decode(&bytes), Ok(11));
    assert_eq!(r.timestamp().val, base + 250_000);
}

#[test]
fn too_far_from_base_uses_absolute_form() {
    let base = 1_000;
    let ts = base + 0xFFFF_FFFF;
    let mut m = sender(true, false, base, ts);
    assert_eq!(m.get_binary_length(), 17);
    let mut before = sender(true, false, base, base - 1);
    assert_eq!(before.get_binary_length(), 17);
}

#[test]
fn no_time_means_nine_bytes() {
    let mut m = sender(false, false, 0, 5);
    assert!(!m.include_time());
    let bytes = m.encode();
    assert_eq!(bytes.len(), 9);
    let mut r = receiver(false, false, 0);
    assert_eq!(r.decode(&bytes), Ok(9));
    assert_eq!(r.timestamp().val, 0);
}

#[test]
fn short_buffer_fails() {
    let mut r = receiver(true, false, 0);
    assert_eq!(r.decode(&[0u8; 8]), Err(DecodeError::Truncated));
    assert_eq!(r.decode(&[0u8; 16]), Err(DecodeError::Truncated));
    assert_eq!(r.decode(&[0u8; 17]), Ok(17));
}

#[test]
fn batch_decoding_advances_by_consumed_length() {
    let mut m = sender(true, false, 0, 99);
    let mut bytes = m.encode();
    bytes.extend(m.encode());
    let mut r = receiver(true, false, 0);
    let n = r.decode(&bytes).unwrap();
    assert_eq!(n, 17);
    assert_eq!(r.decode(&bytes[n..]), Ok(17));
    assert_eq!(r.timestamp().val, 99);
}

#[test]
fn unknown_runtime_id_gives_nil_signal() {
    let mut r = receiver(false, false, 0);
    let mut bytes = vec![0u8];
    bytes.extend_from_slice(&99i32.to_be_bytes());
    bytes.extend_from_slice(&[0, 0, 0, 0]);
    assert_eq!(r.decode(&bytes), Ok(9));
    assert!(r.signal_id().is_nil());
}

#[test]
fn compact_state_flags_byte() {
    let mut m = CompactMeasurement::new(cache(), true, false);
    m.set_compact_state_flags(0x40 | 0x80 | 0x04);
    assert_eq!(m.get_compact_state_flags(), 0x40 | 0x80 | 0x04);
    assert_eq!(m.flags().bits(), sttp::transport::state_flags::TIME_QUALITY_MASK);
    m.set_time_index(false);
    m.set_runtime_id(7);
    assert_eq!(m.signal_id(), signal_guid());
    m.set_runtime_id(8);
    assert!(m.signal_id().is_nil());
    assert_eq!(m.get_runtime_id(), -1);
}

#[test]
fn second_time_index_selects_second_offset() {
    let base = 637669683000000000;
    let mut m = CompactMeasurement::new(cache(), true, false);
    m.set_base_time_offsets(0, base);
    m.set_time_index(true);
    m.set_timestamp(Ticks::new(base + 10));
    assert_eq!(m.get_binary_length(), 13);
    assert_eq!(m.timestamp_value(), base + 10);
    assert_eq!(m.datetime(), Ticks::new(base + 10).to_datetime());
}

#[test]
fn batch_decode_walks_all_images() {
    let base = 637669683000000000;
    let mut a = sender(true, false, base, base + 5);
    let mut b = sender(true, false, base, base + 0x1_0000_0000);
    b.set_value_bits(2.0f32.to_bits());
    let mut bytes = a.encode();
    bytes.extend(b.encode());
    assert_eq!(bytes.len(), 13 + 17);
    let r = receiver(true, false, base);
    let ms = r.decode_batch(&bytes).unwrap();
    assert_eq!(ms.len(), 2);
    assert_eq!(ms[0].timestamp().val, base + 5);
    assert_eq!(ms[1].timestamp().val, base + 0x1_0000_0000);
    assert_eq!(f32::from_bits(ms[1].value_bits()), 2.0);
    assert_eq!(ms[1].signal_id(), signal_guid());
    assert_eq!(r.decode_batch(&bytes[..29]).err(), Some(DecodeError::Truncated));
    assert_eq!(r.decode_batch(&[]).unwrap().len(), 0);
}
