use sttp::transport::state_flags::{
    ALL_GROUPS_MASK, CALCULATED_VALUE_MASK, DATA_QUALITY_MASK, DATA_RANGE_MASK,
    DISCARDED_VALUE_MASK, SYSTEM_ISSUE_MASK, TIME_QUALITY_MASK,
};
use sttp::transport::{CompactStateFlags, StateFlags};

#[test]
fn normal_flags_compact_to_nothing() {
    let f = StateFlags::from_bits(StateFlags::NORMAL);
    assert_eq!(f.map_to_compact_flags().bits(), CompactStateFlags::NO_FLAGS);
    assert_eq!(CompactStateFlags::from_bits(0).map_to_full_flags().bits(), 0);
}

#[test]
fn each_group_maps_to_its_compact_bit() {
    let cases = [
        (StateFlags::ALARM_HIGH, CompactStateFlags::DATA_RANGE),
        (StateFlags::BAD_DATA, CompactStateFlags::DATA_QUALITY),
        (StateFlags::LATE_TIME_ALARM, CompactStateFlags::TIME_QUALITY),
        (StateFlags::SYSTEM_WARNING, CompactStateFlags::SYSTEM_ISSUE),
        (StateFlags::CALCULATED_VALUE, CompactStateFlags::CALCULATED_VALUE),
        (StateFlags::DISCARDED_VALUE, CompactStateFlags::DISCARDED_VALUE),
    ];
    for (flag, bit) in cases {
        assert_eq!(StateFlags::from_bits(flag).map_to_compact_flags().bits(), bit);
    }
}

#[test]
fn compact_bits_restore_whole_groups() {
    let all = CompactStateFlags::from_bits(0x3F).map_to_full_flags();
    assert_eq!(all.bits(), ALL_GROUPS_MASK);
    assert_eq!(CompactStateFlags::from_bits(0x01).map_to_full_flags().bits(), DATA_RANGE_MASK);
    assert_eq!(CompactStateFlags::from_bits(0x02).map_to_full_flags().bits(), DATA_QUALITY_MASK);
    assert_eq!(CompactStateFlags::from_bits(0x04).map_to_full_flags().bits(), TIME_QUALITY_MASK);
    assert_eq!(CompactStateFlags::from_bits(0x08).map_to_full_flags().bits(), SYSTEM_ISSUE_MASK);
    assert_eq!(CompactStateFlags::from_bits(0x10).map_to_full_flags().bits(), CALCULATED_VALUE_MASK);
    assert_eq!(CompactStateFlags::from_bits(0x20).map_to_full_flags().bits(), DISCARDED_VALUE_MASK);
}

#[test]
fn control_bits_do_not_touch_groups() {
    let c = CompactStateFlags::from_bits(CompactStateFlags::TIME_INDEX | CompactStateFlags::BASE_TIME_OFFSET);
    assert_eq!(c.map_to_full_flags().bits(), 0);
}

#[test]
fn round_trip_is_group_projection() {
    let f = StateFlags::from_bits(StateFlags::BAD_DATA | StateFlags::UP_SAMPLED | StateFlags::USER_DEFINED_FLAG1);
    let back = f.map_to_compact_flags().map_to_full_flags();
    assert_eq!(back.bits(), DATA_QUALITY_MASK | TIME_QUALITY_MASK);
    assert!(back.contains(StateFlags::BAD_DATA | StateFlags::UP_SAMPLED));
    assert!(!back.contains(StateFlags::USER_DEFINED_FLAG1));
    let whole = StateFlags::from_bits(SYSTEM_ISSUE_MASK | CALCULATED_VALUE_MASK);
    assert_eq!(whole.map_to_compact_flags().map_to_full_flags(), whole);
}
