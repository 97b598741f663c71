use vstd::prelude::*;

verus! {

/// Quality bits of the data range group: range errors, alarms and warnings.
pub const DATA_RANGE_MASK: u32 = 0x0000_00FC;

/// Quality bits of the data quality group: bad, suspect, flatline, comparison, rate of
/// change, received-as-bad, calculation error and warning, reserved quality flag.
pub const DATA_QUALITY_MASK: u32 = 0x0000_EF03;

/// Quality bits of the time quality group: bad or suspect time, late or future time
/// alarms, up- or down-sampled, reserved time flag.
pub const TIME_QUALITY_MASK: u32 = 0x00BF_0000;

/// Quality bits of the system issue group: system error, system warning, measurement error.
pub const SYSTEM_ISSUE_MASK: u32 = 0xE000_0000;

/// The calculated value bit, a group of its own.
pub const CALCULATED_VALUE_MASK: u32 = 0x0000_1000;

/// The discarded value bit, a group of its own.
pub const DISCARDED_VALUE_MASK: u32 = 0x0040_0000;

/// Every bit that belongs to one of the six groups; the user-defined bits do not.
pub const ALL_GROUPS_MASK: u32 = 0xE0FF_FFFF;

/// The set of quality and alarm conditions of a measurement, one bit each.
#[derive(Copy, Clone, Debug, Default, PartialEq, Eq, Hash, Structural)]
pub struct StateFlags {
    pub bits: u32,
}

/// The 8-bit wire form of quality flags: one bit per quality group, plus the
/// time-index and base-time-offset bits of the compact measurement codec.
#[derive(Copy, Clone, Debug, Default, PartialEq, Eq, Hash, Structural)]
pub struct CompactStateFlags {
    pub bits: u8,
}

/// `bit` if `flags` meets `mask`, else nothing.
pub open spec fn group_bit(flags: u32, mask: u32, bit: u8) -> u8 {
    if flags & mask != 0 {
        bit
    } else {
        0
    }
}

/// `mask` if `compact` holds `bit`, else nothing.
pub open spec fn group_mask(compact: u8, bit: u8, mask: u32) -> u32 {
    if compact & bit != 0 {
        mask
    } else {
        0
    }
}

/// The compact byte of a flag set: the bit of each group that the set meets.
pub open spec fn compact_of(flags: u32) -> u8 {
    group_bit(flags, DATA_RANGE_MASK, 0x01) | group_bit(flags, DATA_QUALITY_MASK, 0x02)
        | group_bit(flags, TIME_QUALITY_MASK, 0x04) | group_bit(flags, SYSTEM_ISSUE_MASK, 0x08)
        | group_bit(flags, CALCULATED_VALUE_MASK, 0x10) | group_bit(
        flags,
        DISCARDED_VALUE_MASK,
        0x20,
    )
}

/// The flag set restored from a compact byte: the whole mask of each group whose bit
/// is set.
pub open spec fn full_of(compact: u8) -> u32 {
    group_mask(compact, 0x01, DATA_RANGE_MASK) | group_mask(compact, 0x02, DATA_QUALITY_MASK)
        | group_mask(compact, 0x04, TIME_QUALITY_MASK) | group_mask(compact, 0x08, SYSTEM_ISSUE_MASK)
        | group_mask(compact, 0x10, CALCULATED_VALUE_MASK) | group_mask(
        compact,
        0x20,
        DISCARDED_VALUE_MASK,
    )
}

/// The union of the group masks that `flags` meets.
pub open spec fn group_closure(flags: u32) -> u32 {
    (if flags & DATA_RANGE_MASK != 0 { DATA_RANGE_MASK } else { 0 }) | (if flags
        & DATA_QUALITY_MASK != 0 {
        DATA_QUALITY_MASK
    } else {
        0
    }) | (if flags & TIME_QUALITY_MASK != 0 { TIME_QUALITY_MASK } else { 0 }) | (if flags
        & SYSTEM_ISSUE_MASK != 0 {
        SYSTEM_ISSUE_MASK
    } else {
        0
    }) | (if flags & CALCULATED_VALUE_MASK != 0 { CALCULATED_VALUE_MASK } else { 0 }) | (if flags
        & DISCARDED_VALUE_MASK != 0 {
        DISCARDED_VALUE_MASK
    } else {
        0
    })
}

impl StateFlags {
    /// Measurement is in a normal state: no flag set.
    pub const NORMAL: u32 = 0x0;
    /// Measurement value is bad.
    pub const BAD_DATA: u32 = 0x1;
    /// Measurement value is suspect.
    pub const SUSPECT_DATA: u32 = 0x2;
    /// Measurement value is over its high range.
    pub const OVER_RANGE_ERROR: u32 = 0x4;
    /// Measurement value is under its low range.
    pub const UNDER_RANGE_ERROR: u32 = 0x8;
    /// Measurement value is above its high alarm limit.
    pub const ALARM_HIGH: u32 = 0x10;
    /// Measurement value is below its low alarm limit.
    pub const ALARM_LOW: u32 = 0x20;
    /// Measurement value is above its high warning limit.
    pub const WARNING_HIGH: u32 = 0x40;
    /// Measurement value is below its low warning limit.
    pub const WARNING_LOW: u32 = 0x80;
    /// Measurement value is flat-lining.
    pub const FLATLINE_ALARM: u32 = 0x100;
    /// Measurement value differs from a comparison value.
    pub const COMPARISON_ALARM: u32 = 0x200;
    /// Measurement value changes faster than its rate-of-change limit.
    pub const ROC_ALARM: u32 = 0x400;
    /// Measurement value arrived flagged as bad.
    pub const RECEIVED_AS_BAD: u32 = 0x800;
    /// Measurement value is calculated, not measured.
    pub const CALCULATED_VALUE: u32 = 0x1000;
    /// An error occurred while calculating the value.
    pub const CALCULATION_ERROR: u32 = 0x2000;
    /// A warning occurred while calculating the value.
    pub const CALCULATION_WARNING: u32 = 0x4000;
    /// Reserved quality flag.
    pub const RESERVED_QUALITY_FLAG: u32 = 0x8000;
    /// Measurement timestamp is bad.
    pub const BAD_TIME: u32 = 0x10000;
    /// Measurement timestamp is suspect.
    pub const SUSPECT_TIME: u32 = 0x20000;
    /// Measurement arrived later than its lag time.
    pub const LATE_TIME_ALARM: u32 = 0x40000;
    /// Measurement timestamp lies further ahead than its lead time.
    pub const FUTURE_TIME_ALARM: u32 = 0x80000;
    /// Measurement was up-sampled.
    pub const UP_SAMPLED: u32 = 0x100000;
    /// Measurement was down-sampled.
    pub const DOWN_SAMPLED: u32 = 0x200000;
    /// Measurement value was discarded.
    pub const DISCARDED_VALUE: u32 = 0x400000;
    /// Reserved time flag.
    pub const RESERVED_TIME_FLAG: u32 = 0x800000;
    /// User-defined flag 1.
    pub const USER_DEFINED_FLAG1: u32 = 0x1000000;
    /// User-defined flag 2.
    pub const USER_DEFINED_FLAG2: u32 = 0x2000000;
    /// User-defined flag 3.
    pub const USER_DEFINED_FLAG3: u32 = 0x4000000;
    /// User-defined flag 4.
    pub const USER_DEFINED_FLAG4: u32 = 0x8000000;
    /// User-defined flag 5.
    pub const USER_DEFINED_FLAG5: u32 = 0x10000000;
    /// A system error occurred.
    pub const SYSTEM_ERROR: u32 = 0x20000000;
    /// A system warning occurred.
    pub const SYSTEM_WARNING: u32 = 0x40000000;
    /// An error occurred while taking the measurement.
    pub const MEASUREMENT_ERROR: u32 = 0x80000000;

    /// The flag set with the given bits.
    pub fn from_bits(bits: u32) -> (r: Self)
        ensures
            r.bits == bits,
    {
        StateFlags { bits }
    }

    /// The raw bits of this flag set.
    pub fn bits(&self) -> (r: u32)
        ensures
            r == self.bits,
    {
        self.bits
    }

    /// Whether every bit of `other` is in this set.
    pub fn contains(&self, other: u32) -> (r: bool)
        ensures
            r == (self.bits & other == other),
    {
        self.bits & other == other
    }

    /// The compact byte of this flag set.
    pub open spec fn spec_map_to_compact_flags(&self) -> CompactStateFlags {
        CompactStateFlags { bits: compact_of(self.bits) }
    }

    /// Maps this flag set to its compact byte: for each of the six quality groups, the
    /// group's compact bit is set if and only if the set holds a bit of that group.
    /// The time-index and base-time-offset bits stay clear.
    #[verifier::when_used_as_spec(spec_map_to_compact_flags)]
    pub fn map_to_compact_flags(&self) -> (r: CompactStateFlags)
        ensures
            r == self.spec_map_to_compact_flags(),
    {
        let f = self.bits;
        let data_range: u8 = if f & DATA_RANGE_MASK != 0 { CompactStateFlags::DATA_RANGE } else { 0 };
        let data_quality: u8 = if f & DATA_QUALITY_MASK != 0 { CompactStateFlags::DATA_QUALITY } else { 0 };
        let time_quality: u8 = if f & TIME_QUALITY_MASK != 0 { CompactStateFlags::TIME_QUALITY } else { 0 };
        let system_issue: u8 = if f & SYSTEM_ISSUE_MASK != 0 { CompactStateFlags::SYSTEM_ISSUE } else { 0 };
        let calculated: u8 = if f & CALCULATED_VALUE_MASK != 0 { CompactStateFlags::CALCULATED_VALUE } else { 0 };
        let discarded: u8 = if f & DISCARDED_VALUE_MASK != 0 { CompactStateFlags::DISCARDED_VALUE } else { 0 };
        CompactStateFlags {
            bits: data_range | data_quality | time_quality | system_issue | calculated | discarded,
        }
    }
}

impl CompactStateFlags {
    /// Some bit of the data range group is set.
    pub const DATA_RANGE: u8 = 0x01;
    /// Some bit of the data quality group is set.
    pub const DATA_QUALITY: u8 = 0x02;
    /// Some bit of the time quality group is set.
    pub const TIME_QUALITY: u8 = 0x04;
    /// Some bit of the system issue group is set.
    pub const SYSTEM_ISSUE: u8 = 0x08;
    /// The value is calculated.
    pub const CALCULATED_VALUE: u8 = 0x10;
    /// The value was discarded.
    pub const DISCARDED_VALUE: u8 = 0x20;
    /// The measurement uses the second of the two base time offsets.
    pub const TIME_INDEX: u8 = 0x40;
    /// The timestamp is written relative to a base time offset.
    pub const BASE_TIME_OFFSET: u8 = 0x80;
    /// No bit set.
    pub const NO_FLAGS: u8 = 0x00;

    /// The compact flags with the given bits.
    pub fn from_bits(bits: u8) -> (r: Self)
        ensures
            r.bits == bits,
    {
        CompactStateFlags { bits }
    }

    /// The raw bits of these compact flags.
    pub fn bits(&self) -> (r: u8)
        ensures
            r == self.bits,
    {
        self.bits
    }

    /// Whether every bit of `other` is set.
    pub fn contains(&self, other: u8) -> (r: bool)
        ensures
            r == (self.bits & other == other),
    {
        self.bits & other == other
    }

    /// The flag set restored from these compact flags.
    pub open spec fn spec_map_to_full_flags(&self) -> StateFlags {
        StateFlags { bits: full_of(self.bits) }
    }

    /// Expands these compact flags to a flag set: each group bit that is set restores
    /// the whole mask of its group. The time-index and base-time-offset bits are ignored.
    #[verifier::when_used_as_spec(spec_map_to_full_flags)]
    pub fn map_to_full_flags(&self) -> (r: StateFlags)
        ensures
            r == self.spec_map_to_full_flags(),
    {
        let c = self.bits;
        let data_range: u32 = if c & Self::DATA_RANGE != 0 { DATA_RANGE_MASK } else { 0 };
        let data_quality: u32 = if c & Self::DATA_QUALITY != 0 { DATA_QUALITY_MASK } else { 0 };
        let time_quality: u32 = if c & Self::TIME_QUALITY != 0 { TIME_QUALITY_MASK } else { 0 };
        let system_issue: u32 = if c & Self::SYSTEM_ISSUE != 0 { SYSTEM_ISSUE_MASK } else { 0 };
        let calculated: u32 = if c & Self::CALCULATED_VALUE != 0 { CALCULATED_VALUE_MASK } else { 0 };
        let discarded: u32 = if c & Self::DISCARDED_VALUE != 0 { DISCARDED_VALUE_MASK } else { 0 };
        StateFlags {
            bits: data_range | data_quality | time_quality | system_issue | calculated | discarded,
        }
    }
}

/// Compacting a flag set and expanding it again gives exactly the union of the group
/// masks that the set meets. So no bit of a group that the set meets is lost, the
/// user-defined bits are dropped, and the set comes back unchanged if and only if it
/// is already a union of whole groups.
pub proof fn lemma_compaction_is_group_projection(flags: StateFlags)
    ensures
        flags.map_to_compact_flags().map_to_full_flags().bits == group_closure(flags.bits),
        flags.bits & ALL_GROUPS_MASK & !group_closure(flags.bits) == 0,
        group_closure(flags.bits) & !ALL_GROUPS_MASK == 0,
        (flags.map_to_compact_flags().map_to_full_flags() == flags) <==> (flags.bits
            == group_closure(flags.bits)),
{
    let f = flags.bits;
    assert(full_of(compact_of(f)) == group_closure(f)) by (bit_vector);
    assert(f & ALL_GROUPS_MASK & !group_closure(f) == 0) by (bit_vector);
    assert(group_closure(f) & !ALL_GROUPS_MASK == 0) by (bit_vector);
}

} // verus!
