use crate::guid::Guid;
use crate::ticks::Ticks;
use crate::transport::signal_index_cache::{EntriesView, SignalIndexCache};
use crate::transport::state_flags::{
    compact_of, full_of, group_closure, CompactStateFlags, StateFlags,
};
use crate::transport::wire::{
    as_signed32, as_unsigned32, be_bytes16, be_bytes32, be_bytes64, be_u16_at, be_u32_at,
    be_u64_at, lemma_be_bytes16, lemma_be_bytes32, lemma_be_bytes64, push_u16_be, push_u32_be, push_u64_be, read_i32_be, read_u16_be, read_u32_be,
    read_u64_be, DecodeError,
};
use std::sync::Arc;
use vstd::arithmetic::div_mod::lemma_fundamental_div_mod;
use vstd::prelude::*;
use vstd::slice::slice_subrange;

verus! {

/// Bytes of a compact measurement before its optional timestamp: flags, runtime signal
/// index and value.
pub const FIXED_LENGTH: usize = 9;

/// The state of a compact measurement, as its contracts see it.
pub struct CompactMeasurementView {
    pub signal_id: u128,
    /// IEEE-754 single-precision bits of the value, as on the wire.
    pub value_bits: u32,
    /// Raw 64 bits of the timestamp, leap second flags included.
    pub timestamp: u64,
    pub flags: u32,
    /// Entries of the signal index cache the measurement resolves identities with.
    pub entries: EntriesView,
    /// Reverse lookup of that cache.
    pub reverse: Map<u128, i32>,
    pub include_time: bool,
    pub base_time_offsets: Seq<u64>,
    pub time_index: i32,
    pub use_millisecond_resolution: bool,
    pub using_base_time_offset: bool,
}

/// The base time offset that the active time index selects.
pub open spec fn active_base(m: CompactMeasurementView) -> u64 {
    m.base_time_offsets[m.time_index as int]
}

/// Time value of the timestamp, the leap second flags masked off.
pub open spec fn time_value(m: CompactMeasurementView) -> u64 {
    m.timestamp & 0x3FFF_FFFF_FFFF_FFFF
}

/// Whether the timestamp can be written relative to the active base time offset: the
/// offset is set, the timestamp lies after it, and the difference fits 16 bits of
/// milliseconds or 32 bits of ticks.
pub open spec fn fits_base_offset(m: CompactMeasurementView) -> bool {
    let base = active_base(m);
    let diff = time_value(m) - base;
    &&& m.include_time
    &&& base > 0
    &&& diff > 0
    &&& if m.use_millisecond_resolution {
        diff / 10_000 < 0xFFFF
    } else {
        diff < 0xFFFF_FFFF
    }
}

/// Length of the wire image: 9 fixed bytes, plus 2, 4 or 8 bytes of time if time is
/// included.
pub open spec fn binary_length(m: CompactMeasurementView) -> nat {
    if !m.include_time {
        9
    } else if fits_base_offset(m) {
        if m.use_millisecond_resolution {
            11
        } else {
            13
        }
    } else {
        17
    }
}

/// The compact flags byte: the group bits of the flags, the time-index bit and the
/// base-time-offset bit.
pub open spec fn compact_flags_byte(m: CompactMeasurementView) -> u8 {
    compact_of(m.flags) | (if m.time_index != 0 { 0x40u8 } else { 0u8 }) | (
    if m.using_base_time_offset {
        0x80u8
    } else {
        0u8
    })
}

/// The runtime signal index that the cache gives the measurement's signal ID, or -1.
pub open spec fn runtime_id_of(m: CompactMeasurementView) -> i32 {
    if m.reverse.contains_key(m.signal_id) {
        m.reverse[m.signal_id]
    } else {
        -1i32
    }
}

/// Milliseconds between the active base time offset and the timestamp, cut to 16 bits.
pub open spec fn timestamp_c2(m: CompactMeasurementView) -> u16 {
    ((time_value(m) - active_base(m)) / 10_000) as u16
}

/// Ticks between the active base time offset and the timestamp, cut to 32 bits.
pub open spec fn timestamp_c4(m: CompactMeasurementView) -> u32 {
    (time_value(m) - active_base(m)) as u32
}

/// The time field of the wire image.
pub open spec fn time_bytes(m: CompactMeasurementView) -> Seq<u8> {
    if !m.include_time {
        Seq::empty()
    } else if m.using_base_time_offset {
        if m.use_millisecond_resolution {
            be_bytes16(timestamp_c2(m))
        } else {
            be_bytes32(timestamp_c4(m))
        }
    } else {
        be_bytes64(m.timestamp)
    }
}

/// The wire image of a measurement whose base-time-offset flag is already computed.
pub open spec fn encoded(m: CompactMeasurementView) -> Seq<u8> {
    seq![compact_flags_byte(m)] + be_bytes32(as_unsigned32(runtime_id_of(m) as int) as u32)
        + be_bytes32(m.value_bits) + time_bytes(m)
}

/// The measurement after the length calculation has decided the base-time-offset flag.
pub open spec fn with_length_decided(m: CompactMeasurementView) -> CompactMeasurementView {
    CompactMeasurementView { using_base_time_offset: fits_base_offset(m), ..m }
}

/// The measurement after reading a compact flags byte: flags restored from the groups,
/// time index and base-time-offset flag from the two control bits.
pub open spec fn with_compact_flags(m: CompactMeasurementView, b: u8) -> CompactMeasurementView {
    CompactMeasurementView {
        flags: full_of(b),
        time_index: if b & 0x40 != 0 {
            1
        } else {
            0
        },
        using_base_time_offset: b & 0x80 != 0,
        ..m
    }
}

/// `base + delta`, saturated at `u64::MAX`.
pub open spec fn offset_time(base: u64, delta: int) -> u64 {
    if base + delta > u64::MAX {
        u64::MAX
    } else {
        (base + delta) as u64
    }
}

/// Decoding a compact measurement image from the start of `s` into `m`: the measurement
/// it gives and the number of bytes it takes.
#[verifier::opaque]
pub open spec fn decode_spec(m: CompactMeasurementView, s: Seq<u8>) -> Result<
    (CompactMeasurementView, nat),
    DecodeError,
> {
    if s.len() < 9 {
        Err(DecodeError::Truncated)
    } else {
        let f = with_compact_flags(m, s[0]);
        let idx = as_signed32(be_u32_at(s, 1)) as i32;
        let sid = if f.entries.contains_key(idx) {
            f.entries[idx].0
        } else {
            0
        };
        let g = CompactMeasurementView { signal_id: sid, value_bits: be_u32_at(s, 5) as u32, ..f };
        if !g.include_time {
            Ok((g, 9))
        } else if g.using_base_time_offset {
            let base = active_base(g);
            if g.use_millisecond_resolution {
                if s.len() < 11 {
                    Err(DecodeError::Truncated)
                } else if base > 0 {
                    Ok(
                        (
                            CompactMeasurementView {
                                timestamp: offset_time(base, be_u16_at(s, 9) * 10_000),
                                ..g
                            },
                            11,
                        ),
                    )
                } else {
                    Ok((g, 11))
                }
            } else {
                if s.len() < 13 {
                    Err(DecodeError::Truncated)
                } else if base > 0 {
                    Ok(
                        (
                            CompactMeasurementView {
                                timestamp: offset_time(base, be_u32_at(s, 9)),
                                ..g
                            },
                            13,
                        ),
                    )
                } else {
                    Ok((g, 13))
                }
            }
        } else {
            if s.len() < 17 {
                Err(DecodeError::Truncated)
            } else {
                Ok((CompactMeasurementView { timestamp: be_u64_at(s, 9) as u64, ..g }, 17))
            }
        }
    }
}

/// The measurement a batch decode starts each image from: the template's cache, time
/// settings and base time offsets, with every per-measurement field cleared.
pub open spec fn fresh_like(m: CompactMeasurementView) -> CompactMeasurementView {
    CompactMeasurementView {
        signal_id: 0,
        value_bits: 0,
        timestamp: 0,
        flags: 0,
        time_index: 0,
        using_base_time_offset: false,
        ..m
    }
}

/// Decoding a buffer of concatenated compact measurement images, each into a fresh
/// measurement like `m`, until the buffer is used up.
pub open spec fn decode_batch_spec(m: CompactMeasurementView, s: Seq<u8>) -> Result<
    Seq<CompactMeasurementView>,
    DecodeError,
>
    decreases s.len(),
{
    if s.len() == 0 {
        Ok(Seq::empty())
    } else {
        match decode_spec(fresh_like(m), s) {
            Err(e) => Err(e),
            Ok((d, n)) => if 0 < n <= s.len() {
                match decode_batch_spec(m, s.subrange(n as int, s.len() as int)) {
                    Err(e) => Err(e),
                    Ok(rest) => Ok(seq![d] + rest),
                }
            } else {
                Err(DecodeError::Truncated)
            },
        }
    }
}

/// Relies on std's `Arc::clone`: the new handle shares the same cache.
#[verifier::external_body]
fn share_cache(cache: &Arc<SignalIndexCache>) -> (r: Arc<SignalIndexCache>)
    ensures
        r == *cache,
{
    Arc::clone(cache)
}

/// A measurement in the compact wire form: its identity comes from a signal index cache
/// and its timestamp may be written relative to one of two base time offsets.
pub struct CompactMeasurement {
    signal_id: Guid,
    value_bits: u32,
    timestamp: Ticks,
    flags: StateFlags,
    signal_index_cache: Arc<SignalIndexCache>,
    include_time: bool,
    base_time_offsets: [u64; 2],
    time_index: i32,
    use_millisecond_resolution: bool,
    using_base_time_offset: bool,
}

impl View for CompactMeasurement {
    type V = CompactMeasurementView;

    closed spec fn view(&self) -> CompactMeasurementView {
        CompactMeasurementView {
            signal_id: self.signal_id.value,
            value_bits: self.value_bits,
            timestamp: self.timestamp.val,
            flags: self.flags.bits,
            entries: self.signal_index_cache.entries(),
            reverse: self.signal_index_cache.reverse(),
            include_time: self.include_time,
            base_time_offsets: self.base_time_offsets@,
            time_index: self.time_index,
            use_millisecond_resolution: self.use_millisecond_resolution,
            using_base_time_offset: self.using_base_time_offset,
        }
    }
}

impl CompactMeasurement {
    /// The cache is well formed, two base time offsets are held, and the time index
    /// selects one of them.
    pub closed spec fn wf(&self) -> bool {
        &&& self.signal_index_cache.wf()
        &&& self@.base_time_offsets.len() == 2
        &&& (self.time_index == 0 || self.time_index == 1)
    }

    /// Creates a compact measurement that resolves identities through the given cache:
    /// nil signal ID, zero value and timestamp, normal flags, both base time offsets
    /// unset and the first time index active.
    pub fn new(
        signal_index_cache: Arc<SignalIndexCache>,
        include_time: bool,
        use_millisecond_resolution: bool,
    ) -> (r: Self)
        requires
            signal_index_cache.wf(),
        ensures
            r.wf(),
            r@.signal_id == 0,
            r@.value_bits == 0,
            r@.timestamp == 0,
            r@.flags == 0,
            r@.entries == signal_index_cache.entries(),
            r@.reverse == signal_index_cache.reverse(),
            r@.include_time == include_time,
            r@.base_time_offsets == seq![0u64, 0u64],
            r@.time_index == 0,
            r@.use_millisecond_resolution == use_millisecond_resolution,
            !r@.using_base_time_offset,
    {
        let r = CompactMeasurement {
            signal_id: Guid::nil(),
            value_bits: 0,
            timestamp: Ticks::new(0),
            flags: StateFlags::from_bits(0),
            signal_index_cache,
            include_time,
            base_time_offsets: [0, 0],
            time_index: 0,
            use_millisecond_resolution,
            using_base_time_offset: false,
        };
        assert(r@.base_time_offsets =~= seq![0u64, 0u64]);
        r
    }

    /// Whether the timestamp is part of the wire image.
    pub fn include_time(&self) -> (r: bool)
        ensures
            r == self@.include_time,
    {
        self.include_time
    }

    /// Length of the wire image. Also decides, and records, whether the timestamp is
    /// written relative to the active base time offset; encoding relies on that.
    pub fn get_binary_length(&mut self) -> (r: usize)
        requires
            old(self).wf(),
        ensures
            final(self).wf(),
            final(self)@ == with_length_decided(old(self)@),
            r == binary_length(old(self)@),
    {
        if !self.include_time {
            self.using_base_time_offset = false;
            return FIXED_LENGTH;
        }
        let base = self.base_time_offsets[self.time_index as usize];
        let value = self.timestamp.timestamp_value();
        let fits = if base > 0 && value > base {
            let difference = value - base;
            if self.use_millisecond_resolution {
                difference / Ticks::PER_MILLISECOND < 0xFFFF
            } else {
                difference < 0xFFFF_FFFF
            }
        } else {
            false
        };
        self.using_base_time_offset = fits;
        if fits {
            if self.use_millisecond_resolution {
                FIXED_LENGTH + 2
            } else {
                FIXED_LENGTH + 4
            }
        } else {
            FIXED_LENGTH + 8
        }
    }

    /// Milliseconds from the active base time offset to the timestamp, cut to 16 bits.
    pub fn get_timestamp_c2(&self) -> (r: u16)
        requires
            self.wf(),
            time_value(self@) >= active_base(self@),
        ensures
            r == timestamp_c2(self@),
    {
        let base = self.base_time_offsets[self.time_index as usize];
        let ms = (self.timestamp.timestamp_value() - base) / Ticks::PER_MILLISECOND;
        (#[verifier::truncate] (ms as u16))
    }

    /// Ticks from the active base time offset to the timestamp, cut to 32 bits.
    pub fn get_timestamp_c4(&self) -> (r: u32)
        requires
            self.wf(),
            time_value(self@) >= active_base(self@),
        ensures
            r == timestamp_c4(self@),
    {
        let base = self.base_time_offsets[self.time_index as usize];
        let ticks = self.timestamp.timestamp_value() - base;
        (#[verifier::truncate] (ticks as u32))
    }

    /// The compact flags byte: group bits of the flags, plus the time-index and
    /// base-time-offset bits.
    pub fn get_compact_state_flags(&self) -> (r: u8)
        ensures
            r == compact_flags_byte(self@),
    {
        let groups = self.flags.map_to_compact_flags().bits();
        let time_index: u8 = if self.time_index != 0 { CompactStateFlags::TIME_INDEX } else { 0 };
        let base_offset: u8 = if self.using_base_time_offset {
            CompactStateFlags::BASE_TIME_OFFSET
        } else {
            0
        };
        groups | time_index | base_offset
    }

    /// Reads a compact flags byte: the flags become the union of the groups it names,
    /// and its two control bits set the time index and the base-time-offset flag.
    pub fn set_compact_state_flags(&mut self, value: u8)
        requires
            old(self).wf(),
        ensures
            final(self).wf(),
            final(self)@ == with_compact_flags(old(self)@, value),
    {
        let flags = CompactStateFlags::from_bits(value);
        self.flags = flags.map_to_full_flags();
        self.time_index = if flags.contains(CompactStateFlags::TIME_INDEX) { 1 } else { 0 };
        self.using_base_time_offset = flags.contains(CompactStateFlags::BASE_TIME_OFFSET);
        assert(value & 0x40 == 0x40 <==> value & 0x40 != 0) by (bit_vector);
        assert(value & 0x80 == 0x80 <==> value & 0x80 != 0) by (bit_vector);
    }

    /// The runtime signal index that the cache gives this measurement's signal ID, or -1.
    pub fn get_runtime_id(&self) -> (r: i32)
        requires
            self.wf(),
        ensures
            r == runtime_id_of(self@),
    {
        self.signal_index_cache.signal_index(self.signal_id)
    }

    /// Sets the signal ID to the one the cache holds for the runtime signal index, or
    /// to the nil ID if the index is not cached.
    pub fn set_runtime_id(&mut self, signal_index: i32)
        requires
            old(self).wf(),
        ensures
            final(self).wf(),
            final(self)@ == (CompactMeasurementView {
                signal_id: if old(self)@.entries.contains_key(signal_index) {
                    old(self)@.entries[signal_index].0
                } else {
                    0
                },
                ..old(self)@
            }),
    {
        self.signal_id = self.signal_index_cache.signal_id(signal_index);
    }

    /// Decodes a compact measurement image from the start of `buffer` into this
    /// measurement and gives the number of bytes it takes, so that a batch of
    /// concatenated images can be walked. Fails with `Truncated`, leaving the
    /// measurement as it was, where the buffer is shorter than the image.
    pub fn decode(&mut self, buffer: &[u8]) -> (r: Result<usize, DecodeError>)
        requires
            old(self).wf(),
        ensures
            final(self).wf(),
            match decode_spec(old(self)@, buffer@) {
                Ok((m, n)) => r == Ok::<usize, DecodeError>(n as usize) && final(self)@ == m && 9
                    <= n <= buffer@.len(),
                Err(e) => r == Err::<usize, DecodeError>(e) && final(self)@ == old(self)@,
            },
    {
        reveal(decode_spec);
        let len = buffer.len();
        if len < FIXED_LENGTH {
            return Err(DecodeError::Truncated);
        }
        let flags = buffer[0];
        let time_index: usize = if flags & CompactStateFlags::TIME_INDEX != 0 { 1 } else { 0 };
        let using_base = flags & CompactStateFlags::BASE_TIME_OFFSET != 0;
        if self.include_time {
            let needed: usize = if using_base {
                if self.use_millisecond_resolution {
                    FIXED_LENGTH + 2
                } else {
                    FIXED_LENGTH + 4
                }
            } else {
                FIXED_LENGTH + 8
            };
            if len < needed {
                return Err(DecodeError::Truncated);
            }
        }
        self.set_compact_state_flags(flags);
        let runtime_id = read_i32_be(buffer, 1);
        self.set_runtime_id(runtime_id);
        self.value_bits = read_u32_be(buffer, 5);
        if !self.include_time {
            return Ok(FIXED_LENGTH);
        }
        if using_base {
            let base = self.base_time_offsets[time_index];
            if self.use_millisecond_resolution {
                if base > 0 {
                    let delta = (read_u16_be(buffer, 9) as u64) * Ticks::PER_MILLISECOND;
                    let t = if base > u64::MAX - delta { u64::MAX } else { base + delta };
                    self.timestamp = Ticks::new(t);
                }
                Ok(FIXED_LENGTH + 2)
            } else {
                if base > 0 {
                    let delta = read_u32_be(buffer, 9) as u64;
                    let t = if base > u64::MAX - delta { u64::MAX } else { base + delta };
                    self.timestamp = Ticks::new(t);
                }
                Ok(FIXED_LENGTH + 4)
            }
        } else {
            self.timestamp = Ticks::new(read_u64_be(buffer, 9));
            Ok(FIXED_LENGTH + 8)
        }
    }

    /// Encodes this measurement to its wire image. Computes the binary length first,
    /// which decides whether the timestamp is written relative to the active base time
    /// offset.
    pub fn encode(&mut self) -> (r: Vec<u8>)
        requires
            old(self).wf(),
        ensures
            final(self).wf(),
            final(self)@ == with_length_decided(old(self)@),
            r@ == encoded(final(self)@),
            r@.len() == binary_length(old(self)@),
    {
        let length = self.get_binary_length();
        let mut out: Vec<u8> = Vec::new();
        out.push(self.get_compact_state_flags());
        let runtime_id = self.get_runtime_id();
        let id_bits: u32 = if runtime_id >= 0 {
            runtime_id as u32
        } else {
            ((runtime_id + 0x7FFF_FFFF + 1) as u32) + 0x8000_0000
        };
        push_u32_be(&mut out, id_bits);
        push_u32_be(&mut out, self.value_bits);
        let ghost before_time = out@;
        if self.include_time {
            if self.using_base_time_offset {
                if self.use_millisecond_resolution {
                    let c2 = self.get_timestamp_c2();
                    push_u16_be(&mut out, c2);
                } else {
                    let c4 = self.get_timestamp_c4();
                    push_u32_be(&mut out, c4);
                }
            } else {
                push_u64_be(&mut out, self.timestamp.val);
            }
        }
        assert(out@ =~= encoded(self@));
        out
    }

    /// Decodes a buffer of concatenated compact measurement images, as a data packet
    /// carries them, each into a fresh measurement that shares this one's cache, time
    /// settings and base time offsets. Fails where an image is cut short.
    pub fn decode_batch(&self, buffer: &[u8]) -> (r: Result<Vec<CompactMeasurement>, DecodeError>)
        requires
            self.wf(),
        ensures
            match decode_batch_spec(self@, buffer@) {
                Ok(views) => r matches Ok(ms) && ms@.len() == views.len() && forall|i: int|
                    0 <= i < views.len() ==> (#[trigger] ms@[i]).wf() && ms@[i]@ == views[i],
                Err(e) => r == Err::<Vec<CompactMeasurement>, DecodeError>(e),
            },
    {
        let ghost s = buffer@;
        let len = buffer.len();
        let mut out: Vec<CompactMeasurement> = Vec::new();
        let mut off: usize = 0;
        assert(s.subrange(0, len as int) =~= s);
        proof {
            match decode_batch_spec(self@, s) {
                Ok(v) => {
                    assert(out@.map_values(|x: CompactMeasurement| x@) + v =~= v);
                },
                Err(_) => {},
            }
        }
        while off < len
            invariant
                s == buffer@,
                len == s.len(),
                off <= len,
                self.wf(),
                forall|i: int| 0 <= i < out@.len() ==> (#[trigger] out@[i]).wf(),
                decode_batch_spec(self@, s) == match decode_batch_spec(
                    self@,
                    s.subrange(off as int, len as int),
                ) {
                    Ok(rest) => Ok(out@.map_values(|x: CompactMeasurement| x@) + rest),
                    Err(e) => Err(e),
                },
            decreases len - off,
        {
            let mut m = CompactMeasurement::new(
                share_cache(&self.signal_index_cache),
                self.include_time,
                self.use_millisecond_resolution,
            );
            m.set_base_time_offsets(self.base_time_offsets[0], self.base_time_offsets[1]);
            assert(m@.base_time_offsets =~= self@.base_time_offsets);
            assert(m@ == fresh_like(self@));
            let rest = slice_subrange(buffer, off, len);
            assert(rest@ == s.subrange(off as int, len as int));
            match m.decode(rest) {
                Err(e) => {
                    return Err(e);
                },
                Ok(n) => {
                    let ghost before = out@.map_values(|x: CompactMeasurement| x@);
                    let ghost d = m@;
                    out.push(m);
                    assert(out@.map_values(|x: CompactMeasurement| x@) =~= before.push(d));
                    assert(s.subrange(off as int, len as int).subrange(n as int, len - off) =~= s.subrange(
                        off + n,
                        len as int,
                    ));
                    proof {
                        match decode_batch_spec(self@, s.subrange(off + n, len as int)) {
                            Ok(rest2) => {
                                assert(before + (seq![d] + rest2) =~= before.push(d) + rest2);
                            },
                            Err(_) => {},
                        }
                    }
                    off = off + n;
                },
            }
        }
        let ghost views = out@.map_values(|x: CompactMeasurement| x@);
        assert(s.subrange(len as int, len as int) =~= Seq::<u8>::empty());
        assert(views + Seq::<CompactMeasurementView>::empty() =~= views);
        Ok(out)
    }

    /// Measurement's globally unique identifier.
    pub fn signal_id(&self) -> (r: Guid)
        ensures
            r.value == self@.signal_id,
    {
        self.signal_id
    }

    /// Sets the measurement's globally unique identifier.
    pub fn set_signal_id(&mut self, signal_id: Guid)
        requires
            old(self).wf(),
        ensures
            final(self).wf(),
            final(self)@ == (CompactMeasurementView { signal_id: signal_id.value, ..old(self)@ }),
    {
        self.signal_id = signal_id;
    }

    /// IEEE-754 single-precision bits of the measurement's value.
    pub fn value_bits(&self) -> (r: u32)
        ensures
            r == self@.value_bits,
    {
        self.value_bits
    }

    /// Sets the IEEE-754 single-precision bits of the measurement's value.
    pub fn set_value_bits(&mut self, value_bits: u32)
        requires
            old(self).wf(),
        ensures
            final(self).wf(),
            final(self)@ == (CompactMeasurementView { value_bits, ..old(self)@ }),
    {
        self.value_bits = value_bits;
    }

    /// The timestamp at which the measurement was taken.
    pub fn timestamp(&self) -> (r: Ticks)
        ensures
            r.val == self@.timestamp,
    {
        self.timestamp
    }

    /// Sets the timestamp at which the measurement was taken.
    pub fn set_timestamp(&mut self, timestamp: Ticks)
        requires
            old(self).wf(),
        ensures
            final(self).wf(),
            final(self)@ == (CompactMeasurementView { timestamp: timestamp.val, ..old(self)@ }),
    {
        self.timestamp = timestamp;
    }

    /// The measurement's quality flags.
    pub fn flags(&self) -> (r: StateFlags)
        ensures
            r.bits == self@.flags,
    {
        self.flags
    }

    /// Sets the measurement's quality flags.
    pub fn set_flags(&mut self, flags: StateFlags)
        requires
            old(self).wf(),
        ensures
            final(self).wf(),
            final(self)@ == (CompactMeasurementView { flags: flags.bits, ..old(self)@ }),
    {
        self.flags = flags;
    }

    /// The time value of the timestamp, without leap second flags.
    pub fn timestamp_value(&self) -> (r: u64)
        ensures
            r == time_value(self@),
    {
        self.timestamp.timestamp_value()
    }

    /// The instant of the timestamp.
    pub fn datetime(&self) -> (r: crate::ticks::UtcDateTime)
        ensures
            r == (Ticks { val: self@.timestamp }).spec_to_datetime(),
    {
        self.timestamp.to_datetime()
    }

    /// Sets the two base time offsets that timestamps may be written relative to; 0
    /// leaves an offset unset.
    pub fn set_base_time_offsets(&mut self, first: u64, second: u64)
        requires
            old(self).wf(),
        ensures
            final(self).wf(),
            final(self)@ == (CompactMeasurementView {
                base_time_offsets: seq![first, second],
                ..old(self)@
            }),
    {
        self.base_time_offsets = [first, second];
        assert(self@.base_time_offsets =~= seq![first, second]);
    }

    /// Selects which of the two base time offsets is active.
    pub fn set_time_index(&mut self, second: bool)
        requires
            old(self).wf(),
        ensures
            final(self).wf(),
            final(self)@ == (CompactMeasurementView {
                time_index: if second {
                    1
                } else {
                    0
                },
                ..old(self)@
            }),
    {
        self.time_index = if second { 1 } else { 0 };
    }
}

/// The timestamp that a receiver recovers from an encoded measurement: the raw value
/// where the 8-byte form is used, the time value where a tick offset is used, and the
/// time value cut to whole milliseconds past the base where a millisecond offset is used.
pub open spec fn round_trip_timestamp(m: CompactMeasurementView) -> u64 {
    if fits_base_offset(m) {
        if m.use_millisecond_resolution {
            (active_base(m) + ((time_value(m) - active_base(m)) / 10_000) * 10_000) as u64
        } else {
            time_value(m)
        }
    } else {
        m.timestamp
    }
}

/// A receiver that shares the sender's cache, time settings and base time offsets
/// decodes the sender's encoded measurement to the same signal ID, the same value bits,
/// the same time index, the flags of every group the sender's flags meet, and the
/// timestamp `round_trip_timestamp` gives (the same as the sender's where the timestamp
/// fits the active encoding or the 8-byte form is used), taking exactly the encoded
/// length. In particular the timestamp comes back with all 64 bits in the 8-byte form,
/// unchanged in the tick-offset form when it carries no flag bits, and unchanged in
/// the millisecond-offset form when it lies a whole number of milliseconds past the
/// base. The signal ID must be known to the cache both ways: a later record that
/// reuses the runtime index would resolve it to another ID.
pub proof fn lemma_compact_round_trip(m: CompactMeasurementView, receiver: CompactMeasurementView)
    requires
        m.base_time_offsets.len() == 2,
        m.time_index == 0 || m.time_index == 1,
        m.reverse.contains_key(m.signal_id),
        m.entries.contains_key(m.reverse[m.signal_id]),
        m.entries[m.reverse[m.signal_id]].0 == m.signal_id,
        receiver.entries == m.entries,
        receiver.reverse == m.reverse,
        receiver.include_time == m.include_time,
        receiver.base_time_offsets == m.base_time_offsets,
        receiver.use_millisecond_resolution == m.use_millisecond_resolution,
    ensures
        decode_spec(receiver, encoded(with_length_decided(m))) is Ok,
        ({
            let (d, n) = decode_spec(receiver, encoded(with_length_decided(m))).unwrap();
            &&& n == binary_length(m)
            &&& d.signal_id == m.signal_id
            &&& d.value_bits == m.value_bits
            &&& d.flags == group_closure(m.flags)
            &&& d.time_index == m.time_index
            &&& m.include_time ==> d.timestamp == round_trip_timestamp(m)
        }),
        m.include_time && !fits_base_offset(m) ==> decode_spec(
            receiver,
            encoded(with_length_decided(m)),
        ).unwrap().0.timestamp == m.timestamp,
        m.include_time && fits_base_offset(m) && !m.use_millisecond_resolution && m.timestamp
            <= 0x3FFF_FFFF_FFFF_FFFF ==> decode_spec(
            receiver,
            encoded(with_length_decided(m)),
        ).unwrap().0.timestamp == m.timestamp,
        m.include_time && fits_base_offset(m) && m.use_millisecond_resolution && (time_value(m)
            - active_base(m)) % 10_000 == 0 ==> decode_spec(
            receiver,
            encoded(with_length_decided(m)),
        ).unwrap().0.timestamp == time_value(m),
{
    reveal(decode_spec);
    let ts = m.timestamp;
    assert(ts <= 0x3FFF_FFFF_FFFF_FFFF ==> ts & 0x3FFF_FFFF_FFFF_FFFF == ts) by (bit_vector);
    let diff = time_value(m) - active_base(m);
    if diff >= 0 {
        lemma_fundamental_div_mod(diff, 10_000);
    }
    let e = with_length_decided(m);
    let s = encoded(e);
    let b = compact_flags_byte(e);
    let f = m.flags;
    let c = compact_of(f);
    let ti: u8 = if m.time_index != 0 { 0x40u8 } else { 0u8 };
    let bo: u8 = if e.using_base_time_offset { 0x80u8 } else { 0u8 };
    assert(b == c | ti | bo);
    assert(c & 0xC0 == 0) by (bit_vector)
        requires
            c == compact_of(f),
    ;
    assert(full_of(c | ti | bo) == full_of(c) && ((c | ti | bo) & 0x40 != 0 <==> ti != 0) && ((c
        | ti | bo) & 0x80 != 0 <==> bo != 0)) by (bit_vector)
        requires
            c & 0xC0 == 0,
            ti == 0 || ti == 0x40,
            bo == 0 || bo == 0x80,
    ;
    assert(full_of(compact_of(f)) == group_closure(f)) by (bit_vector);
    let id = runtime_id_of(e);
    let id_bits = as_unsigned32(id as int) as u32;
    lemma_be_bytes32(id_bits);
    lemma_be_bytes32(m.value_bits);
    assert(s[0] == b);
    assert(be_u32_at(s, 1) == be_u32_at(be_bytes32(id_bits), 0));
    assert(be_u32_at(s, 5) == be_u32_at(be_bytes32(m.value_bits), 0));
    assert(as_signed32(be_u32_at(s, 1)) == id);
    if m.include_time {
        if e.using_base_time_offset {
            if m.use_millisecond_resolution {
                lemma_be_bytes16(timestamp_c2(e));
                assert(be_u16_at(s, 9) == be_u16_at(be_bytes16(timestamp_c2(e)), 0));
            } else {
                lemma_be_bytes32(timestamp_c4(e));
                assert(be_u32_at(s, 9) == be_u32_at(be_bytes32(timestamp_c4(e)), 0));
            }
        } else {
            lemma_be_bytes64(m.timestamp);
            assert(be_u64_at(s, 9) == be_u64_at(be_bytes64(m.timestamp), 0));
        }
    }
}

} // verus!
