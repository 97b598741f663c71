use vstd::arithmetic::div_mod::lemma_fundamental_div_mod_converse;
use vstd::prelude::*;
use vstd::string::StrSliceExecFns;
use vstd::string::StringExecFns;

verus! {

/// Earliest whole second, counted from the Unix epoch, that a tick value can denote
/// (0001-01-01 00:00:00 UTC).
pub const MIN_UNIX_SECONDS: i64 = -62_135_596_800;

/// Latest whole second, counted from the Unix epoch, that a tick value can denote.
pub const MAX_UNIX_SECONDS: i64 = 399_033_005_042;

/// An instant in UTC as whole seconds since the Unix epoch (negative before 1970)
/// and the nanoseconds past that second.
#[derive(Copy, Clone, Debug, PartialEq, Eq, Hash)]
pub struct UtcDateTime {
    pub secs: i64,
    pub nanos: u32,
}

impl UtcDateTime {
    /// An instant from its seconds since the Unix epoch and its nanoseconds.
    pub fn new(secs: i64, nanos: u32) -> (r: Self)
        ensures
            r.secs == secs,
            r.nanos == nanos,
    {
        UtcDateTime { secs, nanos }
    }
}

/// Unclamped tick count of an instant: 10,000,000 ticks per second, counted from
/// year 1; nanoseconds below 100 are dropped.
pub open spec fn tick_count_of(secs: int, nanos: int) -> int {
    secs * 10_000_000 + nanos / 100 + 621_355_968_000_000_000
}

/// A tick count saturated into the range of time values, `0..=VALUE_MASK`.
pub open spec fn saturate_ticks(t: int) -> u64 {
    if t < 0 {
        0
    } else if t > 0x3FFF_FFFF_FFFF_FFFF {
        0x3FFF_FFFF_FFFF_FFFF
    } else {
        t as u64
    }
}

/// The instant that a time value (flag bits masked off) denotes.
pub open spec fn datetime_of_value(v: u64) -> UtcDateTime {
    let d = v - 621_355_968_000_000_000;
    UtcDateTime { secs: (d / 10_000_000) as i64, nanos: ((d % 10_000_000) * 100) as u32 }
}

/// Nanoseconds past the second, leaving out the extra second that marks a leap second
/// (chrono writes second 60 as nanoseconds from 1,000,000,000 up).
pub open spec fn nanos_within_second(nanos: u32) -> int {
    if nanos >= 1_000_000_000 {
        nanos - 1_000_000_000
    } else {
        nanos as int
    }
}

/// An instant that a tick value can hold exactly: within the tick range, a whole
/// number of 100 ns, and at most one (leap) second past its whole second.
pub open spec fn tick_exact(dt: UtcDateTime) -> bool {
    &&& dt.nanos < 2_000_000_000
    &&& dt.nanos % 100 == 0
    &&& 0 <= tick_count_of(dt.secs as int, nanos_within_second(dt.nanos))
        <= 0x3FFF_FFFF_FFFF_FFFF
}

/// What chrono writes for an instant with `to_rfc3339_opts(SecondsFormat::Nanos, true)`,
/// e.g. `2021-09-11T14:46:39.339127800Z`.
pub uninterp spec fn rfc3339_text(secs: i64, nanos: u32) -> Seq<char>;

/// Relies on chrono's `DateTime::<Utc>::from_timestamp`, which yields a date for every
/// second within the tick range and nanoseconds below one second, and on its
/// `to_rfc3339_opts(SecondsFormat::Nanos, true)`, which writes that date as RFC 3339
/// text with nine fraction digits and a `Z` suffix.
#[verifier::external_body]
fn format_rfc3339(secs: i64, nanos: u32) -> (r: String)
    requires
        MIN_UNIX_SECONDS <= secs <= MAX_UNIX_SECONDS,
        nanos < 1_000_000_000,
    ensures
        r@ == rfc3339_text(secs, nanos),
{
    match chrono::DateTime::from_timestamp(secs, nanos) {
        Some(dt) => dt.to_rfc3339_opts(chrono::SecondsFormat::Nanos, true),
        None => String::new(),
    }
}

/// Relies on chrono's `Utc::now`, read as its `timestamp` and `timestamp_subsec_nanos`.
/// Nothing is known of the instant that comes back.
#[verifier::external_body]
fn current_utc_time() -> (r: UtcDateTime) {
    let now = chrono::Utc::now();
    UtcDateTime { secs: now.timestamp(), nanos: now.timestamp_subsec_nanos() }
}

/// `s` with every `T` turned into a space.
pub open spec fn replace_t_with_space(s: Seq<char>) -> Seq<char> {
    Seq::new(s.len(), |i: int| if s[i] == 'T' { ' ' } else { s[i] })
}

/// The full timestamp text made from RFC 3339 text: `T` becomes a space and the
/// final character (the `Z`) is dropped.
pub open spec fn timestamp_text_of(rfc: Seq<char>) -> Seq<char> {
    if rfc.len() == 0 {
        rfc
    } else {
        replace_t_with_space(rfc).drop_last()
    }
}

/// Index of the first space in `s` at or after `from`, or `s.len()` if there is none.
pub open spec fn next_space(s: Seq<char>, from: int) -> int
    decreases s.len() - from,
{
    if from < 0 || from >= s.len() {
        s.len() as int
    } else if s[from] == ' ' {
        from
    } else {
        next_space(s, from + 1)
    }
}

/// The second space-separated field of `s`, or empty text if `s` holds no space.
pub open spec fn second_field(s: Seq<char>) -> Seq<char> {
    let p = next_space(s, 0);
    if p >= s.len() {
        Seq::empty()
    } else {
        s.subrange(p + 1, next_space(s, p + 1))
    }
}

/// The time of day with milliseconds taken from a full timestamp text: its second
/// field without the last six characters (the sub-millisecond digits).
pub open spec fn time_of_day_of(text: Seq<char>) -> Seq<char> {
    let f = second_field(text);
    if f.len() >= 6 {
        f.subrange(0, f.len() - 6)
    } else {
        Seq::empty()
    }
}

/// Index of the first space at or after `from`, or the length of `s`.
fn find_space(s: &str, len: usize, from: usize) -> (r: usize)
    requires
        len == s@.len(),
        from <= len,
    ensures
        r == next_space(s@, from as int),
        from <= r <= len,
{
    let mut i = from;
    while i < len
        invariant
            len == s@.len(),
            from <= i <= len,
            next_space(s@, from as int) == next_space(s@, i as int),
        decreases len - i,
    {
        if s.get_char(i) == ' ' {
            return i;
        }
        i = i + 1;
    }
    i
}

/// Turns RFC 3339 text with a `Z` suffix into the library's timestamp text: every `T`
/// becomes a space and the final character is dropped
/// (`2021-09-11T14:46:39.339127800Z` gives `2021-09-11 14:46:39.339127800`).
pub fn timestamp_text_from_rfc3339(rfc: &str) -> (r: String)
    ensures
        r@ == timestamp_text_of(rfc@),
{
    let len = rfc.unicode_len();
    let mut out = String::new();
    if len == 0 {
        return out;
    }
    let space = " ";
    proof {
        reveal_strlit(" ");
    }
    let mut i: usize = 0;
    while i < len - 1
        invariant
            len == rfc@.len(),
            len > 0,
            i <= len - 1,
            space@ == seq![' '],
            out@ == replace_t_with_space(rfc@).subrange(0, i as int),
        decreases len - i,
    {
        let c = rfc.get_char(i);
        if c == 'T' {
            out.append(space);
        } else {
            out.append(rfc.substring_char(i, i + 1));
        }
        assert(out@ =~= replace_t_with_space(rfc@).subrange(0, i + 1));
        i = i + 1;
    }
    assert(out@ =~= replace_t_with_space(rfc@).drop_last());
    out
}

/// The time of day with milliseconds from a full timestamp text: the second
/// space-separated field without its last six characters
/// (`2021-09-11 14:46:39.339127800` gives `14:46:39.339`); empty text where that
/// field is missing or shorter than six characters.
pub fn time_of_day_text(text: &str) -> (r: String)
    ensures
        r@ == time_of_day_of(text@),
{
    let len = text.unicode_len();
    let p = find_space(text, len, 0);
    if p >= len {
        return String::new();
    }
    let q = find_space(text, len, p + 1);
    if q - (p + 1) < 6 {
        return String::new();
    }
    String::from_str(text.substring_char(p + 1, q - 6))
}

/// A 64-bit STTP timestamp: the number of 100-nanosecond intervals since
/// 0001-01-01 00:00:00 UTC (proleptic Gregorian), with two flag bits on top.
///
/// Only bits 1 to 62 (`VALUE_MASK`) hold the time. Bit 64 (`LEAP_SECOND_FLAG`)
/// marks a leap second, i.e. second 60, and bit 63 (`LEAP_SECOND_DIRECTION`)
/// tells an added (0) from a deleted (1) leap second.
#[derive(Copy, Clone, Debug, Default, PartialEq, Eq, Hash, PartialOrd, Ord)]
pub struct Ticks {
    pub val: u64,
}

impl Ticks {
    /// Number of `Ticks` that occur in a second.
    pub const PER_SECOND: u64 = 10_000_000;

    /// Number of `Ticks` that occur in a millisecond.
    pub const PER_MILLISECOND: u64 = 10_000;

    /// Number of `Ticks` that occur in a microsecond.
    pub const PER_MICROSECOND: u64 = 10;

    /// Number of `Ticks` that occur in a minute.
    pub const PER_MINUTE: u64 = 600_000_000;

    /// Number of `Ticks` that occur in an hour.
    pub const PER_HOUR: u64 = 36_000_000_000;

    /// Number of `Ticks` that occur in a day.
    pub const PER_DAY: u64 = 864_000_000_000;

    /// Flag (64th bit) that marks a `Ticks` value as a leap second.
    pub const LEAP_SECOND_FLAG: u64 = 0x8000_0000_0000_0000;

    /// Flag (63rd bit) for the direction of a leap second; 0 for add, 1 for delete.
    pub const LEAP_SECOND_DIRECTION: u64 = 0x4000_0000_0000_0000;

    /// All bits (bits 1 to 62) that make up the time value of a `Ticks`.
    pub const VALUE_MASK: u64 = 0x3FFF_FFFF_FFFF_FFFF;

    /// `Ticks` representation of the Unix epoch, January 1, 1970.
    pub const UNIX_BASE_OFFSET: u64 = 621_355_968_000_000_000;

    /// Creates a `Ticks` value from its raw 64 bits.
    pub fn new(val: u64) -> (r: Self)
        ensures
            r.val == val,
    {
        Self { val }
    }

    /// The time value: the 62 bits that remain when the leap second flags are masked off.
    pub open spec fn spec_timestamp_value(&self) -> u64 {
        self.val & 0x3FFF_FFFF_FFFF_FFFF
    }

    /// Whether the leap second flag is set.
    pub open spec fn spec_is_leap_second(&self) -> bool {
        self.val & 0x8000_0000_0000_0000 != 0
    }

    /// Whether both the leap second flag and the deleted-leap-second direction are set.
    pub open spec fn spec_is_negative_leap_second(&self) -> bool {
        self.val & 0x8000_0000_0000_0000 != 0 && self.val & 0x4000_0000_0000_0000 != 0
    }

    /// This value with the leap second flag set.
    pub open spec fn spec_set_leap_second(&self) -> Ticks {
        Ticks { val: self.val | 0x8000_0000_0000_0000 }
    }

    /// This value with the leap second flag and the deleted direction set.
    pub open spec fn spec_set_negative_leap_second(&self) -> Ticks {
        Ticks { val: self.val | 0x8000_0000_0000_0000 | 0x4000_0000_0000_0000 }
    }

    /// The instant of the time value, leap second flags left aside.
    pub open spec fn spec_instant(&self) -> UtcDateTime {
        datetime_of_value(self.spec_timestamp_value())
    }

    /// Whether this value is flagged as an added leap second, i.e. second 60.
    pub open spec fn spec_is_added_leap_second(&self) -> bool {
        self.val & 0x8000_0000_0000_0000 != 0 && self.val & 0x4000_0000_0000_0000 == 0
    }

    /// The instant this value denotes: an added leap second carries one extra second of
    /// nanoseconds, as chrono writes second 60.
    pub open spec fn spec_to_datetime(&self) -> UtcDateTime {
        let d = self.spec_instant();
        if self.spec_is_added_leap_second() {
            UtcDateTime { secs: d.secs, nanos: (d.nanos + 1_000_000_000) as u32 }
        } else {
            d
        }
    }

    /// Gets the timestamp portion of the `Ticks` value, i.e., the 62-bit time value
    /// excluding any leap second flags.
    #[verifier::when_used_as_spec(spec_timestamp_value)]
    pub fn timestamp_value(&self) -> (r: u64)
        ensures
            r == self.spec_timestamp_value(),
    {
        self.val & Self::VALUE_MASK
    }

    /// The `Ticks` value of an instant, saturated into the tick range; a leap second
    /// (nanoseconds from 1,000,000,000 to 1,999,999,999) gets the leap second flag.
    pub open spec fn spec_from_datetime(dt: UtcDateTime) -> Ticks {
        if 1_000_000_000 <= dt.nanos < 2_000_000_000 {
            Ticks {
                val: saturate_ticks(tick_count_of(dt.secs as int, dt.nanos - 1_000_000_000))
                    | 0x8000_0000_0000_0000,
            }
        } else {
            Ticks { val: saturate_ticks(tick_count_of(dt.secs as int, dt.nanos as int)) }
        }
    }

    /// Converts an instant to a `Ticks` value. Nanoseconds below 100 are dropped;
    /// instants before year 1 give 0 and instants past the tick range give `VALUE_MASK`.
    /// A leap second, which chrono writes as nanoseconds from 1,000,000,000 up, becomes
    /// its second 59 with the leap second flag set.
    #[verifier::when_used_as_spec(spec_from_datetime)]
    pub fn from_datetime(dt: UtcDateTime) -> (r: Self)
        ensures
            r == Self::spec_from_datetime(dt),
            r.val & Self::LEAP_SECOND_DIRECTION == 0,
    {
        assert(-0x8000_0000_0000_0000 * 10_000_000 <= dt.secs as int * 10_000_000
            <= 0x7FFF_FFFF_FFFF_FFFF * 10_000_000) by (nonlinear_arith)
            requires
                -0x8000_0000_0000_0000 <= dt.secs <= 0x7FFF_FFFF_FFFF_FFFF,
        ;
        let leap = 1_000_000_000 <= dt.nanos && dt.nanos < 2_000_000_000;
        let nanos = if leap { dt.nanos - 1_000_000_000 } else { dt.nanos };
        let t: i128 = (dt.secs as i128) * 10_000_000 + ((nanos / 100) as i128)
            + 621_355_968_000_000_000;
        let val: u64 = if t < 0 {
            0
        } else if t > 0x3FFF_FFFF_FFFF_FFFF {
            Self::VALUE_MASK
        } else {
            t as u64
        };
        assert(val & 0x4000_0000_0000_0000 == 0 && (val | 0x8000_0000_0000_0000)
            & 0x4000_0000_0000_0000 == 0) by (bit_vector)
            requires
                val <= 0x3FFF_FFFF_FFFF_FFFF,
        ;
        if leap {
            Self { val: val | Self::LEAP_SECOND_FLAG }
        } else {
            Self { val }
        }
    }

    /// Converts a span since year 1, given as whole seconds and the nanoseconds past
    /// them, to a `Ticks` value; spans past the tick range give `VALUE_MASK`.
    pub fn from_duration(secs: u64, subsec_nanos: u32) -> (r: Self)
        ensures
            r.val == saturate_ticks(secs * 10_000_000 + subsec_nanos / 100),
    {
        let t: u128 = (secs as u128) * 10_000_000 + ((subsec_nanos / 100) as u128);
        let val: u64 = if t > 0x3FFF_FFFF_FFFF_FFFF {
            Self::VALUE_MASK
        } else {
            t as u64
        };
        Self { val }
    }

    /// Converts this value to the instant it denotes; values before 1970 give negative
    /// seconds. An added leap second (leap flag set, direction clear) carries one extra
    /// second of nanoseconds, as chrono writes second 60; a deleted one is its plain time.
    #[verifier::when_used_as_spec(spec_to_datetime)]
    pub fn to_datetime(&self) -> (r: UtcDateTime)
        ensures
            r == self.spec_to_datetime(),
            MIN_UNIX_SECONDS <= r.secs <= MAX_UNIX_SECONDS,
            r.nanos < 2_000_000_000,
    {
        let d = self.instant();
        if (self.val & Self::LEAP_SECOND_FLAG) != 0 && (self.val & Self::LEAP_SECOND_DIRECTION) == 0 {
            UtcDateTime { secs: d.secs, nanos: d.nanos + 1_000_000_000 }
        } else {
            d
        }
    }

    /// The instant of the time value, leap second flags left aside.
    fn instant(&self) -> (r: UtcDateTime)
        ensures
            r == self.spec_instant(),
            MIN_UNIX_SECONDS <= r.secs <= MAX_UNIX_SECONDS,
            r.nanos < 1_000_000_000,
    {
        let raw = self.val;
        let v = self.timestamp_value();
        assert(v <= 0x3FFF_FFFF_FFFF_FFFF) by (bit_vector)
            requires
                v == raw & 0x3FFF_FFFF_FFFF_FFFF,
        ;
        let ghost d: int = v - 621_355_968_000_000_000;
        if v >= Self::UNIX_BASE_OFFSET {
            let e = v - Self::UNIX_BASE_OFFSET;
            let q = e / Self::PER_SECOND;
            let rem = e % Self::PER_SECOND;
            proof {
                lemma_fundamental_div_mod_converse(d, 10_000_000, q as int, rem as int);
            }
            UtcDateTime { secs: q as i64, nanos: (rem * 100) as u32 }
        } else {
            let e = Self::UNIX_BASE_OFFSET - v;
            let q = e / Self::PER_SECOND;
            let rem = e % Self::PER_SECOND;
            if rem == 0 {
                proof {
                    lemma_fundamental_div_mod_converse(d, 10_000_000, -q, 0);
                }
                UtcDateTime { secs: -(q as i64), nanos: 0 }
            } else {
                proof {
                    lemma_fundamental_div_mod_converse(
                        d,
                        10_000_000,
                        -q - 1,
                        10_000_000 - rem,
                    );
                }
                UtcDateTime { secs: -(q as i64) - 1, nanos: ((Self::PER_SECOND - rem) * 100) as u32 }
            }
        }
    }

    /// Determines if this value is flagged as a leap second, i.e., second 60.
    #[verifier::when_used_as_spec(spec_is_leap_second)]
    pub fn is_leap_second(&self) -> (r: bool)
        ensures
            r == self.spec_is_leap_second(),
    {
        (self.val & Self::LEAP_SECOND_FLAG) > 0
    }

    /// Returns a copy of this value flagged as a leap second, i.e., second 60.
    #[verifier::when_used_as_spec(spec_set_leap_second)]
    pub fn set_leap_second(&self) -> (r: Self)
        ensures
            r == self.spec_set_leap_second(),
    {
        Self { val: self.val | Self::LEAP_SECOND_FLAG }
    }

    /// Flags this value as a leap second, i.e., second 60.
    pub fn apply_leap_second(&mut self)
        ensures
            *final(self) == old(self).spec_set_leap_second(),
    {
        self.val = self.val | Self::LEAP_SECOND_FLAG;
    }

    /// Determines if this value is flagged as a negative leap second, i.e., second 59
    /// of this minute will be missing.
    #[verifier::when_used_as_spec(spec_is_negative_leap_second)]
    pub fn is_negative_leap_second(&self) -> (r: bool)
        ensures
            r == self.spec_is_negative_leap_second(),
    {
        self.is_leap_second() && (self.val & Self::LEAP_SECOND_DIRECTION) > 0
    }

    /// Returns a copy of this value flagged as a negative leap second.
    #[verifier::when_used_as_spec(spec_set_negative_leap_second)]
    pub fn set_negative_leap_second(&self) -> (r: Self)
        ensures
            r == self.spec_set_negative_leap_second(),
    {
        Self { val: self.val | Self::LEAP_SECOND_FLAG | Self::LEAP_SECOND_DIRECTION }
    }

    /// Flags this value as a negative leap second.
    pub fn apply_negative_leap_second(&mut self)
        ensures
            *final(self) == old(self).spec_set_negative_leap_second(),
    {
        self.val = self.val | Self::LEAP_SECOND_FLAG | Self::LEAP_SECOND_DIRECTION;
    }

    /// The current instant as a `Ticks` value; never a deleted leap second. A tick count
    /// names an instant, not a zone, so this equals `utc_now`.
    pub fn now() -> (r: Self)
        ensures
            r.val & Self::LEAP_SECOND_DIRECTION == 0,
    {
        Self::utc_now()
    }

    /// The current instant in UTC as a `Ticks` value.
    pub fn utc_now() -> (r: Self)
        ensures
            r.val & Self::LEAP_SECOND_DIRECTION == 0,
    {
        Self::from_datetime(current_utc_time())
    }

    /// Standard timestamp text for this value, e.g. `2006-01-02 15:04:05.999999900`; a
    /// leap second shows as its second 59.
    pub fn to_string(&self) -> (r: String)
        ensures
            r@ == timestamp_text_of(
                rfc3339_text(self.spec_instant().secs, self.spec_instant().nanos),
            ),
    {
        let dt = self.instant();
        let rfc = format_rfc3339(dt.secs, dt.nanos);
        timestamp_text_from_rfc3339(rfc.as_str())
    }

    /// The time of day of this value with milliseconds, e.g. `15:04:05.999`.
    pub fn to_short_string(&self) -> (r: String)
        ensures
            r@ == time_of_day_of(
                timestamp_text_of(
                    rfc3339_text(self.spec_instant().secs, self.spec_instant().nanos),
                ),
            ),
    {
        let full = self.to_string();
        time_of_day_text(full.as_str())
    }
}

impl core::ops::Add for Ticks {
    type Output = Ticks;

    /// Sum of the raw values, wrapping at 64 bits; mask flag bits off first.
    fn add(self, rhs: Ticks) -> (r: Ticks) {
        Ticks { val: self.val.wrapping_add(rhs.val) }
    }
}

impl vstd::std_specs::ops::AddSpecImpl for Ticks {
    open spec fn obeys_add_spec() -> bool {
        true
    }

    open spec fn add_req(self, rhs: Ticks) -> bool {
        true
    }

    open spec fn add_spec(self, rhs: Ticks) -> Ticks {
        Ticks { val: ((self.val + rhs.val) % 0x1_0000_0000_0000_0000) as u64 }
    }
}

impl core::ops::Sub for Ticks {
    type Output = Ticks;

    /// Difference of the raw values, wrapping at 64 bits; mask flag bits off first.
    fn sub(self, rhs: Ticks) -> (r: Ticks) {
        Ticks { val: self.val.wrapping_sub(rhs.val) }
    }
}

impl vstd::std_specs::ops::SubSpecImpl for Ticks {
    open spec fn obeys_sub_spec() -> bool {
        true
    }

    open spec fn sub_req(self, rhs: Ticks) -> bool {
        true
    }

    open spec fn sub_spec(self, rhs: Ticks) -> Ticks {
        Ticks { val: ((self.val - rhs.val) % 0x1_0000_0000_0000_0000) as u64 }
    }
}

impl core::ops::Mul for Ticks {
    type Output = Ticks;

    /// Product of the raw values, wrapping at 64 bits; mask flag bits off first.
    fn mul(self, rhs: Ticks) -> (r: Ticks) {
        Ticks { val: self.val.wrapping_mul(rhs.val) }
    }
}

impl vstd::std_specs::ops::MulSpecImpl for Ticks {
    open spec fn obeys_mul_spec() -> bool {
        true
    }

    open spec fn mul_req(self, rhs: Ticks) -> bool {
        true
    }

    open spec fn mul_spec(self, rhs: Ticks) -> Ticks {
        Ticks { val: ((self.val * rhs.val) % 0x1_0000_0000_0000_0000) as u64 }
    }
}

impl core::ops::Div for Ticks {
    type Output = Ticks;

    /// Quotient of the raw values; the divisor must not be zero.
    fn div(self, rhs: Ticks) -> (r: Ticks) {
        Ticks { val: self.val / rhs.val }
    }
}

impl vstd::std_specs::ops::DivSpecImpl for Ticks {
    open spec fn obeys_div_spec() -> bool {
        true
    }

    open spec fn div_req(self, rhs: Ticks) -> bool {
        rhs.val != 0
    }

    open spec fn div_spec(self, rhs: Ticks) -> Ticks {
        Ticks { val: self.val / rhs.val }
    }
}

/// An instant that a tick value holds exactly (within the tick range, a whole number
/// of 100 ns, a leap second included) comes back unchanged from `Ticks::from_datetime`
/// and `to_datetime`.
pub proof fn lemma_datetime_round_trip(dt: UtcDateTime)
    requires
        tick_exact(dt),
    ensures
        Ticks::from_datetime(dt).to_datetime() == dt,
{
    let n = nanos_within_second(dt.nanos);
    let t = tick_count_of(dt.secs as int, n);
    let v = t as u64;
    assert(v & 0x3FFF_FFFF_FFFF_FFFF == v && (v | 0x8000_0000_0000_0000) & 0x3FFF_FFFF_FFFF_FFFF
        == v && (v | 0x8000_0000_0000_0000) & 0x8000_0000_0000_0000 != 0 && (v
        | 0x8000_0000_0000_0000) & 0x4000_0000_0000_0000 == 0 && v & 0x8000_0000_0000_0000 == 0)
        by (bit_vector)
        requires
            v <= 0x3FFF_FFFF_FFFF_FFFF,
    ;
    let sub = n / 100;
    assert(n == sub * 100) by (nonlinear_arith)
        requires
            n % 100 == 0,
            sub == n / 100,
    ;
    assert(n % 100 == 0);
    lemma_fundamental_div_mod_converse(t - 621_355_968_000_000_000, 10_000_000, dt.secs as int, sub);
}

/// Setting the leap second flag makes a value a leap second and leaves its time value
/// alone; setting the negative leap second flags makes it both a leap second and a
/// negative leap second, again with the same time value.
pub proof fn lemma_leap_second_flags(t: Ticks)
    ensures
        t.set_leap_second().is_leap_second(),
        t.set_leap_second().timestamp_value() == t.timestamp_value(),
        t.set_negative_leap_second().is_leap_second(),
        t.set_negative_leap_second().is_negative_leap_second(),
        t.set_negative_leap_second().timestamp_value() == t.timestamp_value(),
{
    let v = t.val;
    assert((v | 0x8000_0000_0000_0000) & 0x8000_0000_0000_0000 != 0
        && (v | 0x8000_0000_0000_0000) & 0x3FFF_FFFF_FFFF_FFFF == v & 0x3FFF_FFFF_FFFF_FFFF)
        by (bit_vector);
    assert((v | 0x8000_0000_0000_0000 | 0x4000_0000_0000_0000) & 0x8000_0000_0000_0000 != 0
        && (v | 0x8000_0000_0000_0000 | 0x4000_0000_0000_0000) & 0x4000_0000_0000_0000 != 0
        && (v | 0x8000_0000_0000_0000 | 0x4000_0000_0000_0000) & 0x3FFF_FFFF_FFFF_FFFF
        == v & 0x3FFF_FFFF_FFFF_FFFF) by (bit_vector);
}

} // verus!
