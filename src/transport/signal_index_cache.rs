use crate::guid::Guid;
use crate::transport::wire::{
    as_signed32, be_u128_at, be_u32_at, be_u64_at, read_i32_be, read_u32_be, read_u64_be,
    DecodeError,
};
use std::collections::HashMap;
use vstd::prelude::*;
use vstd::slice::slice_subrange;
use vstd::utf8::{decode_utf8, valid_utf8};

verus! {

broadcast use vstd::std_specs::hash::group_hash_axioms;

/// One record of a signal index cache image: runtime signal index, 128-bit signal ID,
/// source text and numeric key.
pub type SignalRecordView = (i32, u128, Seq<char>, u64);

/// Relies on std's `str::from_utf8`: it accepts exactly the valid UTF-8 byte sequences
/// and gives back the text they encode.
#[verifier::external_body]
pub(crate) fn utf8_text(bytes: &[u8]) -> (r: Option<&str>)
    ensures
        r is Some <==> valid_utf8(bytes@),
        r is Some ==> r->0@ == decode_utf8(bytes@),
{
    std::str::from_utf8(bytes).ok()
}

/// Decodes the record at `off`: signal index, ID, source length, source bytes, key.
/// Gives the record and the offset just past it.
pub open spec fn parse_record(s: Seq<u8>, off: int) -> Result<(SignalRecordView, int), DecodeError> {
    let start = off + 24;
    if start > s.len() {
        Err(DecodeError::Truncated)
    } else {
        let n = be_u32_at(s, off + 20);
        if start + n > s.len() {
            Err(DecodeError::Truncated)
        } else if !valid_utf8(s.subrange(start, start + n)) {
            Err(DecodeError::InvalidUtf8)
        } else if start + n + 8 > s.len() {
            Err(DecodeError::Truncated)
        } else {
            Ok(
                (
                    (
                        as_signed32(be_u32_at(s, off)) as i32,
                        be_u128_at(s, off + 4) as u128,
                        decode_utf8(s.subrange(start, start + n)),
                        be_u64_at(s, start + n) as u64,
                    ),
                    start + n + 8,
                ),
            )
        }
    }
}

/// Decodes `count` consecutive records starting at `off`.
pub open spec fn parse_records(s: Seq<u8>, off: int, count: nat) -> Result<
    Seq<SignalRecordView>,
    DecodeError,
>
    decreases count,
{
    if count == 0 {
        Ok(Seq::empty())
    } else {
        match parse_record(s, off) {
            Err(e) => Err(e),
            Ok((rec, next)) => match parse_records(s, next, (count - 1) as nat) {
                Err(e) => Err(e),
                Ok(rest) => Ok(seq![rec] + rest),
            },
        }
    }
}

/// Offset just past `count` consecutive records starting at `off`, as far as they decode.
pub open spec fn records_end(s: Seq<u8>, off: int, count: nat) -> int
    decreases count,
{
    if count == 0 {
        off
    } else {
        match parse_record(s, off) {
            Err(_) => off,
            Ok((_, next)) => records_end(s, next, (count - 1) as nat),
        }
    }
}

/// Offset just past the last record of a signal index cache image.
pub open spec fn cache_image_end(s: Seq<u8>) -> int {
    records_end(s, 24, be_u32_at(s, 20) as nat)
}

/// Decodes a whole signal index cache image: a 4-byte declared length that the buffer
/// must reach, the 16-byte subscriber ID, a 4-byte record count and the records.
pub open spec fn parse_cache(s: Seq<u8>) -> Result<(u128, Seq<SignalRecordView>), DecodeError> {
    if s.len() < 4 || s.len() < be_u32_at(s, 0) || s.len() < 24 {
        Err(DecodeError::Truncated)
    } else {
        match parse_records(s, 24, be_u32_at(s, 20) as nat) {
            Err(e) => Err(e),
            Ok(recs) => Ok((be_u128_at(s, 4) as u128, recs)),
        }
    }
}

/// What a cache knows of each runtime signal index: ID, source and key.
pub type EntriesView = Map<i32, (u128, Seq<char>, u64)>;

/// The entries and reverse lookup after adding the records in order; a later record
/// replaces an earlier one with the same index or the same ID.
pub open spec fn apply_records(
    entries: EntriesView,
    reverse: Map<u128, i32>,
    recs: Seq<SignalRecordView>,
) -> (EntriesView, Map<u128, i32>)
    decreases recs.len(),
{
    if recs.len() == 0 {
        (entries, reverse)
    } else {
        let (e, r) = apply_records(entries, reverse, recs.drop_last());
        let x = recs.last();
        (e.insert(x.0, (x.1, x.2, x.3)), r.insert(x.1, x.0))
    }
}

/// A mapping of 32-bit runtime signal indices to 128-bit measurement IDs, with reverse
/// lookup and each measurement's source text and numeric key.
#[derive(Clone, Debug)]
pub struct SignalIndexCache {
    reference: HashMap<i32, usize>,
    signal_id_list: Vec<Guid>,
    source_list: Vec<String>,
    id_list: Vec<u64>,
    signal_id_cache: HashMap<u128, i32>,
    unique_ids: Vec<Guid>,
}

/// A decoded record on its way into the cache.
struct DecodedRecord {
    signal_index: i32,
    signal_id: Guid,
    source: String,
    key: u64,
}

spec fn decoded_view(r: DecodedRecord) -> SignalRecordView {
    (r.signal_index, r.signal_id.value, r.source@, r.key)
}

spec fn decoded_views(rs: Seq<DecodedRecord>) -> Seq<SignalRecordView> {
    rs.map_values(|r: DecodedRecord| decoded_view(r))
}

/// Decodes the record at `off`, giving it and the offset just past it.
fn decode_record(buffer: &[u8], off: usize) -> (r: Result<(DecodedRecord, usize), DecodeError>)
    requires
        off <= buffer@.len(),
    ensures
        match (r, parse_record(buffer@, off as int)) {
            (Ok((rec, next)), Ok((v, n))) => decoded_view(rec) == v && next == n && next
                <= buffer@.len(),
            (Err(e), Err(e2)) => e == e2,
            _ => false,
        },
{
    let len = buffer.len();
    if len - off < 24 {
        return Err(DecodeError::Truncated);
    }
    let signal_index = read_i32_be(buffer, off);
    let signal_id = Guid::from_bytes(slice_subrange(buffer, off + 4, off + 20));
    let n = read_u32_be(buffer, off + 20) as usize;
    let start = off + 24;
    if n > len - start {
        return Err(DecodeError::Truncated);
    }
    let source_bytes = slice_subrange(buffer, start, start + n);
    assert(source_bytes@ == buffer@.subrange(start as int, start + n));
    match utf8_text(source_bytes) {
        None => Err(DecodeError::InvalidUtf8),
        Some(text) => {
            if len - (start + n) < 8 {
                return Err(DecodeError::Truncated);
            }
            let key = read_u64_be(buffer, start + n);
            let rec = DecodedRecord { signal_index, signal_id, source: text.to_owned(), key };
            Ok((rec, start + n + 8))
        },
    }
}

impl SignalIndexCache {
    /// Entry of each runtime signal index in the cache.
    pub closed spec fn entries(&self) -> EntriesView {
        Map::new(
            |k: i32| self.reference@.contains_key(k),
            |k: i32|
                {
                    let slot = self.reference@[k] as int;
                    (self.signal_id_list@[slot].value, self.source_list@[slot]@, self.id_list@[slot])
                },
        )
    }

    /// Runtime signal index of each registered signal ID.
    pub closed spec fn reverse(&self) -> Map<u128, i32> {
        self.signal_id_cache@
    }

    /// The registered signal IDs, each once, in order of first registration.
    pub closed spec fn unique_ids(&self) -> Seq<u128> {
        self.unique_ids@.map_values(|g: Guid| g.value)
    }

    /// Internal consistency of the slot lists, the index map and the list of IDs.
    pub closed spec fn wf(&self) -> bool {
        &&& self.signal_id_list@.len() == self.source_list@.len()
        &&& self.signal_id_list@.len() == self.id_list@.len()
        &&& forall|k: i32| #[trigger]
            self.reference@.contains_key(k) ==> self.reference@[k] < self.signal_id_list@.len()
        &&& self.unique_ids().no_duplicates()
        &&& forall|v: u128| #[trigger]
            self.signal_id_cache@.contains_key(v) <==> self.unique_ids().contains(v)
    }

    /// Creates a new, empty cache.
    pub fn new() -> (r: SignalIndexCache)
        ensures
            r.wf(),
            r.entries() == Map::<i32, (u128, Seq<char>, u64)>::empty(),
            r.reverse() == Map::<u128, i32>::empty(),
    {
        let r = SignalIndexCache {
            reference: HashMap::new(),
            signal_id_list: Vec::new(),
            source_list: Vec::new(),
            id_list: Vec::new(),
            signal_id_cache: HashMap::new(),
            unique_ids: Vec::new(),
        };
        assert(r.entries() =~= Map::<i32, (u128, Seq<char>, u64)>::empty());
        assert(r.unique_ids() =~= Seq::<u128>::empty());
        r
    }

    fn add_record(&mut self, signal_index: i32, signal_id: Guid, source: String, id: u64)
        requires
            old(self).wf(),
        ensures
            final(self).wf(),
            final(self).entries() == old(self).entries().insert(
                signal_index,
                (signal_id.value, source@, id),
            ),
            final(self).reverse() == old(self).reverse().insert(signal_id.value, signal_index),
            final(self).signal_id_list@.len() == old(self).signal_id_list@.len() + 1,
    {
        let ghost old_ids = self.unique_ids();
        let index = self.signal_id_list.len();
        if !self.signal_id_cache.contains_key(&signal_id.value) {
            self.unique_ids.push(signal_id);
            assert(self.unique_ids() =~= old_ids.push(signal_id.value));
            assert(!old_ids.contains(signal_id.value));
            assert(self.unique_ids()[old_ids.len() as int] == signal_id.value);
        }
        self.reference.insert(signal_index, index);
        self.signal_id_list.push(signal_id);
        self.source_list.push(source);
        self.id_list.push(id);
        self.signal_id_cache.insert(signal_id.value, signal_index);
        assert(self.entries() =~= old(self).entries().insert(
            signal_index,
            (signal_id.value, source@, id),
        ));
        assert(self.unique_ids().no_duplicates());
        assert forall|v: u128| #[trigger]
            self.signal_id_cache@.contains_key(v) <==> self.unique_ids().contains(v) by {
            if v != signal_id.value {
                assert(old(self).signal_id_cache@.contains_key(v) <==> old_ids.contains(v));
                if old_ids.contains(v) {
                    let j = choose|j: int| 0 <= j < old_ids.len() && old_ids[j] == v;
                    assert(self.unique_ids()[j] == v);
                }
                if self.unique_ids().contains(v) {
                    let j = choose|j: int|
                        0 <= j < self.unique_ids().len() && self.unique_ids()[j] == v;
                    assert(old_ids[j] == v);
                }
            } else {
                assert(self.unique_ids().contains(v));
            }
        }
    }

    /// Determines if the runtime signal index is in the cache.
    pub fn contains(&self, signal_index: i32) -> (r: bool)
        requires
            self.wf(),
        ensures
            r == self.entries().contains_key(signal_index),
    {
        self.reference.contains_key(&signal_index)
    }

    /// The signal ID for the runtime signal index, or the nil ID if it is not cached.
    pub fn signal_id(&self, signal_index: i32) -> (r: Guid)
        requires
            self.wf(),
        ensures
            r.value == (if self.entries().contains_key(signal_index) {
                self.entries()[signal_index].0
            } else {
                0
            }),
    {
        match self.reference.get(&signal_index) {
            Some(slot) => self.signal_id_list[*slot],
            None => Guid::nil(),
        }
    }

    /// Every registered signal ID, each once, in order of first registration.
    pub fn signal_ids(&self) -> (r: Vec<Guid>)
        requires
            self.wf(),
        ensures
            r@.map_values(|g: Guid| g.value) == self.unique_ids(),
            r@.map_values(|g: Guid| g.value).to_set() == self.reverse().dom(),
    {
        let mut r: Vec<Guid> = Vec::new();
        let mut i: usize = 0;
        while i < self.unique_ids.len()
            invariant
                i <= self.unique_ids@.len(),
                r@ == self.unique_ids@.subrange(0, i as int),
            decreases self.unique_ids@.len() - i,
        {
            r.push(self.unique_ids[i]);
            assert(r@ =~= self.unique_ids@.subrange(0, i + 1));
            i = i + 1;
        }
        assert(r@ =~= self.unique_ids@);
        assert(r@.map_values(|g: Guid| g.value).to_set() =~= self.reverse().dom());
        r
    }

    /// The source text for the runtime signal index, or empty text if it is not cached.
    pub fn source(&self, signal_index: i32) -> (r: &str)
        requires
            self.wf(),
        ensures
            r@ == (if self.entries().contains_key(signal_index) {
                self.entries()[signal_index].1
            } else {
                Seq::empty()
            }),
    {
        match self.reference.get(&signal_index) {
            Some(slot) => self.source_list[*slot].as_str(),
            None => {
                proof {
                    reveal_strlit("");
                }
                ""
            },
        }
    }

    /// The numeric key for the runtime signal index, or `u64::MAX` if it is not cached.
    pub fn id(&self, signal_index: i32) -> (r: u64)
        requires
            self.wf(),
        ensures
            r == (if self.entries().contains_key(signal_index) {
                self.entries()[signal_index].2
            } else {
                u64::MAX
            }),
    {
        match self.reference.get(&signal_index) {
            Some(slot) => self.id_list[*slot],
            None => u64::MAX,
        }
    }

    /// The signal ID, source text and numeric key for the runtime signal index, and
    /// whether it was found; `(nil, "", 0, false)` if it is not cached.
    pub fn record(&self, signal_index: i32) -> (r: (Guid, &str, u64, bool))
        requires
            self.wf(),
        ensures
            r.3 == self.entries().contains_key(signal_index),
            r.3 ==> r.0.value == self.entries()[signal_index].0 && r.1@
                == self.entries()[signal_index].1 && r.2 == self.entries()[signal_index].2,
            !r.3 ==> r.0.value == 0 && r.1@ == Seq::<char>::empty() && r.2 == 0,
    {
        match self.reference.get(&signal_index) {
            Some(slot) => (
                self.signal_id_list[*slot],
                self.source_list[*slot].as_str(),
                self.id_list[*slot],
                true,
            ),
            None => {
                proof {
                    reveal_strlit("");
                }
                (Guid::nil(), "", 0, false)
            },
        }
    }

    /// The runtime signal index registered for the signal ID, or -1 if there is none.
    pub fn signal_index(&self, signal_id: Guid) -> (r: i32)
        requires
            self.wf(),
        ensures
            r == (if self.reverse().contains_key(signal_id.value) {
                self.reverse()[signal_id.value]
            } else {
                -1i32
            }),
    {
        match self.signal_id_cache.get(&signal_id.value) {
            Some(index) => *index,
            None => -1,
        }
    }

    /// Decodes a signal index cache image sent by a publisher and adds its records to
    /// this cache, a later record replacing an earlier one with the same runtime index.
    /// Gives the subscriber ID that the image carries.
    ///
    /// Fails with `Truncated` where the buffer is shorter than 4 bytes, than its declared
    /// length, or than the fields it holds, and with `InvalidUtf8` where a source text is
    /// not UTF-8; on failure the cache is left as it was.
    pub fn decode(&mut self, buffer: &[u8]) -> (r: Result<Guid, DecodeError>)
        requires
            old(self).wf(),
        ensures
            final(self).wf(),
            match parse_cache(buffer@) {
                Ok((subscriber_id, recs)) => {
                    &&& r == Ok::<Guid, DecodeError>(Guid { value: subscriber_id })
                    &&& (final(self).entries(), final(self).reverse()) == apply_records(
                        old(self).entries(),
                        old(self).reverse(),
                        recs,
                    )
                },
                Err(e) => r == Err::<Guid, DecodeError>(e) && *final(self) == *old(self),
            },
    {
        let len = buffer.len();
        if len < 4 {
            return Err(DecodeError::Truncated);
        }
        let binary_length = read_u32_be(buffer, 0);
        if len < binary_length as usize || len < 24 {
            return Err(DecodeError::Truncated);
        }
        let subscriber_id = Guid::from_bytes(slice_subrange(buffer, 4, 20));
        let count = read_u32_be(buffer, 20);
        let ghost s = buffer@;
        let mut recs: Vec<DecodedRecord> = Vec::new();
        let mut off: usize = 24;
        let mut i: u32 = 0;
        while i < count
            invariant
                s == buffer@,
                *self == *old(self),
                self.wf(),
                s.len() >= 24,
                s.len() >= be_u32_at(s, 0),
                24 <= off <= s.len(),
                i <= count,
                count == be_u32_at(s, 20),
                parse_records(s, 24, count as nat) == match parse_records(
                    s,
                    off as int,
                    (count - i) as nat,
                ) {
                    Ok(rest) => Ok(decoded_views(recs@) + rest),
                    Err(e) => Err(e),
                },
            decreases count - i,
        {
            match decode_record(buffer, off) {
                Err(e) => {
                    return Err(e);
                },
                Ok((rec, next)) => {
                    let ghost before = decoded_views(recs@);
                    let ghost v = decoded_view(rec);
                    recs.push(rec);
                    assert(decoded_views(recs@) =~= before.push(v));
                    proof {
                        match parse_records(s, next as int, (count - i - 1) as nat) {
                            Ok(rest) => {
                                assert(before + (seq![v] + rest) =~= before.push(v) + rest);
                            },
                            Err(_) => {},
                        }
                    }
                    off = next;
                    i = i + 1;
                },
            }
        }
        let ghost views = decoded_views(recs@);
        assert(views + Seq::<SignalRecordView>::empty() =~= views);
        let ghost e0 = self.entries();
        let ghost r0 = self.reverse();
        let mut j: usize = 0;
        while j < recs.len()
            invariant
                self.wf(),
                views == decoded_views(recs@),
                j <= recs@.len(),
                (self.entries(), self.reverse()) == apply_records(
                    e0,
                    r0,
                    views.subrange(0, j as int),
                ),
            decreases recs@.len() - j,
        {
            let rec = &recs[j];
            self.add_record(rec.signal_index, rec.signal_id, rec.source.clone(), rec.key);
            assert(views.subrange(0, j + 1).drop_last() =~= views.subrange(0, j as int));
            j = j + 1;
        }
        assert(views.subrange(0, recs@.len() as int) =~= views);
        Ok(subscriber_id)
    }

    /// The number of distinct signal IDs registered, saturated at `u32::MAX`.
    pub fn count(&self) -> (r: u32)
        requires
            self.wf(),
        ensures
            r == (if self.reverse().len() <= u32::MAX { self.reverse().len() } else { u32::MAX as nat }),
    {
        proof {
            self.unique_ids().unique_seq_to_set();
            assert(self.unique_ids().to_set() =~= self.reverse().dom());
        }
        let n = self.unique_ids.len();
        if n > 0xFFFF_FFFF {
            u32::MAX
        } else {
            n as u32
        }
    }
}

proof fn lemma_record_in_prefix(s: Seq<u8>, k: int, off: int)
    requires
        0 <= off,
        0 <= k <= s.len(),
        parse_record(s, off) is Ok,
    ensures
        parse_record(s, off).unwrap().1 <= k ==> parse_record(s.subrange(0, k), off) == parse_record(s, off),
        parse_record(s, off).unwrap().1 > k ==> parse_record(s.subrange(0, k), off) == Err::<(SignalRecordView, int), DecodeError>(DecodeError::Truncated),
        off < parse_record(s, off).unwrap().1,
{
    let t = s.subrange(0, k);
    let start = off + 24;
    let n = be_u32_at(s, off + 20);
    if start <= k {
        assert(be_u32_at(t, off + 20) == n);
        if start + n <= k {
            assert(t.subrange(start, start + n) =~= s.subrange(start, start + n));
            if start + n + 8 <= k {
                assert(be_u32_at(t, off) == be_u32_at(s, off));
                assert(be_u128_at(t, off + 4) == be_u128_at(s, off + 4));
                assert(be_u64_at(t, start + n) == be_u64_at(s, start + n));
            }
        }
    }
}

proof fn lemma_records_in_prefix(s: Seq<u8>, k: int, off: int, count: nat)
    requires
        0 <= off <= k <= s.len(),
        parse_records(s, off, count) is Ok,
        k < records_end(s, off, count),
    ensures
        parse_records(s.subrange(0, k), off, count) == Err::<Seq<SignalRecordView>, DecodeError>(DecodeError::Truncated),
    decreases count,
{
    let t = s.subrange(0, k);
    lemma_record_in_prefix(s, k, off);
    let next = parse_record(s, off).unwrap().1;
    if next <= k {
        lemma_records_in_prefix(s, k, next, (count - 1) as nat);
    }
}

proof fn lemma_records_end_bound(s: Seq<u8>, off: int, count: nat)
    requires
        0 <= off <= s.len(),
        parse_records(s, off, count) is Ok,
    ensures
        off <= records_end(s, off, count) <= s.len(),
    decreases count,
{
    if count > 0 {
        let next = parse_record(s, off).unwrap().1;
        lemma_records_end_bound(s, next, (count - 1) as nat);
    }
}

/// Cutting a valid signal index cache image anywhere before the end of its last record
/// makes it fail to decode, always with `Truncated`: no prefix decodes to part of the
/// records.
pub proof fn lemma_truncated_image_fails(s: Seq<u8>, k: int)
    requires
        parse_cache(s) is Ok,
        0 <= k < cache_image_end(s),
    ensures
        parse_cache(s.subrange(0, k)) == Err::<(u128, Seq<SignalRecordView>), DecodeError>(DecodeError::Truncated),
{
    lemma_records_end_bound(s, 24, be_u32_at(s, 20) as nat);
    let t = s.subrange(0, k);
    if k >= 24 && k >= be_u32_at(t, 0) {
        assert(be_u32_at(t, 20) == be_u32_at(s, 20));
        lemma_records_in_prefix(s, k, 24, be_u32_at(s, 20) as nat);
    }
}

proof fn lemma_applied_records_registered(
    entries: EntriesView,
    reverse: Map<u128, i32>,
    recs: Seq<SignalRecordView>,
    j: int,
)
    requires
        0 <= j < recs.len(),
    ensures
        apply_records(entries, reverse, recs).0.contains_key(recs[j].0),
        apply_records(entries, reverse, recs).1.contains_key(recs[j].1),
    decreases recs.len(),
{
    if j < recs.len() - 1 {
        lemma_applied_records_registered(entries, reverse, recs.drop_last(), j);
    }
}

/// Decoding is a function of the bytes alone: two caches that hold the same lookups
/// and decode the same image hold the same lookups afterwards. Every record of the
/// image can then be found by its runtime index and by its signal ID.
pub proof fn lemma_decode_deterministic(a: SignalIndexCache, b: SignalIndexCache, s: Seq<u8>)
    requires
        a.entries() == b.entries(),
        a.reverse() == b.reverse(),
        parse_cache(s) is Ok,
    ensures
        apply_records(a.entries(), a.reverse(), parse_cache(s).unwrap().1) == apply_records(
            b.entries(),
            b.reverse(),
            parse_cache(s).unwrap().1,
        ),
        forall|j: int|
            0 <= j < parse_cache(s).unwrap().1.len() ==> {
                &&& #[trigger] apply_records(
                    a.entries(),
                    a.reverse(),
                    parse_cache(s).unwrap().1,
                ).0.contains_key(parse_cache(s).unwrap().1[j].0)
                &&& apply_records(a.entries(), a.reverse(), parse_cache(s).unwrap().1).1.contains_key(
                    parse_cache(s).unwrap().1[j].1,
                )
            },
{
    let recs = parse_cache(s).unwrap().1;
    assert forall|j: int| 0 <= j < recs.len() implies {
        &&& #[trigger] apply_records(a.entries(), a.reverse(), recs).0.contains_key(recs[j].0)
        &&& apply_records(a.entries(), a.reverse(), recs).1.contains_key(recs[j].1)
    } by {
        lemma_applied_records_registered(a.entries(), a.reverse(), recs, j);
    }
}

} // verus!
