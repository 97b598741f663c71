use vstd::arithmetic::div_mod::{lemma_div_denominator, lemma_fundamental_div_mod};
use vstd::prelude::*;

verus! {

/// Why a wire image could not be decoded.
#[derive(Copy, Clone, Debug, PartialEq, Eq, Hash, Structural)]
pub enum DecodeError {
    /// The buffer ends before the image it declares or holds.
    Truncated,
    /// A text field is not valid UTF-8.
    InvalidUtf8,
}

/// The big-endian 16-bit value of the two bytes of `s` at `i`.
pub open spec fn be_u16_at(s: Seq<u8>, i: int) -> int {
    s[i] as int * 256 + s[i + 1] as int
}

/// The big-endian 32-bit value of the four bytes of `s` at `i`.
pub open spec fn be_u32_at(s: Seq<u8>, i: int) -> int {
    ((s[i] as int * 256 + s[i + 1] as int) * 256 + s[i + 2] as int) * 256 + s[i + 3] as int
}

/// The big-endian 64-bit value of the eight bytes of `s` at `i`.
pub open spec fn be_u64_at(s: Seq<u8>, i: int) -> int {
    be_u32_at(s, i) * 0x1_0000_0000 + be_u32_at(s, i + 4)
}

/// The big-endian 128-bit value of the sixteen bytes of `s` at `i`.
pub open spec fn be_u128_at(s: Seq<u8>, i: int) -> int {
    be_u64_at(s, i) * 0x1_0000_0000_0000_0000 + be_u64_at(s, i + 8)
}

/// A 32-bit pattern read as a two's complement signed integer.
pub open spec fn as_signed32(v: int) -> int {
    if v < 0x8000_0000 {
        v
    } else {
        v - 0x1_0000_0000
    }
}

/// The 32-bit pattern of a signed integer in two's complement.
pub open spec fn as_unsigned32(v: int) -> int {
    if v >= 0 {
        v
    } else {
        v + 0x1_0000_0000
    }
}

/// The two big-endian bytes of `v`.
pub open spec fn be_bytes16(v: u16) -> Seq<u8> {
    seq![(v / 0x100) as u8, (v % 0x100) as u8]
}

/// The four big-endian bytes of `v`.
pub open spec fn be_bytes32(v: u32) -> Seq<u8> {
    seq![
        (v / 0x100_0000) as u8,
        ((v / 0x1_0000) % 0x100) as u8,
        ((v / 0x100) % 0x100) as u8,
        (v % 0x100) as u8,
    ]
}

/// The eight big-endian bytes of `v`.
pub open spec fn be_bytes64(v: u64) -> Seq<u8> {
    be_bytes32((v / 0x1_0000_0000) as u32) + be_bytes32((v % 0x1_0000_0000) as u32)
}

/// Reads the big-endian `u16` at `off`.
pub fn read_u16_be(buf: &[u8], off: usize) -> (r: u16)
    requires
        off + 2 <= buf@.len(),
    ensures
        r == be_u16_at(buf@, off as int),
{
    (buf[off] as u16) * 256 + (buf[off + 1] as u16)
}

/// Reads the big-endian `u32` at `off`.
pub fn read_u32_be(buf: &[u8], off: usize) -> (r: u32)
    requires
        off + 4 <= buf@.len(),
    ensures
        r == be_u32_at(buf@, off as int),
{
    (((buf[off] as u32) * 256 + (buf[off + 1] as u32)) * 256 + (buf[off + 2] as u32)) * 256 + (
    buf[off + 3] as u32)
}

/// Reads the big-endian two's complement `i32` at `off`.
pub fn read_i32_be(buf: &[u8], off: usize) -> (r: i32)
    requires
        off + 4 <= buf@.len(),
    ensures
        r == as_signed32(be_u32_at(buf@, off as int)),
{
    let v = read_u32_be(buf, off);
    if v < 0x8000_0000 {
        v as i32
    } else {
        ((v - 0x8000_0000) as i32) - 0x7FFF_FFFF - 1
    }
}

/// Reads the big-endian `u64` at `off`.
pub fn read_u64_be(buf: &[u8], off: usize) -> (r: u64)
    requires
        off + 8 <= buf@.len(),
    ensures
        r == be_u64_at(buf@, off as int),
{
    assert(off + 8 <= buf.len());
    let hi = read_u32_be(buf, off);
    let lo = read_u32_be(buf, off + 4);
    (hi as u64) * 0x1_0000_0000 + (lo as u64)
}

/// The four bytes of `be_bytes32(v)` read back as `v`.
pub proof fn lemma_be_bytes32(v: u32)
    ensures
        be_u32_at(be_bytes32(v), 0) == v,
{
    let x = v as int;
    lemma_fundamental_div_mod(x, 256);
    lemma_fundamental_div_mod(x / 256, 256);
    lemma_fundamental_div_mod(x / 0x1_0000, 256);
    lemma_div_denominator(x, 256, 256);
    lemma_div_denominator(x, 0x1_0000, 256);
    assert(x / 0x100_0000 < 256);
}

/// The two bytes of `be_bytes16(v)` read back as `v`.
pub proof fn lemma_be_bytes16(v: u16)
    ensures
        be_u16_at(be_bytes16(v), 0) == v,
{
    lemma_fundamental_div_mod(v as int, 256);
}

/// The eight bytes of `be_bytes64(v)` read back as `v`.
pub proof fn lemma_be_bytes64(v: u64)
    ensures
        be_u64_at(be_bytes64(v), 0) == v,
{
    let hi = (v / 0x1_0000_0000) as u32;
    let lo = (v % 0x1_0000_0000) as u32;
    lemma_be_bytes32(hi);
    lemma_be_bytes32(lo);
    lemma_fundamental_div_mod(v as int, 0x1_0000_0000);
    let s = be_bytes64(v);
    assert(be_u32_at(s, 0) == be_u32_at(be_bytes32(hi), 0));
    assert(be_u32_at(s, 4) == be_u32_at(be_bytes32(lo), 0));
}

/// Appends the two big-endian bytes of `v`.
pub fn push_u16_be(out: &mut Vec<u8>, v: u16)
    ensures
        final(out)@ == old(out)@ + be_bytes16(v),
        be_u16_at(final(out)@, old(out)@.len() as int) == v,
{
    out.push((v / 0x100) as u8);
    out.push((v % 0x100) as u8);
    assert(final(out)@ =~= old(out)@ + be_bytes16(v));
}

/// Appends the four big-endian bytes of `v`.
pub fn push_u32_be(out: &mut Vec<u8>, v: u32)
    ensures
        final(out)@ == old(out)@ + be_bytes32(v),
        be_u32_at(final(out)@, old(out)@.len() as int) == v,
{
    out.push((v / 0x100_0000) as u8);
    out.push(((v / 0x1_0000) % 0x100) as u8);
    out.push(((v / 0x100) % 0x100) as u8);
    out.push((v % 0x100) as u8);
    proof {
        lemma_be_bytes32(v);
    }
    assert(final(out)@ =~= old(out)@ + be_bytes32(v));
}

/// Appends the eight big-endian bytes of `v`.
pub fn push_u64_be(out: &mut Vec<u8>, v: u64)
    ensures
        final(out)@ == old(out)@ + be_bytes64(v),
        be_u64_at(final(out)@, old(out)@.len() as int) == v,
{
    let hi = (v / 0x1_0000_0000) as u32;
    let lo = (v % 0x1_0000_0000) as u32;
    push_u32_be(out, hi);
    push_u32_be(out, lo);
    assert(final(out)@ =~= old(out)@ + be_bytes64(v));
}

/// Appends the bytes of a slice.
pub fn push_bytes(out: &mut Vec<u8>, bytes: &[u8])
    ensures
        final(out)@ == old(out)@ + bytes@,
{
    let mut i: usize = 0;
    while i < bytes.len()
        invariant
            i <= bytes@.len(),
            out@ == old(out)@ + bytes@.subrange(0, i as int),
        decreases bytes@.len() - i,
    {
        out.push(bytes[i]);
        assert(out@ =~= old(out)@ + bytes@.subrange(0, i + 1));
        i = i + 1;
    }
    assert(bytes@.subrange(0, bytes@.len() as int) =~= bytes@);
}

} // verus!
