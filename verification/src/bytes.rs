//! Little-endian byte encodings of the integer fields of hardware
//! descriptors, with the facts that relate an encoding to its decoding.

use vstd::prelude::*;

verus! {

/// The two bytes of `x`, least significant first.
pub open spec fn le16(x: u16) -> Seq<u8> {
    seq![(x & 0xff) as u8, ((x >> 8u16) & 0xff) as u8]
}

/// The four bytes of `x`, least significant first.
pub open spec fn le32(x: u32) -> Seq<u8> {
    seq![
        (x & 0xff) as u8,
        ((x >> 8u32) & 0xff) as u8,
        ((x >> 16u32) & 0xff) as u8,
        ((x >> 24u32) & 0xff) as u8,
    ]
}

/// The eight bytes of `x`, least significant first.
pub open spec fn le64(x: u64) -> Seq<u8> {
    seq![
        (x & 0xff) as u8,
        ((x >> 8u64) & 0xff) as u8,
        ((x >> 16u64) & 0xff) as u8,
        ((x >> 24u64) & 0xff) as u8,
        ((x >> 32u64) & 0xff) as u8,
        ((x >> 40u64) & 0xff) as u8,
        ((x >> 48u64) & 0xff) as u8,
        ((x >> 56u64) & 0xff) as u8,
    ]
}

/// The `u16` whose little-endian bytes are `s[i..i + 2]`.
pub open spec fn from_le16(s: Seq<u8>, i: int) -> u16 {
    (s[i] as u16) | ((s[i + 1] as u16) << 8u16)
}

/// The `u32` whose little-endian bytes are `s[i..i + 4]`.
pub open spec fn from_le32(s: Seq<u8>, i: int) -> u32 {
    (s[i] as u32) | ((s[i + 1] as u32) << 8u32) | ((s[i + 2] as u32) << 16u32) | ((s[i
        + 3] as u32) << 24u32)
}

/// The `u64` whose little-endian bytes are `s[i..i + 8]`.
pub open spec fn from_le64(s: Seq<u8>, i: int) -> u64 {
    (s[i] as u64) | ((s[i + 1] as u64) << 8u64) | ((s[i + 2] as u64) << 16u64) | ((s[i
        + 3] as u64) << 24u64) | ((s[i + 4] as u64) << 32u64) | ((s[i + 5] as u64) << 40u64)
        | ((s[i + 6] as u64) << 48u64) | ((s[i + 7] as u64) << 56u64)
}

/// Decoding the encoding of a `u16` gives it back.
pub proof fn lemma_le16_decode(x: u16, s: Seq<u8>, i: int)
    requires
        0 <= i,
        i + 2 <= s.len(),
        s.subrange(i, i + 2) == le16(x),
    ensures
        from_le16(s, i) == x,
{
    assert(s[i] == le16(x)[0]);
    assert(s[i + 1] == le16(x)[1]);
    let a = s[i];
    let b = s[i + 1];
    assert(a == (x & 0xff) as u8 && b == ((x >> 8u16) & 0xff) as u8 ==> ((a as u16) | ((
    b as u16) << 8u16)) == x) by (bit_vector);
}

/// Encoding the decoding of two bytes gives them back.
pub proof fn lemma_le16_encode(s: Seq<u8>, i: int)
    requires
        0 <= i,
        i + 2 <= s.len(),
    ensures
        le16(from_le16(s, i)) == s.subrange(i, i + 2),
{
    let a = s[i];
    let b = s[i + 1];
    let x = from_le16(s, i);
    assert(x == ((a as u16) | ((b as u16) << 8u16)) ==> (x & 0xff) as u8 == a && ((x
        >> 8u16) & 0xff) as u8 == b) by (bit_vector);
    assert(le16(x) =~= s.subrange(i, i + 2));
}

/// Decoding the encoding of a `u32` gives it back.
pub proof fn lemma_le32_decode(x: u32, s: Seq<u8>, i: int)
    requires
        0 <= i,
        i + 4 <= s.len(),
        s.subrange(i, i + 4) == le32(x),
    ensures
        from_le32(s, i) == x,
{
    assert(s[i] == le32(x)[0]);
    assert(s[i + 1] == le32(x)[1]);
    assert(s[i + 2] == le32(x)[2]);
    assert(s[i + 3] == le32(x)[3]);
    let a = s[i];
    let b = s[i + 1];
    let c = s[i + 2];
    let d = s[i + 3];
    assert(a == (x & 0xff) as u8 && b == ((x >> 8u32) & 0xff) as u8 && c == ((x >> 16u32)
        & 0xff) as u8 && d == ((x >> 24u32) & 0xff) as u8 ==> ((a as u32) | ((b as u32)
        << 8u32) | ((c as u32) << 16u32) | ((d as u32) << 24u32)) == x) by (bit_vector);
}

/// Encoding the decoding of four bytes gives them back.
pub proof fn lemma_le32_encode(s: Seq<u8>, i: int)
    requires
        0 <= i,
        i + 4 <= s.len(),
    ensures
        le32(from_le32(s, i)) == s.subrange(i, i + 4),
{
    let a = s[i];
    let b = s[i + 1];
    let c = s[i + 2];
    let d = s[i + 3];
    let x = from_le32(s, i);
    assert(x == ((a as u32) | ((b as u32) << 8u32) | ((c as u32) << 16u32) | ((d as u32)
        << 24u32)) ==> (x & 0xff) as u8 == a && ((x >> 8u32) & 0xff) as u8 == b && ((x
        >> 16u32) & 0xff) as u8 == c && ((x >> 24u32) & 0xff) as u8 == d) by (bit_vector);
    assert(le32(x) =~= s.subrange(i, i + 4));
}

/// Decoding the encoding of a `u64` gives it back.
pub proof fn lemma_le64_decode(x: u64, s: Seq<u8>, i: int)
    requires
        0 <= i,
        i + 8 <= s.len(),
        s.subrange(i, i + 8) == le64(x),
    ensures
        from_le64(s, i) == x,
{
    assert(s[i] == le64(x)[0]);
    assert(s[i + 1] == le64(x)[1]);
    assert(s[i + 2] == le64(x)[2]);
    assert(s[i + 3] == le64(x)[3]);
    assert(s[i + 4] == le64(x)[4]);
    assert(s[i + 5] == le64(x)[5]);
    assert(s[i + 6] == le64(x)[6]);
    assert(s[i + 7] == le64(x)[7]);
    let b0 = s[i];
    let b1 = s[i + 1];
    let b2 = s[i + 2];
    let b3 = s[i + 3];
    let b4 = s[i + 4];
    let b5 = s[i + 5];
    let b6 = s[i + 6];
    let b7 = s[i + 7];
    assert(b0 == (x & 0xff) as u8 && b1 == ((x >> 8u64) & 0xff) as u8 && b2 == ((x
        >> 16u64) & 0xff) as u8 && b3 == ((x >> 24u64) & 0xff) as u8 && b4 == ((x
        >> 32u64) & 0xff) as u8 && b5 == ((x >> 40u64) & 0xff) as u8 && b6 == ((x
        >> 48u64) & 0xff) as u8 && b7 == ((x >> 56u64) & 0xff) as u8 ==> ((b0 as u64) | ((
    b1 as u64) << 8u64) | ((b2 as u64) << 16u64) | ((b3 as u64) << 24u64) | ((b4 as u64)
        << 32u64) | ((b5 as u64) << 40u64) | ((b6 as u64) << 48u64) | ((b7 as u64)
        << 56u64)) == x) by (bit_vector);
}

/// Encoding the decoding of eight bytes gives them back.
pub proof fn lemma_le64_encode(s: Seq<u8>, i: int)
    requires
        0 <= i,
        i + 8 <= s.len(),
    ensures
        le64(from_le64(s, i)) == s.subrange(i, i + 8),
{
    let b0 = s[i];
    let b1 = s[i + 1];
    let b2 = s[i + 2];
    let b3 = s[i + 3];
    let b4 = s[i + 4];
    let b5 = s[i + 5];
    let b6 = s[i + 6];
    let b7 = s[i + 7];
    let x = from_le64(s, i);
    assert(x == ((b0 as u64) | ((b1 as u64) << 8u64) | ((b2 as u64) << 16u64) | ((
    b3 as u64) << 24u64) | ((b4 as u64) << 32u64) | ((b5 as u64) << 40u64) | ((b6 as u64)
        << 48u64) | ((b7 as u64) << 56u64)) ==> (x & 0xff) as u8 == b0 && ((x >> 8u64)
        & 0xff) as u8 == b1 && ((x >> 16u64) & 0xff) as u8 == b2 && ((x >> 24u64) & 0xff)
        as u8 == b3 && ((x >> 32u64) & 0xff) as u8 == b4 && ((x >> 40u64) & 0xff) as u8
        == b5 && ((x >> 48u64) & 0xff) as u8 == b6 && ((x >> 56u64) & 0xff) as u8 == b7)
        by (bit_vector);
    assert(le64(x) =~= s.subrange(i, i + 8));
}

/// The low 32 bits of a DMA address.
pub open spec fn addr_low(addr: u64) -> u32 {
    (addr % 0x1_0000_0000) as u32
}

/// The high 32 bits of a DMA address.
pub open spec fn addr_high(addr: u64) -> u32 {
    (addr / 0x1_0000_0000) as u32
}

/// Splits a 64-bit DMA address into its `(low, high)` 32-bit halves.
pub fn split_dma_addr(addr: u64) -> (r: (u32, u32))
    ensures
        r.0 == addr_low(addr),
        r.1 == addr_high(addr),
        r.0 as int + r.1 as int * 0x1_0000_0000 == addr,
{
    let lo = (addr & 0xFFFF_FFFF) as u32;
    let hi = (addr >> 32u64) as u32;
    assert(lo == addr % 0x1_0000_0000 && hi == addr / 0x1_0000_0000) by (bit_vector)
        requires
            lo == (addr & 0xFFFF_FFFF) as u32,
            hi == (addr >> 32u64) as u32,
    ;
    (lo, hi)
}

} // verus!
