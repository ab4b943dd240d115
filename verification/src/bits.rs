//! Facts about bit operations on register words, shared by the drivers.

use vstd::prelude::*;

verus! {

/// The halves of a 32-bit word taken with masks and shifts are its
/// quotient and remainder by 2^16.
pub proof fn lemma_u32_halves(v: u32)
    by (bit_vector)
    ensures
        (v >> 16u32) as u16 == (v / 0x1_0000) as u16,
        ((v >> 16u32) & 0xFFFFu32) as u16 == (v / 0x1_0000) as u16,
        ((v & 0xFFFF0000u32) >> 16u32) as u16 == (v / 0x1_0000) as u16,
        (v & 0xFFFFu32) as u16 == (v % 0x1_0000) as u16,
{
}

/// Bytes 1 to 3 of a 32-bit word taken with masks and shifts (byte 0 is
/// in `lemma_low_byte_and_zero`).
pub proof fn lemma_u32_bytes(v: u32)
    by (bit_vector)
    ensures
        ((v >> 8u32) & 0xFFu32) as u8 == ((v / 0x100) % 0x100) as u8,
        ((v >> 16u32) & 0xFFu32) as u8 == ((v / 0x1_0000) % 0x100) as u8,
        ((v >> 24u32) & 0xFFu32) as u8 == ((v / 0x100_0000) % 0x100) as u8,
{
}

/// A value below 2^24 shifted left by a byte, with the low bit set.
pub proof fn lemma_shl8_or1(a: u32)
    by (bit_vector)
    requires
        a < 0x100_0000,
    ensures
        (1u32 | (a << 8u32)) == a * 0x100 + 1,
        ((a << 8u32) | 1u32) == a * 0x100 + 1,
{
}

/// Low-bit masks and right shifts are remainders and quotients by powers
/// of two.
pub proof fn lemma_low_bits(x: u32)
    by (bit_vector)
    ensures
        x >> 4u32 == x / 16,
        x >> 5u32 == x / 32,
        x & 0x1Fu32 == x % 32,
        x & 1u32 == x % 2,
        x % 0x1_0000 == 0 ==> x & 0xFFFFu32 == 0,
{
}

/// Zero is neutral for `|` and absorbing for `&`, and the low byte of a
/// word is its remainder by 256.
pub proof fn lemma_low_byte_and_zero(x: u32)
    by (bit_vector)
    ensures
        x | 0u32 == x,
        0u32 | x == x,
        0u32 & x == 0,
        (x & 0xFFu32) as u8 == (x % 0x100) as u8,
{
}

/// How `|` meets masks: the two top bits or-ed in leave the low half
/// unchanged; a length below 2^16 or-ed onto a value with a clear low half
/// is that low half, and leaves the two top bits as they were; each top
/// bit or-ed in leaves the other as it was; a set bit stays set under `|`;
/// and a three-bit mask is clear exactly when each of its bits is.
pub proof fn lemma_or_masks(x: u32, y: u32, len: u32, c: u32)
    by (bit_vector)
    ensures
        (x | 0x4000_0000u32) & 0xFFFFu32 == x & 0xFFFFu32,
        (x | 0x8000_0000u32) & 0xFFFFu32 == x & 0xFFFFu32,
        x & 0xFFFFu32 == 0 && len < 0x1_0000u32 ==> (x | len) & 0xFFFFu32 == len,
        x & c != 0 ==> (x | y) & c != 0,
        c != 0 ==> (x | c) & c != 0,
        (x & 0x1c000u32 == 0) == (x & 0x4000u32 == 0 && x & 0x8000u32 == 0 && x & 0x10000u32 == 0),
        len < 0x1_0000u32 ==> (x | len) & 0x4000_0000u32 == x & 0x4000_0000u32,
        len < 0x1_0000u32 ==> (x | len) & 0x8000_0000u32 == x & 0x8000_0000u32,
        (x | 0x8000_0000u32) & 0x4000_0000u32 == x & 0x4000_0000u32,
        (x | 0x4000_0000u32) & 0x8000_0000u32 == x & 0x8000_0000u32,
{
}

} // verus!
