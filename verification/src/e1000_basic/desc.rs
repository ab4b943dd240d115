//! The legacy receive and transmit descriptors of the smaller driver and
//! their little-endian memory images.

use vstd::prelude::*;

use crate::bytes::{
    from_le16, from_le64, le16, le64, lemma_le16_decode, lemma_le16_encode, lemma_le64_decode,
    lemma_le64_encode,
};

verus! {

/// Legacy Receive Descriptor (16 bytes). The hardware writes `length`,
/// `checksum`, `status`, `errors` and `special` after DMA-ing a frame into
/// `buffer_addr`.
#[derive(Clone, Copy, Debug, PartialEq, Eq, Structural)]
pub struct RxDesc {
    pub buffer_addr: u64,
    pub length: u16,
    pub checksum: u16,
    pub status: u8,
    pub errors: u8,
    pub special: u16,
}

impl Default for RxDesc {
    fn default() -> (r: Self)
        ensures
            r == (RxDesc {
                buffer_addr: 0,
                length: 0,
                checksum: 0,
                status: 0,
                errors: 0,
                special: 0,
            }),
    {
        RxDesc { buffer_addr: 0, length: 0, checksum: 0, status: 0, errors: 0, special: 0 }
    }
}

/// Legacy Transmit Descriptor (16 bytes). Software fills `buffer_addr`,
/// `length` and `cmd`; the hardware writes back `status`.
#[derive(Clone, Copy, Debug, PartialEq, Eq, Structural)]
pub struct TxDesc {
    pub buffer_addr: u64,
    pub length: u16,
    pub cso: u8,
    pub cmd: u8,
    pub status: u8,
    pub css: u8,
    pub special: u16,
}

impl Default for TxDesc {
    fn default() -> (r: Self)
        ensures
            r == (TxDesc {
                buffer_addr: 0,
                length: 0,
                cso: 0,
                cmd: 0,
                status: 0,
                css: 0,
                special: 0,
            }),
    {
        TxDesc { buffer_addr: 0, length: 0, cso: 0, cmd: 0, status: 0, css: 0, special: 0 }
    }
}

/// Error type for ring allocation failures.
#[derive(Debug)]
pub struct RingAllocError;

impl RxDesc {
    /// The descriptor that hands the buffer at `buffer_addr` to the
    /// hardware, every other field zero.
    pub fn for_buffer(buffer_addr: u64) -> (d: Self)
        ensures
            d == (RxDesc { buffer_addr, length: 0, checksum: 0, status: 0, errors: 0, special: 0 }),
    {
        RxDesc { buffer_addr, length: 0, checksum: 0, status: 0, errors: 0, special: 0 }
    }
}

/// The memory image of a receive descriptor.
pub open spec fn rx_desc_bytes(d: RxDesc) -> Seq<u8> {
    le64(d.buffer_addr) + le16(d.length) + le16(d.checksum) + seq![d.status, d.errors] + le16(
        d.special,
    )
}

/// The receive descriptor whose memory image is `s`.
pub open spec fn rx_desc_decode(s: Seq<u8>) -> RxDesc {
    RxDesc {
        buffer_addr: from_le64(s, 0),
        length: from_le16(s, 8),
        checksum: from_le16(s, 10),
        status: s[12],
        errors: s[13],
        special: from_le16(s, 14),
    }
}

/// The memory image of a transmit descriptor.
pub open spec fn tx_desc_bytes(d: TxDesc) -> Seq<u8> {
    le64(d.buffer_addr) + le16(d.length) + seq![d.cso, d.cmd, d.status, d.css] + le16(d.special)
}

/// The transmit descriptor whose memory image is `s`.
pub open spec fn tx_desc_decode(s: Seq<u8>) -> TxDesc {
    TxDesc {
        buffer_addr: from_le64(s, 0),
        length: from_le16(s, 8),
        cso: s[10],
        cmd: s[11],
        status: s[12],
        css: s[13],
        special: from_le16(s, 14),
    }
}

/// Encodes a receive descriptor into its memory image.
pub fn rx_desc_to_bytes(d: &RxDesc) -> (b: [u8; 16])
    ensures
        b@ == rx_desc_bytes(*d),
{
    let a = d.buffer_addr;
    let b = [
        (a & 0xff) as u8,
        ((a >> 8u64) & 0xff) as u8,
        ((a >> 16u64) & 0xff) as u8,
        ((a >> 24u64) & 0xff) as u8,
        ((a >> 32u64) & 0xff) as u8,
        ((a >> 40u64) & 0xff) as u8,
        ((a >> 48u64) & 0xff) as u8,
        ((a >> 56u64) & 0xff) as u8,
        (d.length & 0xff) as u8,
        ((d.length >> 8u16) & 0xff) as u8,
        (d.checksum & 0xff) as u8,
        ((d.checksum >> 8u16) & 0xff) as u8,
        d.status,
        d.errors,
        (d.special & 0xff) as u8,
        ((d.special >> 8u16) & 0xff) as u8,
    ];
    assert(b@ =~= rx_desc_bytes(*d));
    b
}

/// Decodes a receive descriptor from its memory image.
pub fn bytes_to_rx_desc(b: &[u8; 16]) -> (d: RxDesc)
    ensures
        d == rx_desc_decode(b@),
{
    RxDesc {
        buffer_addr: (b[0] as u64) | ((b[1] as u64) << 8u64) | ((b[2] as u64) << 16u64) | ((
        b[3] as u64) << 24u64) | ((b[4] as u64) << 32u64) | ((b[5] as u64) << 40u64) | ((
        b[6] as u64) << 48u64) | ((b[7] as u64) << 56u64),
        length: (b[8] as u16) | ((b[9] as u16) << 8u16),
        checksum: (b[10] as u16) | ((b[11] as u16) << 8u16),
        status: b[12],
        errors: b[13],
        special: (b[14] as u16) | ((b[15] as u16) << 8u16),
    }
}

/// Encodes a transmit descriptor into its memory image.
pub fn tx_desc_to_bytes(d: &TxDesc) -> (b: [u8; 16])
    ensures
        b@ == tx_desc_bytes(*d),
{
    let a = d.buffer_addr;
    let b = [
        (a & 0xff) as u8,
        ((a >> 8u64) & 0xff) as u8,
        ((a >> 16u64) & 0xff) as u8,
        ((a >> 24u64) & 0xff) as u8,
        ((a >> 32u64) & 0xff) as u8,
        ((a >> 40u64) & 0xff) as u8,
        ((a >> 48u64) & 0xff) as u8,
        ((a >> 56u64) & 0xff) as u8,
        (d.length & 0xff) as u8,
        ((d.length >> 8u16) & 0xff) as u8,
        d.cso,
        d.cmd,
        d.status,
        d.css,
        (d.special & 0xff) as u8,
        ((d.special >> 8u16) & 0xff) as u8,
    ];
    assert(b@ =~= tx_desc_bytes(*d));
    b
}

/// Decodes a transmit descriptor from its memory image.
pub fn bytes_to_tx_desc(b: &[u8; 16]) -> (d: TxDesc)
    ensures
        d == tx_desc_decode(b@),
{
    TxDesc {
        buffer_addr: (b[0] as u64) | ((b[1] as u64) << 8u64) | ((b[2] as u64) << 16u64) | ((
        b[3] as u64) << 24u64) | ((b[4] as u64) << 32u64) | ((b[5] as u64) << 40u64) | ((
        b[6] as u64) << 48u64) | ((b[7] as u64) << 56u64),
        length: (b[8] as u16) | ((b[9] as u16) << 8u16),
        cso: b[10],
        cmd: b[11],
        status: b[12],
        css: b[13],
        special: (b[14] as u16) | ((b[15] as u16) << 8u16),
    }
}

/// Decoding the memory image of a receive descriptor gives it back, and
/// any sixteen bytes are the image of the descriptor they decode to.
pub proof fn lemma_rx_desc_roundtrip(d: RxDesc, s: Seq<u8>)
    requires
        s.len() == 16,
    ensures
        rx_desc_decode(rx_desc_bytes(d)) == d,
        rx_desc_bytes(rx_desc_decode(s)) == s,
{
    let m = rx_desc_bytes(d);
    assert(m.subrange(0, 8) =~= le64(d.buffer_addr));
    assert(m.subrange(8, 10) =~= le16(d.length));
    assert(m.subrange(10, 12) =~= le16(d.checksum));
    assert(m.subrange(14, 16) =~= le16(d.special));
    lemma_le64_decode(d.buffer_addr, m, 0);
    lemma_le16_decode(d.length, m, 8);
    lemma_le16_decode(d.checksum, m, 10);
    lemma_le16_decode(d.special, m, 14);
    lemma_le64_encode(s, 0);
    lemma_le16_encode(s, 8);
    lemma_le16_encode(s, 10);
    lemma_le16_encode(s, 14);
    assert(rx_desc_bytes(rx_desc_decode(s)) =~= s);
}

/// Decoding the memory image of a transmit descriptor gives it back, and
/// any sixteen bytes are the image of the descriptor they decode to.
pub proof fn lemma_tx_desc_roundtrip(d: TxDesc, s: Seq<u8>)
    requires
        s.len() == 16,
    ensures
        tx_desc_decode(tx_desc_bytes(d)) == d,
        tx_desc_bytes(tx_desc_decode(s)) == s,
{
    let m = tx_desc_bytes(d);
    assert(m.subrange(0, 8) =~= le64(d.buffer_addr));
    assert(m.subrange(8, 10) =~= le16(d.length));
    assert(m.subrange(14, 16) =~= le16(d.special));
    lemma_le64_decode(d.buffer_addr, m, 0);
    lemma_le16_decode(d.length, m, 8);
    lemma_le16_decode(d.special, m, 14);
    lemma_le64_encode(s, 0);
    lemma_le16_encode(s, 8);
    lemma_le16_encode(s, 14);
    assert(tx_desc_bytes(tx_desc_decode(s)) =~= s);
}

} // verus!
