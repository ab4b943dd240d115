//! RTL8168g descriptor layout, descriptor field values, ring index
//! bookkeeping and the hardware tally counter layout.

use vstd::prelude::*;

use crate::bytes::{
    addr_high, addr_low, from_le32, le32, lemma_le32_decode, lemma_le32_encode, split_dma_addr,
};
use crate::r8169::regs::{
    DESC_OWN, FIRST_FRAG, LAST_FRAG, NUM_RX_DESC, NUM_TX_DESC, R8169_RX_BUF_SIZE, RING_END,
};

verus! {

/// Size of a single descriptor in bytes.
pub const DESC_SIZE: usize = 16;

/// Size of the TX descriptor ring in bytes.
pub const TX_RING_BYTES: usize = NUM_TX_DESC * DESC_SIZE;

/// Size of the RX descriptor ring in bytes.
pub const RX_RING_BYTES: usize = NUM_RX_DESC * DESC_SIZE;

/// Raw hardware descriptor layout (identical for TX and RX).
#[derive(Clone, Copy, Debug, PartialEq, Eq, Structural)]
pub struct RawDesc {
    pub opts1: u32,
    pub opts2: u32,
    pub addr_lo: u32,
    pub addr_hi: u32,
}

impl RawDesc {
    /// An all-zero descriptor.
    pub fn zeroed() -> (d: Self)
        ensures
            d.opts1 == 0,
            d.opts2 == 0,
            d.addr_lo == 0,
            d.addr_hi == 0,
    {
        Self { opts1: 0, opts2: 0, addr_lo: 0, addr_hi: 0 }
    }

    /// The sixteen bytes of the descriptor as the hardware sees them in memory.
    pub open spec fn bytes(self) -> Seq<u8> {
        le32(self.opts1) + le32(self.opts2) + le32(self.addr_lo) + le32(self.addr_hi)
    }

    /// The descriptor whose memory image is `s`.
    pub open spec fn decode(s: Seq<u8>) -> RawDesc {
        RawDesc {
            opts1: from_le32(s, 0),
            opts2: from_le32(s, 4),
            addr_lo: from_le32(s, 8),
            addr_hi: from_le32(s, 12),
        }
    }

    /// Encodes the descriptor into its little-endian memory image.
    pub fn to_bytes(&self) -> (b: [u8; 16])
        ensures
            b@ == self.bytes(),
    {
        let b = [
            (self.opts1 & 0xff) as u8,
            ((self.opts1 >> 8u32) & 0xff) as u8,
            ((self.opts1 >> 16u32) & 0xff) as u8,
            ((self.opts1 >> 24u32) & 0xff) as u8,
            (self.opts2 & 0xff) as u8,
            ((self.opts2 >> 8u32) & 0xff) as u8,
            ((self.opts2 >> 16u32) & 0xff) as u8,
            ((self.opts2 >> 24u32) & 0xff) as u8,
            (self.addr_lo & 0xff) as u8,
            ((self.addr_lo >> 8u32) & 0xff) as u8,
            ((self.addr_lo >> 16u32) & 0xff) as u8,
            ((self.addr_lo >> 24u32) & 0xff) as u8,
            (self.addr_hi & 0xff) as u8,
            ((self.addr_hi >> 8u32) & 0xff) as u8,
            ((self.addr_hi >> 16u32) & 0xff) as u8,
            ((self.addr_hi >> 24u32) & 0xff) as u8,
        ];
        assert(b@ =~= self.bytes());
        b
    }

    /// Decodes a descriptor from its little-endian memory image.
    pub fn from_bytes(b: &[u8; 16]) -> (d: Self)
        ensures
            d == RawDesc::decode(b@),
    {
        RawDesc {
            opts1: (b[0] as u32) | ((b[1] as u32) << 8u32) | ((b[2] as u32) << 16u32) | ((
            b[3] as u32) << 24u32),
            opts2: (b[4] as u32) | ((b[5] as u32) << 8u32) | ((b[6] as u32) << 16u32) | ((
            b[7] as u32) << 24u32),
            addr_lo: (b[8] as u32) | ((b[9] as u32) << 8u32) | ((b[10] as u32) << 16u32) | ((
            b[11] as u32) << 24u32),
            addr_hi: (b[12] as u32) | ((b[13] as u32) << 8u32) | ((b[14] as u32) << 16u32)
                | ((b[15] as u32) << 24u32),
        }
    }

    /// A descriptor with the given option words pointing at the buffer at
    /// DMA address `addr`.
    pub fn with_buffer(opts1: u32, opts2: u32, addr: u64) -> (d: Self)
        ensures
            d.opts1 == opts1,
            d.opts2 == opts2,
            d.addr_lo == addr_low(addr),
            d.addr_hi == addr_high(addr),
    {
        let (lo, hi) = split_dma_addr(addr);
        RawDesc { opts1, opts2, addr_lo: lo, addr_hi: hi }
    }
}

/// Decoding the memory image of a descriptor gives the descriptor back.
pub proof fn lemma_raw_desc_decode_bytes(d: RawDesc)
    ensures
        RawDesc::decode(d.bytes()) == d,
{
    let s = d.bytes();
    assert(s.subrange(0, 4) =~= le32(d.opts1));
    assert(s.subrange(4, 8) =~= le32(d.opts2));
    assert(s.subrange(8, 12) =~= le32(d.addr_lo));
    assert(s.subrange(12, 16) =~= le32(d.addr_hi));
    lemma_le32_decode(d.opts1, s, 0);
    lemma_le32_decode(d.opts2, s, 4);
    lemma_le32_decode(d.addr_lo, s, 8);
    lemma_le32_decode(d.addr_hi, s, 12);
}

/// Any sixteen bytes are the memory image of the descriptor they decode to.
pub proof fn lemma_raw_desc_bytes_decode(s: Seq<u8>)
    requires
        s.len() == 16,
    ensures
        RawDesc::decode(s).bytes() == s,
{
    lemma_le32_encode(s, 0);
    lemma_le32_encode(s, 4);
    lemma_le32_encode(s, 8);
    lemma_le32_encode(s, 12);
    assert(RawDesc::decode(s).bytes() =~= s.subrange(0, 4) + s.subrange(4, 8) + s.subrange(
        8,
        12,
    ) + s.subrange(12, 16));
    assert(s =~= s.subrange(0, 4) + s.subrange(4, 8) + s.subrange(8, 12) + s.subrange(12, 16));
}

/// Ring index state shared between the driver and hardware paths.
pub struct RingIndexes {
    pub cur_tx: u32,
    pub dirty_tx: u32,
    pub cur_rx: u32,
}

impl RingIndexes {
    /// All three indexes start at zero.
    pub fn new() -> (r: Self)
        ensures
            r.cur_tx == 0,
            r.dirty_tx == 0,
            r.cur_rx == 0,
    {
        Self { cur_tx: 0, dirty_tx: 0, cur_rx: 0 }
    }

    /// Puts all three indexes back to zero.
    pub fn reset(&mut self)
        ensures
            final(self).cur_tx == 0,
            final(self).dirty_tx == 0,
            final(self).cur_rx == 0,
    {
        self.cur_tx = 0;
        self.dirty_tx = 0;
        self.cur_rx = 0;
    }
}

/// TX buffer metadata associated with each TX descriptor slot; `B` is the
/// handle of the DMA buffer that holds the packet data.
pub struct TxSlot<B> {
    /// Length of data mapped for this slot.
    pub len: u32,
    /// Whether this slot holds the last fragment (and therefore the packet data to free).
    pub is_last: bool,
    /// The DMA buffer for this slot, if any.
    pub dma_buf: Option<B>,
}

impl<B> TxSlot<B> {
    /// An empty slot.
    pub fn new() -> (s: Self)
        ensures
            s.len == 0,
            !s.is_last,
            s.dma_buf is None,
    {
        Self { len: 0, is_last: false, dma_buf: None }
    }

    /// Empties the slot, dropping its buffer.
    pub fn clear(&mut self)
        ensures
            final(self).len == 0,
            !final(self).is_last,
            final(self).dma_buf is None,
    {
        self.len = 0;
        self.is_last = false;
        self.dma_buf = None;
    }
}

/// RX buffer associated with each RX descriptor slot; `B` is the handle of
/// the DMA buffer the NIC writes into.
pub struct RxSlot<B> {
    pub dma_buf: Option<B>,
}

impl<B> RxSlot<B> {
    /// An empty slot.
    pub fn new() -> (s: Self)
        ensures
            s.dma_buf is None,
    {
        Self { dma_buf: None }
    }

    /// Empties the slot, dropping its buffer.
    pub fn clear(&mut self)
        ensures
            final(self).dma_buf is None,
    {
        self.dma_buf = None;
    }
}

/// The option word that hands an RX descriptor back to the hardware: the
/// NIC owns it, its buffer size is `R8169_RX_BUF_SIZE`, and its RingEnd bit
/// is the one `opts1` had.
pub fn mark_to_asic_opts1(opts1: u32) -> (r: u32)
    ensures
        r == (if opts1 & RING_END != 0 {
            DESC_OWN | RING_END | R8169_RX_BUF_SIZE
        } else {
            DESC_OWN | R8169_RX_BUF_SIZE
        }),
{
    let eor = opts1 & RING_END;
    let r = DESC_OWN | eor | R8169_RX_BUF_SIZE;
    assert(r == (if opts1 & 0x4000_0000 != 0 {
        0x8000_0000u32 | 0x4000_0000u32 | 0x3fffu32
    } else {
        0x8000_0000u32 | 0x3fffu32
    })) by (bit_vector)
        requires
            r == 0x8000_0000u32 | (opts1 & 0x4000_0000u32) | 0x3fffu32,
    ;
    r
}

/// A consumed RX descriptor handed back to the hardware: the option word
/// of `mark_to_asic_opts1`, the second option word cleared and the buffer
/// address kept.
pub open spec fn handed_back(d: RawDesc) -> RawDesc {
    RawDesc {
        opts1: if d.opts1 & RING_END != 0 {
            DESC_OWN | RING_END | R8169_RX_BUF_SIZE
        } else {
            DESC_OWN | R8169_RX_BUF_SIZE
        },
        opts2: 0,
        addr_lo: d.addr_lo,
        addr_hi: d.addr_hi,
    }
}

/// The descriptor to write back to return the consumed RX descriptor `d`
/// to the NIC: it owns it again with a full-size buffer, the RingEnd bit
/// is kept, the second option word is cleared and the address is kept.
pub fn mark_to_asic(d: RawDesc) -> (r: RawDesc)
    ensures
        r == handed_back(d),
{
    RawDesc { opts1: mark_to_asic_opts1(d.opts1), opts2: 0, addr_lo: d.addr_lo, addr_hi: d.addr_hi }
}

/// The index of the descriptor that carries the RingEnd bit in a ring of
/// `count` descriptors, or `None` for an empty ring.
pub fn ring_end_index(count: usize) -> (r: Option<usize>)
    ensures
        count == 0 ==> r is None,
        count > 0 ==> r == Some((count - 1) as usize),
{
    if count == 0 {
        None
    } else {
        Some(count - 1)
    }
}

/// The option word with the RingEnd bit set and every other bit kept.
pub fn with_ring_end(opts1: u32) -> (r: u32)
    ensures
        r == opts1 | RING_END,
        r & RING_END != 0,
        r & !RING_END == opts1 & !RING_END,
{
    let r = opts1 | RING_END;
    assert(r & 0x4000_0000 != 0 && r & !0x4000_0000u32 == opts1 & !0x4000_0000u32)
        by (bit_vector)
        requires
            r == opts1 | 0x4000_0000u32,
    ;
    r
}

/// Number of free TX slots when the consumer index is `dirty_tx` and the
/// producer index is `cur_tx`, both counted modulo 2^32.
pub open spec fn tx_slots_avail_spec(dirty_tx: u32, cur_tx: u32) -> int {
    (dirty_tx as int + NUM_TX_DESC as int - cur_tx as int) % 0x1_0000_0000
}

/// Returns the number of available TX slots.
pub fn tx_slots_avail(dirty_tx: u32, cur_tx: u32) -> (r: usize)
    ensures
        r == tx_slots_avail_spec(dirty_tx, cur_tx),
{
    let r = dirty_tx.wrapping_add(NUM_TX_DESC as u32).wrapping_sub(cur_tx);
    r as usize
}

/// Checks if a received frame is fragmented, that is, not both the first
/// and the last segment of a packet.
pub fn is_fragmented_frame(status: u32) -> (r: bool)
    ensures
        r == !(status & FIRST_FRAG != 0 && status & LAST_FRAG != 0),
{
    let r = (status & (FIRST_FRAG | LAST_FRAG)) != (FIRST_FRAG | LAST_FRAG);
    assert(r == !(status & 0x2000_0000 != 0 && status & 0x1000_0000 != 0)) by (bit_vector)
        requires
            r == ((status & (0x2000_0000u32 | 0x1000_0000u32)) != (0x2000_0000u32
                | 0x1000_0000u32)),
    ;
    r
}

/// The hardware tally counters dumped by the chip into DMA memory. Fields
/// after `tx_underrun` exist since the RTL8125 and read as zero on the
/// RTL8168g.
#[derive(Clone, Copy, Debug, Default)]
pub struct Rtl8169Counters {
    pub tx_packets: u64,
    pub rx_packets: u64,
    pub tx_errors: u64,
    pub rx_errors: u32,
    pub rx_missed: u16,
    pub align_errors: u16,
    pub tx_one_collision: u32,
    pub tx_multi_collision: u32,
    pub rx_unicast: u64,
    pub rx_broadcast: u64,
    pub rx_multicast: u32,
    pub tx_aborted: u16,
    pub tx_underrun: u16,
    pub tx_octets: u64,
    pub rx_octets: u64,
    pub rx_multicast64: u64,
    pub tx_unicast64: u64,
    pub tx_broadcast64: u64,
    pub tx_multicast64: u64,
    pub tx_pause_on: u32,
    pub tx_pause_off: u32,
    pub tx_pause_all: u32,
    pub tx_deferred: u32,
    pub tx_late_collision: u32,
    pub tx_all_collision: u32,
    pub tx_aborted32: u32,
    pub align_errors32: u32,
    pub rx_frame_too_long: u32,
    pub rx_runt: u32,
    pub rx_pause_on: u32,
    pub rx_pause_off: u32,
    pub rx_pause_all: u32,
    pub rx_unknown_opcode: u32,
    pub rx_mac_error: u32,
    pub tx_underrun32: u32,
    pub rx_mac_missed: u32,
    pub rx_tcam_dropped: u32,
    pub tdu: u32,
    pub rdu: u32,
}

/// Size of the counters structure in bytes (for DMA allocation): thirteen
/// fields up to `tx_underrun` filling 64 bytes, six 64-bit counters and
/// twenty 32-bit counters.
pub const COUNTERS_SIZE: usize = 192;

/// Baseline offsets captured once after the first counter dump, so that
/// later reads can report deltas.
#[derive(Clone, Copy, Debug, Default)]
pub struct TcOffsets {
    pub inited: bool,
    pub tx_errors: u64,
    pub tx_multi_collision: u32,
    pub tx_aborted: u16,
    pub rx_missed: u16,
}

} // verus!
