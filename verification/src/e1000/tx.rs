//! Transmit path of the 82540EM: the descriptor memory image, the
//! transmit ring's slots and indexes, the descriptor of each packet, the
//! cleaning of completed descriptors, and the transmit register programming.

use vstd::prelude::*;

use crate::bytes::{from_le32, from_le64, le32, le64, lemma_le32_decode, lemma_le32_encode, lemma_le64_decode, lemma_le64_encode};
use crate::e1000::desc::{DescRing, E1000TxDesc, E1000_TX_DESC_SIZE};
use crate::e1000::regs::{
    COLLISION_DISTANCE_FD, COLLISION_THRESHOLD, TCTL, TCTL_COLD_SHIFT, TCTL_CT_SHIFT, TCTL_EN,
    TCTL_PSP, TCTL_RTLC, TDBAH, TDBAL, TDH, TDLEN, TDT, TIDV, TIPG, TIPG_IPGR1, TIPG_IPGR1_SHIFT, TIPG_IPGR2,
    TIPG_IPGR2_SHIFT, TIPG_IPGT_COPPER, TXDCTL, TXDCTL_FULL_TX_DESC_WB, TXD_CMD_EOP, TXD_CMD_IFCS,
    TXD_CMD_RS,
};

verus! {

/// Number of TX descriptors in the ring.
pub const TX_DESC_COUNT: usize = 256;

/// Size in bytes of the TX descriptor ring.
pub const TX_DESC_RING_SIZE: usize = 4096;

/// The command of every legacy data descriptor: end of packet, insert
/// FCS, report status.
pub const TXD_CMD_BASE: u8 = 0x0b;

/// Errors of the transmit path.
#[derive(Debug, Clone, Copy, PartialEq, Eq, Structural)]
pub enum TxError {
    /// No descriptor is free.
    RingFull,
}

/// The memory image of a transmit descriptor.
pub open spec fn tx_desc_bytes(d: E1000TxDesc) -> Seq<u8> {
    le64(d.buffer_addr) + le32(d.lower) + le32(d.upper)
}

/// The transmit descriptor whose memory image is `s`.
pub open spec fn tx_desc_decode(s: Seq<u8>) -> E1000TxDesc {
    E1000TxDesc { buffer_addr: from_le64(s, 0), lower: from_le32(s, 8), upper: from_le32(s, 12) }
}

/// Encodes a transmit descriptor into its little-endian memory image.
pub fn bytemuck_cast_desc_to_bytes(desc: &E1000TxDesc) -> (b: [u8; 16])
    ensures
        b@ == tx_desc_bytes(*desc),
{
    let a = desc.buffer_addr;
    let l = desc.lower;
    let u = desc.upper;
    let b = [
        (a & 0xff) as u8,
        ((a >> 8u64) & 0xff) as u8,
        ((a >> 16u64) & 0xff) as u8,
        ((a >> 24u64) & 0xff) as u8,
        ((a >> 32u64) & 0xff) as u8,
        ((a >> 40u64) & 0xff) as u8,
        ((a >> 48u64) & 0xff) as u8,
        ((a >> 56u64) & 0xff) as u8,
        (l & 0xff) as u8,
        ((l >> 8u32) & 0xff) as u8,
        ((l >> 16u32) & 0xff) as u8,
        ((l >> 24u32) & 0xff) as u8,
        (u & 0xff) as u8,
        ((u >> 8u32) & 0xff) as u8,
        ((u >> 16u32) & 0xff) as u8,
        ((u >> 24u32) & 0xff) as u8,
    ];
    assert(b@ =~= tx_desc_bytes(*desc));
    b
}

/// Decodes a transmit descriptor from its little-endian memory image.
pub fn bytemuck_cast_bytes_to_desc(bytes: &[u8; 16]) -> (d: E1000TxDesc)
    ensures
        d == tx_desc_decode(bytes@),
{
    let b = bytes;
    E1000TxDesc {
        buffer_addr: (b[0] as u64) | ((b[1] as u64) << 8u64) | ((b[2] as u64) << 16u64) | ((
        b[3] as u64) << 24u64) | ((b[4] as u64) << 32u64) | ((b[5] as u64) << 40u64) | ((
        b[6] as u64) << 48u64) | ((b[7] as u64) << 56u64),
        lower: (b[8] as u32) | ((b[9] as u32) << 8u32) | ((b[10] as u32) << 16u32) | ((
        b[11] as u32) << 24u32),
        upper: (b[12] as u32) | ((b[13] as u32) << 8u32) | ((b[14] as u32) << 16u32) | ((
        b[15] as u32) << 24u32),
    }
}

/// Decoding the memory image of a transmit descriptor gives it back, and
/// any sixteen bytes are the image of the descriptor they decode to.
pub proof fn lemma_tx_desc_roundtrip(d: E1000TxDesc, s: Seq<u8>)
    requires
        s.len() == 16,
    ensures
        tx_desc_decode(tx_desc_bytes(d)) == d,
        tx_desc_bytes(tx_desc_decode(s)) == s,
{
    let m = tx_desc_bytes(d);
    assert(m.subrange(0, 8) =~= le64(d.buffer_addr));
    assert(m.subrange(8, 12) =~= le32(d.lower));
    assert(m.subrange(12, 16) =~= le32(d.upper));
    lemma_le64_decode(d.buffer_addr, m, 0);
    lemma_le32_decode(d.lower, m, 8);
    lemma_le32_decode(d.upper, m, 12);
    lemma_le64_encode(s, 0);
    lemma_le32_encode(s, 8);
    lemma_le32_encode(s, 12);
    assert(tx_desc_bytes(tx_desc_decode(s)) =~= s);
}

/// The transmit ring's software state: the descriptor indexes, one
/// optional buffer per slot, and the command of its descriptors.
pub struct TxRing<B> {
    /// Descriptor ring tracker.
    pub ring: DescRing<E1000TxDesc>,
    /// Buffer for each descriptor slot.
    pub buffers: Vec<Option<B>>,
    /// The command base (RS | IFCS | EOP for legacy descriptors).
    pub txd_cmd: u8,
}

impl<B> TxRing<B> {
    /// A ring of `TX_DESC_COUNT` descriptors with one slot each, whose
    /// descriptors carry the legacy data command (end of packet, insert
    /// FCS, report status).
    pub open spec fn wf(&self) -> bool {
        &&& self.ring.wf()
        &&& self.ring.count_spec() == TX_DESC_COUNT
        &&& self.buffers.len() == TX_DESC_COUNT
        &&& self.txd_cmd == TXD_CMD_EOP | TXD_CMD_IFCS | TXD_CMD_RS
    }

    /// A ring with every slot empty, both indexes at zero, and the legacy
    /// data command.
    pub fn new() -> (r: Self)
        ensures
            r.wf(),
            r.ring.ntu() == 0,
            r.ring.ntc() == 0,
            r.txd_cmd == TXD_CMD_EOP | TXD_CMD_IFCS | TXD_CMD_RS,
            forall|i: int| 0 <= i < TX_DESC_COUNT ==> r.buffers@[i] is None,
    {
        let mut buffers: Vec<Option<B>> = Vec::new();
        let mut i: usize = 0;
        while i < TX_DESC_COUNT
            invariant
                i <= TX_DESC_COUNT,
                buffers.len() == i,
                forall|j: int| 0 <= j < i ==> buffers@[j] is None,
            decreases TX_DESC_COUNT - i,
        {
            buffers.push(None);
            i = i + 1;
        }
        TxRing { ring: DescRing::new(TX_DESC_COUNT), buffers, txd_cmd: TXD_CMD_EOP | TXD_CMD_IFCS | TXD_CMD_RS }
    }

    /// Returns the ring size in bytes.
    pub fn ring_size_bytes(&self) -> (r: usize)
        ensures
            r == TX_DESC_COUNT * E1000_TX_DESC_SIZE,
    {
        TX_DESC_RING_SIZE
    }

    /// Returns the number of available descriptor slots.
    pub fn available(&self) -> (r: usize)
        requires
            self.wf(),
        ensures
            r == TX_DESC_COUNT - 1 - self.ring.used(),
    {
        self.ring.unused_count()
    }

    /// Returns true if the ring can accept at least one more packet.
    pub fn can_send(&self) -> (r: bool)
        requires
            self.wf(),
        ensures
            r == (self.ring.used() < TX_DESC_COUNT - 1),
    {
        self.ring.unused_count() >= 1
    }

    /// The slot the next packet goes into, or `RingFull` when the ring is full.
    pub fn xmit_slot(&self) -> (r: Result<usize, TxError>)
        requires
            self.wf(),
        ensures
            self.ring.used() == TX_DESC_COUNT - 1 ==> r == Err::<usize, TxError>(
                TxError::RingFull,
            ),
            self.ring.used() < TX_DESC_COUNT - 1 ==> r == Ok::<usize, TxError>(
                self.ring.ntu() as usize,
            ),
    {
        if self.ring.is_full() {
            return Err(TxError::RingFull);
        }
        Ok(self.ring.next_to_use())
    }

    /// Records the packet of `len` bytes in `buf` (at DMA address `daddr`)
    /// in slot `idx`, advances next-to-use, and returns the descriptor to
    /// write and the new TDT value.
    pub fn xmit_frame(&mut self, idx: usize, buf: B, len: usize, daddr: u64) -> (r: (
        E1000TxDesc,
        u32,
    ))
        requires
            old(self).wf(),
            idx == old(self).ring.ntu(),
            old(self).ring.used() < TX_DESC_COUNT - 1,
        ensures
            final(self).wf(),
            final(self).buffers@ == old(self).buffers@.update(idx as int, Some(buf)),
            final(self).ring.ntc() == old(self).ring.ntc(),
            final(self).ring.ntu() == (idx + 1) % (TX_DESC_COUNT as int),
            final(self).ring.used() == old(self).ring.used() + 1,
            final(self).txd_cmd == old(self).txd_cmd,
            r.0.buffer_addr == daddr,
            r.0.lower == (len % 0x1_0000) + (TXD_CMD_EOP | TXD_CMD_IFCS | TXD_CMD_RS) as int
                * 0x100_0000,
            r.0.upper == 0,
            r.1 == final(self).ring.ntu(),
    {
        let length = (len % 0x1_0000) as u16;
        let desc = E1000TxDesc::new_data(daddr, length, self.txd_cmd);
        self.buffers.set(idx, Some(buf));
        self.ring.advance_use();
        let tdt = self.ring.next_to_use() as u32;
        (desc, tdt)
    }

    /// The slot whose descriptor cleaning examines next, or `None` when
    /// every used descriptor is cleaned.
    pub fn clean_tx_next(&self) -> (r: Option<usize>)
        requires
            self.wf(),
        ensures
            self.ring.ntc() == self.ring.ntu() ==> r is None,
            self.ring.ntc() != self.ring.ntu() ==> r == Some(self.ring.ntc() as usize),
    {
        let idx = self.ring.next_to_clean();
        if idx == self.ring.next_to_use() {
            None
        } else {
            Some(idx)
        }
    }

    /// Cleans the next used descriptor if the hardware is done with it
    /// (`done`): its buffer is freed and next-to-clean advances. Returns
    /// whether a descriptor was cleaned.
    pub fn clean_tx_irq(&mut self, done: bool) -> (r: bool)
        requires
            old(self).wf(),
            old(self).ring.ntc() != old(self).ring.ntu(),
        ensures
            final(self).wf(),
            r == done,
            !done ==> final(self).buffers == old(self).buffers && final(self).ring == old(self).ring,
            done ==> final(self).buffers@ == old(self).buffers@.update(
                old(self).ring.ntc() as int,
                None,
            ) && final(self).ring.ntu() == old(self).ring.ntu() && final(self).ring.ntc() == (
            old(self).ring.ntc() + 1) % (TX_DESC_COUNT as nat) && final(self).ring.used() == old(
                self,
            ).ring.used() - 1,
            final(self).txd_cmd == old(self).txd_cmd,
    {
        if !done {
            return false;
        }
        let idx = self.ring.next_to_clean();
        self.buffers.set(idx, None);
        self.ring.advance_clean();
        true
    }
}

/// The transmit control value: transmitter on, short packets padded,
/// re-transmit on late collision, collision threshold and full-duplex
/// collision distance.
pub open spec fn tx_tctl() -> u32 {
    TCTL_EN | TCTL_PSP | TCTL_RTLC | (COLLISION_THRESHOLD << TCTL_CT_SHIFT) | (COLLISION_DISTANCE_FD
        << TCTL_COLD_SHIFT)
}

/// The inter-packet gap for copper.
pub open spec fn tx_tipg() -> u32 {
    TIPG_IPGT_COPPER | (TIPG_IPGR1 << TIPG_IPGR1_SHIFT) | (TIPG_IPGR2 << TIPG_IPGR2_SHIFT)
}

/// The transmit register writes, in order, for a descriptor ring at
/// `dma_addr` of `ring_bytes` bytes.
pub open spec fn configure_tx_spec(dma_addr: u64, ring_bytes: u32) -> Seq<(usize, u32)> {
    seq![
        (TDBAL, (dma_addr % 0x1_0000_0000) as u32),
        (TDBAH, (dma_addr / 0x1_0000_0000) as u32),
        (TDLEN, ring_bytes),
        (TDH, 0u32),
        (TDT, 0u32),
        (TIDV, 8u32),
        (TXDCTL, TXDCTL_FULL_TX_DESC_WB),
        (TCTL, tx_tctl()),
        (TIPG, tx_tipg()),
    ]
}

/// Configures the TX hardware registers: the ring base and length, head
/// and tail at zero, an 8-unit interrupt delay, full descriptor
/// write-back, the transmit control value and the inter-packet gap.
pub fn configure_tx(dma_addr: u64, ring_bytes: u32) -> (r: Vec<(usize, u32)>)
    ensures
        r@ == configure_tx_spec(dma_addr, ring_bytes),
{
    let (lo, hi) = crate::bytes::split_dma_addr(dma_addr);
    let tctl = TCTL_EN | TCTL_PSP | TCTL_RTLC | (COLLISION_THRESHOLD << TCTL_CT_SHIFT) | (COLLISION_DISTANCE_FD
        << TCTL_COLD_SHIFT);
    let tipg = TIPG_IPGT_COPPER | (TIPG_IPGR1 << TIPG_IPGR1_SHIFT) | (TIPG_IPGR2
        << TIPG_IPGR2_SHIFT);
    let r = vec![
        (TDBAL, lo),
        (TDBAH, hi),
        (TDLEN, ring_bytes),
        (TDH, 0),
        (TDT, 0),
        (TIDV, 8),
        (TXDCTL, TXDCTL_FULL_TX_DESC_WB),
        (TCTL, tctl),
        (TIPG, tipg),
    ];
    assert(r@ =~= configure_tx_spec(dma_addr, ring_bytes));
    r
}

} // verus!
