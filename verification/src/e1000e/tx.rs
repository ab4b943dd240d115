//! Transmit path of the 82574L: the legacy descriptor's memory image, the
//! transmit ring's slots and indexes, submission and reclamation, and the
//! transmit register programming.

use vstd::prelude::*;

use crate::bytes::{
    from_le16, from_le64, le16, le64, lemma_le16_decode, lemma_le16_encode, lemma_le64_decode,
    lemma_le64_encode,
};
use crate::e1000e::desc::{ring_used, TxDesc, TXD_CMD_EOP, TXD_CMD_IFCS, TXD_CMD_RS, TXD_STAT_DD};
use crate::e1000e::regs::{
    COLLISION_DISTANCE_FD, COLLISION_THRESHOLD, TCTL, TCTL_COLD_SHIFT, TCTL_CT_SHIFT, TCTL_EN,
    TCTL_PSP, TDBAH, TDBAL, TDH, TDLEN, TDT, TIDV, TIPG, TIPG_IPGR1, TIPG_IPGR1_SHIFT, TIPG_IPGR2,
    TIPG_IPGR2_SHIFT, TIPG_IPGT_COPPER, TXDCTL, TXDCTL_FULL_TX_DESC_WB,
};

verus! {

/// Number of TX descriptors in the ring.
pub const TX_DESC_COUNT: usize = 256;

/// Size in bytes of the TX descriptor ring.
pub const TX_DESC_RING_SIZE: usize = 4096;

/// Why a frame was not queued.
#[derive(Debug, Clone, Copy, PartialEq, Eq, Structural)]
pub enum TxError {
    /// Every descriptor but the reserved one is in use.
    RingFull,
}

/// The memory image of a legacy transmit descriptor.
pub open spec fn tx_desc_bytes(d: TxDesc) -> Seq<u8> {
    le64(d.buffer_addr) + le16(d.length) + seq![d.cso, d.cmd, d.status, d.css] + le16(d.special)
}

/// The legacy transmit descriptor whose memory image is `s`.
pub open spec fn tx_desc_decode(s: Seq<u8>) -> TxDesc {
    TxDesc {
        buffer_addr: from_le64(s, 0),
        length: from_le16(s, 8),
        cso: s[10],
        cmd: s[11],
        status: s[12],
        css: s[13],
        special: from_le16(s, 14),
    }
}

/// Encodes a transmit descriptor into its little-endian memory image.
pub fn tx_desc_to_bytes(desc: &TxDesc) -> (b: [u8; 16])
    ensures
        b@ == tx_desc_bytes(*desc),
{
    let a = desc.buffer_addr;
    let b = [
        (a & 0xff) as u8,
        ((a >> 8u64) & 0xff) as u8,
        ((a >> 16u64) & 0xff) as u8,
        ((a >> 24u64) & 0xff) as u8,
        ((a >> 32u64) & 0xff) as u8,
        ((a >> 40u64) & 0xff) as u8,
        ((a >> 48u64) & 0xff) as u8,
        ((a >> 56u64) & 0xff) as u8,
        (desc.length & 0xff) as u8,
        ((desc.length >> 8u16) & 0xff) as u8,
        desc.cso,
        desc.cmd,
        desc.status,
        desc.css,
        (desc.special & 0xff) as u8,
        ((desc.special >> 8u16) & 0xff) as u8,
    ];
    assert(b@ =~= tx_desc_bytes(*desc));
    b
}

/// Decodes a transmit descriptor from its little-endian memory image.
pub fn bytes_to_tx_desc(bytes: &[u8; 16]) -> (d: TxDesc)
    ensures
        d == tx_desc_decode(bytes@),
{
    let b = bytes;
    TxDesc {
        buffer_addr: (b[0] as u64) | ((b[1] as u64) << 8u64) | ((b[2] as u64) << 16u64) | ((
        b[3] as u64) << 24u64) | ((b[4] as u64) << 32u64) | ((b[5] as u64) << 40u64) | ((
        b[6] as u64) << 48u64) | ((b[7] as u64) << 56u64),
        length: (b[8] as u16) | ((b[9] as u16) << 8u16),
        cso: b[10],
        cmd: b[11],
        status: b[12],
        css: b[13],
        special: (b[14] as u16) | ((b[15] as u16) << 8u16),
    }
}

/// Decoding the memory image of a transmit descriptor gives it back, and
/// any sixteen bytes are the image of the descriptor they decode to.
pub proof fn lemma_tx_desc_roundtrip(d: TxDesc, s: Seq<u8>)
    requires
        s.len() == 16,
    ensures
        tx_desc_decode(tx_desc_bytes(d)) == d,
        tx_desc_bytes(tx_desc_decode(s)) == s,
{
    let m = tx_desc_bytes(d);
    assert(m.subrange(0, 8) =~= le64(d.buffer_addr));
    assert(m.subrange(8, 10) =~= le16(d.length));
    assert(m.subrange(14, 16) =~= le16(d.special));
    lemma_le64_decode(d.buffer_addr, m, 0);
    lemma_le16_decode(d.length, m, 8);
    lemma_le16_decode(d.special, m, 14);
    lemma_le64_encode(s, 0);
    lemma_le16_encode(s, 8);
    lemma_le16_encode(s, 14);
    assert(tx_desc_bytes(tx_desc_decode(s)) =~= s);
}

/// A queued frame: the slot it went into, the descriptor to write there and
/// the new TDT value.
pub struct TxSubmit {
    pub index: usize,
    pub desc: TxDesc,
    pub tail: u32,
}

/// TX ring state: one optional buffer per slot and the two indexes.
pub struct TxRing<B> {
    /// Buffer for each descriptor slot.
    pub buffers: Vec<Option<B>>,
    /// Next descriptor to use for submitting.
    pub next_to_use: usize,
    /// Next descriptor to clean (reclaim).
    pub next_to_clean: usize,
    /// Total count.
    pub count: usize,
    /// The command bits of every descriptor (RS | IFCS | EOP).
    pub txd_cmd: u8,
}

impl<B> TxRing<B> {
    /// `TX_DESC_COUNT` slots and both indexes inside the ring.
    pub open spec fn wf(&self) -> bool {
        &&& self.count == TX_DESC_COUNT
        &&& self.buffers.len() == self.count
        &&& self.next_to_use < self.count
        &&& self.next_to_clean < self.count
    }

    /// Descriptors queued and not yet reclaimed.
    pub open spec fn used(&self) -> int {
        ring_used(self.count as int, self.next_to_use as int, self.next_to_clean as int)
    }

    /// A ring with every slot empty, both indexes at zero and the command
    /// bits RS | IFCS | EOP.
    pub fn new() -> (r: Self)
        ensures
            r.wf(),
            r.next_to_use == 0,
            r.next_to_clean == 0,
            r.txd_cmd == TXD_CMD_EOP | TXD_CMD_IFCS | TXD_CMD_RS,
            forall|i: int| 0 <= i < TX_DESC_COUNT ==> r.buffers@[i] is None,
    {
        let mut buffers: Vec<Option<B>> = Vec::new();
        let mut i: usize = 0;
        while i < TX_DESC_COUNT
            invariant
                i <= TX_DESC_COUNT,
                buffers.len() == i,
                forall|j: int| 0 <= j < i ==> buffers@[j] is None,
            decreases TX_DESC_COUNT - i,
        {
            buffers.push(None);
            i = i + 1;
        }
        TxRing {
            buffers,
            next_to_use: 0,
            next_to_clean: 0,
            count: TX_DESC_COUNT,
            txd_cmd: TXD_CMD_EOP | TXD_CMD_IFCS | TXD_CMD_RS,
        }
    }

    /// Returns the ring size in bytes.
    pub fn ring_size_bytes(&self) -> (r: usize)
        ensures
            r == TX_DESC_COUNT * 16,
    {
        TX_DESC_RING_SIZE
    }

    /// Returns the number of unused descriptor slots; one slot is reserved
    /// to tell a full ring from an empty one.
    pub fn unused_count(&self) -> (r: usize)
        requires
            self.wf(),
        ensures
            r == self.count - 1 - self.used(),
    {
        if self.next_to_clean > self.next_to_use {
            self.next_to_clean - self.next_to_use - 1
        } else {
            self.count + self.next_to_clean - self.next_to_use - 1
        }
    }

    /// Returns true if the ring can accept at least one more packet.
    pub fn can_send(&self) -> (r: bool)
        requires
            self.wf(),
        ensures
            r == (self.used() < self.count - 1),
    {
        self.unused_count() >= 1
    }

    /// Queues the frame of `len` bytes held in `buf` at DMA address `daddr`:
    /// refused when the ring is full; otherwise the buffer goes into the
    /// slot at next-to-use, which gets a descriptor with the ring's command
    /// bits, and next-to-use advances and becomes the new TDT.
    pub fn xmit_frame(&mut self, buf: B, daddr: u64, len: usize) -> (r: Result<TxSubmit, TxError>)
        requires
            old(self).wf(),
        ensures
            final(self).wf(),
            final(self).txd_cmd == old(self).txd_cmd,
            final(self).next_to_clean == old(self).next_to_clean,
            old(self).used() >= old(self).count - 1 ==> r == Err::<TxSubmit, TxError>(
                TxError::RingFull,
            ) && *final(self) == *old(self),
            old(self).used() < old(self).count - 1 ==> {
                let idx = old(self).next_to_use as int;
                &&& r matches Ok(s) && s.index == idx && s.desc == (TxDesc {
                    buffer_addr: daddr,
                    length: len as u16,
                    cso: 0,
                    cmd: old(self).txd_cmd,
                    status: 0,
                    css: 0,
                    special: 0,
                }) && s.tail == final(self).next_to_use
                &&& final(self).buffers@ == old(self).buffers@.update(idx, Some(buf))
                &&& final(self).next_to_use == (idx + 1) % (TX_DESC_COUNT as int)
                &&& final(self).used() == old(self).used() + 1
            },
    {
        if !self.can_send() {
            return Err(TxError::RingFull);
        }
        let idx = self.next_to_use;
        let desc = TxDesc {
            buffer_addr: daddr,
            length: len as u16,
            cso: 0,
            cmd: self.txd_cmd,
            status: 0,
            css: 0,
            special: 0,
        };
        self.buffers.set(idx, Some(buf));
        self.next_to_use = (idx + 1) % self.count;
        Ok(TxSubmit { index: idx, desc, tail: self.next_to_use as u32 })
    }

    /// One step of reclaiming: with a queued descriptor at next-to-clean
    /// whose current value `desc` has the done bit, its buffer is freed and
    /// next-to-clean advances; otherwise nothing changes. Returns whether a
    /// descriptor was reclaimed; reclaiming repeats until it returns false.
    pub fn clean_tx_step(&mut self, desc: &TxDesc) -> (r: bool)
        requires
            old(self).wf(),
        ensures
            final(self).wf(),
            r == (old(self).next_to_clean != old(self).next_to_use && desc.status & TXD_STAT_DD
                != 0),
            !r ==> *final(self) == *old(self),
            r ==> {
                &&& final(self).buffers@ == old(self).buffers@.update(
                    old(self).next_to_clean as int,
                    None,
                )
                &&& final(self).next_to_clean == (old(self).next_to_clean + 1) % (
                TX_DESC_COUNT as int)
                &&& final(self).next_to_use == old(self).next_to_use
                &&& final(self).count == old(self).count
                &&& final(self).txd_cmd == old(self).txd_cmd
                &&& final(self).used() == old(self).used() - 1
            },
    {
        if self.next_to_clean == self.next_to_use {
            return false;
        }
        if desc.status & TXD_STAT_DD == 0 {
            return false;
        }
        let idx = self.next_to_clean;
        self.buffers.set(idx, None);
        self.next_to_clean = (idx + 1) % self.count;
        assert(self.next_to_clean == if idx + 1 == TX_DESC_COUNT {
            0
        } else {
            idx + 1
        });
        true
    }
}

/// The transmit control value: transmitter on, short packets padded,
/// collision threshold and full-duplex collision distance.
pub open spec fn tx_tctl() -> u32 {
    TCTL_EN | TCTL_PSP | (COLLISION_THRESHOLD << TCTL_CT_SHIFT) | (COLLISION_DISTANCE_FD
        << TCTL_COLD_SHIFT)
}

/// The inter-packet gap for copper.
pub open spec fn tx_tipg() -> u32 {
    TIPG_IPGT_COPPER | (TIPG_IPGR1 << TIPG_IPGR1_SHIFT) | (TIPG_IPGR2 << TIPG_IPGR2_SHIFT)
}

/// The transmit register writes, in order, for a descriptor ring at
/// `dma_addr` of `ring_bytes` bytes.
pub open spec fn configure_tx_spec(dma_addr: u64, ring_bytes: u32) -> Seq<(usize, u32)> {
    seq![
        (TDBAL, (dma_addr % 0x1_0000_0000) as u32),
        (TDBAH, (dma_addr / 0x1_0000_0000) as u32),
        (TDLEN, ring_bytes),
        (TDH, 0u32),
        (TDT, 0u32),
        (TIDV, 8u32),
        (TXDCTL, TXDCTL_FULL_TX_DESC_WB),
        (TCTL, tx_tctl()),
        (TIPG, tx_tipg()),
    ]
}

/// Configures the TX hardware registers: the ring base and length, head
/// and tail at zero, an interrupt delay of 8, full descriptor write-back,
/// the transmit control value and the copper inter-packet gap.
pub fn configure_tx(dma_addr: u64, ring_bytes: u32) -> (r: Vec<(usize, u32)>)
    ensures
        r@ == configure_tx_spec(dma_addr, ring_bytes),
{
    let (lo, hi) = crate::bytes::split_dma_addr(dma_addr);
    let tctl = TCTL_EN | TCTL_PSP | (COLLISION_THRESHOLD << TCTL_CT_SHIFT) | (COLLISION_DISTANCE_FD
        << TCTL_COLD_SHIFT);
    let tipg = TIPG_IPGT_COPPER | (TIPG_IPGR1 << TIPG_IPGR1_SHIFT) | (TIPG_IPGR2
        << TIPG_IPGR2_SHIFT);
    let r = vec![
        (TDBAL, lo),
        (TDBAH, hi),
        (TDLEN, ring_bytes),
        (TDH, 0),
        (TDT, 0),
        (TIDV, 8),
        (TXDCTL, TXDCTL_FULL_TX_DESC_WB),
        (TCTL, tctl),
        (TIPG, tipg),
    ];
    assert(r@ =~= configure_tx_spec(dma_addr, ring_bytes));
    r
}

} // verus!
