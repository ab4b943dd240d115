//! Receive path of the 82540EM: the descriptor memory image, the receive
//! ring's slots and indexes, the decision on each completed descriptor,
//! and the receive register programming.

use vstd::prelude::*;

use crate::bytes::{
    from_le16, from_le64, le16, le64, lemma_le16_decode, lemma_le16_encode, lemma_le64_decode,
    lemma_le64_encode,
};
use crate::e1000::desc::{DescRing, E1000RxDesc, E1000_RX_DESC_SIZE};
use crate::e1000::regs::{
    RCTL, RCTL_BAM, RCTL_EN, RCTL_LBM_NO, RCTL_RDMTS_HALF, RCTL_SECRC, RCTL_SZ_2048, RDBAH, RDBAL,
    RDH, RDLEN, RDT, RDTR, RXCSUM, RXCSUM_IPOFL, RXCSUM_TUOFL,
};

verus! {

/// Number of RX descriptors in the ring.
pub const RX_DESC_COUNT: usize = 256;

/// Size in bytes of the RX descriptor ring.
pub const RX_DESC_RING_SIZE: usize = 4096;

/// Default receive buffer size (2048 bytes, enough for standard Ethernet frames).
pub const RX_BUFFER_SIZE: usize = 2048;

/// Size of a memory page.
pub const PAGE_SIZE: usize = 4096;

/// Number of pages that hold `bytes` bytes.
pub fn pages_for(bytes: usize) -> (r: usize)
    requires
        bytes + 4095 <= usize::MAX,
    ensures
        r == (bytes + 4095) / 4096,
{
    (bytes + 4095) / 4096
}

/// The memory image of a receive descriptor.
pub open spec fn rx_desc_bytes(d: E1000RxDesc) -> Seq<u8> {
    le64(d.buffer_addr) + le16(d.length) + le16(d.csum) + seq![d.status, d.errors] + le16(
        d.special,
    )
}

/// The receive descriptor whose memory image is `s`.
pub open spec fn rx_desc_decode(s: Seq<u8>) -> E1000RxDesc {
    E1000RxDesc {
        buffer_addr: from_le64(s, 0),
        length: from_le16(s, 8),
        csum: from_le16(s, 10),
        status: s[12],
        errors: s[13],
        special: from_le16(s, 14),
    }
}

/// Encodes a receive descriptor into its little-endian memory image.
pub fn rx_desc_to_bytes(desc: &E1000RxDesc) -> (b: [u8; 16])
    ensures
        b@ == rx_desc_bytes(*desc),
{
    let a = desc.buffer_addr;
    let b = [
        (a & 0xff) as u8,
        ((a >> 8u64) & 0xff) as u8,
        ((a >> 16u64) & 0xff) as u8,
        ((a >> 24u64) & 0xff) as u8,
        ((a >> 32u64) & 0xff) as u8,
        ((a >> 40u64) & 0xff) as u8,
        ((a >> 48u64) & 0xff) as u8,
        ((a >> 56u64) & 0xff) as u8,
        (desc.length & 0xff) as u8,
        ((desc.length >> 8u16) & 0xff) as u8,
        (desc.csum & 0xff) as u8,
        ((desc.csum >> 8u16) & 0xff) as u8,
        desc.status,
        desc.errors,
        (desc.special & 0xff) as u8,
        ((desc.special >> 8u16) & 0xff) as u8,
    ];
    assert(b@ =~= rx_desc_bytes(*desc));
    b
}

/// Decodes a receive descriptor from its little-endian memory image.
pub fn bytes_to_rx_desc(bytes: &[u8; 16]) -> (d: E1000RxDesc)
    ensures
        d == rx_desc_decode(bytes@),
{
    let b = bytes;
    E1000RxDesc {
        buffer_addr: (b[0] as u64) | ((b[1] as u64) << 8u64) | ((b[2] as u64) << 16u64) | ((
        b[3] as u64) << 24u64) | ((b[4] as u64) << 32u64) | ((b[5] as u64) << 40u64) | ((
        b[6] as u64) << 48u64) | ((b[7] as u64) << 56u64),
        length: (b[8] as u16) | ((b[9] as u16) << 8u16),
        csum: (b[10] as u16) | ((b[11] as u16) << 8u16),
        status: b[12],
        errors: b[13],
        special: (b[14] as u16) | ((b[15] as u16) << 8u16),
    }
}

/// Decoding the memory image of a receive descriptor gives it back, and
/// any sixteen bytes are the image of the descriptor they decode to.
pub proof fn lemma_rx_desc_roundtrip(d: E1000RxDesc, s: Seq<u8>)
    requires
        s.len() == 16,
    ensures
        rx_desc_decode(rx_desc_bytes(d)) == d,
        rx_desc_bytes(rx_desc_decode(s)) == s,
{
    let m = rx_desc_bytes(d);
    assert(m.subrange(0, 8) =~= le64(d.buffer_addr));
    assert(m.subrange(8, 10) =~= le16(d.length));
    assert(m.subrange(10, 12) =~= le16(d.csum));
    assert(m.subrange(14, 16) =~= le16(d.special));
    lemma_le64_decode(d.buffer_addr, m, 0);
    lemma_le16_decode(d.length, m, 8);
    lemma_le16_decode(d.csum, m, 10);
    lemma_le16_decode(d.special, m, 14);
    lemma_le64_encode(s, 0);
    lemma_le16_encode(s, 8);
    lemma_le16_encode(s, 10);
    lemma_le16_encode(s, 14);
    assert(rx_desc_bytes(rx_desc_decode(s)) =~= s);
}

/// What cleaning the next receive descriptor does.
pub enum RxClean<B> {
    /// The hardware has not finished the descriptor.
    NotReady,
    /// The frame had an error: the slot keeps its buffer, its descriptor is
    /// rewritten with that buffer and RDT is set to `index`.
    Recycle { index: usize },
    /// The slot had no buffer: nothing changes.
    Empty,
    /// A frame of `len` bytes arrived in `buf`, taken out of slot `index`:
    /// the slot gets a fresh buffer and RDT is set to `index`.
    Deliver { index: usize, buf: B, len: usize },
}

/// The receive ring's software state: the descriptor indexes and one
/// optional buffer per descriptor slot.
pub struct RxRing<B> {
    /// Descriptor ring tracker.
    pub ring: DescRing<E1000RxDesc>,
    /// Buffer for each descriptor slot.
    pub buffers: Vec<Option<B>>,
}

impl<B> RxRing<B> {
    /// A ring of `RX_DESC_COUNT` descriptors with one slot each.
    pub open spec fn wf(&self) -> bool {
        &&& self.ring.wf()
        &&& self.ring.count_spec() == RX_DESC_COUNT
        &&& self.buffers.len() == RX_DESC_COUNT
    }

    /// A ring with every slot empty and both indexes at zero.
    pub fn new() -> (r: Self)
        ensures
            r.wf(),
            r.ring.ntu() == 0,
            r.ring.ntc() == 0,
            forall|i: int| 0 <= i < RX_DESC_COUNT ==> r.buffers@[i] is None,
    {
        let mut buffers: Vec<Option<B>> = Vec::new();
        let mut i: usize = 0;
        while i < RX_DESC_COUNT
            invariant
                i <= RX_DESC_COUNT,
                buffers.len() == i,
                forall|j: int| 0 <= j < i ==> buffers@[j] is None,
            decreases RX_DESC_COUNT - i,
        {
            buffers.push(None);
            i = i + 1;
        }
        RxRing { ring: DescRing::new(RX_DESC_COUNT), buffers }
    }

    /// Returns the ring size in bytes.
    pub fn ring_size_bytes(&self) -> (r: usize)
        ensures
            r == RX_DESC_COUNT * E1000_RX_DESC_SIZE,
    {
        RX_DESC_RING_SIZE
    }

    /// Places the freshly allocated buffer of slot `index` in the ring.
    pub fn install_buffer(&mut self, index: usize, buf: B)
        requires
            old(self).wf(),
            index < RX_DESC_COUNT,
        ensures
            final(self).wf(),
            final(self).ring == old(self).ring,
            final(self).buffers@ == old(self).buffers@.update(index as int, Some(buf)),
    {
        self.buffers.set(index, Some(buf));
    }

    /// After every slot got a buffer, hands all descriptors but the guard
    /// to the hardware: returns the RDT value, `RX_DESC_COUNT - 1`, which is
    /// also the new next-to-use index.
    pub fn alloc_rx_buffers(&mut self) -> (rdt: u32)
        requires
            old(self).wf(),
        ensures
            final(self).wf(),
            rdt == RX_DESC_COUNT - 1,
            final(self).ring.ntu() == RX_DESC_COUNT - 1,
            final(self).ring.ntc() == old(self).ring.ntc(),
            final(self).buffers == old(self).buffers,
    {
        self.ring.set_next_to_use(RX_DESC_COUNT - 1);
        (RX_DESC_COUNT - 1) as u32
    }

    /// The slot whose descriptor is cleaned next.
    pub fn next_to_clean(&self) -> (r: usize)
        requires
            self.wf(),
        ensures
            r == self.ring.ntc(),
            r < RX_DESC_COUNT,
    {
        self.ring.next_to_clean()
    }

    /// The buffer of slot `index`.
    pub fn slot(&self, index: usize) -> (r: &Option<B>)
        requires
            self.wf(),
            index < RX_DESC_COUNT,
        ensures
            *r == self.buffers@[index as int],
    {
        &self.buffers[index]
    }

    /// Whether a completed frame waits: the descriptor at next-to-clean is done.
    pub fn can_receive(desc: &E1000RxDesc) -> (r: bool)
        ensures
            r == desc.done_spec(),
    {
        desc.done()
    }

    /// Cleans the next receive descriptor, `desc` being its current value.
    /// An unfinished descriptor changes nothing; an errored frame advances
    /// next-to-clean and keeps its buffer; a slot without buffer changes
    /// nothing; a good frame has its buffer taken out, advances
    /// next-to-clean and makes its slot the next-to-use one.
    pub fn clean_rx_irq(&mut self, desc: &E1000RxDesc) -> (r: RxClean<B>)
        requires
            old(self).wf(),
        ensures
            final(self).wf(),
            ({
                let o = old(self);
                let idx = o.ring.ntc() as int;
                if !desc.done_spec() {
                    r is NotReady && *final(self) == *o
                } else if desc.has_error_spec() {
                    &&& r matches RxClean::Recycle { index } && index == idx
                    &&& final(self).buffers == o.buffers
                    &&& final(self).ring.ntc() == (idx + 1) % (RX_DESC_COUNT as int)
                    &&& final(self).ring.ntu() == o.ring.ntu()
                } else if o.buffers@[idx] is None {
                    r is Empty && *final(self) == *o
                } else {
                    &&& r matches RxClean::Deliver { index, buf, len } && index == idx && Some(buf)
                        == o.buffers@[idx] && len == desc.length
                    &&& final(self).buffers@ == o.buffers@.update(idx, None)
                    &&& final(self).ring.ntc() == (idx + 1) % (RX_DESC_COUNT as int)
                    &&& final(self).ring.ntu() == idx
                }
            }),
    {
        let idx = self.ring.next_to_clean();
        if !desc.done() {
            return RxClean::NotReady;
        }
        if desc.has_error() {
            self.ring.advance_clean();
            return RxClean::Recycle { index: idx };
        }
        if self.buffers[idx].is_none() {
            return RxClean::Empty;
        }
        let taken = self.buffers[idx].take();
        match taken {
            None => RxClean::Empty,
            Some(buf) => {
                self.ring.advance_clean();
                self.ring.set_next_to_use(idx);
                RxClean::Deliver { index: idx, buf, len: desc.length as usize }
            },
        }
    }
}

impl E1000RxDesc {
    /// The descriptor-done bit is set.
    pub open spec fn done_spec(&self) -> bool {
        self.status & crate::e1000::regs::RXD_STAT_DD != 0
    }

    /// A frame error bit is set.
    pub open spec fn has_error_spec(&self) -> bool {
        self.errors & crate::e1000::regs::RXD_ERR_FRAME_ERR_MASK != 0
    }
}

/// The receive control value: receiver on, broadcast accepted, 2048-byte
/// buffers, CRC stripped, no loopback, descriptor minimum threshold half.
pub open spec fn rx_rctl() -> u32 {
    RCTL_EN | RCTL_BAM | RCTL_SZ_2048 | RCTL_SECRC | RCTL_LBM_NO | RCTL_RDMTS_HALF
}

/// The receive register writes, in order, for a descriptor ring at
/// `dma_addr` of `ring_bytes` bytes.
pub open spec fn configure_rx_spec(dma_addr: u64, ring_bytes: u32) -> Seq<(usize, u32)> {
    seq![
        (RDBAL, (dma_addr % 0x1_0000_0000) as u32),
        (RDBAH, (dma_addr / 0x1_0000_0000) as u32),
        (RDLEN, ring_bytes),
        (RDH, 0u32),
        (RDT, 0u32),
        (RDTR, 0u32),
        (RCTL, rx_rctl()),
        (RXCSUM, RXCSUM_IPOFL | RXCSUM_TUOFL),
    ]
}

/// Configures the RX hardware registers: the ring base and length, head
/// and tail at zero, no receive delay, the receive control value and
/// receive checksum offload.
pub fn configure_rx(dma_addr: u64, ring_bytes: u32) -> (r: Vec<(usize, u32)>)
    ensures
        r@ == configure_rx_spec(dma_addr, ring_bytes),
{
    let (lo, hi) = crate::bytes::split_dma_addr(dma_addr);
    let rctl = RCTL_EN | RCTL_BAM | RCTL_SZ_2048 | RCTL_SECRC | RCTL_LBM_NO | RCTL_RDMTS_HALF;
    let r = vec![
        (RDBAL, lo),
        (RDBAH, hi),
        (RDLEN, ring_bytes),
        (RDH, 0),
        (RDT, 0),
        (RDTR, 0),
        (RCTL, rctl),
        (RXCSUM, RXCSUM_IPOFL | RXCSUM_TUOFL),
    ];
    assert(r@ =~= configure_rx_spec(dma_addr, ring_bytes));
    r
}

} // verus!
