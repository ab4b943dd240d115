//! Transmit-side logic of the RTL8168g: the ring's producer and consumer
//! indexes and slots, the descriptor written for each packet, padding,
//! offload words, and the completion pass.

use vstd::prelude::*;

use crate::bytes::{addr_high, addr_low};
use crate::r8169::desc::{tx_slots_avail, tx_slots_avail_spec, RawDesc, TxSlot};
use crate::r8169::regs::{
    DESC_OWN, FIRST_FRAG, LAST_FRAG, NUM_TX_DESC, R8169_TX_STOP_THRS, RING_END,
};

verus! {

/// Minimum Ethernet frame size (60 bytes, excluding FCS).
pub const ETH_ZLEN: usize = 60;

/// Errors of the transmit path.
#[derive(Debug, Clone, Copy, PartialEq, Eq, Structural)]
pub enum TxError {
    /// Not enough free descriptors: the ring is full.
    Busy,
    /// No DMA memory for the packet.
    NoMemory,
}

/// Computes the opts2 VLAN tag word for a TX descriptor. Hardware VLAN
/// insertion is not used, so no tag is ever inserted.
pub fn tx_vlan_tag(packet: &[u8]) -> (r: u32)
    ensures
        r == 0,
{
    0
}

/// Offload flags for the two option words of a TX descriptor. Checksum and
/// segmentation offload are not used (the network stack computes checksums
/// in software), so both words are zero.
pub fn tso_csum_v2(packet: &[u8]) -> (r: [u32; 2])
    ensures
        r@ == seq![0u32, 0u32],
{
    let r = [0u32, 0u32];
    assert(r@ =~= seq![0u32, 0u32]);
    r
}

/// `data` padded with zero bytes up to `ETH_ZLEN` bytes.
pub open spec fn padded(data: Seq<u8>) -> Seq<u8> {
    if data.len() >= ETH_ZLEN {
        data
    } else {
        data + Seq::new((ETH_ZLEN - data.len()) as nat, |i: int| 0u8)
    }
}

/// Pads a packet to the minimum Ethernet frame length (`ETH_ZLEN`) if it
/// is shorter; a long enough packet is copied unchanged.
pub fn pad_packet(data: &[u8]) -> (r: Vec<u8>)
    ensures
        r@ == padded(data@),
{
    let mut out: Vec<u8> = Vec::new();
    let mut i: usize = 0;
    while i < data.len()
        invariant
            i <= data.len(),
            out@ == data@.subrange(0, i as int),
        decreases data.len() - i,
    {
        out.push(data[i]);
        i = i + 1;
    }
    assert(out@ =~= data@);
    if data.len() < ETH_ZLEN {
        while out.len() < ETH_ZLEN
            invariant
                data.len() <= out.len() <= ETH_ZLEN,
                out@ == data@ + Seq::new((out.len() - data.len()) as nat, |i: int| 0u8),
            decreases ETH_ZLEN - out.len(),
        {
            let ghost before = out@;
            out.push(0u8);
            assert(out@ =~= data@ + Seq::new((out.len() - data.len()) as nat, |i: int| 0u8));
        }
    }
    out
}

/// The descriptor for a packet of `len` bytes at `dma_addr` in slot
/// `entry`: the offload words `opts`, the length, RingEnd on the last slot
/// and DescOwn when the NIC is to take it at once.
pub open spec fn tx_map_opts1(opts0: u32, len: u32, entry: int, desc_own: bool) -> u32 {
    let base = opts0 | len;
    let with_end = if entry == NUM_TX_DESC - 1 {
        base | RING_END
    } else {
        base
    };
    if desc_own {
        with_end | DESC_OWN
    } else {
        with_end
    }
}

/// A mapped descriptor's first option word carries the frame length in
/// its low half (for offload words without length bits and a length below
/// 2^16), DescOwn when the NIC is to take it, RingEnd on the last slot
/// (elsewhere both bits are as the offload word has them), and every bit of
/// the offload word, such as FirstFrag and LastFrag.
pub proof fn lemma_tx_opts1_fields(opts0: u32, len: u32, entry: int, desc_own: bool, c: u32)
    requires
        opts0 & 0xFFFF == 0,
        len < 0x1_0000,
    ensures
        tx_map_opts1(opts0, len, entry, desc_own) & 0xFFFF == len,
        desc_own ==> tx_map_opts1(opts0, len, entry, desc_own) & DESC_OWN != 0,
        !desc_own ==> tx_map_opts1(opts0, len, entry, desc_own) & DESC_OWN == opts0 & DESC_OWN,
        entry == NUM_TX_DESC - 1 ==> tx_map_opts1(opts0, len, entry, desc_own) & RING_END != 0,
        entry != NUM_TX_DESC - 1 ==> tx_map_opts1(opts0, len, entry, desc_own) & RING_END == opts0
            & RING_END,
        opts0 & c != 0 ==> tx_map_opts1(opts0, len, entry, desc_own) & c != 0,
{
    let base = opts0 | len;
    let with_end = if entry == NUM_TX_DESC - 1 {
        base | RING_END
    } else {
        base
    };
    crate::bits::lemma_or_masks(opts0, len, len, c);
    crate::bits::lemma_or_masks(base, len, len, c);
    crate::bits::lemma_or_masks(base, RING_END, len, c);
    crate::bits::lemma_or_masks(base, RING_END, len, RING_END);
    crate::bits::lemma_or_masks(with_end, DESC_OWN, len, c);
    crate::bits::lemma_or_masks(with_end, DESC_OWN, len, DESC_OWN);
    crate::bits::lemma_or_masks(with_end, DESC_OWN, len, RING_END);
}

/// Builds the descriptor of a single-buffer packet (the mapping step of
/// the transmit path).
pub fn tx_map_desc(opts: &[u32; 2], len: u32, dma_addr: u64, entry: usize, desc_own: bool) -> (d: RawDesc)
    ensures
        d.opts1 == tx_map_opts1(opts@[0], len, entry as int, desc_own),
        d.opts2 == opts@[1],
        d.addr_lo == addr_low(dma_addr),
        d.addr_hi == addr_high(dma_addr),
{
    let mut opts1 = opts[0] | len;
    if entry == NUM_TX_DESC - 1 {
        opts1 = opts1 | RING_END;
    }
    if desc_own {
        opts1 = opts1 | DESC_OWN;
    }
    RawDesc::with_buffer(opts1, opts[1], dma_addr)
}

/// The zeroed descriptor of slot `entry`, keeping RingEnd on the last slot.
pub fn tx_clear_desc(entry: usize) -> (d: RawDesc)
    ensures
        d.opts1 == (if entry == NUM_TX_DESC - 1 {
            RING_END
        } else {
            0
        }),
        d.opts2 == 0,
        d.addr_lo == 0,
        d.addr_hi == 0,
{
    let opts1 = if entry == NUM_TX_DESC - 1 {
        RING_END
    } else {
        0
    };
    RawDesc { opts1, opts2: 0, addr_lo: 0, addr_hi: 0 }
}

/// Statistics collected during a single transmit completion pass.
#[derive(Debug)]
pub struct TxCompleteStats {
    /// Number of packets whose transmission completed.
    pub tx_packets: u32,
    /// Total bytes transmitted.
    pub tx_bytes: u64,
}

impl Default for TxCompleteStats {
    fn default() -> (r: Self)
        ensures
            r.tx_packets == 0,
            r.tx_bytes == 0,
    {
        TxCompleteStats { tx_packets: 0, tx_bytes: 0 }
    }
}

/// Number of packets in flight when the producer is at `cur` and the
/// consumer at `dirty`, counted modulo 2^32.
pub open spec fn pending_spec(cur: u32, dirty: u32) -> int {
    (cur as int - dirty as int) % 0x1_0000_0000
}

/// The transmit ring's software state: per-slot metadata, the producer
/// index `cur_tx` and the consumer index `dirty_tx`; `B` is the handle of
/// a packet's DMA buffer.
pub struct TxRing<B> {
    /// Per-slot transmit buffer metadata.
    pub slots: Vec<TxSlot<B>>,
    /// Next descriptor to be filled by the driver (producer).
    pub cur_tx: u32,
    /// Next descriptor to be reclaimed after TX completion (consumer).
    pub dirty_tx: u32,
}

/// What one step of the completion pass found.
#[derive(Debug, Clone, Copy, PartialEq, Eq, Structural)]
pub enum TxReclaim {
    /// No packet is in flight.
    Idle,
    /// The NIC still owns the oldest descriptor.
    HwOwned,
    /// The slot `entry` was reclaimed; its descriptor must be rewritten
    /// with `desc`.
    Reclaimed { entry: usize, desc: RawDesc },
}

impl<B> TxRing<B> {
    /// One slot per descriptor, and never more packets in flight than slots.
    pub open spec fn wf(&self) -> bool {
        &&& self.slots.len() == NUM_TX_DESC
        &&& pending_spec(self.cur_tx, self.dirty_tx) <= NUM_TX_DESC
    }

    /// Number of packets in flight.
    pub open spec fn pending(&self) -> int {
        pending_spec(self.cur_tx, self.dirty_tx)
    }

    /// A ring with every slot empty and both indexes at zero.
    pub fn new() -> (r: Self)
        ensures
            r.wf(),
            r.cur_tx == 0,
            r.dirty_tx == 0,
            forall|i: int| 0 <= i < NUM_TX_DESC ==> r.slots@[i].dma_buf is None,
    {
        let mut slots: Vec<TxSlot<B>> = Vec::new();
        let mut i: usize = 0;
        while i < NUM_TX_DESC
            invariant
                i <= NUM_TX_DESC,
                slots.len() == i,
                forall|j: int| 0 <= j < i ==> slots@[j].dma_buf is None,
            decreases NUM_TX_DESC - i,
        {
            slots.push(TxSlot::new());
            i = i + 1;
        }
        TxRing { slots, cur_tx: 0, dirty_tx: 0 }
    }

    /// Returns the number of available (free) TX descriptor slots.
    pub fn slots_avail(&self) -> (r: usize)
        ensures
            r == tx_slots_avail_spec(self.dirty_tx, self.cur_tx),
    {
        tx_slots_avail(self.dirty_tx, self.cur_tx)
    }

    /// Returns `true` if there are enough free slots to accept a new packet.
    pub fn can_send(&self) -> (r: bool)
        ensures
            r == (tx_slots_avail_spec(self.dirty_tx, self.cur_tx) >= R8169_TX_STOP_THRS),
    {
        self.slots_avail() >= R8169_TX_STOP_THRS
    }

    /// Resets both producer and consumer indexes to zero.
    pub fn reset_indexes(&mut self)
        ensures
            final(self).cur_tx == 0,
            final(self).dirty_tx == 0,
            final(self).slots == old(self).slots,
    {
        self.cur_tx = 0;
        self.dirty_tx = 0;
    }

    /// Clears all TX slots and resets both indexes; every descriptor is
    /// then rewritten with `tx_clear_desc` of its index.
    pub fn clear(&mut self)
        requires
            old(self).wf(),
        ensures
            final(self).wf(),
            final(self).cur_tx == 0,
            final(self).dirty_tx == 0,
            forall|i: int|
                0 <= i < NUM_TX_DESC ==> final(self).slots@[i].dma_buf is None
                    && final(self).slots@[i].len == 0 && !final(self).slots@[i].is_last,
    {
        let mut i: usize = 0;
        while i < NUM_TX_DESC
            invariant
                i <= NUM_TX_DESC,
                self.slots.len() == NUM_TX_DESC,
                forall|j: int|
                    0 <= j < i ==> self.slots@[j].dma_buf is None && self.slots@[j].len == 0
                        && !self.slots@[j].is_last,
            decreases NUM_TX_DESC - i,
        {
            self.slots.set(i, TxSlot::new());
            i = i + 1;
        }
        self.cur_tx = 0;
        self.dirty_tx = 0;
    }

    /// Empties slot `entry` and returns the descriptor it is rewritten with.
    pub fn unmap_tx_slot(&mut self, entry: usize) -> (d: RawDesc)
        requires
            old(self).wf(),
            entry < NUM_TX_DESC,
        ensures
            final(self).wf(),
            final(self).cur_tx == old(self).cur_tx,
            final(self).dirty_tx == old(self).dirty_tx,
            final(self).slots@ == old(self).slots@.update(
                entry as int,
                TxSlot { len: 0, is_last: false, dma_buf: None },
            ),
            d.opts1 == (if entry == NUM_TX_DESC - 1 {
                RING_END
            } else {
                0
            }),
            d.opts2 == 0,
            d.addr_lo == 0,
            d.addr_hi == 0,
    {
        self.slots.set(entry, TxSlot::new());
        tx_clear_desc(entry)
    }

    /// The slot the next packet goes into.
    pub fn next_entry(&self) -> (r: usize)
        ensures
            r == self.cur_tx as int % NUM_TX_DESC as int,
    {
        (self.cur_tx as usize) % NUM_TX_DESC
    }

    /// Prepares the transmission of `packet`: fails with `Busy` unless at
    /// least `R8169_TX_STOP_THRS` slots are free, and otherwise gives the
    /// slot to use, the offload words with FirstFrag and LastFrag set (a
    /// packet is always one buffer), and the packet padded to `ETH_ZLEN`.
    pub fn prepare_xmit(&self, packet: &[u8]) -> (r: Result<(usize, [u32; 2], Vec<u8>), TxError>)
        ensures
            tx_slots_avail_spec(self.dirty_tx, self.cur_tx) < R8169_TX_STOP_THRS ==> r == Err::<
                (usize, [u32; 2], Vec<u8>),
                TxError,
            >(TxError::Busy),
            tx_slots_avail_spec(self.dirty_tx, self.cur_tx) >= R8169_TX_STOP_THRS ==> r is Ok,
            r matches Ok((entry, opts, data)) ==> {
                &&& entry == self.cur_tx as int % NUM_TX_DESC as int
                &&& opts@ == seq![FIRST_FRAG | LAST_FRAG, 0u32]
                &&& data@ == padded(packet@)
            },
    {
        if !self.can_send() {
            return Err(TxError::Busy);
        }
        let entry = self.next_entry();
        let vlan = tx_vlan_tag(packet);
        let offload = tso_csum_v2(packet);
        let opts = [offload[0] | FIRST_FRAG | LAST_FRAG, offload[1] | vlan];
        proof {
            crate::bits::lemma_low_byte_and_zero(0x2000_0000u32);
            crate::bits::lemma_low_byte_and_zero(0u32);
        }
        assert(opts@ =~= seq![FIRST_FRAG | LAST_FRAG, 0u32]);
        let data = pad_packet(packet);
        Ok((entry, opts, data))
    }

    /// Records the packet of `len` bytes held by `buf` (at `dma_addr`) in
    /// slot `entry` as the last and only fragment of its packet, advances
    /// the producer index, and returns the descriptor to write, which the
    /// NIC owns.
    pub fn commit_xmit(
        &mut self,
        entry: usize,
        opts: &[u32; 2],
        len: u32,
        buf: B,
        dma_addr: u64,
    ) -> (d: RawDesc)
        requires
            old(self).wf(),
            entry == old(self).cur_tx as int % NUM_TX_DESC as int,
            tx_slots_avail_spec(old(self).dirty_tx, old(self).cur_tx) >= R8169_TX_STOP_THRS,
        ensures
            final(self).wf(),
            final(self).cur_tx == old(self).cur_tx.wrapping_add(1),
            final(self).dirty_tx == old(self).dirty_tx,
            final(self).slots@ == old(self).slots@.update(
                entry as int,
                TxSlot { len, is_last: true, dma_buf: Some(buf) },
            ),
            d.opts1 == tx_map_opts1(opts@[0], len, entry as int, true),
            d.opts2 == opts@[1],
            d.addr_lo == addr_low(dma_addr),
            d.addr_hi == addr_high(dma_addr),
    {
        let d = tx_map_desc(opts, len, dma_addr, entry, true);
        self.slots.set(entry, TxSlot { len, is_last: true, dma_buf: Some(buf) });
        self.cur_tx = self.cur_tx.wrapping_add(1);
        d
    }

    /// One step of the completion pass: when a packet is in flight and the
    /// NIC has released the oldest descriptor (its status `status` has no
    /// DescOwn), the slot is counted in `stats` if it held the last
    /// fragment of a packet, emptied, and the consumer index advances.
    pub fn reclaim_step(&mut self, status: u32, stats: &mut TxCompleteStats) -> (r: TxReclaim)
        requires
            old(self).wf(),
            old(stats).tx_packets < u32::MAX,
            old(stats).tx_bytes <= u64::MAX - u32::MAX,
        ensures
            final(self).wf(),
            old(self).cur_tx == old(self).dirty_tx ==> r == TxReclaim::Idle && *final(self)
                == *old(self) && *final(stats) == *old(stats),
            old(self).cur_tx != old(self).dirty_tx && status & DESC_OWN != 0 ==> r
                == TxReclaim::HwOwned && *final(self) == *old(self) && *final(stats)
                == *old(stats),
            old(self).cur_tx != old(self).dirty_tx && status & DESC_OWN == 0 ==> {
                let entry = old(self).dirty_tx as int % NUM_TX_DESC as int;
                let slot = old(self).slots@[entry];
                &&& r matches TxReclaim::Reclaimed { entry: e, desc } && e == entry
                    && desc.opts1 == (if entry == NUM_TX_DESC - 1 {
                    RING_END
                } else {
                    0
                }) && desc.opts2 == 0 && desc.addr_lo == 0 && desc.addr_hi == 0
                &&& final(self).dirty_tx == old(self).dirty_tx.wrapping_add(1)
                &&& final(self).cur_tx == old(self).cur_tx
                &&& final(self).slots@ == old(self).slots@.update(
                    entry,
                    TxSlot { len: 0, is_last: false, dma_buf: None },
                )
                &&& final(stats).tx_packets == old(stats).tx_packets + (if slot.is_last {
                    1int
                } else {
                    0
                })
                &&& final(stats).tx_bytes == old(stats).tx_bytes + (if slot.is_last {
                    slot.len as int
                } else {
                    0
                })
            },
    {
        if self.cur_tx == self.dirty_tx {
            return TxReclaim::Idle;
        }
        if status & DESC_OWN != 0 {
            return TxReclaim::HwOwned;
        }
        let entry = (self.dirty_tx as usize) % NUM_TX_DESC;
        if self.slots[entry].is_last {
            stats.tx_packets = stats.tx_packets + 1;
            stats.tx_bytes = stats.tx_bytes + self.slots[entry].len as u64;
        }
        let desc = self.unmap_tx_slot(entry);
        self.dirty_tx = self.dirty_tx.wrapping_add(1);
        TxReclaim::Reclaimed { entry, desc }
    }

    /// The slot whose descriptor the completion pass examines next, or
    /// `None` when nothing is in flight.
    pub fn reclaim_entry(&self) -> (r: Option<usize>)
        ensures
            self.cur_tx == self.dirty_tx ==> r is None,
            self.cur_tx != self.dirty_tx ==> r == Some(
                (self.dirty_tx as int % NUM_TX_DESC as int) as usize,
            ),
    {
        if self.cur_tx == self.dirty_tx {
            None
        } else {
            Some((self.dirty_tx as usize) % NUM_TX_DESC)
        }
    }

    /// Whether descriptors the NIC has not processed remain, in which case
    /// the doorbell is rung again.
    pub fn kick_pending(&self) -> (r: bool)
        ensures
            r == (self.cur_tx != self.dirty_tx),
    {
        self.cur_tx != self.dirty_tx
    }
}

/// The register writes that program the TX descriptor ring address: the
/// high half first, then the low half.
pub fn set_tx_desc_addr(dma_addr: u64) -> (w: [(u16, u32); 2])
    ensures
        w@ == seq![
            (crate::r8169::regs::TX_DESC_START_ADDR_HIGH, addr_high(dma_addr)),
            (crate::r8169::regs::TX_DESC_START_ADDR_LOW, addr_low(dma_addr)),
        ],
{
    let (lo, hi) = crate::bytes::split_dma_addr(dma_addr);
    let w = [
        (crate::r8169::regs::TX_DESC_START_ADDR_HIGH, hi),
        (crate::r8169::regs::TX_DESC_START_ADDR_LOW, lo),
    ];
    assert(w@ =~= seq![
        (crate::r8169::regs::TX_DESC_START_ADDR_HIGH, addr_high(dma_addr)),
        (crate::r8169::regs::TX_DESC_START_ADDR_LOW, addr_low(dma_addr)),
    ]);
    w
}

/// The MaxTxPacketSize register and the value written to it.
pub fn set_tx_max_size() -> (w: (u16, u8))
    ensures
        w == (crate::r8169::regs::MAX_TX_PACKET_SIZE, crate::r8169::regs::TX_PACKET_MAX),
{
    (crate::r8169::regs::MAX_TX_PACKET_SIZE, crate::r8169::regs::TX_PACKET_MAX)
}

} // verus!
