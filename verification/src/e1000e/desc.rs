//! Descriptor layouts of the 82574L and the software state of a
//! descriptor ring: its indexes and one optional buffer per slot.

use vstd::prelude::*;

use crate::bytes::{from_le16, from_le32, from_le64, le16, le32, le64};

verus! {

/// Size of a single legacy TX descriptor in bytes.
pub const TX_DESC_SIZE: usize = 16;

/// Size of a single extended RX descriptor in bytes.
pub const RX_DESC_EXT_SIZE: usize = 16;

/// Size of a single context descriptor in bytes.
pub const CONTEXT_DESC_SIZE: usize = 16;

/// Size of a single data (offload) descriptor in bytes.
pub const DATA_DESC_SIZE: usize = 16;

/// End of Packet -- marks the last descriptor of a packet.
pub const TXD_CMD_EOP: u8 = 0x01;
/// Insert FCS/CRC -- hardware appends Ethernet CRC.
pub const TXD_CMD_IFCS: u8 = 0x02;
/// Insert Checksum -- hardware inserts IP/TCP/UDP checksum.
pub const TXD_CMD_IC: u8 = 0x04;
/// Report Status -- hardware sets `DD` in status when done.
pub const TXD_CMD_RS: u8 = 0x08;
/// Descriptor Extension (0 = legacy format).
pub const TXD_CMD_DEXT: u8 = 0x20;
/// VLAN Packet Enable.
pub const TXD_CMD_VLE: u8 = 0x40;
/// Interrupt Delay Enable.
pub const TXD_CMD_IDE: u8 = 0x80;

/// Descriptor Done -- hardware has processed the descriptor.
pub const TXD_STAT_DD: u8 = 0x01;

/// Descriptor Done.
pub const RXDEXT_STAT_DD: u32 = 0x1;
/// End of Packet.
pub const RXDEXT_STAT_EOP: u32 = 0x2;
/// Ignore Checksum Indication.
pub const RXDEXT_STAT_IXSM: u32 = 0x4;
/// VLAN Packet.
pub const RXDEXT_STAT_VP: u32 = 0x8;
/// UDP Checksum Calculated.
pub const RXDEXT_STAT_UDPCS: u32 = 0x10;
/// TCP Checksum Calculated.
pub const RXDEXT_STAT_TCPCS: u32 = 0x20;
/// Timestamp Taken.
pub const RXDEXT_STATERR_TST: u32 = 0x100;
/// CRC Error.
pub const RXDEXT_STATERR_CE: u32 = 0x0100_0000;
/// Symbol Error.
pub const RXDEXT_STATERR_SE: u32 = 0x0200_0000;
/// Sequence Error.
pub const RXDEXT_STATERR_SEQ: u32 = 0x0400_0000;
/// Carrier Extension Error.
pub const RXDEXT_STATERR_CXE: u32 = 0x1000_0000;
/// RX Data Error.
pub const RXDEXT_STATERR_RXE: u32 = 0x8000_0000;
/// Mask for frame errors in extended RX descriptors (CE | SE | SEQ | CXE | RXE).
pub const RXDEXT_ERR_FRAME_MASK: u32 = 0x9700_0000;

/// Insert IP checksum.
pub const TXD_POPTS_IXSM: u8 = 0x01;
/// Insert TCP/UDP checksum.
pub const TXD_POPTS_TXSM: u8 = 0x02;

/// Legacy Transmit Descriptor (16 bytes).
#[derive(Clone, Copy, Debug, PartialEq, Eq, Structural)]
pub struct TxDesc {
    /// Physical address of the data buffer.
    pub buffer_addr: u64,
    /// Data buffer length in bytes.
    pub length: u16,
    /// Checksum offset -- byte offset where checksum is inserted.
    pub cso: u8,
    /// Command bits (see `TXD_CMD_*` constants).
    pub cmd: u8,
    /// Status bits written back by hardware (see `TXD_STAT_*`).
    pub status: u8,
    /// Checksum start -- byte offset to begin computing checksum.
    pub css: u8,
    /// Special field (VLAN tag when `TXD_CMD_VLE` is set).
    pub special: u16,
}

impl Default for TxDesc {
    fn default() -> (r: Self)
        ensures
            r.buffer_addr == 0 && r.length == 0 && r.cso == 0 && r.cmd == 0 && r.status == 0
                && r.css == 0 && r.special == 0,
    {
        TxDesc { buffer_addr: 0, length: 0, cso: 0, cmd: 0, status: 0, css: 0, special: 0 }
    }
}

/// Extended Receive Descriptor -- writeback layout (16 bytes).
#[derive(Clone, Copy, Debug, PartialEq, Eq, Structural)]
pub struct RxDescExt {
    /// Multiple Receive Queues filter information.
    pub mrq: u32,
    /// RSS hash or IP-id/checksum.
    pub rss: u32,
    /// Extended status and error flags.
    pub status_error: u32,
    /// Received packet length.
    pub length: u16,
    /// VLAN tag, valid when `RXDEXT_STAT_VP` is set.
    pub vlan: u16,
}

impl Default for RxDescExt {
    fn default() -> (r: Self)
        ensures
            r.mrq == 0 && r.rss == 0 && r.status_error == 0 && r.length == 0 && r.vlan == 0,
    {
        RxDescExt { mrq: 0, rss: 0, status_error: 0, length: 0, vlan: 0 }
    }
}

/// Offload Context Descriptor (16 bytes).
#[derive(Clone, Copy, Debug, PartialEq, Eq, Structural)]
pub struct ContextDesc {
    /// IP checksum start, offset, and end.
    pub lower_setup: u32,
    /// TCP/UDP checksum start, offset, and end.
    pub upper_setup: u32,
    /// Command and length field.
    pub cmd_and_length: u32,
    /// TCP segmentation setup: status, header length, MSS.
    pub tcp_seg_setup: u32,
}

impl Default for ContextDesc {
    fn default() -> (r: Self)
        ensures
            r.lower_setup == 0 && r.upper_setup == 0 && r.cmd_and_length == 0 && r.tcp_seg_setup
                == 0,
    {
        ContextDesc { lower_setup: 0, upper_setup: 0, cmd_and_length: 0, tcp_seg_setup: 0 }
    }
}

/// Offload Data Descriptor (16 bytes).
#[derive(Clone, Copy, Debug, PartialEq, Eq, Structural)]
pub struct DataDesc {
    /// Physical address of the data buffer.
    pub buffer_addr: u64,
    /// Lower word: length (16 bits), type/length extension (8 bits), command (8 bits).
    pub lower: u32,
    /// Upper word: status (8 bits), packet options (8 bits), special/VLAN (16 bits).
    pub upper: u32,
}

impl Default for DataDesc {
    fn default() -> (r: Self)
        ensures
            r.buffer_addr == 0 && r.lower == 0 && r.upper == 0,
    {
        DataDesc { buffer_addr: 0, lower: 0, upper: 0 }
    }
}

/// The read format of an extended RX descriptor as written by software:
/// the buffer the hardware DMAs the next frame into.
#[derive(Clone, Copy, Debug, PartialEq, Eq, Structural)]
pub struct RxDescRead {
    pub buffer_addr: u64,
    pub reserved: u64,
}

/// The memory image of a read-format RX descriptor.
pub open spec fn rx_desc_read_bytes(d: RxDescRead) -> Seq<u8> {
    le64(d.buffer_addr) + le64(d.reserved)
}

impl RxDescRead {
    /// The read-format descriptor that points the hardware at `buffer_addr`.
    pub fn for_buffer(buffer_addr: u64) -> (d: Self)
        ensures
            d.buffer_addr == buffer_addr,
            d.reserved == 0,
    {
        RxDescRead { buffer_addr, reserved: 0 }
    }

    /// Encodes the descriptor into its little-endian memory image.
    pub fn to_bytes(&self) -> (b: [u8; 16])
        ensures
            b@ == rx_desc_read_bytes(*self),
    {
        let a = self.buffer_addr;
        let r = self.reserved;
        let b = [
            (a & 0xff) as u8,
            ((a >> 8u64) & 0xff) as u8,
            ((a >> 16u64) & 0xff) as u8,
            ((a >> 24u64) & 0xff) as u8,
            ((a >> 32u64) & 0xff) as u8,
            ((a >> 40u64) & 0xff) as u8,
            ((a >> 48u64) & 0xff) as u8,
            ((a >> 56u64) & 0xff) as u8,
            (r & 0xff) as u8,
            ((r >> 8u64) & 0xff) as u8,
            ((r >> 16u64) & 0xff) as u8,
            ((r >> 24u64) & 0xff) as u8,
            ((r >> 32u64) & 0xff) as u8,
            ((r >> 40u64) & 0xff) as u8,
            ((r >> 48u64) & 0xff) as u8,
            ((r >> 56u64) & 0xff) as u8,
        ];
        assert(b@ =~= rx_desc_read_bytes(*self));
        b
    }
}

/// The extended RX descriptor (write-back format) whose memory image is `s`.
pub open spec fn rx_desc_ext_decode(s: Seq<u8>) -> RxDescExt {
    RxDescExt {
        mrq: from_le32(s, 0),
        rss: from_le32(s, 4),
        status_error: from_le32(s, 8),
        length: from_le16(s, 12),
        vlan: from_le16(s, 14),
    }
}

/// The memory image of an extended RX descriptor.
pub open spec fn rx_desc_ext_bytes(d: RxDescExt) -> Seq<u8> {
    le32(d.mrq) + le32(d.rss) + le32(d.status_error) + le16(d.length) + le16(d.vlan)
}

impl RxDescExt {
    /// Decodes a write-back descriptor from its little-endian memory image.
    pub fn from_bytes(b: &[u8; 16]) -> (d: Self)
        ensures
            d == rx_desc_ext_decode(b@),
    {
        RxDescExt {
            mrq: (b[0] as u32) | ((b[1] as u32) << 8u32) | ((b[2] as u32) << 16u32) | ((
            b[3] as u32) << 24u32),
            rss: (b[4] as u32) | ((b[5] as u32) << 8u32) | ((b[6] as u32) << 16u32) | ((
            b[7] as u32) << 24u32),
            status_error: (b[8] as u32) | ((b[9] as u32) << 8u32) | ((b[10] as u32) << 16u32)
                | ((b[11] as u32) << 24u32),
            length: (b[12] as u16) | ((b[13] as u16) << 8u16),
            vlan: (b[14] as u16) | ((b[15] as u16) << 8u16),
        }
    }
}

/// Error type for ring allocation failures.
#[derive(Debug)]
pub struct RingAllocError;

/// The software state of a descriptor ring of `count` descriptors of
/// `desc_size` bytes: the two indexes and one optional buffer per slot.
pub struct DescRing<B> {
    /// Per-slot buffer metadata.
    pub buffers: Vec<Option<B>>,
    /// Number of descriptors in the ring (a positive multiple of 8).
    pub count: u16,
    /// Size of a single descriptor in bytes.
    pub desc_size: usize,
    /// Index of the next descriptor to be used by software.
    pub next_to_use: u16,
    /// Index of the next descriptor to be cleaned (reclaimed) by software.
    pub next_to_clean: u16,
}

/// The ring index that follows `i` in a ring of `count` descriptors.
pub open spec fn wrap_next(i: int, count: int) -> int {
    if i + 1 >= count {
        0
    } else {
        i + 1
    }
}

/// Stepping an index reduced modulo the ring size is reducing its successor.
pub proof fn lemma_wrap_next_mod(a: int, c: int)
    requires
        0 <= a,
        0 < c,
    ensures
        wrap_next(a % c, c) == (a + 1) % c,
{
    vstd::arithmetic::div_mod::lemma_fundamental_div_mod(a, c);
    let q = a / c;
    let r = a % c;
    assert(c * q == q * c) by (nonlinear_arith);
    if r + 1 < c {
        vstd::arithmetic::div_mod::lemma_fundamental_div_mod_converse(a + 1, c, q, r + 1);
    } else {
        assert((q + 1) * c == q * c + c) by (nonlinear_arith);
        vstd::arithmetic::div_mod::lemma_fundamental_div_mod_converse(a + 1, c, q + 1, 0);
    }
}

/// Descriptors handed out and not yet cleaned.
pub open spec fn ring_used(count: int, ntu: int, ntc: int) -> int {
    if ntu >= ntc {
        ntu - ntc
    } else {
        ntu - ntc + count
    }
}

/// Computes the number of 4 KiB pages needed for `count` descriptors of `desc_size` bytes.
pub fn pages_for_ring(count: u16, desc_size: usize) -> (r: usize)
    requires
        count * desc_size + 4095 <= usize::MAX,
    ensures
        r == (count * desc_size + 4095) / 4096,
{
    let total: usize = count as usize * desc_size;
    (total + 4095) / 4096
}

impl<B> DescRing<B> {
    /// One slot per descriptor, a positive number of 16-byte descriptors,
    /// both indexes inside the ring.
    pub open spec fn wf(&self) -> bool {
        &&& self.count > 0
        &&& self.desc_size == 16
        &&& self.buffers.len() == self.count
        &&& self.next_to_use < self.count
        &&& self.next_to_clean < self.count
    }

    /// Descriptors handed out and not yet cleaned.
    pub open spec fn used(&self) -> int {
        ring_used(self.count as int, self.next_to_use as int, self.next_to_clean as int)
    }

    /// A ring of `count` descriptors of `desc_size` bytes with every slot
    /// empty and both indexes at zero (the allocation of a TX ring; the
    /// descriptor memory starts zeroed).
    pub fn new(count: u16, desc_size: usize) -> (r: Self)
        requires
            count > 0,
            count % 8 == 0,
        ensures
            r.count == count,
            r.desc_size == desc_size,
            r.buffers.len() == count,
            r.next_to_use == 0,
            r.next_to_clean == 0,
            forall|i: int| 0 <= i < count ==> r.buffers@[i] is None,
            desc_size == 16 ==> r.wf(),
    {
        let mut buffers: Vec<Option<B>> = Vec::new();
        let mut i: u16 = 0;
        while i < count
            invariant
                i <= count,
                buffers.len() == i,
                forall|j: int| 0 <= j < i ==> buffers@[j] is None,
            decreases count - i,
        {
            buffers.push(None);
            i = i + 1;
        }
        DescRing { buffers, count, desc_size, next_to_use: 0, next_to_clean: 0 }
    }

    /// Returns the number of descriptors in the ring.
    pub fn count(&self) -> (r: u16)
        ensures
            r == self.count,
    {
        self.count
    }

    /// Returns the total byte size of the descriptor ring.
    pub fn ring_size_bytes(&self) -> (r: u32)
        requires
            self.wf(),
        ensures
            r == self.count * 16,
    {
        (self.count as usize * self.desc_size) as u32
    }

    /// The byte offset of descriptor `idx` in the ring memory.
    pub fn desc_offset(&self, idx: u16) -> (r: usize)
        requires
            self.wf(),
            idx < self.count,
        ensures
            r == idx * 16,
    {
        idx as usize * self.desc_size
    }

    /// Returns the next-to-use index.
    pub fn next_to_use(&self) -> (r: u16)
        ensures
            r == self.next_to_use,
    {
        self.next_to_use
    }

    /// Sets the next-to-use index.
    pub fn set_next_to_use(&mut self, val: u16)
        requires
            val < old(self).count,
        ensures
            final(self).next_to_use == val,
            final(self).next_to_clean == old(self).next_to_clean,
            final(self).count == old(self).count,
            final(self).desc_size == old(self).desc_size,
            final(self).buffers == old(self).buffers,
    {
        self.next_to_use = val;
    }

    /// Returns the next-to-clean index.
    pub fn next_to_clean(&self) -> (r: u16)
        ensures
            r == self.next_to_clean,
    {
        self.next_to_clean
    }

    /// Sets the next-to-clean index.
    pub fn set_next_to_clean(&mut self, val: u16)
        requires
            val < old(self).count,
        ensures
            final(self).next_to_clean == val,
            final(self).next_to_use == old(self).next_to_use,
            final(self).count == old(self).count,
            final(self).desc_size == old(self).desc_size,
            final(self).buffers == old(self).buffers,
    {
        self.next_to_clean = val;
    }

    /// Advances a ring index by one, wrapping at `count`.
    pub fn advance_index(&self, idx: u16) -> (r: u16)
        requires
            idx < u16::MAX,
        ensures
            r == wrap_next(idx as int, self.count as int),
            self.count > 0 ==> r < self.count,
    {
        let next = idx + 1;
        if next >= self.count {
            0
        } else {
            next
        }
    }

    /// Returns the number of unused (available) descriptor slots; one slot
    /// is always reserved to distinguish full from empty.
    pub fn unused_count(&self) -> (r: u16)
        requires
            self.wf(),
            self.count + self.next_to_clean <= u16::MAX,
        ensures
            r == self.count - 1 - self.used(),
    {
        if self.next_to_clean > self.next_to_use {
            self.next_to_clean - self.next_to_use - 1
        } else {
            self.count + self.next_to_clean - self.next_to_use - 1
        }
    }

    /// Returns the buffer slot at the given index.
    pub fn buffer(&self, idx: u16) -> (r: &Option<B>)
        requires
            idx < self.buffers.len(),
        ensures
            *r == self.buffers@[idx as int],
    {
        &self.buffers[idx as usize]
    }

    /// Takes the buffer out of the slot at the given index, leaving `None`.
    pub fn take_buffer(&mut self, idx: u16) -> (r: Option<B>)
        requires
            idx < old(self).buffers.len(),
        ensures
            r == old(self).buffers@[idx as int],
            final(self).buffers@ == old(self).buffers@.update(idx as int, None),
            final(self).count == old(self).count,
            final(self).desc_size == old(self).desc_size,
            final(self).next_to_use == old(self).next_to_use,
            final(self).next_to_clean == old(self).next_to_clean,
    {
        self.buffers[idx as usize].take()
    }

    /// Places a buffer into the slot at the given index.
    pub fn put_buffer(&mut self, idx: u16, buf: B)
        requires
            idx < old(self).buffers.len(),
        ensures
            final(self).buffers@ == old(self).buffers@.update(idx as int, Some(buf)),
            final(self).count == old(self).count,
            final(self).desc_size == old(self).desc_size,
            final(self).next_to_use == old(self).next_to_use,
            final(self).next_to_clean == old(self).next_to_clean,
    {
        self.buffers.set(idx as usize, Some(buf));
    }

    /// Resets the ring indices to zero; the descriptor memory is then zeroed.
    pub fn reset(&mut self)
        ensures
            final(self).next_to_use == 0,
            final(self).next_to_clean == 0,
            final(self).count == old(self).count,
            final(self).desc_size == old(self).desc_size,
            final(self).buffers == old(self).buffers,
    {
        self.next_to_use = 0;
        self.next_to_clean = 0;
    }
}

/// Allocates the software state of a TX descriptor ring of `count`
/// descriptors (a positive multiple of 8): every slot empty.
pub fn alloc_tx_ring<B>(count: u16) -> (r: DescRing<B>)
    requires
        count > 0,
        count % 8 == 0,
    ensures
        r.wf(),
        r.count == count,
        r.next_to_use == 0,
        r.next_to_clean == 0,
        forall|i: int| 0 <= i < count ==> r.buffers@[i] is None,
{
    DescRing::new(count, TX_DESC_SIZE)
}

} // verus!
