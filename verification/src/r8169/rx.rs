//! Receive-side logic of the RTL8168g: checksum and VLAN decoding of a
//! completed descriptor, the verdict on each descriptor of the receive
//! poll, the poll statistics, and the per-slot buffer bookkeeping.

use vstd::prelude::*;

use crate::r8169::desc::{handed_back, mark_to_asic, RawDesc};
use crate::r8169::regs::{
    DESC_OWN, ETH_FCS_LEN, FIRST_FRAG, IP_FAIL, LAST_FRAG, NUM_RX_DESC, R8169_RX_BUF_SIZE, RX_CRC,
    RX_CS_FAIL_MASK, RX_PROTO_MASK, RX_PROTO_TCP, RX_PROTO_UDP, RX_RES, RX_RUNT, RX_RWT,
    RX_VLAN_TAG, TCP_FAIL, UDP_FAIL,
};

verus! {

/// Mask for extracting packet size from opts1 (bits 13:0).
pub const PKT_SIZE_MASK: u32 = 0x3FFF;

/// Result of hardware RX checksum validation.
#[derive(Debug, Clone, Copy, PartialEq, Eq, Structural)]
pub enum RxCsumStatus {
    /// Hardware verified the checksum and it is correct.
    Unnecessary,
    /// Hardware did not validate the checksum (or the protocol is unknown).
    Unchecked,
}

/// The hardware vouches for the checksum: the frame is TCP or UDP and no
/// checksum-failure bit is set.
pub open spec fn rx_csum_verified(opts1: u32) -> bool {
    &&& (opts1 & RX_PROTO_MASK == RX_PROTO_TCP || opts1 & RX_PROTO_MASK == RX_PROTO_UDP)
    &&& opts1 & RX_CS_FAIL_MASK == 0
}

/// The checksum status of a frame whose first option word is `opts1`.
pub open spec fn rx_csum_spec(opts1: u32) -> RxCsumStatus {
    if rx_csum_verified(opts1) {
        RxCsumStatus::Unnecessary
    } else {
        RxCsumStatus::Unchecked
    }
}

/// The checksum is vouched for only for TCP and UDP frames none of whose
/// checksum-fail bits (IP, UDP or TCP) is set: any fail bit, or another
/// protocol, leaves the check to the stack; a TCP or UDP frame with no
/// fail bit is vouched for.
pub proof fn lemma_rx_csum_fail_bits(opts1: u32)
    ensures
        opts1 & IP_FAIL != 0 || opts1 & UDP_FAIL != 0 || opts1 & TCP_FAIL != 0 ==> rx_csum_spec(
            opts1,
        ) == RxCsumStatus::Unchecked,
        opts1 & RX_PROTO_MASK != RX_PROTO_TCP && opts1 & RX_PROTO_MASK != RX_PROTO_UDP
            ==> rx_csum_spec(opts1) == RxCsumStatus::Unchecked,
        (opts1 & RX_PROTO_MASK == RX_PROTO_TCP || opts1 & RX_PROTO_MASK == RX_PROTO_UDP)
            && opts1 & IP_FAIL == 0 && opts1 & UDP_FAIL == 0 && opts1 & TCP_FAIL == 0
            ==> rx_csum_spec(opts1) == RxCsumStatus::Unnecessary,
{
    crate::bits::lemma_or_masks(opts1, 0, 0, 0);
}

/// Validates the RX checksum based on opts1.
pub fn rx_csum(opts1: u32) -> (r: RxCsumStatus)
    ensures
        r == rx_csum_spec(opts1),
{
    let status = opts1 & (RX_PROTO_MASK | RX_CS_FAIL_MASK);
    let ok = status == RX_PROTO_TCP || status == RX_PROTO_UDP;
    assert(ok == (((opts1 & 0x60000u32) == 0x20000u32 || (opts1 & 0x60000u32) == 0x40000u32)
        && (opts1 & 0x1c000u32) == 0)) by (bit_vector)
        requires
            status == opts1 & (0x60000u32 | 0x1c000u32),
            ok == (status == 0x20000u32 || status == 0x40000u32),
    ;
    if ok {
        RxCsumStatus::Unnecessary
    } else {
        RxCsumStatus::Unchecked
    }
}

/// `x` with its two bytes exchanged.
pub open spec fn swab16(x: u16) -> u16 {
    ((x % 256) * 256 + x / 256) as u16
}

/// The VLAN tag carried by the second option word `opts2`, if any.
pub open spec fn rx_vlan_spec(opts2: u32) -> Option<u16> {
    if opts2 & RX_VLAN_TAG != 0 {
        Some(swab16((opts2 % 0x1_0000) as u16))
    } else {
        None
    }
}

/// Extracts the VLAN tag from opts2 if the RxVlanTag bit is set; the
/// hardware stores the tag with its bytes swapped.
pub fn rx_vlan_tag(opts2: u32) -> (r: Option<u16>)
    ensures
        r == rx_vlan_spec(opts2),
{
    if opts2 & RX_VLAN_TAG != 0 {
        let raw = (opts2 & 0xFFFF) as u16;
        let swapped = (raw >> 8u16) | (raw << 8u16);
        proof {
            crate::bits::lemma_u32_halves(opts2);
        }
        assert(swapped == ((raw % 256) * 256 + raw / 256) as u16) by (bit_vector)
            requires
                swapped == (raw >> 8u16) | (raw << 8u16),
        ;
        Some(swapped)
    } else {
        None
    }
}

/// What the receive poll does with a descriptor whose first option word
/// it has read.
#[derive(Debug, Clone, Copy, PartialEq, Eq, Structural)]
pub enum RxVerdict {
    /// The NIC still owns the descriptor: stop polling.
    HwOwned,
    /// The frame carries a receive error (RxRES).
    Error,
    /// The frame is no longer than its FCS.
    Runt,
    /// The frame is not a single complete segment.
    Fragmented,
    /// A good frame of `len` bytes without its FCS.
    Packet { len: usize },
}

/// The size field of a receive status word.
pub open spec fn rx_frame_size(status: u32) -> int {
    (status % 0x4000) as int
}

/// The verdict of the receive poll on a descriptor with status `status`:
/// ownership first, then the error bit, then the length, then fragmentation.
pub open spec fn rtl_rx_verdict(status: u32) -> RxVerdict {
    if status & DESC_OWN != 0 {
        RxVerdict::HwOwned
    } else if status & RX_RES != 0 {
        RxVerdict::Error
    } else if rx_frame_size(status) <= ETH_FCS_LEN {
        RxVerdict::Runt
    } else if !(status & FIRST_FRAG != 0 && status & LAST_FRAG != 0) {
        RxVerdict::Fragmented
    } else {
        RxVerdict::Packet { len: (rx_frame_size(status) - ETH_FCS_LEN) as usize }
    }
}

/// The packet size field (bits 13:0) of a status word.
pub fn rx_pkt_size(status: u32) -> (r: usize)
    ensures
        r == rx_frame_size(status),
        r < 0x4000,
{
    let s = status & PKT_SIZE_MASK;
    assert(s == status % 0x4000 && s < 0x4000) by (bit_vector)
        requires
            s == status & 0x3FFFu32,
    ;
    s as usize
}

/// Classifies a descriptor for the receive poll.
pub fn rtl_rx_classify(status: u32) -> (r: RxVerdict)
    ensures
        r == rtl_rx_verdict(status),
{
    if status & DESC_OWN != 0 {
        return RxVerdict::HwOwned;
    }
    if status & RX_RES != 0 {
        return RxVerdict::Error;
    }
    let size = rx_pkt_size(status);
    if size <= ETH_FCS_LEN {
        return RxVerdict::Runt;
    }
    if crate::r8169::desc::is_fragmented_frame(status) {
        return RxVerdict::Fragmented;
    }
    RxVerdict::Packet { len: size - ETH_FCS_LEN }
}

/// Statistics collected during a single receive poll.
#[derive(Debug)]
pub struct RxPollStats {
    /// Number of packets successfully received.
    pub rx_packets: u32,
    /// Total bytes received (payload, excluding FCS).
    pub rx_bytes: u64,
    /// Number of error frames.
    pub rx_errors: u32,
    /// Number of length errors (runt / watchdog timeout).
    pub rx_length_errors: u32,
    /// Number of CRC errors.
    pub rx_crc_errors: u32,
    /// Number of dropped frames (fragmented, alloc failure, etc).
    pub rx_dropped: u32,
    /// Number of multicast packets received.
    pub rx_multicast: u32,
}

impl Default for RxPollStats {
    fn default() -> (r: Self)
        ensures
            r.rx_packets == 0,
            r.rx_bytes == 0,
            r.rx_errors == 0,
            r.rx_length_errors == 0,
            r.rx_crc_errors == 0,
            r.rx_dropped == 0,
            r.rx_multicast == 0,
    {
        RxPollStats {
            rx_packets: 0,
            rx_bytes: 0,
            rx_errors: 0,
            rx_length_errors: 0,
            rx_crc_errors: 0,
            rx_dropped: 0,
            rx_multicast: 0,
        }
    }
}

/// The statistics after a descriptor with status `status` and verdict `v`
/// was returned to the hardware without being delivered.
pub open spec fn rejected_stats(s: RxPollStats, status: u32, v: RxVerdict) -> RxPollStats {
    RxPollStats {
        rx_errors: (s.rx_errors + (if v == RxVerdict::Error {
            1int
        } else {
            0
        })) as u32,
        rx_length_errors: (s.rx_length_errors + (if (v == RxVerdict::Error && status & (RX_RWT
            | RX_RUNT) != 0) || v == RxVerdict::Fragmented {
            1int
        } else {
            0
        })) as u32,
        rx_crc_errors: (s.rx_crc_errors + (if v == RxVerdict::Error && status & RX_CRC != 0 {
            1int
        } else {
            0
        })) as u32,
        rx_dropped: (s.rx_dropped + (if v == RxVerdict::Runt || v == RxVerdict::Fragmented {
            1int
        } else {
            0
        })) as u32,
        ..s
    }
}

/// The statistics after a good frame of `len` bytes was delivered, or
/// dropped when its data could not be read.
pub open spec fn packet_stats(s: RxPollStats, len: int, delivered: bool) -> RxPollStats {
    if delivered {
        RxPollStats {
            rx_packets: (s.rx_packets + 1) as u32,
            rx_bytes: (s.rx_bytes + len) as u64,
            ..s
        }
    } else {
        RxPollStats { rx_dropped: (s.rx_dropped + 1) as u32, ..s }
    }
}

impl RxPollStats {
    /// All counters at zero.
    pub open spec fn zero_spec() -> RxPollStats {
        RxPollStats {
            rx_packets: 0,
            rx_bytes: 0,
            rx_errors: 0,
            rx_length_errors: 0,
            rx_crc_errors: 0,
            rx_dropped: 0,
            rx_multicast: 0,
        }
    }

    /// None of the counters is at its limit, so one more descriptor can be
    /// accounted for.
    pub open spec fn has_room(&self) -> bool {
        &&& self.rx_packets < u32::MAX
        &&& self.rx_bytes <= u64::MAX - 0x4000
        &&& self.rx_errors < u32::MAX
        &&& self.rx_length_errors < u32::MAX
        &&& self.rx_crc_errors < u32::MAX
        &&& self.rx_dropped < u32::MAX
    }

    /// Accounts for a descriptor the poll returns to the hardware without
    /// delivering it: errors count as errors, with length and CRC errors
    /// broken out by their status bits; runts count as drops; fragmented
    /// frames count as drops and as length errors.
    pub fn record_rejected(&mut self, status: u32, verdict: RxVerdict)
        requires
            old(self).has_room(),
        ensures
            final(self).rx_packets == old(self).rx_packets,
            final(self).rx_bytes == old(self).rx_bytes,
            final(self).rx_multicast == old(self).rx_multicast,
            final(self).rx_errors == old(self).rx_errors + (if verdict == RxVerdict::Error {
                1int
            } else {
                0
            }),
            final(self).rx_length_errors == old(self).rx_length_errors + (if (verdict
                == RxVerdict::Error && status & (RX_RWT | RX_RUNT) != 0) || verdict
                == RxVerdict::Fragmented {
                1int
            } else {
                0
            }),
            final(self).rx_crc_errors == old(self).rx_crc_errors + (if verdict
                == RxVerdict::Error && status & RX_CRC != 0 {
                1int
            } else {
                0
            }),
            final(self).rx_dropped == old(self).rx_dropped + (if verdict == RxVerdict::Runt
                || verdict == RxVerdict::Fragmented {
                1int
            } else {
                0
            }),
            *final(self) == rejected_stats(*old(self), status, verdict),
    {
        match verdict {
            RxVerdict::Error => {
                self.rx_errors = self.rx_errors + 1;
                if status & (RX_RWT | RX_RUNT) != 0 {
                    self.rx_length_errors = self.rx_length_errors + 1;
                }
                if status & RX_CRC != 0 {
                    self.rx_crc_errors = self.rx_crc_errors + 1;
                }
            },
            RxVerdict::Runt => {
                self.rx_dropped = self.rx_dropped + 1;
            },
            RxVerdict::Fragmented => {
                self.rx_dropped = self.rx_dropped + 1;
                self.rx_length_errors = self.rx_length_errors + 1;
            },
            _ => {},
        }
    }

    /// Accounts for a good frame of `len` bytes: a delivered one counts as
    /// a packet and its bytes, one whose data could not be copied as a drop.
    pub fn record_packet(&mut self, len: usize, delivered: bool)
        requires
            old(self).has_room(),
            len < 0x4000,
        ensures
            final(self).rx_packets == old(self).rx_packets + (if delivered {
                1int
            } else {
                0
            }),
            final(self).rx_bytes == old(self).rx_bytes + (if delivered {
                len as int
            } else {
                0
            }),
            final(self).rx_dropped == old(self).rx_dropped + (if delivered {
                0int
            } else {
                1
            }),
            final(self).rx_errors == old(self).rx_errors,
            final(self).rx_length_errors == old(self).rx_length_errors,
            final(self).rx_crc_errors == old(self).rx_crc_errors,
            final(self).rx_multicast == old(self).rx_multicast,
            *final(self) == packet_stats(*old(self), len as int, delivered),
    {
        if delivered {
            self.rx_packets = self.rx_packets + 1;
            self.rx_bytes = self.rx_bytes + len as u64;
        } else {
            self.rx_dropped = self.rx_dropped + 1;
        }
    }
}

/// Outcome of processing a single RX descriptor.
pub enum RxOutcome {
    /// A complete packet was received, with its data copied into `packet`.
    Packet {
        /// The raw packet bytes (after FCS removal).
        packet: Vec<u8>,
        /// Hardware checksum status.
        csum: RxCsumStatus,
        /// VLAN tag if present.
        vlan: Option<u16>,
    },
    /// The descriptor was still owned by hardware -- stop polling.
    HwOwned,
    /// The descriptor contained an error or fragment -- skip it.
    Skipped,
}

/// The receive ring's software state: one optional buffer per descriptor
/// slot and the consumer index `cur_rx`, counted modulo 2^32.
pub struct RxRing<B> {
    /// Per-slot receive buffers.
    pub slots: Vec<Option<B>>,
    /// Current receive index (consumer side).
    pub cur_rx: u32,
}

impl<B> RxRing<B> {
    /// The ring has one slot per descriptor.
    pub open spec fn wf(&self) -> bool {
        self.slots.len() == NUM_RX_DESC
    }

    /// The slot that `cur_rx` designates.
    pub open spec fn entry_spec(&self) -> int {
        (self.cur_rx as int) % (NUM_RX_DESC as int)
    }

    /// A ring with every slot empty and the consumer index at zero.
    pub fn new() -> (r: Self)
        ensures
            r.wf(),
            r.cur_rx == 0,
            forall|i: int| 0 <= i < NUM_RX_DESC ==> r.slots@[i] is None,
    {
        let mut slots: Vec<Option<B>> = Vec::new();
        let mut i: usize = 0;
        while i < NUM_RX_DESC
            invariant
                i <= NUM_RX_DESC,
                slots.len() == i,
                forall|j: int| 0 <= j < i ==> slots@[j] is None,
            decreases NUM_RX_DESC - i,
        {
            slots.push(None);
            i = i + 1;
        }
        RxRing { slots, cur_rx: 0 }
    }

    /// The descriptor slot the next completed frame will be in.
    pub fn entry(&self) -> (r: usize)
        ensures
            r == self.entry_spec(),
            r < NUM_RX_DESC,
    {
        (self.cur_rx as usize) % NUM_RX_DESC
    }

    /// Moves the consumer index to the next descriptor.
    pub fn advance(&mut self)
        ensures
            final(self).cur_rx == old(self).cur_rx.wrapping_add(1),
            final(self).slots == old(self).slots,
    {
        self.cur_rx = self.cur_rx.wrapping_add(1);
    }

    /// Resets the consumer index to zero.
    pub fn reset_index(&mut self)
        ensures
            final(self).cur_rx == 0,
            final(self).slots == old(self).slots,
    {
        self.cur_rx = 0;
    }

    /// Puts a buffer into a slot.
    pub fn put(&mut self, index: usize, buf: B)
        requires
            old(self).wf(),
            index < NUM_RX_DESC,
        ensures
            final(self).wf(),
            final(self).slots@ == old(self).slots@.update(index as int, Some(buf)),
            final(self).cur_rx == old(self).cur_rx,
    {
        self.slots.set(index, Some(buf));
    }

    /// Takes the buffer out of a slot, leaving it empty.
    pub fn take(&mut self, index: usize) -> (r: Option<B>)
        requires
            old(self).wf(),
            index < NUM_RX_DESC,
        ensures
            final(self).wf(),
            r == old(self).slots@[index as int],
            final(self).slots@ == old(self).slots@.update(index as int, None),
            final(self).cur_rx == old(self).cur_rx,
    {
        self.slots[index].take()
    }

    /// The buffer in a slot, if any.
    pub fn slot(&self, index: usize) -> (r: &Option<B>)
        requires
            self.wf(),
            index < NUM_RX_DESC,
        ensures
            *r == self.slots@[index as int],
    {
        &self.slots[index]
    }

    /// Empties every slot that holds a buffer and returns, in increasing
    /// order, the indexes of those slots, whose descriptors are then zeroed.
    pub fn clear(&mut self) -> (r: Vec<usize>)
        requires
            old(self).wf(),
        ensures
            final(self).wf(),
            final(self).cur_rx == old(self).cur_rx,
            forall|i: int| 0 <= i < NUM_RX_DESC ==> final(self).slots@[i] is None,
            forall|k: int| 0 <= k < r.len() ==> old(self).slots@[r@[k] as int] is Some,
            forall|i: int|
                0 <= i < NUM_RX_DESC && (old(self).slots@[i] is Some) ==> r@.contains(
                    i as usize,
                ),
            forall|k: int, l: int| 0 <= k < l < r.len() ==> r@[k] < r@[l],
    {
        let mut cleared: Vec<usize> = Vec::new();
        let mut i: usize = 0;
        while i < NUM_RX_DESC
            invariant
                i <= NUM_RX_DESC,
                self.wf(),
                self.cur_rx == old(self).cur_rx,
                forall|j: int| 0 <= j < i ==> self.slots@[j] is None,
                forall|j: int| i <= j < NUM_RX_DESC ==> self.slots@[j] == old(self).slots@[j],
                forall|k: int| 0 <= k < cleared.len() ==> cleared@[k] < i,
                forall|k: int|
                    0 <= k < cleared.len() ==> old(self).slots@[cleared@[k] as int] is Some,
                forall|j: int|
                    0 <= j < i && (old(self).slots@[j] is Some) ==> cleared@.contains(
                        j as usize,
                    ),
                forall|k: int, l: int| 0 <= k < l < cleared.len() ==> cleared@[k] < cleared@[l],
            decreases NUM_RX_DESC - i,
        {
            if self.slots[i].is_some() {
                self.slots.set(i, None);
                let ghost before = cleared@;
                cleared.push(i);
                assert(cleared@[cleared.len() - 1] == i);
                assert forall|j: int|
                    0 <= j < i + 1 && (old(self).slots@[j] is Some) implies cleared@.contains(
                    j as usize,
                ) by {
                    if j < i {
                        let k = choose|k: int| 0 <= k < before.len() && before[k] == j as usize;
                        assert(cleared@[k] == j as usize);
                    } else {
                        assert(cleared@[cleared.len() - 1] == j as usize);
                    }
                }
            }
            i = i + 1;
        }
        cleared
    }
}

impl<B> RxRing<B> {
    /// One descriptor `desc` of the receive poll, `packet` being the frame
    /// data read from the slot's buffer (`None` when the slot had no buffer
    /// or the read failed). A descriptor the NIC owns ends the poll and
    /// changes nothing. Any other one is consumed: the consumer index
    /// advances and the descriptor to write back, which returns it to the
    /// NIC, is handed out with the outcome. Errors, runts and fragments are
    /// counted and skipped; a good frame is delivered with its checksum
    /// status and VLAN tag when exactly its bytes were read, and counted as
    /// dropped otherwise.
    pub fn rtl_rx_step(
        &mut self,
        stats: &mut RxPollStats,
        desc: RawDesc,
        packet: Option<Vec<u8>>,
    ) -> (r: (RxOutcome, Option<RawDesc>))
        requires
            old(stats).has_room(),
        ensures
            ({
                let status = desc.opts1;
                let v = rtl_rx_verdict(status);
                match v {
                    RxVerdict::HwOwned => {
                        &&& r.0 is HwOwned
                        &&& r.1 is None
                        &&& final(self).cur_rx == old(self).cur_rx
                        &&& final(self).slots == old(self).slots
                        &&& *final(stats) == *old(stats)
                    },
                    RxVerdict::Packet { len } => {
                        let ok = packet matches Some(d) && d@.len() == len;
                        &&& final(self).cur_rx == old(self).cur_rx.wrapping_add(1)
                        &&& final(self).slots == old(self).slots
                        &&& *final(stats) == packet_stats(*old(stats), len as int, ok)
                        &&& r.1 == Some(handed_back(desc))
                        &&& ok ==> r.0 == (RxOutcome::Packet {
                            packet: packet->0,
                            csum: rx_csum_spec(status),
                            vlan: rx_vlan_spec(desc.opts2),
                        })
                        &&& !ok ==> r.0 is Skipped
                    },
                    _ => {
                        &&& r.0 is Skipped
                        &&& r.1 == Some(handed_back(desc))
                        &&& final(self).cur_rx == old(self).cur_rx.wrapping_add(1)
                        &&& final(self).slots == old(self).slots
                        &&& *final(stats) == rejected_stats(*old(stats), status, v)
                    },
                }
            }),
    {
        let status = desc.opts1;
        let v = rtl_rx_classify(status);
        match v {
            RxVerdict::HwOwned => (RxOutcome::HwOwned, None),
            RxVerdict::Packet { len } => {
                proof {
                    assert(len < 0x4000);
                }
                self.advance();
                let back = mark_to_asic(desc);
                match packet {
                    Some(data) => {
                        if data.len() == len {
                            stats.record_packet(len, true);
                            (
                                RxOutcome::Packet {
                                    packet: data,
                                    csum: rx_csum(status),
                                    vlan: rx_vlan_tag(desc.opts2),
                                },
                                Some(back),
                            )
                        } else {
                            stats.record_packet(len, false);
                            (RxOutcome::Skipped, Some(back))
                        }
                    },
                    None => {
                        stats.record_packet(len, false);
                        (RxOutcome::Skipped, Some(back))
                    },
                }
            },
            _ => {
                stats.record_rejected(status, v);
                self.advance();
                (RxOutcome::Skipped, Some(mark_to_asic(desc)))
            },
        }
    }
}

/// The total number of bytes of the packets in `s`.
pub open spec fn total_len(s: Seq<Vec<u8>>) -> int
    decreases s.len(),
{
    if s.len() == 0 {
        0
    } else {
        total_len(s.drop_last()) + s.last()@.len()
    }
}

/// A receive poll of at most `budget` descriptors: how many were consumed,
/// whether the poll has met a descriptor it cannot consume, the packets
/// delivered in descriptor order and the poll statistics.
pub struct RxPoll {
    pub budget: u32,
    pub consumed: u32,
    pub stopped: bool,
    pub packets: Vec<Vec<u8>>,
    pub stats: RxPollStats,
}

impl RxPoll {
    /// Every consumed descriptor is exactly one of a delivered packet, an
    /// error or a drop, and never more than the budget are consumed; the
    /// delivered packets are the counted ones and their bytes the counted
    /// bytes; CRC errors are errors and length errors are errors or drops.
    pub open spec fn wf(&self) -> bool {
        let st = self.stats;
        &&& self.consumed <= self.budget
        &&& self.consumed == st.rx_packets + st.rx_errors + st.rx_dropped
        &&& self.packets.len() == st.rx_packets
        &&& st.rx_bytes == total_len(self.packets@)
        &&& st.rx_bytes <= st.rx_packets * 0x4000
        &&& st.rx_crc_errors <= st.rx_errors
        &&& st.rx_length_errors <= st.rx_errors + st.rx_dropped
    }

    /// Whether the poll is over: a descriptor could not be consumed or the
    /// budget is spent.
    pub open spec fn done(&self) -> bool {
        self.stopped || self.consumed == self.budget
    }

    /// A poll of at most `budget` descriptors that has consumed none.
    pub fn new(budget: u32) -> (r: Self)
        ensures
            r.wf(),
            r.budget == budget,
            r.consumed == 0,
            !r.stopped,
            r.packets@.len() == 0,
            r.stats == RxPollStats::zero_spec(),
    {
        let r = RxPoll {
            budget,
            consumed: 0,
            stopped: false,
            packets: Vec::new(),
            stats: RxPollStats::default(),
        };
        assert(r.packets@ =~= Seq::<Vec<u8>>::empty());
        r
    }

    /// The ring slot whose descriptor the poll examines next, or `None`
    /// when the poll is over.
    pub fn next_entry<B>(&self, ring: &RxRing<B>) -> (r: Option<usize>)
        ensures
            self.done() ==> r is None,
            !self.done() ==> r == Some(ring.entry_spec() as usize),
    {
        if self.stopped || self.consumed == self.budget {
            None
        } else {
            Some(ring.entry())
        }
    }

    /// Takes one descriptor of the poll: `desc` is the descriptor read at
    /// the slot `next_entry` gave (`None` when it could not be read) and
    /// `packet` the frame data read from the slot's buffer. An unreadable
    /// descriptor or one the NIC owns ends the poll. Any other one is
    /// consumed as `RxRing::rtl_rx_step` does, a delivered packet is
    /// appended, and the descriptor to write back is returned.
    pub fn step<B>(
        &mut self,
        ring: &mut RxRing<B>,
        desc: Option<RawDesc>,
        packet: Option<Vec<u8>>,
    ) -> (r: Option<RawDesc>)
        requires
            old(self).wf(),
            !old(self).done(),
        ensures
            final(self).wf(),
            final(self).budget == old(self).budget,
            final(ring).slots == old(ring).slots,
            ({
                let ends = match desc {
                    None => true,
                    Some(d) => rtl_rx_verdict(d.opts1) is HwOwned,
                };
                if ends {
                    &&& r is None
                    &&& final(self).stopped
                    &&& final(self).consumed == old(self).consumed
                    &&& final(self).packets == old(self).packets
                    &&& final(self).stats == old(self).stats
                    &&& final(ring).cur_rx == old(ring).cur_rx
                } else {
                    let d = desc->0;
                    let v = rtl_rx_verdict(d.opts1);
                    &&& r == Some(handed_back(d))
                    &&& !final(self).stopped
                    &&& final(self).consumed == old(self).consumed + 1
                    &&& final(ring).cur_rx == old(ring).cur_rx.wrapping_add(1)
                    &&& match v {
                        RxVerdict::Packet { len } => {
                            let ok = packet matches Some(p) && p@.len() == len;
                            &&& final(self).stats == packet_stats(old(self).stats, len as int, ok)
                            &&& ok ==> final(self).packets@ == old(self).packets@.push(packet->0)
                            &&& !ok ==> final(self).packets == old(self).packets
                        },
                        _ => {
                            &&& final(self).stats == rejected_stats(old(self).stats, d.opts1, v)
                            &&& final(self).packets == old(self).packets
                        },
                    }
                }
            }),
    {
        let d = match desc {
            Some(d) => d,
            None => {
                self.stopped = true;
                return None;
            },
        };
        let ghost old_packets = self.packets@;
        let (outcome, back) = ring.rtl_rx_step(&mut self.stats, d, packet);
        match outcome {
            RxOutcome::HwOwned => {
                self.stopped = true;
                None
            },
            RxOutcome::Packet { packet, .. } => {
                let ghost p = packet;
                self.packets.push(packet);
                proof {
                    assert(self.packets@.drop_last() =~= old_packets);
                    assert(self.packets@.last() == p);
                }
                self.consumed = self.consumed + 1;
                back
            },
            RxOutcome::Skipped => {
                self.consumed = self.consumed + 1;
                back
            },
        }
    }

    /// Ends the poll, handing out the delivered packets and the statistics.
    /// Over the whole poll, the consumed descriptors are the delivered
    /// packets, errors and drops together and at most the budget; the poll
    /// spends less than its budget only when it met a descriptor it could
    /// not consume; the statistics count the delivered packets and their
    /// bytes, and CRC errors are errors.
    pub fn finish(self) -> (r: (Vec<Vec<u8>>, RxPollStats))
        requires
            self.wf(),
        ensures
            r.0 == self.packets,
            r.1 == self.stats,
            self.consumed == r.1.rx_packets + r.1.rx_errors + r.1.rx_dropped,
            self.consumed <= self.budget,
            self.done() && self.consumed < self.budget ==> self.stopped,
            r.0.len() == r.1.rx_packets,
            r.1.rx_bytes == total_len(r.0@),
            r.1.rx_crc_errors <= r.1.rx_errors,
    {
        (self.packets, self.stats)
    }
}

/// The packet `receive` returns after a poll of one descriptor: the
/// delivered frame, or `NotReady`.
pub fn receive_one(outcome: RxOutcome) -> (r: Result<Vec<u8>, crate::net::NetError>)
    ensures
        outcome matches RxOutcome::Packet { packet, .. } ==> r == Ok::<
            Vec<u8>,
            crate::net::NetError,
        >(packet),
        !(outcome is Packet) ==> r == Err::<Vec<u8>, crate::net::NetError>(
            crate::net::NetError::NotReady,
        ),
{
    match outcome {
        RxOutcome::Packet { packet, .. } => Ok(packet),
        _ => Err(crate::net::NetError::NotReady),
    }
}

/// The descriptor for a receive slot that hands the buffer at `dma_addr`
/// to the NIC: it owns the descriptor and may write up to `buf_size`
/// bytes; the last slot also carries RingEnd.
pub fn rx_slot_desc(index: usize, buf_size: u32, dma_addr: u64) -> (d: RawDesc)
    requires
        index < NUM_RX_DESC,
        buf_size < 0x4000,
    ensures
        d.opts1 == (if index == NUM_RX_DESC - 1 {
            buf_size | DESC_OWN | crate::r8169::regs::RING_END
        } else {
            buf_size | DESC_OWN
        }),
        d.opts2 == 0,
        d.addr_lo == crate::bytes::addr_low(dma_addr),
        d.addr_hi == crate::bytes::addr_high(dma_addr),
{
    let mut opts1 = buf_size | DESC_OWN;
    if index == NUM_RX_DESC - 1 {
        opts1 = opts1 | crate::r8169::regs::RING_END;
    }
    RawDesc::with_buffer(opts1, 0, dma_addr)
}

/// The descriptor written when a slot gets a fresh buffer at `dma_addr`
/// before it is handed to the NIC.
pub fn rx_data_desc(dma_addr: u64) -> (d: RawDesc)
    ensures
        d.opts1 == 0,
        d.opts2 == 0,
        d.addr_lo == crate::bytes::addr_low(dma_addr),
        d.addr_hi == crate::bytes::addr_high(dma_addr),
{
    RawDesc::with_buffer(0, 0, dma_addr)
}

/// The RxMaxSize register value: `R8169_RX_BUF_SIZE + 1`.
pub fn rx_max_size() -> (r: u16)
    ensures
        r == R8169_RX_BUF_SIZE + 1,
{
    (R8169_RX_BUF_SIZE + 1) as u16
}

/// The RxConfig value that stops the NIC accepting frames: every accept
/// bit cleared, everything else kept.
pub fn rx_close_config(rx_config: u32) -> (r: u32)
    ensures
        r == rx_config & !crate::r8169::regs::RX_CONFIG_ACCEPT_MASK,
{
    rx_config & !crate::r8169::regs::RX_CONFIG_ACCEPT_MASK
}

/// The register writes that program the RX descriptor ring address: the
/// high half first, then the low half.
pub fn set_rx_desc_addr(dma_addr: u64) -> (w: [(u16, u32); 2])
    ensures
        w@ == seq![
            (crate::r8169::regs::RX_DESC_ADDR_HIGH, crate::bytes::addr_high(dma_addr)),
            (crate::r8169::regs::RX_DESC_ADDR_LOW, crate::bytes::addr_low(dma_addr)),
        ],
{
    let (lo, hi) = crate::bytes::split_dma_addr(dma_addr);
    let w = [(crate::r8169::regs::RX_DESC_ADDR_HIGH, hi), (crate::r8169::regs::RX_DESC_ADDR_LOW, lo)];
    assert(w@ =~= seq![
        (crate::r8169::regs::RX_DESC_ADDR_HIGH, crate::bytes::addr_high(dma_addr)),
        (crate::r8169::regs::RX_DESC_ADDR_LOW, crate::bytes::addr_low(dma_addr)),
    ]);
    w
}

} // verus!
