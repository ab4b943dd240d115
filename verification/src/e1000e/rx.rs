//! Receive path of the 82574L: the checksum verdict, the receive register
//! programming, the refilling of empty slots and the decision taken on each
//! written-back descriptor while cleaning the ring.

use vstd::prelude::*;

use crate::e1000e::desc::{
    lemma_wrap_next_mod, wrap_next, DescRing, RxDescExt, RxDescRead, RXDEXT_ERR_FRAME_MASK,
    RXDEXT_STAT_DD, RXDEXT_STAT_EOP, RXDEXT_STAT_IXSM, RXDEXT_STAT_TCPCS, RXDEXT_STAT_UDPCS,
};
use crate::e1000e::regs::{
    CTRL_EXT, CTRL_EXT_IAME, IAM, RADV, RCTL, RCTL_BAM, RCTL_BSEX, RCTL_EN, RCTL_LPE, RCTL_SBP,
    RCTL_SECRC, RCTL_SZ_2048, RDBAH, RDBAL, RDH, RDLEN, RDT, RDTR, RFCTL, RFCTL_EXTEN, RXCSUM,
    RXCSUM_TUOFL, RXDCTL,
};

verus! {

/// Shift of the multicast offset field in RCTL.
pub const RCTL_MO_SHIFT: u32 = 12;
/// No loopback.
pub const RCTL_LBM_NO: u32 = 0;
/// Receive descriptor minimum threshold: half of the ring.
pub const RCTL_RDMTS_HALF: u32 = 0;
/// Buffer size field value for 4096-byte buffers (also the field's mask).
pub const RCTL_SZ_4096: u32 = 0x0003_0000;

/// RXDCTL value for DMA burst mode: descriptor granularity, write-back
/// threshold 4, host threshold 4, prefetch threshold 0x20.
pub const RXDCTL_DMA_BURST_ENABLE: u32 = 0x0104_0420;

/// The hardware tail is advanced when the refilled slot index is a multiple
/// of this, and cleaning refills in batches of this many slots.
pub const RX_BUFFER_WRITE: u16 = 16;

/// Ethernet CRC length in bytes.
pub const ETH_FCS_LEN: u16 = 4;

/// TCP/UDP checksum error.
pub const RXD_ERR_TCPE: u32 = 0x2000_0000;
/// IP checksum error.
pub const RXD_ERR_IPE: u32 = 0x4000_0000;

/// Outcome of hardware receive checksum verification.
#[derive(Debug, Clone, Copy, PartialEq, Eq, Structural)]
pub enum RxChecksumResult {
    /// Checksum was not computed by hardware (caller must verify in software).
    NoChecksum,
    /// Hardware detected a checksum error.
    Error,
    /// Hardware verified the checksum is correct.
    Unnecessary,
}

/// The checksum verdict for the write-back status word `status_error`.
pub open spec fn rx_checksum_spec(status_error: u32, rx_csum_enabled: bool) -> RxChecksumResult {
    if !rx_csum_enabled || status_error & RXDEXT_STAT_IXSM != 0 {
        RxChecksumResult::NoChecksum
    } else if status_error & (RXD_ERR_TCPE | RXD_ERR_IPE) != 0 {
        RxChecksumResult::Error
    } else if status_error & (RXDEXT_STAT_TCPCS | RXDEXT_STAT_UDPCS) == 0 {
        RxChecksumResult::NoChecksum
    } else {
        RxChecksumResult::Unnecessary
    }
}

/// Checks the hardware checksum offload result of an extended RX descriptor:
/// nothing when offload is off or the hardware was told to ignore the
/// checksum, an error when a TCP/UDP or IP checksum error bit is set,
/// nothing when neither a TCP nor a UDP checksum was computed, and a
/// verified checksum otherwise.
pub fn rx_checksum(status_error: u32, rx_csum_enabled: bool) -> (r: RxChecksumResult)
    ensures
        r == rx_checksum_spec(status_error, rx_csum_enabled),
{
    if !rx_csum_enabled {
        return RxChecksumResult::NoChecksum;
    }
    if status_error & RXDEXT_STAT_IXSM != 0 {
        return RxChecksumResult::NoChecksum;
    }
    if status_error & (RXD_ERR_TCPE | RXD_ERR_IPE) != 0 {
        return RxChecksumResult::Error;
    }
    if status_error & (RXDEXT_STAT_TCPCS | RXDEXT_STAT_UDPCS) == 0 {
        return RxChecksumResult::NoChecksum;
    }
    RxChecksumResult::Unnecessary
}

/// Configuration for RX interrupt coalescing.
#[derive(Debug, Clone, Copy)]
pub struct RxCoalesceConfig {
    /// Receive interrupt delay in microseconds (RDTR).
    pub rx_int_delay: u32,
    /// Receive interrupt absolute delay in microseconds (RADV).
    pub rx_abs_int_delay: u32,
}

impl Default for RxCoalesceConfig {
    /// No receive delay and an absolute delay of 8.
    fn default() -> (r: Self)
        ensures
            r.rx_int_delay == 0,
            r.rx_abs_int_delay == 8,
    {
        RxCoalesceConfig { rx_int_delay: 0, rx_abs_int_delay: 8 }
    }
}

/// One refilled slot: its index, the read-format descriptor to write there
/// and, when the index is a multiple of `RX_BUFFER_WRITE`, the value to
/// write to RDT.
pub struct RxRefill {
    pub index: u16,
    pub desc: RxDescRead,
    pub tail: Option<u32>,
}

/// The refill record for slot `index` given a buffer at `daddr`.
pub open spec fn refill_at(index: int, daddr: u64) -> RxRefill {
    RxRefill {
        index: index as u16,
        desc: RxDescRead { buffer_addr: daddr, reserved: 0 },
        tail: if index % (RX_BUFFER_WRITE as int) == 0 {
            Some(index as u32)
        } else {
            None
        },
    }
}

/// The slots after placing `bufs`, in order, into the slots from `start`
/// on, wrapping around a ring of `count` slots.
pub open spec fn refilled<B>(s: Seq<Option<B>>, start: int, count: int, bufs: Seq<(B, u64)>) -> Seq<
    Option<B>,
>
    decreases bufs.len(),
{
    if bufs.len() == 0 {
        s
    } else {
        refilled(s, start, count, bufs.drop_last()).update(
            (start + bufs.len() - 1) % count,
            Some(bufs.last().0),
        )
    }
}

/// Two positions less than a ring apart fall in different slots.
proof fn lemma_distinct_slots(start: int, j: int, i: int, count: int)
    requires
        0 <= start,
        0 <= j < i,
        i - j < count,
    ensures
        (start + j) % count != (start + i) % count,
{
    vstd::arithmetic::div_mod::lemma_mod_equivalence(start + i, start + j, count);
    vstd::arithmetic::div_mod::lemma_small_mod((i - j) as nat, count as nat);
}

/// The slot of the `j`-th position after `start` in a ring of `count` slots.
pub open spec fn ring_slot(start: int, j: int, count: int) -> int {
    (start + j) % count
}

/// The buffers of a refill land in consecutive ring slots: with no more
/// buffers than slots, buffer `j` is in slot `ring_slot(start, j, count)`
/// and every other slot keeps what it held.
pub proof fn lemma_refilled_slots<B>(s: Seq<Option<B>>, start: int, count: int, bufs: Seq<(B, u64)>)
    requires
        0 <= start,
        0 < count,
        s.len() == count,
        bufs.len() <= count,
    ensures
        refilled(s, start, count, bufs).len() == count,
        forall|j: int|
            0 <= j < bufs.len() ==> refilled(s, start, count, bufs)[#[trigger] ring_slot(
                start,
                j,
                count,
            )] == Some(bufs[j].0),
        forall|i: int|
            0 <= i < count && (forall|j: int|
                0 <= j < bufs.len() ==> #[trigger] ring_slot(start, j, count) != i) ==> #[trigger] refilled(
                s,
                start,
                count,
                bufs,
            )[i] == s[i],
    decreases bufs.len(),
{
    let n = bufs.len() as int;
    if n > 0 {
        let p = bufs.drop_last();
        lemma_refilled_slots(s, start, count, p);
        let prev = refilled(s, start, count, p);
        let k = ring_slot(start, n - 1, count);
        let r = refilled(s, start, count, bufs);
        assert(r == prev.update(k, Some(bufs.last().0)));
        assert(0 <= k < count) by {
            vstd::arithmetic::div_mod::lemma_mod_pos_bound(start + n - 1, count);
        }
        assert forall|j: int| 0 <= j < n implies r[#[trigger] ring_slot(start, j, count)] == Some(
            bufs[j].0,
        ) by {
            if j < n - 1 {
                lemma_distinct_slots(start, j, n - 1, count);
                assert(prev[ring_slot(start, j, count)] == Some(p[j].0));
            }
        }
        assert forall|i: int|
            0 <= i < count && (forall|j: int|
                0 <= j < n ==> #[trigger] ring_slot(start, j, count) != i) implies #[trigger] r[i]
            == s[i] by {
            assert(ring_slot(start, n - 1, count) != i);
            assert forall|j: int| 0 <= j < p.len() implies #[trigger] ring_slot(start, j, count)
                != i by {
                assert(0 <= j < n);
            }
        }
    }
}

/// The number of payload bytes of a frame whose descriptor reports `length`:
/// the CRC is subtracted unless the hardware already stripped it.
pub open spec fn payload_len(length: u16, crc_stripping: bool) -> int {
    if crc_stripping {
        length as int
    } else if length >= ETH_FCS_LEN {
        length - ETH_FCS_LEN
    } else {
        0
    }
}

/// With CRC stripping on, a delivered frame is exactly as long as its
/// descriptor says; with it off, the four CRC bytes come off a frame that
/// has them and a shorter one carries nothing. Stripping in hardware never
/// gives a shorter frame than stripping in software.
pub proof fn lemma_payload_len_crc(length: u16)
    ensures
        payload_len(length, true) == length as int,
        length >= 4 ==> payload_len(length, false) == length - 4,
        length < 4 ==> payload_len(length, false) == 0,
        payload_len(length, false) <= payload_len(length, true),
{
}

/// The counters of one cleaning pass.
#[derive(Debug, Clone, Copy)]
pub struct RxCleanState {
    /// Descriptors consumed in this pass.
    pub work_done: u32,
    /// Slots emptied since the last batch refill.
    pub cleaned_count: u16,
}

/// What cleaning the descriptor at next-to-clean decided.
pub enum RxCleanStep<B> {
    /// The budget is spent or the hardware has not written the descriptor
    /// back: the pass ends.
    Stop,
    /// The slot had no buffer: it is skipped.
    Skip,
    /// The buffer is dropped (part of a multi-descriptor frame, or a frame
    /// error); `refill` slots are to be refilled now (0 for none).
    Drop { buf: B, refill: u16 },
    /// A frame of `len` payload bytes arrived in `buf`; `refill` slots are to
    /// be refilled now (0 for none).
    Deliver { buf: B, len: usize, refill: u16 },
}

/// Manages the RX descriptor ring and associated hardware state.
pub struct RxRing<B> {
    /// The underlying descriptor ring.
    pub ring: DescRing<B>,
    /// Whether hardware RX checksum offload is enabled.
    pub rx_csum_enabled: bool,
    /// Whether CRC stripping is enabled.
    pub crc_stripping: bool,
    /// Whether DMA burst mode is enabled.
    pub dma_burst: bool,
    /// Whether a multi-descriptor frame is being discarded.
    pub is_discarding: bool,
}

/// The receive register writes, in order, of `configure_rx`.
pub open spec fn configure_rx_spec(
    rctl: u32,
    ctrl_ext: u32,
    rxcsum: u32,
    dma_addr: u64,
    ring_bytes: u32,
    coalesce: RxCoalesceConfig,
    dma_burst: bool,
    rx_csum_enabled: bool,
) -> Seq<(usize, u32)> {
    seq![(RCTL, rctl & !RCTL_EN)] + (if dma_burst {
        seq![(RXDCTL, RXDCTL_DMA_BURST_ENABLE)]
    } else {
        Seq::empty()
    }) + seq![
        (RDTR, coalesce.rx_int_delay),
        (RADV, coalesce.rx_abs_int_delay),
        (CTRL_EXT, ctrl_ext | CTRL_EXT_IAME),
        (IAM, 0xFFFF_FFFFu32),
        (RDBAL, (dma_addr % 0x1_0000_0000) as u32),
        (RDBAH, (dma_addr / 0x1_0000_0000) as u32),
        (RDLEN, ring_bytes),
        (RDH, 0u32),
        (RDT, 0u32),
        (RXCSUM, if rx_csum_enabled {
            rxcsum | RXCSUM_TUOFL
        } else {
            rxcsum & !RXCSUM_TUOFL
        }),
        (RCTL, rctl),
    ]
}

/// The RCTL value of `setup_rctl` from the current value `rctl`: receiver
/// on, broadcast accepted, multicast offset `mc_filter_type`, bad and long
/// packets refused, CRC stripped when asked, 2048-byte buffers.
pub open spec fn setup_rctl_value(rctl: u32, mc_filter_type: u32, crc_stripping: bool) -> u32 {
    let a = (rctl & !(3u32 << RCTL_MO_SHIFT)) | RCTL_EN | RCTL_BAM | RCTL_LBM_NO | RCTL_RDMTS_HALF
        | (mc_filter_type << RCTL_MO_SHIFT);
    let b = a & !RCTL_SBP & !RCTL_LPE;
    let c = if crc_stripping {
        b | RCTL_SECRC
    } else {
        b
    };
    (c & !RCTL_SZ_4096 & !RCTL_BSEX) | RCTL_SZ_2048
}

impl<B> RxRing<B> {
    /// A well-formed ring of at most 32768 descriptors.
    pub open spec fn wf(&self) -> bool {
        &&& self.ring.wf()
        &&& self.ring.count <= 0x8000
    }

    /// Creates an RX ring around a descriptor ring, not discarding.
    pub fn new(ring: DescRing<B>, rx_csum_enabled: bool, crc_stripping: bool, dma_burst: bool) -> (r:
        Self)
        ensures
            r.ring == ring,
            r.rx_csum_enabled == rx_csum_enabled,
            r.crc_stripping == crc_stripping,
            r.dma_burst == dma_burst,
            !r.is_discarding,
    {
        RxRing { ring, rx_csum_enabled, crc_stripping, dma_burst, is_discarding: false }
    }

    /// Returns the total byte length of the descriptor ring.
    pub fn ring_len_bytes(&self) -> (r: u32)
        requires
            self.wf(),
        ensures
            r == self.ring.count * 16,
    {
        self.ring.ring_size_bytes()
    }

    /// Returns the number of descriptors.
    pub fn count(&self) -> (r: u16)
        ensures
            r == self.ring.count,
    {
        self.ring.count()
    }

    /// Whether a packet may be waiting: the descriptor at next-to-clean,
    /// `desc`, has its done bit set.
    pub fn can_receive(desc: &RxDescExt) -> (r: bool)
        ensures
            r == (desc.status_error & RXDEXT_STAT_DD != 0),
    {
        desc.status_error & RXDEXT_STAT_DD != 0
    }

    /// The receive register writes for a ring at `dma_addr`, given the
    /// values read from RCTL, CTRL_EXT and RXCSUM: the receiver is disabled,
    /// DMA burst set when enabled, the delay timers written, interrupts
    /// auto-masked, the ring programmed with head and tail at zero, the
    /// TCP/UDP checksum offload bit set or cleared, and RCTL restored.
    pub fn configure_rx(
        &self,
        rctl: u32,
        ctrl_ext: u32,
        rxcsum: u32,
        dma_addr: u64,
        coalesce: &RxCoalesceConfig,
    ) -> (w: Vec<(usize, u32)>)
        requires
            self.wf(),
        ensures
            w@ == configure_rx_spec(
                rctl,
                ctrl_ext,
                rxcsum,
                dma_addr,
                (self.ring.count * 16) as u32,
                *coalesce,
                self.dma_burst,
                self.rx_csum_enabled,
            ),
    {
        let rdlen = self.ring.ring_size_bytes();
        let (lo, hi) = crate::bytes::split_dma_addr(dma_addr);
        let mut w: Vec<(usize, u32)> = Vec::new();
        w.push((RCTL, rctl & !RCTL_EN));
        if self.dma_burst {
            w.push((RXDCTL, RXDCTL_DMA_BURST_ENABLE));
        }
        w.push((RDTR, coalesce.rx_int_delay));
        w.push((RADV, coalesce.rx_abs_int_delay));
        w.push((CTRL_EXT, ctrl_ext | CTRL_EXT_IAME));
        w.push((IAM, 0xFFFF_FFFF));
        w.push((RDBAL, lo));
        w.push((RDBAH, hi));
        w.push((RDLEN, rdlen));
        w.push((RDH, 0));
        w.push((RDT, 0));
        if self.rx_csum_enabled {
            w.push((RXCSUM, rxcsum | RXCSUM_TUOFL));
        } else {
            w.push((RXCSUM, rxcsum & !RXCSUM_TUOFL));
        }
        w.push((RCTL, rctl));
        assert(w@ =~= configure_rx_spec(
            rctl,
            ctrl_ext,
            rxcsum,
            dma_addr,
            (self.ring.count * 16) as u32,
            *coalesce,
            self.dma_burst,
            self.rx_csum_enabled,
        ));
        w
    }

    /// The writes that set up receive control for standard frames, given
    /// the values read from RCTL and RFCTL: extended status is enabled in
    /// RFCTL, then RCTL gets `setup_rctl_value`.
    pub fn setup_rctl(&self, rctl: u32, rfctl: u32, mc_filter_type: u32) -> (w: Vec<(usize, u32)>)
        ensures
            w@ == seq![
                (RFCTL, rfctl | RFCTL_EXTEN),
                (RCTL, setup_rctl_value(rctl, mc_filter_type, self.crc_stripping)),
            ],
    {
        let mut v = rctl;
        v = v & !(3u32 << RCTL_MO_SHIFT);
        v = v | RCTL_EN | RCTL_BAM | RCTL_LBM_NO | RCTL_RDMTS_HALF | (mc_filter_type
            << RCTL_MO_SHIFT);
        v = v & !RCTL_SBP;
        v = v & !RCTL_LPE;
        if self.crc_stripping {
            v = v | RCTL_SECRC;
        }
        v = v & !RCTL_SZ_4096;
        v = v & !RCTL_BSEX;
        v = v | RCTL_SZ_2048;
        let w = vec![(RFCTL, rfctl | RFCTL_EXTEN), (RCTL, v)];
        assert(w@ =~= seq![
            (RFCTL, rfctl | RFCTL_EXTEN),
            (RCTL, setup_rctl_value(rctl, mc_filter_type, self.crc_stripping)),
        ]);
        w
    }

    /// Places `buf`, whose DMA address is `daddr`, in the slot at
    /// next-to-use and advances next-to-use.
    pub fn refill_one(&mut self, buf: B, daddr: u64) -> (r: RxRefill)
        requires
            old(self).wf(),
        ensures
            final(self).wf(),
            ({
                let o = old(self);
                let i = o.ring.next_to_use as int;
                &&& r == refill_at(i, daddr)
                &&& final(self).ring.buffers@ == o.ring.buffers@.update(i, Some(buf))
                &&& final(self).ring.next_to_use == wrap_next(i, o.ring.count as int)
                &&& final(self).ring.next_to_clean == o.ring.next_to_clean
                &&& final(self).ring.count == o.ring.count
                &&& final(self).ring.desc_size == o.ring.desc_size
                &&& final(self).rx_csum_enabled == o.rx_csum_enabled
                &&& final(self).crc_stripping == o.crc_stripping
                &&& final(self).dma_burst == o.dma_burst
                &&& final(self).is_discarding == o.is_discarding
            }),
    {
        let i = self.ring.next_to_use();
        let desc = RxDescRead::for_buffer(daddr);
        self.ring.put_buffer(i, buf);
        let tail = if i % RX_BUFFER_WRITE == 0 {
            Some(i as u32)
        } else {
            None
        };
        let next = self.ring.advance_index(i);
        self.ring.set_next_to_use(next);
        RxRefill { index: i, desc, tail }
    }

    /// Refills slots with the buffers `bufs` (each with its DMA address),
    /// in order, from next-to-use on: one refill record per buffer, and
    /// next-to-use advanced past them.
    pub fn alloc_rx_buffers(&mut self, bufs: Vec<(B, u64)>) -> (r: Vec<RxRefill>)
        requires
            old(self).wf(),
        ensures
            final(self).wf(),
            ({
                let o = old(self);
                let start = o.ring.next_to_use as int;
                let c = o.ring.count as int;
                &&& r@.len() == bufs@.len()
                &&& forall|k: int|
                    0 <= k < bufs@.len() ==> #[trigger] r@[k] == refill_at(
                        (start + k) % c,
                        bufs@[k].1,
                    )
                &&& final(self).ring.buffers@ == refilled(o.ring.buffers@, start, c, bufs@)
                &&& final(self).ring.next_to_use == (start + bufs@.len()) % c
                &&& final(self).ring.next_to_clean == o.ring.next_to_clean
                &&& final(self).ring.count == o.ring.count
                &&& final(self).ring.desc_size == o.ring.desc_size
                &&& final(self).rx_csum_enabled == o.rx_csum_enabled
                &&& final(self).crc_stripping == o.crc_stripping
                &&& final(self).dma_burst == o.dma_burst
                &&& final(self).is_discarding == o.is_discarding
            }),
    {
        let ghost o = *self;
        let ghost all = bufs@;
        let ghost start = self.ring.next_to_use as int;
        let ghost c = self.ring.count as int;
        let mut bufs = bufs;
        let mut out: Vec<RxRefill> = Vec::new();
        let n = bufs.len();
        let mut k: usize = 0;
        proof {
            vstd::arithmetic::div_mod::lemma_small_mod(start as nat, c as nat);
        }
        while k < n
            invariant
                self.wf(),
                0 <= k <= n,
                n == all.len(),
                c == o.ring.count,
                0 <= start < c,
                bufs@ == all.skip(k as int),
                out@.len() == k,
                forall|j: int| 0 <= j < k ==> #[trigger] out@[j] == refill_at((start + j) % c, all[j].1),
                self.ring.buffers@ == refilled(o.ring.buffers@, start, c, all.take(k as int)),
                self.ring.next_to_use == (start + k) % c,
                self.ring.next_to_clean == o.ring.next_to_clean,
                self.ring.count == o.ring.count,
                self.ring.desc_size == o.ring.desc_size,
                self.rx_csum_enabled == o.rx_csum_enabled,
                self.crc_stripping == o.crc_stripping,
                self.dma_burst == o.dma_burst,
                self.is_discarding == o.is_discarding,
            decreases n - k,
        {
            let (buf, daddr) = bufs.remove(0);
            assert(all[k as int] == (buf, daddr));
            let rec = self.refill_one(buf, daddr);
            out.push(rec);
            proof {
                lemma_wrap_next_mod(start + k, c);
                let t = all.take(k as int + 1);
                assert(t.drop_last() =~= all.take(k as int));
                assert(t.last() == all[k as int]);
                assert(bufs@ =~= all.skip(k as int + 1));
            }
            k = k + 1;
        }
        assert(all.take(n as int) =~= all);
        out
    }

    /// The number of empty slots to refill: all slots but the reserved one
    /// that are not between next-to-clean and next-to-use.
    pub fn refill_count(&self) -> (r: u16)
        requires
            self.wf(),
        ensures
            r == self.ring.count - 1 - self.ring.used(),
    {
        self.ring.unused_count()
    }

    /// Starts a cleaning pass.
    pub fn clean_begin() -> (st: RxCleanState)
        ensures
            st.work_done == 0,
            st.cleaned_count == 0,
    {
        RxCleanState { work_done: 0, cleaned_count: 0 }
    }

    /// Cleans the descriptor at next-to-clean, `desc` being its current
    /// value, within a pass of `budget` descriptors. With budget left and
    /// the done bit set, the slot is emptied and next-to-clean advances; an
    /// empty slot is skipped; a frame without end-of-packet starts (or a
    /// discarded frame continues) discarding until its last descriptor; a
    /// frame error drops the buffer; a good frame is delivered with its
    /// payload length. After a drop or a delivery, once `RX_BUFFER_WRITE`
    /// slots were emptied, they are to be refilled and the count restarts.
    pub fn clean_step(&mut self, st: &mut RxCleanState, budget: u32, desc: &RxDescExt) -> (r:
        RxCleanStep<B>)
        requires
            old(self).wf(),
            old(st).cleaned_count < u16::MAX,
        ensures
            final(self).wf(),
            ({
                let o = old(self);
                let s0 = *old(st);
                let idx = o.ring.next_to_clean as int;
                let se = desc.status_error;
                let cleaned = s0.cleaned_count + 1;
                let refill = if cleaned >= RX_BUFFER_WRITE {
                    cleaned
                } else {
                    0
                };
                if s0.work_done >= budget || se & RXDEXT_STAT_DD == 0 {
                    &&& r is Stop
                    &&& *final(self) == *o
                    &&& final(st).work_done == s0.work_done
                    &&& final(st).cleaned_count == s0.cleaned_count
                } else {
                    &&& final(st).work_done == s0.work_done + 1
                    &&& final(self).ring.buffers@ == o.ring.buffers@.update(idx, None)
                    &&& final(self).ring.next_to_clean == wrap_next(idx, o.ring.count as int)
                    &&& final(self).ring.next_to_use == o.ring.next_to_use
                    &&& final(self).ring.count == o.ring.count
                    &&& final(self).ring.desc_size == o.ring.desc_size
                    &&& final(self).rx_csum_enabled == o.rx_csum_enabled
                    &&& final(self).crc_stripping == o.crc_stripping
                    &&& final(self).dma_burst == o.dma_burst
                    &&& match o.ring.buffers@[idx] {
                        None => {
                            &&& r is Skip
                            &&& final(st).cleaned_count == cleaned
                            &&& final(self).is_discarding == o.is_discarding
                        },
                        Some(b) => {
                            &&& final(st).cleaned_count == (if cleaned >= RX_BUFFER_WRITE {
                                0
                            } else {
                                cleaned
                            })
                            &&& if o.is_discarding || se & RXDEXT_STAT_EOP == 0 {
                                &&& r == (RxCleanStep::Drop { buf: b, refill: refill as u16 })
                                &&& final(self).is_discarding == (se & RXDEXT_STAT_EOP == 0)
                            } else if se & RXDEXT_ERR_FRAME_MASK != 0 {
                                &&& r == (RxCleanStep::Drop { buf: b, refill: refill as u16 })
                                &&& final(self).is_discarding == o.is_discarding
                            } else {
                                &&& r == (RxCleanStep::Deliver {
                                    buf: b,
                                    len: payload_len(desc.length, o.crc_stripping) as usize,
                                    refill: refill as u16,
                                })
                                &&& final(self).is_discarding == o.is_discarding
                            }
                        },
                    }
                }
            }),
    {
        if st.work_done >= budget {
            return RxCleanStep::Stop;
        }
        let staterr = desc.status_error;
        if staterr & RXDEXT_STAT_DD == 0 {
            return RxCleanStep::Stop;
        }
        st.work_done = st.work_done + 1;
        st.cleaned_count = st.cleaned_count + 1;
        let i = self.ring.next_to_clean();
        let taken = self.ring.take_buffer(i);
        let next = self.ring.advance_index(i);
        self.ring.set_next_to_clean(next);
        let buf = match taken {
            None => {
                return RxCleanStep::Skip;
            },
            Some(b) => b,
        };
        let refill = if st.cleaned_count >= RX_BUFFER_WRITE {
            let n = st.cleaned_count;
            st.cleaned_count = 0;
            n
        } else {
            0
        };
        if staterr & RXDEXT_STAT_EOP == 0 {
            self.is_discarding = true;
        }
        if self.is_discarding {
            if staterr & RXDEXT_STAT_EOP != 0 {
                self.is_discarding = false;
            }
            return RxCleanStep::Drop { buf, refill };
        }
        if staterr & RXDEXT_ERR_FRAME_MASK != 0 {
            return RxCleanStep::Drop { buf, refill };
        }
        let length = desc.length;
        let len: usize = if self.crc_stripping {
            length as usize
        } else if length >= ETH_FCS_LEN {
            (length - ETH_FCS_LEN) as usize
        } else {
            0
        };
        RxCleanStep::Deliver { buf, len, refill }
    }
}

} // verus!
