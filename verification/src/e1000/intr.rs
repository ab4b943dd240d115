//! Interrupt causes and interrupt throttling of the 82540EM.

use vstd::prelude::*;

use crate::e1000::hw::RegOp;
use crate::e1000::regs::{ICR_LSC, ICR_RXDMT0, ICR_RXO, ICR_RXSEQ, ICR_RXT0, ICR_TXDW};

verus! {

/// Enables interrupts: the standard mask is written to IMS, then STATUS is
/// read to flush the write.
pub fn irq_enable() -> (r: Vec<RegOp>)
    ensures
        r@ == seq![
            RegOp::Write { reg: crate::e1000::regs::IMS, val: crate::e1000::regs::IMS_ENABLE_MASK },
            RegOp::Read { reg: crate::e1000::regs::STATUS },
        ],
{
    let r = vec![
        RegOp::Write { reg: crate::e1000::regs::IMS, val: crate::e1000::regs::IMS_ENABLE_MASK },
        RegOp::Read { reg: crate::e1000::regs::STATUS },
    ];
    assert(r@ =~= seq![
        RegOp::Write { reg: crate::e1000::regs::IMS, val: crate::e1000::regs::IMS_ENABLE_MASK },
        RegOp::Read { reg: crate::e1000::regs::STATUS },
    ]);
    r
}

/// Disables every interrupt: all ones are written to IMC, then STATUS is
/// read to flush the write.
pub fn irq_disable() -> (r: Vec<RegOp>)
    ensures
        r@ == seq![
            RegOp::Write { reg: crate::e1000::regs::IMC, val: 0xFFFF_FFFFu32 },
            RegOp::Read { reg: crate::e1000::regs::STATUS },
        ],
{
    let r = vec![
        RegOp::Write { reg: crate::e1000::regs::IMC, val: 0xFFFF_FFFF },
        RegOp::Read { reg: crate::e1000::regs::STATUS },
    ];
    assert(r@ =~= seq![
        RegOp::Write { reg: crate::e1000::regs::IMC, val: 0xFFFF_FFFFu32 },
        RegOp::Read { reg: crate::e1000::regs::STATUS },
    ]);
    r
}

/// Flags indicating which interrupt causes were triggered.
#[derive(Debug, Clone, Copy, PartialEq, Eq, Structural)]
pub struct InterruptStatus {
    bits: u32,
}

/// The link status changed.
pub const INTR_LINK_CHANGE: u32 = 0x01;
/// A frame was received.
pub const INTR_RX: u32 = 0x02;
/// The free receive descriptors fell below the threshold.
pub const INTR_RX_DESC_MIN_THRESH: u32 = 0x04;
/// A transmit descriptor was written back.
pub const INTR_TX_DONE: u32 = 0x08;
/// A receive sequence error occurred.
pub const INTR_RX_SEQ_ERR: u32 = 0x10;
/// The receiver overran.
pub const INTR_RX_OVERRUN: u32 = 0x20;
/// Every defined flag.
pub const INTR_ALL: u32 = 0x3f;

impl InterruptStatus {
    /// The raw flag bits.
    pub closed spec fn bits_spec(&self) -> u32 {
        self.bits
    }

    /// No flag set.
    pub fn empty() -> (r: Self)
        ensures
            r.bits_spec() == 0,
    {
        InterruptStatus { bits: 0 }
    }

    /// The raw flag bits.
    pub fn bits(&self) -> (r: u32)
        ensures
            r == self.bits_spec(),
    {
        self.bits
    }

    /// Whether every flag of `flags` is set.
    pub fn contains(&self, flags: u32) -> (r: bool)
        ensures
            r == (self.bits_spec() & flags == flags),
    {
        self.bits & flags == flags
    }
}

/// Maps an interrupt cause register value to the flags of the
/// causes the driver handles; a zero ICR (not our interrupt) gives no flag.
pub fn process_interrupt(icr: u32) -> (r: InterruptStatus)
    ensures
        r.bits_spec() & !INTR_ALL == 0,
        (r.bits_spec() & INTR_LINK_CHANGE != 0) == (icr & ICR_LSC != 0),
        (r.bits_spec() & INTR_RX != 0) == (icr & ICR_RXT0 != 0),
        (r.bits_spec() & INTR_RX_DESC_MIN_THRESH != 0) == (icr & ICR_RXDMT0 != 0),
        (r.bits_spec() & INTR_TX_DONE != 0) == (icr & ICR_TXDW != 0),
        (r.bits_spec() & INTR_RX_SEQ_ERR != 0) == (icr & ICR_RXSEQ != 0),
        (r.bits_spec() & INTR_RX_OVERRUN != 0) == (icr & ICR_RXO != 0),
{
    if icr == 0 {
        assert(0u32 & !0x3fu32 == 0 && 0u32 & 1 == 0 && 0u32 & 2 == 0 && 0u32 & 4 == 0 && 0u32
            & 8 == 0 && 0u32 & 0x10 == 0 && 0u32 & 0x20 == 0 && 0u32 & 0x40 == 0 && 0u32 & 0x80 == 0)
            by (bit_vector);
        return InterruptStatus::empty();
    }
    let a: u32 = if icr & ICR_LSC != 0 { INTR_LINK_CHANGE } else { 0 };
    let b: u32 = if icr & ICR_RXT0 != 0 { INTR_RX } else { 0 };
    let c: u32 = if icr & ICR_RXDMT0 != 0 { INTR_RX_DESC_MIN_THRESH } else { 0 };
    let d: u32 = if icr & ICR_TXDW != 0 { INTR_TX_DONE } else { 0 };
    let e: u32 = if icr & ICR_RXSEQ != 0 { INTR_RX_SEQ_ERR } else { 0 };
    let f: u32 = if icr & ICR_RXO != 0 { INTR_RX_OVERRUN } else { 0 };
    let bits = a | b | c | d | e | f;
    assert(bits & !0x3fu32 == 0 && (bits & 1 != 0) == (a != 0) && (bits & 2 != 0) == (b != 0)
        && (bits & 4 != 0) == (c != 0) && (bits & 8 != 0) == (d != 0) && (bits & 0x10 != 0) == (e
        != 0) && (bits & 0x20 != 0) == (f != 0)) by (bit_vector)
        requires
            a == 0 || a == 1,
            b == 0 || b == 2,
            c == 0 || c == 4,
            d == 0 || d == 8,
            e == 0 || e == 0x10,
            f == 0 || f == 0x20,
            bits == a | b | c | d | e | f,
    ;
    InterruptStatus { bits }
}

/// Computes the ITR value (in 256 ns units) for a desired number of
/// interrupts per second; zero disables throttling.
pub fn compute_itr(ints_per_sec: u32) -> (r: u32)
    requires
        256 * ints_per_sec <= u32::MAX,
    ensures
        ints_per_sec == 0 ==> r == 0,
        ints_per_sec != 0 ==> r == 1_000_000_000int / (256 * ints_per_sec as int),
{
    if ints_per_sec == 0 {
        return 0;
    }
    1_000_000_000 / (256 * ints_per_sec)
}

} // verus!
