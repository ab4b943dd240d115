//! Hardware operations of the smaller driver, as the register values they
//! write given the values they read: reset, EEPROM word reads, the MAC
//! address, the multicast table, link and flow control, ring programming
//! and the interrupt masks.

use vstd::prelude::*;

use crate::e1000::eeprom::mac_of_words;
use crate::e1000::hw::{rah_of, ral_of};
use crate::e1000_basic::regs::{
    CTRL_ASDE, CTRL_RST, CTRL_SLU, DESC_SIZE, EERD_DONE, EERD_START, FLOW_CONTROL_ADDRESS_HIGH,
    FLOW_CONTROL_ADDRESS_LOW, FLOW_CONTROL_TYPE, INT_LSC, INT_RXDMT0, INT_RXT0, INT_TXDW,
    MTA_ENTRIES, RAH_AV, RCTL_BAM, RCTL_BSEX, RCTL_BSIZE_4096, RCTL_EN, RCTL_SECRC, REG_FCAH,
    REG_FCAL, REG_FCT, REG_FCTTV, REG_IMC, REG_IMS, REG_MTA, REG_RAH0, REG_RAL0, REG_RCTL,
    REG_RDBAH, REG_RDBAL, REG_RDH, REG_RDLEN, REG_RDT, REG_TCTL, REG_TDBAH, REG_TDBAL, REG_TDH,
    REG_TDLEN, REG_TDT, REG_TIPG, STATUS_LU, TCTL_COLD_FD, TCTL_CT_DEFAULT, TCTL_EN, TCTL_PSP,
    TIPG_DEFAULT,
};

verus! {

/// The CTRL value that starts a device reset, from the value read.
pub fn reset_ctrl(ctrl: u32) -> (r: u32)
    ensures
        r == ctrl | CTRL_RST,
{
    ctrl | CTRL_RST
}

/// Whether the reset has completed: the reset bit of CTRL cleared itself.
pub fn reset_done(ctrl: u32) -> (r: bool)
    ensures
        r == (ctrl & CTRL_RST == 0),
{
    ctrl & CTRL_RST == 0
}

/// The write that follows a completed reset: every interrupt disabled
/// (the pending causes are then cleared by reading ICR).
pub fn disable_interrupts() -> (w: (usize, u32))
    ensures
        w == (REG_IMC, 0xFFFF_FFFFu32),
{
    (REG_IMC, 0xFFFF_FFFF)
}

/// The EERD value that starts a read of the EEPROM word at `addr`.
pub fn eeprom_read_cmd(addr: u8) -> (r: u32)
    ensures
        r == addr as int * 0x100 + 1,
{
    let a = addr as u32;
    let r = EERD_START | (a << 8u32);
    proof {
        crate::bits::lemma_shl8_or1(a);
    }
    r
}

/// The word of an EERD read whose register value is `val`, or `None`
/// while the read is pending (the read is then polled again).
pub fn eeprom_read_result(val: u32) -> (r: Option<u16>)
    ensures
        val & EERD_DONE == 0 ==> r is None,
        val & EERD_DONE != 0 ==> r == Some((val / 0x1_0000) as u16),
{
    if val & EERD_DONE != 0 {
        let w = ((val >> 16u32) & 0xFFFF) as u16;
        proof {
            crate::bits::lemma_u32_halves(val);
        }
        Some(w)
    } else {
        None
    }
}

/// The MAC address held by the receive address registers RAL0 and RAH0:
/// RAL's four bytes then RAH's two, least significant first.
pub open spec fn mac_of_ra(ral: u32, rah: u32) -> Seq<u8> {
    seq![
        (ral % 0x100) as u8,
        ((ral / 0x100) % 0x100) as u8,
        ((ral / 0x1_0000) % 0x100) as u8,
        ((ral / 0x100_0000) % 0x100) as u8,
        (rah % 0x100) as u8,
        ((rah / 0x100) % 0x100) as u8,
    ]
}

/// The MAC address in the receive address registers, or `None` when their
/// Address Valid bit is clear.
pub fn mac_from_ra(ral: u32, rah: u32) -> (r: Option<[u8; 6]>)
    ensures
        rah & RAH_AV == 0 ==> r is None,
        rah & RAH_AV != 0 ==> (r matches Some(m) && m@ == mac_of_ra(ral, rah)),
{
    if rah & RAH_AV == 0 {
        return None;
    }
    let b0 = (ral & 0xFF) as u8;
    let b1 = ((ral >> 8u32) & 0xFF) as u8;
    let b2 = ((ral >> 16u32) & 0xFF) as u8;
    let b3 = ((ral >> 24u32) & 0xFF) as u8;
    let b4 = (rah & 0xFF) as u8;
    let b5 = ((rah >> 8u32) & 0xFF) as u8;
    proof {
        crate::bits::lemma_u32_bytes(ral);
        crate::bits::lemma_u32_bytes(rah);
        crate::bits::lemma_low_byte_and_zero(ral);
        crate::bits::lemma_low_byte_and_zero(rah);
    }
    let m = [b0, b1, b2, b3, b4, b5];
    assert(m@ =~= mac_of_ra(ral, rah));
    Some(m)
}

/// The MAC address read from EEPROM words 0-2 when the receive address
/// registers hold none, and the writes that program it into RAL0 and RAH0
/// with Address Valid set.
pub fn mac_from_eeprom(words: &[u16; 3]) -> (r: ([u8; 6], Vec<(usize, u32)>))
    ensures
        r.0@ == mac_of_words(words@),
        r.1@ == seq![
            (REG_RAL0, ral_of(r.0@) as u32),
            (REG_RAH0, rah_of(r.0@) as u32),
        ],
{
    let mac = crate::e1000::eeprom::mac_from_words(words);
    let w = crate::e1000::hw::rar_set(&mac, 0);
    let v = vec![(REG_RAL0, w.ral), (REG_RAH0, w.rah)];
    assert(v@ =~= seq![(REG_RAL0, ral_of(mac@) as u32), (REG_RAH0, rah_of(mac@) as u32)]);
    (mac, v)
}

/// A MAC address programmed into RAL0 and RAH0 is read back from them, and
/// marked valid.
pub proof fn lemma_ra_roundtrip(m: Seq<u8>)
    requires
        m.len() == 6,
    ensures
        (rah_of(m) as u32) & RAH_AV != 0,
        mac_of_ra(ral_of(m) as u32, rah_of(m) as u32) == m,
{
    let a0 = m[0];
    let a1 = m[1];
    let a2 = m[2];
    let a3 = m[3];
    let a4 = m[4];
    let a5 = m[5];
    let ral = ral_of(m);
    let rah = rah_of(m);
    assert(0 <= ral < 0x1_0000_0000);
    assert(0 <= rah < 0x1_0000_0000);
    let l = ral as u32;
    let h = rah as u32;
    assert(l == a0 + a1 * 0x100 + a2 * 0x1_0000 + a3 * 0x100_0000);
    assert(h == a4 + a5 * 0x100 + 0x8000_0000);
    assert((l % 0x100) as u8 == a0 && ((l / 0x100) % 0x100) as u8 == a1 && ((l / 0x1_0000)
        % 0x100) as u8 == a2 && ((l / 0x100_0000) % 0x100) as u8 == a3) by (nonlinear_arith)
        requires
            l == a0 + a1 * 0x100 + a2 * 0x1_0000 + a3 * 0x100_0000,
            a0 < 0x100,
            a1 < 0x100,
            a2 < 0x100,
            a3 < 0x100,
    ;
    assert((h % 0x100) as u8 == a4 && ((h / 0x100) % 0x100) as u8 == a5) by (nonlinear_arith)
        requires
            h == a4 + a5 * 0x100 + 0x8000_0000,
            a4 < 0x100,
            a5 < 0x100,
    ;
    assert(h & 0x8000_0000u32 != 0) by (bit_vector)
        requires
            h >= 0x8000_0000u32,
    ;
    assert(mac_of_ra(l, h) =~= m);
}

/// The writes that clear the multicast table: each of its `MTA_ENTRIES`
/// entries set to zero, in order.
pub fn clear_multicast_table() -> (w: Vec<(usize, u32)>)
    ensures
        w@.len() == MTA_ENTRIES,
        forall|i: int| 0 <= i < MTA_ENTRIES ==> #[trigger] w@[i] == ((REG_MTA + i * 4) as usize, 0u32),
{
    let mut w: Vec<(usize, u32)> = Vec::new();
    let mut i: usize = 0;
    while i < MTA_ENTRIES
        invariant
            i <= MTA_ENTRIES,
            w@.len() == i,
            forall|j: int| 0 <= j < i ==> #[trigger] w@[j] == ((REG_MTA + j * 4) as usize, 0u32),
        decreases MTA_ENTRIES - i,
    {
        w.push((REG_MTA + i * 4, 0));
        i = i + 1;
    }
    w
}

/// The CTRL value that brings the link up with automatic speed
/// detection, from the value read.
pub fn setup_link(ctrl: u32) -> (r: u32)
    ensures
        r == ctrl | CTRL_SLU | CTRL_ASDE,
{
    ctrl | CTRL_SLU | CTRL_ASDE
}

/// Whether the link is up: the LU bit of STATUS.
pub fn is_link_up(status: u32) -> (r: bool)
    ensures
        r == (status & STATUS_LU != 0),
{
    status & STATUS_LU != 0
}

/// The flow control writes with the IEEE 802.3 defaults: the pause frame
/// address and type, and a zero transmit timer.
pub fn setup_flow_control() -> (w: Vec<(usize, u32)>)
    ensures
        w@ == seq![
            (REG_FCAL, FLOW_CONTROL_ADDRESS_LOW),
            (REG_FCAH, FLOW_CONTROL_ADDRESS_HIGH),
            (REG_FCT, FLOW_CONTROL_TYPE),
            (REG_FCTTV, 0u32),
        ],
{
    let w = vec![
        (REG_FCAL, FLOW_CONTROL_ADDRESS_LOW),
        (REG_FCAH, FLOW_CONTROL_ADDRESS_HIGH),
        (REG_FCT, FLOW_CONTROL_TYPE),
        (REG_FCTTV, 0),
    ];
    assert(w@ =~= seq![
        (REG_FCAL, FLOW_CONTROL_ADDRESS_LOW),
        (REG_FCAH, FLOW_CONTROL_ADDRESS_HIGH),
        (REG_FCT, FLOW_CONTROL_TYPE),
        (REG_FCTTV, 0u32),
    ]);
    w
}

/// The receive control value: receiver on, broadcast accepted, 4096-byte
/// buffers, CRC stripped.
pub open spec fn rx_rctl() -> u32 {
    RCTL_EN | RCTL_BAM | RCTL_BSIZE_4096 | RCTL_BSEX | RCTL_SECRC
}

/// The receive ring writes for `num_descs` descriptors at `ring_dma`: base,
/// length, head at zero, tail at the last descriptor, then the receiver
/// enabled.
pub fn setup_rx_hardware(ring_dma: u64, num_descs: usize) -> (w: Vec<(usize, u32)>)
    requires
        num_descs * 16 <= usize::MAX,
        (num_descs as u32) >= 1,
    ensures
        w@ == seq![
            (REG_RDBAL, (ring_dma % 0x1_0000_0000) as u32),
            (REG_RDBAH, (ring_dma / 0x1_0000_0000) as u32),
            (REG_RDLEN, (num_descs * 16) as u32),
            (REG_RDH, 0u32),
            (REG_RDT, ((num_descs as u32) - 1) as u32),
            (REG_RCTL, rx_rctl()),
        ],
{
    let (lo, hi) = crate::bytes::split_dma_addr(ring_dma);
    let rctl = RCTL_EN | RCTL_BAM | RCTL_BSIZE_4096 | RCTL_BSEX | RCTL_SECRC;
    let w = vec![
        (REG_RDBAL, lo),
        (REG_RDBAH, hi),
        (REG_RDLEN, (num_descs * DESC_SIZE) as u32),
        (REG_RDH, 0),
        (REG_RDT, (num_descs as u32) - 1),
        (REG_RCTL, rctl),
    ];
    assert(w@ =~= seq![
        (REG_RDBAL, (ring_dma % 0x1_0000_0000) as u32),
        (REG_RDBAH, (ring_dma / 0x1_0000_0000) as u32),
        (REG_RDLEN, (num_descs * 16) as u32),
        (REG_RDH, 0u32),
        (REG_RDT, ((num_descs as u32) - 1) as u32),
        (REG_RCTL, rx_rctl()),
    ]);
    w
}

/// The transmit control value: transmitter on, short packets padded, the
/// recommended collision threshold and full-duplex distance.
pub open spec fn tx_tctl() -> u32 {
    TCTL_EN | TCTL_PSP | TCTL_CT_DEFAULT | TCTL_COLD_FD
}

/// The transmit ring writes for `num_descs` descriptors at `ring_dma`:
/// base, length, head and tail at zero, the inter-packet gap, then the
/// transmitter enabled.
pub fn setup_tx_hardware(ring_dma: u64, num_descs: usize) -> (w: Vec<(usize, u32)>)
    requires
        num_descs * 16 <= usize::MAX,
    ensures
        w@ == seq![
            (REG_TDBAL, (ring_dma % 0x1_0000_0000) as u32),
            (REG_TDBAH, (ring_dma / 0x1_0000_0000) as u32),
            (REG_TDLEN, (num_descs * 16) as u32),
            (REG_TDH, 0u32),
            (REG_TDT, 0u32),
            (REG_TIPG, TIPG_DEFAULT),
            (REG_TCTL, tx_tctl()),
        ],
{
    let (lo, hi) = crate::bytes::split_dma_addr(ring_dma);
    let tctl = TCTL_EN | TCTL_PSP | TCTL_CT_DEFAULT | TCTL_COLD_FD;
    let w = vec![
        (REG_TDBAL, lo),
        (REG_TDBAH, hi),
        (REG_TDLEN, (num_descs * DESC_SIZE) as u32),
        (REG_TDH, 0),
        (REG_TDT, 0),
        (REG_TIPG, TIPG_DEFAULT),
        (REG_TCTL, tctl),
    ];
    assert(w@ =~= seq![
        (REG_TDBAL, (ring_dma % 0x1_0000_0000) as u32),
        (REG_TDBAH, (ring_dma / 0x1_0000_0000) as u32),
        (REG_TDLEN, (num_descs * 16) as u32),
        (REG_TDH, 0u32),
        (REG_TDT, 0u32),
        (REG_TIPG, TIPG_DEFAULT),
        (REG_TCTL, tx_tctl()),
    ]);
    w
}

/// The interrupt mask set for normal operation: receive timer, transmit
/// written back, link status change and receive descriptor threshold.
pub fn enable_interrupts() -> (w: (usize, u32))
    ensures
        w == (REG_IMS, INT_RXT0 | INT_TXDW | INT_LSC | INT_RXDMT0),
{
    (REG_IMS, INT_RXT0 | INT_TXDW | INT_LSC | INT_RXDMT0)
}

} // verus!
