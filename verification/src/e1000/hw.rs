//! Hardware state of the 82540EM and the register values it programs:
//! reset, receive addresses, multicast hashing, flow control, link status,
//! collision distance, adaptive inter-frame spacing and statistics.

use vstd::prelude::*;

use crate::e1000::eeprom::mac_of_words;
use crate::e1000::regs::{
    ALGNERRC, BPRC, BPTC, CEXTERR, COLC, COLLISION_DISTANCE_FD, CRCERRS, CTRL_RFCE, CTRL_RST,
    CTRL_TFCE, DC, ECOL, FCRUC, FULL_DUPLEX, GORCH, GORCL, GOTCH, GOTCL, GPRC, GPTC,
    HALF_DUPLEX, LATECOL, MCC, MPC, MPRC, MPTC, MTA, NUM_MTA_REGISTERS, RA, RAH_AV, RFC, RJC,
    RLEC, RNBC, ROC, RUC, RXERRC, SCC, SPEED_10, SPEED_100, SPEED_1000, STATUS_FD, STATUS_LU,
    STATUS_SPEED_10, STATUS_SPEED_100, STATUS_SPEED_1000, STATUS_SPEED_MASK, SYMERRS,
    TCTL_COLD_SHIFT, TNCRS, TORH, TORL, TOTH, TOTL, TPR, TPT, TSCTC, TSCTFC, VFTA, XOFFRXC,
    XOFFTXC, XONRXC, XONTXC,
};

verus! {

/// Flow control configuration.
#[derive(Debug, Clone, Copy, PartialEq, Eq, Structural)]
pub enum FlowControlMode {
    /// No pause frames in either direction.
    Off,
    RxPause,
    TxPause,
    Full,
}

/// Link speed.
#[derive(Debug, Clone, Copy, PartialEq, Eq, Structural)]
pub enum LinkSpeed {
    Speed10,
    Speed100,
    Speed1000,
}

/// Duplex mode.
#[derive(Debug, Clone, Copy, PartialEq, Eq, Structural)]
pub enum Duplex {
    Half,
    Full,
}

/// TCTL collision distance mask (for clearing).
pub const E1000_TCTL_COLD: u32 = 0x003FF000;

/// Adaptive IFS throttle register.
pub const AIT: usize = 0x00458;

/// Smallest adaptive IFS value.
pub const IFS_MIN: u16 = 64;

/// Largest adaptive IFS value.
pub const IFS_MAX: u16 = 1000;

/// Adaptive IFS increment.
pub const IFS_STEP: u16 = 8;

/// Collision/packet ratio that triggers adaptive IFS.
pub const IFS_RATIO: u16 = 4;

/// Transmissions below which adaptive IFS backs off.
pub const MIN_NUM_XMITS: u32 = 1000;

/// Hardware state for the e1000 NIC (fields relevant to 82540EM).
pub struct E1000Hw {
    /// Current flow control mode.
    pub fc: FlowControlMode,
    /// The flow control setting restored after a reset.
    pub original_fc: FlowControlMode,
    /// FC autoneg enabled.
    pub fc_autoneg: bool,
    /// FC high watermark.
    pub fc_high_water: u16,
    /// FC low watermark.
    pub fc_low_water: u16,
    /// FC pause time.
    pub fc_pause_time: u16,
    /// FC send XON.
    pub fc_send_xon: bool,
    /// MAC address (permanent).
    pub perm_mac_addr: [u8; 6],
    /// MAC address (active).
    pub mac_addr: [u8; 6],
    /// PHY address on MDIO bus (typically 1 for 82540EM).
    pub phy_addr: u32,
    /// PHY ID read from hardware.
    pub phy_id: u32,
    /// Autoneg advertised capabilities.
    pub autoneg_advertised: u16,
    /// Whether autoneg is enabled.
    pub autoneg: bool,
    /// Forced speed/duplex setting.
    pub forced_speed_duplex: u8,
    /// Whether to wait for autoneg completion.
    pub wait_autoneg_complete: bool,
    /// Link status tracking.
    pub get_link_status: bool,
    /// Adaptive IFS enabled.
    pub adaptive_ifs: bool,
    pub ifs_params_forced: bool,
    pub in_ifs_mode: bool,
    pub current_ifs_val: u16,
    pub ifs_min_val: u16,
    pub ifs_max_val: u16,
    pub ifs_step_size: u16,
    pub ifs_ratio: u16,
    /// Collision delta (for adaptive IFS).
    pub collision_delta: u32,
    /// TX packet delta (for adaptive IFS).
    pub tx_packet_delta: u32,
}

/// The register writes that program a receive address slot.
#[derive(Debug, Clone, Copy, PartialEq, Eq, Structural)]
pub struct RarWrite {
    /// Offset of the RAL register of the slot.
    pub ral_offset: usize,
    /// Address bytes 0-3.
    pub ral: u32,
    /// Offset of the RAH register of the slot.
    pub rah_offset: usize,
    /// Address bytes 4-5 and the Address Valid bit.
    pub rah: u32,
}

/// The RAL value of a MAC address: bytes 0-3, least significant first.
pub open spec fn ral_of(a: Seq<u8>) -> int {
    a[0] + a[1] * 0x100 + a[2] * 0x1_0000 + a[3] * 0x100_0000
}

/// The RAH value of a MAC address: bytes 4-5 and Address Valid.
pub open spec fn rah_of(a: Seq<u8>) -> int {
    a[4] + a[5] * 0x100 + 0x8000_0000
}

/// Programs a receive address into the RAR slot `index`: the two
/// registers of the slot and their values.
pub fn rar_set(addr: &[u8; 6], index: u32) -> (r: RarWrite)
    requires
        RA + index * 8 + 4 <= usize::MAX,
    ensures
        r.ral_offset == RA + index * 8,
        r.rah_offset == RA + index * 8 + 4,
        r.ral == ral_of(addr@),
        r.rah == rah_of(addr@),
{
    let a0 = addr[0] as u32;
    let a1 = addr[1] as u32;
    let a2 = addr[2] as u32;
    let a3 = addr[3] as u32;
    let a4 = addr[4] as u32;
    let a5 = addr[5] as u32;
    let ral = a0 | (a1 << 8u32) | (a2 << 16u32) | (a3 << 24u32);
    let rah = a4 | (a5 << 8u32) | RAH_AV;
    assert(ral == a0 + a1 * 0x100 + a2 * 0x1_0000 + a3 * 0x100_0000) by (bit_vector)
        requires
            a0 < 256,
            a1 < 256,
            a2 < 256,
            a3 < 256,
            ral == a0 | (a1 << 8u32) | (a2 << 16u32) | (a3 << 24u32),
    ;
    assert(rah == a4 + a5 * 0x100 + 0x8000_0000) by (bit_vector)
        requires
            a4 < 256,
            a5 < 256,
            rah == a4 | (a5 << 8u32) | 0x8000_0000u32,
    ;
    let base = RA + (index as usize) * 8;
    RarWrite { ral_offset: base, ral, rah_offset: base + 4, rah }
}

/// The receive address programmed from a MAC address read out of EEPROM
/// words 0-2 holds those words: RAL is words 0 and 1, RAH is word 2 with
/// Address Valid.
pub proof fn lemma_rar_holds_eeprom_words(w: Seq<u16>)
    requires
        w.len() == 3,
    ensures
        ral_of(mac_of_words(w)) == w[0] + w[1] * 0x1_0000,
        rah_of(mac_of_words(w)) == w[2] + 0x8000_0000,
{
    let m = mac_of_words(w);
    assert(m[0] + m[1] * 0x100 == w[0]);
    assert(m[2] + m[3] * 0x100 == w[1]);
    assert(m[4] + m[5] * 0x100 == w[2]);
}

/// The register offset of Multicast Table Array entry `i`.
pub fn mta_reg(i: usize) -> (r: usize)
    requires
        i < NUM_MTA_REGISTERS,
    ensures
        r == MTA + i * 4,
{
    MTA + i * 4
}

/// The register offset of VLAN filter table entry `offset`.
pub fn write_vfta(offset: u32) -> (r: usize)
    requires
        VFTA + offset * 4 <= usize::MAX,
    ensures
        r == VFTA + offset * 4,
{
    VFTA + (offset as usize) * 4
}

/// One step of a register sequence: a write, a read whose value is
/// discarded (a flush or a clear-on-read), a pause, or the global reset
/// (CTRL read, then written back with `reset_ctrl` of the value read).
#[derive(Debug, Clone, Copy, PartialEq, Eq, Structural)]
pub enum RegOp {
    Write { reg: usize, val: u32 },
    Read { reg: usize },
    Delay { us: u32 },
    GlobalReset,
}

/// The reset sequence: every interrupt masked, receiver and transmitter
/// off, a STATUS read to flush, 10 us for outstanding transactions, the
/// global reset, 2 ms for it to complete, interrupts masked again and the
/// pending causes cleared by an ICR read.
pub open spec fn reset_hw_spec() -> Seq<RegOp> {
    seq![
        RegOp::Write { reg: crate::e1000::regs::IMC, val: 0xFFFF_FFFFu32 },
        RegOp::Write { reg: crate::e1000::regs::RCTL, val: 0u32 },
        RegOp::Write { reg: crate::e1000::regs::TCTL, val: crate::e1000::regs::TCTL_PSP },
        RegOp::Read { reg: crate::e1000::regs::STATUS },
        RegOp::Delay { us: 10u32 },
        RegOp::GlobalReset,
        RegOp::Delay { us: 2000u32 },
        RegOp::Write { reg: crate::e1000::regs::IMC, val: 0xFFFF_FFFFu32 },
        RegOp::Read { reg: crate::e1000::regs::ICR },
    ]
}

/// The CTRL value that issues a global reset.
pub fn reset_ctrl(ctrl: u32) -> (r: u32)
    ensures
        r == ctrl | CTRL_RST,
{
    ctrl | CTRL_RST
}

/// The statistics registers, read once to clear them.
pub open spec fn hw_counter_regs_spec() -> Seq<usize> {
    seq![
        CRCERRS,
        ALGNERRC,
        SYMERRS,
        RXERRC,
        MPC,
        SCC,
        ECOL,
        MCC,
        LATECOL,
        COLC,
        DC,
        TNCRS,
        CEXTERR,
        RLEC,
        XONRXC,
        XONTXC,
        XOFFRXC,
        XOFFTXC,
        FCRUC,
        GPRC,
        BPRC,
        MPRC,
        GPTC,
        GORCL,
        GORCH,
        GOTCL,
        GOTCH,
        RNBC,
        RUC,
        RFC,
        ROC,
        RJC,
        TORL,
        TORH,
        TOTL,
        TOTH,
        TPR,
        TPT,
        MPTC,
        BPTC,
        TSCTC,
        TSCTFC,
    ]
}

/// Clears the hardware statistics counters: the registers to read, in order.
pub fn clear_hw_counters() -> (r: Vec<usize>)
    ensures
        r@ == hw_counter_regs_spec(),
{
    let r = vec![
        CRCERRS,
        ALGNERRC,
        SYMERRS,
        RXERRC,
        MPC,
        SCC,
        ECOL,
        MCC,
        LATECOL,
        COLC,
        DC,
        TNCRS,
        CEXTERR,
        RLEC,
        XONRXC,
        XONTXC,
        XOFFRXC,
        XOFFTXC,
        FCRUC,
        GPRC,
        BPRC,
        MPRC,
        GPTC,
        GORCL,
        GORCH,
        GOTCL,
        GOTCH,
        RNBC,
        RUC,
        RFC,
        ROC,
        RJC,
        TORL,
        TORH,
        TOTL,
        TOTH,
        TPR,
        TPT,
        MPTC,
        BPTC,
        TSCTC,
        TSCTFC,
    ];
    assert(r@ =~= hw_counter_regs_spec());
    r
}

/// The CTRL flow-control enable bits of a mode: RFCE for receive pause,
/// TFCE for transmit pause.
pub open spec fn fc_ctrl_bits(fc: FlowControlMode) -> u32 {
    match fc {
        FlowControlMode::Off => 0,
        FlowControlMode::RxPause => CTRL_RFCE,
        FlowControlMode::TxPause => CTRL_TFCE,
        FlowControlMode::Full => CTRL_RFCE | CTRL_TFCE,
    }
}

/// The link speed encoded in a STATUS value (an undefined encoding reads as 1000 Mbps).
pub open spec fn status_speed(status: u32) -> LinkSpeed {
    if status & STATUS_SPEED_MASK == STATUS_SPEED_10 {
        LinkSpeed::Speed10
    } else if status & STATUS_SPEED_MASK == STATUS_SPEED_100 {
        LinkSpeed::Speed100
    } else {
        LinkSpeed::Speed1000
    }
}

/// The duplex encoded in a STATUS value.
pub open spec fn status_duplex(status: u32) -> Duplex {
    if status & STATUS_FD != 0 {
        Duplex::Full
    } else {
        Duplex::Half
    }
}

/// The link speed in Mbps.
pub fn link_speed_mbps(s: LinkSpeed) -> (r: u16)
    ensures
        r == (match s {
            LinkSpeed::Speed10 => 10u16,
            LinkSpeed::Speed100 => 100u16,
            LinkSpeed::Speed1000 => 1000u16,
        }),
{
    match s {
        LinkSpeed::Speed10 => 10,
        LinkSpeed::Speed100 => 100,
        LinkSpeed::Speed1000 => 1000,
    }
}

/// The duplex code: 1 for half, 2 for full.
pub fn duplex_code(d: Duplex) -> (r: u16)
    ensures
        r == (match d {
            Duplex::Half => 1u16,
            Duplex::Full => 2u16,
        }),
{
    match d {
        Duplex::Half => 1,
        Duplex::Full => 2,
    }
}

/// The 12-bit multicast hash of an address: bits 47:36 of the address.
pub open spec fn mc_hash(a: Seq<u8>) -> int {
    (a[4] / 16 + a[5] * 16) % 0x1000
}

/// The multicast hash takes its low four bits from the high nibble of
/// address byte 4 and its high eight bits from address byte 5, so it is
/// below 2^12.
pub proof fn lemma_mc_hash_bits(a: Seq<u8>)
    requires
        a.len() == 6,
    ensures
        mc_hash(a) % 16 == a[4] / 16,
        mc_hash(a) / 16 == a[5],
        0 <= mc_hash(a) < 0x1000,
{
    let x = a[4] / 16 + a[5] * 16;
    assert(0 <= x < 0x1000);
    vstd::arithmetic::div_mod::lemma_small_mod(x as nat, 0x1000);
}

/// Bit `b` of `x`.
pub open spec fn bit_of(x: u32, b: int) -> bool {
    x & (1u32 << (b as u32)) != 0
}

/// Setting bit `b` of `x` leaves every other bit as it was.
proof fn lemma_set_bit(x: u32, b: u32, c: u32)
    requires
        b < 32,
        c < 32,
    ensures
        ((x | (1u32 << b)) & (1u32 << c) != 0) == (x & (1u32 << c) != 0 || b == c),
{
    assert(((x | (1u32 << b)) & (1u32 << c) != 0) == (x & (1u32 << c) != 0 || b == c))
        by (bit_vector)
        requires
            b < 32,
            c < 32,
    ;
}

/// Zero has no bit set.
proof fn lemma_zero_bits(c: u32)
    requires
        c < 32,
    ensures
        0u32 & (1u32 << c) == 0,
{
    crate::bits::lemma_low_byte_and_zero(1u32 << c);
}

impl E1000Hw {
    /// The register sequence that resets the hardware.
    pub fn reset_hw(&self) -> (r: Vec<RegOp>)
        ensures
            r@ == reset_hw_spec(),
    {
        let r = vec![
            RegOp::Write { reg: crate::e1000::regs::IMC, val: 0xFFFF_FFFF },
            RegOp::Write { reg: crate::e1000::regs::RCTL, val: 0 },
            RegOp::Write { reg: crate::e1000::regs::TCTL, val: crate::e1000::regs::TCTL_PSP },
            RegOp::Read { reg: crate::e1000::regs::STATUS },
            RegOp::Delay { us: 10 },
            RegOp::GlobalReset,
            RegOp::Delay { us: 2000 },
            RegOp::Write { reg: crate::e1000::regs::IMC, val: 0xFFFF_FFFF },
            RegOp::Read { reg: crate::e1000::regs::ICR },
        ];
        assert(r@ =~= reset_hw_spec());
        r
    }

    /// The hardware state after power-up: full flow control negotiated,
    /// 10/100/1000 half and full duplex advertised, autonegotiation and
    /// adaptive IFS on, no MAC address yet.
    pub fn new() -> (hw: Self)
        ensures
            hw.fc == FlowControlMode::Full,
            hw.original_fc == FlowControlMode::Full,
            hw.fc_autoneg,
            hw.fc_high_water == 0,
            hw.fc_low_water == 0,
            hw.fc_pause_time == 0xFFFF,
            hw.fc_send_xon,
            hw.perm_mac_addr@ == seq![0u8, 0u8, 0u8, 0u8, 0u8, 0u8],
            hw.mac_addr@ == seq![0u8, 0u8, 0u8, 0u8, 0u8, 0u8],
            hw.phy_addr == 1,
            hw.phy_id == 0,
            hw.autoneg_advertised == 0x2F,
            hw.autoneg,
            hw.forced_speed_duplex == 0,
            !hw.wait_autoneg_complete,
            hw.get_link_status,
            hw.adaptive_ifs,
            !hw.ifs_params_forced,
            !hw.in_ifs_mode,
            hw.current_ifs_val == 0,
            hw.ifs_min_val == 0,
            hw.ifs_max_val == 0,
            hw.ifs_step_size == 0,
            hw.ifs_ratio == 0,
            hw.collision_delta == 0,
            hw.tx_packet_delta == 0,
    {
        let hw = Self {
            fc: FlowControlMode::Full,
            original_fc: FlowControlMode::Full,
            fc_autoneg: true,
            fc_high_water: 0,
            fc_low_water: 0,
            fc_pause_time: 0xFFFF,
            fc_send_xon: true,
            perm_mac_addr: [0;6],
            mac_addr: [0;6],
            phy_addr: 1,
            phy_id: 0,
            autoneg_advertised: 0x2F,
            autoneg: true,
            forced_speed_duplex: 0,
            wait_autoneg_complete: false,
            get_link_status: true,
            adaptive_ifs: true,
            ifs_params_forced: false,
            in_ifs_mode: false,
            current_ifs_val: 0,
            ifs_min_val: 0,
            ifs_max_val: 0,
            ifs_step_size: 0,
            ifs_ratio: 0,
            collision_delta: 0,
            tx_packet_delta: 0,
        };
        assert(hw.perm_mac_addr@ =~= seq![0u8, 0u8, 0u8, 0u8, 0u8, 0u8]);
        assert(hw.mac_addr@ =~= seq![0u8, 0u8, 0u8, 0u8, 0u8, 0u8]);
        hw
    }

    /// Link setup reads the MAC address from the EEPROM only while the
    /// permanent address is still all zeros.
    pub fn needs_mac_read(&self) -> (r: bool)
        ensures
            r == (self.perm_mac_addr@ == seq![0u8, 0u8, 0u8, 0u8, 0u8, 0u8]),
    {
        let a = &self.perm_mac_addr;
        let r = a[0] == 0 && a[1] == 0 && a[2] == 0 && a[3] == 0 && a[4] == 0 && a[5] == 0;
        proof {
            let z = seq![0u8, 0u8, 0u8, 0u8, 0u8, 0u8];
            if r {
                assert(a@ =~= z);
            }
            if a@ == z {
                assert(a@[0] == z[0] && a@[1] == z[1] && a@[2] == z[2] && a@[3] == z[3] && a@[4]
                    == z[4] && a@[5] == z[5]);
            }
        }
        r
    }

    /// Link setup puts the flow control mode back to the configured one.
    pub fn restore_fc(&mut self)
        ensures
            *final(self) == (E1000Hw { fc: old(self).original_fc, ..*old(self) }),
    {
        self.fc = self.original_fc;
    }

    /// Forces the MAC flow control settings: the CTRL value read is
    /// returned with both pause bits cleared and those of the current mode set.
    pub fn force_mac_fc(&self, ctrl: u32) -> (r: u32)
        ensures
            r == (ctrl & !(CTRL_TFCE | CTRL_RFCE)) | fc_ctrl_bits(self.fc),
    {
        let cleared = ctrl & !(CTRL_TFCE | CTRL_RFCE);
        match self.fc {
            FlowControlMode::Off => {
                proof {
                    crate::bits::lemma_low_byte_and_zero(cleared);
                }
                cleared
            },
            FlowControlMode::RxPause => cleared | CTRL_RFCE,
            FlowControlMode::TxPause => cleared | CTRL_TFCE,
            FlowControlMode::Full => {
                let r = cleared | CTRL_RFCE | CTRL_TFCE;
                assert(r == cleared | (0x0800_0000u32 | 0x1000_0000u32)) by (bit_vector)
                    requires
                        r == cleared | 0x0800_0000u32 | 0x1000_0000u32,
                ;
                r
            },
        }
    }

    /// Checks for link from a STATUS value: `(link up, speed, duplex)`,
    /// with no speed or duplex while the link is down. Link status must be
    /// fetched again exactly when the link is down.
    pub fn check_for_link(&mut self, status: u32) -> (r: (bool, Option<LinkSpeed>, Option<Duplex>))
        ensures
            status & STATUS_LU == 0 ==> r == (false, Option::<LinkSpeed>::None, Option::<
                Duplex,
            >::None),
            status & STATUS_LU != 0 ==> r == (true, Some(status_speed(status)), Some(
                status_duplex(status),
            )),
            *final(self) == (E1000Hw { get_link_status: status & STATUS_LU == 0, ..*old(self) }),
    {
        let link_up = (status & STATUS_LU) != 0;
        if !link_up {
            self.get_link_status = true;
            return (false, None, None);
        }
        self.get_link_status = false;
        let bits = status & STATUS_SPEED_MASK;
        let speed = if bits == STATUS_SPEED_10 {
            LinkSpeed::Speed10
        } else if bits == STATUS_SPEED_100 {
            LinkSpeed::Speed100
        } else if bits == STATUS_SPEED_1000 {
            LinkSpeed::Speed1000
        } else {
            LinkSpeed::Speed1000
        };
        let duplex = if (status & STATUS_FD) != 0 {
            Duplex::Full
        } else {
            Duplex::Half
        };
        (true, Some(speed), Some(duplex))
    }

    /// The current `(speed in Mbps, duplex code)` from a STATUS value.
    pub fn get_speed_and_duplex(&self, status: u32) -> (r: (u16, u16))
        ensures
            r.0 == (match status_speed(status) {
                LinkSpeed::Speed10 => SPEED_10,
                LinkSpeed::Speed100 => SPEED_100,
                LinkSpeed::Speed1000 => SPEED_1000,
            }),
            r.1 == (match status_duplex(status) {
                Duplex::Full => FULL_DUPLEX,
                Duplex::Half => HALF_DUPLEX,
            }),
    {
        let bits = status & STATUS_SPEED_MASK;
        let speed = if bits == STATUS_SPEED_10 {
            SPEED_10
        } else if bits == STATUS_SPEED_100 {
            SPEED_100
        } else {
            SPEED_1000
        };
        let duplex = if (status & STATUS_FD) != 0 {
            FULL_DUPLEX
        } else {
            HALF_DUPLEX
        };
        (speed, duplex)
    }

    /// Stores the MAC address read from EEPROM words 0-2 as both the
    /// permanent and the active address.
    pub fn read_mac_addr(&mut self, words: &[u16; 3])
        ensures
            final(self).perm_mac_addr@ == mac_of_words(words@),
            final(self).mac_addr@ == mac_of_words(words@),
            *final(self) == (E1000Hw {
                perm_mac_addr: final(self).perm_mac_addr,
                mac_addr: final(self).mac_addr,
                ..*old(self)
            }),
    {
        let mac = crate::e1000::eeprom::mac_from_words(words);
        self.perm_mac_addr = mac;
        self.mac_addr = mac;
    }

    /// Sets the fallback MAC address as both the permanent and the active
    /// address.
    pub fn set_fallback_mac(&mut self)
        ensures
            final(self).mac_addr@ == seq![0x52u8, 0x54u8, 0x00u8, 0x12u8, 0x34u8, 0x56u8],
            final(self).perm_mac_addr@ == final(self).mac_addr@,
            *final(self) == (E1000Hw {
                perm_mac_addr: final(self).perm_mac_addr,
                mac_addr: final(self).mac_addr,
                ..*old(self)
            }),
    {
        let mac = [0x52u8, 0x54, 0x00, 0x12, 0x34, 0x56];
        assert(mac@ =~= seq![0x52u8, 0x54u8, 0x00u8, 0x12u8, 0x34u8, 0x56u8]);
        self.mac_addr = mac;
        self.perm_mac_addr = mac;
    }

    /// Configures the collision distance: the TCTL value read with its
    /// collision distance field replaced by the full-duplex distance.
    pub fn config_collision_dist(&self, tctl: u32) -> (r: u32)
        ensures
            r == (tctl & !E1000_TCTL_COLD) | (COLLISION_DISTANCE_FD << TCTL_COLD_SHIFT),
    {
        (tctl & !E1000_TCTL_COLD) | (COLLISION_DISTANCE_FD << TCTL_COLD_SHIFT)
    }

    /// Resets adaptive IFS state; the AIT register is then written with 0.
    pub fn reset_adaptive(&mut self)
        ensures
            *final(self) == (E1000Hw {
                current_ifs_val: 0,
                ifs_min_val: IFS_MIN,
                ifs_max_val: IFS_MAX,
                ifs_step_size: IFS_STEP,
                ifs_ratio: IFS_RATIO,
                in_ifs_mode: false,
                ..*old(self)
            }),
    {
        self.current_ifs_val = 0;
        self.ifs_min_val = IFS_MIN;
        self.ifs_max_val = IFS_MAX;
        self.ifs_step_size = IFS_STEP;
        self.ifs_ratio = IFS_RATIO;
        self.in_ifs_mode = false;
    }

    /// Whether the adaptive IFS arithmetic that an update performs stays
    /// within its types: the products are formed only while adaptive IFS is
    /// active and transmissions exceed `MIN_NUM_XMITS`, and the spacing grows
    /// by a step only when it is nonzero, below its maximum and collisions
    /// are frequent.
    pub open spec fn adaptive_fits(&self) -> bool {
        let active = self.adaptive_ifs && !self.ifs_params_forced;
        let products_fit = self.collision_delta * self.ifs_ratio <= u32::MAX
            && self.tx_packet_delta * self.ifs_step_size <= u32::MAX;
        &&& (active && self.tx_packet_delta > MIN_NUM_XMITS ==> products_fit)
        &&& (active && self.tx_packet_delta > MIN_NUM_XMITS && products_fit && self.collision_delta
            * self.ifs_ratio > self.tx_packet_delta * self.ifs_step_size && self.current_ifs_val != 0
            && self.current_ifs_val < self.ifs_max_val ==> self.current_ifs_val
            + self.ifs_step_size <= u16::MAX)
    }

    /// Updates adaptive IFS from the collision and transmit deltas. When
    /// collisions are frequent (more than `MIN_NUM_XMITS` transmissions and
    /// collisions * ratio above transmissions * step) and the spacing is
    /// below its maximum, the spacing starts at its minimum or grows by one
    /// step; when transmissions are few again, spacing is switched off.
    /// Returns the value to write to the AIT register, if any.
    pub fn update_adaptive(&mut self) -> (r: Option<u32>)
        requires
            old(self).adaptive_fits(),
        ensures
            *final(self) == (E1000Hw {
                current_ifs_val: final(self).current_ifs_val,
                in_ifs_mode: final(self).in_ifs_mode,
                ..*old(self)
            }),
            ({
                let o = *old(self);
                let heavy = o.tx_packet_delta > MIN_NUM_XMITS && o.collision_delta * o.ifs_ratio
                    > o.tx_packet_delta * o.ifs_step_size;
                if !o.adaptive_ifs || o.ifs_params_forced {
                    r is None && final(self).current_ifs_val == o.current_ifs_val
                        && final(self).in_ifs_mode == o.in_ifs_mode
                } else if heavy {
                    if o.current_ifs_val < o.ifs_max_val {
                        let v = if o.current_ifs_val == 0 {
                            o.ifs_min_val as int
                        } else {
                            o.current_ifs_val + o.ifs_step_size
                        };
                        final(self).current_ifs_val == v && final(self).in_ifs_mode && r
                            == Some(v as u32)
                    } else {
                        r is None && final(self).current_ifs_val == o.current_ifs_val
                            && final(self).in_ifs_mode == o.in_ifs_mode
                    }
                } else if o.in_ifs_mode && o.tx_packet_delta <= MIN_NUM_XMITS {
                    final(self).current_ifs_val == 0 && !final(self).in_ifs_mode && r == Some(
                        0u32,
                    )
                } else {
                    r is None && final(self).current_ifs_val == o.current_ifs_val
                        && final(self).in_ifs_mode == o.in_ifs_mode
                }
            }),
    {
        if !self.adaptive_ifs {
            return None;
        }
        if self.ifs_params_forced {
            return None;
        }
        if self.tx_packet_delta > MIN_NUM_XMITS && self.collision_delta * self.ifs_ratio as u32
            > self.tx_packet_delta * self.ifs_step_size as u32 {
            if self.current_ifs_val < self.ifs_max_val {
                if self.current_ifs_val == 0 {
                    self.current_ifs_val = self.ifs_min_val;
                } else {
                    self.current_ifs_val = self.current_ifs_val + self.ifs_step_size;
                }
                self.in_ifs_mode = true;
                return Some(self.current_ifs_val as u32);
            }
            None
        } else if self.in_ifs_mode && self.tx_packet_delta <= MIN_NUM_XMITS {
            self.current_ifs_val = 0;
            self.in_ifs_mode = false;
            Some(0)
        } else {
            None
        }
    }

    /// Computes the hash value for a multicast address: bits 47:36.
    pub fn hash_mc_addr(&self, mc_addr: &[u8; 6]) -> (r: u32)
        ensures
            r == mc_hash(mc_addr@),
    {
        let a4 = mc_addr[4] as u32;
        let a5 = mc_addr[5] as u32;
        let h = ((a4 >> 4u32) | (a5 << 4u32)) & 0xFFF;
        assert(h == (a4 / 16 + a5 * 16) % 0x1000) by (bit_vector)
            requires
                a4 < 256,
                a5 < 256,
                h == ((a4 >> 4u32) | (a5 << 4u32)) & 0xFFF,
        ;
        h
    }

    /// The Multicast Table Array for a list of multicast addresses: bit
    /// `b` of entry `i` is set exactly when some address hashes to
    /// `32 * i + b`.
    pub fn update_mc_addr_list(&self, mc_addrs: &[[u8; 6]]) -> (r: Vec<u32>)
        ensures
            r.len() == NUM_MTA_REGISTERS,
            forall|i: int, b: int|
                0 <= i < NUM_MTA_REGISTERS && 0 <= b < 32 ==> (bit_of(r@[i], b) <==> exists|
                    k: int,
                |
                    0 <= k < mc_addrs@.len() && mc_hash(#[trigger] mc_addrs@[k]@) == 32 * i + b),
    {
        let mut mta: Vec<u32> = Vec::new();
        let mut j: usize = 0;
        while j < NUM_MTA_REGISTERS
            invariant
                j <= NUM_MTA_REGISTERS,
                mta.len() == j,
                forall|i: int| 0 <= i < j ==> mta@[i] == 0,
            decreases NUM_MTA_REGISTERS - j,
        {
            mta.push(0);
            j = j + 1;
        }
        assert forall|i: int, b: int|
            0 <= i < NUM_MTA_REGISTERS && 0 <= b < 32 implies !bit_of(mta@[i], b) by {
            lemma_zero_bits(b as u32);
        }
        let mut k: usize = 0;
        while k < mc_addrs.len()
            invariant
                k <= mc_addrs.len(),
                mta.len() == NUM_MTA_REGISTERS,
                forall|i: int, b: int|
                    0 <= i < NUM_MTA_REGISTERS && 0 <= b < 32 ==> (bit_of(mta@[i], b) <==> exists|
                        q: int,
                    |
                        0 <= q < k && mc_hash(#[trigger] mc_addrs@[q]@) == 32 * i + b),
            decreases mc_addrs.len() - k,
        {
            let hash = self.hash_mc_addr(&mc_addrs[k]);
            let reg_index = (hash >> 5u32) as usize;
            let bit_index = hash & 0x1F;
            proof {
                crate::bits::lemma_low_bits(hash);
            }
            let old_val = mta[reg_index];
            let ghost before = mta@;
            mta.set(reg_index, old_val | (1u32 << bit_index));
            assert forall|i: int, b: int|
                0 <= i < NUM_MTA_REGISTERS && 0 <= b < 32 implies (bit_of(mta@[i], b) <==> exists|
                q: int,
            |
                0 <= q < k + 1 && mc_hash(#[trigger] mc_addrs@[q]@) == 32 * i + b) by {
                if i == reg_index {
                    lemma_set_bit(old_val, bit_index, b as u32);
                } 
                if exists|q: int| 0 <= q < k + 1 && mc_hash(#[trigger] mc_addrs@[q]@) == 32 * i + b {
                    let q = choose|q: int| 0 <= q < k + 1 && mc_hash(#[trigger] mc_addrs@[q]@) == 32 * i + b;
                    if q < k {
                        assert(bit_of(before[i], b));
                    }
                }
                if bit_of(before[i], b) {
                    let q = choose|q: int| 0 <= q < k && mc_hash(#[trigger] mc_addrs@[q]@) == 32 * i + b;
                    assert(0 <= q < k + 1);
                }
                if i == reg_index && b == bit_index {
                    assert(mc_hash(mc_addrs@[k as int]@) == 32 * i + b);
                }
            }
            k = k + 1;
        }
        mta
    }
}

} // verus!
