//! PHY access and link configuration of the 82540EM's M88E1000 PHY: the
//! MDIC commands and their completion, PHY identification, reset, copper
//! link, autonegotiation advertisement, forced speed and duplex, and the
//! PHY-specific status.

use vstd::prelude::*;

use crate::e1000::hw::{E1000Hw, FlowControlMode};
use crate::e1000::regs::{
    CR_1000T_FD_CAPS, CR_1000T_HD_CAPS, CTRL_ASDE, CTRL_FRCDPX, CTRL_FRCSPD, CTRL_PHY_RST,
    CTRL_SLU, FULL_DUPLEX, HALF_DUPLEX, M88E1000_PSCR_ASSERT_CRS_ON_TX,
    M88E1000_PSCR_AUTO_X_1000T, M88E1000_PSCR_AUTO_X_MODE, M88E1000_PSCR_POLARITY_REVERSAL,
    M88E1000_PSSR_1000MBS, M88E1000_PSSR_100MBS, M88E1000_PSSR_DPLX, M88E1000_PSSR_LINK,
    M88E1000_PSSR_SPEED_MASK, MDIC_DATA_MASK, MDIC_ERROR, MDIC_OP_READ, MDIC_OP_WRITE,
    MDIC_PHY_MASK, MDIC_PHY_SHIFT, MDIC_READY, MDIC_REG_MASK, MDIC_REG_SHIFT,
    MII_CR_AUTO_NEG_EN, MII_CR_FULL_DUPLEX, MII_CR_RESET, MII_CR_RESTART_AUTO_NEG,
    MII_CR_SPEED_100, MII_CR_SPEED_1000, MII_CR_SPEED_SELECT_LSB, MII_CR_SPEED_SELECT_MSB,
    NWAY_AR_100TX_FD_CAPS, NWAY_AR_100TX_HD_CAPS, NWAY_AR_10T_FD_CAPS, NWAY_AR_10T_HD_CAPS,
    NWAY_AR_ASM_DIR, NWAY_AR_PAUSE, SPEED_10, SPEED_100, SPEED_1000,
};

verus! {

/// Reads of MDIC while waiting for a PHY access to complete.
pub const MDIC_POLL_TRIES: u32 = 64;

/// Delay before each of those reads, in microseconds.
pub const MDIC_POLL_DELAY_US: u32 = 1;

/// Delay while the PHY reset line is held, in microseconds.
pub const PHY_RESET_HOLD_US: u32 = 10;

/// Delay for the PHY to recover from a hardware reset, in microseconds.
pub const PHY_RESET_RECOVER_US: u32 = 150;

/// Delay for a software PHY reset to complete, in microseconds.
pub const PHY_SOFT_RESET_US: u32 = 1000;

/// The MII control power-down bit.
pub const MII_CR_POWER_DOWN: u16 = 0x0800;

/// Errors of PHY register access.
#[derive(Debug, Clone, Copy, PartialEq, Eq, Structural)]
pub enum PhyError {
    /// MDIC reported an error on a read.
    ReadError,
    /// MDIC never reported completion of a read.
    ReadTimeout,
    /// MDIC reported an error on a write.
    WriteError,
    /// MDIC never reported completion of a write.
    WriteTimeout,
}

/// The register and PHY address fields of an MDIC command.
pub open spec fn mdic_addr_bits(reg_addr: u32, phy_addr: u32) -> int {
    (reg_addr % 32) * 0x1_0000 + (phy_addr % 32) * 0x20_0000
}

/// The register and PHY address fields of an MDIC command.
fn mdic_addr(reg_addr: u32, phy_addr: u32) -> (r: u32)
    ensures
        r == mdic_addr_bits(reg_addr, phy_addr),
{
    let r = ((reg_addr << MDIC_REG_SHIFT) & MDIC_REG_MASK) | ((phy_addr << MDIC_PHY_SHIFT)
        & MDIC_PHY_MASK);
    assert(r == (reg_addr % 32) * 0x1_0000 + (phy_addr % 32) * 0x20_0000) by (bit_vector)
        requires
            r == ((reg_addr << 16u32) & 0x001F0000u32) | ((phy_addr << 21u32) & 0x03E00000u32),
    ;
    r
}

/// The MDIC command that reads PHY register `reg_addr`.
pub fn mdic_read_cmd(hw: &E1000Hw, reg_addr: u32) -> (r: u32)
    ensures
        r == mdic_addr_bits(reg_addr, hw.phy_addr) + MDIC_OP_READ,
{
    let a = mdic_addr(reg_addr, hw.phy_addr);
    let r = a | MDIC_OP_READ;
    assert(r == a + 0x0800_0000u32) by (bit_vector)
        requires
            a < 0x0400_0000u32,
            r == a | 0x0800_0000u32,
    ;
    r
}

/// The MDIC command that writes `data` to PHY register `reg_addr`.
pub fn mdic_write_cmd(hw: &E1000Hw, reg_addr: u32, data: u16) -> (r: u32)
    ensures
        r == data + mdic_addr_bits(reg_addr, hw.phy_addr) + MDIC_OP_WRITE,
{
    let a = mdic_addr(reg_addr, hw.phy_addr);
    proof {
        lemma_mdic_addr_low_clear(reg_addr, hw.phy_addr);
    }
    let d = data as u32;
    let r = d | a | MDIC_OP_WRITE;
    assert(r == d + a + 0x0400_0000u32) by (bit_vector)
        requires
            d < 0x1_0000u32,
            a & 0xFFFFu32 == 0,
            a < 0x0400_0000u32,
            r == d | a | 0x0400_0000u32,
    ;
    r
}

/// The low 16 bits of a multiple of 0x10000 are clear.
proof fn lemma_mdic_addr_low_clear(reg_addr: u32, phy_addr: u32)
    ensures
        (mdic_addr_bits(reg_addr, phy_addr) as u32) & 0xFFFFu32 == 0,
{
    let a = mdic_addr_bits(reg_addr, phy_addr);
    assert(a % 0x1_0000 == 0);
    let x = a as u32;
    crate::bits::lemma_low_bits(x);
}

/// The state of an MDIC register after a poll read.
#[derive(Debug, Clone, Copy, PartialEq, Eq, Structural)]
pub enum MdicStatus {
    /// The access has not completed.
    Busy,
    /// The access completed with an error.
    Failed,
    /// The access completed; the data field holds `data`.
    Ready(u16),
}

/// Decodes an MDIC value read while waiting for an access.
pub fn mdic_status(val: u32) -> (r: MdicStatus)
    ensures
        val & MDIC_READY == 0 ==> r == MdicStatus::Busy,
        val & MDIC_READY != 0 && val & MDIC_ERROR != 0 ==> r == MdicStatus::Failed,
        val & MDIC_READY != 0 && val & MDIC_ERROR == 0 ==> r == MdicStatus::Ready(
            (val % 0x1_0000) as u16,
        ),
{
    if val & MDIC_READY != 0 {
        if val & MDIC_ERROR != 0 {
            return MdicStatus::Failed;
        }
        let d = (val & MDIC_DATA_MASK) as u16;
        proof {
            crate::bits::lemma_u32_halves(val);
        }
        MdicStatus::Ready(d)
    } else {
        MdicStatus::Busy
    }
}

/// The outcome of a PHY register read whose last MDIC poll gave
/// `status`: the data when ready, `ReadError` on an MDIC error, and
/// `ReadTimeout` when the access was still pending after the last poll.
pub fn mdic_read_result(status: MdicStatus) -> (r: Result<u16, PhyError>)
    ensures
        status matches MdicStatus::Ready(d) ==> r == Ok::<u16, PhyError>(d),
        status == MdicStatus::Failed ==> r == Err::<u16, PhyError>(PhyError::ReadError),
        status == MdicStatus::Busy ==> r == Err::<u16, PhyError>(PhyError::ReadTimeout),
{
    match status {
        MdicStatus::Ready(d) => Ok(d),
        MdicStatus::Failed => Err(PhyError::ReadError),
        MdicStatus::Busy => Err(PhyError::ReadTimeout),
    }
}

/// The outcome of a PHY register write whose last MDIC poll gave
/// `status`: success when ready, `WriteError` on an MDIC error, and
/// `WriteTimeout` when the access was still pending after the last poll.
pub fn mdic_write_result(status: MdicStatus) -> (r: Result<(), PhyError>)
    ensures
        status is Ready ==> r == Ok::<(), PhyError>(()),
        status == MdicStatus::Failed ==> r == Err::<(), PhyError>(PhyError::WriteError),
        status == MdicStatus::Busy ==> r == Err::<(), PhyError>(PhyError::WriteTimeout),
{
    match status {
        MdicStatus::Ready(_) => Ok(()),
        MdicStatus::Failed => Err(PhyError::WriteError),
        MdicStatus::Busy => Err(PhyError::WriteTimeout),
    }
}

/// The PHY identifier from PHY_ID1 and PHY_ID2: ID1 in the high half, ID2
/// without its revision bits in the low half.
pub fn detect_phy(id1: u16, id2: u16) -> (r: u32)
    ensures
        r == id1 as int * 0x1_0000 + (id2 as int / 16) * 16,
{
    let a = id1 as u32;
    let b = id2 as u32;
    let r = (a << 16u32) | (b & 0xFFF0);
    assert(r == a * 0x1_0000 + (b / 16) * 16) by (bit_vector)
        requires
            a < 0x1_0000u32,
            b < 0x1_0000u32,
            r == (a << 16u32) | (b & 0xFFF0u32),
    ;
    r
}

/// The CTRL value that holds the PHY in hardware reset.
pub fn phy_hw_reset(ctrl: u32) -> (r: u32)
    ensures
        r == ctrl | CTRL_PHY_RST,
{
    ctrl | CTRL_PHY_RST
}

/// The MII control value that starts a software PHY reset.
pub fn phy_reset(mii_ctrl: u16) -> (r: u16)
    ensures
        r == mii_ctrl | MII_CR_RESET,
{
    mii_ctrl | MII_CR_RESET
}

/// The M88 PHY-specific control value of the copper link setup: CRS
/// asserted on transmit, automatic crossover in 1000T mode, polarity
/// reversal off.
pub fn m88_phy_spec_ctrl(phy_data: u16) -> (r: u16)
    ensures
        r == ((((phy_data | M88E1000_PSCR_ASSERT_CRS_ON_TX) & !M88E1000_PSCR_AUTO_X_MODE)
            | M88E1000_PSCR_AUTO_X_1000T) & !M88E1000_PSCR_POLARITY_REVERSAL),
{
    let mut d = phy_data | M88E1000_PSCR_ASSERT_CRS_ON_TX;
    d = d & !M88E1000_PSCR_AUTO_X_MODE;
    d = d | M88E1000_PSCR_AUTO_X_1000T;
    d & !M88E1000_PSCR_POLARITY_REVERSAL
}

/// The CTRL value that forces link up at the end of the copper link
/// setup; with autonegotiation, speed detection is automatic and neither
/// speed nor duplex is forced.
pub fn copper_link_ctrl(hw: &E1000Hw, ctrl: u32) -> (r: u32)
    ensures
        hw.autoneg ==> r == ((ctrl | CTRL_SLU) | CTRL_ASDE) & !(CTRL_FRCSPD | CTRL_FRCDPX),
        !hw.autoneg ==> r == ctrl | CTRL_SLU,
{
    let mut c = ctrl | CTRL_SLU;
    if hw.autoneg {
        c = c | CTRL_ASDE;
        c = c & !(CTRL_FRCSPD | CTRL_FRCDPX);
    }
    c
}

/// The autonegotiation advertisement bits of the 10/100 register for an
/// advertised-capabilities mask (bits 0-3: 10 half, 10 full, 100 half,
/// 100 full).
pub open spec fn adv_10_100_bits(advertised: u16) -> u16 {
    ((if advertised & 0x01 != 0 { NWAY_AR_10T_HD_CAPS } else { 0 }) | (if advertised & 0x02
        != 0 {
        NWAY_AR_10T_FD_CAPS
    } else {
        0
    }) | (if advertised & 0x04 != 0 { NWAY_AR_100TX_HD_CAPS } else { 0 }) | (if advertised
        & 0x08 != 0 {
        NWAY_AR_100TX_FD_CAPS
    } else {
        0
    }))
}

/// The 1000BASE-T advertisement bits for the capabilities mask (bit 4:
/// 1000 half, bit 5: 1000 full).
pub open spec fn adv_1000_bits(advertised: u16) -> u16 {
    (if advertised & 0x10 != 0 { CR_1000T_HD_CAPS } else { 0 }) | (if advertised & 0x20 != 0 {
        CR_1000T_FD_CAPS
    } else {
        0
    })
}

/// The pause bits advertised for a flow control mode, applied to an
/// advertisement value `adv`.
pub open spec fn adv_pause(adv: u16, fc: FlowControlMode) -> u16 {
    match fc {
        FlowControlMode::Off => adv & !(NWAY_AR_PAUSE | NWAY_AR_ASM_DIR),
        FlowControlMode::RxPause => adv | (NWAY_AR_PAUSE | NWAY_AR_ASM_DIR),
        FlowControlMode::TxPause => (adv | NWAY_AR_ASM_DIR) & !NWAY_AR_PAUSE,
        FlowControlMode::Full => adv | (NWAY_AR_PAUSE | NWAY_AR_ASM_DIR),
    }
}

/// The values written to the autonegotiation advertisement register and
/// to the 1000BASE-T control register, from the values read from them:
/// the speed capabilities replaced by the advertised ones and the pause
/// bits set for the flow control mode.
pub fn setup_autoneg(hw: &E1000Hw, mii_autoneg_adv: u16, mii_1000t_ctrl: u16) -> (r: (u16, u16))
    ensures
        r.0 == adv_pause(
            (mii_autoneg_adv & !(NWAY_AR_100TX_FD_CAPS | NWAY_AR_100TX_HD_CAPS | NWAY_AR_10T_FD_CAPS
                | NWAY_AR_10T_HD_CAPS)) | adv_10_100_bits(hw.autoneg_advertised),
            hw.fc,
        ),
        r.1 == (mii_1000t_ctrl & !(CR_1000T_HD_CAPS | CR_1000T_FD_CAPS)) | adv_1000_bits(
            hw.autoneg_advertised,
        ),
{
    let mut adv = mii_autoneg_adv & !(NWAY_AR_100TX_FD_CAPS | NWAY_AR_100TX_HD_CAPS
        | NWAY_AR_10T_FD_CAPS | NWAY_AR_10T_HD_CAPS);
    let mut t1000 = mii_1000t_ctrl & !(CR_1000T_HD_CAPS | CR_1000T_FD_CAPS);
    let ghost adv0 = adv;
    let ghost t0 = t1000;
    let advertised = hw.autoneg_advertised;
    let b0: u16 = if advertised & 0x01 != 0 { NWAY_AR_10T_HD_CAPS } else { 0 };
    let b1: u16 = if advertised & 0x02 != 0 { NWAY_AR_10T_FD_CAPS } else { 0 };
    let b2: u16 = if advertised & 0x04 != 0 { NWAY_AR_100TX_HD_CAPS } else { 0 };
    let b3: u16 = if advertised & 0x08 != 0 { NWAY_AR_100TX_FD_CAPS } else { 0 };
    let b4: u16 = if advertised & 0x10 != 0 { CR_1000T_HD_CAPS } else { 0 };
    let b5: u16 = if advertised & 0x20 != 0 { CR_1000T_FD_CAPS } else { 0 };
    adv = adv | b0;
    adv = adv | b1;
    adv = adv | b2;
    adv = adv | b3;
    t1000 = t1000 | b4;
    t1000 = t1000 | b5;
    assert(((((adv0 | b0) | b1) | b2) | b3) == adv0 | (((b0 | b1) | b2) | b3)) by (bit_vector);
    assert(((t0 | b4) | b5) == t0 | (b4 | b5)) by (bit_vector);
    match hw.fc {
        FlowControlMode::Off => {
            adv = adv & !(NWAY_AR_PAUSE | NWAY_AR_ASM_DIR);
        },
        FlowControlMode::RxPause => {
            adv = adv | NWAY_AR_PAUSE | NWAY_AR_ASM_DIR;
            assert(adv == (adv0 | (((b0 | b1) | b2) | b3)) | (0x0400u16 | 0x0800u16)) by (bit_vector)
                requires
                    adv == ((adv0 | (((b0 | b1) | b2) | b3)) | 0x0400u16) | 0x0800u16,
            ;
        },
        FlowControlMode::TxPause => {
            adv = adv | NWAY_AR_ASM_DIR;
            adv = adv & !NWAY_AR_PAUSE;
        },
        FlowControlMode::Full => {
            adv = adv | NWAY_AR_PAUSE | NWAY_AR_ASM_DIR;
            assert(adv == (adv0 | (((b0 | b1) | b2) | b3)) | (0x0400u16 | 0x0800u16)) by (bit_vector)
                requires
                    adv == ((adv0 | (((b0 | b1) | b2) | b3)) | 0x0400u16) | 0x0800u16,
            ;
        },
    }
    (adv, t1000)
}

/// The MII control value that enables and restarts autonegotiation.
pub fn restart_autoneg(mii_ctrl: u16) -> (r: u16)
    ensures
        r == mii_ctrl | (MII_CR_AUTO_NEG_EN | MII_CR_RESTART_AUTO_NEG),
{
    let r = mii_ctrl | MII_CR_AUTO_NEG_EN | MII_CR_RESTART_AUTO_NEG;
    assert(r == mii_ctrl | (0x1000u16 | 0x0200u16)) by (bit_vector)
        requires
            r == (mii_ctrl | 0x1000u16) | 0x0200u16,
    ;
    r
}

/// The speed bits of a forced link: 10 Mbps for code 0x10, 100 Mbps for
/// 0x20, 1000 Mbps otherwise (high nibble of the forced speed/duplex).
pub open spec fn forced_speed_bits(fsd: u8) -> u16 {
    if fsd & 0xF0 == 0x10 {
        0
    } else if fsd & 0xF0 == 0x20 {
        MII_CR_SPEED_100
    } else {
        MII_CR_SPEED_1000
    }
}

/// The MII control value of a forced link: autonegotiation off, the
/// forced speed, and full duplex when bit 0 of the setting is set.
pub fn setup_forced_link(hw: &E1000Hw, mii_ctrl: u16) -> (r: u16)
    ensures
        ({
            let base = (mii_ctrl & !MII_CR_AUTO_NEG_EN) & !(MII_CR_SPEED_SELECT_MSB
                | MII_CR_SPEED_SELECT_LSB);
            let sp = base | forced_speed_bits(hw.forced_speed_duplex);
            r == if hw.forced_speed_duplex & 0x01 != 0 {
                sp | MII_CR_FULL_DUPLEX
            } else {
                sp & !MII_CR_FULL_DUPLEX
            }
        }),
{
    let mut c = mii_ctrl & !MII_CR_AUTO_NEG_EN;
    c = c & !(MII_CR_SPEED_SELECT_MSB | MII_CR_SPEED_SELECT_LSB);
    let nib = hw.forced_speed_duplex & 0xF0;
    if nib == 0x10 {
        assert(c | 0 == c) by (bit_vector);
    } else if nib == 0x20 {
        c = c | MII_CR_SPEED_100;
    } else {
        c = c | MII_CR_SPEED_1000;
    }
    if hw.forced_speed_duplex & 0x01 != 0 {
        c = c | MII_CR_FULL_DUPLEX;
    } else {
        c = c & !MII_CR_FULL_DUPLEX;
    }
    c
}

/// `(link up, speed in Mbps, duplex code)` from the M88 PHY-specific
/// status register.
pub fn get_phy_info(phy_status: u16) -> (r: (bool, u16, u16))
    ensures
        r.0 == (phy_status & M88E1000_PSSR_LINK != 0),
        r.1 == (if phy_status & M88E1000_PSSR_SPEED_MASK == M88E1000_PSSR_1000MBS {
            SPEED_1000
        } else if phy_status & M88E1000_PSSR_SPEED_MASK == M88E1000_PSSR_100MBS {
            SPEED_100
        } else {
            SPEED_10
        }),
        r.2 == (if phy_status & M88E1000_PSSR_DPLX != 0 {
            FULL_DUPLEX
        } else {
            HALF_DUPLEX
        }),
{
    let link = (phy_status & M88E1000_PSSR_LINK) != 0;
    let bits = phy_status & M88E1000_PSSR_SPEED_MASK;
    let speed = if bits == M88E1000_PSSR_1000MBS {
        SPEED_1000
    } else if bits == M88E1000_PSSR_100MBS {
        SPEED_100
    } else {
        SPEED_10
    };
    let duplex = if (phy_status & M88E1000_PSSR_DPLX) != 0 {
        FULL_DUPLEX
    } else {
        HALF_DUPLEX
    };
    (link, speed, duplex)
}

/// The MII control value that powers the PHY up: the power-down bit cleared.
pub fn power_up_phy(mii_ctrl: u16) -> (r: u16)
    ensures
        r == mii_ctrl & !MII_CR_POWER_DOWN,
{
    mii_ctrl & !MII_CR_POWER_DOWN
}

} // verus!
