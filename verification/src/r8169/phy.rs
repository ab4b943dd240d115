//! PHY register access for the RTL8168g through its OCP window.
//!
//! On the 8168g the PHY registers are reached through an on-chip
//! peripheral (OCP) window. Writing the MII page register `0x1f` only moves
//! the window base and touches no hardware; every other register access is
//! one OCP read or write at an address computed from the base. `PhyAccess`
//! keeps the base and computes each access; the caller performs the OCP
//! and ERI register traffic.

use vstd::prelude::*;

use crate::r8169::regs::{
    ERIAR_EXGMAC, ERIAR_FLAG, ERIAR_MASK_1111, ERIAR_READ_CMD, ERIAR_WRITE_CMD, FULL_DUP,
    GBPS_F_1000, LINK_STATUS_FLAG, MBPS_10, MBPS_100, OCPAR_FLAG, OCP_STD_PHY_BASE,
};

verus! {

/// MII Basic Mode Control Register.
pub const MII_BMCR: u32 = 0x00;

/// BMCR bit: software reset.
pub const BMCR_RESET: u16 = 0x8000;

/// BMCR bit: power down.
pub const BMCR_PDOWN: u16 = 0x0800;

/// The MII page-select register.
pub const MII_PAGE_SELECT: u32 = 0x1f;

/// ERI register touched by the suspend quirk.
pub const SUSPEND_QUIRK_ERI_ADDR: u32 = 0x1a8;

/// ERI bits touched by the suspend quirk.
pub const SUSPEND_QUIRK_ERI_BITS: u32 = 0xfc00_0000;

/// Reads of GPHY_OCP while waiting for an OCP access to complete.
pub const GPHY_OCP_POLL_TRIES: u32 = 10;

/// Delay between two of those reads, in microseconds.
pub const GPHY_OCP_POLL_DELAY_US: u32 = 25;

/// Reads of ERIAR while waiting for an ERI access to complete.
pub const ERIAR_POLL_TRIES: u32 = 100;

/// Delay between two of those reads, in microseconds.
pub const ERIAR_POLL_DELAY_US: u32 = 100;

/// The window base selected by writing `value` to the page register.
pub open spec fn base_for_page(value: u16) -> u32 {
    if value != 0 {
        ((value as u32) * 16) as u32
    } else {
        OCP_STD_PHY_BASE
    }
}

/// The page number that reading the page register reports for `base`.
pub open spec fn page_of_base(base: u32) -> u16 {
    if base == OCP_STD_PHY_BASE {
        0
    } else {
        (base / 16) as u16
    }
}

/// The register offset inside the window: paged windows start at register 0x10.
pub open spec fn adjusted_reg(base: u32, reg: u32) -> u32 {
    if base != OCP_STD_PHY_BASE {
        reg.wrapping_sub(0x10)
    } else {
        reg
    }
}

/// The OCP address of register `reg` in the window at `base`.
pub open spec fn ocp_addr(base: u32, reg: u32) -> int {
    base as int + adjusted_reg(base, reg) as int * 2
}

/// How a register write reaches the hardware.
#[derive(Debug, Clone, Copy, PartialEq, Eq, Structural)]
pub enum MdioWrite {
    /// A page-register write: only the window base moved.
    PageSelect,
    /// An OCP write of `data` at `addr`. With `quirk` set, the suspend
    /// quirk runs first: `Some(true)` sets the quirk ERI bits and
    /// `Some(false)` clears them.
    Ocp { addr: u32, data: u16, quirk: Option<bool> },
}

/// How a register read reaches the hardware.
#[derive(Debug, Clone, Copy, PartialEq, Eq, Structural)]
pub enum MdioRead {
    /// A page-register read: the page is known without any access.
    Page(u16),
    /// An OCP read at `addr`.
    Ocp { addr: u32 },
}

/// The PHY access state: the base of the OCP window.
pub struct PhyAccess {
    ocp_base: u32,
}

/// Whether the suspend quirk sets the quirk ERI bits for a BMCR write of
/// `value`: it does for a reset or for anything but a power-down.
pub open spec fn suspend_quirk_sets(value: u16) -> bool {
    value & BMCR_RESET != 0 || value & BMCR_PDOWN == 0
}

impl PhyAccess {
    /// The current window base.
    pub closed spec fn base(&self) -> u32 {
        self.ocp_base
    }

    /// The base is the standard one or the base of some nonzero page.
    pub closed spec fn wf(&self) -> bool {
        self.ocp_base == OCP_STD_PHY_BASE || (self.ocp_base % 16 == 0 && 16 <= self.ocp_base
            <= 0xffff0)
    }

    /// Register `reg` of the current window has an OCP address that fits
    /// in 32 bits.
    pub open spec fn reg_in_window(&self, reg: u32) -> bool {
        ocp_addr(self.base(), reg) <= u32::MAX
    }

    /// Creates a new PHY accessor with the standard OCP base.
    pub fn new() -> (p: Self)
        ensures
            p.wf(),
            p.base() == OCP_STD_PHY_BASE,
    {
        PhyAccess { ocp_base: OCP_STD_PHY_BASE }
    }

    /// The current window base.
    pub fn ocp_base(&self) -> (r: u32)
        ensures
            r == self.base(),
    {
        self.ocp_base
    }

    /// Validates that an OCP register address is even and fits in the
    /// 16-bit address field.
    pub fn ocp_reg_ok(reg: u32) -> (r: bool)
        ensures
            r == (reg % 2 == 0 && reg < 0x10000),
    {
        let r = (reg & 1) == 0 && reg < 0x10000;
        proof {
            crate::bits::lemma_low_bits(reg);
        }
        r
    }

    /// The GPHY_OCP command that writes `data` to OCP register `reg`, or
    /// `None` (no access at all) for an invalid register.
    pub fn ocp_write_cmd(reg: u32, data: u16) -> (r: Option<u32>)
        ensures
            !(reg % 2 == 0 && reg < 0x10000) ==> r is None,
            (reg % 2 == 0 && reg < 0x10000) ==> r == Some(
                (OCPAR_FLAG as int + reg as int * 0x8000 + data as int) as u32,
            ),
    {
        if !Self::ocp_reg_ok(reg) {
            return None;
        }
        let d = data as u32;
        proof {
            crate::bits::lemma_low_bits(reg);
        }
        let cmd = OCPAR_FLAG | (reg << 15u32) | d;
        assert(cmd == 0x8000_0000u32 + reg * 0x8000u32 + d) by (bit_vector)
            requires
                reg < 0x10000u32,
                reg & 1 == 0,
                d < 0x10000u32,
                cmd == 0x8000_0000u32 | (reg << 15u32) | d,
        ;
        Some(cmd)
    }

    /// The GPHY_OCP command that starts a read of OCP register `reg`, or
    /// `None` (the read yields 0 without any access) for an invalid register.
    pub fn ocp_read_cmd(reg: u32) -> (r: Option<u32>)
        ensures
            !(reg % 2 == 0 && reg < 0x10000) ==> r is None,
            (reg % 2 == 0 && reg < 0x10000) ==> r == Some((reg as int * 0x8000) as u32),
    {
        if !Self::ocp_reg_ok(reg) {
            return None;
        }
        let cmd = reg << 15u32;
        assert(cmd == reg * 0x8000) by (bit_vector)
            requires
                reg < 0x10000,
                cmd == reg << 15u32,
        ;
        Some(cmd)
    }

    /// The data half of a completed GPHY_OCP read.
    pub fn ocp_read_data(v: u32) -> (r: u16)
        ensures
            r == v % 0x1_0000,
    {
        let r = (v & 0xffff) as u16;
        proof {
            crate::bits::lemma_u32_halves(v);
        }
        r
    }

    /// Whether a GPHY_OCP or ERIAR value has its flag bit set.
    pub fn flag_set(v: u32) -> (r: bool)
        ensures
            r == (v & OCPAR_FLAG != 0),
            OCPAR_FLAG == ERIAR_FLAG,
    {
        v & OCPAR_FLAG != 0
    }

    /// Performs the window bookkeeping of a register write and says how the
    /// write reaches the hardware.
    pub fn mdio_write(&mut self, reg: u32, value: u16) -> (r: MdioWrite)
        requires
            old(self).wf(),
            reg != MII_PAGE_SELECT ==> old(self).reg_in_window(reg),
        ensures
            final(self).wf(),
            reg == MII_PAGE_SELECT ==> r == MdioWrite::PageSelect && final(self).base()
                == base_for_page(value),
            reg != MII_PAGE_SELECT ==> final(self).base() == old(self).base() && r
                == (MdioWrite::Ocp {
                addr: ocp_addr(old(self).base(), reg) as u32,
                data: value,
                quirk: if old(self).base() == OCP_STD_PHY_BASE && adjusted_reg(
                    old(self).base(),
                    reg,
                ) == MII_BMCR {
                    Some(suspend_quirk_sets(value))
                } else {
                    None
                },
            }),
    {
        if reg == MII_PAGE_SELECT {
            self.ocp_base = if value != 0 {
                (value as u32) << 4u32
            } else {
                OCP_STD_PHY_BASE
            };
            proof {
                if value != 0 {
                    let b = self.ocp_base;
                    assert(b == value as u32 * 16 && b % 16 == 0 && 16 <= b <= 0xffff0)
                        by (bit_vector)
                        requires
                            value != 0,
                            b == (value as u32) << 4u32,
                    ;
                }
            }
            return MdioWrite::PageSelect;
        }
        let adjusted = if self.ocp_base != OCP_STD_PHY_BASE {
            reg.wrapping_sub(0x10)
        } else {
            reg
        };
        let quirk = if self.ocp_base == OCP_STD_PHY_BASE && adjusted == MII_BMCR {
            Some((value & BMCR_RESET != 0) || (value & BMCR_PDOWN == 0))
        } else {
            None
        };
        MdioWrite::Ocp { addr: self.ocp_base + adjusted * 2, data: value, quirk }
    }

    /// Says how a register read reaches the hardware.
    pub fn mdio_read(&self, reg: u32) -> (r: MdioRead)
        requires
            self.wf(),
            reg != MII_PAGE_SELECT ==> self.reg_in_window(reg),
        ensures
            reg == MII_PAGE_SELECT ==> r == MdioRead::Page(page_of_base(self.base())),
            reg != MII_PAGE_SELECT ==> r == (MdioRead::Ocp {
                addr: ocp_addr(self.base(), reg) as u32,
            }),
    {
        if reg == MII_PAGE_SELECT {
            if self.ocp_base == OCP_STD_PHY_BASE {
                return MdioRead::Page(0);
            }
            let b = self.ocp_base;
            proof {
                crate::bits::lemma_low_bits(b);
            }
            return MdioRead::Page((b >> 4u32) as u16);
        }
        let adjusted = if self.ocp_base != OCP_STD_PHY_BASE {
            reg.wrapping_sub(0x10)
        } else {
            reg
        };
        MdioRead::Ocp { addr: self.ocp_base + adjusted * 2 }
    }

    /// Selects a PHY page and returns the page that was selected before.
    pub fn phy_select_page(&mut self, page: u16) -> (old_page: u16)
        requires
            old(self).wf(),
        ensures
            final(self).wf(),
            old_page == page_of_base(old(self).base()),
            final(self).base() == base_for_page(page),
    {
        let old_page = match self.mdio_read(MII_PAGE_SELECT) {
            MdioRead::Page(p) => p,
            MdioRead::Ocp { .. } => 0,
        };
        self.mdio_write(MII_PAGE_SELECT, page);
        old_page
    }

    /// Restores a previously selected PHY page.
    pub fn phy_restore_page(&mut self, old_page: u16)
        requires
            old(self).wf(),
        ensures
            final(self).wf(),
            final(self).base() == base_for_page(old_page),
    {
        self.mdio_write(MII_PAGE_SELECT, old_page);
    }

    /// The value written back by a read-modify-write: the bits of `mask`
    /// cleared, then the bits of `set` set.
    pub fn modify_value(val: u16, mask: u16, set: u16) -> (r: u16)
        ensures
            r == (val & !mask) | set,
    {
        (val & !mask) | set
    }

    /// The ERIAR command that starts a 32-bit read of ERI register `addr`.
    pub fn eri_read_cmd(addr: u32) -> (r: u32)
        ensures
            r == ERIAR_READ_CMD | ERIAR_EXGMAC | ERIAR_MASK_1111 | addr,
    {
        ERIAR_READ_CMD | ERIAR_EXGMAC | ERIAR_MASK_1111 | addr
    }

    /// The ERIAR command that writes ERIDR to ERI register `addr` under
    /// the byte mask `mask`.
    pub fn eri_write_cmd(addr: u32, mask: u32) -> (r: u32)
        ensures
            r == ERIAR_WRITE_CMD | ERIAR_EXGMAC | mask | addr,
    {
        ERIAR_WRITE_CMD | ERIAR_EXGMAC | mask | addr
    }

    /// The result of an ERI read: the data register when the access
    /// completed and could be read, all ones otherwise.
    pub fn eri_read_result(completed: bool, data: Option<u32>) -> (r: u32)
        ensures
            r == (if completed && data is Some {
                data->0
            } else {
                !0u32
            }),
    {
        if completed {
            match data {
                Some(v) => v,
                None => !0u32,
            }
        } else {
            !0u32
        }
    }

    /// The value written back by an ERI read-modify-write.
    pub fn eri_modify_value(val: u32, set: u32, clear: u32) -> (r: u32)
        ensures
            r == (val & !clear) | set,
    {
        (val & !clear) | set
    }

    /// The `(set, clear)` bit masks the suspend quirk applies to its ERI
    /// register: when `sets`, the quirk bits are set, otherwise cleared.
    pub fn suspend_quirk_masks(sets: bool) -> (r: (u32, u32))
        ensures
            sets ==> r == (SUSPEND_QUIRK_ERI_BITS, 0u32),
            !sets ==> r == (0u32, SUSPEND_QUIRK_ERI_BITS),
    {
        if sets {
            (SUSPEND_QUIRK_ERI_BITS, 0)
        } else {
            (0, SUSPEND_QUIRK_ERI_BITS)
        }
    }
}

/// Selecting a page and then restoring the page it reported leaves the
/// window where it was.
pub proof fn lemma_page_select_restore(p: PhyAccess)
    requires
        p.wf(),
    ensures
        base_for_page(page_of_base(p.base())) == p.base(),
{
    let b = p.base();
    if b != OCP_STD_PHY_BASE {
        assert(b % 16 == 0 && 16 <= b <= 0xffff0 ==> (b / 16) as u16 != 0 && ((b / 16) as u16)
            as u32 * 16 == b) by (nonlinear_arith);
    }
}

/// A PHY register operation of a configuration sequence.
#[derive(Debug, Clone, Copy, PartialEq, Eq)]
pub enum PhyOp {
    /// Write `val` to register `reg` of the current window.
    Write { reg: u32, val: u16 },
    /// On page `page`, clear the bits of `mask` in register `reg` and set those of `set`.
    ModifyPaged { page: u16, reg: u32, mask: u16, set: u16 },
    /// Through page 0x0a43, select parameter `parm` in register 0x13 and
    /// modify register 0x14 with `mask` and `val`.
    Param { parm: u16, mask: u16, val: u16 },
    /// Read register `test_reg` on page `test_page`; when bit `bit` is set
    /// there, modify register `reg` on page `page` with `if_set`, otherwise
    /// with `if_clear` (each a `(mask, set)` pair).
    ModifyPagedIf {
        test_page: u16,
        test_reg: u32,
        bit: u16,
        page: u16,
        reg: u32,
        if_set: (u16, u16),
        if_clear: (u16, u16),
    },
}

/// The `(mask, set)` pair a conditional modification applies after
/// reading `val`.
pub fn cond_modify_choice(val: u16, bit: u16, if_set: (u16, u16), if_clear: (u16, u16)) -> (r: (
    u16,
    u16,
))
    ensures
        r == (if val & bit != 0 {
            if_set
        } else {
            if_clear
        }),
{
    if val & bit != 0 {
        if_set
    } else {
        if_clear
    }
}

/// Energy Efficient Ethernet: set bit 4 of register 0x11 on page 0x0a43.
pub fn config_eee_phy() -> (r: PhyOp)
    ensures
        r == (PhyOp::ModifyPaged { page: 0x0a43, reg: 0x11, mask: 0, set: 0x10 }),
{
    PhyOp::ModifyPaged { page: 0x0a43, reg: 0x11, mask: 0, set: 0x10 }
}

/// Advanced Link Down Power Saving off: clear bit 2 of register 0x10 on page 0x0a43.
pub fn disable_aldps() -> (r: PhyOp)
    ensures
        r == (PhyOp::ModifyPaged { page: 0x0a43, reg: 0x10, mask: 0x4, set: 0 }),
{
    PhyOp::ModifyPaged { page: 0x0a43, reg: 0x10, mask: 0x4, set: 0 }
}

/// The 10 Mbps ALDPS adjustment.
pub open spec fn adjust_10m_aldps_spec() -> Seq<PhyOp> {
    seq![
        PhyOp::ModifyPaged { page: 0x0bcc, reg: 0x14, mask: 0x100, set: 0 },
        PhyOp::ModifyPaged { page: 0x0a44, reg: 0x11, mask: 0, set: 0xc0 },
        PhyOp::Param { parm: 0x8084, mask: 0x6000, val: 0x0000 },
        PhyOp::ModifyPaged { page: 0x0a43, reg: 0x10, mask: 0x0000, set: 0x1003 },
    ]
}

/// Adjusts 10 Mbps ALDPS parameters for the RTL8168g PHY.
pub fn adjust_10m_aldps() -> (r: Vec<PhyOp>)
    ensures
        r@ == adjust_10m_aldps_spec(),
{
    let r = vec![
        PhyOp::ModifyPaged { page: 0x0bcc, reg: 0x14, mask: 0x100, set: 0 },
        PhyOp::ModifyPaged { page: 0x0a44, reg: 0x11, mask: 0, set: 0xc0 },
        PhyOp::Param { parm: 0x8084, mask: 0x6000, val: 0x0000 },
        PhyOp::ModifyPaged { page: 0x0a43, reg: 0x10, mask: 0x0000, set: 0x1003 },
    ];
    assert(r@ =~= adjust_10m_aldps_spec());
    r
}

/// The full PHY initialization of the RTL8168g (MAC version 40), firmware
/// loading aside.
pub open spec fn rtl8168g_1_hw_phy_config_spec() -> Seq<PhyOp> {
    seq![
        PhyOp::ModifyPagedIf {
            test_page: 0x0a46,
            test_reg: 0x10,
            bit: 0x100,
            page: 0x0bcc,
            reg: 0x12,
            if_set: (0x8000, 0),
            if_clear: (0, 0x8000),
        },
        PhyOp::ModifyPagedIf {
            test_page: 0x0a46,
            test_reg: 0x13,
            bit: 0x100,
            page: 0x0c41,
            reg: 0x15,
            if_set: (0, 0x2),
            if_clear: (0x2, 0),
        },
        PhyOp::ModifyPaged { page: 0x0a44, reg: 0x11, mask: 0, set: 0xc },
    ] + adjust_10m_aldps_spec() + seq![
        PhyOp::ModifyPaged { page: 0x0a4b, reg: 0x11, mask: 0, set: 0x4 },
        PhyOp::Param { parm: 0x8012, mask: 0x0000, val: 0x8000 },
        PhyOp::ModifyPaged { page: 0x0c42, reg: 0x11, mask: 0x2000, set: 0x4000 },
        PhyOp::Write { reg: 0x1f, val: 0x0bcd },
        PhyOp::Write { reg: 0x14, val: 0x5065 },
        PhyOp::Write { reg: 0x14, val: 0xd065 },
        PhyOp::Write { reg: 0x1f, val: 0x0bc8 },
        PhyOp::Write { reg: 0x11, val: 0x5655 },
        PhyOp::Write { reg: 0x1f, val: 0x0bcd },
        PhyOp::Write { reg: 0x14, val: 0x1065 },
        PhyOp::Write { reg: 0x14, val: 0x9065 },
        PhyOp::Write { reg: 0x14, val: 0x1065 },
        PhyOp::Write { reg: 0x1f, val: 0x0000 },
        PhyOp::ModifyPaged { page: 0x0a43, reg: 0x10, mask: 0x4, set: 0 },
        PhyOp::ModifyPaged { page: 0x0a43, reg: 0x11, mask: 0, set: 0x10 },
    ]
}

/// The PHY initialization sequence of the RTL8168g: conditional fixups
/// from page 0x0a46, auto speed down, the 10M ALDPS adjustment, EEE
/// auto-fallback, the UC LPF tune, SWR efficiency, ALDPS off and EEE on.
pub fn rtl8168g_1_hw_phy_config() -> (r: Vec<PhyOp>)
    ensures
        r@ == rtl8168g_1_hw_phy_config_spec(),
{
    let mut r = vec![
        PhyOp::ModifyPagedIf {
            test_page: 0x0a46,
            test_reg: 0x10,
            bit: 0x100,
            page: 0x0bcc,
            reg: 0x12,
            if_set: (0x8000, 0),
            if_clear: (0, 0x8000),
        },
        PhyOp::ModifyPagedIf {
            test_page: 0x0a46,
            test_reg: 0x13,
            bit: 0x100,
            page: 0x0c41,
            reg: 0x15,
            if_set: (0, 0x2),
            if_clear: (0x2, 0),
        },
        PhyOp::ModifyPaged { page: 0x0a44, reg: 0x11, mask: 0, set: 0xc },
    ];
    let mut aldps = adjust_10m_aldps();
    r.append(&mut aldps);
    let mut tail = vec![
        PhyOp::ModifyPaged { page: 0x0a4b, reg: 0x11, mask: 0, set: 0x4 },
        PhyOp::Param { parm: 0x8012, mask: 0x0000, val: 0x8000 },
        PhyOp::ModifyPaged { page: 0x0c42, reg: 0x11, mask: 0x2000, set: 0x4000 },
        PhyOp::Write { reg: 0x1f, val: 0x0bcd },
        PhyOp::Write { reg: 0x14, val: 0x5065 },
        PhyOp::Write { reg: 0x14, val: 0xd065 },
        PhyOp::Write { reg: 0x1f, val: 0x0bc8 },
        PhyOp::Write { reg: 0x11, val: 0x5655 },
        PhyOp::Write { reg: 0x1f, val: 0x0bcd },
        PhyOp::Write { reg: 0x14, val: 0x1065 },
        PhyOp::Write { reg: 0x14, val: 0x9065 },
        PhyOp::Write { reg: 0x14, val: 0x1065 },
        PhyOp::Write { reg: 0x1f, val: 0x0000 },
        disable_aldps(),
        config_eee_phy(),
    ];
    r.append(&mut tail);
    assert(r@ =~= rtl8168g_1_hw_phy_config_spec());
    r
}

/// Dispatches PHY configuration for the given MAC version; only the
/// RTL8168g sequence exists, and it is used for every version.
pub fn r8169_hw_phy_config(mac_ver: u32) -> (r: Vec<PhyOp>)
    ensures
        r@ == rtl8168g_1_hw_phy_config_spec(),
{
    rtl8168g_1_hw_phy_config()
}

/// Whether the link is up, from a read of the PHY_STATUS register (`None`
/// when the read failed).
pub fn phy_link_up(status: Option<u8>) -> (r: bool)
    ensures
        r == (status matches Some(v) && v & LINK_STATUS_FLAG != 0),
{
    match status {
        Some(v) => v & LINK_STATUS_FLAG != 0,
        None => false,
    }
}

/// The negotiated `(speed in Mbps, full duplex)` from a read of the
/// PHY_STATUS register; `(0, false)` when the read failed or the link is down.
pub fn phy_link_speed(status: Option<u8>) -> (r: (u32, bool))
    ensures
        match status {
            None => r == (0u32, false),
            Some(v) => if v & LINK_STATUS_FLAG == 0 {
                r == (0u32, false)
            } else {
                &&& r.0 == (if v & GBPS_F_1000 != 0 {
                    1000u32
                } else if v & MBPS_100 != 0 {
                    100u32
                } else if v & MBPS_10 != 0 {
                    10u32
                } else {
                    0u32
                })
                &&& r.1 == (v & FULL_DUP != 0)
            },
        },
{
    let v = match status {
        Some(v) => v,
        None => return (0, false),
    };
    if v & LINK_STATUS_FLAG == 0 {
        return (0, false);
    }
    let speed = if v & GBPS_F_1000 != 0 {
        1000
    } else if v & MBPS_100 != 0 {
        100
    } else if v & MBPS_10 != 0 {
        10
    } else {
        0
    };
    (speed, v & FULL_DUP != 0)
}

/// A PHY accessor with its window back at the standard base, as after a
/// hardware reset.
pub fn phy_reset_ocp_base() -> (p: PhyAccess)
    ensures
        p.wf(),
        p.base() == OCP_STD_PHY_BASE,
{
    let mut phy = PhyAccess::new();
    phy.mdio_write(MII_PAGE_SELECT, 0x0000);
    phy
}

} // verus!
