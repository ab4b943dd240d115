//! PCI probe of the smaller driver.

use vstd::prelude::*;

use crate::e1000_basic::regs::INTEL_VENDOR_ID;

verus! {

/// The 82540EM and close variants served by the driver: 82540EM, 82545EM
/// copper, 82540EM LOM, 82540EP LOM, 82540EP and 82540EP LP.
pub open spec fn is_supported_device(d: u16) -> bool {
    d == 0x100E || d == 0x100F || d == 0x1015 || d == 0x1016 || d == 0x1017 || d == 0x101E
}

/// The PCI driver of the smaller e1000 driver.
#[derive(Debug)]
pub struct E1000PciDriver;

impl E1000PciDriver {
    /// Creates the driver.
    pub fn new() -> (r: Self)
        ensures
            r == (E1000PciDriver {}),
    {
        E1000PciDriver
    }
}

/// Whether the driver claims the PCI device with these IDs.
pub fn probe_matches(vendor_id: u16, device_id: u16) -> (r: bool)
    ensures
        r == (vendor_id == INTEL_VENDOR_ID && is_supported_device(device_id)),
{
    if vendor_id != INTEL_VENDOR_ID {
        return false;
    }
    matches!(device_id, 0x100E | 0x100F | 0x1015 | 0x1016 | 0x1017 | 0x101E)
}

} // verus!
