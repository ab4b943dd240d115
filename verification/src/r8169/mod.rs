//! RTL8168g (r8169 family) driver logic.

pub mod regs;
pub mod desc;
pub mod rx;
pub mod tx;
pub mod phy;
pub mod device;
