//! Intel 82574L (e1000e) driver logic.

pub mod regs;
pub mod desc;
pub mod rx;
pub mod tx;
pub mod driver;
