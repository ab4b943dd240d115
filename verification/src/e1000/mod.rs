//! Intel 82540EM (e1000) driver logic.

pub mod regs;
pub mod desc;
pub mod eeprom;
pub mod intr;
pub mod hw;
pub mod phy;
pub mod rx;
pub mod tx;
pub mod driver;
