//! A smaller driver for the Intel 82540EM (e1000) family: a 64-descriptor
//! receive and transmit ring driven directly by their tail registers,
//! without PHY or EEPROM bit-banging.

pub mod regs;
pub mod desc;
pub mod hw;
pub mod device;
pub mod driver;
