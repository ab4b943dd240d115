//! Verified core of the Asterinas gigabit Ethernet drivers (Intel e1000,
//! Intel 82574L "e1000e" and Realtek RTL8168g "r8169"): register values,
//! descriptor layouts, ring bookkeeping and the decision logic of the
//! receive, transmit, EEPROM, PHY and interrupt paths.
//!
//! Everything here works on plain values. Reading and writing MMIO
//! registers, DMA memory and interrupt lines is left to the caller, which
//! hands the values it read to these functions and performs the writes
//! they compute.
#![allow(unused_imports)]

pub mod bits;
pub mod bytes;
pub mod delay;
pub mod poll;
pub mod e1000;
pub mod e1000e;
pub mod e1000_basic;
pub mod net;
pub mod iface;
pub mod r8169;
