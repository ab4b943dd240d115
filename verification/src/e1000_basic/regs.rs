//! 82540EM register offsets and bit values used by the smaller driver.

use vstd::prelude::*;

verus! {

/// Intel vendor ID.
pub const INTEL_VENDOR_ID: u16 = 0x8086;

/// Device Control.
pub const REG_CTRL: usize = 0x00000;
/// Device Status.
pub const REG_STATUS: usize = 0x00008;
/// EEPROM/Flash Control.
pub const REG_EECD: usize = 0x00010;
/// EEPROM Read.
pub const REG_EERD: usize = 0x00014;
/// Extended Device Control.
pub const REG_CTRL_EXT: usize = 0x00018;
/// Flow Control Address Low.
pub const REG_FCAL: usize = 0x00028;
/// Flow Control Address High.
pub const REG_FCAH: usize = 0x0002C;
/// Flow Control Type.
pub const REG_FCT: usize = 0x00030;
/// VLAN Ether Type.
pub const REG_VET: usize = 0x00038;
/// Interrupt Cause Read (cleared by reading).
pub const REG_ICR: usize = 0x000C0;
/// Interrupt Throttling Rate.
pub const REG_ITR: usize = 0x000C4;
/// Interrupt Cause Set.
pub const REG_ICS: usize = 0x000C8;
/// Interrupt Mask Set.
pub const REG_IMS: usize = 0x000D0;
/// Interrupt Mask Clear.
pub const REG_IMC: usize = 0x000D8;
/// Receive Control.
pub const REG_RCTL: usize = 0x00100;
/// Flow Control Transmit Timer Value.
pub const REG_FCTTV: usize = 0x00170;
/// Transmit Configuration Word.
pub const REG_TXCW: usize = 0x00178;
/// Receive Configuration Word.
pub const REG_RXCW: usize = 0x00180;
/// Transmit Control.
pub const REG_TCTL: usize = 0x00400;
/// Transmit Inter-Packet Gap.
pub const REG_TIPG: usize = 0x00410;
/// LED Control.
pub const REG_LEDCTL: usize = 0x00E00;
/// Packet Buffer Allocation.
pub const REG_PBA: usize = 0x01000;
/// Flow Control Receive Threshold Low.
pub const REG_FCRTL: usize = 0x02160;
/// Flow Control Receive Threshold High.
pub const REG_FCRTH: usize = 0x02168;
/// Receive Delay Timer.
pub const REG_RDTR: usize = 0x02820;
/// Receive Interrupt Absolute Delay.
pub const REG_RADV: usize = 0x0282C;
/// Receive Descriptor Base Address Low.
pub const REG_RDBAL: usize = 0x02800;
/// Receive Descriptor Base Address High.
pub const REG_RDBAH: usize = 0x02804;
/// Receive Descriptor Length.
pub const REG_RDLEN: usize = 0x02808;
/// Receive Descriptor Head.
pub const REG_RDH: usize = 0x02810;
/// Receive Descriptor Tail.
pub const REG_RDT: usize = 0x02818;
/// Transmit Descriptor Base Address Low.
pub const REG_TDBAL: usize = 0x03800;
/// Transmit Descriptor Base Address High.
pub const REG_TDBAH: usize = 0x03804;
/// Transmit Descriptor Length.
pub const REG_TDLEN: usize = 0x03808;
/// Transmit Descriptor Head.
pub const REG_TDH: usize = 0x03810;
/// Transmit Descriptor Tail.
pub const REG_TDT: usize = 0x03818;
/// Transmit Interrupt Delay Value.
pub const REG_TIDV: usize = 0x03820;
/// Transmit Interrupt Absolute Delay.
pub const REG_TADV: usize = 0x0382C;

/// Multicast Table Array.
pub const REG_MTA: usize = 0x05200;
/// Number of Multicast Table Array entries.
pub const MTA_ENTRIES: usize = 128;

/// Receive Address Low (slot 0).
pub const REG_RAL0: usize = 0x05400;
/// Receive Address High (slot 0).
pub const REG_RAH0: usize = 0x05404;

/// CTRL: Full Duplex.
pub const CTRL_FD: u32 = 0x0000_0001;
/// CTRL: Link Reset.
pub const CTRL_LRST: u32 = 0x0000_0008;
/// CTRL: Auto-Speed Detection Enable.
pub const CTRL_ASDE: u32 = 0x0000_0020;
/// CTRL: Set Link Up.
pub const CTRL_SLU: u32 = 0x0000_0040;
/// CTRL: Invert Loss-Of-Signal.
pub const CTRL_ILOS: u32 = 0x0000_0080;
/// CTRL: Speed 100 Mb/s.
pub const CTRL_SPD_100: u32 = 0x0000_0100;
/// CTRL: Speed 1000 Mb/s.
pub const CTRL_SPD_1000: u32 = 0x0000_0200;
/// CTRL: Force Speed.
pub const CTRL_FRCSPD: u32 = 0x0000_0800;
/// CTRL: Force Duplex.
pub const CTRL_FRCDPX: u32 = 0x0000_1000;
/// CTRL: Device Reset.
pub const CTRL_RST: u32 = 0x0400_0000;
/// CTRL: Receive Flow Control Enable.
pub const CTRL_RFCE: u32 = 0x0800_0000;
/// CTRL: Transmit Flow Control Enable.
pub const CTRL_TFCE: u32 = 0x1000_0000;
/// CTRL: VLAN Mode Enable.
pub const CTRL_VME: u32 = 0x4000_0000;
/// CTRL: PHY Reset.
pub const CTRL_PHY_RST: u32 = 0x8000_0000;

/// STATUS: Full Duplex.
pub const STATUS_FD: u32 = 0x0000_0001;
/// STATUS: Link Up.
pub const STATUS_LU: u32 = 0x0000_0002;
/// STATUS: Transmission Paused.
pub const STATUS_TXOFF: u32 = 0x0000_0010;
/// STATUS: Speed 100 Mb/s.
pub const STATUS_SPEED_100: u32 = 0x0000_0040;
/// STATUS: Speed 1000 Mb/s.
pub const STATUS_SPEED_1000: u32 = 0x0000_0080;

/// RCTL: Receiver Enable.
pub const RCTL_EN: u32 = 0x0000_0002;
/// RCTL: Store Bad Packets.
pub const RCTL_SBP: u32 = 0x0000_0004;
/// RCTL: Unicast Promiscuous Enable.
pub const RCTL_UPE: u32 = 0x0000_0008;
/// RCTL: Multicast Promiscuous Enable.
pub const RCTL_MPE: u32 = 0x0000_0010;
/// RCTL: Long Packet Reception Enable.
pub const RCTL_LPE: u32 = 0x0000_0020;
/// RCTL: Receive Descriptor Minimum Threshold 1/4.
pub const RCTL_RDMTS_QUARTER: u32 = 0x0000_0100;
/// RCTL: Receive Descriptor Minimum Threshold 1/8.
pub const RCTL_RDMTS_EIGHTH: u32 = 0x0000_0200;
/// RCTL: Broadcast Accept Mode.
pub const RCTL_BAM: u32 = 0x0000_8000;
/// RCTL: Buffer Size 1024.
pub const RCTL_BSIZE_1024: u32 = 0x0001_0000;
/// RCTL: Buffer Size 512.
pub const RCTL_BSIZE_512: u32 = 0x0002_0000;
/// RCTL: Buffer Size 256, or 4096 together with BSEX.
pub const RCTL_BSIZE_4096: u32 = 0x0003_0000;
/// RCTL: VLAN Filter Enable.
pub const RCTL_VFE: u32 = 0x0004_0000;
/// RCTL: Discard Pause Frames.
pub const RCTL_DPF: u32 = 0x0040_0000;
/// RCTL: Buffer Size Extension.
pub const RCTL_BSEX: u32 = 0x0200_0000;
/// RCTL: Strip Ethernet CRC.
pub const RCTL_SECRC: u32 = 0x0400_0000;

/// TCTL: Transmit Enable.
pub const TCTL_EN: u32 = 0x0000_0002;
/// TCTL: Pad Short Packets.
pub const TCTL_PSP: u32 = 0x0000_0008;
/// TCTL: Re-transmit on Late Collision.
pub const TCTL_RTLC: u32 = 0x0100_0000;

/// Shift of the Collision Threshold field.
pub const TCTL_CT_SHIFT: u32 = 4;
/// Collision Threshold 0x10 in its field.
pub const TCTL_CT_DEFAULT: u32 = 0x100;
/// Shift of the Collision Distance field.
pub const TCTL_COLD_SHIFT: u32 = 12;
/// Full-duplex Collision Distance 0x40 in its field.
pub const TCTL_COLD_FD: u32 = 0x4_0000;

/// Inter-packet gap IPGT (bits 9:0).
pub const TIPG_IPGT: u32 = 10;
/// Inter-packet gap IPGR1, 8 in bits 19:10.
pub const TIPG_IPGR1: u32 = 0x2000;
/// Inter-packet gap IPGR2, 6 in bits 29:20.
pub const TIPG_IPGR2: u32 = 0x0060_0000;
/// The recommended inter-packet gap.
pub const TIPG_DEFAULT: u32 = 0x0060_200A;

/// Interrupt: Transmit Descriptor Written Back.
pub const INT_TXDW: u32 = 0x01;
/// Interrupt: Transmit Queue Empty.
pub const INT_TXQE: u32 = 0x02;
/// Interrupt: Link Status Change.
pub const INT_LSC: u32 = 0x04;
/// Interrupt: Receive Sequence Error.
pub const INT_RXSEQ: u32 = 0x08;
/// Interrupt: Receive Descriptor Minimum Threshold.
pub const INT_RXDMT0: u32 = 0x10;
/// Interrupt: Receive Overrun.
pub const INT_RXO: u32 = 0x40;
/// Interrupt: Receiver Timer.
pub const INT_RXT0: u32 = 0x80;

/// EERD: start a read.
pub const EERD_START: u32 = 0x01;
/// EERD: read done.
pub const EERD_DONE: u32 = 0x10;
/// EERD: shift of the word address.
pub const EERD_ADDR_SHIFT: u32 = 8;
/// EERD: shift of the data word.
pub const EERD_DATA_SHIFT: u32 = 16;

/// Address Valid bit in RAH.
pub const RAH_AV: u32 = 0x8000_0000;

/// TX command: End of Packet.
pub const TXCMD_EOP: u8 = 0x01;
/// TX command: Insert FCS (CRC).
pub const TXCMD_IFCS: u8 = 0x02;
/// TX command: Insert Checksum.
pub const TXCMD_IC: u8 = 0x04;
/// TX command: Report Status.
pub const TXCMD_RS: u8 = 0x08;
/// TX command: Descriptor Extension (0 = legacy).
pub const TXCMD_DEXT: u8 = 0x20;
/// TX command: VLAN Packet Enable.
pub const TXCMD_VLE: u8 = 0x40;
/// TX command: Interrupt Delay Enable.
pub const TXCMD_IDE: u8 = 0x80;

/// TX status: Descriptor Done.
pub const TXD_STAT_DD: u8 = 0x01;
/// RX status: Descriptor Done.
pub const RXD_STAT_DD: u8 = 0x01;
/// RX status: End of Packet.
pub const RXD_STAT_EOP: u8 = 0x02;

/// Number of RX descriptors (a multiple of 8).
pub const NUM_RX_DESCS: u16 = 64;
/// Number of TX descriptors (a multiple of 8).
pub const NUM_TX_DESCS: u16 = 64;
/// Size of each RX buffer (4096 bytes, BSIZE_4096 with BSEX).
pub const RX_BUFFER_SIZE: usize = 4096;
/// Size of each TX buffer.
pub const TX_BUFFER_SIZE: usize = 4096;

/// Size of a single legacy RX or TX descriptor in bytes.
pub const DESC_SIZE: usize = 16;

/// Flow control destination address, low part (01:80:C2:00:00:01).
pub const FLOW_CONTROL_ADDRESS_LOW: u32 = 0x00C2_8001;
/// Flow control destination address, high part.
pub const FLOW_CONTROL_ADDRESS_HIGH: u32 = 0x0000_0100;
/// Flow control Ethernet type.
pub const FLOW_CONTROL_TYPE: u32 = 0x8808;

} // verus!
