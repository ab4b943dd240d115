//! Device-level decisions of the RTL8168g driver: which PCI devices it
//! claims, the MAC address it reports, the receive path of the network
//! device, and the interrupt mask.

use vstd::prelude::*;

use crate::r8169::regs::{
    DESC_OWN, ETH_FCS_LEN, FIRST_FRAG, LAST_FRAG, LINK_CHG, RX_ERR, RX_OK, RX_OVERFLOW, RX_RES,
    TX_ERR, TX_OK,
};
use crate::net::NetError;
use crate::r8169::rx::{rx_frame_size, rx_pkt_size, RxRing, RxVerdict};

verus! {

/// Name under which the network device is registered.
pub const DEVICE_NAME: &'static str = "r8169-net";

/// The PCI driver for the RTL8168g family.
#[derive(Debug)]
pub struct R8169PciDriver;

/// Maximum Ethernet frame payload (standard MTU).
pub const MTU: usize = 1500;

/// Interrupt event bits serviced by polling.
pub const RTL_EVENT_NAPI: u16 = 0x5f; // RX_OK | TX_OK | RX_OVERFLOW | TX_ERR | RX_ERR

/// All interrupts the driver enables.
pub const INTR_MASK_BITS: u16 = 0x7f; // RTL_EVENT_NAPI | LINK_CHG

/// RX buffer segment size of the DMA pool.
pub const RX_POOL_SEG_SIZE: usize = 2048;

/// The buffer size programmed into an RX descriptor's opts1 field.
pub const RX_DESC_BUF_SIZE: u32 = 2048;

/// The MAC address used when the hardware reports none.
pub open spec fn fallback_mac() -> Seq<u8> {
    seq![0x52u8, 0x54u8, 0x00u8, 0x12u8, 0x34u8, 0x57u8]
}

/// The PCI vendors whose devices the driver may claim: Realtek, D-Link,
/// Allied Telesis, US Robotics and Linksys.
pub open spec fn is_supported_vendor(v: u16) -> bool {
    v == 0x10EC || v == 0x1186 || v == 0x1259 || v == 0x16EC || v == 0x1737
}

/// The PCI device IDs of the r8169 family.
pub open spec fn is_supported_device(d: u16) -> bool {
    d == 0x2502 || d == 0x2600 || d == 0x8129 || d == 0x8136 || d == 0x8161 || d == 0x8162
        || d == 0x8167 || d == 0x8168 || d == 0x8169 || d == 0x8125 || d == 0x8126 || d
        == 0x8127 || d == 0x3000 || d == 0x5000 || d == 0x0e10
}

/// Whether the driver claims the PCI device with these IDs.
pub fn probe_matches(vendor_id: u16, device_id: u16) -> (r: bool)
    ensures
        r == (is_supported_vendor(vendor_id) && is_supported_device(device_id)),
{
    let vendor_ok = matches!(vendor_id, 0x10EC | 0x1186 | 0x1259 | 0x16EC | 0x1737);
    if !vendor_ok {
        return false;
    }
    matches!(
        device_id,
        0x2502 | 0x2600 | 0x8129 | 0x8136 | 0x8161 | 0x8162 | 0x8167 | 0x8168 | 0x8169 | 0x8125
            | 0x8126 | 0x8127 | 0x3000 | 0x5000 | 0x0e10
    )
}

/// The six address bytes held by the MAC0 (bytes 0-3) and MAC4 (bytes
/// 4-5) registers, a failed read leaving its bytes at zero.
pub open spec fn mac_bytes(lo: Option<u32>, hi: Option<u32>) -> Seq<u8> {
    let l = match lo {
        Some(v) => v,
        None => 0u32,
    };
    let h = match hi {
        Some(v) => v,
        None => 0u32,
    };
    seq![
        (l % 256) as u8,
        ((l / 256) % 256) as u8,
        ((l / 0x1_0000) % 256) as u8,
        ((l / 0x100_0000) % 256) as u8,
        (h % 256) as u8,
        ((h / 256) % 256) as u8,
    ]
}

/// Reads the MAC address from the values read from MAC0 and MAC4 (`None`
/// for a failed read). An all-zero or all-ones address is replaced by the
/// fallback address.
pub fn read_mac_addr(lo: Option<u32>, hi: Option<u32>) -> (r: [u8; 6])
    ensures
        (mac_bytes(lo, hi) == seq![0u8, 0u8, 0u8, 0u8, 0u8, 0u8] || mac_bytes(lo, hi) == seq![
            0xffu8,
            0xffu8,
            0xffu8,
            0xffu8,
            0xffu8,
            0xffu8,
        ]) ==> r@ == fallback_mac(),
        !(mac_bytes(lo, hi) == seq![0u8, 0u8, 0u8, 0u8, 0u8, 0u8] || mac_bytes(lo, hi) == seq![
            0xffu8,
            0xffu8,
            0xffu8,
            0xffu8,
            0xffu8,
            0xffu8,
        ]) ==> r@ == mac_bytes(lo, hi),
{
    let mut addr = [0u8; 6];
    if let Some(l) = lo {
        addr = [
            (l & 0xFF) as u8,
            ((l >> 8u32) & 0xFF) as u8,
            ((l >> 16u32) & 0xFF) as u8,
            ((l >> 24u32) & 0xFF) as u8,
            0,
            0,
        ];
        proof {
            crate::bits::lemma_u32_bytes(l);
            crate::bits::lemma_low_byte_and_zero(l);
        }
    }
    if let Some(h) = hi {
        addr = [addr[0], addr[1], addr[2], addr[3], (h & 0xFF) as u8, ((h >> 8u32) & 0xFF) as u8];
        proof {
            crate::bits::lemma_u32_bytes(h);
            crate::bits::lemma_low_byte_and_zero(h);
        }
    }
    assert(addr@ =~= mac_bytes(lo, hi));
    let all_zero = addr[0] == 0 && addr[1] == 0 && addr[2] == 0 && addr[3] == 0 && addr[4] == 0
        && addr[5] == 0;
    let all_ones = addr[0] == 0xFF && addr[1] == 0xFF && addr[2] == 0xFF && addr[3] == 0xFF
        && addr[4] == 0xFF && addr[5] == 0xFF;
    proof {
        let z = seq![0u8, 0u8, 0u8, 0u8, 0u8, 0u8];
        let f = seq![0xffu8, 0xffu8, 0xffu8, 0xffu8, 0xffu8, 0xffu8];
        if addr@ == z {
            assert(addr@[0] == z[0] && addr@[5] == z[5]);
        }
        if addr@ == f {
            assert(addr@[0] == f[0] && addr@[5] == f[5]);
        }
        if all_zero {
            assert(addr@ =~= z);
        }
        if all_ones {
            assert(addr@ =~= f);
        }
    }
    if all_zero || all_ones {
        let fb = [0x52u8, 0x54, 0x00, 0x12, 0x34, 0x57];
        assert(fb@ =~= fallback_mac());
        fb
    } else {
        addr
    }
}

/// The verdict of the network device's receive path on a descriptor with
/// status `status`: ownership, then the error bit, then fragmentation,
/// then the length.
pub open spec fn receive_verdict(status: u32) -> RxVerdict {
    if status & DESC_OWN != 0 {
        RxVerdict::HwOwned
    } else if status & RX_RES != 0 {
        RxVerdict::Error
    } else if !(status & FIRST_FRAG != 0 && status & LAST_FRAG != 0) {
        RxVerdict::Fragmented
    } else if rx_frame_size(status) <= ETH_FCS_LEN {
        RxVerdict::Runt
    } else {
        RxVerdict::Packet { len: (rx_frame_size(status) - ETH_FCS_LEN) as usize }
    }
}

/// Classifies a descriptor for the network device's receive path. Every
/// verdict but `HwOwned` and `Packet` re-arms the slot with a fresh buffer
/// and moves on without delivering anything.
pub fn receive_classify(status: u32) -> (r: RxVerdict)
    ensures
        r == receive_verdict(status),
{
    if status & DESC_OWN != 0 {
        return RxVerdict::HwOwned;
    }
    if status & RX_RES != 0 {
        return RxVerdict::Error;
    }
    if crate::r8169::desc::is_fragmented_frame(status) {
        return RxVerdict::Fragmented;
    }
    let size = rx_pkt_size(status);
    if size <= ETH_FCS_LEN {
        return RxVerdict::Runt;
    }
    RxVerdict::Packet { len: size - ETH_FCS_LEN }
}

/// Whether a completed frame waits in the next receive slot, from the
/// read of its first option word (`None` when the read failed).
pub fn can_receive(opts1: Option<u32>) -> (r: bool)
    ensures
        r == (opts1 matches Some(s) && s & DESC_OWN == 0),
{
    match opts1 {
        Some(s) => s & DESC_OWN == 0,
        None => false,
    }
}

/// The IntrStatus value written back to acknowledge the pending
/// interrupts `status`, or `None` when nothing is pending.
pub fn irq_ack(status: u16) -> (r: Option<u16>)
    ensures
        status == 0 ==> r is None,
        status != 0 ==> r == Some(status),
{
    if status != 0 {
        Some(status)
    } else {
        None
    }
}

/// The ChipCmd value that enables the receiver and the transmitter.
pub fn chip_enable_cmd() -> (r: u8)
    ensures
        r == crate::r8169::regs::CMD_RX_ENB | crate::r8169::regs::CMD_TX_ENB,
{
    crate::r8169::regs::CMD_RX_ENB | crate::r8169::regs::CMD_TX_ENB
}

impl<B> RxRing<B> {
    /// The network device's receive of one frame, `status` being the first
    /// option word of the descriptor at the consumer index. A descriptor
    /// the NIC owns gives `NotReady` and changes nothing. Otherwise the slot
    /// is to be re-armed with a fresh buffer (its index is returned) and the
    /// consumer index advances; a good frame whose slot held a buffer gives
    /// that buffer, taken out of the slot, with the payload length, and
    /// anything else gives `NotReady`.
    pub fn device_receive(&mut self, status: u32) -> (r: (Option<usize>, Result<(B, usize), NetError>))
        requires
            old(self).wf(),
        ensures
            final(self).wf(),
            ({
                let e = old(self).entry_spec();
                match receive_verdict(status) {
                    RxVerdict::HwOwned => {
                        &&& r.0 is None
                        &&& r.1 == Err::<(B, usize), NetError>(NetError::NotReady)
                        &&& *final(self) == *old(self)
                    },
                    RxVerdict::Packet { len } => {
                        &&& r.0 == Some(e as usize)
                        &&& final(self).cur_rx == old(self).cur_rx.wrapping_add(1)
                        &&& final(self).slots@ == old(self).slots@.update(e, None)
                        &&& match old(self).slots@[e] {
                            Some(b) => r.1 == Ok::<(B, usize), NetError>((b, len)),
                            None => r.1 == Err::<(B, usize), NetError>(NetError::NotReady),
                        }
                    },
                    _ => {
                        &&& r.0 == Some(e as usize)
                        &&& r.1 == Err::<(B, usize), NetError>(NetError::NotReady)
                        &&& final(self).cur_rx == old(self).cur_rx.wrapping_add(1)
                        &&& final(self).slots == old(self).slots
                    },
                }
            }),
    {
        let v = receive_classify(status);
        let entry = self.entry();
        match v {
            RxVerdict::HwOwned => (None, Err(NetError::NotReady)),
            RxVerdict::Packet { len } => {
                let taken = self.take(entry);
                self.advance();
                match taken {
                    Some(b) => (Some(entry), Ok((b, len))),
                    None => (Some(entry), Err(NetError::NotReady)),
                }
            },
            _ => {
                self.advance();
                (Some(entry), Err(NetError::NotReady))
            },
        }
    }
}

} // verus!
