//! Device-level decisions of the 82574L driver: the PCI devices it claims,
//! the reset and initialisation register values, the EEPROM read of the MAC
//! address, the interrupt handler's test and the outcome of send and
//! receive.

use vstd::prelude::*;

use crate::e1000::eeprom::{mac_from_words, mac_of_words};
use crate::e1000::hw::{rah_of, ral_of, RarWrite};
use crate::e1000e::regs::{
    CTRL, CTRL_ASDE, CTRL_RST, CTRL_SLU, EERD_DONE, EERD_START, IMC, IMS_ENABLE_MASK, MTA,
    NUM_MTA_REGISTERS, RA, RCTL, TCTL, TCTL_PSP,
};
use crate::e1000e::rx::RxCleanStep;
use crate::net::NetError;

verus! {

/// Name under which the network device is registered.
pub const DEVICE_NAME: &'static str = "e1000e-net";

/// Intel PCI vendor ID.
pub const INTEL_VENDOR_ID: u16 = 0x8086;

/// PCI device ID of the 82574L.
pub const E1000E_DEV_ID_82574L: u16 = 0x10D3;

/// PCI device ID of an 82574L variant.
pub const E1000E_DEV_ID_82574LA: u16 = 0x10F6;

/// RX buffer size (2048 bytes, standard Ethernet frames).
pub const RX_BUFFER_SIZE: usize = 2048;

/// Number of RX descriptors.
pub const RX_DESC_COUNT: u16 = 256;

/// Maximum transmission unit announced to the network stack.
pub const MTU: usize = 1500;

/// Number of EERD reads before a word read gives up.
pub const EERD_POLL_TRIES: u32 = 1000;

/// Microseconds waited between two EERD reads.
pub const EERD_POLL_DELAY_US: u32 = 5;

/// Microseconds waited after quiescing the device, before the reset.
pub const RESET_SETTLE_US: u32 = 10;

/// Microseconds waited for the global reset to complete.
pub const RESET_WAIT_US: u32 = 2000;

/// The MAC address used when the EEPROM cannot be read.
pub const FALLBACK_MAC: [u8; 6] = [0x52, 0x54, 0x00, 0x12, 0x34, 0x56];

/// The PCI driver for the 82574 family.
#[derive(Debug)]
pub struct E1000ePciDriver;

/// Whether the driver claims the PCI device with these IDs.
pub fn probe_matches(vendor_id: u16, device_id: u16) -> (r: bool)
    ensures
        r == (vendor_id == INTEL_VENDOR_ID && (device_id == E1000E_DEV_ID_82574L || device_id
            == E1000E_DEV_ID_82574LA)),
{
    if vendor_id != INTEL_VENDOR_ID {
        return false;
    }
    device_id == E1000E_DEV_ID_82574L || device_id == E1000E_DEV_ID_82574LA
}

/// Busy-waits for about `us` microseconds.
pub fn delay_us(us: u32) {
    crate::delay::spin_delay_us(us);
}

/// The writes that quiesce the device before a reset: every interrupt
/// masked, the receiver off and the transmitter off with short-packet
/// padding kept.
pub fn hw_reset_quiesce() -> (w: Vec<(usize, u32)>)
    ensures
        w@ == seq![(IMC, 0xFFFF_FFFFu32), (RCTL, 0u32), (TCTL, TCTL_PSP)],
{
    let w = vec![(IMC, 0xFFFF_FFFF), (RCTL, 0), (TCTL, TCTL_PSP)];
    assert(w@ =~= seq![(IMC, 0xFFFF_FFFFu32), (RCTL, 0u32), (TCTL, TCTL_PSP)]);
    w
}

/// The CTRL value that issues the global reset, from the value read.
pub fn hw_reset_ctrl(ctrl: u32) -> (r: u32)
    ensures
        r == ctrl | CTRL_RST,
{
    ctrl | CTRL_RST
}

/// The interrupt mask clear written after the reset: every cause masked.
pub fn hw_reset_mask() -> (w: (usize, u32))
    ensures
        w == (IMC, 0xFFFF_FFFFu32),
{
    (IMC, 0xFFFF_FFFF)
}

/// The EERD value that starts a read of the word at `offset`.
pub fn eerd_read_cmd(offset: u16) -> (r: u32)
    ensures
        r == offset as int * 0x100 + 1,
{
    let o = offset as u32;
    let r = (o << 8u32) | EERD_START;
    proof {
        crate::bits::lemma_shl8_or1(o);
    }
    r
}

/// The word of an EERD read whose register value is `val`, or `None`
/// while the read is pending.
pub fn eerd_data(val: u32) -> (r: Option<u16>)
    ensures
        val & EERD_DONE == 0 ==> r is None,
        val & EERD_DONE != 0 ==> r == Some((val / 0x1_0000) as u16),
{
    if val & EERD_DONE != 0 {
        let w = (val >> 16u32) as u16;
        proof {
            crate::bits::lemma_u32_halves(val);
        }
        Some(w)
    } else {
        None
    }
}

/// The MAC address: the bytes of EEPROM words 0-2, low byte first, or
/// `FALLBACK_MAC` when a word could not be read.
pub fn mac_from_eerd(words: Option<[u16; 3]>) -> (r: [u8; 6])
    ensures
        words matches Some(w) ==> r@ == mac_of_words(w@),
        words is None ==> r@ == seq![0x52u8, 0x54u8, 0x00u8, 0x12u8, 0x34u8, 0x56u8],
{
    match words {
        Some(w) => mac_from_words(&w),
        None => {
            let r = FALLBACK_MAC;
            assert(r@ =~= seq![0x52u8, 0x54u8, 0x00u8, 0x12u8, 0x34u8, 0x56u8]);
            r
        },
    }
}

/// Programs a receive address into the RAR slot `index`: the two
/// registers of the slot and their values.
pub fn rar_set(addr: &[u8; 6], index: u32) -> (r: RarWrite)
    requires
        RA + index * 8 + 4 <= usize::MAX,
    ensures
        r.ral_offset == RA + index * 8,
        r.rah_offset == RA + index * 8 + 4,
        r.ral == ral_of(addr@),
        r.rah == rah_of(addr@),
{
    crate::e1000::hw::rar_set(addr, index)
}

/// The writes that zero the multicast table: each of its
/// `NUM_MTA_REGISTERS` registers, in order.
pub fn clear_mta() -> (w: Vec<(usize, u32)>)
    ensures
        w@.len() == NUM_MTA_REGISTERS,
        forall|i: int| 0 <= i < NUM_MTA_REGISTERS ==> #[trigger] w@[i] == ((MTA + i * 4) as usize, 0u32),
{
    let mut w: Vec<(usize, u32)> = Vec::new();
    let mut i: usize = 0;
    while i < NUM_MTA_REGISTERS
        invariant
            i <= NUM_MTA_REGISTERS,
            w@.len() == i,
            forall|j: int| 0 <= j < i ==> #[trigger] w@[j] == ((MTA + j * 4) as usize, 0u32),
        decreases NUM_MTA_REGISTERS - i,
    {
        w.push((MTA + i * 4, 0));
        i = i + 1;
    }
    w
}

/// The CTRL value that sets up the link, from the value read: link forced
/// up and speed detected automatically.
pub fn link_setup_ctrl(ctrl: u32) -> (r: u32)
    ensures
        r == ctrl | CTRL_SLU | CTRL_ASDE,
{
    ctrl | CTRL_SLU | CTRL_ASDE
}

/// The RDT value that hands every receive descriptor but one to the
/// hardware after the receive ring is configured.
pub fn initial_rx_tail() -> (r: u32)
    ensures
        r == RX_DESC_COUNT - 1,
{
    (RX_DESC_COUNT - 1) as u32
}

/// The interrupt mask set when interrupts are enabled, at initialisation
/// and at the end of each poll.
pub fn interrupt_enable() -> (w: (usize, u32))
    ensures
        w == (crate::e1000e::regs::IMS, IMS_ENABLE_MASK),
{
    (crate::e1000e::regs::IMS, IMS_ENABLE_MASK)
}

/// Whether an interrupt belongs to the device: its cause register, read
/// to acknowledge it, is not zero. Only then are the receive and send
/// softirqs raised.
pub fn handle_interrupt(icr: u32) -> (r: bool)
    ensures
        r == (icr != 0),
{
    icr != 0
}

/// The outcome of a receive, which cleans at most one descriptor: the
/// delivered buffer with its payload length, or `NotReady`.
pub fn receive_result<B>(step: RxCleanStep<B>) -> (r: Result<(B, usize), NetError>)
    ensures
        step matches RxCleanStep::Deliver { buf, len, .. } ==> r == Ok::<(B, usize), NetError>(
            (buf, len),
        ),
        !(step is Deliver) ==> r == Err::<(B, usize), NetError>(NetError::NotReady),
{
    match step {
        RxCleanStep::Deliver { buf, len, .. } => Ok((buf, len)),
        _ => Err(NetError::NotReady),
    }
}

/// The outcome of a send: `Busy` when the ring cannot take a packet,
/// otherwise the transmission's outcome, any failure of it reported as
/// `NoMemory`.
pub fn send_result<E>(can_send: bool, xmit: Option<Result<(), E>>) -> (r: Result<(), NetError>)
    ensures
        !can_send ==> r == Err::<(), NetError>(NetError::Busy),
        can_send ==> (r is Ok <==> xmit matches Some(Ok(_))),
        can_send && !(xmit matches Some(Ok(_))) ==> r == Err::<(), NetError>(NetError::NoMemory),
{
    if !can_send {
        return Err(NetError::Busy);
    }
    match xmit {
        Some(Ok(())) => Ok(()),
        _ => Err(NetError::NoMemory),
    }
}

} // verus!
