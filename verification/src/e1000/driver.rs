//! Device-level decisions of the 82540EM driver: the PCI devices it
//! claims, the interrupt handler's test, the link state it records, and
//! the outcome of send and receive.

use vstd::prelude::*;

use crate::e1000::hw::{duplex_code, link_speed_mbps, Duplex, LinkSpeed};
use crate::net::NetError;

verus! {

/// Name under which the network device is registered.
pub const DEVICE_NAME: &'static str = "e1000-net";

/// Intel PCI vendor ID.
pub const INTEL_VENDOR_ID: u16 = 0x8086;

/// The PCI driver for the 82540EM family.
#[derive(Debug)]
pub struct E1000PciDriver;

/// The device IDs of the 8254x family served by the driver.
pub open spec fn is_supported_device(d: u16) -> bool {
    d == 0x100E || d == 0x1015 || d == 0x1016 || d == 0x1017 || d == 0x101E || d == 0x100F || d
        == 0x1011 || d == 0x1010 || d == 0x1012 || d == 0x1013 || d == 0x1014 || d == 0x1018 || d
        == 0x1076 || d == 0x1077 || d == 0x1078 || d == 0x1079 || d == 0x107A || d == 0x107B || d
        == 0x107C || d == 0x108A || d == 0x1099 || d == 0x10B5 || d == 0x1000 || d == 0x1001 || d
        == 0x1004 || d == 0x1008 || d == 0x1009 || d == 0x100C || d == 0x100D || d == 0x1019 || d
        == 0x101A || d == 0x101D || d == 0x1026 || d == 0x1027 || d == 0x1028 || d == 0x1075 || d
        == 0x2E6E
}

/// Whether the driver claims the PCI device with these IDs.
pub fn probe_matches(vendor_id: u16, device_id: u16) -> (r: bool)
    ensures
        r == (vendor_id == INTEL_VENDOR_ID && is_supported_device(device_id)),
{
    if vendor_id != INTEL_VENDOR_ID {
        return false;
    }
    matches!(
        device_id,
        0x100E | 0x1015 | 0x1016 | 0x1017 | 0x101E | 0x100F | 0x1011 | 0x1010 | 0x1012 | 0x1013
            | 0x1014 | 0x1018 | 0x1076 | 0x1077 | 0x1078 | 0x1079 | 0x107A | 0x107B | 0x107C
            | 0x108A | 0x1099 | 0x10B5 | 0x1000 | 0x1001 | 0x1004 | 0x1008 | 0x1009 | 0x100C
            | 0x100D | 0x1019 | 0x101A | 0x101D | 0x1026 | 0x1027 | 0x1028 | 0x1075 | 0x2E6E
    )
}

/// Whether an interrupt belongs to the device: its cause register,
/// read to acknowledge it, is not zero.
pub fn handle_interrupt(icr: u32) -> (r: bool)
    ensures
        r == (icr != 0),
{
    icr != 0
}

/// The link state the adapter records from a link check: up or down,
/// the speed in Mbps and the duplex code, each 0 when unknown.
#[derive(Debug, Clone, Copy, PartialEq, Eq, Structural)]
pub struct LinkState {
    pub link_up: bool,
    pub link_speed: u16,
    pub link_duplex: u16,
}

/// The link state recorded from `(link up, speed, duplex)`.
pub fn link_state(check: (bool, Option<LinkSpeed>, Option<Duplex>)) -> (r: LinkState)
    ensures
        r.link_up == check.0,
        r.link_speed == (match check.1 {
            Some(LinkSpeed::Speed10) => 10u16,
            Some(LinkSpeed::Speed100) => 100u16,
            Some(LinkSpeed::Speed1000) => 1000u16,
            None => 0u16,
        }),
        r.link_duplex == (match check.2 {
            Some(Duplex::Half) => 1u16,
            Some(Duplex::Full) => 2u16,
            None => 0u16,
        }),
{
    let (up, speed, duplex) = check;
    let link_speed = match speed {
        Some(s) => link_speed_mbps(s),
        None => 0,
    };
    let link_duplex = match duplex {
        Some(d) => duplex_code(d),
        None => 0,
    };
    LinkState { link_up: up, link_speed, link_duplex }
}

/// The outcome of a receive: the cleaned frame, or `NotReady`.
pub fn receive_result<B>(frame: Option<B>) -> (r: Result<B, NetError>)
    ensures
        frame matches Some(b) ==> r == Ok::<B, NetError>(b),
        frame is None ==> r == Err::<B, NetError>(NetError::NotReady),
{
    match frame {
        Some(b) => Ok(b),
        None => Err(NetError::NotReady),
    }
}

/// The outcome of a send: `Busy` when the ring cannot take a packet,
/// otherwise the transmission's outcome, any failure of it reported as
/// `NoMemory`.
pub fn send_result<E>(can_send: bool, xmit: Option<Result<(), E>>) -> (r: Result<(), NetError>)
    ensures
        !can_send ==> r == Err::<(), NetError>(NetError::Busy),
        can_send ==> (r is Ok <==> xmit matches Some(Ok(_))),
        can_send && !(xmit matches Some(Ok(_))) ==> r == Err::<(), NetError>(NetError::NoMemory),
{
    if !can_send {
        return Err(NetError::Busy);
    }
    match xmit {
        Some(Ok(())) => Ok(()),
        _ => Err(NetError::NoMemory),
    }
}

} // verus!
