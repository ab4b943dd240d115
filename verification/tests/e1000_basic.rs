use aster_nic::e1000_basic::desc::{
    bytes_to_rx_desc, bytes_to_tx_desc, rx_desc_to_bytes, tx_desc_to_bytes, RingAllocError, RxDesc, TxDesc,
};
use aster_nic::e1000_basic::device::{E1000Device, DEVICE_NAME, MAX_TRANSMISSION_UNIT};
use aster_nic::e1000_basic::driver::{probe_matches, E1000PciDriver};
use aster_nic::e1000_basic::hw::{
    clear_multicast_table, disable_interrupts, eeprom_read_cmd, eeprom_read_result, enable_interrupts,
    is_link_up, mac_from_eeprom, mac_from_ra, reset_ctrl, reset_done, setup_flow_control, setup_link,
    setup_rx_hardware, setup_tx_hardware,
};
use aster_nic::e1000_basic::regs::{REG_RAH0, REG_RAL0, REG_RCTL, REG_RDT, REG_TCTL, REG_TDT};
use aster_nic::net::NetError;

fn device() -> E1000Device<u32, u32> {
    let rx: Vec<Option<u32>> = (0..64u32).map(Some).collect();
    E1000Device::new([0x52, 0x54, 0, 0x12, 0x34, 0x56], rx)
}

#[test]
fn basic_descriptor_images() {
    let d = RxDesc { buffer_addr: 0xAABB_CCDD, length: 1514, checksum: 0x1234, status: 1, errors: 0, special: 0 };
    let b = rx_desc_to_bytes(&d);
    assert_eq!(b[0..4], [0xDD, 0xCC, 0xBB, 0xAA]);
    assert_eq!(bytes_to_rx_desc(&b), d);
    let t = TxDesc { buffer_addr: 1, length: 60, cso: 0, cmd: 0x0B, status: 0, css: 0, special: 0 };
    assert_eq!(bytes_to_tx_desc(&tx_desc_to_bytes(&t)), t);
    assert_eq!(RxDesc::default(), RxDesc::for_buffer(0));
    assert_eq!(TxDesc::default().cmd, 0);
    let _ = RingAllocError;
}

#[test]
fn basic_reset_and_eeprom() {
    assert_eq!(reset_ctrl(0x1), 0x0400_0001);
    assert!(!reset_done(0x0400_0000));
    assert!(reset_done(0x40));
    assert_eq!(disable_interrupts(), (0xD8, 0xFFFF_FFFF));
    assert_eq!(eeprom_read_cmd(2), 0x201);
    assert_eq!(eeprom_read_result(0x5452_0010), Some(0x5452));
    assert_eq!(eeprom_read_result(0x5452_0000), None);
}

#[test]
fn basic_mac_from_registers_or_eeprom() {
    assert_eq!(mac_from_ra(0x1200_5452, 0x8000_5634), Some([0x52, 0x54, 0x00, 0x12, 0x34, 0x56]));
    assert_eq!(mac_from_ra(0x1200_5452, 0x0000_5634), None);
    let (mac, writes) = mac_from_eeprom(&[0x5452, 0x1200, 0x5634]);
    assert_eq!(mac, [0x52, 0x54, 0x00, 0x12, 0x34, 0x56]);
    assert_eq!(writes, vec![(REG_RAL0, 0x1200_5452), (REG_RAH0, 0x8000_5634)]);
    // What was programmed reads back as the same address.
    assert_eq!(mac_from_ra(writes[0].1, writes[1].1), Some(mac));
}

#[test]
fn basic_setup_values() {
    let m = clear_multicast_table();
    assert_eq!(m.len(), 128);
    assert_eq!(m[1], (0x5204, 0));
    assert_eq!(setup_link(0), 0x60);
    assert!(is_link_up(0x2));
    assert!(!is_link_up(0x1));
    assert_eq!(setup_flow_control(), vec![(0x28, 0x00C2_8001), (0x2C, 0x100), (0x30, 0x8808), (0x170, 0)]);
    let rx = setup_rx_hardware(0x1_0000_0000, 64);
    assert_eq!(rx[2], (0x2808, 1024));
    assert_eq!(rx[4], (REG_RDT, 63));
    assert_eq!(rx[5], (REG_RCTL, 0x0603_8002));
    let tx = setup_tx_hardware(0x3000, 64);
    assert_eq!(tx[0], (0x3800, 0x3000));
    assert_eq!(tx[5], (0x410, 0x0060_200A));
    assert_eq!(tx[6], (REG_TCTL, 0x0004_010A));
    assert_eq!(enable_interrupts(), (0xD0, 0x95));
}

#[test]
fn basic_receive_takes_and_refills() {
    let mut dev = device();
    assert_eq!(dev.rx_next(), 0);
    let not_done = RxDesc::for_buffer(0);
    assert!(!dev.can_receive(&not_done));
    assert_eq!(dev.receive_take(&not_done).err(), Some(NetError::NotReady));
    let done = RxDesc { status: 1, length: 98, ..not_done };
    assert!(dev.can_receive(&done));
    assert_eq!(dev.receive_take(&done).ok(), Some((0, 98)));
    let (desc, write) = dev.receive_refill(500, 0x9000);
    assert_eq!(desc, RxDesc::for_buffer(0x9000));
    assert_eq!(write, (REG_RDT, 0));
    assert_eq!(dev.rx_tail, 0);
    assert_eq!(dev.rx_buffers[0], Some(500));
    assert_eq!(dev.rx_next(), 1);
}

#[test]
fn basic_send_and_free() {
    let mut dev = device();
    // The slot after the tail is the hardware head: full.
    assert_eq!(dev.send_slot(1), Err(NetError::Busy));
    assert_eq!(dev.send_slot(0), Ok(0));
    let (desc, write) = dev.send_commit(77, 0x4000, 60);
    assert_eq!(desc.cmd, 0x0B);
    assert_eq!(desc.length, 60);
    assert_eq!(write, (REG_TDT, 1));
    assert!(dev.tx_slot_in_use(0));
    let busy = TxDesc::default();
    assert!(dev.can_send(&TxDesc::default(), 0));
    dev.free_tx_slot(0, &busy);
    assert!(dev.tx_slot_in_use(0));
    dev.free_tx_slot(0, &TxDesc { status: 1, ..busy });
    assert!(!dev.tx_slot_in_use(0));
}

#[test]
fn basic_driver_and_constants() {
    let _d = E1000PciDriver::new();
    assert!(probe_matches(0x8086, 0x100E));
    assert!(probe_matches(0x8086, 0x101E));
    assert!(!probe_matches(0x8086, 0x10D3));
    assert!(!probe_matches(0x1234, 0x100E));
    assert_eq!(DEVICE_NAME, "E1000");
    assert_eq!(MAX_TRANSMISSION_UNIT, 1514);
    assert_eq!(device().mac_addr(), [0x52, 0x54, 0, 0x12, 0x34, 0x56]);
}
