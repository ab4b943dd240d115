use aster_nic::e1000::desc::{DescRing, E1000RxDesc, E1000TxDesc};
use aster_nic::e1000::driver::{probe_matches, receive_result, send_result, handle_interrupt};
use aster_nic::e1000::eeprom::{
    eerd_read_cmd, eerd_result, mac_from_words, read_mac_addr_from_eeprom, validate_eeprom_checksum,
    EepromChecksum, EepromError, EerdPoll,
};
use aster_nic::e1000::hw::{rar_set, Duplex, E1000Hw, LinkSpeed, RegOp};
use aster_nic::e1000::intr::{compute_itr, irq_disable, irq_enable, process_interrupt, INTR_LINK_CHANGE, INTR_RX, INTR_TX_DONE};
use aster_nic::e1000::regs::{
    ICR, ICR_LSC, ICR_RXT0, ICR_TXDW, IMC, IMS, IMS_ENABLE_MASK, RAH_AV, RCTL, STATUS, TCTL, TCTL_PSP, TDBAH,
    TDBAL,
};
use aster_nic::e1000::rx::{bytes_to_rx_desc, rx_desc_to_bytes, RxClean, RxRing};
use aster_nic::e1000::tx::{bytemuck_cast_bytes_to_desc, bytemuck_cast_desc_to_bytes, configure_tx, TxRing};
use aster_nic::net::NetError;

#[test]
fn e1000_compute_itr_values() {
    assert_eq!(compute_itr(0), 0);
    assert_eq!(compute_itr(8000), 488);
    assert_eq!(compute_itr(1), 3_906_250);
}

#[test]
fn e1000_process_interrupt_maps_causes() {
    let s = process_interrupt(ICR_LSC | ICR_RXT0 | ICR_TXDW);
    assert!(s.contains(INTR_LINK_CHANGE));
    assert!(s.contains(INTR_RX));
    assert!(s.contains(INTR_TX_DONE));
    assert_eq!(process_interrupt(0).bits(), 0);
    assert!(!handle_interrupt(0));
    assert!(handle_interrupt(ICR_TXDW));
}

#[test]
fn e1000_eeprom_checksum_and_mac() {
    let mut words = vec![0u16; 64];
    words[0] = 0x5452;
    words[63] = 0xBABA - 0x5452;
    assert!(validate_eeprom_checksum(&words).is_ok());
    words[1] = 1;
    assert!(matches!(validate_eeprom_checksum(&words), Err(EepromError::ChecksumInvalid)));
    let mut hw = E1000Hw::new();
    let mac = read_mac_addr_from_eeprom(&mut hw, &[0x5452, 0x1200, 0x5634]);
    assert_eq!(mac, [0x52, 0x54, 0x00, 0x12, 0x34, 0x56]);
    assert_eq!(hw.mac_addr, mac);
    assert_eq!(eerd_read_cmd(2), 0x201);
    assert_eq!(eerd_result(0x1234_0010), Some(0x1234));
    assert_eq!(eerd_result(0x1234_0000), None);
}

#[test]
fn e1000_rar_holds_the_eeprom_address() {
    let mac = mac_from_words(&[0x5452, 0x1200, 0x5634]);
    let w = rar_set(&mac, 0);
    assert_eq!(w.ral, 0x1200_5452);
    assert_eq!(w.rah, 0x5634 | RAH_AV);
    assert_eq!(w.ral_offset, 0x5400);
    assert_eq!(w.rah_offset, 0x5404);
}

#[test]
fn e1000_multicast_table_bits() {
    let hw = E1000Hw::new();
    let a = [0x01, 0x00, 0x5e, 0x00, 0x00, 0xfb];
    let h = hw.hash_mc_addr(&a);
    assert_eq!(h, (0xfb << 4) & 0xFFF);
    let mta = hw.update_mc_addr_list(&[a]);
    assert_eq!(mta.len(), 128);
    for (i, v) in mta.iter().enumerate() {
        if i == (h >> 5) as usize {
            assert_eq!(*v, 1u32 << (h & 0x1f));
        } else {
            assert_eq!(*v, 0);
        }
    }
}

#[test]
fn e1000_link_check() {
    let mut hw = E1000Hw::new();
    assert_eq!(hw.check_for_link(0), (false, None, None));
    assert!(hw.get_link_status);
    // Link up, 1000 Mb/s, full duplex.
    let r = hw.check_for_link(0x2 | 0x80 | 0x1);
    assert_eq!(r, (true, Some(LinkSpeed::Speed1000), Some(Duplex::Full)));
    assert!(!hw.get_link_status);
}

#[test]
fn e1000_descriptor_bytes_roundtrip() {
    let d = E1000RxDesc { buffer_addr: 0x1122_3344_5566_7788, length: 60, csum: 0xabcd, status: 3, errors: 0, special: 7 };
    let b = rx_desc_to_bytes(&d);
    assert_eq!(b[0], 0x88);
    assert_eq!(b[8], 60);
    assert_eq!(bytes_to_rx_desc(&b), d);
    let t = E1000TxDesc::new_data(0x1000, 42, 0x0B);
    let tb = bytemuck_cast_desc_to_bytes(&t);
    assert_eq!(bytemuck_cast_bytes_to_desc(&tb), t);
    assert!(!t.done());
}

#[test]
fn e1000_desc_ring_counts() {
    let mut r: DescRing<E1000RxDesc> = DescRing::new(8);
    assert_eq!(r.unused_count(), 7);
    r.advance_use();
    r.advance_use();
    assert_eq!(r.unused_count(), 5);
    r.advance_clean();
    assert_eq!(r.unused_count(), 6);
    assert!(!r.is_full());
}

#[test]
fn e1000_rx_clean_delivers_and_recycles() {
    let mut ring: RxRing<u32> = RxRing::new();
    ring.install_buffer(0, 10);
    ring.install_buffer(1, 11);
    assert_eq!(ring.alloc_rx_buffers(), 255);
    let pending = E1000RxDesc { buffer_addr: 0, length: 0, csum: 0, status: 0, errors: 0, special: 0 };
    assert!(matches!(ring.clean_rx_irq(&pending), RxClean::NotReady));
    let good = E1000RxDesc { status: 0x03, length: 64, ..pending };
    match ring.clean_rx_irq(&good) {
        RxClean::Deliver { index, buf, len } => {
            assert_eq!((index, buf, len), (0, 10, 64));
        }
        _ => panic!("expected a delivery"),
    }
    assert_eq!(ring.next_to_clean(), 1);
    let bad = E1000RxDesc { status: 0x03, errors: 0x01, ..pending };
    assert!(matches!(ring.clean_rx_irq(&bad), RxClean::Recycle { index: 1 }));
    assert_eq!(ring.next_to_clean(), 2);
    assert_eq!(*ring.slot(1), Some(11));
}

#[test]
fn e1000_tx_ring_submit_and_clean() {
    let mut ring: TxRing<u32> = TxRing::new();
    assert!(ring.can_send());
    assert_eq!(ring.available(), 255);
    let idx = ring.xmit_slot().ok().unwrap();
    let (desc, tdt) = ring.xmit_frame(idx, 5, 100, 0xabc000);
    assert_eq!(desc.buffer_addr, 0xabc000);
    assert_eq!(tdt, 1);
    assert_eq!(ring.available(), 254);
    assert_eq!(ring.clean_tx_next(), Some(0));
    assert!(!ring.clean_tx_irq(false));
    assert!(ring.clean_tx_irq(true));
    assert_eq!(ring.clean_tx_next(), None);
    assert_eq!(ring.available(), 255);
}

#[test]
fn e1000_probe_and_results() {
    assert!(probe_matches(0x8086, 0x100E));
    assert!(!probe_matches(0x8086, 0x10D3));
    assert!(!probe_matches(0x10EC, 0x100E));
    assert_eq!(receive_result::<u8>(None), Err(NetError::NotReady));
    assert_eq!(receive_result(Some(3u8)), Ok(3));
    assert_eq!(send_result::<()>(false, None), Err(NetError::Busy));
    assert_eq!(send_result::<()>(true, Some(Err(()))), Err(NetError::NoMemory));
    assert_eq!(send_result::<()>(true, Some(Ok(()))), Ok(()));
}

#[test]
fn e1000_configure_tx_control_value() {
    let w = configure_tx(0x1_2345_6000, 4096);
    assert_eq!(w[0], (TDBAL, 0x2345_6000));
    assert_eq!(w[1], (TDBAH, 0x1));
    assert_eq!(w[7], (TCTL, 0x0103_F0FA));
}

#[test]
fn e1000_eerd_poll_first_completion_or_timeout() {
    let mut poll = EerdPoll::new();
    assert!(poll.pending());
    poll.record(0x0000_0000);
    poll.record(0x0000_0001);
    assert!(poll.pending());
    poll.record(0xBEEF_0010);
    assert!(!poll.pending());
    assert_eq!(poll.outcome(), Ok(0xBEEF));
    let mut poll = EerdPoll::new();
    let mut reads = 0;
    while poll.pending() {
        poll.record(0x1234_0000);
        reads += 1;
    }
    assert_eq!(reads, 1000);
    assert_eq!(poll.outcome(), Err(EepromError::ReadTimeout));
}

#[test]
fn e1000_eeprom_checksum_reads_in_order_and_stops_on_failure() {
    let mut check = EepromChecksum::new();
    let mut offsets = Vec::new();
    while let Some(o) = check.next_offset() {
        offsets.push(o);
        let w = if o == 0 { 0xBABA - 7 } else if o == 63 { 7 } else { 0 };
        check.record(Ok(w));
    }
    assert_eq!(offsets, (0..64).collect::<Vec<u16>>());
    assert_eq!(check.outcome(), Ok(()));
    let mut check = EepromChecksum::new();
    check.record(Ok(1));
    check.record(Err(EepromError::ReadTimeout));
    assert_eq!(check.next_offset(), None);
    assert_eq!(check.outcome(), Err(EepromError::ReadTimeout));
    let mut check = EepromChecksum::new();
    while check.next_offset().is_some() {
        check.record(Ok(1));
    }
    assert_eq!(check.outcome(), Err(EepromError::ChecksumInvalid));
}

#[test]
fn e1000_reset_and_interrupt_sequences() {
    let hw = E1000Hw::new();
    assert_eq!(
        hw.reset_hw(),
        vec![
            RegOp::Write { reg: IMC, val: 0xFFFF_FFFF },
            RegOp::Write { reg: RCTL, val: 0 },
            RegOp::Write { reg: TCTL, val: TCTL_PSP },
            RegOp::Read { reg: STATUS },
            RegOp::Delay { us: 10 },
            RegOp::GlobalReset,
            RegOp::Delay { us: 2000 },
            RegOp::Write { reg: IMC, val: 0xFFFF_FFFF },
            RegOp::Read { reg: ICR },
        ]
    );
    assert_eq!(irq_enable(), vec![RegOp::Write { reg: IMS, val: IMS_ENABLE_MASK }, RegOp::Read { reg: STATUS }]);
    assert_eq!(irq_disable(), vec![RegOp::Write { reg: IMC, val: 0xFFFF_FFFF }, RegOp::Read { reg: STATUS }]);
}
