use aster_nic::e1000e::desc::{alloc_tx_ring, pages_for_ring, DescRing, RxDescExt, RxDescRead, TxDesc};
use aster_nic::e1000e::driver::{
    clear_mta, eerd_data, eerd_read_cmd, handle_interrupt, hw_reset_ctrl, hw_reset_quiesce,
    initial_rx_tail, link_setup_ctrl, mac_from_eerd, probe_matches, rar_set, receive_result,
    send_result, DEVICE_NAME,
};
use aster_nic::e1000e::regs::{RCTL, RFCTL, RXCSUM, RXDCTL};
use aster_nic::e1000e::rx::{rx_checksum, RxChecksumResult, RxCleanStep, RxCoalesceConfig, RxRing};
use aster_nic::e1000e::tx::{bytes_to_tx_desc, configure_tx, tx_desc_to_bytes, TxError, TxRing};
use aster_nic::net::NetError;

fn rx_ring_with_buffers(count: u16) -> RxRing<u32> {
    let mut ring: DescRing<u32> = DescRing::new(count, 16);
    for i in 0..count {
        ring.put_buffer(i, 1000 + i as u32);
    }
    RxRing::new(ring, true, false, true)
}

#[test]
fn e1000e_rx_checksum_verdicts() {
    assert_eq!(rx_checksum(0x20, false), RxChecksumResult::NoChecksum);
    assert_eq!(rx_checksum(0x20 | 0x4, true), RxChecksumResult::NoChecksum);
    assert_eq!(rx_checksum(0x20 | 0x2000_0000, true), RxChecksumResult::Error);
    assert_eq!(rx_checksum(0x4000_0000, true), RxChecksumResult::Error);
    assert_eq!(rx_checksum(0x1, true), RxChecksumResult::NoChecksum);
    assert_eq!(rx_checksum(0x10, true), RxChecksumResult::Unnecessary);
    assert_eq!(rx_checksum(0x20, true), RxChecksumResult::Unnecessary);
}

#[test]
fn e1000e_ring_sizes() {
    assert_eq!(pages_for_ring(256, 16), 1);
    assert_eq!(pages_for_ring(257, 16), 2);
    assert_eq!(pages_for_ring(8, 16), 1);
    let t: DescRing<u8> = alloc_tx_ring(256);
    assert_eq!(t.ring_size_bytes(), 4096);
    assert_eq!(t.unused_count(), 255);
    assert_eq!(t.advance_index(255), 0);
    assert_eq!(t.advance_index(3), 4);
}

#[test]
fn e1000e_descriptor_images() {
    let d = TxDesc { buffer_addr: 0x0102_0304_0506_0708, length: 1514, cso: 1, cmd: 0x0B, status: 0, css: 2, special: 0x1234 };
    let b = tx_desc_to_bytes(&d);
    assert_eq!(b[0], 0x08);
    assert_eq!(b[8..10], [0xEA, 0x05]);
    assert_eq!(b[11], 0x0B);
    assert_eq!(bytes_to_tx_desc(&b), d);
    let r = RxDescRead::for_buffer(0xAB_CDEF);
    assert_eq!(r.to_bytes()[0..4], [0xEF, 0xCD, 0xAB, 0x00]);
    let mut wb = [0u8; 16];
    wb[8] = 0x03;
    wb[12] = 0x40;
    wb[13] = 0x00;
    let e = RxDescExt::from_bytes(&wb);
    assert_eq!(e.status_error, 3);
    assert_eq!(e.length, 0x40);
}

#[test]
fn e1000e_refill_places_buffers_in_order_and_batches_the_tail() {
    let ring: DescRing<u32> = DescRing::new(256, 16);
    let mut rx = RxRing::new(ring, true, true, false);
    let refills = rx.alloc_rx_buffers(vec![(7, 0x7000), (8, 0x8000), (9, 0x9000)]);
    assert_eq!(refills.len(), 3);
    assert_eq!(refills[0].index, 0);
    assert_eq!(refills[0].desc, RxDescRead::for_buffer(0x7000));
    assert_eq!(refills[0].tail, Some(0));
    assert_eq!(refills[1].index, 1);
    assert_eq!(refills[1].tail, None);
    assert_eq!(rx.ring.next_to_use(), 3);
    assert_eq!(*rx.ring.buffer(2), Some(9));
    let one = rx.refill_one(10, 0xA000);
    assert_eq!(one.index, 3);
    assert_eq!(rx.ring.next_to_use(), 4);
}

#[test]
fn e1000e_clean_step_delivers_strips_crc_and_drops_errors() {
    let mut rx = rx_ring_with_buffers(256);
    let mut st = RxRing::<u32>::clean_begin();
    let not_done = RxDescExt { mrq: 0, rss: 0, status_error: 0, length: 64, vlan: 0 };
    assert!(matches!(rx.clean_step(&mut st, 8, &not_done), RxCleanStep::Stop));
    // A complete good frame: done and end of packet; the CRC is not stripped
    // by the hardware here, so four bytes come off.
    let good = RxDescExt { status_error: 0x3, ..not_done };
    match rx.clean_step(&mut st, 8, &good) {
        RxCleanStep::Deliver { buf, len, refill } => assert_eq!((buf, len, refill), (1000, 60, 0)),
        _ => panic!("expected a delivery"),
    }
    assert_eq!(st.work_done, 1);
    assert_eq!(rx.ring.next_to_clean(), 1);
    // A CRC error drops the buffer.
    let bad = RxDescExt { status_error: 0x3 | 0x0100_0000, ..not_done };
    assert!(matches!(rx.clean_step(&mut st, 8, &bad), RxCleanStep::Drop { buf: 1001, refill: 0 }));
    // A descriptor without end of packet starts discarding, and the frame's
    // last descriptor ends it.
    let first = RxDescExt { status_error: 0x1, ..not_done };
    assert!(matches!(rx.clean_step(&mut st, 8, &first), RxCleanStep::Drop { buf: 1002, .. }));
    assert!(rx.is_discarding);
    assert!(matches!(rx.clean_step(&mut st, 8, &good), RxCleanStep::Drop { buf: 1003, .. }));
    assert!(!rx.is_discarding);
    // The budget ends the pass.
    let mut small = RxRing::<u32>::clean_begin();
    small.work_done = 8;
    assert!(matches!(rx.clean_step(&mut small, 8, &good), RxCleanStep::Stop));
    // Slots emptied so far: 4, next-to-use still 0.
    assert_eq!(rx.refill_count(), 3);
}

#[test]
fn e1000e_clean_step_requests_a_batch_refill() {
    let mut rx = rx_ring_with_buffers(256);
    let mut st = RxRing::<u32>::clean_begin();
    let good = RxDescExt { mrq: 0, rss: 0, status_error: 0x3, length: 100, vlan: 0 };
    for _ in 0..15 {
        assert!(matches!(rx.clean_step(&mut st, 64, &good), RxCleanStep::Deliver { refill: 0, .. }));
    }
    assert!(matches!(rx.clean_step(&mut st, 64, &good), RxCleanStep::Deliver { refill: 16, .. }));
    assert_eq!(st.cleaned_count, 0);
}

#[test]
fn e1000e_rx_register_programming() {
    let rx = rx_ring_with_buffers(256);
    let w = rx.configure_rx(0x0000_0012, 0, 0, 0x1_0000_2000, &RxCoalesceConfig::default());
    assert_eq!(w[0], (RCTL, 0x10));
    assert_eq!(w[1], (RXDCTL, 0x0104_0420));
    assert!(w.contains(&(0x2800, 0x2000)));
    assert!(w.contains(&(0x2804, 1)));
    assert!(w.contains(&(0x2808, 4096)));
    assert!(w.contains(&(RXCSUM, 0x200)));
    assert_eq!(*w.last().unwrap(), (RCTL, 0x12));
    let s = rx.setup_rctl(0x0000_3004 | 0x20, 0, 1);
    assert_eq!(s[0], (RFCTL, 0x8000));
    // Receiver on, broadcast, multicast offset 1, bad and long packets off.
    assert_eq!(s[1], (RCTL, 0x2 | 0x8000 | 0x1000));
    assert_eq!(initial_rx_tail(), 255);
    assert_eq!(RxCoalesceConfig::default().rx_abs_int_delay, 8);
}

#[test]
fn e1000e_tx_ring_full_and_reclaim() {
    let mut tx: TxRing<u32> = TxRing::new();
    for k in 0..255u32 {
        let s = tx.xmit_frame(k, 0x1000 * k as u64, 60).ok().unwrap();
        assert_eq!(s.index, k as usize);
        assert_eq!(s.tail, (k + 1) % 256);
        assert_eq!(s.desc.cmd, 0x0B);
    }
    assert!(!tx.can_send());
    assert!(matches!(tx.xmit_frame(999, 0, 60), Err(TxError::RingFull)));
    let done = TxDesc { buffer_addr: 0, length: 0, cso: 0, cmd: 0, status: 1, css: 0, special: 0 };
    let busy = TxDesc { status: 0, ..done };
    assert!(!tx.clean_tx_step(&busy));
    assert!(tx.clean_tx_step(&done));
    assert!(tx.can_send());
    assert_eq!(tx.unused_count(), 1);
    let w = configure_tx(0x2000, 4096);
    assert_eq!(w.len(), 9);
    assert_eq!(w[0], (0x3800, 0x2000));
}

#[test]
fn e1000e_driver_values() {
    assert_eq!(DEVICE_NAME, "e1000e-net");
    assert!(probe_matches(0x8086, 0x10D3));
    assert!(probe_matches(0x8086, 0x10F6));
    assert!(!probe_matches(0x8086, 0x100E));
    assert_eq!(eerd_read_cmd(1), 0x101);
    assert_eq!(eerd_data(0xBEEF_0010), Some(0xBEEF));
    assert_eq!(eerd_data(0xBEEF_0000), None);
    assert_eq!(mac_from_eerd(Some([0x1100, 0x3322, 0x5544])), [0x00, 0x11, 0x22, 0x33, 0x44, 0x55]);
    assert_eq!(mac_from_eerd(None), [0x52, 0x54, 0x00, 0x12, 0x34, 0x56]);
    let r = rar_set(&[0, 0x11, 0x22, 0x33, 0x44, 0x55], 0);
    assert_eq!((r.ral, r.rah), (0x3322_1100, 0x8000_5544));
    assert_eq!(hw_reset_quiesce().len(), 3);
    assert_eq!(hw_reset_ctrl(0x40), 0x0400_0040);
    assert_eq!(link_setup_ctrl(0), 0x60);
    let m = clear_mta();
    assert_eq!(m.len(), 128);
    assert_eq!(m[127], (0x5200 + 127 * 4, 0));
    assert!(!handle_interrupt(0));
    assert_eq!(receive_result::<u8>(RxCleanStep::Skip), Err(NetError::NotReady));
    assert_eq!(receive_result(RxCleanStep::Deliver { buf: 4u8, len: 60, refill: 0 }), Ok((4, 60)));
    assert_eq!(send_result::<()>(false, None), Err(NetError::Busy));
}

#[test]
fn e1000e_refill_wraps_around_the_ring() {
    let mut ring: DescRing<u32> = DescRing::new(8, 16);
    ring.set_next_to_use(6);
    let mut rx = RxRing::new(ring, true, true, false);
    let r = rx.alloc_rx_buffers(vec![(1, 0x100), (2, 0x200), (3, 0x300)]);
    let idx: Vec<u16> = r.iter().map(|x| x.index).collect();
    assert_eq!(idx, vec![6, 7, 0]);
    assert_eq!(r[2].tail, Some(0));
    assert_eq!(rx.ring.next_to_use(), 1);
    assert_eq!(*rx.ring.buffer(7), Some(2));
    assert_eq!(*rx.ring.buffer(0), Some(3));
    assert_eq!(*rx.ring.buffer(1), None);
}
