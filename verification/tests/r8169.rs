use aster_nic::r8169::rx::{receive_one, RxOutcome, RxPoll, RxPollStats, RxRing};
use aster_nic::net::NetError;
use aster_nic::r8169::device::chip_enable_cmd;
use aster_nic::r8169::rx::{rx_close_config, rx_max_size, set_rx_desc_addr};
use aster_nic::r8169::tx::{set_tx_desc_addr, set_tx_max_size};
use aster_nic::r8169::desc::{is_fragmented_frame, mark_to_asic, tx_slots_avail, RawDesc, RingIndexes};
use aster_nic::r8169::device::{irq_ack, probe_matches, read_mac_addr};
use aster_nic::r8169::phy::PhyAccess;
use aster_nic::r8169::regs::{
    FIRST_FRAG, IP_FAIL, LAST_FRAG, NUM_TX_DESC, RING_END, RX_PROTO_TCP, RX_PROTO_UDP, RX_VLAN_TAG,
};
use aster_nic::r8169::rx::{rx_csum, rx_vlan_tag, RxCsumStatus};
use aster_nic::r8169::tx::{pad_packet, tso_csum_v2, tx_vlan_tag, TxCompleteStats, TxReclaim, TxRing, ETH_ZLEN};

#[test]
fn ocp_reg_ok_checks() {
    assert!(PhyAccess::ocp_reg_ok(0xa400));
    assert!(PhyAccess::ocp_reg_ok(0xa402));
    // Odd address should fail.
    assert!(!PhyAccess::ocp_reg_ok(0xa401));
}

#[test]
fn test_rx_csum_tcp() {
    assert_eq!(rx_csum(RX_PROTO_TCP), RxCsumStatus::Unnecessary);
}

#[test]
fn test_rx_csum_udp() {
    assert_eq!(rx_csum(RX_PROTO_UDP), RxCsumStatus::Unnecessary);
}

#[test]
fn test_rx_csum_with_fail() {
    assert_eq!(rx_csum(RX_PROTO_TCP | IP_FAIL), RxCsumStatus::Unchecked);
}

#[test]
fn test_rx_csum_unknown_proto() {
    assert_eq!(rx_csum(0), RxCsumStatus::Unchecked);
}

#[test]
fn test_rx_vlan_tag_present() {
    let opts2 = RX_VLAN_TAG | 0x0064;
    let vlan = rx_vlan_tag(opts2);
    assert!(vlan.is_some());
    assert_eq!(vlan.unwrap(), 0x0064u16.swap_bytes());
}

#[test]
fn test_rx_vlan_tag_absent() {
    assert_eq!(rx_vlan_tag(0), None);
}

#[test]
fn test_fragmented_frame_detection() {
    assert!(!is_fragmented_frame(FIRST_FRAG | LAST_FRAG));
    assert!(is_fragmented_frame(FIRST_FRAG));
    assert!(is_fragmented_frame(LAST_FRAG));
    assert!(is_fragmented_frame(0));
}

#[test]
fn test_pad_packet_short() {
    let short = [0xAAu8; 30];
    let padded = pad_packet(&short);
    assert_eq!(padded.len(), ETH_ZLEN);
    assert_eq!(&padded[..30], &short);
    assert!(padded[30..].iter().all(|&b| b == 0));
}

#[test]
fn test_pad_packet_exact() {
    let exact = [0xBBu8; ETH_ZLEN];
    let padded = pad_packet(&exact);
    assert_eq!(padded.len(), ETH_ZLEN);
    assert_eq!(&padded[..], &exact[..]);
}

#[test]
fn test_pad_packet_long() {
    let long = [0xCCu8; 1500];
    let padded = pad_packet(&long);
    assert_eq!(padded.len(), 1500);
}

#[test]
fn test_vlan_tag_none() {
    assert_eq!(tx_vlan_tag(&[0u8; 64]), 0);
}

#[test]
fn test_tso_csum_v2_no_offload() {
    let opts = tso_csum_v2(&[0u8; 64]);
    assert_eq!(opts, [0, 0]);
}

#[test]
fn raw_desc_bytes_roundtrip() {
    let d = RawDesc { opts1: 0x8000_07d0, opts2: 0x0102_0304, addr_lo: 0xdead_beef, addr_hi: 0x1 };
    let b = d.to_bytes();
    assert_eq!(b[0..4], [0xd0, 0x07, 0x00, 0x80]);
    assert_eq!(b[8..12], [0xef, 0xbe, 0xad, 0xde]);
    assert_eq!(RawDesc::from_bytes(&b), d);
    let z = RawDesc::zeroed();
    assert_eq!(z.to_bytes(), [0u8; 16]);
}

#[test]
fn ring_indexes_reset_zeroes() {
    let mut r = RingIndexes::new();
    r.cur_tx = 7;
    r.dirty_tx = 3;
    r.cur_rx = 9;
    r.reset();
    assert_eq!((r.cur_tx, r.dirty_tx, r.cur_rx), (0, 0, 0));
}

#[test]
fn tx_slots_avail_wraps() {
    assert_eq!(tx_slots_avail(0, 0), NUM_TX_DESC);
    assert_eq!(tx_slots_avail(5, 10), NUM_TX_DESC - 5);
    // Both counters wrapped around 2^32.
    assert_eq!(tx_slots_avail(u32::MAX, 2), NUM_TX_DESC - 3);
}

#[test]
fn tx_ring_commit_then_reclaim_frees_the_slot() {
    let mut ring: TxRing<u32> = TxRing::new();
    let (entry, opts, data) = ring.prepare_xmit(&[1u8; 10]).ok().unwrap();
    assert_eq!(entry, 0);
    assert_eq!(opts, [FIRST_FRAG | LAST_FRAG, 0]);
    assert_eq!(data.len(), ETH_ZLEN);
    let d = ring.commit_xmit(entry, &opts, data.len() as u32, 42, 0x1_2345_6000);
    assert_eq!(d.addr_lo, 0x2345_6000);
    assert_eq!(d.addr_hi, 1);
    assert!(ring.kick_pending());
    let mut stats = TxCompleteStats::default();
    // The NIC still owns it.
    assert_eq!(ring.reclaim_step(0x8000_0000, &mut stats), TxReclaim::HwOwned);
    match ring.reclaim_step(0, &mut stats) {
        TxReclaim::Reclaimed { entry, desc } => {
            assert_eq!(entry, 0);
            assert_eq!(desc, RawDesc::zeroed());
        }
        other => panic!("unexpected {:?}", other),
    }
    assert_eq!(stats.tx_packets, 1);
    assert_eq!(stats.tx_bytes, ETH_ZLEN as u64);
    assert!(!ring.kick_pending());
    assert_eq!(ring.reclaim_step(0, &mut stats), TxReclaim::Idle);
}

#[test]
fn phy_page_select_then_restore_gives_back_the_window() {
    let mut phy = PhyAccess::new();
    let base = phy.ocp_base();
    let old = phy.phy_select_page(0x0a43);
    assert_eq!(phy.ocp_base(), 0x0a43 << 4);
    phy.phy_restore_page(old);
    assert_eq!(phy.ocp_base(), base);
}

#[test]
fn r8169_probe_and_mac() {
    assert!(probe_matches(0x10EC, 0x8168));
    assert!(!probe_matches(0x8086, 0x8168));
    assert!(!probe_matches(0x10EC, 0x1234));
    assert_eq!(read_mac_addr(Some(0x4433_2211), Some(0x6655)), [0x11, 0x22, 0x33, 0x44, 0x55, 0x66]);
    assert_eq!(read_mac_addr(None, None), [0x52, 0x54, 0x00, 0x12, 0x34, 0x57]);
    assert_eq!(read_mac_addr(Some(0xFFFF_FFFF), Some(0xFFFF)), [0x52, 0x54, 0x00, 0x12, 0x34, 0x57]);
}

#[test]
fn r8169_irq_ack_only_when_pending() {
    assert_eq!(irq_ack(0), None);
    assert_eq!(irq_ack(0x0005), Some(0x0005));
}

fn rx_desc(opts1: u32, opts2: u32) -> RawDesc {
    RawDesc { opts1, opts2, addr_lo: 0x1000, addr_hi: 0x2 }
}

#[test]
fn r8169_rx_poll_step_counts_and_delivers() {
    let mut ring: RxRing<u8> = RxRing::new();
    let mut stats = RxPollStats::default();
    // Owned by the NIC: nothing happens.
    let (out, back) = ring.rtl_rx_step(&mut stats, rx_desc(0x8000_0000, 0), None);
    assert!(matches!(out, RxOutcome::HwOwned));
    assert_eq!(back, None);
    assert_eq!(ring.cur_rx, 0);
    // A CRC error: counted, skipped and handed back to the NIC.
    let crc_err = 0x0020_0000 | 0x0008_0000 | 64;
    let (out, back) = ring.rtl_rx_step(&mut stats, rx_desc(crc_err, 7), None);
    assert!(matches!(out, RxOutcome::Skipped));
    assert_eq!(back, Some(RawDesc { opts1: 0x8000_3FFF, opts2: 0, addr_lo: 0x1000, addr_hi: 0x2 }));
    assert_eq!((stats.rx_errors, stats.rx_crc_errors, ring.cur_rx), (1, 1, 1));
    // A complete 64-byte frame (60 bytes without its FCS), TCP checksum ok,
    // VLAN tag present.
    let good = FIRST_FRAG | LAST_FRAG | RX_PROTO_TCP | 64;
    let (out, back) = ring.rtl_rx_step(&mut stats, rx_desc(good, RX_VLAN_TAG | 0x0064), Some(vec![7u8; 60]));
    assert_eq!(back, Some(RawDesc { opts1: 0x8000_3FFF, opts2: 0, addr_lo: 0x1000, addr_hi: 0x2 }));
    match out {
        RxOutcome::Packet { ref packet, csum, vlan } => {
            assert_eq!(packet.len(), 60);
            assert_eq!(csum, RxCsumStatus::Unnecessary);
            assert_eq!(vlan, Some(0x6400));
        }
        _ => panic!("expected a packet"),
    }
    assert_eq!((stats.rx_packets, stats.rx_bytes), (1, 60));
    assert_eq!(receive_one(out), Ok(vec![7u8; 60]));
    // The data could not be read: dropped.
    let (out, _) = ring.rtl_rx_step(&mut stats, rx_desc(good, 0), None);
    assert!(matches!(out, RxOutcome::Skipped));
    assert_eq!(stats.rx_dropped, 1);
    // A fragment: dropped and a length error.
    let (out, _) = ring.rtl_rx_step(&mut stats, rx_desc(FIRST_FRAG | 64, 0), None);
    assert!(matches!(out, RxOutcome::Skipped));
    assert_eq!((stats.rx_dropped, stats.rx_length_errors), (2, 1));
    assert_eq!(ring.cur_rx, 4);
}

#[test]
fn r8169_mark_to_asic_keeps_ring_end_and_address() {
    let d = RawDesc { opts1: RING_END | 0x0300_0040, opts2: 0x1234, addr_lo: 0xABCD_0000, addr_hi: 0x1 };
    assert_eq!(
        mark_to_asic(d),
        RawDesc { opts1: 0xC000_3FFF, opts2: 0, addr_lo: 0xABCD_0000, addr_hi: 0x1 }
    );
}

#[test]
fn r8169_rx_poll_budget_and_accounting() {
    let mut ring: RxRing<u8> = RxRing::new();
    let good = FIRST_FRAG | LAST_FRAG | 64;
    // A budget of two stops after two consumed descriptors.
    let mut poll = RxPoll::new(2);
    let mut seen = 0;
    while let Some(entry) = poll.next_entry(&ring) {
        assert_eq!(entry, seen);
        let back = poll.step(&mut ring, Some(rx_desc(good, 0)), Some(vec![1u8; 60]));
        assert!(back.is_some());
        seen += 1;
    }
    let (pkts, stats) = poll.finish();
    assert_eq!(pkts.len(), 2);
    assert_eq!((stats.rx_packets, stats.rx_bytes), (2, 120));
    assert_eq!(ring.cur_rx, 2);
    // A descriptor the NIC owns ends the poll early.
    let mut poll = RxPoll::new(10);
    assert!(poll.step(&mut ring, Some(rx_desc(0x0020_0000 | 64, 0)), None).is_some());
    assert_eq!(poll.step(&mut ring, Some(rx_desc(0x8000_0000, 0)), None), None);
    assert_eq!(poll.next_entry(&ring), None);
    let (pkts, stats) = poll.finish();
    assert!(pkts.is_empty());
    assert_eq!((stats.rx_errors, stats.rx_packets, stats.rx_dropped), (1, 0, 0));
    assert_eq!(ring.cur_rx, 3);
    // An unreadable descriptor ends it too.
    let mut poll = RxPoll::new(10);
    assert_eq!(poll.step(&mut ring, None, None), None);
    assert_eq!(poll.next_entry(&ring), None);
    assert_eq!(ring.cur_rx, 3);
}

#[test]
fn r8169_device_receive_rearms_the_slot() {
    let mut ring: RxRing<u8> = RxRing::new();
    ring.put(0, 9);
    assert_eq!(ring.device_receive(0x8000_0000), (None, Err(NetError::NotReady)));
    let good = FIRST_FRAG | LAST_FRAG | 100;
    assert_eq!(ring.device_receive(good), (Some(0), Ok((9, 96))));
    assert_eq!(*ring.slot(0), None);
    // An errored frame re-arms slot 1 without delivering.
    assert_eq!(ring.device_receive(0x0020_0000 | good), (Some(1), Err(NetError::NotReady)));
    assert_eq!(ring.cur_rx, 2);
}

#[test]
fn r8169_register_values() {
    assert_eq!(set_tx_desc_addr(0x0000_0001_8000_0000), [(0x24, 1), (0x20, 0x8000_0000)]);
    assert_eq!(set_rx_desc_addr(0x2_0000_1000), [(0xe8, 2), (0xe4, 0x1000)]);
    assert_eq!(set_tx_max_size(), (0xec, 0x3f));
    assert_eq!(rx_max_size(), 0x4000);
    assert_eq!(chip_enable_cmd(), 0x0C);
    assert_eq!(rx_close_config(0xFFFF_FFFF) & 0x3f, 0);
}
