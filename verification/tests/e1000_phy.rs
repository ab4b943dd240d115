use aster_nic::e1000::eeprom::{
    acquire_eeprom, eerd_outcome, lower_clock, raise_clock, release_eeprom, shift_out_bits, EepromError, ShiftIn,
};
use aster_nic::e1000::hw::{clear_hw_counters, E1000Hw, FlowControlMode};
use aster_nic::e1000::phy::{
    copper_link_ctrl, detect_phy, get_phy_info, m88_phy_spec_ctrl, mdic_read_cmd, mdic_read_result, mdic_status,
    mdic_write_cmd, mdic_write_result, phy_hw_reset, phy_reset, power_up_phy, restart_autoneg, setup_autoneg,
    setup_forced_link, MdicStatus, PhyError,
};

#[test]
fn e1000_mdic_commands_and_results() {
    let hw = E1000Hw::new();
    assert_eq!(mdic_read_cmd(&hw, 2), 0x0822_0000);
    assert_eq!(mdic_write_cmd(&hw, 0, 0x1234), 0x0420_1234);
    assert_eq!(mdic_status(0x1000_0042), MdicStatus::Ready(0x42));
    assert_eq!(mdic_status(0x5000_0000), MdicStatus::Failed);
    assert_eq!(mdic_status(0), MdicStatus::Busy);
    assert_eq!(mdic_read_result(MdicStatus::Ready(7)), Ok(7));
    assert_eq!(mdic_read_result(MdicStatus::Failed), Err(PhyError::ReadError));
    assert_eq!(mdic_read_result(MdicStatus::Busy), Err(PhyError::ReadTimeout));
    assert_eq!(mdic_write_result(MdicStatus::Ready(0)), Ok(()));
    assert_eq!(mdic_write_result(MdicStatus::Failed), Err(PhyError::WriteError));
    assert_eq!(mdic_write_result(MdicStatus::Busy), Err(PhyError::WriteTimeout));
}

#[test]
fn e1000_phy_register_values() {
    let mut hw = E1000Hw::new();
    assert_eq!(detect_phy(0x0141, 0x0C54), 0x0141_0C50);
    assert_eq!(phy_hw_reset(0x40), 0x8000_0040);
    assert_eq!(phy_reset(0x1140), 0x9140);
    assert_eq!(m88_phy_spec_ctrl(0x0000), 0x0840);
    assert_eq!(m88_phy_spec_ctrl(0x0062), 0x0840);
    assert_eq!(restart_autoneg(0x0100), 0x1300);
    assert_eq!(power_up_phy(0x0840), 0x0040);
    // Everything advertised but 1000 half duplex, full flow control.
    assert_eq!(setup_autoneg(&hw, 0, 0), (0x0DE0, 0x0200));
    hw.fc = FlowControlMode::Off;
    assert_eq!(setup_autoneg(&hw, 0x0C00, 0x0100), (0x01E0, 0x0200));
    assert_eq!(copper_link_ctrl(&hw, 0x1800), 0x60);
    hw.autoneg = false;
    assert_eq!(copper_link_ctrl(&hw, 0x1800), 0x1840);
    // Forced 100 Mb/s full duplex.
    hw.forced_speed_duplex = 0x21;
    assert_eq!(setup_forced_link(&hw, 0x1140), 0x2100);
    // Forced 10 Mb/s half duplex.
    hw.forced_speed_duplex = 0x10;
    assert_eq!(setup_forced_link(&hw, 0x3140), 0x0000);
    assert_eq!(get_phy_info(0x8000 | 0x2000 | 0x0400), (true, 1000, 2));
    assert_eq!(get_phy_info(0x4000), (false, 100, 1));
}

#[test]
fn e1000_eeprom_bit_banging() {
    assert_eq!(raise_clock(0x2), 0x3);
    assert_eq!(lower_clock(0x3), 0x2);
    assert_eq!(acquire_eeprom(0x0), 0x2);
    assert_eq!(release_eeprom(0x3), 0x1);
    assert_eq!(shift_out_bits(0x8, 0b101, 3), vec![4, 5, 4, 0, 1, 0, 4, 5, 4, 0]);
    let mut s = ShiftIn::start(0x0F, 3);
    assert_eq!(s.clock_high(), 0x3);
    assert_eq!(s.clock_in(0x9), 0x8);
    assert_eq!(s.clock_in(0x1), 0x0);
    assert_eq!(s.clock_in(0x9), 0x8);
    assert_eq!(s.data, 0b101);
    assert_eq!(s.left, 0);
    assert_eq!(eerd_outcome(Some(3)), Ok(3));
    assert_eq!(eerd_outcome(None), Err(EepromError::ReadTimeout));
}

#[test]
fn e1000_hw_state_transitions() {
    let mut hw = E1000Hw::new();
    assert!(hw.needs_mac_read());
    hw.read_mac_addr(&[0x5452, 0x1200, 0x5634]);
    assert!(!hw.needs_mac_read());
    assert_eq!(hw.mac_addr, [0x52, 0x54, 0x00, 0x12, 0x34, 0x56]);
    assert_eq!(hw.force_mac_fc(0xFFFF_FFFF), 0xFFFF_FFFF);
    hw.fc = FlowControlMode::Off;
    assert_eq!(hw.force_mac_fc(0xFFFF_FFFF), !0x1800_0000);
    hw.restore_fc();
    assert_eq!(hw.fc, FlowControlMode::Full);
    assert_eq!(hw.config_collision_dist(0x0000_F00A), 0x0003_F00A);
    assert_eq!(hw.get_speed_and_duplex(0x41), (100, 2));
    // Adaptive inter-frame spacing.
    hw.reset_adaptive();
    hw.tx_packet_delta = 2000;
    hw.collision_delta = 5000;
    assert_eq!(hw.update_adaptive(), Some(64));
    assert_eq!(hw.update_adaptive(), Some(72));
    hw.tx_packet_delta = 10;
    assert_eq!(hw.update_adaptive(), Some(0));
    assert!(!hw.in_ifs_mode);
    // Switched off, the update touches nothing, whatever the deltas.
    hw.adaptive_ifs = false;
    hw.collision_delta = u32::MAX;
    hw.tx_packet_delta = u32::MAX;
    assert_eq!(hw.update_adaptive(), None);
    assert_eq!((hw.current_ifs_val, hw.in_ifs_mode), (0, false));
    let regs = clear_hw_counters();
    assert_eq!(regs[0], 0x4000);
    assert_eq!(*regs.last().unwrap(), 0x40FC);
}
