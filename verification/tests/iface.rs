use aster_nic::iface::{
    e1000_iface, e1000e_iface, eth_iface, iter_all_ifaces, loopback_iface, r8169_iface, virtio_iface,
    IfaceTable,
};

#[test]
fn iface_table_order_and_lookups() {
    let t = IfaceTable::build("lo-dev", None, Some("rtl"), None, Some("82574"));
    assert_eq!(*loopback_iface(&t), "lo-dev");
    let names: Vec<&str> = iter_all_ifaces(&t).iter().map(|e| e.name.as_str()).collect();
    assert_eq!(names, vec!["lo", "r8169", "e1000e"]);
    assert_eq!(r8169_iface(&t), Some(&"rtl"));
    assert_eq!(e1000_iface(&t), None);
    assert_eq!(e1000e_iface(&t), Some(&"82574"));
    // The second entry counts as the virtio interface whatever it is.
    assert_eq!(virtio_iface(&t), Some(&"rtl"));
    assert_eq!(eth_iface(&t), Some(&"rtl"));
}

#[test]
fn iface_table_with_virtio_and_loopback_only() {
    let t = IfaceTable::build(1u8, Some(2), Some(3), Some(4), Some(5));
    assert_eq!(t.len(), 5);
    assert_eq!(virtio_iface(&t), Some(&2));
    assert_eq!(eth_iface(&t), Some(&2));
    assert_eq!(e1000_iface(&t), Some(&4));
    let lo = IfaceTable::build(1u8, None, None, None, None);
    assert_eq!(lo.len(), 1);
    assert_eq!(virtio_iface(&lo), None);
    assert_eq!(eth_iface(&lo), None);
    assert_eq!(*loopback_iface(&lo), 1);
}
