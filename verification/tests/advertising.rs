use sparklink::errno::Errno;
use sparklink::sle_adv::{
    AdvParams, AdvScanInner, ExtAdvParams, ExtAdvPhy, ExtAdvState, ScanParams,
};
use sparklink::sle_pdu::{AdvDataBuilder, AdvPdu, BroadcastType, PacketType};

#[test]
fn advertising_goes_through_its_states() {
    let mut a = AdvScanInner::new([1; 6], b"lamp");
    assert_eq!(a.stop_advertising().is_err(), true);
    assert_eq!(a.start_advertising(AdvParams::default()), Ok(()));
    assert_eq!(a.start_advertising(AdvParams::default()), Err(Errno::EBUSY));
    assert_eq!(a.start_scanning(ScanParams::default()), Err(Errno::EBUSY));
    a.abort_advertising();
    assert_eq!(a.start_advertising(AdvParams::default()), Ok(()));
    a.confirm_advertising();
    assert!(a.is_advertising() && !a.is_scanning());
    assert_eq!(a.stop_advertising(), Ok(()));
    assert!(!a.is_advertising());
}

#[test]
fn scanner_hears_what_is_advertised() {
    let mut a = AdvScanInner::new([1, 2, 3, 4, 5, 6], b"lamp");
    assert!(a.build_adv_pdu().is_none());
    a.start_advertising(AdvParams { discovery_level: 2, ..AdvParams::default() }).unwrap();
    a.confirm_advertising();
    let pdu = a.build_adv_pdu().unwrap();
    let mut s = AdvScanInner::new([9; 6], b"phone");
    assert_eq!(s.process_adv_pdu(&pdu, -40), Err(Errno::EPERM));
    s.start_scanning(ScanParams::default()).unwrap();
    s.confirm_scanning();
    assert!(s.is_scanning());
    assert_eq!(s.process_adv_pdu(&pdu, -40), Ok(()));
    assert_eq!(s.scan_result_count(), 1);
    let r = &s.scan_results[0];
    assert_eq!((r.addr, r.rssi, r.discovery_level), ([1, 2, 3, 4, 5, 6], -40, 2));
    assert_eq!(&r.name[..r.name_len], b"lamp");
    assert_eq!(s.stop_scanning(), Ok(()));
    assert!(!s.is_scanning());
}

#[test]
fn scanner_filters_by_level() {
    let mut s = AdvScanInner::new([9; 6], b"phone");
    s.start_scanning(ScanParams { filter_level: 3, ..ScanParams::default() }).unwrap();
    s.confirm_scanning();
    for (level, count) in [(2, 0), (3, 1), (4, 2)] {
        let mut b = AdvDataBuilder::new();
        b.push_discovery_level(level).unwrap();
        let pdu = AdvPdu::build(BroadcastType::NoAccessNoScan, PacketType::BasicAdv, 0, &b);
        assert_eq!(s.process_adv_pdu(&pdu, 0), Ok(()));
        assert_eq!(s.scan_result_count(), count);
    }
}

#[test]
fn oldest_report_makes_room() {
    let mut s = AdvScanInner::new([9; 6], b"phone");
    s.start_scanning(ScanParams { filter_level: 0, ..ScanParams::default() }).unwrap();
    s.confirm_scanning();
    for i in 0..70i8 {
        let b = AdvDataBuilder::new();
        let pdu = AdvPdu::build(BroadcastType::NoAccessNoScan, PacketType::BasicAdv, 0, &b);
        s.process_adv_pdu(&pdu, -i).unwrap();
    }
    assert_eq!(s.scan_result_count(), 64);
    assert_eq!(s.scan_results[0].rssi, -6);
}

#[test]
fn extended_sets_are_configured_first() {
    let mut a = AdvScanInner::new([1; 6], b"lamp");
    assert_eq!(a.ext_adv_configure(4, ExtAdvParams::default()), Err(Errno::EINVAL));
    assert_eq!(
        a.ext_adv_configure(0, ExtAdvParams { sid: 16, ..ExtAdvParams::default() }),
        Err(Errno::EINVAL)
    );
    assert!(a.ext_adv_enable(0).is_err());
    assert!(a.ext_adv_set_data(0, &[1]).is_err());
    assert_eq!(a.ext_adv_configure(0, ExtAdvParams { sid: 5, ..ExtAdvParams::default() }), Ok(()));
    assert_eq!(a.ext_adv_set_data(0, &[7; 2000]), Ok(()));
    let i = a.ext_adv_info(0).unwrap();
    assert_eq!((i.0, i.1, i.2, i.3), (ExtAdvState::Configured, 5, ExtAdvPhy::Phy1M.code(), 1650));
    assert_eq!(a.ext_adv_enable(0), Ok(()));
    assert_eq!(a.ext_adv_active_count(), 1);
    assert_eq!(a.ext_adv_configure(0, ExtAdvParams::default()), Err(Errno::EBUSY));
    assert_eq!(a.ext_adv_remove(0), Err(Errno::EBUSY));
    assert_eq!(a.ext_adv_disable(0), Ok(()));
    assert_eq!(a.ext_adv_disable(0), Err(Errno::EINVAL));
    assert_eq!(a.ext_adv_remove(0), Ok(()));
    assert!(a.ext_adv_info(0).is_err());
}

#[test]
fn extended_set_stops_after_its_events() {
    let mut a = AdvScanInner::new([1; 6], b"lamp");
    a.ext_adv_configure(1, ExtAdvParams::default()).unwrap();
    a.ext_adv_enable_ex(1, 0, 3).unwrap();
    assert_eq!((a.ext_adv_tick(), a.ext_adv_tick(), a.ext_adv_tick()), (0, 0, 1));
    assert_eq!(a.ext_adv_info(1).unwrap().0, ExtAdvState::Configured);
    assert_eq!(a.ext_adv_info(1).unwrap().7, 3);
    assert_eq!(a.ext_adv_tick(), 0);
}

#[test]
fn extended_packet_is_sent_while_active() {
    let mut a = AdvScanInner::new([1; 6], b"lamp");
    assert!(a.build_ext_adv_pdu(1).is_none());
    a.ext_adv_configure(1, ExtAdvParams::default()).unwrap();
    assert!(a.build_ext_adv_pdu(1).is_none());
    a.ext_adv_enable(1).unwrap();
    let p = a.build_ext_adv_pdu(1).unwrap();
    assert_eq!(p.header.packet_type, PacketType::ExtendedAdv);
    assert!(p.data_len <= 251);
    assert!(a.build_ext_adv_pdu(9).is_none());
}

#[test]
fn bandwidths_come_back() {
    for v in 0..=u8::MAX {
        if let Some(p) = ExtAdvPhy::from_raw(v) {
            assert_eq!(p.code(), v);
        }
    }
}
