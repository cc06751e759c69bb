use sparklink::errno::Errno;
use sparklink::sle_dev::{
    SleDev, SleDevRegistry, SLE_DEV_ADVERTISING, SLE_DEV_REGISTERED, SLE_DEV_SETUP, SLE_DEV_UP,
};
use sparklink::sle_dli::{SleBus, SleControllerInfo};
use sparklink::sle_transport::{
    h4_uart_proto, register_builtin_protos, spi_reg_proto, usb_bulk_proto, virtual_proto,
    SleAttachInfo, SleBindingTable, SleDevBinding, SleProtoId, SleProtoRegistry,
};

#[test]
fn attached_device_takes_defaults_from_its_protocol() {
    let mut a = SleAttachInfo::new(SleProtoId::UsbBulk, [1, 2, 3, 4, 5, 6]);
    let i = a.controller_info(&usb_bulk_proto());
    assert_eq!((i.bus, i.addr), (SleBus::Usb, [1, 2, 3, 4, 5, 6]));
    assert_eq!((i.max_pdu_payload, i.max_connections, i.fw_version), (255, 1, 0));
    a.max_pdu = 64;
    a.max_connections = 5;
    a.fw_version = 7;
    let i = a.controller_info(&usb_bulk_proto());
    assert_eq!((i.max_pdu_payload, i.max_connections, i.fw_version), (64, 5, 7));
}

#[test]
fn builtin_protocols() {
    let mut r = SleProtoRegistry::new();
    register_builtin_protos(&mut r);
    assert_eq!(r.count(), 4);
    assert_eq!(r.get(SleProtoId::H4Uart).unwrap().name, "sparklink-h4");
    assert_eq!(r.get(SleProtoId::UsbBulk).unwrap().bus, SleBus::Usb);
    assert_eq!(r.iter().len(), 4);
    assert_eq!(r.register(h4_uart_proto()), Err(Errno::EEXIST));
    r.unregister(SleProtoId::Spi);
    assert!(r.get(SleProtoId::Spi).is_none());
    assert_eq!(r.count(), 3);
    r.unregister(SleProtoId::Spi);
    assert_eq!(r.count(), 3);
    assert_eq!(r.register(spi_reg_proto()), Ok(()));
    assert_eq!(usb_bulk_proto().init_speed, 0);
    assert_eq!(virtual_proto().bus, SleBus::Virtual);
}

#[test]
fn devices_are_bound() {
    let mut t = SleBindingTable::new();
    let b = SleDevBinding { dev_id: 3, proto_id: SleProtoId::Virtual, opened: false };
    assert_eq!(t.insert(b), Ok(()));
    assert_eq!(t.insert(b), Err(Errno::EEXIST));
    assert_eq!(t.insert(SleDevBinding { dev_id: 500, ..b }), Err(Errno::ENOMEM));
    t.get_mut(3).unwrap().opened = true;
    assert!(t.get(3).unwrap().opened);
    assert!(t.get(4).is_none());
    assert_eq!((t.count(), t.iter().len()), (1, 1));
    assert!(t.remove(3).unwrap().opened);
    assert!(t.remove(3).is_none());
    assert_eq!(t.count(), 0);
}

#[test]
fn devices_are_named_by_number() {
    let info = SleControllerInfo::default();
    assert_eq!(SleDev::new(0, &info).name(), b"sle0");
    assert_eq!(SleDev::new(42, &info).name(), b"sle42");
    assert_eq!(SleDev::new(999, &info).name(), b"sle999");
    assert_eq!(SleDev::new(65535, &info).name(), b"sle65535");
}

#[test]
fn flags_are_set_and_cleared() {
    let mut d = SleDev::new(1, &SleControllerInfo::default());
    assert_eq!(d.flags(), SLE_DEV_SETUP);
    assert!(!d.is_up());
    d.set_flag(SLE_DEV_ADVERTISING);
    assert!(d.test_flag(SLE_DEV_ADVERTISING));
    d.clear_flag(SLE_DEV_ADVERTISING);
    assert!(!d.test_flag(SLE_DEV_ADVERTISING));
    d.setup_complete();
    assert!(d.is_up());
    assert!(d.test_flag(SLE_DEV_REGISTERED) && d.test_flag(SLE_DEV_UP));
    d.begin_unregister();
    assert!(!d.is_up());
}

#[test]
fn registry_gives_the_lowest_free_number() {
    let mut r = SleDevRegistry::new();
    let info = SleControllerInfo { max_connections: 5, fw_version: 9, ..SleControllerInfo::default() };
    assert_eq!((r.register(&info), r.register(&info), r.register(&info)), (Ok(0), Ok(1), Ok(2)));
    assert_eq!(r.unregister(1), Ok(()));
    assert_eq!(r.unregister(1), Err(Errno::ENODEV));
    assert_eq!(r.allocated_mask(), 0b101);
    assert_eq!(r.register(&info), Ok(1));
    assert_eq!((r.count(), r.iter().len()), (3, 3));
    let d = r.get(1).unwrap();
    assert_eq!((d.max_connections(), d.fw_version(), d.features(), d.id()), (5, 9, 0, 1));
    assert!(d.is_up());
    r.get_mut(1).unwrap().clear_flag(SLE_DEV_UP);
    assert!(!r.get(1).unwrap().is_up());
    assert!(r.get(99).is_none());
}

#[test]
fn registry_is_limited() {
    let mut r = SleDevRegistry::new();
    let info = SleControllerInfo::default();
    for i in 0..16 {
        assert_eq!(r.register(&info), Ok(i));
    }
    assert_eq!(r.register(&info), Err(Errno::ENOSPC));
    assert_eq!(r.allocated_mask(), 0xFFFF);
}
