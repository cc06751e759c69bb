use sparklink::sle_serdev::{
    dt_compatible, route_events, serdev_probe, SerdevController, SerdevParserState, SerdevReply,
    SerdevStage, SleSerdevData, DEFAULT_INIT_SPEED, DEFAULT_OPER_SPEED,
};
use sparklink::sle_dli::{SleBus, SleEvent};
use sparklink::sle_transport::SleProtoId;
use sparklink::sle_uart::{encode_command, encode_event};
use sparklink::usb_probe::{
    call_outcome, is_attached, settle_address, transfer_outcome, UsbDevices, UsbProbe, UsbReply,
    NOT_ATTACHED,
};

#[test]
fn numbers_below_zero_are_failures() {
    assert_eq!(call_outcome(0), Ok(()));
    assert_eq!(call_outcome(-5), Err(-5));
    assert_eq!(transfer_outcome(12), Ok(12));
    assert_eq!(transfer_outcome(-110), Err(-110));
}

#[test]
fn own_address_is_taken_where_it_is_known() {
    let own = [1, 2, 3, 4, 5, 6];
    let other = [9; 6];
    assert_eq!(settle_address(0, own, other), own);
    assert_eq!(settle_address(-1, own, other), other);
    assert_eq!(settle_address(0, [0; 6], other), other);
}

#[test]
fn usb_controller_is_brought_up() {
    let mut devices = UsbDevices::new();
    let p = devices.probe();
    assert_eq!(devices.usb_device_count(), 1);
    let info = p.attach_info().unwrap();
    assert_eq!(info.proto_id, SleProtoId::UsbBulk);
    assert_eq!(info.addr, [0x5E, 0, 0, 0, 1, 1]);
    let p = p.next(UsbReply::Attached(Ok(4)));
    assert!(matches!(p, UsbProbe::Register { dev_id: 4, .. }));
    assert!(p.attach_info().is_none());
    let p = p.next(UsbReply::Registered(0)).next(UsbReply::Started(0));
    assert!(matches!(p, UsbProbe::ReadMac { dev_id: 4, .. }));
    let p = p.next(UsbReply::Mac(0, [6; 6])).next(UsbReply::Version(0x10));
    assert!(matches!(p, UsbProbe::LoadFirmware { fw_version: 0x10, addr: [6, 6, 6, 6, 6, 6], .. }));
    let p = p.next(UsbReply::FirmwareTried);
    assert!(matches!(p, UsbProbe::Switch { fw_version: 0x10, addr: [6, 6, 6, 6, 6, 6], .. }));
    assert!(matches!(p.next(UsbReply::Switched), UsbProbe::Done { dev_id: 4 }));
}

#[test]
fn usb_controller_without_a_number_is_left_alone() {
    let mut devices = UsbDevices::new();
    for reply in [Err(-12), Ok(NOT_ATTACHED)] {
        let p = devices.probe().next(UsbReply::Attached(reply));
        assert!(matches!(p, UsbProbe::Done { dev_id: NOT_ATTACHED }));
    }
    assert_eq!(devices.usb_device_count(), 2);
    assert!(!devices.disconnect(NOT_ATTACHED));
    assert!(devices.disconnect(3));
    assert_eq!(devices.usb_device_count(), 0);
    assert!(!is_attached(NOT_ATTACHED));
    assert!(is_attached(0));
}

#[test]
fn usb_controller_that_fails_keeps_the_placeholder() {
    let mut devices = UsbDevices::new();
    let at = devices.probe().next(UsbReply::Attached(Ok(1)));
    let p = at.next(UsbReply::Registered(-1));
    assert!(matches!(p, UsbProbe::Switch { dev_id: 1, addr: [0x5E, 0, 0, 0, 1, 1], fw_version: 0 }));
    let p = at.next(UsbReply::Registered(0)).next(UsbReply::Started(-110));
    assert!(matches!(p, UsbProbe::Switch { dev_id: 1, addr: [0x5E, 0, 0, 0, 1, 1], fw_version: 0 }));
}

#[test]
fn reply_to_another_step_changes_nothing() {
    let mut devices = UsbDevices::new();
    let p = devices.probe().next(UsbReply::Version(5));
    assert!(matches!(p, UsbProbe::Attach { .. }));
}

#[test]
fn serial_controller_is_brought_up() {
    let p = serdev_probe(true, [1; 6], DEFAULT_INIT_SPEED, DEFAULT_OPER_SPEED);
    let info = p.attach_info();
    assert_eq!((info.proto_id, info.addr, info.fw_version), (SleProtoId::H4Uart, [1; 6], 0));
    let p = p.next(SerdevReply::Attached(Ok(2))).next(SerdevReply::Registered(0));
    assert!(matches!(p.stage, SerdevStage::Init { dev_id: 2 }));
    let p = p.next(SerdevReply::Started).next(SerdevReply::Mac(0, [7; 6]));
    let p = p.next(SerdevReply::Version(9));
    assert!(matches!(p.stage, SerdevStage::Switch { dev_id: 2, fw_version: 9 }));
    assert_eq!(p.addr, [7; 6]);
    assert!(p.result().is_none());
    let p = p.next(SerdevReply::Switched);
    let data = SleSerdevData::new(2, 115_200, 1_000_000);
    assert_eq!(p.result(), Some(Ok(data)));
    assert_eq!(data.dev_id(), 2);
}

#[test]
fn device_without_a_line_only_gets_a_number() {
    let p = serdev_probe(false, [1; 6], 1, 2).next(SerdevReply::Attached(Ok(3)));
    assert_eq!(p.result(), Some(Ok(SleSerdevData::new(3, 1, 2))));
    let p = serdev_probe(false, [1; 6], 1, 2).next(SerdevReply::Attached(Err(-28)));
    assert_eq!(p.result(), Some(Err(-28)));
}

#[test]
fn number_is_given_back_where_the_line_cannot_be_entered() {
    let p = serdev_probe(true, [1; 6], 1, 2).next(SerdevReply::Attached(Ok(3)));
    let p = p.next(SerdevReply::Registered(-16));
    assert!(matches!(p.stage, SerdevStage::Detach { dev_id: 3, code: -16 }));
    assert_eq!(p.next(SerdevReply::Detached).result(), Some(Err(-16)));
}

#[test]
fn serial_controller_describes_itself() {
    assert_eq!(&dt_compatible(), b"sparklink,sle-h4");
    let c = SerdevController::new([3; 6], 5);
    assert_eq!(c.dev_id(), 5);
    let i = c.info(0x0002_0001);
    assert_eq!(&i.name[..17], b"sparklink-serdev\0");
    assert_eq!((i.bus, i.addr, i.fw_version), (SleBus::Uart, [3; 6], 0x0002_0001));
    assert_eq!((i.max_pdu_payload, i.max_connections, i.max_mtu, i.max_mps), (255, 4, 512, 255));
}

#[test]
fn received_events_are_told_and_wait() {
    let mut s = SerdevParserState::new();
    let mut buf = [0u8; 64];
    let n = encode_event(0x0002, &[0x08, 0x04, 0x00], &mut buf);
    let m = encode_command(0x0408, &[], &mut buf[n..]);
    assert!(s.feed_rx(&buf[..n]).is_none());
    assert!(s.poll_event().is_none());
    s.set_dev_id(6);
    let (id, told) = s.feed_rx(&buf[..n + m]).unwrap();
    assert_eq!(id, 6);
    assert_eq!(told.len(), 1);
    assert_eq!((told[0].event_code, &told[0].params[..]), (0x0002, &[0x08, 0x04, 0x00][..]));
    assert!(matches!(s.poll_event(), Some(SleEvent::CommandComplete { .. })));
    assert!(s.poll_event().is_none());
}

#[test]
fn event_may_come_in_pieces() {
    let mut s = SerdevParserState::new();
    s.set_dev_id(1);
    let mut buf = [0u8; 64];
    let n = encode_event(0x0002, &[0x08, 0x04, 0x00], &mut buf);
    for i in 0..n - 1 {
        assert_eq!(s.feed_rx(&buf[i..i + 1]).map(|t| t.1.len()), Some(0));
    }
    assert_eq!(s.feed_rx(&buf[n - 1..n]).map(|t| t.1.len()), Some(1));
}

#[test]
fn event_that_the_stack_does_not_know_is_only_told() {
    let mut s = SerdevParserState::new();
    s.set_dev_id(1);
    let mut buf = [0u8; 64];
    let n = encode_event(0xFFFE, &[1], &mut buf);
    assert_eq!(s.feed_rx(&buf[..n]).map(|t| t.1.len()), Some(1));
    assert!(s.poll_event().is_none());
}

#[test]
fn receive_path_is_made_once() {
    let mut state: Option<SerdevParserState> = None;
    route_events(&mut state, 1);
    let mut buf = [0u8; 64];
    let n = encode_event(0x0002, &[0x08, 0x04, 0x00], &mut buf);
    state.as_mut().unwrap().feed_rx(&buf[..n]);
    route_events(&mut state, 2);
    let s = state.as_mut().unwrap();
    assert!(s.poll_event().is_some());
    assert_eq!(s.feed_rx(&[]).map(|t| t.0), Some(2));
}
