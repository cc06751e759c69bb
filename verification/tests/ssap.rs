use sparklink::errno::Errno;
use sparklink::sle_ssap::{DescriptorType, OpIndicator, SsapInner};
use sparklink::ssap_pdu::{EntryCategory, EntryInfo, SsapError, SsapMsgCode, SsapPdu, SsapUuid};
use sparklink::ssap_session::{RemoteServiceDb, SsapSession};

fn wire(p: &SsapPdu) -> Vec<u8> {
    let mut buf = [0u8; 600];
    let n = p.encode(&mut buf).unwrap();
    buf[..n].to_vec()
}

fn database() -> (SsapInner, u16) {
    let mut db = SsapInner::new();
    db.register_service(SsapUuid::Uuid16(0x1234), true).unwrap();
    let ops = OpIndicator::from_raw(
        OpIndicator::READ
            | OpIndicator::WRITE_WITH_RSP
            | OpIndicator::NOTIFY
            | OpIndicator::INDICATE
            | OpIndicator::CLIENT_CFG_WR,
    );
    let h = db.add_property(SsapUuid::Uuid16(0x2A00), ops, &[1, 2]).unwrap();
    (db, h)
}

#[test]
fn messages_as_bytes() {
    assert_eq!(wire(&SsapPdu::ExchangeInfoReq { mtu: 0x0102 }), vec![0x02, 2, 1]);
    assert_eq!(
        wire(&SsapPdu::ErrorRsp { req_opcode: 8, handle: 0x0010, error: SsapError::InvalidHandle }),
        vec![0x01, 8, 0x10, 0, 1]
    );
    assert_eq!(wire(&SsapPdu::ReadReq { handle: 0x1234 }), vec![0x08, 0x34, 0x12]);
    assert_eq!(wire(&SsapPdu::ReadRsp { data: vec![7, 8] })[0], 0x09);
}

#[test]
fn messages_come_back_from_their_bytes() {
    let e = EntryInfo {
        handle: 0x10,
        category: EntryCategory::PrimaryService,
        uuid: SsapUuid::Uuid16(0x1234),
    };
    let c = EntryInfo {
        handle: 0x11,
        category: EntryCategory::CustomProperty,
        uuid: SsapUuid::Uuid128([5; 16]),
    };
    for p in [
        SsapPdu::ErrorRsp { req_opcode: 8, handle: 3, error: SsapError::AuthRequired },
        SsapPdu::ExchangeInfoReq { mtu: 23 },
        SsapPdu::ExchangeInfoRsp { mtu: 512 },
        SsapPdu::FindStructureReq { start_handle: 1, end_handle: 0xFFFF },
        SsapPdu::FindStructureRsp { entries: vec![e, c] },
        SsapPdu::ReadReq { handle: 9 },
        SsapPdu::ReadRsp { data: vec![1, 2, 3] },
        SsapPdu::WriteCmd { handle: 9, data: vec![] },
        SsapPdu::WriteReq { handle: 9, data: vec![4] },
        SsapPdu::WriteRsp { handle: 9 },
        SsapPdu::ValueNtf { handle: 9, data: vec![5; 20] },
        SsapPdu::ValueInd { handle: 9, data: vec![6] },
        SsapPdu::ValueAck { handle: 9 },
    ] {
        let b = wire(&p);
        let q = SsapPdu::decode(&b).unwrap();
        assert_eq!(wire(&q), b);
    }
}

#[test]
fn message_needs_room() {
    let p = SsapPdu::ReadReq { handle: 1 };
    assert_eq!(p.encode(&mut [0; 2]), Err(Errno::ENOMEM));
    let p = SsapPdu::ErrorRsp { req_opcode: 1, handle: 1, error: SsapError::Success };
    assert_eq!(p.encode(&mut [0; 4]), Err(Errno::ENOMEM));
    assert_eq!(p.encode(&mut [0; 5]), Ok(5));
}

#[test]
fn broken_messages_are_refused() {
    assert!(matches!(SsapPdu::decode(&[]), Err(Errno::EINVAL)));
    assert!(matches!(SsapPdu::decode(&[0x08]), Err(Errno::EINVAL)));
    assert!(matches!(SsapPdu::decode(&[0xEE, 1, 2]), Err(Errno::EINVAL)));
}

#[test]
fn codes_come_back() {
    for v in 0..=u8::MAX {
        if let Some(c) = EntryCategory::from_raw(v) {
            assert_eq!(c.code(), v);
        }
    }
    assert_eq!(SsapMsgCode::CallMethodRsp.code(), 0x14);
    assert_eq!(SsapError::from_raw(3), SsapError::WriteNotPermitted);
}

#[test]
fn uuids() {
    let a = SsapUuid::Uuid16(5);
    let b = SsapUuid::Uuid128([1; 16]);
    assert!(!a.is_custom() && b.is_custom());
    assert_eq!((a.as_u16(), b.as_u16()), (Some(5), None));
    assert!(a.same(&SsapUuid::Uuid16(5)) && !a.same(&b));
}

#[test]
fn handles_start_at_sixteen() {
    let mut db = SsapInner::new();
    assert_eq!(db.register_service(SsapUuid::Uuid16(1), true), Ok(0x10));
    assert_eq!(db.add_property(SsapUuid::Uuid16(2), OpIndicator::from_raw(1), &[]), Ok(0x11));
    assert_eq!(db.add_method(SsapUuid::Uuid16(3)), Ok(0x12));
    assert_eq!(db.add_event(SsapUuid::Uuid16(4)), Ok(0x13));
    assert_eq!(db.service_count(), 1);
    assert_eq!(db.property_count(), 1);
    assert_eq!(db.total_entries(), 4);
}

#[test]
fn first_value_has_a_limit() {
    let mut db = SsapInner::new();
    db.register_service(SsapUuid::Uuid16(1), true).unwrap();
    let long = [0u8; 513];
    let ops = OpIndicator::from_raw(OpIndicator::READ);
    assert_eq!(db.add_property(SsapUuid::Uuid16(2), ops, &long), Err(Errno::EINVAL));
    assert_eq!(db.add_property(SsapUuid::Uuid16(2), ops, &long[..512]), Ok(0x11));
    assert_eq!(db.write_property(0x11, &long), Err(Errno::EINVAL));
}

#[test]
fn entries_need_a_service() {
    let mut db = SsapInner::new();
    assert_eq!(db.add_property(SsapUuid::Uuid16(2), OpIndicator::empty(), &[]), Err(Errno::ENODEV));
    assert_eq!(db.add_method(SsapUuid::Uuid16(2)), Err(Errno::ENODEV));
    assert_eq!(db.add_event(SsapUuid::Uuid16(2)), Err(Errno::ENODEV));
    assert_eq!(db.add_descriptor(DescriptorType::PropertyFormat, &[]), Err(Errno::ENODEV));
}

#[test]
fn property_is_read_after_it_was_written() {
    let (mut db, h) = database();
    assert_eq!(db.read_property(h), Ok(vec![1, 2]));
    assert_eq!(db.write_property(h, &[9]), Ok(()));
    assert_eq!(db.read_property(h), Ok(vec![9]));
    assert_eq!(db.read_by_uuid(&SsapUuid::Uuid16(0x2A00)), Ok((h, vec![9])));
    assert_eq!(db.read_property(0x77), Err(Errno::ENOENT));
    assert_eq!(db.write_property(0x77, &[]), Err(Errno::ENOENT));
    assert_eq!(db.write_property(h, &[0; 513]), Err(Errno::EINVAL));
    assert_eq!(db.write_property(h, &[0; 512]), Ok(()));
}

#[test]
fn property_allows_what_its_flags_say() {
    let mut db = SsapInner::new();
    db.register_service(SsapUuid::Uuid16(1), true).unwrap();
    let ro = db.add_property(SsapUuid::Uuid16(2), OpIndicator::from_raw(OpIndicator::READ), &[1]).unwrap();
    let wo = db
        .add_property(SsapUuid::Uuid16(3), OpIndicator::from_raw(OpIndicator::WRITE_NO_RSP), &[1])
        .unwrap();
    assert_eq!(db.write_property(ro, &[2]), Err(Errno::EACCES));
    assert_eq!(db.read_property(wo), Err(Errno::EACCES));
    assert_eq!(db.write_property(wo, &[2]), Ok(()));
    assert_eq!(db.set_client_config(ro, 1), Err(Errno::EACCES));
}

#[test]
fn client_is_told_of_a_change_it_asked_for() {
    let (mut db, h) = database();
    db.write_property(h, &[1]).unwrap();
    assert_eq!(db.notification_count(), 0);
    db.set_client_config(h, 3).unwrap();
    db.write_property(h, &[2]).unwrap();
    assert_eq!(db.notification_count(), 2);
    let a = db.dequeue_notification().unwrap();
    let b = db.dequeue_notification().unwrap();
    assert_eq!((a.handle, a.indication, a.data), (h, false, vec![2]));
    assert_eq!((b.indication, b.data), (true, vec![2]));
    assert!(db.dequeue_notification().is_none());
    assert_eq!(db.notify(h), Ok(()));
    assert_eq!(db.indicate(0x99), Err(Errno::ENOENT));
    assert_eq!(db.notification_count(), 1);
}

#[test]
fn services_are_found_and_removed() {
    let mut db = SsapInner::new();
    let a = db.register_service(SsapUuid::Uuid16(1), true).unwrap();
    let b = db.register_service(SsapUuid::Uuid16(2), false).unwrap();
    let p = db.add_property(SsapUuid::Uuid128([3; 16]), OpIndicator::empty(), &[]).unwrap();
    assert_eq!(db.find_primary_services().len(), 1);
    assert!(db.find_service_by_uuid(&SsapUuid::Uuid16(2)).is_some());
    let all = db.find_in_range(0, 0xFFFF);
    assert_eq!(all.iter().map(|e| e.handle).collect::<Vec<_>>(), vec![a, b, p]);
    assert_eq!(all[2].category, EntryCategory::Property);
    assert_eq!(db.find_in_range(b, b).len(), 1);
    assert_eq!(db.remove_service(a), Ok(()));
    assert_eq!(db.remove_service(a), Err(Errno::ENOENT));
    assert_eq!(db.service_count(), 1);
}

#[test]
fn methods_answer_their_input() {
    let mut db = SsapInner::new();
    db.register_service(SsapUuid::Uuid16(1), true).unwrap();
    let m = db.add_method(SsapUuid::Uuid16(2)).unwrap();
    assert_eq!(db.call_method(m, &[1, 2]), Ok(vec![1, 2]));
    assert_eq!(db.call_method(m + 1, &[]), Err(Errno::ENOENT));
}

#[test]
fn device_information_service() {
    let mut db = SsapInner::new();
    assert_eq!(db.register_device_info_service(), Ok(()));
    assert_eq!(db.read_by_uuid(&SsapUuid::Uuid16(0x1001)).unwrap().1, b"SparkLink Virtual Device");
    assert_eq!(db.read_by_uuid(&SsapUuid::Uuid16(0x1002)).unwrap().1, b"0.3.0");
    assert_eq!(db.total_entries(), 6);
}

#[test]
fn peer_reads_and_writes_over_a_session() {
    let (mut db, h) = database();
    let mut s = SsapSession::new(7);
    let mut out = [0u8; 256];
    let n = s.process_incoming(&mut db, &wire(&SsapPdu::ReadReq { handle: h }), &mut out).unwrap();
    assert!(matches!(SsapPdu::decode(&out[..n]), Ok(SsapPdu::ReadRsp { data }) if data == [1, 2]));
    let w = wire(&SsapPdu::WriteReq { handle: h, data: vec![5] });
    let n = s.process_incoming(&mut db, &w, &mut out).unwrap();
    assert!(matches!(SsapPdu::decode(&out[..n]), Ok(SsapPdu::WriteRsp { handle }) if handle == h));
    let n = s.process_incoming(&mut db, &wire(&SsapPdu::ReadReq { handle: h }), &mut out).unwrap();
    assert!(matches!(SsapPdu::decode(&out[..n]), Ok(SsapPdu::ReadRsp { data }) if data == [5]));
    let n = s.process_incoming(&mut db, &wire(&SsapPdu::ReadReq { handle: 1 }), &mut out).unwrap();
    assert!(matches!(
        SsapPdu::decode(&out[..n]),
        Ok(SsapPdu::ErrorRsp { req_opcode: 8, handle: 1, error: SsapError::PropertyNotFound })
    ));
    let c = wire(&SsapPdu::WriteCmd { handle: h, data: vec![6] });
    assert_eq!(s.process_incoming(&mut db, &c, &mut out), Ok(0));
    assert_eq!(db.read_property(h), Ok(vec![6]));
}

#[test]
fn both_sides_agree_on_the_smaller_mtu() {
    let (mut db, _) = database();
    let mut client = SsapSession::new(1);
    let mut server = SsapSession::new(2);
    client.mtu = 100;
    let mut a = [0u8; 64];
    let mut b = [0u8; 64];
    let n = client.build_exchange_info_req(100, &mut a).unwrap();
    let m = server.process_incoming(&mut db, &a[..n], &mut b).unwrap();
    assert_eq!(client.process_incoming(&mut db, &b[..m], &mut a), Ok(0));
    assert_eq!((client.mtu, server.mtu), (100, 100));
    assert!(client.info_exchanged && server.info_exchanged);
}

#[test]
fn unexpected_messages_are_answered_by_an_error() {
    let (mut db, _) = database();
    let mut s = SsapSession::new(1);
    let mut out = [0u8; 64];
    let n = s
        .process_incoming(&mut db, &wire(&SsapPdu::ValueNtf { handle: 1, data: vec![] }), &mut out)
        .unwrap();
    assert!(matches!(
        SsapPdu::decode(&out[..n]),
        Ok(SsapPdu::ErrorRsp { req_opcode: 0x0F, error: SsapError::RequestNotSupported, .. })
    ));
    assert_eq!(s.process_incoming(&mut db, &[0xEE], &mut out), Err(Errno::EINVAL));
    assert_eq!(
        s.process_incoming(&mut db, &wire(&SsapPdu::ExchangeInfoReq { mtu: 1 }), &mut []),
        Err(Errno::ENOMEM)
    );
}

#[test]
fn what_a_peer_offers_is_remembered() {
    let mut db = RemoteServiceDb::new();
    let e = EntryInfo { handle: 1, category: EntryCategory::PrimaryService, uuid: SsapUuid::Uuid16(9) };
    db.add_entry(e).unwrap();
    assert_eq!(db.entry_count(), 1);
    assert_eq!(db.primary_services().len(), 1);
    assert!(db.find_service_by_uuid(&SsapUuid::Uuid16(9)).is_some());
    assert!(db.find_service_by_uuid(&SsapUuid::Uuid16(8)).is_none());
    db.clear();
    assert_eq!(db.entry_count(), 0);
}
