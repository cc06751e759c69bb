use sparklink::errno::Errno;
use sparklink::sle_pdu::{
    crc_error_count, AdvDataBuilder, AdvDataIter, AdvPdu, AdvPduHeader, BroadcastType, CrcErrors,
    PacketType,
};
use sparklink::transport_frame::{
    encode_basic_header, encode_enhanced_header, parse_transport_header, TransportFrameType,
};

#[test]
fn header_comes_back_from_its_bytes() {
    let h = AdvPduHeader {
        link_quality: 0x5A,
        broadcast_type: BroadcastType::AccessibleScannable,
        packet_type: PacketType::ScanResponse,
        data_length: 200,
    };
    assert_eq!(AdvPduHeader::decode(&h.encode()), Some(h));
    assert_eq!(AdvPduHeader::default().encode(), [0, 0, 0, 0]);
}

#[test]
fn unknown_packet_type_is_refused() {
    assert_eq!(AdvPduHeader::decode(&[0, 0x38, 0, 0]), None);
    assert_eq!(AdvPduHeader::decode(&[0, 0x07, 0, 0]), None);
}

#[test]
fn fields_are_type_length_value() {
    let mut b = AdvDataBuilder::new();
    b.push_discovery_level(3).unwrap();
    b.push_complete_name(b"lamp").unwrap();
    b.push_tx_power(-8).unwrap();
    b.push_std_service_list(&[0x1234, 0xABCD]).unwrap();
    b.push_manufacturer_specific(0x0102, &[9]).unwrap();
    let bytes = b.as_bytes().to_vec();
    let mut it = AdvDataIter::new(&bytes);
    let mut fields = Vec::new();
    while let Some(e) = it.next() {
        fields.push((e.typ, e.value.to_vec()));
    }
    assert_eq!(fields.len(), 5);
    assert_eq!(fields[0].1, vec![3]);
    assert_eq!(fields[1].1, b"lamp");
    assert_eq!(fields[2].1, vec![0xF8]);
    assert_eq!(fields[3].1, vec![0x34, 0x12, 0xCD, 0xAB]);
    assert_eq!(fields[4].1, vec![2, 1, 9]);
    assert_eq!(b.len() + b.remaining(), 255);
}

#[test]
fn fields_need_room() {
    let mut b = AdvDataBuilder::new();
    assert_eq!(b.push_tlv(1, &[0; 254]), Err(Errno::ENOMEM));
    assert_eq!(b.push_tlv(1, &[0; 253]), Ok(()));
    assert_eq!(b.remaining(), 0);
    assert_eq!(b.push_tlv(1, &[]), Err(Errno::ENOMEM));
    assert_eq!(b.push_raw(&[1]), Err(Errno::ENOMEM));
    assert_eq!(b.push_raw(&[]), Ok(()));
}

#[test]
fn cut_fields_end_the_reading() {
    let mut it = AdvDataIter::new(&[1, 5, 2]);
    assert!(it.next().is_none());
}

#[test]
fn packet_comes_back_from_its_bytes() {
    let mut b = AdvDataBuilder::new();
    b.push_short_name(b"x").unwrap();
    let p = AdvPdu::build(BroadcastType::AccessibleNoScan, PacketType::BasicAdv, 7, &b);
    let mut out = [0u8; 64];
    let n = p.serialize(&mut out).unwrap();
    assert_eq!(n, 6 + b.len());
    let mut errors = CrcErrors::new();
    let q = AdvPdu::deserialize(&out[..n], &mut errors).unwrap();
    assert_eq!(q.header, p.header);
    assert_eq!(&q.data[..q.data_len], b.as_bytes());
    assert_eq!(crc_error_count(&errors), 0);
    assert_eq!(q.iter_adv_data().next().unwrap().value, b"x");
    assert_eq!(p.serialize(&mut out[..n - 1]), Err(Errno::ENOMEM));
}

#[test]
fn damaged_packet_is_counted() {
    let mut b = AdvDataBuilder::new();
    b.push_short_name(b"x").unwrap();
    let p = AdvPdu::build(BroadcastType::AccessibleNoScan, PacketType::BasicAdv, 7, &b);
    let mut out = [0u8; 64];
    let n = p.serialize(&mut out).unwrap();
    out[5] ^= 1;
    let mut errors = CrcErrors::new();
    assert!(AdvPdu::deserialize(&out[..n], &mut errors).is_none());
    assert_eq!(crc_error_count(&errors), 1);
    assert!(AdvPdu::deserialize(&out[..3], &mut errors).is_none());
}

#[test]
fn basic_frame_header() {
    let mut buf = [0xEE; 8];
    assert_eq!(encode_basic_header(&mut buf, 0x1F, 2, 0x0102, true), 5);
    assert_eq!(buf, [0x1F, 0x04, 2, 1, 2, 0xEE, 0xEE, 0xEE]);
    let h = parse_transport_header(&buf).unwrap();
    assert_eq!((h.tcid, h.frame_type, h.length, h.pi, h.checksum), (0x1F, 0, 0x0102, 2, true));
    assert!(parse_transport_header(&buf[..4]).is_none());
}

#[test]
fn enhanced_frame_header() {
    let mut buf = [0; 8];
    let t = TransportFrameType::Ack.code();
    assert_eq!(encode_enhanced_header(&mut buf, 0x0A, t, 1, 0x7FFF, 9, true), 7);
    let h = parse_transport_header(&buf).unwrap();
    assert_eq!((h.frame_type, h.poll, h.checksum, h.outgoing), (5, true, true, false));
    assert_eq!((h.tx_seq, h.req_seq, h.length), (0x3FFF, 0x3FFF, 9));
    assert!(parse_transport_header(&buf[..6]).is_none());
    encode_enhanced_header(&mut buf, 0x0A, 2, 1, 5, 9, false);
    assert_eq!(parse_transport_header(&buf).map(|h| (h.tx_seq, h.req_seq)), Some((5, 0)));
}

#[test]
fn length_in_the_header_does_not_bound_the_payload() {
    let mut b = AdvDataBuilder::new();
    b.push_discovery_level(2).unwrap();
    let mut p = AdvPdu::build(BroadcastType::AccessibleNoScan, PacketType::BasicAdv, 7, &b);
    let len = p.data_len;
    p.header.data_length = 0;
    let mut out = [0u8; 32];
    assert_eq!(p.serialize(&mut out), Ok(6 + len));
    assert_eq!(&out[4..4 + len], b.as_bytes());
    let e = p.iter_adv_data().next().unwrap();
    assert_eq!((e.typ, e.value), (0x01, &[2u8][..]));
}
