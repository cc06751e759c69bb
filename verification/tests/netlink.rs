use sparklink::sle_netlink::{
    attr_get_u16, attr_get_u32, attr_get_u64, attr_get_u8, genl_family_name, mcgrp_events,
    nla_align, parse_attrs, NlAttr, NlAttrBuilder, NlCmd,
};

#[test]
fn names_of_the_family() {
    assert_eq!(&genl_family_name(), b"sparklink\0");
    assert_eq!(&mcgrp_events(), b"events\0");
}

#[test]
fn codes_run_up_to_the_count() {
    assert_eq!(NlCmd::Unspec.code(), 0);
    assert_eq!(NlCmd::GetDliInfo.code() as usize, NlCmd::COUNT - 1);
    assert_eq!(NlAttr::DliMaxConn.code() as usize, NlAttr::COUNT - 1);
    assert_eq!(NlAttr::Rssi.code(), 19);
}

#[test]
fn lengths_are_rounded_up_to_four() {
    assert_eq!([0, 1, 4, 5, 7, 8].map(nla_align), [0, 4, 4, 8, 8, 8]);
}

#[test]
fn byte_attribute_is_padded() {
    let mut b = NlAttrBuilder::new();
    assert_eq!(b.put_u8(NlAttr::GtRole, 3), Ok(()));
    assert_eq!(b.len(), 8);
    assert_eq!(b.finish(), vec![5, 0, 10, 0, 3, 0, 0, 0]);
}

#[test]
fn numbers_go_lowest_byte_first() {
    let mut b = NlAttrBuilder::new();
    b.put_u16(NlAttr::Handle, 0x1234).unwrap();
    b.put_u32(NlAttr::TxBytes, 0x0102_0304).unwrap();
    b.put_u64(NlAttr::DliFeatures, 0x0102_0304_0506_0708).unwrap();
    b.put_s8(NlAttr::Rssi, -40).unwrap();
    assert_eq!(
        b.finish(),
        vec![
            6, 0, 8, 0, 0x34, 0x12, 0, 0, //
            8, 0, 13, 0, 4, 3, 2, 1, //
            12, 0, 46, 0, 8, 7, 6, 5, 4, 3, 2, 1, //
            5, 0, 19, 0, 0xD8, 0, 0, 0,
        ]
    );
}

#[test]
fn string_ends_at_its_first_zero() {
    let mut b = NlAttrBuilder::new();
    b.put_string(NlAttr::DevName, b"sle0\0junk").unwrap();
    assert_eq!(b.finish(), vec![9, 0, 3, 0, b's', b'l', b'e', b'0', 0, 0, 0, 0]);
}

#[test]
fn attributes_are_read_back() {
    let mut b = NlAttrBuilder::new();
    b.put_u8(NlAttr::DevState, 2).unwrap();
    b.put_u16(NlAttr::Mtu, 247).unwrap();
    b.put_u32(NlAttr::RxBytes, 70_000).unwrap();
    b.put_u64(NlAttr::DliFeatures, 1 << 40).unwrap();
    b.put_binary(NlAttr::Data, &[]).unwrap();
    let bytes = b.finish();
    let mut it = parse_attrs(&bytes);
    let a = it.next().unwrap();
    assert_eq!((a.attr_type, attr_get_u8(&a), attr_get_u16(&a)), (2, Some(2), None));
    let a = it.next().unwrap();
    assert_eq!((a.attr_type, attr_get_u16(&a), attr_get_u32(&a)), (32, Some(247), None));
    let a = it.next().unwrap();
    assert_eq!((a.attr_type, attr_get_u32(&a), attr_get_u64(&a)), (14, Some(70_000), None));
    let a = it.next().unwrap();
    assert_eq!((a.attr_type, attr_get_u64(&a)), (46, Some(1 << 40)));
    let a = it.next().unwrap();
    assert_eq!((a.attr_type, a.payload.len(), attr_get_u8(&a)), (21, 0, None));
    assert!(it.next().is_none());
    assert!(it.next().is_none());
}

#[test]
fn broken_attributes_end_the_reading() {
    assert!(parse_attrs(&[]).next().is_none());
    assert!(parse_attrs(&[4, 0, 1]).next().is_none());
    assert!(parse_attrs(&[3, 0, 1, 0]).next().is_none());
    assert!(parse_attrs(&[9, 0, 1, 0, 1, 2, 3, 4]).next().is_none());
}

#[test]
fn last_attribute_may_lack_its_padding() {
    let buf = [5, 0, 1, 0, 0x77];
    let mut it = parse_attrs(&buf);
    assert_eq!(it.next().map(|a| a.payload.to_vec()), Some(vec![0x77]));
    assert!(it.next().is_none());
}
