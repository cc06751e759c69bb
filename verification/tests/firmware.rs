use sparklink::errno::Errno;
use sparklink::sle_fw::{
    fw_base_path, fw_uart_default, fw_usb_default, load_usb_firmware, load_usb_firmware_versioned,
    usb_file_name, FwError, FwStep,
};

fn name_of(s: &FwStep) -> (&[u8], bool) {
    match s {
        FwStep::Request { name, fallback } => (name, *fallback),
        _ => panic!("no request"),
    }
}

#[test]
fn file_names() {
    assert_eq!(fw_base_path(), b"sparklink/");
    assert_eq!(fw_usb_default(), b"sparklink/sle_usb_v1.bin\0");
    assert_eq!(fw_uart_default(), b"sparklink/sle_uart_v1.bin\0");
    assert_eq!(usb_file_name(42), b"sparklink/sle_usb_v42.bin\0");
}

#[test]
fn known_version_is_asked_for_first() {
    let s = load_usb_firmware_versioned(3);
    assert_eq!(name_of(&s), (&b"sparklink/sle_usb_v3.bin\0"[..], true));
    let s = s.found(Err(-2));
    assert_eq!(name_of(&s), (&b"sparklink/sle_usb_v1.bin\0"[..], false));
    let s = s.found(Err(-3));
    assert!(matches!(s, FwStep::Failed(FwError::Reported(-3))));
}

#[test]
fn unknown_version_goes_to_the_usual_file() {
    assert_eq!(name_of(&load_usb_firmware_versioned(0)), (&b"sparklink/sle_usb_v1.bin\0"[..], false));
    assert_eq!(name_of(&load_usb_firmware(b"x.bin\0")), (&b"x.bin\0"[..], false));
}

#[test]
fn empty_file_is_refused() {
    let s = load_usb_firmware_versioned(3).found(Ok(0));
    assert!(matches!(s, FwStep::Failed(FwError::Refused(Errno::EINVAL))));
}

#[test]
fn load_goes_through() {
    let s = load_usb_firmware(b"x.bin\0").found(Ok(1000));
    assert!(matches!(s, FwStep::Download { size: 1000 }));
    match s.taken(0) {
        FwStep::Done(r) => assert_eq!((r.size, r.success), (1000, true)),
        _ => panic!("not done"),
    }
}

#[test]
fn controller_may_refuse() {
    let s = load_usb_firmware(b"x.bin\0").found(Ok(1)).taken(-5);
    assert!(matches!(s, FwStep::Failed(FwError::Reported(-5))));
}
