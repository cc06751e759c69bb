use sparklink::errno::Errno;
use sparklink::sle_configfs::{int_to_page, SparkLinkConfig};
use sparklink::text::{parse_number, to_digits, trim};

#[test]
fn numbers_are_written_in_decimal() {
    assert_eq!(to_digits(0), b"0");
    assert_eq!(to_digits(10), b"10");
    assert_eq!(to_digits(u32::MAX), b"4294967295");
    assert_eq!(int_to_page(0), b"0\n");
    assert_eq!(int_to_page(10240), b"10240\n");
}

#[test]
fn numbers_are_read_like_the_standard_library_does() {
    for s in [
        "", "+", "-", "-0", "0", "00", "007", "+5", "++5", "5 ", "255", "256", "65535", "65536",
        "99999999999999999999", "0x10", "1_000", "12a",
    ] {
        assert_eq!(parse_number(s.as_bytes(), u16::MAX), s.parse::<u16>().ok(), "{:?}", s);
        assert_eq!(
            parse_number(s.as_bytes(), 255),
            s.parse::<u8>().ok().map(u16::from),
            "{:?}",
            s
        );
    }
}

#[test]
fn blanks_are_cut_like_the_standard_library_does() {
    for s in [
        "", " ", "a", " a ", "\t\n\u{b}\u{c}\r a b \r\n", "\u{85}x\u{a0}", "\u{1680}x\u{2000}",
        "\u{2009}\u{200a}x\u{2028}\u{2029}", "\u{202f}x\u{205f}", "\u{3000}x\u{3000}",
        "\u{200b}x\u{200b}", "\u{180e}x", "é x é", "x\u{feff}",
    ] {
        assert_eq!(trim(s.as_bytes()), s.trim().as_bytes(), "{:?}", s);
    }
}

#[test]
fn settings_at_the_start() {
    let c = SparkLinkConfig::new();
    assert_eq!(c.max_connections(), 8);
    assert_eq!(c.adv_interval_ms(), 100);
    assert_eq!(c.scan_window_ms(), 200);
    assert_eq!(c.controller_type(), 0);
    assert_eq!(c.show_version(), b"0.3.0\n");
    assert_eq!(c.show_max_connections(), b"8\n");
    assert_eq!(c.show_adv_interval_ms(), b"100\n");
    assert_eq!(c.show_scan_window_ms(), b"200\n");
    assert_eq!(c.show_power_mode(), b"active\n");
    assert_eq!(c.show_controller_type(), b"virtual\n");
}

#[test]
fn numbers_in_range_are_taken() {
    let mut c = SparkLinkConfig::new();
    assert_eq!(c.store_max_connections(b" 3\n"), Ok(()));
    assert_eq!(c.store_adv_interval_ms(b"20"), Ok(()));
    assert_eq!(c.store_scan_window_ms(b"+10240\n"), Ok(()));
    assert_eq!((c.max_connections, c.adv_interval_ms, c.scan_window_ms), (3, 20, 10240));
}

#[test]
fn numbers_out_of_range_are_refused() {
    let mut c = SparkLinkConfig::new();
    for page in [&b"0"[..], b"9", b"", b"x", b"256", b"\xFF1", b"1 2"] {
        assert_eq!(c.store_max_connections(page), Err(Errno::EINVAL));
    }
    for page in [&b"19"[..], b"10241", b"65536"] {
        assert_eq!(c.store_adv_interval_ms(page), Err(Errno::EINVAL));
    }
    for page in [&b"9"[..], b"10241"] {
        assert_eq!(c.store_scan_window_ms(page), Err(Errno::EINVAL));
    }
    assert_eq!(c, SparkLinkConfig::new());
}

#[test]
fn words_and_digits_name_modes() {
    let mut c = SparkLinkConfig::new();
    for (page, word) in [
        (&b"sniff\n"[..], &b"sniff\n"[..]),
        (b"2", b"idle\n"),
        (b" active ", b"active\n"),
        (b"1\n", b"sniff\n"),
        (b"idle", b"idle\n"),
        (b"0", b"active\n"),
    ] {
        assert_eq!(c.store_power_mode(page), Ok(()));
        assert_eq!(c.show_power_mode(), word);
    }
    assert_eq!(c.store_power_mode(b"Sniff"), Err(Errno::EINVAL));
    assert_eq!(c.store_power_mode(b"3"), Err(Errno::EINVAL));
    for (page, word) in [(&b"uart"[..], &b"uart\n"[..]), (b"2", b"spi\n"), (b"virtual", b"virtual\n")]
    {
        assert_eq!(c.store_controller_type(page), Ok(()));
        assert_eq!(c.show_controller_type(), word);
    }
    assert_eq!(c.store_controller_type(b"usb"), Err(Errno::EINVAL));
    assert_eq!(c.controller_type(), 0);
}

#[test]
fn what_is_shown_can_be_stored() {
    let mut c = SparkLinkConfig::new();
    c.store_max_connections(b"5").unwrap();
    c.store_power_mode(b"idle").unwrap();
    let mut d = SparkLinkConfig::new();
    assert_eq!(d.store_max_connections(&c.show_max_connections()), Ok(()));
    assert_eq!(d.store_power_mode(&c.show_power_mode()), Ok(()));
    assert_eq!(c, d);
}
