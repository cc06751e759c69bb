use sparklink::errno::Errno;
use sparklink::sle_dli::{ControllerEventRing, DliPacketType, SleBus, SleEvent, SleStatus};
use sparklink::sle_opcode::SleOpcode;
use sparklink::sle_spi::{
    encode_spi_command, encode_spi_data_write, encode_spi_rx_read, encode_spi_status_read,
    parse_spi_rx_frame, SpiConfig, SpiController, SpiFrame,
};
use sparklink::sle_uart::{
    encode_command, encode_data, encode_event, UartConfig, UartController, UartFrame, UartParser,
};
use sparklink::sle_usb::{
    build_async_data_packet, build_command_packet, event_to_sle, extract_discovery_level,
    parse_async_data_header, parse_event_packet, raw_to_opcode, usb_complete, DliUsbEvent,
    UsbController,
};

#[test]
fn serial_command_frame() {
    let mut buf = [0u8; 16];
    assert_eq!(encode_command(0x0408, &[7, 8], &mut buf), 6);
    assert_eq!(&buf[..7], &[0xA1, 0x08, 0x04, 2, 7, 8, 0]);
    assert_eq!(encode_command(0x0408, &[7, 8], &mut buf[..5]), 0);
    assert_eq!(encode_command(0x0408, &[0; 256], &mut [0; 300]), 0);
}

#[test]
fn serial_frames_are_read_back() {
    let mut buf = [0u8; 64];
    let a = encode_command(0x0408, &[1], &mut buf);
    let b = a + encode_event(0x0002, &[2, 3], &mut buf[a..]);
    let c = b + encode_data(DliPacketType::AsyncUnicast, 0x123, 2, &[4, 5, 6], &mut buf[b..]);
    let mut p = UartParser::new();
    let mut out = Vec::new();
    p.feed_bytes(&buf[..c], &mut out);
    assert_eq!(out.len(), 3);
    assert!(matches!(&out[0], UartFrame::Command { opcode: 0x0408, params } if params == &[1]));
    assert!(matches!(&out[1], UartFrame::Event { event_code: 2, params } if params == &[2, 3]));
    assert!(matches!(&out[2],
        UartFrame::Data { pkt_type: DliPacketType::AsyncUnicast, handle: 0x123, flags: 2, payload }
            if payload == &[4, 5, 6]));
}

#[test]
fn serial_parser_takes_single_bytes_and_skips_noise() {
    let mut buf = [0u8; 16];
    let n = encode_command(0x0401, &[], &mut buf);
    let mut p = UartParser::new();
    assert!(p.feed(0x00).is_none());
    assert!(p.feed(0x55).is_none());
    for &b in &buf[..n - 1] {
        assert!(p.feed(b).is_none());
    }
    assert!(matches!(p.feed(buf[n - 1]), Some(UartFrame::Command { opcode: 0x0401, .. })));
}

#[test]
fn serial_parser_can_be_reset() {
    let mut buf = [0u8; 16];
    let n = encode_command(0x0401, &[1, 2], &mut buf);
    let mut p = UartParser::new();
    p.feed(buf[0]);
    p.feed(buf[1]);
    p.reset();
    let mut out = Vec::new();
    p.feed_bytes(&buf[..n], &mut out);
    assert_eq!(out.len(), 1);
}

#[test]
fn serial_line_speed_is_checked() {
    let mut c = UartController::new([1; 6], UartConfig::default());
    assert_eq!(c.set_baud_rate(0), Err(Errno::EINVAL));
    assert_eq!(c.set_baud_rate(9600), Ok(()));
    assert_eq!(c.config().baud_rate, 9600);
    assert_eq!(c.set_baud_rate(u32::MAX), Err(Errno::EINVAL));
    assert_eq!(c.config().baud_rate, 9600);
}

#[test]
fn serial_controller_collects_frames() {
    let mut c = UartController::new([1; 6], UartConfig::default());
    let mut buf = [0u8; 16];
    let n = c.encode_tx_data(5, &[1, 2], &mut buf);
    let mut frames = Vec::new();
    c.feed_rx(&buf[..n], &mut frames);
    assert!(matches!(&frames[0], UartFrame::Data { handle: 5, payload, .. } if payload == &[1, 2]));
    assert_eq!(c.encode_tx_command(0x0408, &[], &mut buf), 4);
}

#[test]
fn usb_command_packet() {
    assert_eq!(build_command_packet(SleOpcode::Reset, &[1, 2]).unwrap()[1..], [0x08, 0x04, 2, 1, 2]);
    let long = build_command_packet(SleOpcode::Reset, &[7; 300]);
    assert_eq!(long.unwrap().len(), 4 + 255);
}

#[test]
fn usb_data_packet_header_is_read_back() {
    let p = build_async_data_packet(0x123, 2, true, &[9, 8, 7]).unwrap();
    let h = parse_async_data_header(&p[1..]).unwrap();
    assert_eq!((h.link_id, h.seg, h.priority, h.data_len), (0x123, 2, true, 3));
    assert_eq!(&p[5..], &[9, 8, 7]);
    assert!(matches!(parse_async_data_header(&[1, 2, 3]), Err(Errno::EINVAL)));
}

#[test]
fn usb_event_packet() {
    let e = parse_event_packet(&[0x05, 0x01, 2, 0xAA, 0xBB, 0xCC]).unwrap();
    assert_eq!((e.event_code, &e.params[..]), (0x0105, &[0xAA, 0xBB][..]));
    assert!(matches!(parse_event_packet(&[1, 2]), Err(Errno::EINVAL)));
    assert!(matches!(parse_event_packet(&[1, 2, 3, 0, 0]), Err(Errno::EINVAL)));
}

#[test]
fn command_complete_event_is_handed_on() {
    let e = DliUsbEvent { event_code: 0x0002, params: vec![0x08, 0x04, 0x02, 5, 6] };
    match event_to_sle(&e) {
        Some(SleEvent::CommandComplete { opcode, status, data }) => {
            assert_eq!(opcode, SleOpcode::Reset);
            assert_eq!(status, SleStatus::InvalidParameters);
            assert_eq!(data, vec![5, 6]);
        }
        _ => panic!("not handed on"),
    }
    let cut = DliUsbEvent { event_code: 0x0002, params: vec![0x08, 0x04] };
    assert!(event_to_sle(&cut).is_none());
}

#[test]
fn unknown_opcode_reads_as_a_vendor_command() {
    assert_eq!(raw_to_opcode(0x0408), SleOpcode::Reset);
    assert_eq!(raw_to_opcode(0x0000), SleOpcode::VendorBase);
}

#[test]
fn discovery_level_is_found_in_advertising_data() {
    assert_eq!(extract_discovery_level(&[]), 0);
    assert_eq!(extract_discovery_level(&[1, 1, 3]), 3);
    assert_eq!(extract_discovery_level(&[9, 2, 1, 1, 1, 1, 0x0F]), 7);
    assert_eq!(extract_discovery_level(&[1, 0, 1, 1, 4]), 4);
    assert_eq!(extract_discovery_level(&[1, 1, 3, 1, 1, 5]), 3);
    assert_eq!(extract_discovery_level(&[1, 5, 3]), 0);
    assert_eq!(extract_discovery_level(&[0x0C, 1, 1]), 0);
}

#[test]
fn finished_transfers_feed_the_ring() {
    let mut ring = ControllerEventRing::new();
    let packet = [0x02, 0x00, 3, 0x08, 0x04, 0x00];
    usb_complete(&mut ring, -71, &packet);
    usb_complete(&mut ring, 0, &packet[..4]);
    usb_complete(&mut ring, 0, &[]);
    assert!(ring.pop().is_none());
    usb_complete(&mut ring, 0, &packet);
    assert!(matches!(ring.pop(), Some(SleEvent::CommandComplete { opcode: SleOpcode::Reset, .. })));
}

#[test]
fn usb_controller_describes_itself() {
    let c = UsbController::new([4; 6], 3);
    assert_eq!(c.dev_id(), 3);
    let i = c.info();
    assert_eq!(&i.name[..14], b"sparklink-usb\0");
    assert_eq!((i.bus, i.addr, i.max_connections, i.max_mtu), (SleBus::Usb, [4; 6], 8, 512));
}

#[test]
fn spi_transfers() {
    let mut buf = [0xEEu8; 8];
    assert_eq!(encode_spi_command(0x0408, 2, &mut buf), 5);
    assert_eq!(&buf[1..5], &[0xA1, 0x08, 0x04, 2]);
    assert_eq!(encode_spi_command(0x0408, 2, &mut buf[..4]), 0);
    assert_eq!(encode_spi_data_write(&[1, 2], &mut buf), 3);
    assert_eq!(&buf[1..3], &[1, 2]);
    assert_eq!(encode_spi_data_write(&[0; 256], &mut [0; 300]), 0);
    assert_eq!(encode_spi_status_read(&mut buf), 2);
    assert!(buf[0] >= 0x80);
    assert_eq!(encode_spi_rx_read(4, &mut buf), 5);
    assert_eq!(&buf[1..5], &[0, 0, 0, 0]);
    assert_eq!(encode_spi_rx_read(8, &mut buf), 0);
}

#[test]
fn spi_frames_are_read() {
    let mut buf = [0u8; 32];
    let n = encode_event(0x0105, &[1, 2], &mut buf);
    assert!(matches!(parse_spi_rx_frame(&buf[..n + 3]),
        Some(SpiFrame::Event { event_code: 0x0105, params }) if params == [1, 2]));
    assert!(parse_spi_rx_frame(&buf[..n - 1]).is_none());
    let n = encode_data(DliPacketType::AsyncUnicast, 0xABC, 1, &[9], &mut buf);
    assert!(matches!(parse_spi_rx_frame(&buf[..n]),
        Some(SpiFrame::Data { handle: 0xABC, flags: 1, payload, .. }) if payload == [9]));
    let n = encode_command(0x0408, &[1], &mut buf);
    assert!(parse_spi_rx_frame(&buf[..n]).is_none());
}

#[test]
fn spi_controller_prepares_transfers() {
    let mut c = SpiController::new([1; 6], SpiConfig::default());
    let mut hdr = [0u8; 8];
    let mut data = [0u8; 300];
    assert_eq!(c.prepare_command(0x0408, &[], &mut hdr, &mut data), (5, 0));
    assert_eq!(c.prepare_command(0x0408, &[1, 2, 3], &mut hdr, &mut data), (5, 4));
    assert_eq!(c.prepare_data(0x5123, &[1], &mut hdr, &mut data), (6, 2));
    assert_eq!(&hdr[2..6], &[0x23, 0x01, 1, 0]);
    assert_eq!(c.prepare_data(1, &[1], &mut hdr[..5], &mut data), (0, 0));
    assert_eq!(c.set_freq(0), Err(Errno::EINVAL));
    assert_eq!(c.set_freq(1_000_000), Ok(()));
    assert_eq!(c.config().freq_hz, 1_000_000);
}
