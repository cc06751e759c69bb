use sparklink::controller::{ControllerBackend, DliCommand};
use sparklink::errno::Errno;
use sparklink::sle_dli::{
    ControllerEventRing, DliPacketType, SleBus, SleController, SleControllerInfo, SleEvent,
    SleFeature, SleStatus,
};
use sparklink::sle_opcode::{dli_ocf, dli_ogf, dli_opcode, sle_opcode_from_u16, SleOpcode};
use sparklink::sle_spi::SpiConfig;
use sparklink::sle_uart::UartConfig;

#[test]
fn opcode_is_group_and_command() {
    assert_eq!(dli_opcode(0x01, 0x08), 0x0408);
    assert_eq!(dli_ogf(0x0408), 1);
    assert_eq!(dli_ocf(0x0408), 8);
}

#[test]
fn opcodes_come_back_from_their_numbers() {
    let mut known = 0;
    for v in 0..=u16::MAX {
        if let Some(op) = sle_opcode_from_u16(v) {
            assert_eq!(op.code(), v);
            known += 1;
        }
    }
    assert!(known > 100);
    assert_eq!(sle_opcode_from_u16(0x0408), Some(SleOpcode::Reset));
    assert_eq!(sle_opcode_from_u16(0), None);
}

#[test]
fn packet_types_come_back_from_their_bytes() {
    for v in 0..=u8::MAX {
        assert_eq!(DliPacketType::from_raw(v).map(|t| t.code()), (0xA1..=0xA5).contains(&v).then_some(v));
    }
}

#[test]
fn unknown_status_is_a_hardware_failure() {
    for v in 0..=8u8 {
        assert_eq!(SleStatus::from_raw(v).code(), v);
    }
    assert_eq!(SleStatus::from_raw(9), SleStatus::HardwareFailure);
}

#[test]
fn features_are_single_bits() {
    let mut info = SleControllerInfo::default();
    assert!(!info.has_feature(SleFeature::Crc32));
    info.features = SleFeature::Crc32.mask();
    assert!(info.has_feature(SleFeature::Crc32));
    assert!(!info.has_feature(SleFeature::Encryption));
    assert_eq!(SleFeature::Encryption.mask(), 1);
}

#[test]
fn ring_keeps_order_and_drops_when_full() {
    let mut r = ControllerEventRing::new();
    for i in 0..40u8 {
        r.push(SleEvent::HardwareError { code: i });
    }
    for i in 0..31u8 {
        assert!(matches!(r.pop(), Some(SleEvent::HardwareError { code }) if code == i));
    }
    assert!(r.pop().is_none());
    r.push_tagged(Some(4), SleEvent::BroadcastEnd { reason: 1 });
    assert!(matches!(r.pop_tagged(), Some((Some(4), SleEvent::BroadcastEnd { reason: 1 }))));
}

#[test]
fn virtual_controller_opens_once() {
    let mut c = ControllerBackend::new_virtual([1; 6]);
    assert_eq!(c.open(), Ok(()));
    assert_eq!(c.open(), Err(Errno::EBUSY));
    c.close();
    assert_eq!(c.open(), Ok(()));
}

#[test]
fn virtual_controller_connects_and_disconnects() {
    let mut c = ControllerBackend::new_virtual([1; 6]);
    assert_eq!(c.create_connection(&[9; 6]), Ok(()));
    assert!(matches!(
        c.poll_event(),
        Some(SleEvent::CommandComplete { opcode: SleOpcode::CreateConnection, status: SleStatus::Success, .. })
    ));
    assert!(matches!(
        c.poll_event(),
        Some(SleEvent::ConnComplete { addr: [9, 9, 9, 9, 9, 9], status: SleStatus::Success, .. })
    ));
    assert_eq!(c.disconnect(0x1234), Ok(()));
    c.poll_event();
    assert!(matches!(c.poll_event(), Some(SleEvent::Disconnected { handle: 0x1234, reason: 0 })));
    assert!(c.poll_event().is_none());
}

#[test]
fn controllers_describe_themselves() {
    let v = ControllerBackend::new_virtual([1; 6]).info();
    assert_eq!((v.bus, v.max_connections, v.addr), (SleBus::Virtual, 8, [1; 6]));
    assert_eq!(&v.name[..18], b"sparklink-virtual\0");
    let u = ControllerBackend::new_uart([2; 6], UartConfig::default()).info();
    assert_eq!((u.bus, u.max_connections, u.addr), (SleBus::Uart, 4, [2; 6]));
    let s = ControllerBackend::new_spi([3; 6], SpiConfig::default()).info();
    assert_eq!((s.bus, s.max_connections, s.addr), (SleBus::Spi, 2, [3; 6]));
    assert_eq!(s.max_mtu, 247);
}

#[test]
fn commands_carry_their_parameters() {
    let c = DliCommand::enable_scan(true);
    assert_eq!((c.opcode, c.params), (SleOpcode::EnableScan, vec![1]));
    let c = DliCommand::set_tx_power(-4);
    assert_eq!((c.opcode, c.params), (SleOpcode::SetPhyParam, vec![1, 0xFC]));
    let c = DliCommand::set_bandwidth(4);
    assert_eq!((c.opcode, c.params), (SleOpcode::SetPhyParam, vec![2, 4]));
    let c = DliCommand::disconnect(0x0102);
    assert_eq!((c.opcode, c.params), (SleOpcode::Disconnect, vec![2, 1]));
    assert!(matches!(DliCommand::raw(0, &[]), Err(Errno::EINVAL)));
    let c = DliCommand::start_encrypt();
    assert_eq!((c.opcode, c.params), (SleOpcode::StartEncrypt, vec![]));
}

#[test]
fn unknown_raw_command_is_refused() {
    let mut c = ControllerBackend::new_virtual([1; 6]);
    assert_eq!(c.send_command_raw(0x0000, &[]), Err(Errno::EINVAL));
    assert!(c.poll_event().is_none());
    assert_eq!(c.send_command_raw(0x0408, &[]), Ok(()));
    assert!(matches!(c.poll_event(), Some(SleEvent::CommandComplete { opcode: SleOpcode::Reset, .. })));
}

#[test]
fn long_data_is_refused_on_a_serial_line_only() {
    let mut u = ControllerBackend::new_uart([2; 6], UartConfig::default());
    assert_eq!(u.send_data(1, &[0; 255]), Ok(()));
    assert_eq!(u.send_data(1, &[0; 256]), Err(Errno::EINVAL));
    assert_eq!(u.send_command(SleOpcode::Reset, &[0; 256]), Err(Errno::EINVAL));
    let mut v = ControllerBackend::new_virtual([2; 6]);
    assert_eq!(v.send_data(1, &[0; 256]), Ok(()));
}
