//! Framing over USB, and the steps that bring up a USB controller.

use vstd::prelude::*;

use crate::bytes;
use crate::errno::Errno;
use crate::sle_dli;
use crate::sle_dli::{
    ControllerEventRing, DliEventCode, DliPacketType, SleBus, SleControllerInfo, SleEvent,
    SleFeature, SleStatus, SLE_MEAS_PATH_LOSS, SLE_MEAS_RSSI, SLE_SEC_AES_CCM, SLE_SEC_ECDH_P256,
    SLE_SEC_SC, SLE_TRANSPORT_FRAGMENTED, SLE_TRANSPORT_RELIABLE, SLE_TRANSPORT_UNRELIABLE,
};
use crate::sle_pdu;
use crate::sle_pdu::{AdvDataIter, AdvDataType};
use crate::sle_opcode::{sle_opcode_from_u16, SleOpcode};

verus! {

/// Interface class: wireless controller.
pub const SLE_USB_CLASS: u8 = 0xE0;

/// Interface subclass: RF controller.
pub const SLE_USB_SUBCLASS: u8 = 0x01;

/// Interface protocol.
pub const SLE_USB_PROTOCOL: u8 = 0x05;

/// Interrupt endpoint for events.
pub const EP_EVENT_IN: u8 = 0x81;

/// Bulk endpoint for received data.
pub const EP_DATA_IN: u8 = 0x82;

/// Bulk endpoint for commands and sent data.
pub const EP_CMD_DATA_OUT: u8 = 0x03;

/// Packet size of the interrupt endpoint.
pub const EP_EVENT_MAX_PKT: usize = 16;

/// Packet size of the bulk endpoints at full speed.
pub const EP_BULK_FS_MAX_PKT: usize = 64;

/// Packet size of the bulk endpoints at high speed.
pub const EP_BULK_HS_MAX_PKT: usize = 512;

/// Request type of control transfers.
pub const SLE_USB_REQ_TYPE: u8 = 0x20;

/// Milliseconds to wait for the end of a command.
pub const CMD_TIMEOUT_MS: u32 = 5000;

/// Milliseconds to wait for a bulk transfer.
pub const DATA_TIMEOUT_MS: u32 = 1000;

/// Milliseconds between two polls of the interrupt endpoint.
pub const EVENT_POLL_INTERVAL_MS: u32 = 4;

/// Longest parameters of a command or an event.
pub const DLI_PARAM_MAX: usize = 255;

/// Longest payload of a data packet.
pub const DLI_DATA_PAYLOAD_MAX: usize = 511;

/// The bytes of a command packet; parameters beyond 255 bytes are cut off.
pub open spec fn command_packet(opcode: u16, params: Seq<u8>) -> Seq<u8> {
    let p = bytes::prefix(params, 255);
    seq![DliPacketType::Command.code()] + bytes::le16_bytes(opcode) + seq![p.len() as u8] + p
}

/// Link, segmentation and priority in one number.
pub open spec fn link_field(link_id: u16, seg: u8, priority: bool) -> u16 {
    (0x10 * (link_id % 0x1000) + 4 * (seg % 4) + bytes::bool_byte(priority)) as u16
}

/// The bytes of an asynchronous data packet; a payload beyond 511 bytes is cut off.
pub open spec fn data_packet(link_id: u16, seg: u8, priority: bool, data: Seq<u8>) -> Seq<u8> {
    let d = bytes::prefix(data, 511);
    seq![DliPacketType::AsyncUnicast.code()] + bytes::le16_bytes(link_field(link_id, seg, priority))
        + bytes::le16_bytes(d.len() as u16) + d
}

/// Builds a command packet.
pub fn build_command_packet(opcode: SleOpcode, params: &[u8]) -> (r: Result<Vec<u8>, Errno>)
    ensures
        r matches Ok(v) && v@ == command_packet(opcode.code(), params@),
{
    let p = bytes::to_prefix(params, DLI_PARAM_MAX);
    let mut v: Vec<u8> = vec![DliPacketType::Command.code()];
    bytes::push_le16(&mut v, opcode.code());
    v.push(p.len() as u8);
    bytes::extend(&mut v, p.as_slice());
    assert(v@ == command_packet(opcode.code(), params@));
    Ok(v)
}

/// Builds an asynchronous data packet. The link is cut to 12 bits, the segmentation
/// to 2 bits.
pub fn build_async_data_packet(link_id: u16, seg: u8, priority: bool, data: &[u8]) -> (r: Result<
    Vec<u8>,
    Errno,
>)
    ensures
        r matches Ok(v) && v@ == data_packet(link_id, seg, priority, data@),
{
    let d = bytes::to_prefix(data, DLI_DATA_PAYLOAD_MAX);
    let mut v: Vec<u8> = vec![DliPacketType::AsyncUnicast.code()];
    let field: u16 = 0x10 * (link_id % 0x1000) + 4 * ((seg % 4) as u16) + bytes::bool_byte(
        priority,
    ) as u16;
    bytes::push_le16(&mut v, field);
    bytes::push_le16(&mut v, d.len() as u16);
    bytes::extend(&mut v, d.as_slice());
    assert(v@ == data_packet(link_id, seg, priority, data@));
    Ok(v)
}

/// An event as the interrupt endpoint delivers it.
pub struct DliUsbEvent {
    /// Number of the event.
    pub event_code: u16,
    /// Its parameters.
    pub params: Vec<u8>,
}

/// Parses an event: two bytes of event code, a length byte, the parameters. `EINVAL`
/// where it is cut short.
pub fn parse_event_packet(data: &[u8]) -> (r: Result<DliUsbEvent, Errno>)
    ensures
        match r {
            Ok(e) => data@.len() >= 3 && data@.len() >= 3 + data@[2] && e.event_code == bytes::le16(
                data@[0],
                data@[1],
            ) && e.params@ == data@.subrange(3, 3 + data@[2]),
            Err(e) => e == Errno::EINVAL && (data@.len() < 3 || data@.len() < 3 + data@[2]),
        },
{
    if data.len() < 3 {
        return Err(Errno::EINVAL);
    }
    let event_code = bytes::le16(data[0], data[1]);
    let param_len = data[2] as usize;
    if data.len() < 3 + param_len {
        return Err(Errno::EINVAL);
    }
    Ok(DliUsbEvent { event_code, params: bytes::slice_of(data, 3, 3 + param_len) })
}

/// The header of a data packet.
pub struct DliAsyncHeader {
    /// Link, 12 bits.
    pub link_id: u16,
    /// Segmentation: 0 complete, 1 first, 2 middle, 3 last.
    pub seg: u8,
    /// Priority.
    pub priority: bool,
    /// Payload length, 9 bits.
    pub data_len: u16,
}

/// The header that the four bytes behind the packet type spell.
pub open spec fn async_header(b: Seq<u8>) -> DliAsyncHeader {
    let w = bytes::le16(b[0], b[1]);
    let n = bytes::le16(b[2], b[3]);
    DliAsyncHeader {
        link_id: (w / 0x10) as u16,
        seg: (w / 4 % 4) as u8,
        priority: w % 2 == 1,
        data_len: (n % 0x200) as u16,
    }
}

/// Parses the header of a data packet whose type byte was taken off. `EINVAL` where
/// it is cut short.
pub fn parse_async_data_header(data: &[u8]) -> (r: Result<DliAsyncHeader, Errno>)
    ensures
        r == (if data@.len() < 4 {
            Err::<DliAsyncHeader, Errno>(Errno::EINVAL)
        } else {
            Ok::<DliAsyncHeader, Errno>(async_header(data@))
        }),
{
    if data.len() < 4 {
        return Err(Errno::EINVAL);
    }
    let w = bytes::le16(data[0], data[1]);
    let n = bytes::le16(data[2], data[3]);
    Ok(
        DliAsyncHeader {
            link_id: w / 0x10,
            seg: (w / 4 % 4) as u8,
            priority: w % 2 == 1,
            data_len: n % 0x200,
        },
    )
}

/// The header of a data packet tells what the packet was built from, and the payload
/// follows it.
pub proof fn data_packet_round_trip(link_id: u16, seg: u8, priority: bool, data: Seq<u8>)
    requires
        link_id < 0x1000,
        seg < 4,
        data.len() <= 511,
    ensures
        async_header(data_packet(link_id, seg, priority, data).skip(1)) == (DliAsyncHeader {
            link_id,
            seg,
            priority,
            data_len: data.len() as u16,
        }),
        data_packet(link_id, seg, priority, data).skip(5) == data,
{
    let b = data_packet(link_id, seg, priority, data).skip(1);
    let f = link_field(link_id, seg, priority);
    let n = data.len() as u16;
    assert(b[0] == bytes::lo8(f) && b[1] == bytes::hi8(f));
    assert(b[2] == bytes::lo8(n) && b[3] == bytes::hi8(n));
    assert(bytes::le16(b[0], b[1]) == f);
    assert(bytes::le16(b[2], b[3]) == n);
    assert(data_packet(link_id, seg, priority, data).skip(5) == data);
}

/// The discovery level that elements of advertising data tell: the low three bits of
/// the first value of that kind, or 0.
pub open spec fn told_level(es: Seq<(u8, Seq<u8>)>) -> u8
    decreases es.len(),
{
    if es.len() == 0 {
        0
    } else if es[0].0 == AdvDataType::DiscoveryLevel.code() && es[0].1.len() > 0 {
        (es[0].1[0] % 8) as u8
    } else {
        told_level(es.drop_first())
    }
}

/// The discovery level that advertising data tell, or 0.
pub open spec fn discovery_level(d: Seq<u8>) -> u8 {
    told_level(sle_pdu::elements(d))
}

/// The discovery level that advertising data tell, or 0.
pub fn extract_discovery_level(data: &[u8]) -> (r: u8)
    ensures
        r == discovery_level(data@),
{
    let mut it = AdvDataIter::new(data);
    loop
        invariant
            it.wf(),
            told_level(sle_pdu::elements(it.rest())) == discovery_level(data@),
        decreases it.rest().len(),
    {
        match it.next() {
            None => return 0,
            Some(e) => {
                if e.typ == AdvDataType::DiscoveryLevel.code() && e.value.len() > 0 {
                    return e.value[0] % 8;
                }
            },
        }
    }
}

/// The discovery level with which an advertiser begins its data is the one that is
/// told.
pub proof fn leading_level_is_told(level: u8, rest: Seq<u8>)
    ensures
        discovery_level(
            sle_pdu::tlv(AdvDataType::DiscoveryLevel.code(), seq![(level % 8) as u8]) + rest,
        ) == level % 8,
{
    let d = sle_pdu::tlv(AdvDataType::DiscoveryLevel.code(), seq![(level % 8) as u8]) + rest;
    assert(d.subrange(2, 3) == seq![(level % 8) as u8]);
    assert(sle_pdu::elements(d)[0] == (d[0], d.subrange(2, 3)));
}

/// Whether `op` is the command of number `raw`, or the vendor command where no
/// command has that number.
pub open spec fn opcode_of(raw: u16, op: SleOpcode) -> bool {
    if exists|o: SleOpcode| #[trigger] o.code() == raw {
        op.code() == raw
    } else {
        op == SleOpcode::VendorBase
    }
}

/// The command of number `raw`, or the vendor command where there is none.
pub fn raw_to_opcode(raw: u16) -> (r: SleOpcode)
    ensures
        opcode_of(raw, r),
{
    match sle_opcode_from_u16(raw) {
        Some(op) => op,
        None => SleOpcode::VendorBase,
    }
}

/// The status of byte `raw`; an unknown byte reads as a hardware failure.
pub fn raw_to_status(raw: u8) -> (r: SleStatus)
    ensures
        r == SleStatus::from_raw(raw),
{
    SleStatus::from_raw(raw)
}

/// Bytes of parameters that event `code` needs; `None` for an event that is not
/// handed on.
pub open spec fn event_min_len(code: u16) -> Option<int> {
    if code == DliEventCode::CmdComplete.code() {
        Some(3)
    } else if code == DliEventCode::CmdStatus.code() {
        Some(3)
    } else if code == DliEventCode::ConnEstablished.code() {
        Some(9)
    } else if code == DliEventCode::DisconnectDone.code() {
        Some(3)
    } else if code == DliEventCode::BroadcastReport.code() {
        Some(8)
    } else if code == DliEventCode::HwError.code() {
        Some(1)
    } else if code == DliEventCode::EncStatusChange.code() {
        Some(3)
    } else if code == DliEventCode::PairRequest.code() {
        Some(7)
    } else {
        None
    }
}

/// Whether `ev` is the event of code `code` with parameters `p`.
pub open spec fn event_of(code: u16, p: Seq<u8>, ev: SleEvent) -> bool {
    match ev {
        SleEvent::CommandComplete { opcode, status, data } => {
            &&& code == DliEventCode::CmdComplete.code()
            &&& opcode_of(bytes::le16(p[0], p[1]), opcode)
            &&& status == SleStatus::from_raw(p[2])
            &&& data@ == p.skip(3)
        },
        SleEvent::CommandStatus { opcode, status } => {
            &&& code == DliEventCode::CmdStatus.code()
            &&& opcode_of(bytes::le16(p[1], p[2]), opcode)
            &&& status == SleStatus::from_raw(p[0])
        },
        SleEvent::ConnComplete { handle, addr, status } => {
            &&& code == DliEventCode::ConnEstablished.code()
            &&& handle == bytes::le16(p[1], p[2])
            &&& addr@ == p.subrange(3, 9)
            &&& status == SleStatus::from_raw(p[0])
        },
        SleEvent::Disconnected { handle, reason } => {
            &&& code == DliEventCode::DisconnectDone.code()
            &&& handle == bytes::le16(p[0], p[1])
            &&& reason == p[2]
        },
        SleEvent::AdvReport { addr, rssi, discovery_level: level, data } => {
            &&& code == DliEventCode::BroadcastReport.code()
            &&& addr@ == p.take(6)
            &&& rssi == bytes::byte_i8(p[6])
            &&& data@ == bytes::prefix(p.skip(8), p[7] as int)
            &&& level == discovery_level(data@)
        },
        SleEvent::HardwareError { code: c } => {
            &&& code == DliEventCode::HwError.code()
            &&& c == p[0]
        },
        SleEvent::EncryptionChanged { handle, enabled } => {
            &&& code == DliEventCode::EncStatusChange.code()
            &&& handle == bytes::le16(p[0], p[1])
            &&& enabled == (p[2] != 0)
        },
        SleEvent::PairRequest { addr, method } => {
            &&& code == DliEventCode::PairRequest.code()
            &&& addr@ == p.take(6)
            &&& method == p[6]
        },
        _ => false,
    }
}

/// Whether the parameters of event `code` are long enough to be handed on.
pub open spec fn event_whole(code: u16, p: Seq<u8>) -> bool {
    event_min_len(code) is Some && p.len() >= event_min_len(code)->0
}

fn addr_at(p: &[u8], at: usize) -> (r: [u8; 6])
    requires
        at + 6 <= p.len(),
    ensures
        r@ == p@.subrange(at as int, at + 6),
{
    let v = bytes::slice_of(p, at, at + 6);
    let r: [u8; 6] = bytes::to_array(v.as_slice());
    assert(r@ == v@);
    r
}

/// Turns an event of the wire into an event of the stack; `None` where it is cut
/// short or not handed on.
pub fn event_to_sle(evt: &DliUsbEvent) -> (r: Option<SleEvent>)
    ensures
        match r {
            Some(ev) => event_whole(evt.event_code, evt.params@) && event_of(
                evt.event_code,
                evt.params@,
                ev,
            ),
            None => !event_whole(evt.event_code, evt.params@),
        },
{
    let p = evt.params.as_slice();
    let n = p.len();
    match evt.event_code {
        0x0002 => {
            if n < 3 {
                return None;
            }
            let data = bytes::slice_of(p, 3, n);
            assert(data@ == p@.skip(3));
            Some(
                SleEvent::CommandComplete {
                    opcode: raw_to_opcode(bytes::le16(p[0], p[1])),
                    status: raw_to_status(p[2]),
                    data,
                },
            )
        },
        0x0001 => {
            if n < 3 {
                return None;
            }
            Some(
                SleEvent::CommandStatus {
                    opcode: raw_to_opcode(bytes::le16(p[1], p[2])),
                    status: raw_to_status(p[0]),
                },
            )
        },
        0x0015 => {
            if n < 9 {
                return None;
            }
            Some(
                SleEvent::ConnComplete {
                    handle: bytes::le16(p[1], p[2]),
                    addr: addr_at(p, 3),
                    status: raw_to_status(p[0]),
                },
            )
        },
        0x0005 => {
            if n < 3 {
                return None;
            }
            Some(SleEvent::Disconnected { handle: bytes::le16(p[0], p[1]), reason: p[2] })
        },
        0x001A => {
            if n < 8 {
                return None;
            }
            let addr = addr_at(p, 0);
            assert(addr@ == p@.take(6));
            let tail = bytes::slice_of(p, 8, n);
            assert(tail@ == p@.skip(8));
            let data = bytes::to_prefix(tail.as_slice(), p[7] as usize);
            let level = extract_discovery_level(data.as_slice());
            Some(SleEvent::AdvReport { addr, rssi: bytes::byte_i8(p[6]), discovery_level: level, data })
        },
        0x000A => {
            if n < 1 {
                return None;
            }
            Some(SleEvent::HardwareError { code: p[0] })
        },
        0x0011 => {
            if n < 3 {
                return None;
            }
            Some(
                SleEvent::EncryptionChanged {
                    handle: bytes::le16(p[0], p[1]),
                    enabled: p[2] != 0,
                },
            )
        },
        0x001D => {
            if n < 7 {
                return None;
            }
            let addr = addr_at(p, 0);
            assert(addr@ == p@.take(6));
            Some(SleEvent::PairRequest { addr, method: p[6] })
        },
        _ => None,
    }
}

/// Takes in a finished transfer: an event that arrived whole joins the ring. A failed
/// or empty transfer, and bytes that are no event, are dropped.
pub fn usb_complete(ring: &mut ControllerEventRing, status: i32, data: &[u8])
    requires
        old(ring).wf(),
    ensures
        final(ring).wf(),
        ({
            let d = data@;
            let params = d.subrange(3, 3 + d[2]);
            let code = bytes::le16(d[0], d[1]);
            if status == 0 && d.len() >= 3 && d.len() >= 3 + d[2] && event_whole(code, params) {
                exists|ev: SleEvent| #[trigger]
                    event_of(code, params, ev) && final(ring)@ == (if old(ring)@.len() == 31 {
                        old(ring)@
                    } else {
                        old(ring)@.push((None::<u16>, ev))
                    })
            } else {
                final(ring)@ == old(ring)@
            }
        }),
{
    if status != 0 {
        return;
    }
    match parse_event_packet(data) {
        Ok(evt) => match event_to_sle(&evt) {
            Some(ev) => {
                assert(event_of(evt.event_code, evt.params@, ev));
                ring.push(ev);
            },
            None => {},
        },
        Err(_) => {},
    }
}

/// The name "sparklink-usb".
pub open spec fn usb_name() -> Seq<u8> {
    seq![0x73u8, 0x70, 0x61, 0x72, 0x6B, 0x6C, 0x69, 0x6E, 0x6B, 0x2D, 0x75, 0x73, 0x62]
}

/// A controller on USB. The transfers themselves are done by the driver.
pub struct UsbController {
    addr: [u8; 6],
    dev_id: u16,
}

impl UsbController {
    /// The address of the controller.
    pub closed spec fn addr(self) -> Seq<u8> {
        self.addr@
    }

    /// The device of the controller.
    pub closed spec fn device(self) -> u16 {
        self.dev_id
    }

    /// The controller of device `dev_id`.
    pub fn new(addr: [u8; 6], dev_id: u16) -> (r: Self)
        ensures
            r.addr() == addr@,
            r.device() == dev_id,
    {
        UsbController { addr, dev_id }
    }

    /// The device of the controller.
    pub fn dev_id(&self) -> (r: u16)
        ensures
            r == self.device(),
    {
        self.dev_id
    }

    /// What the controller is and can do.
    pub fn info(&self) -> (r: SleControllerInfo)
        ensures
            r.name@ == bytes::padded(usb_name(), 32),
            r.bus == SleBus::Usb,
            r.addr@ == self.addr(),
            r.fw_version == 0,
            r.features == SleFeature::Encryption.mask() | SleFeature::DataLenUpdate.mask()
                | SleFeature::Mcs4.mask() | SleFeature::Bw2m.mask() | SleFeature::Pilot8to1.mask()
                | SleFeature::Crc32.mask(),
            r.max_pdu_payload == 255,
            r.max_connections == 8,
            r.max_mtu == 512,
            r.max_mps == 255,
            r.transport_modes == SLE_TRANSPORT_UNRELIABLE | SLE_TRANSPORT_RELIABLE
                | SLE_TRANSPORT_FRAGMENTED,
            r.measurement_cap == SLE_MEAS_RSSI | SLE_MEAS_PATH_LOSS,
            r.security_cap == SLE_SEC_AES_CCM | SLE_SEC_ECDH_P256 | SLE_SEC_SC,
    {
        let name = [0x73u8, 0x70, 0x61, 0x72, 0x6B, 0x6C, 0x69, 0x6E, 0x6B, 0x2D, 0x75, 0x73, 0x62];
        assert(name@ == usb_name());
        SleControllerInfo {
            name: bytes::to_array(name.as_slice()),
            bus: SleBus::Usb,
            addr: self.addr,
            fw_version: 0,
            features: SleFeature::Encryption.mask() | SleFeature::DataLenUpdate.mask()
                | SleFeature::Mcs4.mask() | SleFeature::Bw2m.mask() | SleFeature::Pilot8to1.mask()
                | SleFeature::Crc32.mask(),
            max_pdu_payload: 255,
            max_connections: 8,
            max_mtu: 512,
            max_mps: 255,
            transport_modes: SLE_TRANSPORT_UNRELIABLE | SLE_TRANSPORT_RELIABLE
                | SLE_TRANSPORT_FRAGMENTED,
            measurement_cap: SLE_MEAS_RSSI | SLE_MEAS_PATH_LOSS,
            security_cap: SLE_SEC_AES_CCM | SLE_SEC_ECDH_P256 | SLE_SEC_SC,
        }
    }
}

} // verus!
