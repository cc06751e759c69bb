//! Laws of the packets on the buses and of the events that they carry.

use vstd::prelude::*;

use crate::bytes;
use crate::errno::Errno;
use crate::sle_dli::{ControllerEventRing, DliPacketType, SleEvent, SleStatus};
use crate::sle_opcode::SleOpcode;
use crate::sle_serdev;
use crate::sle_serdev::{RawEvent, SerdevParserState};
use crate::sle_spi;
use crate::sle_spi::{SpiController, SpiFrame};
use crate::sle_uart;
use crate::sle_uart::{FrameModel, UartController, UartFrame, UartParser};
use crate::sle_usb;
use crate::sle_usb::{DliAsyncHeader, DliUsbEvent};
use crate::transport_frame;
use crate::transport_frame::TransportHeader;

verus! {

/// Whether two bytes spell a number, lowest first.
pub open spec fn spells(v: u16, a: u8, b: u8) -> bool {
    v == a + 0x100 * b
}

/// Whether a status is the one of a byte: the bytes 0 to 8 stand for the nine statuses in
/// order, and every other byte for a failure of the hardware.
pub open spec fn status_is(s: SleStatus, b: u8) -> bool {
    &&& (s == SleStatus::Success <==> b == 0)
    &&& (s == SleStatus::UnknownCommand <==> b == 1)
    &&& (s == SleStatus::InvalidParameters <==> b == 2)
    &&& (s == SleStatus::HardwareFailure <==> b == 3 || b > 8)
    &&& (s == SleStatus::ResourceExhausted <==> b == 4)
    &&& (s == SleStatus::NotConnected <==> b == 5)
    &&& (s == SleStatus::AlreadyActive <==> b == 6)
    &&& (s == SleStatus::PermissionDenied <==> b == 7)
    &&& (s == SleStatus::Timeout <==> b == 8)
}

/// Numbers are read and written lowest byte first.
pub proof fn lowest_byte_first(a: u8, b: u8, c: u8, d: u8, v: u16, w: u32, r: u16, s: u32)
    requires
        call_ensures(bytes::le16, (a, b), r),
        call_ensures(bytes::le32, (a, b, c, d), s),
    ensures
        r == a + 0x100 * b,
        s == a + 0x100 * b + 0x1_0000 * c + 0x100_0000 * d,
        bytes::le16_bytes(v).len() == 2,
        v == bytes::le16_bytes(v)[0] + 0x100 * bytes::le16_bytes(v)[1],
        bytes::le32_bytes(w).len() == 4,
        w == bytes::le32_bytes(w)[0] + 0x100 * bytes::le32_bytes(w)[1] + 0x1_0000
            * bytes::le32_bytes(w)[2] + 0x100_0000 * bytes::le32_bytes(w)[3],
{
}

/// Signed numbers and their bytes differ by a multiple of 256.
pub proof fn signed_bytes(v: i8, b: u8, r: u8, s: i8)
    requires
        call_ensures(bytes::i8_byte, (v,), r),
        call_ensures(bytes::byte_i8, (b,), s),
    ensures
        (r - v) % 256 == 0,
        (b - s) % 256 == 0,
{
}

/// A status byte is read as the status of that number.
pub proof fn status_of_byte(b: u8, r: SleStatus)
    requires
        call_ensures(sle_usb::raw_to_status, (b,), r),
    ensures
        status_is(r, b),
        b <= 8 ==> r.code() == b,
{
}

/// A number that stands for a command is read as that command.
pub proof fn opcode_of_number(raw: u16, op: SleOpcode, r: SleOpcode)
    requires
        call_ensures(sle_usb::raw_to_opcode, (raw,), r),
    ensures
        op.code() == raw ==> r == op,
        r.code() == raw || r == SleOpcode::VendorBase,
{
    if op.code() == raw {
        crate::sle_opcode::opcode_code_injective(op, r);
    }
}

/// Which events are handed on: those of eight codes, where enough parameters came.
pub proof fn events_handed_on(evt: &DliUsbEvent, r: Option<SleEvent>)
    requires
        call_ensures(sle_usb::event_to_sle, (evt,), r),
    ensures
        r is Some <==> {
            let n = evt.params@.len();
            ||| evt.event_code == 0x0001 && n >= 3
            ||| evt.event_code == 0x0002 && n >= 3
            ||| evt.event_code == 0x0005 && n >= 3
            ||| evt.event_code == 0x000A && n >= 1
            ||| evt.event_code == 0x0011 && n >= 3
            ||| evt.event_code == 0x0015 && n >= 9
            ||| evt.event_code == 0x001A && n >= 8
            ||| evt.event_code == 0x001D && n >= 7
        },
{
}

/// The end of a command is read back: its number, its status and its data.
pub proof fn command_complete_is_read(
    evt: &DliUsbEvent,
    r: Option<SleEvent>,
    op: SleOpcode,
    status: u8,
    data: Seq<u8>,
)
    requires
        call_ensures(sle_usb::event_to_sle, (evt,), r),
        evt.event_code == 0x0002,
        evt.params@ == seq![(op.code() % 0x100) as u8, (op.code() / 0x100) as u8, status] + data,
    ensures
        r matches Some(SleEvent::CommandComplete { opcode, status: s, data: d }) && opcode == op
            && status_is(s, status) && d@ == data,
{
    assert(evt.params@.skip(3) == data);
    assert(bytes::le16(evt.params@[0], evt.params@[1]) == op.code());
    let o = r->0->CommandComplete_opcode;
    crate::sle_opcode::opcode_code_injective(op, o);
}

/// The start of a command is read back: its status and its number.
pub proof fn command_status_is_read(
    evt: &DliUsbEvent,
    r: Option<SleEvent>,
    op: SleOpcode,
    status: u8,
    rest: Seq<u8>,
)
    requires
        call_ensures(sle_usb::event_to_sle, (evt,), r),
        evt.event_code == 0x0001,
        evt.params@ == seq![status, (op.code() % 0x100) as u8, (op.code() / 0x100) as u8] + rest,
    ensures
        r matches Some(SleEvent::CommandStatus { opcode, status: s }) && opcode == op
            && status_is(s, status),
{
    assert(bytes::le16(evt.params@[1], evt.params@[2]) == op.code());
    let o = r->0->CommandStatus_opcode;
    crate::sle_opcode::opcode_code_injective(op, o);
}

/// A new connection is read back: status, handle with its lowest byte first, address.
pub proof fn connection_is_read(
    evt: &DliUsbEvent,
    r: Option<SleEvent>,
    status: u8,
    handle: u16,
    addr: Seq<u8>,
    rest: Seq<u8>,
)
    requires
        call_ensures(sle_usb::event_to_sle, (evt,), r),
        evt.event_code == 0x0015,
        addr.len() == 6,
        evt.params@ == seq![status, (handle % 0x100) as u8, (handle / 0x100) as u8] + addr + rest,
    ensures
        r matches Some(SleEvent::ConnComplete { handle: h, addr: a, status: s }) && h == handle
            && a@ == addr && status_is(s, status),
{
    assert(evt.params@.subrange(3, 9) == addr);
}

/// A lost connection is read back: handle with its lowest byte first, reason.
pub proof fn disconnection_is_read(
    evt: &DliUsbEvent,
    r: Option<SleEvent>,
    handle: u16,
    reason: u8,
    rest: Seq<u8>,
)
    requires
        call_ensures(sle_usb::event_to_sle, (evt,), r),
        evt.event_code == 0x0005,
        evt.params@ == seq![(handle % 0x100) as u8, (handle / 0x100) as u8, reason] + rest,
    ensures
        r matches Some(SleEvent::Disconnected { handle: h, reason: c }) && h == handle && c
            == reason,
{
}

/// The handle that is told when a connection comes up is the one that is told when it goes
/// down, and when its encryption is switched, where the same two bytes stand for it.
pub proof fn handle_stays_the_same(
    up: &DliUsbEvent,
    down: &DliUsbEvent,
    enc: &DliUsbEvent,
    a: Option<SleEvent>,
    b: Option<SleEvent>,
    c: Option<SleEvent>,
)
    requires
        call_ensures(sle_usb::event_to_sle, (up,), a),
        call_ensures(sle_usb::event_to_sle, (down,), b),
        call_ensures(sle_usb::event_to_sle, (enc,), c),
        up.event_code == 0x0015 && up.params@.len() >= 9,
        down.event_code == 0x0005 && down.params@.len() >= 3,
        enc.event_code == 0x0011 && enc.params@.len() >= 3,
        up.params@[1] == down.params@[0] && up.params@[2] == down.params@[1],
        up.params@[1] == enc.params@[0] && up.params@[2] == enc.params@[1],
    ensures
        a matches Some(SleEvent::ConnComplete { handle: h, .. }) && (b matches Some(
            SleEvent::Disconnected { handle: i, .. },
        ) && h == i) && (c matches Some(SleEvent::EncryptionChanged { handle: j, .. }) && h == j),
{
}

/// A switch of encryption is read back: handle, and on for every byte but 0.
pub proof fn encryption_is_read(
    evt: &DliUsbEvent,
    r: Option<SleEvent>,
    handle: u16,
    on: u8,
    rest: Seq<u8>,
)
    requires
        call_ensures(sle_usb::event_to_sle, (evt,), r),
        evt.event_code == 0x0011,
        evt.params@ == seq![(handle % 0x100) as u8, (handle / 0x100) as u8, on] + rest,
    ensures
        r matches Some(SleEvent::EncryptionChanged { handle: h, enabled }) && h == handle
            && enabled == (on != 0),
{
}

/// An advertisement is read back: address, level as a signed byte, and as much data as the
/// length byte tells.
pub proof fn report_is_read(
    evt: &DliUsbEvent,
    r: Option<SleEvent>,
    addr: Seq<u8>,
    rssi: i8,
    data: Seq<u8>,
    rest: Seq<u8>,
)
    requires
        call_ensures(sle_usb::event_to_sle, (evt,), r),
        evt.event_code == 0x001A,
        addr.len() == 6,
        data.len() <= 255,
        evt.params@ == addr + seq![
            (if rssi < 0 {
                rssi + 256
            } else {
                rssi as int
            }) as u8,
            data.len() as u8,
        ] + data + rest,
    ensures
        r matches Some(SleEvent::AdvReport { addr: a, rssi: s, discovery_level, data: d }) && a@
            == addr && s == rssi && d@ == data && discovery_level < 8,
{
    let p = evt.params@;
    assert(p.take(6) == addr);
    assert(p[7] == data.len());
    assert(p.skip(8) == data + rest);
    assert((data + rest).take(data.len() as int) == data);
    if rest.len() == 0 {
        assert(data + rest == data);
    }
    level_bound(crate::sle_pdu::elements(data));
}

proof fn level_bound(es: Seq<(u8, Seq<u8>)>)
    ensures
        sle_usb::told_level(es) < 8,
    decreases es.len(),
{
    if es.len() > 0 {
        level_bound(es.drop_first());
    }
}

/// A failure of the controller and a request for pairing are read back.
pub proof fn failure_and_pairing_are_read(
    f: &DliUsbEvent,
    p: &DliUsbEvent,
    a: Option<SleEvent>,
    b: Option<SleEvent>,
)
    requires
        call_ensures(sle_usb::event_to_sle, (f,), a),
        call_ensures(sle_usb::event_to_sle, (p,), b),
        f.event_code == 0x000A && f.params@.len() >= 1,
        p.event_code == 0x001D && p.params@.len() >= 7,
    ensures
        a matches Some(SleEvent::HardwareError { code }) && code == f.params@[0],
        b matches Some(SleEvent::PairRequest { addr, method }) && addr@ == p.params@.take(6)
            && method == p.params@[6],
{
}

/// An event on USB is read where its length byte is kept: code with its lowest byte first,
/// then that many parameters.
pub proof fn usb_event_is_read(
    data: &[u8],
    r: Result<DliUsbEvent, Errno>,
    code: u16,
    params: Seq<u8>,
    rest: Seq<u8>,
)
    requires
        call_ensures(sle_usb::parse_event_packet, (data,), r),
        params.len() <= 255,
        data@ == seq![(code % 0x100) as u8, (code / 0x100) as u8, params.len() as u8] + params
            + rest,
    ensures
        r matches Ok(e) && e.event_code == code && e.params@ == params,
{
    assert(data@.subrange(3, 3 + data@[2]) == params);
}

/// An event on USB that is cut short is refused, and only such a one.
pub proof fn cut_usb_event_is_refused(data: &[u8], r: Result<DliUsbEvent, Errno>)
    requires
        call_ensures(sle_usb::parse_event_packet, (data,), r),
    ensures
        r is Err <==> data@.len() < 3 || data@.len() - 3 < data@[2],
        r is Err ==> r->Err_0 == Errno::EINVAL,
{
}

/// A transfer that failed leaves the waiting events alone; one that brought a whole event
/// puts it behind them, unless 31 wait already.
pub proof fn usb_transfer(ring: &mut ControllerEventRing, status: i32, data: &[u8])
    requires
        call_ensures(sle_usb::usb_complete, (ring, status, data), ()),
    ensures
        status != 0 || data@.len() < 3 || data@.len() < 3 + data@[2] ==> final(ring)@ == old(ring)@,
        status == 0 && data@.len() >= 6 && data@[2] >= 3 && data@.len() >= 3 + data@[2] && data@[0]
            == 0x05 && data@[1] == 0 && old(ring)@.len() != 31 ==> {
            &&& final(ring)@.len() == old(ring)@.len() + 1
            &&& final(ring)@.take(old(ring)@.len() as int) == old(ring)@
            &&& final(ring)@.last().0 is None
            &&& final(ring)@.last().1 matches SleEvent::Disconnected { handle, reason } && spells(
                handle,
                data@[3],
                data@[4],
            ) && reason == data@[5]
        },
        old(ring)@.len() == 31 ==> final(ring)@ == old(ring)@,
{
    if status == 0 && data@.len() >= 6 && data@[2] >= 3 && data@.len() >= 3 + data@[2] && data@[0]
        == 0x05 && data@[1] == 0 && ring@.len() != 31 {
        let params = data@.subrange(3, 3 + data@[2]);
        assert(params[0] == data@[3] && params[1] == data@[4] && params[2] == data@[5]);
        assert(final(ring)@.take(ring@.len() as int) == ring@);
    }
}

/// A command packet on USB: the type byte, the number of the command, the number of
/// parameters, the parameters, of which 255 at most are sent.
pub proof fn usb_command_layout(op: SleOpcode, params: &[u8], r: Result<Vec<u8>, Errno>)
    requires
        call_ensures(sle_usb::build_command_packet, (op, params), r),
    ensures
        r matches Ok(v) && {
            let n = if params@.len() <= 255 {
                params@.len() as int
            } else {
                255
            };
            &&& v@.len() == 4 + n
            &&& v@[0] == 0xA1
            &&& spells(op.code(), v@[1], v@[2])
            &&& v@[3] == n
            &&& v@.skip(4) == params@.take(n)
        },
{
    let v = r->Ok_0@;
    let n = if params@.len() <= 255 {
        params@.len() as int
    } else {
        255
    };
    assert(v.skip(4) =~= params@.take(n));
}

/// A data packet on USB: the type byte, priority in the lowest bit, segmentation in two bits
/// above the second, the link in the upper twelve, then the length and as many bytes.
pub proof fn usb_data_layout(
    link: u16,
    seg: u8,
    priority: bool,
    data: &[u8],
    r: Result<Vec<u8>, Errno>,
)
    requires
        call_ensures(sle_usb::build_async_data_packet, (link, seg, priority, data), r),
    ensures
        r matches Ok(v) && {
            let n = if data@.len() <= 511 {
                data@.len() as int
            } else {
                511
            };
            let w = v@[1] + 0x100 * v@[2];
            &&& v@.len() == 5 + n
            &&& v@[0] == 0xA3
            &&& w % 2 == (if priority {
                1int
            } else {
                0
            })
            &&& w / 4 % 4 == seg % 4
            &&& w / 16 == link % 0x1000
            &&& v@[3] + 0x100 * v@[4] == n
            &&& v@.skip(5) == data@.take(n)
        },
{
    let v = r->Ok_0@;
    let n = if data@.len() <= 511 {
        data@.len() as int
    } else {
        511
    };
    assert(v.skip(5) =~= data@.take(n));
}

/// The header of a data packet on USB is read as it is laid out.
pub proof fn usb_data_header_is_read(data: &[u8], r: Result<DliAsyncHeader, Errno>)
    requires
        call_ensures(sle_usb::parse_async_data_header, (data,), r),
    ensures
        r is Err <==> data@.len() < 4,
        r is Err ==> r->Err_0 == Errno::EINVAL,
        r matches Ok(h) ==> {
            let w = data@[0] + 0x100 * data@[1];
            &&& h.link_id == w / 16
            &&& h.seg == w / 4 % 4
            &&& h.priority == (w % 2 == 1)
            &&& h.data_len == (data@[2] + 0x100 * data@[3]) % 512
        },
{
}

/// What a frame encoder of a serial line leaves in a buffer: nothing where it returns 0, and
/// otherwise a header and the payload, with the rest of the buffer as it was.
pub open spec fn framed(
    before: Seq<u8>,
    after: Seq<u8>,
    r: usize,
    head: int,
    payload: Seq<u8>,
) -> bool {
    if payload.len() > 255 || before.len() < head + payload.len() {
        r == 0 && after == before
    } else {
        &&& r == head + payload.len()
        &&& after.len() == before.len()
        &&& after.subrange(head, r as int) == payload
        &&& after.skip(r as int) == before.skip(r as int)
    }
}

/// A command frame: type byte, number of the command, one byte of length, parameters.
pub proof fn uart_command_layout(op: u16, params: &[u8], buf: &mut [u8], r: usize)
    requires
        call_ensures(sle_uart::encode_command, (op, params, buf), r),
    ensures
        framed(old(buf)@, final(buf)@, r, 4, params@),
        r > 0 ==> final(buf)@[0] == 0xA1 && spells(op, final(buf)@[1], final(buf)@[2]) && final(buf)@[3] == params@.len(),
{
    let a = final(buf)@;
    if r > 0 {
        assert(a.subrange(4, r as int) =~= params@);
        assert(a.skip(r as int) =~= buf@.skip(r as int));
    }
}

/// An event frame: type byte, code, two bytes of length, parameters.
pub proof fn uart_event_layout(code: u16, params: &[u8], buf: &mut [u8], r: usize)
    requires
        call_ensures(sle_uart::encode_event, (code, params, buf), r),
    ensures
        framed(old(buf)@, final(buf)@, r, 5, params@),
        r > 0 ==> final(buf)@[0] == 0xA2 && spells(code, final(buf)@[1], final(buf)@[2]) && final(buf)@[3] == params@.len() && final(buf)@[4] == 0,
{
    let a = final(buf)@;
    if r > 0 {
        assert(a.subrange(5, r as int) =~= params@);
        assert(a.skip(r as int) =~= buf@.skip(r as int));
    }
}

/// A data frame: type byte, handle in the lower twelve bits and flags in the upper four, two
/// bytes of length, payload.
pub proof fn uart_data_layout(
    t: DliPacketType,
    handle: u16,
    flags: u8,
    payload: &[u8],
    buf: &mut [u8],
    r: usize,
)
    requires
        call_ensures(sle_uart::encode_data, (t, handle, flags, payload, buf), r),
    ensures
        framed(old(buf)@, final(buf)@, r, 5, payload@),
        r > 0 ==> {
            let w = final(buf)@[1] + 0x100 * final(buf)@[2];
            &&& final(buf)@[0] == t.code()
            &&& w % 0x1000 == handle % 0x1000
            &&& w / 0x1000 == flags % 16
            &&& final(buf)@[3] == payload@.len()
            &&& final(buf)@[4] == 0
        },
{
    let a = final(buf)@;
    if r > 0 {
        assert(a.subrange(5, r as int) =~= payload@);
        assert(a.skip(r as int) =~= buf@.skip(r as int));
    }
}

/// The type bytes of packets.
pub proof fn packet_types(t: DliPacketType, r: u8, b: u8, s: Option<DliPacketType>)
    requires
        call_ensures(DliPacketType::code, (t,), r),
        call_ensures(DliPacketType::from_raw, (b,), s),
    ensures
        t == DliPacketType::Command <==> r == 0xA1,
        t == DliPacketType::Event <==> r == 0xA2,
        t == DliPacketType::AsyncUnicast <==> r == 0xA3,
        t == DliPacketType::SyncUnicast <==> r == 0xA4,
        t == DliPacketType::AsyncMulticast <==> r == 0xA5,
        s is Some <==> 0xA1 <= b <= 0xA5,
        b == r ==> s == Some(t),
{
}

/// A parser that waits for a frame gets an encoded command back from its bytes, and waits
/// again.
pub proof fn uart_command_round_trip(
    op: u16,
    params: &[u8],
    buf: &mut [u8],
    n: usize,
    p: &mut UartParser,
    data: &[u8],
    out: &mut Vec<UartFrame>,
)
    requires
        call_ensures(sle_uart::encode_command, (op, params, buf), n),
        n > 0,
        data@ == final(buf)@.take(n as int),
        p@.len() == 0,
        call_ensures(UartParser::feed_bytes, (p, data, out), ()),
    ensures
        final(p)@.len() == 0,
        final(out)@.len() == old(out)@.len() + 1,
        final(out)@.last() matches UartFrame::Command { opcode, params: q } && opcode == op && q@
            == params@,
{
    let f = FrameModel::Command { opcode: op, params: params@ };
    assert(data@ =~= sle_uart::frame_bytes(f));
    one_frame(f, p@, data@);
    let a = sle_uart::frames_view(final(out)@);
    assert(a.len() == final(out)@.len());
    assert(sle_uart::frames_view(out@).len() == out@.len());
    assert(a.last() == f);
    assert(a.last() == final(out)@.last()@);
}

/// A parser that waits for a frame gets an encoded event back from its bytes.
pub proof fn uart_event_round_trip(
    code: u16,
    params: &[u8],
    buf: &mut [u8],
    n: usize,
    p: &mut UartParser,
    data: &[u8],
    out: &mut Vec<UartFrame>,
)
    requires
        call_ensures(sle_uart::encode_event, (code, params, buf), n),
        n > 0,
        data@ == final(buf)@.take(n as int),
        p@.len() == 0,
        call_ensures(UartParser::feed_bytes, (p, data, out), ()),
    ensures
        final(p)@.len() == 0,
        final(out)@.len() == old(out)@.len() + 1,
        final(out)@.last() matches UartFrame::Event { event_code, params: q } && event_code == code
            && q@ == params@,
{
    let f = FrameModel::Event { event_code: code, params: params@ };
    assert(data@ =~= sle_uart::frame_bytes(f));
    one_frame(f, p@, data@);
    let a = sle_uart::frames_view(final(out)@);
    assert(a.len() == final(out)@.len());
    assert(sle_uart::frames_view(out@).len() == out@.len());
    assert(a.last() == f);
    assert(a.last() == final(out)@.last()@);
}

/// A parser that waits for a frame gets encoded data back from their bytes.
pub proof fn uart_data_round_trip(
    t: DliPacketType,
    handle: u16,
    flags: u8,
    payload: &[u8],
    buf: &mut [u8],
    n: usize,
    p: &mut UartParser,
    data: &[u8],
    out: &mut Vec<UartFrame>,
)
    requires
        call_ensures(sle_uart::encode_data, (t, handle, flags, payload, buf), n),
        n > 0,
        t == DliPacketType::AsyncUnicast || t == DliPacketType::SyncUnicast || t
            == DliPacketType::AsyncMulticast,
        handle < 0x1000,
        flags < 0x10,
        data@ == final(buf)@.take(n as int),
        p@.len() == 0,
        call_ensures(UartParser::feed_bytes, (p, data, out), ()),
    ensures
        final(p)@.len() == 0,
        final(out)@.len() == old(out)@.len() + 1,
        final(out)@.last() matches UartFrame::Data { pkt_type, handle: h, flags: g, payload: q }
            && pkt_type == t && h == handle && g == flags && q@ == payload@,
{
    let f = FrameModel::Data { pkt_type: t, handle, flags, payload: payload@ };
    assert(data@ =~= sle_uart::frame_bytes(f));
    one_frame(f, p@, data@);
    let a = sle_uart::frames_view(final(out)@);
    assert(a.len() == final(out)@.len());
    assert(sle_uart::frames_view(out@).len() == out@.len());
    assert(a.last() == f);
    assert(a.last() == final(out)@.last()@);
}

proof fn one_frame(f: FrameModel, p: Seq<u8>, d: Seq<u8>)
    requires
        sle_uart::frame_ok(f),
        p.len() == 0,
        d == sle_uart::frame_bytes(f),
    ensures
        sle_uart::fed_all(p, d).0.len() == 0,
        sle_uart::fed_all(p, d).1 == seq![f],
{
    let fs = seq![f];
    assert(p =~= Seq::<u8>::empty());
    assert(fs.drop_last() =~= Seq::<FrameModel>::empty());
    assert(sle_uart::stream_bytes(fs.drop_last()) =~= Seq::<u8>::empty());
    assert(sle_uart::stream_bytes(fs) =~= d);
    sle_uart::stream_round_trip(fs);
}

/// A byte that is no packet type is skipped by a parser that waits for a frame; one that is
/// starts a frame.
pub proof fn uart_noise_is_skipped(p: &mut UartParser, b: u8, r: Option<UartFrame>)
    requires
        call_ensures(UartParser::feed, (p, b), r),
        p@.len() == 0,
    ensures
        r is None,
        final(p)@ == (if 0xA1 <= b <= 0xA5 {
            seq![b]
        } else {
            Seq::<u8>::empty()
        }),
{
    assert(p@ =~= Seq::<u8>::empty());
    assert(p@.push(b) =~= seq![b]);
}

/// A frame that announces more than 255 bytes is dropped once its header is whole.
pub proof fn uart_long_frame_is_dropped(p: &mut UartParser, b: u8, r: Option<UartFrame>)
    requires
        call_ensures(UartParser::feed, (p, b), r),
        p@.len() == 4,
        0xA2 <= p@[0] <= 0xA5,
        p@[3] + 0x100 * b > 255,
    ensures
        r is None,
        final(p)@.len() == 0,
{
}

/// A reset parser waits for a frame.
pub proof fn uart_reset_forgets(p: &mut UartParser)
    requires
        call_ensures(UartParser::reset, (p,), ()),
    ensures
        final(p)@.len() == 0,
{
}

/// The rate of a serial line is set where it is between 1 and 3000000, and kept otherwise.
pub proof fn baud_rate_is_bounded(c: &mut UartController, rate: u32, r: Result<(), Errno>)
    requires
        call_ensures(UartController::set_baud_rate, (c, rate), r),
    ensures
        r is Ok <==> 1 <= rate <= 3_000_000,
        r is Ok ==> final(c).line().baud_rate == rate,
        r is Err ==> r->Err_0 == Errno::EINVAL && final(c).line() == old(c).line(),
        final(c).line().hw_flow_ctrl == old(c).line().hw_flow_ctrl,
{
}

/// The clock of an SPI bus is set where it is between 1 and 20000000, and kept otherwise.
pub proof fn spi_clock_is_bounded(c: &mut SpiController, freq: u32, r: Result<(), Errno>)
    requires
        call_ensures(SpiController::set_freq, (c, freq), r),
    ensures
        r is Ok <==> 1 <= freq <= 20_000_000,
        r is Ok ==> final(c).bus().freq_hz == freq,
        r is Err ==> r->Err_0 == Errno::EINVAL && final(c).bus() == old(c).bus(),
        final(c).bus().mode == old(c).bus().mode,
{
}

/// The transfer that announces a command on SPI: register, type byte, number, length.
pub proof fn spi_command_layout(op: u16, len: u8, buf: &mut [u8], r: usize)
    requires
        call_ensures(sle_spi::encode_spi_command, (op, len, buf), r),
    ensures
        old(buf)@.len() < 5 ==> r == 0 && final(buf)@ == old(buf)@,
        old(buf)@.len() >= 5 ==> {
            &&& r == 5
            &&& final(buf)@[0] == 0x01
            &&& final(buf)@[1] == 0xA1
            &&& spells(op, final(buf)@[2], final(buf)@[3])
            &&& final(buf)@[4] == len
            &&& final(buf)@.skip(5) == old(buf)@.skip(5)
        },
{
    if buf@.len() >= 5 {
        assert(final(buf)@.skip(5) =~= buf@.skip(5));
    }
}

/// The transfer that fills the transmit FIFO: register, then at most 255 bytes.
pub proof fn spi_data_layout(data: &[u8], buf: &mut [u8], r: usize)
    requires
        call_ensures(sle_spi::encode_spi_data_write, (data, buf), r),
    ensures
        data@.len() > 255 || old(buf)@.len() < data@.len() + 1 ==> r == 0 && final(buf)@ == old(buf)@,
        data@.len() <= 255 && old(buf)@.len() >= data@.len() + 1 ==> {
            &&& r == data@.len() + 1
            &&& final(buf)@[0] == 0x02
            &&& final(buf)@.subrange(1, r as int) == data@
        },
{
    if data@.len() <= 255 && buf@.len() >= data@.len() + 1 {
        assert(final(buf)@.subrange(1, r as int) =~= data@);
    }
}

/// Reads on SPI carry the read flag on the register and zeros behind it.
pub proof fn spi_read_layout(len: usize, a: &mut [u8], b: &mut [u8], r: usize, s: usize)
    requires
        call_ensures(sle_spi::encode_spi_status_read, (a,), r),
        call_ensures(sle_spi::encode_spi_rx_read, (len, b), s),
        a@.len() >= 2,
        b@.len() > len,
    ensures
        r == 2 && final(a)@[0] == 0x80 && final(a)@[1] == 0,
        s == len + 1 && final(b)@[0] == 0x83,
        forall|i: int| 1 <= i <= len ==> final(b)@[i] == 0,
{
    assert(0x00u8 | 0x80 == 0x80 && 0x03u8 | 0x80 == 0x83) by (bit_vector);
    assert forall|i: int| 1 <= i <= len implies final(b)@[i] == 0 by {
        assert((seq![0x83u8] + bytes::zeros(len as int))[i] == 0);
    }
}

/// The two transfers of a data packet on SPI: the first announces twelve bits of the handle
/// and the length, the second holds the payload.
pub proof fn spi_packet_layout(
    c: &SpiController,
    handle: u16,
    payload: &[u8],
    hdr: &mut [u8],
    data: &mut [u8],
    r: (usize, usize),
)
    requires
        call_ensures(SpiController::prepare_data, (c, handle, payload, hdr, data), r),
        payload@.len() <= 255,
        hdr@.len() >= 6,
        data@.len() > payload@.len(),
    ensures
        r.0 == 6 && r.1 == payload@.len() + 1,
        final(hdr)@[0] == 0x01 && final(hdr)@[1] == 0xA3,
        final(hdr)@[2] + 0x100 * final(hdr)@[3] == handle % 0x1000,
        final(hdr)@[4] + 0x100 * final(hdr)@[5] == payload@.len(),
        final(data)@[0] == 0x02,
        final(data)@.subrange(1, r.1 as int) == payload@,
{
    assert(final(data)@.subrange(1, r.1 as int) =~= payload@);
}

/// The two transfers of a command on SPI.
pub proof fn spi_command_packet_layout(
    c: &SpiController,
    op: u16,
    params: &[u8],
    hdr: &mut [u8],
    data: &mut [u8],
    r: (usize, usize),
)
    requires
        call_ensures(SpiController::prepare_command, (c, op, params, hdr, data), r),
        params@.len() <= 255,
        hdr@.len() >= 5,
        data@.len() > params@.len(),
    ensures
        r.0 == 5,
        r.1 == (if params@.len() == 0 {
            0
        } else {
            params@.len() + 1
        }),
        final(hdr)@[0] == 0x01 && final(hdr)@[1] == 0xA1,
        spells(op, final(hdr)@[2], final(hdr)@[3]),
        final(hdr)@[4] == params@.len(),
        params@.len() > 0 ==> final(data)@[0] == 0x02 && final(data)@.subrange(1, r.1 as int)
            == params@,
{
    if params@.len() > 0 {
        assert(final(data)@.subrange(1, r.1 as int) =~= params@);
    }
}

/// An event in the receive FIFO is read back, whatever follows it.
pub proof fn spi_event_is_read(
    data: &[u8],
    r: Option<SpiFrame>,
    code: u16,
    params: Seq<u8>,
    rest: Seq<u8>,
)
    requires
        call_ensures(sle_spi::parse_spi_rx_frame, (data,), r),
        params.len() <= 0xFFFF,
        data@ == seq![
            0xA2u8,
            (code % 0x100) as u8,
            (code / 0x100) as u8,
            (params.len() % 0x100) as u8,
            (params.len() / 0x100) as u8,
        ] + params + rest,
    ensures
        r matches Some(SpiFrame::Event { event_code, params: p }) && event_code == code && p@
            == params,
{
    let n = 5 + params.len() as int;
    assert(bytes::le16(data@[3], data@[4]) == params.len());
    assert(data@.take(n).skip(5) =~= params);
    assert(r->0@ is Event);
}

/// Data in the receive FIFO are read back, whatever follows them.
pub proof fn spi_data_is_read(
    data: &[u8],
    r: Option<SpiFrame>,
    t: u8,
    handle: u16,
    flags: u8,
    payload: Seq<u8>,
    rest: Seq<u8>,
)
    requires
        call_ensures(sle_spi::parse_spi_rx_frame, (data,), r),
        0xA3 <= t <= 0xA5,
        handle < 0x1000,
        flags < 0x10,
        payload.len() <= 0xFFFF,
        data@ == seq![
            t,
            (handle % 0x100) as u8,
            (handle / 0x100 + 0x10 * flags) as u8,
            (payload.len() % 0x100) as u8,
            (payload.len() / 0x100) as u8,
        ] + payload + rest,
    ensures
        r matches Some(SpiFrame::Data { pkt_type, handle: h, flags: f, payload: p })
            && pkt_type.code() == t && h == handle && f == flags && p@ == payload,
{
    let n = 5 + payload.len() as int;
    assert(bytes::le16(data@[3], data@[4]) == payload.len());
    assert(data@.take(n).skip(5) =~= payload);
    assert(r->0@ is Data);
}

/// What is cut short or starts with another byte is no frame of the receive FIFO.
pub proof fn spi_frames(data: &[u8], r: Option<SpiFrame>)
    requires
        call_ensures(sle_spi::parse_spi_rx_frame, (data,), r),
    ensures
        r is None <==> data@.len() < 5 || data@[0] < 0xA2 || data@[0] > 0xA5 || data@.len() - 5
            < data@[3] + 0x100 * data@[4],
{
}

/// The header of a basic frame: channel, flags of which only that of the checksum may be
/// set, length, protocol information.
pub proof fn basic_frame_layout(
    buf: &mut [u8],
    tcid: u8,
    pi: u8,
    len: u16,
    crc: bool,
    r: usize,
)
    requires
        call_ensures(transport_frame::encode_basic_header, (buf, tcid, pi, len, crc), r),
        buf@.len() >= 5,
    ensures
        r == 5,
        final(buf)@[0] == tcid,
        final(buf)@[1] == (if crc {
            4u8
        } else {
            0
        }),
        spells(len, final(buf)@[2], final(buf)@[3]),
        final(buf)@[4] == pi,
        final(buf)@.skip(5) == old(buf)@.skip(5),
{
    assert(final(buf)@.skip(5) =~= buf@.skip(5));
}

/// The header of an enhanced frame: channel, kind in the upper four bits with the flags of
/// checksum and poll, length, protocol information, sequence number.
pub proof fn enhanced_frame_layout(
    buf: &mut [u8],
    tcid: u8,
    kind: u8,
    pi: u8,
    seq: u16,
    len: u16,
    poll: bool,
    r: usize,
)
    requires
        call_ensures(
            transport_frame::encode_enhanced_header,
            (buf, tcid, kind, pi, seq, len, poll),
            r,
        ),
        buf@.len() >= 7,
    ensures
        r == 7,
        final(buf)@[0] == tcid,
        final(buf)@[1] / 16 == kind % 16,
        final(buf)@[1] % 16 == (if poll {
            6int
        } else {
            4
        }),
        spells(len, final(buf)@[2], final(buf)@[3]),
        final(buf)@[4] == pi,
        final(buf)@[5] + 0x100 * final(buf)@[6] == seq % 0x4000,
        final(buf)@.skip(7) == old(buf)@.skip(7),
{
    assert(final(buf)@.skip(7) =~= buf@.skip(7));
}

/// A frame header is read bit by bit; one that is cut off is none.
pub proof fn frame_header_is_read(data: &[u8], r: Option<TransportHeader>)
    requires
        call_ensures(transport_frame::parse_transport_header, (data,), r),
    ensures
        r is None <==> data@.len() < 5 || (data@[1] >= 16 && data@.len() < 7),
        r matches Some(h) ==> {
            &&& h.tcid == data@[0]
            &&& h.frame_type == data@[1] / 16
            &&& h.outgoing == (data@[1] % 16 >= 8)
            &&& h.checksum == (data@[1] % 8 >= 4)
            &&& h.poll == (data@[1] % 4 >= 2)
            &&& spells(h.length, data@[2], data@[3])
            &&& h.pi == data@[4]
            &&& h.tx_seq == (if data@[1] >= 16 {
                (data@[5] + 0x100 * data@[6]) % 0x4000
            } else {
                0
            })
            &&& h.req_seq == (if data@[1] / 16 == 5 {
                h.tx_seq
            } else {
                0
            })
        },
{
}

/// Waiting events leave in the order in which they came, each with its device.
pub proof fn events_keep_their_order(
    ring: &mut ControllerEventRing,
    next: &mut ControllerEventRing,
    dev: Option<u16>,
    ev: SleEvent,
    r: Option<(Option<u16>, SleEvent)>,
)
    requires
        call_ensures(ControllerEventRing::push_tagged, (ring, dev, ev), ()),
        *next == *final(ring),
        call_ensures(ControllerEventRing::pop_tagged, (next,), r),
        ring@.len() < 31,
    ensures
        r == Some(
            if old(ring)@.len() == 0 {
                (dev, ev)
            } else {
                old(ring)@[0]
            },
        ),
        final(next)@.len() == old(ring)@.len(),
        old(ring)@.len() > 0 ==> final(next)@.last() == (dev, ev),
        forall|i: int| 1 <= i < old(ring)@.len() ==> final(next)@[i - 1] == old(ring)@[i],
{
}

/// A controller on a serial line sends commands and data in the same frames, and cuts what
/// comes in into frames.
pub proof fn uart_controller_frames(
    c: &UartController,
    op: u16,
    h: u16,
    params: &[u8],
    a: &mut [u8],
    b: &mut [u8],
    d: &mut [u8],
    e: &mut [u8],
    n: usize,
    m: usize,
    k: usize,
    l: usize,
)
    requires
        call_ensures(UartController::encode_tx_command, (c, op, params, a), n),
        call_ensures(sle_uart::encode_command, (op, params, b), m),
        call_ensures(UartController::encode_tx_data, (c, h, params, d), k),
        call_ensures(
            sle_uart::encode_data,
            (DliPacketType::AsyncUnicast, h, 0u8, params, e),
            l,
        ),
        a@ == b@,
        d@ == e@,
    ensures
        n == m && final(a)@ == final(b)@,
        k == l && final(d)@ == final(e)@,
{
}

/// A controller on a serial line that waits for a frame gets an encoded event back.
pub proof fn uart_controller_hears(
    code: u16,
    params: &[u8],
    buf: &mut [u8],
    n: usize,
    c: &mut UartController,
    data: &[u8],
    out: &mut Vec<UartFrame>,
)
    requires
        call_ensures(sle_uart::encode_event, (code, params, buf), n),
        n > 0,
        data@ == final(buf)@.take(n as int),
        c.unread().len() == 0,
        call_ensures(UartController::feed_rx, (c, data, out), ()),
    ensures
        final(c).unread().len() == 0,
        final(c).events() == old(c).events() && final(c).is_open() == old(c).is_open(),
        final(out)@.len() == old(out)@.len() + 1,
        final(out)@.last() matches UartFrame::Event { event_code, params: q } && event_code == code
            && q@ == params@,
{
    let f = FrameModel::Event { event_code: code, params: params@ };
    assert(data@ =~= sle_uart::frame_bytes(f));
    one_frame(f, c.unread(), data@);
    let a = sle_uart::frames_view(final(out)@);
    assert(a.len() == final(out)@.len());
    assert(sle_uart::frames_view(out@).len() == out@.len());
    assert(a.last() == f);
    assert(a.last() == final(out)@.last()@);
}

/// An event that comes in over the line of a device is handed on under the number of that
/// device; one that the stack knows joins those that wait.
pub proof fn line_hands_on(
    code: u16,
    params: &[u8],
    buf: &mut [u8],
    n: usize,
    s: &mut SerdevParserState,
    data: &[u8],
    r: Option<(u16, Vec<RawEvent>)>,
)
    requires
        call_ensures(sle_uart::encode_event, (code, params, buf), n),
        n > 0,
        data@ == final(buf)@.take(n as int),
        s.unread().len() == 0,
        call_ensures(SerdevParserState::feed_rx, (s, data), r),
    ensures
        final(s).unread().len() == 0,
        final(s).device() == old(s).device(),
        old(s).device() is None ==> r is None && final(s).waiting() == old(s).waiting(),
        old(s).device() matches Some(id) ==> (r matches Some(d) && d.0 == id && d.1@.len() == 1
            && d.1@[0].event_code == code && d.1@[0].params@ == params@),
        old(s).device() is Some && sle_usb::event_whole(code, params@) && old(s).waiting().len()
            < 31 ==> final(s).waiting().len() == old(s).waiting().len() + 1
            && final(s).waiting().drop_last() == old(s).waiting(),
        old(s).device() is Some && !sle_usb::event_whole(code, params@) ==> final(s).waiting()
            == old(s).waiting(),
{
    let f = FrameModel::Event { event_code: code, params: params@ };
    assert(data@ =~= sle_uart::frame_bytes(f));
    one_frame(f, s.unread(), data@);
    let fs = seq![f];
    let e = (code, params@);
    let es = sle_serdev::events_in(fs);
    assert(fs.drop_last() =~= Seq::<FrameModel>::empty());
    assert(sle_serdev::events_in(fs.drop_last()) =~= Seq::<(u16, Seq<u8>)>::empty());
    assert(es =~= seq![e]);
    if s.device() is Some {
        let d = r->0;
        assert(sle_serdev::raw_view(d.1@) == es);
        assert(sle_serdev::raw_view(d.1@).len() == d.1@.len());
        assert(sle_serdev::raw_view(d.1@)[0] == e);
        let mid = choose|mid: Seq<(Option<u16>, SleEvent)>|
            sle_serdev::all_join(es.drop_last(), s.waiting(), mid) && #[trigger] sle_serdev::joins(
                es.last().0,
                es.last().1,
                mid,
                final(s).waiting(),
            );
        assert(es.drop_last() =~= Seq::<(u16, Seq<u8>)>::empty());
        assert(mid == s.waiting());
        if sle_usb::event_whole(code, params@) && mid.len() < 31 {
            assert(final(s).waiting().drop_last() =~= mid);
        }
    }
}

/// A line starts without a device; it is routed to the one that is named and keeps what
/// waits.
pub proof fn line_is_routed(
    n: SerdevParserState,
    a: &mut SerdevParserState,
    id: u16,
    b: &mut Option<SerdevParserState>,
    c: &mut SerdevParserState,
    x: Option<SleEvent>,
)
    requires
        call_ensures(SerdevParserState::new, (), n),
        call_ensures(SerdevParserState::set_dev_id, (a, id), ()),
        call_ensures(sle_serdev::route_events, (b, id), ()),
        call_ensures(SerdevParserState::poll_event, (c,), x),
    ensures
        n.unread().len() == 0 && n.device() is None && n.waiting().len() == 0,
        final(a).device() == Some(id) && final(a).waiting() == old(a).waiting()
            && final(a).unread() == old(a).unread(),
        *final(b) is Some && (*final(b))->0.device() == Some(id),
        *old(b) is Some ==> (*final(b))->0.waiting() == (*old(b))->0.waiting() && (*final(b))->0.unread() == (*old(b))->0.unread(),
        *old(b) is None ==> (*final(b))->0.waiting().len() == 0,
        x is Some <==> old(c).waiting().len() > 0,
        x is Some ==> x->0 == old(c).waiting()[0].1 && final(c).waiting() == old(c).waiting().skip(1),
{
    if x is Some {
        assert(final(c).waiting() =~= c.waiting().skip(1));
    }
}

/// A command is a group and a number in it, and both come out of it again.
pub proof fn opcode_parts(ogf: u16, ocf: u16, r: u16, a: u16, b: u16)
    requires
        call_ensures(crate::sle_opcode::dli_opcode, (ogf, ocf), r),
        call_ensures(crate::sle_opcode::dli_ogf, (r,), a),
        call_ensures(crate::sle_opcode::dli_ocf, (r,), b),
        ogf < 64,
        ocf < 1024,
    ensures
        a == ogf && b == ocf,
        ogf == 1 ==> r == 0x400 + ocf,
{
}

/// The level that an advertiser tells first is the one that is read.
pub proof fn told_level_is_read(data: &[u8], level: u8, rest: Seq<u8>, r: u8)
    requires
        call_ensures(sle_usb::extract_discovery_level, (data,), r),
        level < 8,
        data@ == seq![0x01u8, 1, level] + rest,
    ensures
        r == level,
{
    sle_usb::leading_level_is_told(level, rest);
    let t = crate::sle_pdu::tlv(
        crate::sle_pdu::AdvDataType::DiscoveryLevel.code(),
        seq![(level % 8) as u8],
    );
    assert(t =~= seq![0x01u8, 1, level]);
}

} // verus!
