//! Framing over a serial line.
//!
//! A frame is a packet type byte, two bytes of opcode, event code or handle, the
//! payload length (one byte for commands, two for everything else) and the payload.
//! Numbers are little-endian.

use vstd::prelude::*;

use crate::bytes;
use crate::errno::Errno;
use crate::sle_dli;
use crate::sle_dli::{
    ControllerState, DliPacketType, SleBus, SleController, SleControllerInfo, SleEvent, SleFeature,
    SLE_MEAS_RSSI, SLE_SEC_AES_CCM, SLE_SEC_ECDH_P256, SLE_TRANSPORT_RELIABLE,
    SLE_TRANSPORT_UNRELIABLE,
};
use crate::sle_opcode::SleOpcode;

verus! {

/// Baud rate of a line that was not configured.
pub const DEFAULT_BAUD_RATE: u32 = 115_200;

/// Highest baud rate.
pub const MAX_BAUD_RATE: u32 = 3_000_000;

/// Bytes of a command frame before its parameters.
pub const CMD_HEADER_SIZE: usize = 4;

/// Bytes of an event frame before its parameters.
pub const EVENT_HEADER_SIZE: usize = 5;

/// Bytes of a data frame before its payload.
pub const DATA_HEADER_SIZE: usize = 5;

/// Longest payload of a frame.
pub const MAX_PAYLOAD_LEN: usize = 255;

/// A frame.
pub enum UartFrame {
    /// A command to the controller.
    Command { opcode: u16, params: Vec<u8> },
    /// An event from the controller.
    Event { event_code: u16, params: Vec<u8> },
    /// Data in either direction.
    Data { pkt_type: DliPacketType, handle: u16, flags: u8, payload: Vec<u8> },
}

/// A frame as a value.
#[verifier::ext_equal]
pub enum FrameModel {
    /// A command to the controller.
    Command { opcode: u16, params: Seq<u8> },
    /// An event from the controller.
    Event { event_code: u16, params: Seq<u8> },
    /// Data in either direction.
    Data { pkt_type: DliPacketType, handle: u16, flags: u8, payload: Seq<u8> },
}

impl View for UartFrame {
    type V = FrameModel;

    open spec fn view(&self) -> FrameModel {
        match *self {
            UartFrame::Command { opcode, params } => FrameModel::Command {
                opcode,
                params: params@,
            },
            UartFrame::Event { event_code, params } => FrameModel::Event {
                event_code,
                params: params@,
            },
            UartFrame::Data { pkt_type, handle, flags, payload } => FrameModel::Data {
                pkt_type,
                handle,
                flags,
                payload: payload@,
            },
        }
    }
}

/// Frames as values.
pub open spec fn frames_view(s: Seq<UartFrame>) -> Seq<FrameModel> {
    s.map_values(|f: UartFrame| f@)
}

/// Bytes before the payload in a frame that starts with byte `t`.
pub open spec fn header_len(t: u8) -> int {
    if t == 0xA1 {
        4
    } else {
        5
    }
}

/// The payload length that the header at the start of `q` tells.
pub open spec fn payload_len(q: Seq<u8>) -> int {
    if q[0] == 0xA1 {
        q[3] as int
    } else {
        bytes::le16(q[3], q[4]) as int
    }
}

/// The frame that the complete bytes `q` spell.
pub open spec fn frame_of(q: Seq<u8>) -> FrameModel {
    let w = bytes::le16(q[1], q[2]);
    let rest = q.skip(header_len(q[0]));
    if q[0] == 0xA1 {
        FrameModel::Command { opcode: w, params: rest }
    } else if q[0] == 0xA2 {
        FrameModel::Event { event_code: w, params: rest }
    } else {
        FrameModel::Data {
            pkt_type: DliPacketType::from_raw(q[0])->0,
            handle: (w % 0x1000) as u16,
            flags: (w / 0x1000) as u8,
            payload: rest,
        }
    }
}

/// What one more byte does to the bytes `p` of an unfinished frame: the bytes of the
/// unfinished frame after it, and the frame that it completes. A byte that starts no
/// frame is skipped, a frame that announces too long a payload is dropped.
pub open spec fn fed(p: Seq<u8>, b: u8) -> (Seq<u8>, Option<FrameModel>) {
    let q = p.push(b);
    if p.len() == 0 {
        if DliPacketType::from_raw(b) is Some {
            (q, None)
        } else {
            (p, None)
        }
    } else if q.len() < header_len(q[0]) {
        (q, None)
    } else if payload_len(q) > 255 {
        (Seq::empty(), None)
    } else if q.len() < header_len(q[0]) + payload_len(q) {
        (q, None)
    } else {
        (Seq::empty(), Some(frame_of(q)))
    }
}

/// What the bytes `d` do to the bytes `p` of an unfinished frame: the bytes of the
/// unfinished frame after them, and the frames that they complete.
pub open spec fn fed_all(p: Seq<u8>, d: Seq<u8>) -> (Seq<u8>, Seq<FrameModel>)
    decreases d.len(),
{
    if d.len() == 0 {
        (p, Seq::empty())
    } else {
        let (p1, out) = fed_all(p, d.drop_last());
        let (p2, f) = fed(p1, d.last());
        (
            p2,
            match f {
                Some(f) => out.push(f),
                None => out,
            },
        )
    }
}

/// Whether `p` are the first bytes of a frame, but not all of them.
pub open spec fn unfinished(p: Seq<u8>) -> bool {
    p.len() > 0 ==> {
        &&& DliPacketType::from_raw(p[0]) is Some
        &&& p.len() >= header_len(p[0]) ==> payload_len(p) <= 255 && p.len() < header_len(p[0])
            + payload_len(p)
    }
}

/// The bytes of a command frame.
pub open spec fn command_bytes(opcode: u16, params: Seq<u8>) -> Seq<u8> {
    seq![DliPacketType::Command.code()] + bytes::le16_bytes(opcode) + seq![params.len() as u8]
        + params
}

/// The bytes of an event frame.
pub open spec fn event_bytes(event_code: u16, params: Seq<u8>) -> Seq<u8> {
    seq![DliPacketType::Event.code()] + bytes::le16_bytes(event_code) + bytes::le16_bytes(
        params.len() as u16,
    ) + params
}

/// The bytes of a data frame: handle and flags share one number.
pub open spec fn data_bytes(t: DliPacketType, handle: u16, flags: u8, payload: Seq<u8>) -> Seq<u8> {
    seq![t.code()] + bytes::le16_bytes((handle % 0x1000 + 0x1000 * (flags % 0x10)) as u16)
        + bytes::le16_bytes(payload.len() as u16) + payload
}

/// The bytes of a frame.
pub open spec fn frame_bytes(f: FrameModel) -> Seq<u8> {
    match f {
        FrameModel::Command { opcode, params } => command_bytes(opcode, params),
        FrameModel::Event { event_code, params } => event_bytes(event_code, params),
        FrameModel::Data { pkt_type, handle, flags, payload } => data_bytes(
            pkt_type,
            handle,
            flags,
            payload,
        ),
    }
}

/// Whether a frame fits its fields: at most 255 bytes of payload, a handle of 12 bits
/// and flags of 4 bits.
pub open spec fn frame_ok(f: FrameModel) -> bool {
    match f {
        FrameModel::Command { opcode, params } => params.len() <= 255,
        FrameModel::Event { event_code, params } => params.len() <= 255,
        FrameModel::Data { pkt_type, handle, flags, payload } => {
            &&& payload.len() <= 255
            &&& handle < 0x1000
            &&& flags < 0x10
            &&& pkt_type != DliPacketType::Command
            &&& pkt_type != DliPacketType::Event
        },
    }
}

/// The bytes of several frames, one after the other.
pub open spec fn stream_bytes(fs: Seq<FrameModel>) -> Seq<u8>
    decreases fs.len(),
{
    if fs.len() == 0 {
        Seq::empty()
    } else {
        stream_bytes(fs.drop_last()) + frame_bytes(fs.last())
    }
}

/// How the bytes are cut into chunks does not matter.
pub proof fn fed_all_chunks(p: Seq<u8>, a: Seq<u8>, b: Seq<u8>)
    ensures
        fed_all(p, a + b) == (
            fed_all(fed_all(p, a).0, b).0,
            fed_all(p, a).1 + fed_all(fed_all(p, a).0, b).1,
        ),
    decreases b.len(),
{
    let (p1, o1) = fed_all(p, a);
    if b.len() == 0 {
        assert(a + b == a);
        assert(o1 + Seq::<FrameModel>::empty() == o1);
    } else {
        fed_all_chunks(p, a, b.drop_last());
        assert((a + b).drop_last() == a + b.drop_last());
        let (p2, o2) = fed_all(p1, b.drop_last());
        match fed(p2, b.last()).1 {
            Some(f) => {
                assert((o1 + o2).push(f) == o1 + o2.push(f));
            },
            None => {},
        }
    }
}

proof fn frame_prefix(f: FrameModel, i: int)
    requires
        frame_ok(f),
        0 <= i < frame_bytes(f).len(),
    ensures
        fed_all(Seq::empty(), frame_bytes(f).take(i)) == (
            frame_bytes(f).take(i),
            Seq::<FrameModel>::empty(),
        ),
    decreases i,
{
    let b = frame_bytes(f);
    if i > 0 {
        frame_prefix(f, i - 1);
        let d = b.take(i);
        assert(d.drop_last() == b.take(i - 1));
        assert(b.take(i - 1).push(d.last()) == d);
        assert(d[0] == b[0]);
        if i >= header_len(b[0]) {
            assert(payload_len(d) == payload_len(b));
        }
    } else {
        assert(b.take(0) == Seq::<u8>::empty());
    }
}

#[verifier::rlimit(60)]
#[verifier::spinoff_prover]
proof fn frame_whole(f: FrameModel)
    requires
        frame_ok(f),
    ensures
        fed_all(Seq::empty(), frame_bytes(f)) == (Seq::<u8>::empty(), seq![f]),
{
    let b = frame_bytes(f);
    let n = b.len() as int;
    frame_prefix(f, n - 1);
    assert(b.drop_last() == b.take(n - 1));
    assert(b.take(n - 1).push(b.last()) == b);
    match f {
        FrameModel::Command { opcode, params } => {
            assert(b.skip(4) == params);
        },
        FrameModel::Event { event_code, params } => {
            assert(b.skip(5) == params);
        },
        FrameModel::Data { pkt_type, handle, flags, payload } => {
            assert(b.skip(5) == payload);
        },
    }
    assert(frame_of(b) == f);
    assert(Seq::<FrameModel>::empty().push(f) == seq![f]);
}

/// A receiver that waits for a frame gets exactly the frames that were sent, in
/// order, and waits for a frame again.
pub proof fn stream_round_trip(fs: Seq<FrameModel>)
    requires
        forall|i: int| 0 <= i < fs.len() ==> frame_ok(#[trigger] fs[i]),
    ensures
        fed_all(Seq::empty(), stream_bytes(fs)) == (Seq::<u8>::empty(), fs),
    decreases fs.len(),
{
    if fs.len() > 0 {
        let g = fs.drop_last();
        assert forall|i: int| 0 <= i < g.len() implies frame_ok(#[trigger] g[i]) by {
            assert(g[i] == fs[i]);
        }
        stream_round_trip(g);
        frame_whole(fs.last());
        fed_all_chunks(Seq::empty(), stream_bytes(g), frame_bytes(fs.last()));
        assert(g + seq![fs.last()] == fs);
    } else {
        assert(fs == Seq::<FrameModel>::empty());
    }
}

#[derive(Clone, Copy, Debug, PartialEq, Eq, Structural)]
enum RxState {
    /// Waits for a packet type byte.
    WaitType,
    /// Has `count` of `expected` header bytes behind the type byte.
    ReadHeader { pkt_type: DliPacketType, count: usize, expected: usize },
    /// Has `count` of `expected` payload bytes.
    ReadPayload { pkt_type: DliPacketType, count: usize, expected: usize },
}

/// Cuts a stream of bytes into frames.
pub struct UartParser {
    state: RxState,
    header: [u8; 4],
    payload: Vec<u8>,
}

impl UartParser {
    spec fn head(self, t: DliPacketType, n: int) -> Seq<u8> {
        seq![t.code()] + self.header@.take(n)
    }

    /// The counters fit the bytes that were kept.
    pub closed spec fn wf(self) -> bool {
        match self.state {
            RxState::WaitType => self.payload@.len() == 0,
            RxState::ReadHeader { pkt_type, count, expected } => {
                &&& self.payload@.len() == 0
                &&& count < expected
                &&& expected == header_len(pkt_type.code()) - 1
            },
            RxState::ReadPayload { pkt_type, count, expected } => {
                &&& self.payload@.len() == count
                &&& count < expected <= 255
                &&& expected == payload_len(self.head(pkt_type, header_len(pkt_type.code()) - 1))
            },
        }
    }

    /// The bytes of the unfinished frame.
    pub closed spec fn view(self) -> Seq<u8> {
        match self.state {
            RxState::WaitType => Seq::empty(),
            RxState::ReadHeader { pkt_type, count, expected } => self.head(pkt_type, count as int),
            RxState::ReadPayload { pkt_type, count, expected } => self.head(
                pkt_type,
                header_len(pkt_type.code()) - 1,
            ) + self.payload@,
        }
    }

    /// What a parser keeps is never a whole frame.
    pub proof fn keeps_unfinished(self)
        requires
            self.wf(),
        ensures
            unfinished(self@),
    {
        match self.state {
            RxState::ReadPayload { pkt_type, count, expected } => {
                let h = self.head(pkt_type, header_len(pkt_type.code()) - 1);
                assert(payload_len(h + self.payload@) == payload_len(h));
            },
            _ => {},
        }
    }

    /// A parser that waits for a frame.
    pub fn new() -> (r: Self)
        ensures
            r.wf(),
            r@ == Seq::<u8>::empty(),
    {
        UartParser { state: RxState::WaitType, header: [0u8; 4], payload: Vec::new() }
    }

    /// Drops the unfinished frame.
    pub fn reset(&mut self)
        ensures
            final(self).wf(),
            final(self)@ == Seq::<u8>::empty(),
    {
        self.state = RxState::WaitType;
        self.payload.clear();
    }

    /// Takes in one byte and returns the frame that it completes, if any.
    #[verifier::rlimit(60)]
    #[verifier::spinoff_prover]
    pub fn feed(&mut self, byte: u8) -> (r: Option<UartFrame>)
        requires
            old(self).wf(),
        ensures
            final(self).wf(),
            final(self)@ == fed(old(self)@, byte).0,
            match r {
                Some(f) => fed(old(self)@, byte).1 == Some(f@),
                None => fed(old(self)@, byte).1 is None,
            },
    {
        let ghost q = self@.push(byte);
        match self.state {
            RxState::WaitType => {
                let pkt_type = match DliPacketType::from_raw(byte) {
                    Some(t) => t,
                    None => {
                        return None;
                    },
                };
                let expected: usize = match pkt_type {
                    DliPacketType::Command => 3,
                    _ => 4,
                };
                self.state = RxState::ReadHeader { pkt_type, count: 0, expected };
                assert(self@ == q);
                None
            },
            RxState::ReadHeader { pkt_type, count, expected } => {
                self.header[count] = byte;
                let new_count = count + 1;
                let ghost h = self.head(pkt_type, new_count as int);
                assert(h == q);
                if new_count < expected {
                    self.state = RxState::ReadHeader { pkt_type, count: new_count, expected };
                    return None;
                }
                let payload_len: usize = match pkt_type {
                    DliPacketType::Command => self.header[2] as usize,
                    _ => bytes::le16(self.header[2], self.header[3]) as usize,
                };
                assert(payload_len == self::payload_len(q));
                if payload_len == 0 {
                    let frame = self.build_frame(pkt_type);
                    assert(q.skip(header_len(q[0])) == Seq::<u8>::empty());
                    self.reset();
                    return Some(frame);
                }
                if payload_len > MAX_PAYLOAD_LEN {
                    self.reset();
                    return None;
                }
                self.payload.clear();
                self.state = RxState::ReadPayload { pkt_type, count: 0, expected: payload_len };
                assert(self@ == q);
                None
            },
            RxState::ReadPayload { pkt_type, count, expected } => {
                let ghost h = self.head(pkt_type, header_len(pkt_type.code()) - 1);
                self.payload.push(byte);
                let new_count = count + 1;
                assert(h + self.payload@ == q);
                assert(self::payload_len(q) == self::payload_len(h));
                if new_count < expected {
                    self.state = RxState::ReadPayload { pkt_type, count: new_count, expected };
                    assert(self@ == q);
                    return None;
                }
                assert(q.skip(header_len(q[0])) == self.payload@);
                let frame = self.build_frame(pkt_type);
                self.reset();
                Some(frame)
            },
        }
    }

    /// Takes in bytes and appends the frames that they complete to `out`.
    pub fn feed_bytes(&mut self, data: &[u8], out: &mut Vec<UartFrame>)
        requires
            old(self).wf(),
        ensures
            final(self).wf(),
            final(self)@ == fed_all(old(self)@, data@).0,
            frames_view(final(out)@) == frames_view(old(out)@) + fed_all(old(self)@, data@).1,
    {
        let mut i: usize = 0;
        assert(frames_view(out@) + Seq::<FrameModel>::empty() == frames_view(out@));
        assert(data@.take(0) == Seq::<u8>::empty());
        while i < data.len()
            invariant
                i <= data.len(),
                self.wf(),
                self@ == fed_all(old(self)@, data@.take(i as int)).0,
                frames_view(out@) == frames_view(old(out)@) + fed_all(
                    old(self)@,
                    data@.take(i as int),
                ).1,
            decreases data.len() - i,
        {
            let ghost before = frames_view(out@);
            assert(data@.take(i + 1).drop_last() == data@.take(i as int));
            match self.feed(data[i]) {
                Some(frame) => {
                    out.push(frame);
                    assert(frames_view(out@) == before.push(frame@));
                    assert(before.push(frame@) == frames_view(old(out)@) + fed_all(
                        old(self)@,
                        data@.take(i + 1),
                    ).1);
                },
                None => {},
            }
            i = i + 1;
        }
        assert(data@.take(i as int) == data@);
    }

    fn build_frame(&mut self, pkt_type: DliPacketType) -> (r: UartFrame)
        ensures
            r@ == frame_of(
                old(self).head(pkt_type, header_len(pkt_type.code()) - 1) + old(self).payload@,
            ),
    {
        let ghost q = self.head(pkt_type, header_len(pkt_type.code()) - 1) + self.payload@;
        let mut payload: Vec<u8> = Vec::new();
        core::mem::swap(&mut payload, &mut self.payload);
        assert(q.skip(header_len(q[0])) == payload@);
        let w = bytes::le16(self.header[0], self.header[1]);
        match pkt_type {
            DliPacketType::Command => UartFrame::Command { opcode: w, params: payload },
            DliPacketType::Event => UartFrame::Event { event_code: w, params: payload },
            _ => UartFrame::Data {
                pkt_type,
                handle: w % 0x1000,
                flags: (w / 0x1000) as u8,
                payload,
            },
        }
    }
}

/// What an encoder does: the bytes `b` overwrite the start of the buffer, or nothing
/// happens and 0 is returned where they do not fit or the payload is too long.
pub open spec fn put_frame(
    n: int,
    b: Seq<u8>,
    before: Seq<u8>,
    after: Seq<u8>,
    r: usize,
) -> bool {
    if n > 255 || before.len() < b.len() {
        r == 0 && after == before
    } else {
        r == b.len() && after == bytes::splice(before, 0, b)
    }
}

/// Writes a command frame to the start of `buf` and returns its length.
pub fn encode_command(opcode: u16, params: &[u8], buf: &mut [u8]) -> (r: usize)
    ensures
        put_frame(
            params@.len() as int,
            command_bytes(opcode, params@),
            old(buf)@,
            final(buf)@,
            r,
        ),
{
    if params.len() > MAX_PAYLOAD_LEN || buf.len() < CMD_HEADER_SIZE + params.len() {
        return 0;
    }
    let mut v: Vec<u8> = vec![
        DliPacketType::Command.code(),
        bytes::lo8(opcode),
        bytes::hi8(opcode),
        params.len() as u8,
    ];
    bytes::extend(&mut v, params);
    assert(v@ == command_bytes(opcode, params@));
    bytes::put_slice(buf, v.as_slice());
    v.len()
}

/// Writes an event frame to the start of `buf` and returns its length.
pub fn encode_event(event_code: u16, params: &[u8], buf: &mut [u8]) -> (r: usize)
    ensures
        put_frame(
            params@.len() as int,
            event_bytes(event_code, params@),
            old(buf)@,
            final(buf)@,
            r,
        ),
{
    if params.len() > MAX_PAYLOAD_LEN || buf.len() < EVENT_HEADER_SIZE + params.len() {
        return 0;
    }
    let mut v: Vec<u8> = vec![DliPacketType::Event.code()];
    bytes::push_le16(&mut v, event_code);
    bytes::push_le16(&mut v, params.len() as u16);
    bytes::extend(&mut v, params);
    assert(v@ == event_bytes(event_code, params@));
    bytes::put_slice(buf, v.as_slice());
    v.len()
}

/// Writes a data frame to the start of `buf` and returns its length. The handle is
/// cut to 12 bits, the flags to 4 bits.
pub fn encode_data(
    pkt_type: DliPacketType,
    handle: u16,
    flags: u8,
    payload: &[u8],
    buf: &mut [u8],
) -> (r: usize)
    ensures
        put_frame(
            payload@.len() as int,
            data_bytes(pkt_type, handle, flags, payload@),
            old(buf)@,
            final(buf)@,
            r,
        ),
{
    if payload.len() > MAX_PAYLOAD_LEN || buf.len() < DATA_HEADER_SIZE + payload.len() {
        return 0;
    }
    let mut v: Vec<u8> = vec![pkt_type.code()];
    bytes::push_le16(&mut v, handle % 0x1000 + 0x1000 * ((flags % 0x10) as u16));
    bytes::push_le16(&mut v, payload.len() as u16);
    bytes::extend(&mut v, payload);
    assert(v@ == data_bytes(pkt_type, handle, flags, payload@));
    bytes::put_slice(buf, v.as_slice());
    v.len()
}

/// Settings of a serial line.
#[derive(Clone, Copy, Debug)]
pub struct UartConfig {
    /// Baud rate.
    pub baud_rate: u32,
    /// Hardware flow control.
    pub hw_flow_ctrl: bool,
}

impl Default for UartConfig {
    fn default() -> (r: Self)
        ensures
            r == (UartConfig { baud_rate: DEFAULT_BAUD_RATE, hw_flow_ctrl: true }),
    {
        UartConfig { baud_rate: DEFAULT_BAUD_RATE, hw_flow_ctrl: true }
    }
}

/// A controller on a serial line.
pub struct UartController {
    addr: [u8; 6],
    config: UartConfig,
    parser: UartParser,
    state: ControllerState,
}

impl UartController {
    /// The address of the controller.
    pub closed spec fn addr(self) -> Seq<u8> {
        self.addr@
    }

    /// The settings of the line.
    pub closed spec fn line(self) -> UartConfig {
        self.config
    }

    /// The received bytes that make no frame yet.
    pub closed spec fn unread(self) -> Seq<u8> {
        self.parser@
    }

    /// Whether the controller is open.
    pub closed spec fn is_open(self) -> bool {
        self.state.is_open()
    }

    /// The events that wait, oldest first.
    pub closed spec fn events(self) -> Seq<SleEvent> {
        self.state.events()
    }

    /// Whether only the events may differ from those of `old`.
    pub open spec fn same_line(self, old_self: Self) -> bool {
        &&& self.addr() == old_self.addr()
        &&& self.line() == old_self.line()
        &&& self.unread() == old_self.unread()
    }

    /// A closed controller.
    pub fn new(addr: [u8; 6], config: UartConfig) -> (r: Self)
        ensures
            r.wf(),
            r.addr() == addr@,
            r.line() == config,
            r.unread() == Seq::<u8>::empty(),
            !r.is_open(),
            r.events() == Seq::<SleEvent>::empty(),
    {
        UartController { addr, config, parser: UartParser::new(), state: ControllerState::new() }
    }

    /// The settings of the line.
    pub fn config(&self) -> (r: &UartConfig)
        ensures
            *r == self.line(),
    {
        &self.config
    }

    /// Sets the baud rate, or returns `EINVAL` where it is 0 or too high.
    pub fn set_baud_rate(&mut self, rate: u32) -> (r: Result<(), Errno>)
        ensures
            final(self).wf() == old(self).wf(),
            final(self).addr() == old(self).addr(),
            final(self).unread() == old(self).unread(),
            final(self).is_open() == old(self).is_open(),
            final(self).events() == old(self).events(),
            if 0 < rate <= MAX_BAUD_RATE {
                r == Ok::<(), Errno>(()) && final(self).line() == (UartConfig {
                    baud_rate: rate,
                    ..old(self).line()
                })
            } else {
                r == Err::<(), Errno>(Errno::EINVAL) && final(self).line() == old(self).line()
            },
    {
        if rate == 0 || rate > MAX_BAUD_RATE {
            return Err(Errno::EINVAL);
        }
        self.config.baud_rate = rate;
        Ok(())
    }

    /// Takes in received bytes and appends the frames that they complete to `frames`.
    pub fn feed_rx(&mut self, data: &[u8], frames: &mut Vec<UartFrame>)
        requires
            old(self).wf(),
        ensures
            final(self).wf(),
            final(self).addr() == old(self).addr(),
            final(self).line() == old(self).line(),
            final(self).is_open() == old(self).is_open(),
            final(self).events() == old(self).events(),
            final(self).unread() == fed_all(old(self).unread(), data@).0,
            frames_view(final(frames)@) == frames_view(old(frames)@) + fed_all(
                old(self).unread(),
                data@,
            ).1,
    {
        self.parser.feed_bytes(data, frames);
    }

    /// Writes a command frame to the start of `buf` and returns its length.
    pub fn encode_tx_command(&self, opcode: u16, params: &[u8], buf: &mut [u8]) -> (r: usize)
        ensures
            put_frame(
                params@.len() as int,
                command_bytes(opcode, params@),
                old(buf)@,
                final(buf)@,
                r,
            ),
    {
        encode_command(opcode, params, buf)
    }

    /// Writes an asynchronous data frame to the start of `buf` and returns its length.
    pub fn encode_tx_data(&self, handle: u16, data: &[u8], buf: &mut [u8]) -> (r: usize)
        ensures
            put_frame(
                data@.len() as int,
                data_bytes(DliPacketType::AsyncUnicast, handle, 0, data@),
                old(buf)@,
                final(buf)@,
                r,
            ),
    {
        encode_data(DliPacketType::AsyncUnicast, handle, 0, data, buf)
    }
}

/// What a command does to the events and what it answers: it ends well, or is refused
/// with `EINVAL` where its parameters are too long for a frame.
pub open spec fn uart_sent(
    before: Seq<SleEvent>,
    opcode: SleOpcode,
    params: Seq<u8>,
    after: Seq<SleEvent>,
    r: Result<(), Errno>,
) -> bool {
    if params.len() > 255 {
        r == Err::<(), Errno>(Errno::EINVAL) && after == before
    } else {
        r == Ok::<(), Errno>(()) && sle_dli::completed(before, opcode, after)
    }
}

/// The name "sparklink-uart".
pub open spec fn uart_name() -> Seq<u8> {
    seq![0x73u8, 0x70, 0x61, 0x72, 0x6B, 0x6C, 0x69, 0x6E, 0x6B, 0x2D, 0x75, 0x61, 0x72, 0x74]
}

/// Whether `r` describes a controller on a serial line with address `addr`.
pub open spec fn uart_info(r: SleControllerInfo, addr: Seq<u8>) -> bool {
    &&& r.name@ == bytes::padded(uart_name(), 32)
    &&& r.bus == SleBus::Uart
    &&& r.addr@ == addr
    &&& r.fw_version == 0x0001_0000
    &&& r.features == SleFeature::Encryption.mask() | SleFeature::Mcs4.mask()
        | SleFeature::Pilot8to1.mask() | SleFeature::Crc32.mask()
        | SleFeature::DataLenUpdate.mask()
    &&& r.max_pdu_payload == 255
    &&& r.max_connections == 4
    &&& r.max_mtu == 512
    &&& r.max_mps == 255
    &&& r.transport_modes == SLE_TRANSPORT_UNRELIABLE | SLE_TRANSPORT_RELIABLE
    &&& r.measurement_cap == SLE_MEAS_RSSI
    &&& r.security_cap == SLE_SEC_AES_CCM | SLE_SEC_ECDH_P256
}

impl SleController for UartController {
    closed spec fn wf(&self) -> bool {
        self.state.wf() && self.parser.wf()
    }

    fn info(&self) -> (r: SleControllerInfo)
        ensures
            uart_info(r, self.addr()),
    {
        let name = [0x73u8, 0x70, 0x61, 0x72, 0x6B, 0x6C, 0x69, 0x6E, 0x6B, 0x2D, 0x75, 0x61, 0x72, 0x74];
        assert(name@ == uart_name());
        SleControllerInfo {
            name: bytes::to_array(name.as_slice()),
            bus: SleBus::Uart,
            addr: self.addr,
            fw_version: 0x0001_0000,
            features: SleFeature::Encryption.mask() | SleFeature::Mcs4.mask()
                | SleFeature::Pilot8to1.mask() | SleFeature::Crc32.mask()
                | SleFeature::DataLenUpdate.mask(),
            max_pdu_payload: 255,
            max_connections: 4,
            max_mtu: 512,
            max_mps: 255,
            transport_modes: SLE_TRANSPORT_UNRELIABLE | SLE_TRANSPORT_RELIABLE,
            measurement_cap: SLE_MEAS_RSSI,
            security_cap: SLE_SEC_AES_CCM | SLE_SEC_ECDH_P256,
        }
    }

    fn open(&mut self) -> (r: Result<(), Errno>)
        ensures
            final(self).is_open(),
            final(self).same_line(*old(self)),
            final(self).events() == old(self).events(),
            r == (if old(self).is_open() {
                Err::<(), Errno>(Errno::EBUSY)
            } else {
                Ok::<(), Errno>(())
            }),
    {
        self.state.open()
    }

    fn close(&mut self)
        ensures
            !final(self).is_open(),
            final(self).same_line(*old(self)),
            final(self).events() == old(self).events(),
    {
        self.state.close();
    }

    fn send_command(&mut self, opcode: SleOpcode, params: &[u8]) -> (r: Result<(), Errno>)
        ensures
            final(self).is_open() == old(self).is_open(),
            final(self).same_line(*old(self)),
            uart_sent(old(self).events(), opcode, params@, final(self).events(), r),
    {
        let mut buf: [u8; 259] = [0u8; 259];
        let len = encode_command(opcode.code(), params, &mut buf);
        if len == 0 {
            return Err(Errno::EINVAL);
        }
        self.state.complete(opcode);
        Ok(())
    }

    fn send_data(&mut self, handle: u16, data: &[u8]) -> (r: Result<(), Errno>)
        ensures
            *final(self) == *old(self),
            r == (if data@.len() > 255 {
                Err::<(), Errno>(Errno::EINVAL)
            } else {
                Ok::<(), Errno>(())
            }),
    {
        let mut buf: [u8; 260] = [0u8; 260];
        let len = encode_data(DliPacketType::AsyncUnicast, handle, 0, data, &mut buf);
        if len == 0 {
            return Err(Errno::EINVAL);
        }
        Ok(())
    }

    fn poll_event(&mut self) -> (r: Option<SleEvent>)
        ensures
            final(self).is_open() == old(self).is_open(),
            final(self).same_line(*old(self)),
            match r {
                Some(e) => old(self).events().len() > 0 && e == old(self).events()[0]
                    && final(self).events() == old(self).events().drop_first(),
                None => old(self).events().len() == 0 && final(self).events()
                    == old(self).events(),
            },
    {
        self.state.poll_event()
    }

    fn reset(&mut self) -> (r: Result<(), Errno>)
        ensures
            r == Ok::<(), Errno>(()),
            *final(self) == *old(self),
    {
        Ok(())
    }
}

} // verus!
