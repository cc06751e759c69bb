//! Events on their way to programs: one queue for each reader, and one ring that all
//! readers share.

use vstd::prelude::*;

use crate::bytes;
use crate::event_payload::{
    AdvReportEvent, BroadcastEndEvent, CommandCompleteEvent, CommandStatusEvent,
    ConnParamUpdateEvent, ConnStateEvent, DataBufOverflowEvent, DataLenChangeEvent,
    DataReceivedEvent, EncryptionParamReqEvent, EventPayload, HardwareErrorEvent,
    NumCompletedPacketsEvent, PeerConnParamReqEvent, PhyUpdateEvent, PowerChangeReportEvent,
    PowerEvent, SecurityEvent, SleEventType,
};
use crate::ring;

verus! {

/// Longest payload of an event.
pub const EVENT_PAYLOAD_MAX: usize = 40;

/// Bytes of an event.
pub const WIRE_EVENT_SIZE: usize = 44;

/// Most events of a queue.
pub const EVENT_QUEUE_MAX: usize = 64;

/// Most events of the ring.
pub const BROADCAST_RING_SIZE: usize = 128;

/// An event as programs read it.
#[derive(Clone, Copy)]
pub struct SleWireEvent {
    /// Kind.
    pub event_type: u8,
    /// Length of the payload.
    pub payload_len: u8,
    /// The payload, then zeros.
    pub payload: [u8; 40],
    /// Zeros.
    pub pad: [u8; 2],
}

/// An event as a value.
#[verifier::ext_equal]
pub struct WireModel {
    /// Kind.
    pub event_type: u8,
    /// Length of the payload.
    pub payload_len: u8,
    /// The payload, then zeros.
    pub payload: Seq<u8>,
    /// Zeros.
    pub pad: Seq<u8>,
}

impl View for SleWireEvent {
    type V = WireModel;

    open spec fn view(&self) -> WireModel {
        WireModel {
            event_type: self.event_type,
            payload_len: self.payload_len,
            payload: self.payload@,
            pad: self.pad@,
        }
    }
}

/// The event of a kind that tells `data`, cut to 40 bytes.
pub open spec fn event_of(t: SleEventType, data: Seq<u8>) -> WireModel {
    WireModel {
        event_type: t.code(),
        payload_len: bytes::prefix(data, EVENT_PAYLOAD_MAX as int).len() as u8,
        payload: bytes::padded(data, EVENT_PAYLOAD_MAX as int),
        pad: bytes::zeros(2),
    }
}

impl WireModel {
    /// The bytes of the event.
    pub open spec fn bytes(self) -> Seq<u8> {
        seq![self.event_type, self.payload_len] + self.payload + self.pad
    }
}

/// The payload of an event is read back from its bytes.
pub proof fn event_tells(t: SleEventType, data: Seq<u8>)
    requires
        data.len() <= EVENT_PAYLOAD_MAX,
    ensures
        event_of(t, data).bytes().len() == WIRE_EVENT_SIZE,
        event_of(t, data).bytes()[0] == t.code(),
        event_of(t, data).bytes()[1] == data.len(),
        event_of(t, data).bytes().subrange(2, 2 + data.len() as int) == data,
{
    assert(event_of(t, data).bytes().subrange(2, 2 + data.len() as int) =~= data);
}

impl SleWireEvent {
    /// Length of kind, length and payload, up to a multiple of four.
    pub fn wire_size(&self) -> (r: usize)
        ensures
            r == (2 + self.payload_len + 3) / 4 * 4,
    {
        (2 + self.payload_len as usize + 3) / 4 * 4
    }

    /// The bytes of the event.
    pub fn as_bytes(&self) -> (r: Vec<u8>)
        ensures
            r@ == self@.bytes(),
            r@.len() == WIRE_EVENT_SIZE,
    {
        let mut v: Vec<u8> = Vec::new();
        v.push(self.event_type);
        v.push(self.payload_len);
        bytes::extend(&mut v, &self.payload);
        bytes::extend(&mut v, &self.pad);
        assert(v@ =~= self@.bytes());
        v
    }

    fn from_payload<T: EventPayload>(event_type: SleEventType, payload: &T) -> (r: Self)
        ensures
            r@ == event_of(event_type, payload.wire()),
    {
        let data = payload.to_bytes();
        let n = bytes::min_usize(data.len(), EVENT_PAYLOAD_MAX);
        SleWireEvent {
            event_type: event_type.code(),
            payload_len: n as u8,
            payload: bytes::to_array(data.as_slice()),
            pad: [0u8; 2],
        }
    }

    /// The event of a kind that tells `payload`, cut to 40 bytes.
    pub fn from_payload_pub<T: EventPayload>(event_type: SleEventType, payload: &T) -> (r: Self)
        ensures
            r@ == event_of(event_type, payload.wire()),
    {
        Self::from_payload(event_type, payload)
    }

    /// The state of a connection changed.
    pub fn conn_state(handle: u16, old_state: u8, new_state: u8, peer_addr: [u8; 6], reason: u8) -> (r: Self)
        ensures
            r@ == event_of(SleEventType::ConnStateChanged, bytes::le16_bytes(handle) + seq![new_state, old_state] + peer_addr@ + seq![reason, 0u8]),
    {
        let payload = ConnStateEvent {
            handle,
            new_state,
            old_state,
            peer_addr,
            reason,
            pad: 0,
        };
        assert(payload.wire() =~= bytes::le16_bytes(handle) + seq![new_state, old_state] + peer_addr@ + seq![reason, 0u8]);
        Self::from_payload(SleEventType::ConnStateChanged, &payload)
    }

    /// Data arrived on a connection.
    pub fn data_received(handle: u16, rx_bytes: u16) -> (r: Self)
        ensures
            r@ == event_of(SleEventType::DataReceived, bytes::le16_bytes(handle) + bytes::le16_bytes(rx_bytes)),
    {
        let payload = DataReceivedEvent {
            handle,
            rx_bytes,
        };
        assert(payload.wire() =~= bytes::le16_bytes(handle) + bytes::le16_bytes(rx_bytes));
        Self::from_payload(SleEventType::DataReceived, &payload)
    }

    /// The hardware failed.
    pub fn hardware_error(error_code: u8) -> (r: Self)
        ensures
            r@ == event_of(SleEventType::HardwareError, seq![error_code, 0u8, 0, 0]),
    {
        let payload = HardwareErrorEvent {
            error_code,
            pad: [0u8; 3],
        };
        assert(payload.wire() =~= seq![error_code, 0u8, 0, 0]);
        Self::from_payload(SleEventType::HardwareError, &payload)
    }

    /// A command was accepted or refused.
    pub fn command_status(opcode: u16, status: u8) -> (r: Self)
        ensures
            r@ == event_of(SleEventType::CommandStatus, bytes::le16_bytes(opcode) + seq![status, 0u8]),
    {
        let payload = CommandStatusEvent {
            opcode,
            status,
            pad: 0,
        };
        assert(payload.wire() =~= bytes::le16_bytes(opcode) + seq![status, 0u8]);
        Self::from_payload(SleEventType::CommandStatus, &payload)
    }

    /// Advertising ended.
    pub fn broadcast_end(reason: u8) -> (r: Self)
        ensures
            r@ == event_of(SleEventType::BroadcastEnd, seq![reason, 0u8, 0, 0]),
    {
        let payload = BroadcastEndEvent {
            reason,
            pad: [0u8; 3],
        };
        assert(payload.wire() =~= seq![reason, 0u8, 0, 0]);
        Self::from_payload(SleEventType::BroadcastEnd, &payload)
    }

    /// The radio parameters of a connection changed.
    pub fn phy_update(handle: u16, mcs_index: u8, bandwidth_mhz: u8) -> (r: Self)
        ensures
            r@ == event_of(SleEventType::PhyUpdate, bytes::le16_bytes(handle) + seq![mcs_index, bandwidth_mhz]),
    {
        let payload = PhyUpdateEvent {
            handle,
            mcs_index,
            bandwidth_mhz,
        };
        assert(payload.wire() =~= bytes::le16_bytes(handle) + seq![mcs_index, bandwidth_mhz]);
        Self::from_payload(SleEventType::PhyUpdate, &payload)
    }

    /// The timing of a connection changed.
    pub fn conn_param_update(handle: u16, interval: u16, latency: u16, timeout: u16) -> (r: Self)
        ensures
            r@ == event_of(SleEventType::ConnParamUpdate, bytes::le16_bytes(handle) + bytes::le16_bytes(interval) + bytes::le16_bytes(latency) + bytes::le16_bytes(timeout)),
    {
        let payload = ConnParamUpdateEvent {
            handle,
            interval,
            latency,
            timeout,
        };
        assert(payload.wire() =~= bytes::le16_bytes(handle) + bytes::le16_bytes(interval) + bytes::le16_bytes(latency) + bytes::le16_bytes(timeout));
        Self::from_payload(SleEventType::ConnParamUpdate, &payload)
    }

    /// The packet sizes of a connection changed.
    pub fn data_len_change(handle: u16, max_tx: u16, max_rx: u16) -> (r: Self)
        ensures
            r@ == event_of(SleEventType::DataLenChange, bytes::le16_bytes(handle) + bytes::le16_bytes(max_tx) + bytes::le16_bytes(max_rx) + bytes::le16_bytes(0)),
    {
        let payload = DataLenChangeEvent {
            handle,
            max_tx_octets: max_tx,
            max_rx_octets: max_rx,
            pad: 0,
        };
        assert(payload.wire() =~= bytes::le16_bytes(handle) + bytes::le16_bytes(max_tx) + bytes::le16_bytes(max_rx) + bytes::le16_bytes(0));
        Self::from_payload(SleEventType::DataLenChange, &payload)
    }

    /// The buffer of the controller overflowed.
    pub fn data_buf_overflow(link_type: u8) -> (r: Self)
        ensures
            r@ == event_of(SleEventType::DataBufOverflow, seq![link_type, 0u8, 0, 0]),
    {
        let payload = DataBufOverflowEvent {
            link_type,
            pad: [0u8; 3],
        };
        assert(payload.wire() =~= seq![link_type, 0u8, 0, 0]);
        Self::from_payload(SleEventType::DataBufOverflow, &payload)
    }

    /// The peer asks for another timing.
    pub fn peer_conn_param_req(handle: u16, interval_min: u16, interval_max: u16, latency: u16, timeout: u16) -> (r: Self)
        ensures
            r@ == event_of(SleEventType::PeerConnParamReq, bytes::le16_bytes(handle) + bytes::le16_bytes(interval_min) + bytes::le16_bytes(interval_max) + bytes::le16_bytes(latency) + bytes::le16_bytes(timeout) + bytes::le16_bytes(0)),
    {
        let payload = PeerConnParamReqEvent {
            handle,
            interval_min,
            interval_max,
            latency,
            timeout,
            pad: 0,
        };
        assert(payload.wire() =~= bytes::le16_bytes(handle) + bytes::le16_bytes(interval_min) + bytes::le16_bytes(interval_max) + bytes::le16_bytes(latency) + bytes::le16_bytes(timeout) + bytes::le16_bytes(0));
        Self::from_payload(SleEventType::PeerConnParamReq, &payload)
    }

    /// The transmit power changed.
    pub fn power_change_report(handle: u16, reason: u8, frame_type: u8, bandwidth: u8, pilot_density: u8, tx_power: i8, power_level: u8, offset: i8) -> (r: Self)
        ensures
            r@ == event_of(SleEventType::PowerChangeReport, bytes::le16_bytes(handle) + seq![reason, frame_type, bandwidth, pilot_density, bytes::i8_byte(tx_power), power_level, bytes::i8_byte(offset), 0u8]),
    {
        let payload = PowerChangeReportEvent {
            handle,
            reason,
            frame_type,
            bandwidth,
            pilot_density,
            tx_power,
            power_level,
            offset,
            pad: 0,
        };
        assert(payload.wire() =~= bytes::le16_bytes(handle) + seq![reason, frame_type, bandwidth, pilot_density, bytes::i8_byte(tx_power), power_level, bytes::i8_byte(offset), 0u8]);
        Self::from_payload(SleEventType::PowerChangeReport, &payload)
    }

    /// Packets were sent.
    pub fn num_completed_packets(handle: u16, num_completed: u8) -> (r: Self)
        ensures
            r@ == event_of(SleEventType::NumCompletedPackets, bytes::le16_bytes(handle) + seq![num_completed, 0u8]),
    {
        let payload = NumCompletedPacketsEvent {
            handle,
            num_completed,
            pad: 0,
        };
        assert(payload.wire() =~= bytes::le16_bytes(handle) + seq![num_completed, 0u8]);
        Self::from_payload(SleEventType::NumCompletedPackets, &payload)
    }

    /// The controller asks for encryption parameters.
    pub fn encryption_param_req(handle: u16) -> (r: Self)
        ensures
            r@ == event_of(SleEventType::EncryptionParamReq, bytes::le16_bytes(handle) + seq![0u8, 0]),
    {
        let payload = EncryptionParamReqEvent {
            handle,
            pad: [0u8; 2],
        };
        assert(payload.wire() =~= bytes::le16_bytes(handle) + seq![0u8, 0]);
        Self::from_payload(SleEventType::EncryptionParamReq, &payload)
    }

    /// The security of a connection changed.
    fn security_changed(state: u8, method: u8, encrypted: u8) -> (r: Self)
        ensures
            r@ == event_of(SleEventType::SecurityChanged, seq![state, method, encrypted, 0u8]),
    {
        let payload = SecurityEvent {
            state,
            method,
            encrypted,
            pad: 0,
        };
        assert(payload.wire() =~= seq![state, method, encrypted, 0u8]);
        Self::from_payload(SleEventType::SecurityChanged, &payload)
    }

    /// Power saving changed.
    fn power_changed(state: u8, power_pct: u8) -> (r: Self)
        ensures
            r@ == event_of(SleEventType::PowerChanged, seq![state, power_pct, 0u8, 0]),
    {
        let payload = PowerEvent {
            state,
            power_pct,
            pad: [0u8; 2],
        };
        assert(payload.wire() =~= seq![state, power_pct, 0u8, 0]);
        Self::from_payload(SleEventType::PowerChanged, &payload)
    }

    /// An advertiser was heard; its name is cut to 31 bytes.
    pub fn adv_report(addr: [u8; 6], rssi: i8, discovery_level: u8, name: &[u8]) -> (r: Self)
        ensures
            r@ == event_of(
                SleEventType::AdvReport,
                adv_report_bytes(addr@, rssi, discovery_level, name@),
            ),
    {
        let evt = AdvReportEvent {
            addr,
            rssi,
            discovery_level,
            name_len: bytes::min_usize(name.len(), 31) as u8,
            name: bytes::to_array(name),
        };
        assert(evt.wire() =~= adv_report_bytes(addr@, rssi, discovery_level, name@));
        Self::from_payload(SleEventType::AdvReport, &evt)
    }

    /// A command was carried out; what it returned is cut to 32 bytes.
    pub fn command_complete(opcode: u16, status: u8, data: &[u8]) -> (r: Self)
        ensures
            r@ == event_of(
                SleEventType::CommandComplete,
                bytes::le16_bytes(opcode) + seq![
                    status,
                    bytes::prefix(data@, 32).len() as u8,
                ] + bytes::padded(data@, 32),
            ),
    {
        let evt = CommandCompleteEvent {
            opcode,
            status,
            data_len: bytes::min_usize(data.len(), 32) as u8,
            data: bytes::to_array(data),
        };
        assert(evt.wire() =~= bytes::le16_bytes(opcode) + seq![
            status,
            bytes::prefix(data@, 32).len() as u8,
        ] + bytes::padded(data@, 32));
        Self::from_payload(SleEventType::CommandComplete, &evt)
    }
}

/// What the report of an advertiser tells.
pub open spec fn adv_report_bytes(addr: Seq<u8>, rssi: i8, level: u8, name: Seq<u8>) -> Seq<u8> {
    addr + seq![bytes::i8_byte(rssi), level, bytes::prefix(name, 31).len() as u8] + bytes::padded(
        name,
        31,
    )
}

/// The events of a reader that it has not read yet.
pub struct EventQueue {
    buf: Vec<SleWireEvent>,
    head: usize,
    count: usize,
    total_enqueued: u64,
    total_dropped: u64,
    total_delivered: u64,
}

/// The events of a reader as a value.
#[verifier::ext_equal]
pub struct QueueModel {
    /// Events, oldest first.
    pub events: Seq<WireModel>,
    /// Events that came in.
    pub enqueued: u64,
    /// Events that were dropped.
    pub dropped: u64,
    /// Events that were read.
    pub delivered: u64,
}

impl View for EventQueue {
    type V = QueueModel;

    closed spec fn view(&self) -> QueueModel {
        QueueModel {
            events: ring::ring(self.buf@, self.head as int, self.count as int).map_values(
                |e: SleWireEvent| e@,
            ),
            enqueued: self.total_enqueued,
            dropped: self.total_dropped,
            delivered: self.total_delivered,
        }
    }
}

impl QueueModel {
    /// After an event came in: the oldest one is dropped where the queue is full.
    pub open spec fn pushed(self, e: WireModel) -> QueueModel {
        if self.events.len() >= EVENT_QUEUE_MAX {
            QueueModel {
                events: self.events.drop_first().push(e),
                enqueued: (self.enqueued + 1) as u64,
                dropped: (self.dropped + 1) as u64,
                ..self
            }
        } else {
            QueueModel {
                events: self.events.push(e),
                enqueued: (self.enqueued + 1) as u64,
                ..self
            }
        }
    }

    /// After some events came in, one after the other.
    pub open spec fn pushed_all(self, es: Seq<WireModel>) -> QueueModel
        decreases es.len(),
    {
        if es.len() == 0 {
            self
        } else {
            self.pushed_all(es.drop_last()).pushed(es.last())
        }
    }

    /// After `n` events were read.
    pub open spec fn read(self, n: int) -> QueueModel {
        QueueModel {
            events: self.events.skip(n),
            delivered: (self.delivered + n) as u64,
            ..self
        }
    }

    /// No counter reaches its limit by `n` more events.
    pub open spec fn countable(self, n: int) -> bool {
        self.enqueued + n <= u64::MAX && self.dropped + n <= u64::MAX && self.delivered
            + self.events.len() <= u64::MAX
    }
}

/// The bytes of some events, one after the other.
pub open spec fn events_bytes(es: Seq<WireModel>) -> Seq<u8>
    decreases es.len(),
{
    if es.len() == 0 {
        Seq::empty()
    } else {
        events_bytes(es.drop_last()) + es.last().bytes()
    }
}

impl EventQueue {
    /// The ring has 64 slots, and every event fits its bytes.
    pub closed spec fn wf(self) -> bool {
        self.buf@.len() == EVENT_QUEUE_MAX && self.head < EVENT_QUEUE_MAX && self.count
            <= EVENT_QUEUE_MAX
    }

    /// At most 64 events wait, and each has 44 bytes.
    pub proof fn bounded(self)
        requires
            self.wf(),
        ensures
            self@.events.len() <= EVENT_QUEUE_MAX,
            forall|i: int|
                0 <= i < self@.events.len() ==> (#[trigger] self@.events[i]).bytes().len()
                    == WIRE_EVENT_SIZE,
    {
        assert forall|i: int| 0 <= i < self@.events.len() implies (
        #[trigger] self@.events[i]).bytes().len() == WIRE_EVENT_SIZE by {
            let e = self.buf@[ring::wrap(self.head + i, 64)];
            assert(self@.events[i] == e@);
        }
    }

    /// No events.
    pub fn new() -> (r: Self)
        ensures
            r.wf(),
            r@ == (QueueModel { events: Seq::empty(), enqueued: 0, dropped: 0, delivered: 0 }),
    {
        let blank = SleWireEvent {
            event_type: 0,
            payload_len: 0,
            payload: [0u8; 40],
            pad: [0u8; 2],
        };
        let mut buf: Vec<SleWireEvent> = Vec::new();
        let mut i: usize = 0;
        while i < EVENT_QUEUE_MAX
            invariant
                i <= EVENT_QUEUE_MAX,
                buf@.len() == i,
            decreases EVENT_QUEUE_MAX - i,
        {
            buf.push(blank);
            i = i + 1;
        }
        let r = EventQueue {
            buf,
            head: 0,
            count: 0,
            total_enqueued: 0,
            total_dropped: 0,
            total_delivered: 0,
        };
        assert(r@.events =~= Seq::empty());
        r
    }

    /// Number of events.
    pub fn pending(&self) -> (r: usize)
        ensures
            r == self@.events.len(),
    {
        self.count
    }

    /// Whether there are events.
    pub fn has_events(&self) -> (r: bool)
        ensures
            r == (self@.events.len() > 0),
    {
        self.count > 0
    }

    /// Events that came in so far.
    pub fn total_enqueued(&self) -> (r: u64)
        ensures
            r == self@.enqueued,
    {
        self.total_enqueued
    }

    /// Events that were dropped so far.
    pub fn total_dropped(&self) -> (r: u64)
        ensures
            r == self@.dropped,
    {
        self.total_dropped
    }

    /// Events that were read so far.
    pub fn total_delivered(&self) -> (r: u64)
        ensures
            r == self@.delivered,
    {
        self.total_delivered
    }

    /// Takes an event in; the oldest one is dropped where the queue is full.
    pub fn push_raw(&mut self, wire: SleWireEvent)
        requires
            old(self).wf(),
            old(self)@.countable(1),
        ensures
            final(self).wf(),
            final(self)@ == old(self)@.pushed(wire@),
    {
        let ghost before = self@.events;
        if self.count >= EVENT_QUEUE_MAX {
            proof {
                ring::ring_pop(self.buf@, self.head as int, self.count as int, wire);
            }
            self.head = (self.head + 1) % EVENT_QUEUE_MAX;
            self.count = self.count - 1;
            self.total_dropped = self.total_dropped + 1;
            assert(self@.events =~= before.drop_first());
        }
        let ghost mid = self@.events;
        proof {
            ring::ring_push(self.buf@, self.head as int, self.count as int, wire);
        }
        let tail = (self.head + self.count) % EVENT_QUEUE_MAX;
        self.buf.set(tail, wire);
        self.count = self.count + 1;
        self.total_enqueued = self.total_enqueued + 1;
        assert(self@.events =~= mid.push(wire@));
    }

    /// Reads the oldest event, if there is one.
    pub fn dequeue(&mut self) -> (r: Option<SleWireEvent>)
        requires
            old(self).wf(),
            old(self)@.countable(0),
        ensures
            final(self).wf(),
            match r {
                Some(e) => old(self)@.events.len() > 0 && e@ == old(self)@.events[0]
                    && final(self)@ == old(self)@.read(1),
                None => old(self)@.events.len() == 0 && final(self)@ == old(self)@,
            },
    {
        if self.count == 0 {
            return None;
        }
        let evt = self.buf[self.head];
        proof {
            ring::ring_pop(self.buf@, self.head as int, self.count as int, evt);
        }
        self.head = (self.head + 1) % EVENT_QUEUE_MAX;
        self.count = self.count - 1;
        self.total_delivered = self.total_delivered + 1;
        assert(self@.events =~= old(self)@.events.skip(1));
        Some(evt)
    }

    /// Reads as many events as fit whole into `buf`, writes them to its start and returns
    /// how many bytes they take.
    pub fn drain_to_buf(&mut self, buf: &mut [u8]) -> (r: usize)
        requires
            old(self).wf(),
            old(self)@.countable(0),
        ensures
            final(self).wf(),
            ({
                let room = old(buf)@.len() / WIRE_EVENT_SIZE as nat;
                let n = if old(self)@.events.len() <= room {
                    old(self)@.events.len()
                } else {
                    room
                };
                &&& r == WIRE_EVENT_SIZE * n
                &&& final(self)@ == old(self)@.read(n as int)
                &&& final(buf)@ == bytes::splice(
                    old(buf)@,
                    0,
                    events_bytes(old(self)@.events.take(n as int)),
                )
            }),
    {
        let ghost start = self@;
        let mut out: Vec<u8> = Vec::new();
        let ghost mut n: int = 0;
        proof {
            self.bounded();
            assert(start.read(0) =~= start);
        }
        while self.count > 0 && buf.len() - out.len() >= WIRE_EVENT_SIZE
            invariant
                self.wf(),
                start == old(self)@,
                start.countable(0),
                buf@ == old(buf)@,
                0 <= n <= start.events.len() <= EVENT_QUEUE_MAX,
                self@ == start.read(n),
                out@ == events_bytes(start.events.take(n)),
                out@.len() == WIRE_EVENT_SIZE * n,
                out@.len() <= buf@.len(),
            decreases self.count,
        {
            match self.dequeue() {
                Some(evt) => {
                    let b = evt.as_bytes();
                    bytes::extend(&mut out, b.as_slice());
                    proof {
                        let t = start.events.take(n + 1);
                        assert(t.drop_last() =~= start.events.take(n));
                        assert(t.last() == start.events[n]);
                        assert(start.read(n).events[0] == start.events[n]);
                        assert(start.events.skip(n).skip(1) =~= start.events.skip(n + 1));
                        n = n + 1;
                        assert(self@ =~= start.read(n));
                    }
                },
                None => {},
            }
        }
        bytes::put_slice(buf, out.as_slice());
        proof {
            let room = (old(buf)@.len() / WIRE_EVENT_SIZE as nat) as int;
            assert(self@.events.len() == self.count);
            assert(self@.events == start.events.skip(n));
            assert(n <= room);
            assert(n == start.events.len() || n == room);
        }
        out.len()
    }

    /// The state of a connection changed.
    pub fn push_conn_state(&mut self, handle: u16, old_state: u8, new_state: u8, peer_addr: [u8; 6], reason: u8)
        requires
            old(self).wf(),
            old(self)@.countable(1),
        ensures
            final(self).wf(),
            final(self)@ == old(self)@.pushed(event_of(SleEventType::ConnStateChanged, bytes::le16_bytes(handle) + seq![new_state, old_state] + peer_addr@ + seq![reason, 0u8])),
    {
        self.push_raw(SleWireEvent::conn_state(handle, old_state, new_state, peer_addr, reason));
    }

    /// Data arrived on a connection.
    pub fn push_data_received(&mut self, handle: u16, rx_bytes: u16)
        requires
            old(self).wf(),
            old(self)@.countable(1),
        ensures
            final(self).wf(),
            final(self)@ == old(self)@.pushed(event_of(SleEventType::DataReceived, bytes::le16_bytes(handle) + bytes::le16_bytes(rx_bytes))),
    {
        self.push_raw(SleWireEvent::data_received(handle, rx_bytes));
    }

    /// The hardware failed.
    pub fn push_hardware_error(&mut self, error_code: u8)
        requires
            old(self).wf(),
            old(self)@.countable(1),
        ensures
            final(self).wf(),
            final(self)@ == old(self)@.pushed(event_of(SleEventType::HardwareError, seq![error_code, 0u8, 0, 0])),
    {
        self.push_raw(SleWireEvent::hardware_error(error_code));
    }

    /// The transmit power changed.
    pub fn push_power_change_report(&mut self, handle: u16, reason: u8, frame_type: u8, bandwidth: u8, pilot_density: u8, tx_power: i8, power_level: u8, offset: i8)
        requires
            old(self).wf(),
            old(self)@.countable(1),
        ensures
            final(self).wf(),
            final(self)@ == old(self)@.pushed(event_of(SleEventType::PowerChangeReport, bytes::le16_bytes(handle) + seq![reason, frame_type, bandwidth, pilot_density, bytes::i8_byte(tx_power), power_level, bytes::i8_byte(offset), 0u8])),
    {
        self.push_raw(SleWireEvent::power_change_report(handle, reason, frame_type, bandwidth, pilot_density, tx_power, power_level, offset));
    }

    /// Packets were sent.
    pub fn push_num_completed_packets(&mut self, handle: u16, num_completed: u8)
        requires
            old(self).wf(),
            old(self)@.countable(1),
        ensures
            final(self).wf(),
            final(self)@ == old(self)@.pushed(event_of(SleEventType::NumCompletedPackets, bytes::le16_bytes(handle) + seq![num_completed, 0u8])),
    {
        self.push_raw(SleWireEvent::num_completed_packets(handle, num_completed));
    }

    /// The controller asks for encryption parameters.
    pub fn push_encryption_param_req(&mut self, handle: u16)
        requires
            old(self).wf(),
            old(self)@.countable(1),
        ensures
            final(self).wf(),
            final(self)@ == old(self)@.pushed(event_of(SleEventType::EncryptionParamReq, bytes::le16_bytes(handle) + seq![0u8, 0])),
    {
        self.push_raw(SleWireEvent::encryption_param_req(handle));
    }

    /// The security of a connection changed.
    pub fn push_security_changed(&mut self, state: u8, method: u8, encrypted: u8)
        requires
            old(self).wf(),
            old(self)@.countable(1),
        ensures
            final(self).wf(),
            final(self)@ == old(self)@.pushed(event_of(SleEventType::SecurityChanged, seq![state, method, encrypted, 0u8])),
    {
        self.push_raw(SleWireEvent::security_changed(state, method, encrypted));
    }

    /// Power saving changed.
    pub fn push_power_changed(&mut self, state: u8, power_pct: u8)
        requires
            old(self).wf(),
            old(self)@.countable(1),
        ensures
            final(self).wf(),
            final(self)@ == old(self)@.pushed(event_of(SleEventType::PowerChanged, seq![state, power_pct, 0u8, 0])),
    {
        self.push_raw(SleWireEvent::power_changed(state, power_pct));
    }

    /// An advertiser was heard; its name is cut to 31 bytes.
    pub fn push_adv_report(&mut self, addr: [u8; 6], rssi: i8, discovery_level: u8, name: &[u8])
        requires
            old(self).wf(),
            old(self)@.countable(1),
        ensures
            final(self).wf(),
            final(self)@ == old(self)@.pushed(
                event_of(
                    SleEventType::AdvReport,
                    adv_report_bytes(addr@, rssi, discovery_level, name@),
                ),
            ),
    {
        self.push_raw(SleWireEvent::adv_report(addr, rssi, discovery_level, name));
    }
}

/// Events come out of a queue in the order in which they came in: one that is read next
/// is the oldest one, and new ones go behind all others.
pub proof fn queue_is_in_order(q: QueueModel, e: WireModel)
    requires
        0 < q.events.len() < EVENT_QUEUE_MAX,
    ensures
        q.pushed(e).events[0] == q.events[0],
        q.pushed(e).read(1).events == q.read(1).pushed(e).events,
        q.pushed(e).dropped == q.dropped,
{
    assert(q.pushed(e).read(1).events =~= q.read(1).pushed(e).events);
}

/// Every event that came in was read, was dropped or waits.
pub proof fn queue_balance(q: QueueModel, e: WireModel)
    requires
        q.countable(1),
        q.enqueued == q.dropped + q.delivered + q.events.len(),
    ensures
        q.pushed(e).enqueued == q.pushed(e).dropped + q.pushed(e).delivered
            + q.pushed(e).events.len(),
        q.events.len() > 0 ==> q.read(1).enqueued == q.read(1).dropped + q.read(1).delivered
            + q.read(1).events.len(),
{
}

/// An event of the ring and its number.
#[derive(Clone, Copy)]
pub struct BroadcastEntry {
    /// Number.
    pub seq: u64,
    /// Event.
    pub event: SleWireEvent,
}

/// The last events, which every reader copies to its own queue. Events are numbered, and a
/// reader keeps the number of the last one it has copied.
pub struct BroadcastRing {
    buf: Vec<BroadcastEntry>,
    head: usize,
    count: usize,
    last_seq: u64,
}

/// The last events as a value.
#[verifier::ext_equal]
pub struct RingModel {
    /// Number and event, oldest first.
    pub entries: Seq<(u64, WireModel)>,
    /// Number of the last event, 0 for none.
    pub last_seq: u64,
}

impl View for BroadcastRing {
    type V = RingModel;

    closed spec fn view(&self) -> RingModel {
        RingModel {
            entries: ring::ring(self.buf@, self.head as int, self.count as int).map_values(
                |e: BroadcastEntry| (e.seq, e.event@),
            ),
            last_seq: self.last_seq,
        }
    }
}

impl RingModel {
    /// The events are numbered one after the other up to the last one, and there are as
    /// many as were published, or 128.
    pub open spec fn wf(self) -> bool {
        &&& self.entries.len() == (if self.last_seq < BROADCAST_RING_SIZE {
            self.last_seq as int
        } else {
            BROADCAST_RING_SIZE as int
        })
        &&& forall|i: int|
            0 <= i < self.entries.len() ==> (#[trigger] self.entries[i]).0 == self.last_seq
                - self.entries.len() + 1 + i
    }

    /// After an event was published.
    pub open spec fn published(self, e: WireModel) -> RingModel {
        let seq = (self.last_seq + 1) as u64;
        RingModel {
            entries: (if self.entries.len() >= BROADCAST_RING_SIZE {
                self.entries.drop_first()
            } else {
                self.entries
            }).push((seq, e)),
            last_seq: seq,
        }
    }

    /// The events with a number above `after`, oldest first.
    pub open spec fn newer(self, after: u64) -> Seq<WireModel> {
        self.newer_below(after, self.entries.len() as int)
    }

    /// Those of the first `n` events with a number above `after`, oldest first.
    pub open spec fn newer_below(self, after: u64, n: int) -> Seq<WireModel>
        decreases n,
    {
        if n <= 0 {
            Seq::empty()
        } else if self.entries[n - 1].0 > after {
            self.newer_below(after, n - 1).push(self.entries[n - 1].1)
        } else {
            self.newer_below(after, n - 1)
        }
    }
}

impl BroadcastRing {
    /// The ring has 128 slots, and its events are numbered one after the other.
    pub closed spec fn wf(self) -> bool {
        &&& self.buf@.len() == BROADCAST_RING_SIZE
        &&& self.head < BROADCAST_RING_SIZE
        &&& self.count <= BROADCAST_RING_SIZE
        &&& self@.wf()
    }

    /// The numbers and events are well formed.
    pub proof fn numbered(self)
        requires
            self.wf(),
        ensures
            self@.wf(),
    {
    }

    /// No events.
    pub fn new() -> (r: Self)
        ensures
            r.wf(),
            r@ == (RingModel { entries: Seq::empty(), last_seq: 0 }),
    {
        let blank = BroadcastEntry {
            seq: 0,
            event: SleWireEvent {
                event_type: 0,
                payload_len: 0,
                payload: [0u8; 40],
                pad: [0u8; 2],
            },
        };
        let mut buf: Vec<BroadcastEntry> = Vec::new();
        let mut i: usize = 0;
        while i < BROADCAST_RING_SIZE
            invariant
                i <= BROADCAST_RING_SIZE,
                buf@.len() == i,
            decreases BROADCAST_RING_SIZE - i,
        {
            buf.push(blank);
            i = i + 1;
        }
        let r = BroadcastRing { buf, head: 0, count: 0, last_seq: 0 };
        assert(r@.entries =~= Seq::empty());
        r
    }

    /// Publishes an event and returns its number.
    #[verifier::rlimit(60)]
    #[verifier::spinoff_prover]
    pub fn publish(&mut self, event: SleWireEvent) -> (r: u64)
        requires
            old(self).wf(),
            old(self)@.last_seq < u64::MAX,
        ensures
            final(self).wf(),
            r == old(self)@.last_seq + 1,
            final(self)@ == old(self)@.published(event@),
    {
        let seq = self.last_seq + 1;
        let entry = BroadcastEntry { seq, event };
        let ghost before = self@.entries;
        if self.count >= BROADCAST_RING_SIZE {
            proof {
                ring::ring_pop(self.buf@, self.head as int, self.count as int, entry);
            }
            self.head = (self.head + 1) % BROADCAST_RING_SIZE;
            self.count = self.count - 1;
            assert(self@.entries =~= before.drop_first());
        }
        let ghost mid = self@.entries;
        proof {
            ring::ring_push(self.buf@, self.head as int, self.count as int, entry);
        }
        let pos = (self.head + self.count) % BROADCAST_RING_SIZE;
        self.buf.set(pos, entry);
        self.count = self.count + 1;
        self.last_seq = seq;
        proof {
            assert(self@.entries =~= mid.push((seq, event@)));
            assert(self@ =~= old(self)@.published(event@));
            publish_keeps(old(self)@, event@);
        }
        seq
    }

    /// The number of the last event, 0 for none.
    pub fn current_seq(&self) -> (r: u64)
        ensures
            r == self@.last_seq,
    {
        self.last_seq
    }

    /// Copies the events with a number above `after_seq` to the queue of a reader. Returns
    /// how many there were, and the number of the last one.
    pub fn drain_since(&self, after_seq: u64, dst: &mut EventQueue) -> (r: (usize, u64))
        requires
            self.wf(),
            old(dst).wf(),
            old(dst)@.countable(128),
            old(dst)@.delivered <= u64::MAX - EVENT_QUEUE_MAX,
        ensures
            final(dst).wf(),
            final(dst)@ == old(dst)@.pushed_all(self@.newer(after_seq)),
            r.0 == self@.newer(after_seq).len(),
            r.1 == (if self@.newer(after_seq).len() > 0 {
                self@.last_seq
            } else {
                after_seq
            }),
    {
        let mut copied: usize = 0;
        let mut new_seq = after_seq;
        let mut i: usize = 0;
        while i < self.count
            invariant
                i <= self.count,
                self.wf(),
                dst.wf(),
                copied <= i,
                copied == self@.newer_below(after_seq, i as int).len(),
                dst@ == old(dst)@.pushed_all(self@.newer_below(after_seq, i as int)),
                old(dst)@.enqueued + 128 <= u64::MAX,
                old(dst)@.dropped + 128 <= u64::MAX,
                old(dst)@.delivered <= u64::MAX - EVENT_QUEUE_MAX,
                dst@.enqueued == old(dst)@.enqueued + copied,
                dst@.dropped <= old(dst)@.dropped + copied,
                dst@.delivered == old(dst)@.delivered,
                new_seq == (if copied > 0 {
                    self@.entries[i - 1].0
                } else {
                    after_seq
                }),
                copied > 0 ==> self@.entries[i - 1].0 > after_seq,
            decreases self.count - i,
        {
            let idx = (self.head + i) % BROADCAST_RING_SIZE;
            let entry = self.buf[idx];
            proof {
                assert(self@.entries[i as int] == (entry.seq, entry.event@));
                dst.bounded();
                if i > 0 {
                    assert(self@.entries[i - 1].0 < self@.entries[i as int].0);
                }
            }
            if entry.seq > after_seq {
                let ghost prev = self@.newer_below(after_seq, i as int);
                dst.push_raw(entry.event);
                copied = copied + 1;
                if entry.seq > new_seq {
                    new_seq = entry.seq;
                }
                proof {
                    let now = self@.newer_below(after_seq, i + 1);
                    assert(now.drop_last() =~= prev);
                    assert(now.last() == entry.event@);
                }
            }
            i = i + 1;
        }
        (copied, new_seq)
    }
}

proof fn publish_keeps(m: RingModel, e: WireModel)
    requires
        m.wf(),
        m.last_seq < u64::MAX,
    ensures
        m.published(e).wf(),
{
    let n = m.published(e);
    assert forall|i: int| 0 <= i < n.entries.len() implies (#[trigger] n.entries[i]).0
        == n.last_seq - n.entries.len() + 1 + i by {
        if i < n.entries.len() - 1 {
            if m.entries.len() >= BROADCAST_RING_SIZE {
                assert(n.entries[i] == m.entries[i + 1]);
            } else {
                assert(n.entries[i] == m.entries[i]);
            }
        }
    }
}

proof fn newer_count(m: RingModel, after: u64, n: int)
    requires
        m.wf(),
        0 <= n <= m.entries.len(),
        after <= m.last_seq,
        m.last_seq - after <= m.entries.len(),
    ensures
        m.newer_below(after, n).len() == (if n > m.entries.len() - (m.last_seq - after) {
            n - (m.entries.len() - (m.last_seq - after))
        } else {
            0
        }),
    decreases n,
{
    if n > 0 {
        newer_count(m, after, n - 1);
        assert(m.entries[n - 1].0 == m.last_seq - m.entries.len() + n);
    }
}

/// A reader that is at most 128 events behind misses none of them: it gets as many as
/// were published since, and is then up to date.
pub proof fn reader_misses_nothing(m: RingModel, after: u64)
    requires
        m.wf(),
        after <= m.last_seq,
        m.last_seq - after <= BROADCAST_RING_SIZE,
    ensures
        m.newer(after).len() == m.last_seq - after,
        m.newer(m.last_seq).len() == 0,
{
    newer_count(m, after, m.entries.len() as int);
    newer_count(m, m.last_seq, m.entries.len() as int);
}

} // verus!
