//! Laws of events: what they tell, and how they reach their readers.

use vstd::prelude::*;

use crate::bytes;
use crate::event_payload::{EventPayload, SleEventType};
use crate::laws::payload::{s8, w16};
use crate::sle_event;
use crate::sle_event::{
    BroadcastRing, EventQueue, QueueModel, RingModel, SleWireEvent, WireModel,
};

verus! {

/// Whether an event has a kind and tells `n` bytes, with zeros behind them.
pub open spec fn told(e: WireModel, kind: u8, n: int) -> bool {
    &&& e.event_type == kind
    &&& e.payload_len == n
    &&& e.payload.len() == 40
    &&& forall|i: int| n <= i < 40 ==> #[trigger] e.payload[i] == 0
    &&& e.pad.len() == 2
    &&& e.pad[0] == 0 && e.pad[1] == 0
}

/// Whether an event came in behind those that waited, of which the first is dropped where
/// there are 64.
pub open spec fn came_in(a: QueueModel, b: QueueModel) -> bool {
    &&& b.events.len() > 0
    &&& a.events.len() < 64 ==> b.events.drop_last() == a.events && b.dropped == a.dropped
    &&& a.events.len() >= 64 ==> b.events.drop_last() == a.events.skip(1) && b.dropped == a.dropped
        + 1
    &&& b.enqueued == a.enqueued + 1
    &&& b.delivered == a.delivered
}

proof fn pushed_came_in(a: QueueModel, e: WireModel)
    requires
        a.countable(1),
    ensures
        came_in(a, a.pushed(e)),
        a.pushed(e).events.last() == e,
{
    if a.events.len() < 64 {
        assert(a.pushed(e).events.drop_last() =~= a.events);
    } else {
        assert(a.pushed(e).events.drop_last() =~= a.events.skip(1));
    }
}

/// An event that is handed in comes in as it is.
pub proof fn event_comes_in(q: &mut EventQueue, e: SleWireEvent)
    requires
        call_ensures(EventQueue::push_raw, (q, e), ()),
        q@.countable(1),
    ensures
        came_in(old(q)@, final(q)@),
        final(q)@.events.last() == e@,
{
    pushed_came_in(q@, e@);
}

/// An event of any kind tells the bytes of its payload, of which 40 count.
pub proof fn event_of_payload<T: EventPayload>(
    t: SleEventType,
    x: &T,
    v: Vec<u8>,
    r: SleWireEvent,
)
    requires
        call_ensures(SleWireEvent::from_payload_pub::<T>, (t, x), r),
        call_ensures(<T as EventPayload>::to_bytes, (x,), v),
    ensures
        r.event_type == t.code(),
        v@.len() <= 40 ==> told(r@, t.code(), v@.len() as int) && r.payload@.take(v@.len() as int)
            == v@,
        v@.len() > 40 ==> told(r@, t.code(), 40) && r.payload@ == v@.take(40),
{
    assert(r@.event_type == r.event_type);
    if v@.len() <= 40 {
        assert(r.payload@.take(v@.len() as int) =~= v@);
    } else {
        assert(r.payload@ =~= v@.take(40));
    }
}

/// The bytes of an event: kind, length, payload, zeros.
pub proof fn event_bytes(e: &SleWireEvent, v: Vec<u8>, n: usize)
    requires
        call_ensures(SleWireEvent::as_bytes, (e,), v),
        call_ensures(SleWireEvent::wire_size, (e,), n),
    ensures
        v@.len() == 44,
        v@[0] == e.event_type,
        v@[1] == e.payload_len,
        v@.subrange(2, 42) == e.payload@,
        v@.subrange(42, 44) == e.pad@,
        n % 4 == 0,
        e.payload_len + 2 <= n < e.payload_len + 6,
{
    assert(v@.subrange(2, 42) =~= e.payload@);
    assert(v@.subrange(42, 44) =~= e.pad@);
}

/// The state of a connection changed.
pub proof fn conn_state_is_told(
    handle: u16,
    old_state: u8,
    new_state: u8,
    addr: [u8; 6],
    reason: u8,
    r: SleWireEvent,
)
    requires
        call_ensures(SleWireEvent::conn_state, (handle, old_state, new_state, addr, reason), r),
    ensures
        told(r@, 1, 12),
        ({
            let p = r@.payload;
            &&& w16(p, 0) == handle
            &&& p[2] == new_state
            &&& p[3] == old_state
            &&& p.subrange(4, 10) == addr@
            &&& p[10] == reason
            &&& p[11] == 0
        }),
{
    assert(r@.payload.subrange(4, 10) =~= addr@);
}

/// The state of a connection changed, and a reader is told.
pub proof fn conn_state_comes_in(
    q: &mut EventQueue,
    handle: u16,
    old_state: u8,
    new_state: u8,
    addr: [u8; 6],
    reason: u8,
)
    requires
        call_ensures(EventQueue::push_conn_state, (q, handle, old_state, new_state, addr, reason), ()),
        q@.countable(1),
    ensures
        came_in(old(q)@, final(q)@),
        told(final(q)@.events.last(), 1, 12),
        ({
            let p = final(q)@.events.last().payload;
            &&& w16(p, 0) == handle
            &&& p[2] == new_state
            &&& p[3] == old_state
            &&& p.subrange(4, 10) == addr@
            &&& p[10] == reason
            &&& p[11] == 0
        }),
{
    pushed_came_in(q@, final(q)@.events.last());
    assert(final(q)@.events.last().payload.subrange(4, 10) =~= addr@);
}

/// Data arrived.
pub proof fn data_received_is_told(
    handle: u16,
    n: u16,
    r: SleWireEvent,
)
    requires
        call_ensures(SleWireEvent::data_received, (handle, n), r),
    ensures
        told(r@, 3, 4),
        ({
            let p = r@.payload;
            &&& w16(p, 0) == handle
            &&& w16(p, 2) == n
        }),
{
}

/// Data arrived, and a reader is told.
pub proof fn data_received_comes_in(
    q: &mut EventQueue,
    handle: u16,
    n: u16,
)
    requires
        call_ensures(EventQueue::push_data_received, (q, handle, n), ()),
        q@.countable(1),
    ensures
        came_in(old(q)@, final(q)@),
        told(final(q)@.events.last(), 3, 4),
        ({
            let p = final(q)@.events.last().payload;
            &&& w16(p, 0) == handle
            &&& w16(p, 2) == n
        }),
{
    pushed_came_in(q@, final(q)@.events.last());
}

/// The hardware failed.
pub proof fn hardware_error_is_told(
    error: u8,
    r: SleWireEvent,
)
    requires
        call_ensures(SleWireEvent::hardware_error, (error,), r),
    ensures
        told(r@, 6, 4),
        ({
            let p = r@.payload;
            &&& p[0] == error
            &&& p[1] == 0 && p[2] == 0 && p[3] == 0
        }),
{
}

/// The hardware failed, and a reader is told.
pub proof fn hardware_error_comes_in(
    q: &mut EventQueue,
    error: u8,
)
    requires
        call_ensures(EventQueue::push_hardware_error, (q, error), ()),
        q@.countable(1),
    ensures
        came_in(old(q)@, final(q)@),
        told(final(q)@.events.last(), 6, 4),
        ({
            let p = final(q)@.events.last().payload;
            &&& p[0] == error
            &&& p[1] == 0 && p[2] == 0 && p[3] == 0
        }),
{
    pushed_came_in(q@, final(q)@.events.last());
}

/// A command was taken or refused.
pub proof fn command_status_is_told(
    opcode: u16,
    status: u8,
    r: SleWireEvent,
)
    requires
        call_ensures(SleWireEvent::command_status, (opcode, status), r),
    ensures
        told(r@, 8, 4),
        ({
            let p = r@.payload;
            &&& w16(p, 0) == opcode
            &&& p[2] == status
            &&& p[3] == 0
        }),
{
}

/// Advertising ended.
pub proof fn broadcast_end_is_told(
    reason: u8,
    r: SleWireEvent,
)
    requires
        call_ensures(SleWireEvent::broadcast_end, (reason,), r),
    ensures
        told(r@, 9, 4),
        ({
            let p = r@.payload;
            &&& p[0] == reason
            &&& p[1] == 0 && p[2] == 0 && p[3] == 0
        }),
{
}

/// The radio changed.
pub proof fn phy_update_is_told(
    handle: u16,
    mcs: u8,
    mhz: u8,
    r: SleWireEvent,
)
    requires
        call_ensures(SleWireEvent::phy_update, (handle, mcs, mhz), r),
    ensures
        told(r@, 10, 4),
        ({
            let p = r@.payload;
            &&& w16(p, 0) == handle
            &&& p[2] == mcs
            &&& p[3] == mhz
        }),
{
}

/// The timing changed.
pub proof fn conn_param_update_is_told(
    handle: u16,
    interval: u16,
    latency: u16,
    timeout: u16,
    r: SleWireEvent,
)
    requires
        call_ensures(SleWireEvent::conn_param_update, (handle, interval, latency, timeout), r),
    ensures
        told(r@, 11, 8),
        ({
            let p = r@.payload;
            &&& w16(p, 0) == handle
            &&& w16(p, 2) == interval
            &&& w16(p, 4) == latency
            &&& w16(p, 6) == timeout
        }),
{
}

/// The packet sizes changed.
pub proof fn data_len_change_is_told(
    handle: u16,
    tx: u16,
    rx: u16,
    r: SleWireEvent,
)
    requires
        call_ensures(SleWireEvent::data_len_change, (handle, tx, rx), r),
    ensures
        told(r@, 12, 8),
        ({
            let p = r@.payload;
            &&& w16(p, 0) == handle
            &&& w16(p, 2) == tx
            &&& w16(p, 4) == rx
            &&& w16(p, 6) == 0
        }),
{
}

/// A buffer overflowed.
pub proof fn data_buf_overflow_is_told(
    link: u8,
    r: SleWireEvent,
)
    requires
        call_ensures(SleWireEvent::data_buf_overflow, (link,), r),
    ensures
        told(r@, 13, 4),
        ({
            let p = r@.payload;
            &&& p[0] == link
            &&& p[1] == 0 && p[2] == 0 && p[3] == 0
        }),
{
}

/// The peer asks for another timing.
pub proof fn peer_conn_param_req_is_told(
    handle: u16,
    low: u16,
    high: u16,
    latency: u16,
    timeout: u16,
    r: SleWireEvent,
)
    requires
        call_ensures(SleWireEvent::peer_conn_param_req, (handle, low, high, latency, timeout), r),
    ensures
        told(r@, 14, 12),
        ({
            let p = r@.payload;
            &&& w16(p, 0) == handle
            &&& w16(p, 2) == low
            &&& w16(p, 4) == high
            &&& w16(p, 6) == latency
            &&& w16(p, 8) == timeout
            &&& w16(p, 10) == 0
        }),
{
}

/// The transmit power changed.
pub proof fn power_change_report_is_told(
    handle: u16,
    reason: u8,
    frame: u8,
    bandwidth: u8,
    pilot: u8,
    power: i8,
    level: u8,
    offset: i8,
    r: SleWireEvent,
)
    requires
        call_ensures(SleWireEvent::power_change_report, (handle, reason, frame, bandwidth, pilot, power, level, offset), r),
    ensures
        told(r@, 15, 10),
        ({
            let p = r@.payload;
            &&& w16(p, 0) == handle
            &&& p[2] == reason
            &&& p[3] == frame
            &&& p[4] == bandwidth
            &&& p[5] == pilot
            &&& s8(p, 6) == power
            &&& p[7] == level
            &&& s8(p, 8) == offset
            &&& p[9] == 0
        }),
{
}

/// The transmit power changed, and a reader is told.
pub proof fn power_change_report_comes_in(
    q: &mut EventQueue,
    handle: u16,
    reason: u8,
    frame: u8,
    bandwidth: u8,
    pilot: u8,
    power: i8,
    level: u8,
    offset: i8,
)
    requires
        call_ensures(EventQueue::push_power_change_report, (q, handle, reason, frame, bandwidth, pilot, power, level, offset), ()),
        q@.countable(1),
    ensures
        came_in(old(q)@, final(q)@),
        told(final(q)@.events.last(), 15, 10),
        ({
            let p = final(q)@.events.last().payload;
            &&& w16(p, 0) == handle
            &&& p[2] == reason
            &&& p[3] == frame
            &&& p[4] == bandwidth
            &&& p[5] == pilot
            &&& s8(p, 6) == power
            &&& p[7] == level
            &&& s8(p, 8) == offset
            &&& p[9] == 0
        }),
{
    pushed_came_in(q@, final(q)@.events.last());
}

/// Packets were sent.
pub proof fn num_completed_packets_is_told(
    handle: u16,
    n: u8,
    r: SleWireEvent,
)
    requires
        call_ensures(SleWireEvent::num_completed_packets, (handle, n), r),
    ensures
        told(r@, 16, 4),
        ({
            let p = r@.payload;
            &&& w16(p, 0) == handle
            &&& p[2] == n
            &&& p[3] == 0
        }),
{
}

/// Packets were sent, and a reader is told.
pub proof fn num_completed_packets_comes_in(
    q: &mut EventQueue,
    handle: u16,
    n: u8,
)
    requires
        call_ensures(EventQueue::push_num_completed_packets, (q, handle, n), ()),
        q@.countable(1),
    ensures
        came_in(old(q)@, final(q)@),
        told(final(q)@.events.last(), 16, 4),
        ({
            let p = final(q)@.events.last().payload;
            &&& w16(p, 0) == handle
            &&& p[2] == n
            &&& p[3] == 0
        }),
{
    pushed_came_in(q@, final(q)@.events.last());
}

/// Encryption parameters are asked for.
pub proof fn encryption_param_req_is_told(
    handle: u16,
    r: SleWireEvent,
)
    requires
        call_ensures(SleWireEvent::encryption_param_req, (handle,), r),
    ensures
        told(r@, 17, 4),
        ({
            let p = r@.payload;
            &&& w16(p, 0) == handle
            &&& w16(p, 2) == 0
        }),
{
}

/// Encryption parameters are asked for, and a reader is told.
pub proof fn encryption_param_req_comes_in(
    q: &mut EventQueue,
    handle: u16,
)
    requires
        call_ensures(EventQueue::push_encryption_param_req, (q, handle), ()),
        q@.countable(1),
    ensures
        came_in(old(q)@, final(q)@),
        told(final(q)@.events.last(), 17, 4),
        ({
            let p = final(q)@.events.last().payload;
            &&& w16(p, 0) == handle
            &&& w16(p, 2) == 0
        }),
{
    pushed_came_in(q@, final(q)@.events.last());
}

/// The security changed, and a reader is told.
pub proof fn security_changed_comes_in(
    q: &mut EventQueue,
    state: u8,
    method: u8,
    encrypted: u8,
)
    requires
        call_ensures(EventQueue::push_security_changed, (q, state, method, encrypted), ()),
        q@.countable(1),
    ensures
        came_in(old(q)@, final(q)@),
        told(final(q)@.events.last(), 4, 4),
        ({
            let p = final(q)@.events.last().payload;
            &&& p[0] == state
            &&& p[1] == method
            &&& p[2] == encrypted
            &&& p[3] == 0
        }),
{
    pushed_came_in(q@, final(q)@.events.last());
}

/// Power saving changed, and a reader is told.
pub proof fn power_changed_comes_in(
    q: &mut EventQueue,
    state: u8,
    pct: u8,
)
    requires
        call_ensures(EventQueue::push_power_changed, (q, state, pct), ()),
        q@.countable(1),
    ensures
        came_in(old(q)@, final(q)@),
        told(final(q)@.events.last(), 5, 4),
        ({
            let p = final(q)@.events.last().payload;
            &&& p[0] == state
            &&& p[1] == pct
            &&& p[2] == 0 && p[3] == 0
        }),
{
    pushed_came_in(q@, final(q)@.events.last());
}

/// What is told of an advertiser that was heard.
pub open spec fn heard(
    p: Seq<u8>,
    addr: Seq<u8>,
    rssi: i8,
    level: u8,
    name: Seq<u8>,
) -> bool {
    &&& p.subrange(0, 6) == addr
    &&& s8(p, 6) == rssi
    &&& p[7] == level
    &&& name.len() <= 31 ==> p[8] == name.len() && p.subrange(9, 9 + name.len() as int) == name
    &&& name.len() > 31 ==> p[8] == 31 && p.subrange(9, 40) == name.take(31)
}

proof fn is_heard(p: Seq<u8>, addr: Seq<u8>, rssi: i8, level: u8, name: Seq<u8>)
    requires
        addr.len() == 6,
        p == bytes::padded(sle_event::adv_report_bytes(addr, rssi, level, name), 40),
    ensures
        heard(p, addr, rssi, level, name),
{
    assert(p.subrange(0, 6) =~= addr);
    if name.len() <= 31 {
        assert(p.subrange(9, 9 + name.len() as int) =~= name);
    } else {
        assert(p.subrange(9, 40) =~= name.take(31));
    }
}

/// An advertiser was heard.
pub proof fn adv_report_is_told(
    addr: [u8; 6],
    rssi: i8,
    level: u8,
    name: &[u8],
    r: SleWireEvent,
    q: &mut EventQueue,
)
    requires
        call_ensures(SleWireEvent::adv_report, (addr, rssi, level, name), r),
        call_ensures(EventQueue::push_adv_report, (q, addr, rssi, level, name), ()),
        q@.countable(1),
    ensures
        told(r@, 2, 40),
        heard(r@.payload, addr@, rssi, level, name@),
        came_in(old(q)@, final(q)@),
        final(q)@.events.last() == r@,
{
    is_heard(r@.payload, addr@, rssi, level, name@);
    pushed_came_in(q@, r@);
}

/// A command was carried out; the start of what it returned is told.
pub proof fn command_complete_is_told(opcode: u16, status: u8, data: &[u8], r: SleWireEvent)
    requires
        call_ensures(SleWireEvent::command_complete, (opcode, status, data), r),
    ensures
        told(r@, 7, 36),
        w16(r@.payload, 0) == opcode,
        r@.payload[2] == status,
        data@.len() <= 32 ==> r@.payload[3] == data@.len() && r@.payload.subrange(
            4,
            4 + data@.len() as int,
        ) == data@,
        data@.len() > 32 ==> r@.payload[3] == 32 && r@.payload.subrange(4, 36) == data@.take(32),
{
    if data@.len() <= 32 {
        assert(r@.payload.subrange(4, 4 + data@.len() as int) =~= data@);
    } else {
        assert(r@.payload.subrange(4, 36) =~= data@.take(32));
    }
}

/// A reader takes the oldest event.
pub proof fn oldest_event_first(q: &mut EventQueue, r: Option<SleWireEvent>)
    requires
        call_ensures(EventQueue::dequeue, (q,), r),
        q@.countable(0),
    ensures
        r is Some <==> old(q)@.events.len() > 0,
        r matches Some(e) ==> e@ == old(q)@.events[0] && final(q)@.events == old(q)@.events.skip(1)
            && final(q)@.delivered == old(q)@.delivered + 1 && final(q)@.dropped == old(q)@.dropped
            && final(q)@.enqueued == old(q)@.enqueued,
        r is None ==> final(q)@ == old(q)@,
{
}

/// A fresh queue is empty, and counts are told as they are.
pub proof fn queue_counts(
    n: EventQueue,
    q: &EventQueue,
    p: usize,
    h: bool,
    a: u64,
    b: u64,
    c: u64,
)
    requires
        call_ensures(EventQueue::new, (), n),
        call_ensures(EventQueue::pending, (q,), p),
        call_ensures(EventQueue::has_events, (q,), h),
        call_ensures(EventQueue::total_enqueued, (q,), a),
        call_ensures(EventQueue::total_dropped, (q,), b),
        call_ensures(EventQueue::total_delivered, (q,), c),
    ensures
        n@.events.len() == 0 && n@.enqueued == 0 && n@.dropped == 0 && n@.delivered == 0,
        p == q@.events.len(),
        h <==> p > 0,
        a == q@.enqueued && b == q@.dropped && c == q@.delivered,
{
}

proof fn laid_out(es: Seq<WireModel>, i: int)
    requires
        forall|k: int| 0 <= k < es.len() ==> (#[trigger] es[k]).bytes().len() == 44,
        0 <= i < es.len(),
    ensures
        sle_event::events_bytes(es).len() == 44 * es.len(),
        sle_event::events_bytes(es).subrange(44 * i, 44 * i + 44) == es[i].bytes(),
    decreases es.len(),
{
    let d = es.drop_last();
    assert forall|k: int| 0 <= k < d.len() implies (#[trigger] d[k]).bytes().len() == 44 by {
        assert(es[k].bytes().len() == 44);
    }
    assert(es[es.len() - 1].bytes().len() == 44);
    if d.len() > 0 {
        laid_out(
            d,
            if i < d.len() {
                i
            } else {
                0
            },
        );
    } else {
        assert(sle_event::events_bytes(d) =~= Seq::<u8>::empty());
    }
    if i < d.len() {
        assert(sle_event::events_bytes(es).subrange(44 * i, 44 * i + 44)
            =~= sle_event::events_bytes(d).subrange(44 * i, 44 * i + 44));
    } else {
        assert(sle_event::events_bytes(es).subrange(44 * i, 44 * i + 44) =~= es[i].bytes());
    }
}

/// Events are drained in their order, 44 bytes each, as many as fit whole.
pub proof fn events_are_drained(q: &mut EventQueue, buf: &mut [u8], r: usize, i: int)
    requires
        call_ensures(EventQueue::drain_to_buf, (q, buf), r),
        q.wf(),
        q@.countable(0),
    ensures
        r % 44 == 0,
        r <= old(buf)@.len(),
        final(q)@.events == old(q)@.events.skip(r as int / 44),
        final(q)@.delivered == old(q)@.delivered + r / 44,
        final(q)@.events.len() == 0 || old(buf)@.len() < r + 44,
        0 <= i < r / 44 ==> final(buf)@.subrange(44 * i, 44 * i + 44) == old(q)@.events[i].bytes(),
        final(buf)@.len() == old(buf)@.len(),
        final(buf)@.skip(r as int) == old(buf)@.skip(r as int),
{
    q.bounded();
    let n = r as int / 44;
    let es = q@.events.take(n);
    assert forall|k: int| 0 <= k < es.len() implies (#[trigger] es[k]).bytes().len() == 44 by {
        assert(q@.events[k].bytes().len() == 44);
    }
    let all = sle_event::events_bytes(es);
    if n > 0 {
        laid_out(es, 0);
    } else {
        assert(all =~= Seq::<u8>::empty());
    }
    assert(final(buf)@.skip(r as int) =~= buf@.skip(r as int));
    if 0 <= i < n {
        laid_out(es, i);
        assert(final(buf)@.subrange(44 * i, 44 * i + 44) =~= all.subrange(44 * i, 44 * i + 44));
    }
}

/// Whether a reader that has seen the events up to `after` got those behind it, in order.
pub open spec fn caught_up(m: RingModel, after: u64, es: Seq<WireModel>) -> bool {
    es == m.entries.filter(|e: (u64, WireModel)| e.0 > after).map_values(
        |e: (u64, WireModel)| e.1,
    )
}

proof fn newer_is(m: RingModel, after: u64, n: int)
    requires
        0 <= n <= m.entries.len(),
    ensures
        m.newer_below(after, n) == m.entries.take(n).filter(
            |e: (u64, WireModel)| e.0 > after,
        ).map_values(|e: (u64, WireModel)| e.1),
    decreases n,
{
    reveal(Seq::filter);
    let p = |e: (u64, WireModel)| e.0 > after;
    let f = |e: (u64, WireModel)| e.1;
    let t = m.entries.take(n);
    if n > 0 {
        newer_is(m, after, n - 1);
        assert(t.drop_last() =~= m.entries.take(n - 1));
        let prev = t.drop_last().filter(p);
        if p(t.last()) {
            assert(prev.push(t.last()).map_values(f) =~= prev.map_values(f).push(f(t.last())));
        }
    } else {
        assert(t.filter(p).map_values(f) =~= Seq::<WireModel>::empty());
    }
}

/// Events are numbered one after the other as they are published; the last 128 stay.
pub proof fn events_are_published(m: &mut BroadcastRing, e: SleWireEvent, r: u64)
    requires
        call_ensures(BroadcastRing::publish, (m, e), r),
        m@.last_seq < u64::MAX,
    ensures
        r == old(m)@.last_seq + 1,
        final(m)@.last_seq == r,
        final(m)@.entries.last() == (r, e@),
        old(m)@.entries.len() < 128 ==> final(m)@.entries.drop_last() == old(m)@.entries,
        old(m)@.entries.len() >= 128 ==> final(m)@.entries.drop_last() == old(m)@.entries.skip(1),
{
    if m@.entries.len() < 128 {
        assert(final(m)@.entries.drop_last() =~= m@.entries);
    } else {
        assert(final(m)@.entries.drop_last() =~= m@.entries.skip(1));
    }
}

/// A reader gets every event behind the last one it has seen, oldest first, and is told how
/// many there were and where it now stands.
pub proof fn readers_catch_up(
    m: &BroadcastRing,
    after: u64,
    q: &mut EventQueue,
    r: (usize, u64),
    es: Seq<WireModel>,
)
    requires
        call_ensures(BroadcastRing::drain_since, (m, after, q), r),
        caught_up(m@, after, es),
    ensures
        r.0 == es.len(),
        r.1 == (if es.len() > 0 {
            m@.last_seq
        } else {
            after
        }),
        old(q)@.events.len() + es.len() <= 64 ==> final(q)@.events == old(q)@.events + es
            && final(q)@.dropped == old(q)@.dropped,
        final(q)@.delivered == old(q)@.delivered,
{
    newer_is(m@, after, m@.entries.len() as int);
    assert(m@.entries.take(m@.entries.len() as int) =~= m@.entries);
    all_came_in(q@, es);
}

proof fn all_came_in(a: QueueModel, es: Seq<WireModel>)
    ensures
        a.events.len() + es.len() <= 64 ==> a.pushed_all(es).events == a.events + es
            && a.pushed_all(es).dropped == a.dropped,
        a.pushed_all(es).delivered == a.delivered,
    decreases es.len(),
{
    if es.len() > 0 {
        all_came_in(a, es.drop_last());
        assert(a.events.len() + es.len() <= 64 ==> a.pushed_all(es).events =~= a.events + es);
    } else {
        assert(a.events + es =~= a.events);
    }
}

/// The ring starts empty, and tells the number of its last event.
pub proof fn ring_tells(n: BroadcastRing, m: &BroadcastRing, r: u64)
    requires
        call_ensures(BroadcastRing::new, (), n),
        call_ensures(BroadcastRing::current_seq, (m,), r),
    ensures
        n@.entries.len() == 0 && n@.last_seq == 0,
        r == m@.last_seq,
{
}

} // verus!
