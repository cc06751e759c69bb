use sparklink::event_payload::{ConnStateEvent, EventPayload, SleEventType};
use sparklink::sle_dli::{SleEvent, SleStatus};
use sparklink::sle_dli_event::{sle_dli_event_to_wire, SleDliEvent};
use sparklink::sle_event::{
    BroadcastRing, EventQueue, SleWireEvent, BROADCAST_RING_SIZE, EVENT_QUEUE_MAX, WIRE_EVENT_SIZE,
};
use sparklink::sle_opcode::SleOpcode;

#[test]
fn event_as_bytes() {
    let e = SleWireEvent::data_received(0x0102, 0x0304);
    assert_eq!(e.event_type, SleEventType::DataReceived.code());
    assert_eq!(e.payload_len, 4);
    let b = e.as_bytes();
    assert_eq!(b.len(), WIRE_EVENT_SIZE);
    assert_eq!(&b[..7], &[e.event_type, 4, 2, 1, 4, 3, 0]);
    assert_eq!(e.wire_size(), 8);
}

#[test]
fn payloads_as_bytes() {
    let p = ConnStateEvent {
        handle: 0x0102,
        old_state: 1,
        new_state: 2,
        peer_addr: [9; 6],
        reason: 7,
        pad: 0,
    };
    let b = p.to_bytes();
    assert_eq!(&b[..4], &[2, 1, 2, 1]);
    let e = SleWireEvent::conn_state(0x0102, 1, 2, [9; 6], 7);
    assert_eq!(&e.payload[..b.len()], &b[..]);
    assert_eq!(e.payload_len as usize, b.len());
}

#[test]
fn advertising_report_cuts_the_name() {
    let e = SleWireEvent::adv_report([1; 6], -50, 3, &[b'n'; 40]);
    assert_eq!(&e.payload[..9], &[1, 1, 1, 1, 1, 1, 0xCE, 3, 31]);
    assert_eq!(&e.payload[9..40], &[b'n'; 31]);
}

#[test]
fn command_complete_carries_data() {
    let e = SleWireEvent::command_complete(0x0408, 2, &[5, 6]);
    assert_eq!(&e.payload[..6], &[0x08, 0x04, 2, 2, 5, 6]);
}

#[test]
fn queue_keeps_order_and_counts() {
    let mut q = EventQueue::new();
    assert!(!q.has_events());
    assert!(q.dequeue().is_none());
    for i in 0..70u8 {
        q.push_hardware_error(i);
    }
    assert_eq!(q.pending(), EVENT_QUEUE_MAX);
    assert_eq!((q.total_enqueued(), q.total_dropped()), (70, 6));
    assert_eq!(q.dequeue().unwrap().payload[0], 6);
    assert_eq!(q.total_delivered(), 1);
    assert_eq!(q.pending(), 63);
}

#[test]
fn queue_is_read_in_whole_events() {
    let mut q = EventQueue::new();
    q.push_data_received(1, 2);
    q.push_power_changed(1, 30);
    q.push_security_changed(2, 1, 1);
    let mut buf = [0u8; 100];
    assert_eq!(q.drain_to_buf(&mut buf), 88);
    assert_eq!(buf[0], SleEventType::DataReceived.code());
    assert_eq!(buf[44], SleEventType::PowerChanged.code());
    assert_eq!(&buf[88..], &[0; 12]);
    assert_eq!(q.pending(), 1);
    assert_eq!(q.drain_to_buf(&mut buf[..43]), 0);
}

#[test]
fn readers_get_what_is_new() {
    let mut r = BroadcastRing::new();
    assert_eq!(r.current_seq(), 0);
    let start = r.current_seq();
    for i in 0..5u8 {
        assert_eq!(r.publish(SleWireEvent::hardware_error(i)), u64::from(i) + 1);
    }
    let mut q = EventQueue::new();
    assert_eq!(r.drain_since(start, &mut q), (5, 5));
    assert_eq!(q.dequeue().unwrap().payload[0], 0);
    assert_eq!(r.drain_since(5, &mut q), (0, 5));
    assert_eq!(r.drain_since(3, &mut q), (2, 5));
}

#[test]
fn slow_readers_get_what_is_left() {
    let mut r = BroadcastRing::new();
    for i in 0..(BROADCAST_RING_SIZE as u64 + 10) {
        r.publish(SleWireEvent::hardware_error(i as u8));
    }
    let mut q = EventQueue::new();
    assert_eq!(r.drain_since(0, &mut q), (BROADCAST_RING_SIZE, BROADCAST_RING_SIZE as u64 + 10));
    assert_eq!(q.pending(), EVENT_QUEUE_MAX);
}

#[test]
fn controller_events_for_programs() {
    let w = sle_dli_event_to_wire(&SleEvent::CommandComplete {
        opcode: SleOpcode::Reset,
        status: SleStatus::Timeout,
        data: vec![1, 2, 3],
    });
    assert_eq!((w.opcode, w.status, w.data_len), (0x0408, 8, 3));
    assert_eq!(&w.data[..4], &[1, 2, 3, 0]);
    let w = sle_dli_event_to_wire(&SleEvent::Disconnected { handle: 7, reason: 3 });
    assert_eq!(w.handle, 7);
    let w = sle_dli_event_to_wire(&SleEvent::AdvReport {
        addr: [4; 6],
        rssi: -1,
        discovery_level: 2,
        data: vec![8; 300],
    });
    assert_eq!((w.addr, w.data_len), ([4; 6], 240));
    assert_eq!(&w.data[..3], &[0xFF, 2, 8]);
    assert_eq!(SleDliEvent::default().data_len, 0);
}
