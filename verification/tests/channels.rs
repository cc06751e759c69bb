use sparklink::conn_afh::AfhState;
use sparklink::conn_channel::{
    ChannelSet, ChannelState, RxAction, SeqState, SeqTracker, TransportChannel, TransportMode,
    TxAction,
};
use sparklink::conn_queue::DataRingBuffer;
use sparklink::errno::Errno;
use sparklink::sync_link::{
    SyncBigParams, SyncCigParams, SyncLinkState, SyncLinkType, SyncLinks,
};

#[test]
fn sender_stops_at_the_window() {
    let mut s = SeqState::default();
    for i in 0..16 {
        assert_eq!(s.next_tx_action(), TxAction::SendNew(i));
    }
    assert_eq!(s.next_tx_action(), TxAction::WindowFull);
    assert_eq!(s.process_ack(3), 3);
    assert_eq!(s.next_tx_action(), TxAction::SendNew(16));
    assert_eq!(s.process_ack(2), 0);
    assert_eq!(s.tx_count, 17);
}

#[test]
fn sender_sends_again_what_was_not_acknowledged() {
    let mut s = SeqState::default();
    for _ in 0..5 {
        s.next_tx_action();
    }
    s.process_ack(2);
    s.trigger_retransmit();
    assert_eq!(s.next_tx_action(), TxAction::Retransmit(2));
    assert_eq!(s.next_tx_action(), TxAction::Retransmit(3));
    assert_eq!(s.next_tx_action(), TxAction::Retransmit(4));
    assert_eq!(s.next_tx_action(), TxAction::SendNew(5));
    assert_eq!(s.retx_count, 3);
}

#[test]
fn numbers_wrap_after_fourteen_bits() {
    let mut s = SeqState { next_tx_seq: 0x3FFF, expected_ack_seq: 0x3FFF, retx_seq: 0x3FFF, ..SeqState::default() };
    assert_eq!(s.next_tx_action(), TxAction::SendNew(0x3FFF));
    assert_eq!(s.next_tx_action(), TxAction::SendNew(0));
    assert_eq!(s.process_ack(1), 2);
}

#[test]
fn receiver_takes_sets_aside_or_drops() {
    let mut s = SeqState::default();
    assert_eq!(s.classify_rx(0), RxAction::Accept);
    assert_eq!(s.classify_rx(3), RxAction::Buffer);
    assert_eq!(s.buffer_seq, 4);
    assert_eq!(s.classify_rx(0), RxAction::Drop);
    assert_eq!(s.classify_rx(1 + 16), RxAction::Drop);
    assert_eq!(s.classify_rx(1), RxAction::Accept);
    assert_eq!((s.rx_count, s.rx_drop_count), (2, 2));
}

#[test]
fn credits_limit_a_reliable_channel() {
    let mut c = TransportChannel::new(0x0A, TransportMode::Reliable, 247);
    assert_eq!(c.try_consume_tx_credit(), Err(Errno::EAGAIN));
    c.receive_tx_credits(2);
    assert_eq!(c.try_consume_tx_credit(), Ok(()));
    assert_eq!(c.tx_credits, 1);
    c.receive_tx_credits(u16::MAX);
    assert_eq!(c.tx_credits, u16::MAX);
    c.rx_credits = 5;
    assert!(!c.consume_rx_credit());
    assert!(c.consume_rx_credit());
    assert_eq!(c.grant_rx_credits(), 16);
    assert_eq!(c.rx_credits, 19);
    let mut u = TransportChannel::new(0x1F, TransportMode::Unreliable, 247);
    assert_eq!(u.try_consume_tx_credit(), Ok(()));
    assert!(!u.consume_rx_credit());
}

#[test]
fn channels_open_with_credits() {
    let mut s = ChannelSet::default();
    assert!(s.by_tcid(0x1F).is_some() && s.by_tcid(0x03).is_none());
    s.open_all();
    assert_eq!(s.svc_mgmt.state, ChannelState::Open);
    assert_eq!((s.svc_mgmt.tx_credits, s.svc_mgmt.rx_credits), (16, 16));
    s.negotiate(100, 200);
    assert_eq!((s.data.mtu, s.data.mps, s.svc_mgmt.mtu, s.svc_mgmt.mps), (100, 100, 100, 100));
    s.by_tcid_mut(0x02).unwrap().mtu = 7;
    assert_eq!(s.mgmt.mtu, 7);
    s.credit_grant_id = 255;
    assert_eq!((s.next_credit_grant_id(), s.next_credit_grant_id()), (255, 0));
    s.close_all();
    assert_eq!(s.data.state, ChannelState::Closed);
}

#[test]
fn one_bit_numbers_alternate() {
    let mut t = SeqTracker::new_async();
    assert!(t.check_rx(0) && !t.check_rx(1));
    t.advance_rx();
    assert!(t.check_rx(1));
    t.advance_tx();
    t.advance_tx();
    assert_eq!(t.tx_seq, 0);
}

#[test]
fn queue_keeps_messages_in_order() {
    let mut q = DataRingBuffer::new();
    let mut buf = [0u8; 8];
    assert_eq!(q.dequeue_into(&mut buf), Err(Errno::EAGAIN));
    for i in 0..64u8 {
        assert_eq!(q.enqueue(&[i, i]), Ok(()));
    }
    assert_eq!(q.enqueue(&[1]), Err(Errno::EAGAIN));
    q.drop_oldest();
    assert_eq!(q.len(), 63);
    assert_eq!(q.dequeue_into(&mut buf), Ok(2));
    assert_eq!(&buf[..3], &[1, 1, 0]);
    assert!(!q.is_empty());
}

#[test]
fn queue_cuts_long_messages_and_tells_their_length() {
    let mut q = DataRingBuffer::new();
    q.enqueue(&[9; 300]).unwrap();
    let mut buf = [0u8; 4];
    assert_eq!(q.dequeue_into(&mut buf), Ok(255));
    assert_eq!(buf, [9; 4]);
}

#[test]
fn bad_channels_are_left_out() {
    let mut a = AfhState::new();
    for _ in 0..3 {
        assert_eq!(a.report_rssi(10, -90), Ok(()));
        assert_eq!(a.report_rssi(11, -40), Ok(()));
    }
    for _ in 0..5 {
        assert_eq!(a.report_retx(12, true), Ok(()));
    }
    assert_eq!(a.report_rssi(79, -40), Err(Errno::EINVAL));
    assert_eq!(a.report_retx(79, true), Err(Errno::EINVAL));
    let map = a.classify(-70, 2);
    assert!(!map.is_used(10) && map.is_used(11) && !map.is_used(12));
    assert_eq!(map.used_count(), 77);
}

#[test]
fn average_just_below_the_threshold_is_bad() {
    let mut a = AfhState::new();
    a.report_rssi(1, -70).unwrap();
    a.report_rssi(1, -71).unwrap();
    a.report_rssi(2, -70).unwrap();
    assert_eq!(a.rssi_acc[1], -1410);
    let map = a.classify(-70, 2);
    assert!(!map.is_used(1) && map.is_used(2));
}

#[test]
fn enough_channels_stay() {
    let mut a = AfhState::new();
    for c in 0..79u8 {
        a.report_rssi(c, -120 + c as i8 / 2).unwrap();
    }
    let map = a.classify(-70, 20);
    assert_eq!(map.used_count(), 20);
    assert!(map.is_used(78) && !map.is_used(0));
}

fn group(cig_id: u8, link_count: u8) -> SyncCigParams {
    SyncCigParams {
        cig_id,
        sdu_interval_g2t: 10_000,
        sdu_interval_t2g: 10_000,
        max_sdu_g2t: 100,
        max_sdu_t2g: 100,
        retransmit_g2t: 2,
        retransmit_t2g: 2,
        max_latency_g2t: 20,
        max_latency_t2g: 20,
        adapt_mode: 0,
        link_count,
    }
}

#[test]
fn unicast_group_goes_through_its_states() {
    let mut s = SyncLinks::new();
    let g = s.ucast_configure(&group(3, 2)).unwrap();
    assert_eq!((g.cig_id, g.link_count), (3, 2));
    let (a, b) = (g.handles[0], g.handles[1]);
    assert_ne!(a, b);
    assert_eq!(g.handles[2], 0);
    assert_eq!(s.link_info(a).unwrap().state, SyncLinkState::Configured);
    assert_eq!(s.datapath_config(a, 1, 2, 3), Err(Errno::EINVAL));
    assert_eq!(s.create(3, SyncLinkType::Unicast, &[0x40, 0x41]), Ok(2));
    assert_eq!(s.link_info(b).unwrap().acl_handle, 0x41);
    assert_eq!(s.datapath_config(a, 1, 2, 3), Ok(()));
    assert_eq!(s.remove(3, SyncLinkType::Unicast), Err(Errno::EBUSY));
    assert_eq!(s.datapath_remove(a), Ok(()));
    assert_eq!(s.datapath_remove(a), Err(Errno::EINVAL));
    assert!(matches!(s.link_info(0x7777), Err(Errno::ENOENT)));
}

#[test]
fn groups_are_checked_and_replaced() {
    let mut s = SyncLinks::new();
    assert!(matches!(s.ucast_configure(&group(0xF0, 1)), Err(Errno::EINVAL)));
    assert!(matches!(s.ucast_configure(&group(1, 0)), Err(Errno::EINVAL)));
    assert!(matches!(s.ucast_configure(&group(1, 9)), Err(Errno::EINVAL)));
    let first = s.ucast_configure(&group(1, 2)).unwrap();
    let second = s.ucast_configure(&group(1, 1)).unwrap();
    assert!(s.link_info(first.handles[0]).is_err());
    assert!(s.link_info(second.handles[0]).is_ok());
    assert_eq!(s.remove(1, SyncLinkType::Unicast), Ok(()));
    assert_eq!(s.remove(1, SyncLinkType::Unicast), Err(Errno::ENOENT));
    assert_eq!(s.create(1, SyncLinkType::Unicast, &[1]), Err(Errno::ENOENT));
}

#[test]
fn multicast_groups_are_kept_apart() {
    let mut s = SyncLinks::new();
    let p = group(1, 1);
    let big = SyncBigParams {
        big_id: 1,
        sdu_interval_g2t: p.sdu_interval_g2t,
        sdu_interval_t2g: p.sdu_interval_t2g,
        max_sdu_g2t: p.max_sdu_g2t,
        max_sdu_t2g: p.max_sdu_t2g,
        retransmit_g2t: p.retransmit_g2t,
        retransmit_t2g: p.retransmit_t2g,
        max_latency_g2t: p.max_latency_g2t,
        max_latency_t2g: p.max_latency_t2g,
        adapt_mode: 0,
        link_count: 1,
    };
    let u = s.ucast_configure(&p).unwrap();
    let m = s.mcast_configure(&big).unwrap();
    let many = [0x40u16; 300];
    assert_eq!(s.create(1, SyncLinkType::Unicast, &many), Ok(1));
    assert_eq!(s.link_info(u.handles[0]).unwrap().state, SyncLinkState::Active);
    assert_eq!(s.link_info(m.handles[0]).unwrap().state, SyncLinkState::Configured);
    let u = s.ucast_configure(&p).unwrap();
    assert!(s.link_info(m.handles[0]).is_ok());
    assert_eq!(s.remove(1, SyncLinkType::Unicast), Ok(()));
    assert!(s.link_info(u.handles[0]).is_err());
    assert!(s.link_info(m.handles[0]).is_ok());
    let u = s.ucast_configure(&p).unwrap();
    assert_eq!(s.remove(1, SyncLinkType::Multicast), Ok(()));
    assert!(s.link_info(u.handles[0]).is_ok());
    assert!(s.link_info(m.handles[0]).is_err());
}

#[test]
fn sum_of_strengths_outgrows_thirty_two_bits() {
    let mut a = AfhState::new();
    a.rssi_acc[3] = -21_474_836_480;
    a.samples[3] = 0xFFFF;
    a.report_rssi(3, -128).unwrap();
    assert_eq!((a.rssi_acc[3], a.samples[3]), (-21_474_837_760, 0xFFFF));
    assert!(!a.classify(-70, 2).is_used(3));
}
