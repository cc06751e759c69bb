use sparklink::conn_types::{
    AccessResponseType, ConnState, GtRole, NegotiatedParams, PeerCapability,
};
use sparklink::errno::Errno;
use sparklink::sle_conn::ConnManager;
use sparklink::sle_phy::ChannelMap;
use sparklink::sle_ssap::{OpIndicator, SsapInner};
use sparklink::ssap_pdu::{SsapPdu, SsapUuid};
use sparklink::sync_link::SyncCigParams;

fn connected() -> (ConnManager, u16) {
    let mut m = ConnManager::new([1; 6]);
    let h = m.connect([2; 6], GtRole::default()).unwrap();
    m.confirm_connecting(h);
    m.process_access_response(h, AccessResponseType::Accepted, NegotiatedParams::default(), 100)
        .unwrap();
    (m, h)
}

#[test]
fn connection_comes_up_in_steps() {
    let mut m = ConnManager::new([1; 6]);
    let h = m.connect([2; 6], GtRole::default()).unwrap();
    assert_eq!(m.info(h).unwrap().state, ConnState::ConnectPending);
    assert_eq!(
        m.process_access_response(h, AccessResponseType::Accepted, NegotiatedParams::default(), 1),
        Err(Errno::EBUSY)
    );
    m.confirm_connecting(h);
    assert_eq!(m.info(h).unwrap().state, ConnState::Connecting);
    assert_eq!(m.active_count(), 1);
    assert_eq!(m.first_active_handle(), None);
    assert_eq!(
        m.process_access_response(h, AccessResponseType::Accepted, NegotiatedParams::default(), 1),
        Ok(())
    );
    assert_eq!(m.info(h).unwrap().state, ConnState::Connected);
    assert_eq!(m.active_count(), 1);
    assert_eq!(m.first_active_handle(), Some(h));
    assert_eq!(m.active_handles().1, 1);
}

#[test]
fn refused_connection_goes_away() {
    for t in [
        AccessResponseType::RoleNegotiationFailed,
        AccessResponseType::ResourceLimited,
        AccessResponseType::UserRejected,
    ] {
        let mut m = ConnManager::new([1; 6]);
        let h = m.connect([2; 6], GtRole::default()).unwrap();
        m.confirm_connecting(h);
        assert_eq!(
            m.process_access_response(h, t, NegotiatedParams::default(), 1),
            Err(Errno::EACCES)
        );
        assert_eq!(m.active_count(), 0);
        assert_eq!(m.send(h, &[1], 2).is_err(), true);
    }
    assert_eq!(
        ConnManager::new([1; 6]).process_access_response(
            5,
            AccessResponseType::Accepted,
            NegotiatedParams::default(),
            1
        ),
        Err(Errno::ENOENT)
    );
}

#[test]
fn one_connection_for_each_peer() {
    let mut m = ConnManager::new([1; 6]);
    let h = m.connect([2; 6], GtRole::default()).unwrap();
    assert_eq!(m.connect([2; 6], GtRole::default()), Err(Errno::EEXIST));
    assert!(m.has_addr(&[2; 6]) && !m.has_addr(&[3; 6]));
    m.abort_connecting(h);
    assert_eq!(m.slot_count(), 0);
    assert!(m.connect([2; 6], GtRole::default()).is_ok());
    m.abort_connecting_by_addr(&[2; 6]);
    assert_eq!(m.slot_count(), 0);
}

#[test]
fn number_of_connections_is_limited() {
    let mut m = ConnManager::new([1; 6]);
    m.set_max_connections(2);
    let a = m.connect([2; 6], GtRole::default()).unwrap();
    let b = m.connect([3; 6], GtRole::default()).unwrap();
    assert_ne!(a, b);
    assert_eq!(m.connect([4; 6], GtRole::default()), Err(Errno::EBUSY));
    assert_eq!(m.accept_incoming(0x99, &[4; 6], 1), Err(Errno::EBUSY));
}

#[test]
fn handle_in_use_is_not_given_out_again() {
    let mut m = ConnManager::new([1; 6]);
    m.accept_incoming(2, &[9; 6], 1).unwrap();
    let a = m.connect([2; 6], GtRole::default()).unwrap();
    let b = m.connect([3; 6], GtRole::default()).unwrap();
    assert!(a != 2 && b != 2 && a != b);
}

#[test]
fn incoming_connection_is_connected_at_once() {
    let mut m = ConnManager::new([1; 6]);
    assert_eq!(m.accept_incoming(7, &[9; 6], 50), Ok(()));
    assert_eq!(m.accept_incoming(7, &[9; 6], 60), Ok(()));
    assert_eq!(m.slot_count(), 1);
    assert_eq!(m.info(7).unwrap().state, ConnState::Connected);
    assert_eq!(m.resolve_handle(7), Ok(7));
}

#[test]
fn connection_goes_down_in_steps() {
    let (mut m, h) = connected();
    assert_eq!(m.disconnect(h), Ok(()));
    assert_eq!(m.info(h).unwrap().state, ConnState::DisconnectPending);
    assert_eq!(m.send(h, &[1], 1), Err(Errno::EPIPE));
    m.abort_disconnecting(h);
    assert_eq!(m.info(h).unwrap().state, ConnState::Connected);
    m.disconnect(h).unwrap();
    m.confirm_disconnecting(h);
    assert_eq!(m.active_count(), 0);
    assert_eq!(m.disconnect(0x55), Err(Errno::ENOENT));
}

#[test]
fn controller_may_report_the_end() {
    let (mut m, h) = connected();
    assert!(m.confirm_disconnecting_by_handle(h));
    assert!(!m.confirm_disconnecting_by_handle(h));
}

#[test]
fn data_is_sent_and_received() {
    let (mut m, h) = connected();
    assert_eq!(m.send(h, &[], 1), Err(Errno::EINVAL));
    assert_eq!(m.send(h, &[0; 256], 1), Err(Errno::EINVAL));
    assert_eq!(m.send(h, &[1, 2, 3], 200), Ok(3));
    assert_eq!(m.info(h).unwrap().tx_bytes, 3);
    assert_eq!(m.info(h).unwrap().last_activity, 200);
    assert_eq!(m.send(0x55, &[1], 1), Err(Errno::ENOENT));
    let mut buf = [0u8; 16];
    assert_eq!(m.recv(h, &mut buf), Err(Errno::EAGAIN));
    assert_eq!(m.receive_data(h, &[7, 8], 0, 300), Ok(()));
    assert_eq!(m.recv(h, &mut buf), Ok(2));
    assert_eq!(&buf[..2], &[7, 8]);
}

#[test]
fn message_that_came_twice_is_taken_once() {
    let (mut m, h) = connected();
    m.receive_data(h, &[1], 0, 1).unwrap();
    m.receive_data(h, &[1], 0, 2).unwrap();
    m.receive_data(h, &[2], 1, 3).unwrap();
    let mut buf = [0u8; 4];
    assert_eq!((m.recv(h, &mut buf), buf[0]), (Ok(1), 1));
    assert_eq!((m.recv(h, &mut buf), buf[0]), (Ok(1), 2));
    assert_eq!(m.recv(h, &mut buf), Err(Errno::EAGAIN));
}

#[test]
fn sizes_are_agreed_on() {
    let (mut m, h) = connected();
    let max = m.info(h).unwrap().params.max_pdu_size;
    assert_eq!(m.set_data_mtu(h, 22, None), Err(Errno::EINVAL));
    assert_eq!(m.set_data_mtu(h, max + 1, None), Err(Errno::EINVAL));
    assert_eq!(m.set_data_mtu(h, 23, None), Ok(()));
    assert_eq!(m.send(h, &[0; 24], 1), Err(Errno::EFBIG));
    assert_eq!(m.send(h, &[0; 23], 1), Ok(23));
}

#[test]
fn controller_reports_change_a_connection() {
    let (mut m, h) = connected();
    m.update_phy_params(h, 9, 4, 5).unwrap();
    assert_eq!(m.info(h).unwrap().params.mcs_index, 9);
    assert_eq!(m.info(h).unwrap().params.bandwidth_mhz, 4);
    m.update_conn_params(h, 10, 1, 300, 6).unwrap();
    assert_eq!(m.info(h).unwrap().params.supervision_timeout, 300);
    m.store_peer_version(h, 1, 2, 3).unwrap();
    m.store_peer_features(h, [0xFF; 10]).unwrap();
    assert!(m.info(h).unwrap().peer_cap.has_feature(3));
    assert_eq!(m.update_phy_params(0x55, 1, 1, 1), Err(Errno::ENOENT));
    assert!(!PeerCapability::default().has_feature(0));
}

#[test]
fn credits_of_a_connection() {
    let (mut m, h) = connected();
    assert_eq!(m.channel_credits(h, 0x0A), Some((16, 16)));
    for _ in 0..16 {
        assert_eq!(m.consume_tx_credit(h, 0x0A), Ok(()));
    }
    assert_eq!(m.consume_tx_credit(h, 0x0A), Err(Errno::EAGAIN));
    assert_eq!(m.receive_credits(h, 0x0A, 4), Ok(()));
    assert_eq!(m.channel_credits(h, 0x0A), Some((4, 16)));
    for _ in 0..12 {
        assert!(!m.consume_rx_credit(h, 0x0A, 1));
    }
    assert!(m.consume_rx_credit(h, 0x0A, 1));
    assert_eq!(m.grant_credits(h, 0x0A), Ok((16, 0)));
    assert_eq!(m.grant_credits(h, 0x0A), Ok((16, 1)));
    assert_eq!(m.grant_credits(h, 0x55), Err(Errno::EINVAL));
    assert_eq!(m.grant_credits(0x55, 0x0A), Err(Errno::ENOENT));
}

#[test]
fn hopping_follows_the_map() {
    let (mut m, h) = connected();
    let mut map = ChannelMap::all_used();
    for c in 0..79 {
        map.set_used(c, c == 4 || c == 8);
    }
    assert_eq!(m.set_channel_map(h, map, 3), Err(Errno::EINVAL));
    assert_eq!(m.set_channel_map(h, map, 2), Ok(()));
    assert_eq!(m.get_channel_map(h).unwrap().used_count(), 2);
    for i in 1..20u16 {
        let (c, f, n) = m.hop_next(h).unwrap();
        assert!(c == 4 || c == 8);
        assert_eq!((f, n), (2402 + u16::from(c), i));
    }
}

#[test]
fn bad_channels_of_a_connection_are_left_out() {
    let (mut m, h) = connected();
    m.report_rssi(h, 3, -100).unwrap();
    assert_eq!(m.report_rssi(h, 79, 0), Err(Errno::EINVAL));
    let map = m.classify_channels(h, -70, 2).unwrap();
    assert!(!map.is_used(3) && map.is_used(4));
    m.set_auto_classify(h, 1).unwrap();
    for _ in 0..6 {
        m.report_retx(h, 5, true).unwrap();
    }
    assert!(!m.get_channel_map(h).unwrap().is_used(5));
}

#[test]
fn silent_connections_are_found() {
    let (mut m, h) = connected();
    m.send(h, &[1], 1000).unwrap();
    let t = m.supervision_timeouts_ms();
    assert_eq!(t.len(), 1);
    let limit = [u64::from(t[0])];
    let mut out = [0u16; 8];
    let late = 1000 + limit[0];
    assert_eq!(m.check_supervision_timeouts(late - 1, &limit, &mut out), 0);
    assert_eq!(m.next_supervision_jiffies(late - 1, &limit), Some(1));
    assert_eq!(m.check_supervision_timeouts(late + 1, &limit, &mut out), 1);
    assert_eq!(out[0], h);
}

#[test]
fn services_over_a_connection() {
    let (mut m, h) = connected();
    let mut db = SsapInner::new();
    db.register_service(SsapUuid::Uuid16(1), true).unwrap();
    let p = db
        .add_property(SsapUuid::Uuid16(2), OpIndicator::from_raw(OpIndicator::READ), &[5])
        .unwrap();
    assert_eq!(m.ssap_session_info(h), Some((247, false)));
    let mut req = [0u8; 8];
    let n = SsapPdu::ReadReq { handle: p }.encode(&mut req).unwrap();
    let mut rsp = [0u8; 64];
    let k = m.process_ssap_pdu(h, &req[..n], &mut db, &mut rsp).unwrap();
    assert!(matches!(SsapPdu::decode(&rsp[..k]), Ok(SsapPdu::ReadRsp { data }) if data == [5]));
    m.get_ssap_session(h).unwrap().mtu = 50;
    assert_eq!(m.ssap_session_info(h), Some((50, false)));
    assert!(m.get_ssap_session(0x55).is_none());
}

#[test]
fn sync_links_belong_to_connections() {
    let (mut m, h) = connected();
    let p = SyncCigParams {
        cig_id: 1,
        sdu_interval_g2t: 1,
        sdu_interval_t2g: 1,
        max_sdu_g2t: 1,
        max_sdu_t2g: 1,
        retransmit_g2t: 1,
        retransmit_t2g: 1,
        max_latency_g2t: 1,
        max_latency_t2g: 1,
        adapt_mode: 0,
        link_count: 1,
    };
    let g = m.sync_ucast_configure(&p).unwrap();
    assert!(m.sync_ucast_create(1, &[0x55]).is_err());
    assert_eq!(m.sync_ucast_create(1, &[h]), Ok(1));
    assert_eq!(m.sync_datapath_config(g.handles[0], 0, 1, 2), Ok(()));
    assert_eq!(m.sync_link_info(g.handles[0]).unwrap().acl_handle, h);
    assert_eq!(m.sync_ucast_remove(1), Err(Errno::EBUSY));
    assert_eq!(m.sync_datapath_remove(g.handles[0]), Ok(()));
    assert_eq!(m.sync_mcast_remove(1), Err(Errno::ENOENT));
}
