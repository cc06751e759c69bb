use sparklink::errno::Errno;
use sparklink::sle_phy::{
    data_rate_kbps, default_sinr_thresholds, mcs_lookup, mcs_select, AntennaConfig, ChannelMap,
    HoppingState, MimoMode, Modulation, PhyConfig,
};

#[test]
fn schemes_of_the_table() {
    let m = mcs_lookup(4).unwrap();
    assert_eq!((m.index, m.modulation, m.data_rate_1m_kbps), (4, Modulation::Qpsk, 500));
    assert_eq!((m.code_rate.num, m.code_rate.den), (1, 2));
    assert_eq!(m.code_rate.efficiency_x1000(), 500);
    assert_eq!(m.modulation.bits_per_symbol(), 2);
    assert!(mcs_lookup(13).is_none());
}

#[test]
fn rate_grows_with_the_bandwidth() {
    assert_eq!(data_rate_kbps(0, 1), Some(125));
    assert_eq!(data_rate_kbps(0, 4), Some(500));
    assert_eq!(data_rate_kbps(13, 1), None);
}

#[test]
fn best_scheme_that_fits_is_chosen() {
    let need = default_sinr_thresholds();
    for sinr in (-50..400).step_by(7) {
        for min in [0u32, 250, 1000, 3000] {
            let got = mcs_select(min, 2, sinr);
            let mut best: Option<(u32, u8)> = None;
            for i in 0..13u8 {
                let rate = data_rate_kbps(i, 2).unwrap();
                if rate >= min && need[i as usize] <= sinr && best.map_or(true, |b| (rate, i) >= b) {
                    best = Some((rate, i));
                }
            }
            assert_eq!(got, best.map_or(0, |b| b.1));
        }
    }
}

#[test]
fn channel_map_counts_its_channels() {
    let mut m = ChannelMap::all_used();
    assert_eq!(m.used_count(), 79);
    assert!(m.is_used(78) && !m.is_used(79));
    m.set_used(5, false);
    m.set_used(79, true);
    assert_eq!(m.used_count(), 78);
    assert!(!m.is_used(5));
    assert_eq!(m.nth_used(5), Some(6));
    assert_eq!(m.nth_used(77), Some(78));
    assert_eq!(m.nth_used(78), None);
    m.set_used(5, true);
    assert_eq!(m.used_count(), 79);
}

#[test]
fn hops_stay_on_used_channels() {
    let mut map = ChannelMap::all_used();
    for c in 0..79 {
        map.set_used(c, c % 3 == 0);
    }
    let mut h = HoppingState::new(7, map);
    for _ in 0..500 {
        let c = h.next_channel();
        assert_eq!(c % 3, 0);
        assert!(c < 79);
    }
    assert_eq!(h.event_counter, 500);
}

#[test]
fn hops_go_by_the_increment() {
    let mut h = HoppingState::new(7, ChannelMap::all_used());
    assert_eq!((h.next_channel(), h.next_channel()), (7, 14));
    for _ in 0..9 {
        h.next_channel();
    }
    assert_eq!(h.last_channel, 77);
    assert_eq!(h.next_channel(), (77 + 7) % 79);
    assert_eq!(HoppingState::new(0, ChannelMap::all_used()).hop_increment, 7);
    assert_eq!(HoppingState::new(79, ChannelMap::all_used()).hop_increment, 7);
    assert_eq!(HoppingState::channel_to_freq(0), 2402);
    assert_eq!(HoppingState::channel_to_freq(78), 2480);
}

#[test]
fn without_channels_hopping_stays_at_zero() {
    let mut map = ChannelMap::all_used();
    for c in 0..79 {
        map.set_used(c, false);
    }
    let mut h = HoppingState::new(7, ChannelMap::all_used());
    h.update_map(map);
    assert_eq!(h.next_channel(), 0);
}

#[test]
fn antennas_agree_on_a_mode() {
    let one = AntennaConfig::default();
    let two = AntennaConfig { num_tx: 2, num_rx: 2, ..one };
    let rx2 = AntennaConfig { num_tx: 1, num_rx: 2, ..one };
    assert_eq!(AntennaConfig::negotiate_mode(&two, &two), MimoMode::SpatialMux2x2);
    assert_eq!(AntennaConfig::negotiate_mode(&one, &two), MimoMode::Siso);
    assert_eq!(AntennaConfig::negotiate_mode(&two, &rx2), MimoMode::TxDiversity2x1);
    assert_eq!(AntennaConfig::negotiate_mode(&rx2, &two), MimoMode::RxDiversity1x2);
    assert_eq!(MimoMode::SpatialMux2x2.num_streams(), 2);
}

#[test]
fn settings_are_checked() {
    let mut c = PhyConfig::default_config();
    assert_eq!(c.effective_data_rate_kbps(), 500);
    assert_eq!(c.set_mcs(13), Err(Errno::EINVAL));
    assert_eq!(c.set_bandwidth(3), Err(Errno::EINVAL));
    assert_eq!(c.set_tx_power(21), Err(Errno::EINVAL));
    assert_eq!(c.set_tx_power(-21), Err(Errno::EINVAL));
    assert_eq!(c.set_mcs(12), Ok(()));
    assert_eq!(c.set_bandwidth(4), Ok(()));
    assert_eq!(c.set_tx_power(-20), Ok(()));
}

#[test]
fn settings_come_back_from_their_bytes() {
    let mut c = PhyConfig::default_config();
    c.set_mcs(9).unwrap();
    c.set_bandwidth(2).unwrap();
    c.set_tx_power(-7).unwrap();
    let mut buf = [0u8; 16];
    let n = c.encode_dli_params(&mut buf);
    assert!(n > 4);
    assert_eq!(buf[3], 0xF9);
    let mut d = PhyConfig::default_config();
    assert_eq!(d.decode_dli_params(&buf[..n]), Ok(()));
    assert_eq!((d.mcs_index, d.bandwidth_mhz, d.tx_power_dbm), (9, 2, -7));
    assert!(d.decode_dli_params(&[1, 2]).is_err());
    assert_eq!(c.encode_dli_params(&mut [0; 2]), 0);
}

#[test]
fn features_of_the_settings() {
    let mut c = PhyConfig::default_config();
    assert_eq!(c.to_feature_bits(), 1 << 18 | 0x800);
    c.set_bandwidth(4).unwrap();
    assert_eq!(c.to_feature_bits(), 1 << 18 | 0x800 | 0x100 | 0x200);
}

#[test]
fn only_the_flag_of_the_channel_changes() {
    let mut m = ChannelMap::all_used();
    assert_eq!(m.map(), [0xFF, 0xFF, 0xFF, 0xFF, 0xFF, 0xFF, 0xFF, 0xFF, 0xFF, 0x7F]);
    m.set_used(10, false);
    assert_eq!(m.map(), [0xFF, 0xFB, 0xFF, 0xFF, 0xFF, 0xFF, 0xFF, 0xFF, 0xFF, 0x7F]);
    m.set_used(78, false);
    m.set_used(79, true);
    m.set_used(255, false);
    assert_eq!(m.map(), [0xFF, 0xFB, 0xFF, 0xFF, 0xFF, 0xFF, 0xFF, 0xFF, 0xFF, 0x3F]);
    m.set_used(10, true);
    assert_eq!(m.map(), [0xFF, 0xFF, 0xFF, 0xFF, 0xFF, 0xFF, 0xFF, 0xFF, 0xFF, 0x3F]);
}
