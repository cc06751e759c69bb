//! Laws of frequency hopping and of the settings of the physical layer.

use vstd::prelude::*;

use crate::conn_afh::AfhState;
use crate::errno::Errno;
use crate::sle_phy;
use crate::sle_phy::{
    AntennaConfig, ChannelMap, CodeRate, HoppingState, McsParams, MimoMode, Modulation, PhyConfig,
};

verus! {

/// The quotient of two numbers, rounded towards zero.
pub open spec fn quotient(a: int, n: int) -> int {
    if a < 0 {
        -((-a) / n)
    } else {
        a / n
    }
}

/// A transmission that was not repeated raises the score of no channel and lowers a positive
/// score of its own.
pub proof fn success_never_raises_a_score(
    a: &mut AfhState,
    ch: u8,
    r: Result<(), Errno>,
    c: int,
)
    requires
        call_ensures(AfhState::report_retx, (a, ch, false), r),
        0 <= c < 79,
    ensures
        final(a).retx_score@[c] <= old(a).retx_score@[c],
        ch < 79 && old(a).retx_score@[ch as int] > 0 ==> final(a).retx_score@[ch as int] < old(a).retx_score@[ch as int],
        ch >= 79 ==> r == Err::<(), Errno>(Errno::EINVAL) && *final(a) == *old(a),
{
}

/// A retransmission counts three, at most up to 255, as long as nothing is classified.
pub proof fn retransmission_counts_three(
    a: &mut AfhState,
    ch: u8,
    r: Result<(), Errno>,
    c: int,
)
    requires
        call_ensures(AfhState::report_retx, (a, ch, true), r),
        a.auto_classify_threshold == 0,
        0 <= c < 79,
        ch < 79,
    ensures
        r == Ok::<(), Errno>(()),
        final(a).retx_score@[c] == (if c != ch {
            old(a).retx_score@[c] as int
        } else if old(a).retx_score@[c] + 3 > 255 {
            255
        } else {
            old(a).retx_score@[c] + 3
        }),
        final(a).hopping == old(a).hopping,
        final(a).samples@ == old(a).samples@,
        final(a).rssi_acc@ == old(a).rssi_acc@,
{
}

/// Without automatic classification a report leaves the map alone.
pub proof fn reports_leave_the_map(a: &mut AfhState, ch: u8, again: bool, r: Result<(), Errno>)
    requires
        call_ensures(AfhState::report_retx, (a, ch, again), r),
        a.auto_classify_threshold == 0,
    ensures
        final(a).hopping == old(a).hopping,
        final(a).auto_classify_threshold == 0,
{
}

/// A measurement adds its strength in tenths and counts once, for its own channel.
pub proof fn measurement_counts_once(
    a: &mut AfhState,
    ch: u8,
    dbm: i8,
    r: Result<(), Errno>,
    c: int,
)
    requires
        call_ensures(AfhState::report_rssi, (a, ch, dbm), r),
        i64::MIN + 1280 <= a.rssi_acc@[ch as int] <= i64::MAX - 1280,
        0 <= c < 79,
    ensures
        r is Ok <==> ch < 79,
        ch >= 79 ==> r->Err_0 == Errno::EINVAL && *final(a) == *old(a),
        c != ch ==> final(a).rssi_acc@[c] == old(a).rssi_acc@[c] && final(a).samples@[c] == old(a).samples@[c],
        c == ch ==> final(a).rssi_acc@[c] == old(a).rssi_acc@[c] + 10 * dbm,
        c == ch && old(a).samples@[c] < 65535 ==> final(a).samples@[c] == old(a).samples@[c] + 1,
        final(a).hopping == old(a).hopping,
        final(a).retx_score@ == old(a).retx_score@,
{
}

/// A channel that was heard at least as strong as asked for on average, or not measured, and
/// that has fewer than five points of failures, stays as it is.
pub proof fn good_channels_stay(
    a: &mut AfhState,
    dbm: i8,
    min: u8,
    r: ChannelMap,
    c: int,
)
    requires
        call_ensures(AfhState::classify, (a, dbm, min), r),
        0 <= c < 79,
        a.samples@[c] == 0 || a.rssi_acc@[c] >= 10 * dbm * a.samples@[c],
        a.retx_score@[c] < 5,
    ensures
        r@[c] == old(a).hopping.channel_map@[c],
{
}

/// A channel that was heard too weakly on average, or failed too often, is taken out of use,
/// unless fewer channels than asked for, or than two, would be left.
pub proof fn bad_channels_go(a: &mut AfhState, dbm: i8, min: u8, r: ChannelMap, c: int)
    requires
        call_ensures(AfhState::classify, (a, dbm, min), r),
        0 <= c < 79,
        (a.samples@[c] > 0 && a.rssi_acc@[c] < 10 * dbm * a.samples@[c]) || a.retx_score@[c] >= 5,
    ensures
        r@[c] ==> sle_phy::marked_below(r@, 79) <= 2 || sle_phy::marked_below(r@, 79) <= min,
        !r@[c] ==> sle_phy::marked_below(r@, 79) >= 2 && sle_phy::marked_below(r@, 79) >= min,
{
}

/// Of two bad channels the one that was heard better is kept first; one that was not measured
/// comes last.
pub proof fn better_channels_are_kept(
    a: &mut AfhState,
    dbm: i8,
    min: u8,
    r: ChannelMap,
    c: int,
    d: int,
)
    requires
        call_ensures(AfhState::classify, (a, dbm, min), r),
        0 <= c < 79,
        0 <= d < 79,
        (a.samples@[c] > 0 && a.rssi_acc@[c] < 10 * dbm * a.samples@[c]) || a.retx_score@[c] >= 5,
        (a.samples@[d] > 0 && a.rssi_acc@[d] < 10 * dbm * a.samples@[d]) || a.retx_score@[d] >= 5,
        r@[c],
        !r@[d],
    ensures
        old(a).samples@[c] > 0 && old(a).samples@[d] > 0 ==> quotient(
            old(a).rssi_acc@[c] as int,
            old(a).samples@[c] as int,
        ) >= quotient(old(a).rssi_acc@[d] as int, old(a).samples@[d] as int),
        old(a).samples@[c] == 0 && old(a).samples@[d] > 0 ==> quotient(
            old(a).rssi_acc@[d] as int,
            old(a).samples@[d] as int,
        ) <= -0x4000_0000,
{
    assert(a.bad(c, dbm) && a.bad(d, dbm));
    assert(a.before(c, d));
}

/// A classification forgets all measurements and keeps where hopping stands.
pub proof fn classification_starts_anew(
    a: &mut AfhState,
    dbm: i8,
    min: u8,
    r: ChannelMap,
    c: int,
)
    requires
        call_ensures(AfhState::classify, (a, dbm, min), r),
        0 <= c < 79,
    ensures
        final(a).hopping.channel_map == r,
        final(a).rssi_acc@[c] == 0,
        final(a).samples@[c] == 0,
        final(a).retx_score@[c] == 0,
        final(a).hopping.last_channel == old(a).hopping.last_channel,
        final(a).hopping.event_counter == old(a).hopping.event_counter,
        final(a).hopping.hop_increment == old(a).hopping.hop_increment,
        final(a).auto_classify_threshold == old(a).auto_classify_threshold,
{
}

/// A channel without failures and measurements stays in use, however a success on any channel
/// is reported before the classification.
pub proof fn working_channel_is_kept(
    a: &mut AfhState,
    b: &mut AfhState,
    ch: u8,
    r: Result<(), Errno>,
    dbm: i8,
    min: u8,
    map: ChannelMap,
    c: int,
)
    requires
        call_ensures(AfhState::report_retx, (a, ch, false), r),
        0 <= c < 79,
        a.retx_score@[c] == 0,
        a.samples@[c] == 0,
        a.auto_classify_threshold == 0,
        *b == *final(a),
        call_ensures(AfhState::classify, (b, dbm, min), map),
    ensures
        final(a).retx_score@[c] == 0,
        final(a).samples@[c] == 0,
        map@[c] == old(a).hopping.channel_map@[c],
{
    success_never_raises_a_score(a, ch, r, c);
    if ch >= 79 {
    }
    good_channels_stay(b, dbm, min, map, c);
}

/// A hop goes to the channel at its distance, counted modulo 79, where that may be used, and
/// to a channel that may be used as long as there is one.
pub proof fn hop_goes_to_a_usable_channel(h: &mut HoppingState, r: u8, c: int)
    requires
        call_ensures(HoppingState::next_channel, (h,), r),
        h.channel_map.wf(),
        0 <= c < 79,
    ensures
        r < 79,
        old(h).channel_map@[(old(h).last_channel + old(h).hop_increment) % 79] ==> r == (old(h).last_channel + old(h).hop_increment) % 79,
        old(h).channel_map@[c] ==> old(h).channel_map@[r as int],
        final(h).last_channel == r,
        final(h).event_counter == (old(h).event_counter + 1) % 65536,
        final(h).hop_increment == old(h).hop_increment,
        final(h).channel_map == old(h).channel_map,
{
    h.channel_map.raw_marks();
    sle_phy::hop_lands(*h, r as int, r as int);
    if h.channel_map@[c] {
        sle_phy::marked_below_bounds(h.channel_map@, c + 1, 79);
    }
}

/// With all channels in use, hops step through the channels by their distance.
pub proof fn two_hops(h: &mut HoppingState, k: &mut HoppingState, a: u8, b: u8)
    requires
        call_ensures(HoppingState::next_channel, (h,), a),
        *k == *final(h),
        call_ensures(HoppingState::next_channel, (k,), b),
        forall|i: int| 0 <= i < 79 ==> h.channel_map@[i],
        h.last_channel < 79,
        0 < h.hop_increment < 79,
    ensures
        a == (old(h).last_channel + old(h).hop_increment) % 79,
        b == (a + old(h).hop_increment) % 79,
        a != old(h).last_channel,
{
}

/// Channel 0 lies at 2402 MHz, and each is one MHz above the last.
pub proof fn frequencies(ch: u8, r: u16)
    requires
        call_ensures(HoppingState::channel_to_freq, (ch,), r),
    ensures
        r == 2402 + ch,
{
}

/// Hopping starts at channel 0; a distance that is no distance becomes 7.
pub proof fn hopping_starts(inc: u8, map: ChannelMap, r: HoppingState)
    requires
        call_ensures(HoppingState::new, (inc, map), r),
    ensures
        1 <= inc <= 78 ==> r.hop_increment == inc,
        inc == 0 || inc >= 79 ==> r.hop_increment == 7,
        r.channel_map == map,
        r.last_channel == 0 && r.event_counter == 0,
{
}

/// A channel is in use after it was set so, and no other channel changed.
pub proof fn channel_is_set(
    m: &mut ChannelMap,
    n: &ChannelMap,
    ch: u8,
    used: bool,
    d: u8,
    r: bool,
)
    requires
        call_ensures(ChannelMap::set_used, (m, ch, used), ()),
        *n == *final(m),
        call_ensures(ChannelMap::is_used, (n, d), r),
    ensures
        d == ch && d < 79 ==> r == used,
        d != ch && d < 79 ==> r == old(m)@[d as int],
        d >= 79 ==> !r,
{
    m.raw_marks();
}

/// The number of channels in use goes up or down by one with a channel that changes.
pub proof fn channels_are_counted(
    m: &mut ChannelMap,
    n: &ChannelMap,
    o: &ChannelMap,
    ch: u8,
    used: bool,
    a: u8,
    b: u8,
)
    requires
        *o == *m,
        call_ensures(ChannelMap::used_count, (o,), a),
        call_ensures(ChannelMap::set_used, (m, ch, used), ()),
        *n == *final(m),
        call_ensures(ChannelMap::used_count, (n,), b),
        ch < 79,
    ensures
        old(m)@[ch as int] == used ==> a == b,
        !old(m)@[ch as int] && used ==> b == a + 1,
        old(m)@[ch as int] && !used ==> b == a - 1,
{
    m.raw_marks();
    sle_phy::marked_below_update(m@, ch as int, used, 79);
}

/// The flags of a map are the bits of its ten bytes, lowest first; the last one is clear.
pub proof fn flags_of_a_map(raw: [u8; 10], m: ChannelMap, b: [u8; 10], c: u8)
    requires
        call_ensures(ChannelMap::from_raw, (raw,), m),
        call_ensures(ChannelMap::map, (&m,), b),
        c < 79,
    ensures
        m@[c as int] == ((raw@[c as int / 8] >> (c % 8)) & 1 != 0),
        forall|i: int| 0 <= i < 9 ==> b@[i] == raw@[i],
        b@[9] == raw@[9] & 0x7F,
{
    m.raw_marks();
}

/// The schemes: rates follow from bits per symbol and code rate at half a million symbols per
/// second; the first seven use one carrier, the others several.
pub proof fn schemes(i: u8, r: Option<McsParams>, b: u8)
    requires
        call_ensures(sle_phy::mcs_lookup, (i,), r),
        r is Some ==> call_ensures(Modulation::bits_per_symbol, ((r->0).modulation,), b),
    ensures
        r is Some <==> i <= 12,
        r matches Some(m) ==> {
            &&& m.index == i
            &&& m.code_rate.den > 0 && m.code_rate.num <= m.code_rate.den
            &&& m.data_rate_1m_kbps == 500 * b * m.code_rate.num / (m.code_rate.den as int)
            &&& m.ofdm == (i >= 7)
        },
{
    if i <= 12 {
        let m = r->0;
        let n = m.code_rate.num as int;
        let d = m.code_rate.den as int;
        let v = m.data_rate_1m_kbps as int;
        assert(500 * b * n / d == v) by (nonlinear_arith)
            requires
                (b == 1 && n == 1 && d == 4 && v == 125) || (b == 1 && n == 1 && d == 2 && v == 250)
                    || (b == 1 && n == 3 && d == 4 && v == 375) || (b == 2 && n == 1 && d == 4 && v
                    == 250) || (b == 2 && n == 1 && d == 2 && v == 500) || (b == 2 && n == 3 && d
                    == 4 && v == 750) || (b == 4 && n == 1 && d == 2 && v == 1000) || (b == 4 && n
                    == 3 && d == 4 && v == 1500) || (b == 6 && n == 3 && d == 4 && v == 2250) || (b
                    == 8 && n == 5 && d == 6 && v == 3333),
        ;
    }
}

/// Bits per symbol of the modulations.
pub proof fn bits_per_symbol(m: Modulation, r: u8)
    requires
        call_ensures(Modulation::bits_per_symbol, (m,), r),
    ensures
        m == Modulation::Bpsk ==> r == 1,
        m == Modulation::Qpsk ==> r == 2,
        m == Modulation::Qam16 ==> r == 4,
        m == Modulation::Qam64 ==> r == 6,
        m == Modulation::Qam256 ==> r == 8,
{
}

/// A code rate in thousandths.
pub proof fn code_rate_in_thousandths(c: CodeRate, r: u32)
    requires
        call_ensures(CodeRate::efficiency_x1000, (c,), r),
        c.den != 0,
    ensures
        r * c.den <= 1000 * c.num < (r + 1) * c.den,
{
    let n = 1000 * c.num;
    let d = c.den as int;
    assert(d * (n / d) <= n < d * (n / d) + d) by (nonlinear_arith)
        requires
            d > 0,
    ;
    assert(r * c.den == d * (n / d) && (r + 1) * c.den == d * (n / d) + d) by (nonlinear_arith)
        requires
            r == n / d,
            d == c.den,
    ;
}

/// Rates grow with the bandwidth.
pub proof fn rate_grows(i: u8, mhz: u8, p: Option<McsParams>, r: Option<u32>)
    requires
        call_ensures(sle_phy::mcs_lookup, (i,), p),
        call_ensures(sle_phy::data_rate_kbps, (i, mhz), r),
    ensures
        r is Some <==> i <= 12,
        r is Some ==> r->0 == (p->0).data_rate_1m_kbps * mhz,
{
}

/// The scheme that is chosen meets what was asked for, and no scheme that does is faster;
/// where none does, it is scheme 0.
pub proof fn chosen_scheme(
    kbps: u32,
    mhz: u8,
    sinr: i16,
    r: u8,
    i: u8,
    a: Option<u32>,
    b: Option<u32>,
    t: [i16; 13],
)
    requires
        call_ensures(sle_phy::mcs_select, (kbps, mhz, sinr), r),
        call_ensures(sle_phy::data_rate_kbps, (r, mhz), a),
        call_ensures(sle_phy::data_rate_kbps, (i, mhz), b),
        i <= 12,
        forall|j: int| 0 <= j < 13 ==> #[trigger] t@[j] == sle_phy::sinr_table(j),
    ensures
        r <= 12,
        b->0 >= kbps && t@[i as int] <= sinr ==> a->0 >= kbps && t@[r as int] <= sinr && (a->0
            > b->0 || (a->0 == b->0 && r >= i)),
{
    if b->0 >= kbps && t@[i as int] <= sinr {
        assert(sle_phy::mcs_fits(i as int, kbps, mhz, sinr));
        assert(sle_phy::mcs_fits(r as int, kbps, mhz, sinr));
    }
}

/// A setting is taken where it lies within its limits, and refused otherwise, alone.
pub proof fn settings_within_limits(
    a: &mut PhyConfig,
    b: &mut PhyConfig,
    c: &mut PhyConfig,
    mcs: u8,
    mhz: u8,
    dbm: i8,
    x: Result<(), Errno>,
    y: Result<(), Errno>,
    z: Result<(), Errno>,
)
    requires
        call_ensures(PhyConfig::set_mcs, (a, mcs), x),
        call_ensures(PhyConfig::set_bandwidth, (b, mhz), y),
        call_ensures(PhyConfig::set_tx_power, (c, dbm), z),
    ensures
        x is Ok <==> mcs <= 12,
        x is Ok ==> final(a).mcs_index == mcs && final(a).bandwidth_mhz == old(a).bandwidth_mhz,
        x is Err ==> x->Err_0 == Errno::EINVAL && *final(a) == *old(a),
        y is Ok <==> mhz == 1 || mhz == 2 || mhz == 4,
        y is Ok ==> final(b).bandwidth_mhz == mhz && final(b).mcs_index == old(b).mcs_index,
        y is Err ==> y->Err_0 == Errno::EINVAL && *final(b) == *old(b),
        z is Ok <==> -20 <= dbm <= 20,
        z is Ok ==> final(c).tx_power_dbm == dbm && final(c).mcs_index == old(c).mcs_index,
        z is Err ==> z->Err_0 == Errno::EINVAL && *final(c) == *old(c),
{
}

/// Settings within their limits that were written are read back by any other configuration.
pub proof fn settings_come_back(
    a: &PhyConfig,
    buf: &mut [u8],
    n: usize,
    b: &mut PhyConfig,
    data: &[u8],
    r: Result<(), Errno>,
)
    requires
        call_ensures(PhyConfig::encode_dli_params, (a, buf), n),
        buf@.len() >= 7,
        data@ == final(buf)@,
        call_ensures(PhyConfig::decode_dli_params, (b, data), r),
        a.mcs_index <= 12,
        a.bandwidth_mhz == 1 || a.bandwidth_mhz == 2 || a.bandwidth_mhz == 4,
        a.pilot_density <= 3,
        -20 <= a.tx_power_dbm <= 20,
    ensures
        n == 7,
        r == Ok::<(), Errno>(()),
        final(b).mcs_index == a.mcs_index,
        final(b).bandwidth_mhz == a.bandwidth_mhz,
        final(b).pilot_density == a.pilot_density,
        final(b).tx_power_dbm == a.tx_power_dbm,
        final(b).antenna.mode == a.antenna.mode,
        final(b).antenna.num_tx == a.antenna.num_tx,
        final(b).antenna.num_rx == a.antenna.num_rx,
        final(b).hopping == old(b).hopping,
{
    let p = a.param_bytes();
    assert forall|i: int| 0 <= i < 7 implies data@[i] == p[i] by {}
}

/// The bytes of settings: scheme, 0, 1 or 2 for the bandwidth, pilots, power, antennas.
pub proof fn settings_layout(a: &PhyConfig, buf: &mut [u8], n: usize)
    requires
        call_ensures(PhyConfig::encode_dli_params, (a, buf), n),
    ensures
        old(buf)@.len() < 7 ==> n == 0 && final(buf)@ == old(buf)@,
        old(buf)@.len() >= 7 ==> {
            let b = final(buf)@;
            &&& n == 7
            &&& b[0] == a.mcs_index
            &&& a.bandwidth_mhz == 1 ==> b[1] == 0
            &&& a.bandwidth_mhz == 2 ==> b[1] == 1
            &&& a.bandwidth_mhz == 4 ==> b[1] == 2
            &&& b[2] == a.pilot_density
            &&& (b[3] - a.tx_power_dbm) % 256 == 0
            &&& b[4] == a.antenna.mode.code()
            &&& b[5] == a.antenna.num_tx
            &&& b[6] == a.antenna.num_rx
        },
{
}

/// Settings out of their limits are refused.
pub proof fn settings_are_checked(b: &mut PhyConfig, data: &[u8], r: Result<(), Errno>)
    requires
        call_ensures(PhyConfig::decode_dli_params, (b, data), r),
    ensures
        r is Ok <==> data@.len() >= 7 && data@[0] <= 12 && data@[1] <= 2 && data@[2] <= 3 && (
        data@[3] <= 20 || data@[3] >= 236) && data@[4] <= 4,
        r is Err ==> r->Err_0 == Errno::EINVAL,
        data@.len() < 7 ==> *final(b) == *old(b),
{
}

/// Two antennas face two: two streams; two face one: diversity; otherwise one antenna. Seen
/// from the other side, the two diversities change places.
pub proof fn antennas(a: &AntennaConfig, b: &AntennaConfig, x: MimoMode, y: MimoMode)
    requires
        call_ensures(AntennaConfig::negotiate_mode, (a, b), x),
        call_ensures(AntennaConfig::negotiate_mode, (b, a), y),
    ensures
        a.num_tx >= 2 && b.num_rx >= 2 && a.num_rx >= 2 && b.num_tx >= 2 <==> x
            == MimoMode::SpatialMux2x2,
        x == MimoMode::SpatialMux2x2 <==> y == MimoMode::SpatialMux2x2,
        x == MimoMode::TxDiversity2x1 <==> y == MimoMode::RxDiversity1x2,
        x == MimoMode::RxDiversity1x2 <==> y == MimoMode::TxDiversity2x1,
        x == MimoMode::Siso <==> y == MimoMode::Siso,
        a.num_tx >= 2 && b.num_rx >= 2 && a.num_rx == 1 && b.num_tx >= 1 ==> x
            == MimoMode::TxDiversity2x1,
        a.num_tx == 1 && b.num_rx >= 1 && a.num_rx >= 2 && b.num_tx >= 2 ==> x
            == MimoMode::RxDiversity1x2,
        a.num_tx == 1 && a.num_rx == 1 ==> x == MimoMode::Siso,
        x != MimoMode::Beamforming2x2,
{
}

/// The rate of settings is that of their scheme at their bandwidth, doubled by two streams.
pub proof fn rate_of_settings(c: &PhyConfig, r: u32, q: Option<u32>)
    requires
        call_ensures(PhyConfig::effective_data_rate_kbps, (c,), r),
        call_ensures(sle_phy::data_rate_kbps, (c.mcs_index, c.bandwidth_mhz), q),
    ensures
        q is Some && c.antenna.mode == MimoMode::Siso ==> r == q->0,
        q is Some && c.antenna.mode == MimoMode::SpatialMux2x2 ==> r == 2 * q->0,
        q is Some && c.antenna.mode == MimoMode::TxDiversity2x1 ==> r == q->0,
        q is Some && c.antenna.mode == MimoMode::RxDiversity1x2 ==> r == q->0,
        q is Some && c.antenna.mode == MimoMode::Beamforming2x2 ==> r == q->0 * 3 / 2,
        q is None && c.antenna.mode == MimoMode::Siso ==> r == 500,
{
    if q is Some {
        let x = q->0 as int;
        let f = c.antenna.mode.throughput_factor() as int;
        assert(f == 100 ==> x * f / 100 == x) by (nonlinear_arith);
        assert(f == 200 ==> x * f / 100 == 2 * x) by (nonlinear_arith);
        assert(f == 150 ==> x * f / 100 == x * 3 / 2) by (nonlinear_arith);
    }
}

/// The sum of some counts.
pub open spec fn total(s: Seq<u16>) -> int
    decreases s.len(),
{
    if s.len() == 0 {
        0
    } else {
        total(s.drop_last()) + s.last()
    }
}

proof fn total_is(s: Seq<u16>, n: int)
    requires
        0 <= n <= s.len(),
    ensures
        crate::conn_afh::sum_below(s, n) == total(s.take(n)),
    decreases n,
{
    if n > 0 {
        total_is(s, n - 1);
        assert(s.take(n).drop_last() =~= s.take(n - 1));
    }
}

/// Channels are classified on their own once more came in than was asked for, measurements and
/// transmissions together, and not before: at -70 dBm, with at least two channels left.
pub proof fn automatic_classification(
    a: &mut AfhState,
    ch: u8,
    again: bool,
    r: Result<(), Errno>,
    c: int,
)
    requires
        call_ensures(AfhState::report_retx, (a, ch, again), r),
        ch < 79,
        a.auto_classify_threshold > 0,
        a.tx_attempts < 0xFFFF_FFFF,
        0 <= c < 79,
    ensures
        ({
            let n = total(old(a).samples@) + old(a).tx_attempts + 1;
            &&& n > old(a).auto_classify_threshold ==> final(a).tx_attempts == 0
                && final(a).samples@[c] == 0 && final(a).retx_score@[c] == 0
                && final(a).rssi_acc@[c] == 0
            &&& n > old(a).auto_classify_threshold && c != ch && old(a).retx_score@[c] < 5 && (
            old(a).samples@[c] == 0 || old(a).rssi_acc@[c] >= -700 * old(a).samples@[c])
                ==> final(a).hopping.channel_map@[c] == old(a).hopping.channel_map@[c]
            &&& n > old(a).auto_classify_threshold && c != ch && final(a).hopping.channel_map@[c]
                && (old(a).retx_score@[c] >= 5 || (old(a).samples@[c] > 0 && old(a).rssi_acc@[c] < -700 * old(a).samples@[c])) ==> sle_phy::marked_below(
                final(a).hopping.channel_map@,
                79,
            ) <= 2
            &&& n <= old(a).auto_classify_threshold ==> final(a).hopping == old(a).hopping
                && final(a).tx_attempts == old(a).tx_attempts + 1 && final(a).samples@ == old(a).samples@ && final(a).rssi_acc@ == old(a).rssi_acc@
        }),
{
    total_is(a.samples@, 79);
    assert(a.samples@.take(79) =~= a.samples@);
    let mid = choose|mid: AfhState| #[trigger]
        mid.counted(*a, ch as int, again) && {
            if mid.auto_classify_threshold > 0 && mid.reports() > mid.auto_classify_threshold {
                final(a).after_classify(
                    mid,
                    crate::conn_afh::AUTO_THRESHOLD_DBM,
                    crate::conn_afh::MIN_CHANNELS,
                )
            } else {
                *final(a) == mid
            }
        };
    assert(mid.counted(*a, ch as int, again));
    if c != ch {
        assert(mid.retx_score@[c] == a.retx_score@[c]);
    }
    assert(10 * -70 * mid.samples@[c] == -700 * mid.samples@[c]);
}

/// The channels of a map are found by their order.
pub proof fn channels_in_order(m: &ChannelMap, n: u8, r: Option<u8>, k: u8, s: Option<u8>)
    requires
        call_ensures(ChannelMap::nth_used, (m, n), r),
        call_ensures(ChannelMap::nth_used, (m, k), s),
        n < k,
    ensures
        r matches Some(c) ==> c < 79 && m@[c as int],
        r is None ==> s is None,
        r is Some && s is Some ==> r->0 < s->0,
        r is Some && k == n + 1 ==> forall|c: int|
            #![trigger m@[c]]
            r->0 < c < 79 && m@[c] ==> s is Some && s->0 <= c,
{
    let t = m@;
    if r is Some && s is Some {
        if s->0 <= r->0 {
            sle_phy::marked_below_bounds(t, (s->0) as int, (r->0) as int);
        }
    }
    if r is None {
        if s is Some {
            sle_phy::marked_below_bounds(t, (s->0) as int, 79);
        }
    }
    if r is Some && k == n + 1 {
        assert forall|c: int| r->0 < c < 79 && #[trigger] t[c] implies s is Some && s->0 <= c by {
            sle_phy::marked_below_bounds(t, (r->0) as int + 1, c);
            sle_phy::marked_below_bounds(t, c + 1, 79);
            if s is Some && s->0 > c {
                sle_phy::marked_below_bounds(t, c + 1, (s->0) as int);
            }
        }
    }
}

/// What the uses of several antennas give.
pub proof fn antenna_uses(m: MimoMode, n: u8, f: u8)
    requires
        call_ensures(MimoMode::num_streams, (m,), n),
        call_ensures(MimoMode::throughput_factor, (m,), f),
    ensures
        n == 2 <==> m == MimoMode::SpatialMux2x2 || m == MimoMode::Beamforming2x2,
        n == 1 || n == 2,
        n == 1 <==> f == 100,
        m == MimoMode::SpatialMux2x2 ==> f == 200,
        m == MimoMode::Beamforming2x2 ==> f == 150,
{
}

/// The settings at the start are within their limits, on one antenna.
pub proof fn settings_at_start(r: PhyConfig, h: &mut HoppingState, map: ChannelMap, f: AfhState)
    requires
        call_ensures(PhyConfig::default_config, (), r),
        call_ensures(HoppingState::update_map, (h, map), ()),
        call_ensures(AfhState::new, (), f),
    ensures
        r.mcs_index == 4 && r.bandwidth_mhz == 1 && r.pilot_density == 1 && r.tx_power_dbm == 10,
        r.hopping.hop_increment == 7 && r.hopping.event_counter == 0 && r.hopping.last_channel
            == 0,
        r.antenna.num_tx == 1 && r.antenna.num_rx == 1 && r.antenna.mode == MimoMode::Siso
            && !r.antenna.calibrated,
        final(h).channel_map == map && final(h).last_channel == old(h).last_channel
            && final(h).event_counter == old(h).event_counter && final(h).hop_increment == old(h).hop_increment,
        f.hopping.hop_increment == 7 && f.hopping.event_counter == 0 && f.tx_attempts == 0
            && f.auto_classify_threshold == 0,
        forall|c: int| 0 <= c < 79 ==> #[trigger] f.hopping.channel_map@[c],
        forall|c: int| 0 <= c < 79 ==> #[trigger] f.retx_score@[c] == 0,
{
}

/// The strength over noise that each scheme asks for, in tenths of a decibel.
pub proof fn noise_limits(r: [i16; 13])
    requires
        call_ensures(sle_phy::default_sinr_thresholds, (), r),
    ensures
        r@ == seq![-20i16, 10, 40, 20, 50, 80, 100, 60, 90, 120, 150, 190, 230],
{
    assert(r@ =~= seq![-20i16, 10, 40, 20, 50, 80, 100, 60, 90, 120, 150, 190, 230]);
}

/// The features that settings ask for: that of their scheme, those of their bandwidth, and
/// that of their pilots.
pub proof fn settings_ask_for(c: &PhyConfig, r: u64)
    requires
        call_ensures(PhyConfig::to_feature_bits, (c,), r),
        c.mcs_index <= 12,
    ensures
        ({
            let i = c.mcs_index;
            r & 0x7FF_C000 == 1u64 << (14 + i) as u64
        }),
        r & 0x100 != 0 <==> c.bandwidth_mhz >= 2,
        r & 0x200 != 0 <==> c.bandwidth_mhz >= 4,
        r & 0x400 != 0 <==> c.pilot_density == 0,
        r & 0x800 != 0 <==> c.pilot_density == 1,
        r & 0x1000 != 0 <==> c.pilot_density == 2,
{
    let i = c.mcs_index;
    let m = 1u64 << (14 + i) as u64;
    let a = if c.bandwidth_mhz >= 2 {
        0x100u64
    } else {
        0
    };
    let b = if c.bandwidth_mhz >= 4 {
        0x200u64
    } else {
        0
    };
    let p = if c.pilot_density == 0 {
        0x400u64
    } else if c.pilot_density == 1 {
        0x800
    } else if c.pilot_density == 2 {
        0x1000
    } else {
        0
    };
    assert(i <= 12 ==> (1u64 << (14 + i) as u64) & 0x7FF_C000 == (1u64 << (14 + i) as u64) && (1u64
        << (14 + i) as u64) & 0x1F00 == 0) by (bit_vector);
    assert(r == m | a | b | p);
    assert((a == 0 || a == 0x100) && (b == 0 || b == 0x200) && (p == 0 || p == 0x400 || p == 0x800
        || p == 0x1000) && m & 0x7FF_C000 == m && m & 0x1F00 == 0 ==> (m | a | b | p) & 0x7FF_C000
        == m && (m | a | b | p) & 0x100 == a && (m | a | b | p) & 0x200 == b && (m | a | b | p)
        & 0x400 == p & 0x400 && (m | a | b | p) & 0x800 == p & 0x800 && (m | a | b | p) & 0x1000
        == p & 0x1000) by (bit_vector);
    assert(0x400u64 & 0x400 == 0x400 && 0x400u64 & 0x800 == 0 && 0x400u64 & 0x1000 == 0 && 0x800u64
        & 0x400 == 0 && 0x800u64 & 0x800 == 0x800 && 0x800u64 & 0x1000 == 0 && 0x1000u64 & 0x400
        == 0 && 0x1000u64 & 0x800 == 0 && 0x1000u64 & 0x1000 == 0x1000 && 0u64 & 0x400 == 0 && 0u64
        & 0x800 == 0 && 0u64 & 0x1000 == 0) by (bit_vector);
}

/// Where the channel at its distance may not be used, a hop goes to the channel of that number
/// among those that may, counted round.
pub proof fn hop_counts_round(
    h: &mut HoppingState,
    r: u8,
    n: u8,
    k: u8,
    x: Option<u8>,
    map: &ChannelMap,
)
    requires
        call_ensures(HoppingState::next_channel, (h,), r),
        h.channel_map.wf(),
        *map == h.channel_map,
        call_ensures(ChannelMap::used_count, (map,), n),
        n > 0,
        k == ((h.last_channel + h.hop_increment) % 79) % n as int,
        call_ensures(ChannelMap::nth_used, (map, k), x),
    ensures
        !old(h).channel_map@[(old(h).last_channel + old(h).hop_increment) % 79] ==> x == Some(r),
{
    h.channel_map.raw_marks();
    let aim = (h.last_channel + h.hop_increment) % 79;
    if !h.channel_map@[aim] {
        assert(x is Some);
        assert(sle_phy::hops_to(*h, (x->0) as int));
        sle_phy::hop_lands(*h, r as int, (x->0) as int);
    }
}

} // verus!
