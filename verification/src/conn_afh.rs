//! Adaptive frequency hopping: channels that are heard badly, or on which sending
//! often fails, are taken out of use.

use vstd::prelude::*;

use crate::errno::Errno;
use crate::sle_phy;
use crate::sle_phy::{ChannelMap, HoppingState};

verus! {

/// A channel on which sending failed this often, compared to how often it succeeded,
/// is bad.
pub const RETX_SCORE_BAD: u8 = 5;

/// Least average signal strength of automatic classification, in dBm.
pub const AUTO_THRESHOLD_DBM: i8 = -70;

/// Fewest channels that a map may have.
pub const MIN_CHANNELS: u8 = 2;

/// Hopping of one connection and what was measured since the last classification.
#[derive(Clone, Copy, Debug)]
pub struct AfhState {
    /// Where hopping stands.
    pub hopping: HoppingState,
    /// Sum of the signal strengths measured on each channel, in tenths of a dBm.
    pub rssi_acc: [i64; 79],
    /// Number of measurements on each channel, at most 65535.
    pub samples: [u16; 79],
    /// Failures of each channel: three for each retransmission, less one for each
    /// success, between 0 and 255.
    pub retx_score: [u8; 79],
    /// Number of transmissions that were reported.
    pub tx_attempts: u32,
    /// Reports after which channels are classified on their own, 0 for never.
    pub auto_classify_threshold: u16,
}

/// `a` divided by `n`, rounded towards zero.
pub open spec fn trunc_div(a: int, n: int) -> int {
    if a >= 0 {
        a / n
    } else {
        -((-a) / n)
    }
}

/// The sum of the first `n` numbers.
pub open spec fn sum_below(s: Seq<u16>, n: int) -> int
    decreases n,
{
    if n <= 0 {
        0
    } else {
        sum_below(s, n - 1) + s[n - 1]
    }
}

impl AfhState {
    /// Average signal strength on channel `c`, in whole tenths of a dBm.
    pub open spec fn average(self, c: int) -> int {
        trunc_div(self.rssi_acc@[c] as int, self.samples@[c] as int)
    }

    /// Whether channel `c` is bad: heard below `threshold` on average, or with too many
    /// failures. A channel without measurements and failures is not.
    pub open spec fn bad(self, c: int, threshold: i8) -> bool {
        (self.samples@[c] > 0 && self.rssi_acc@[c] < 10 * threshold * self.samples@[c])
            || self.retx_score@[c] >= RETX_SCORE_BAD
    }

    /// How well channel `c` is heard; a channel without measurements ranks last.
    pub open spec fn quality(self, c: int) -> int {
        if self.samples@[c] > 0 {
            self.average(c)
        } else {
            -0x4000_0000
        }
    }

    /// Whether bad channel `c` is brought back before bad channel `d`.
    pub open spec fn before(self, c: int, d: int) -> bool {
        self.quality(c) > self.quality(d) || (self.quality(c) == self.quality(d) && c < d)
    }

    /// Whether `map` is the outcome of a classification: channels that are not bad stay
    /// as they are; bad channels go out of use, except that the best of them stay in or
    /// come back where fewer than `min` channels would be left, and only as many as it
    /// takes.
    pub open spec fn classified(self, threshold: i8, min: u8, map: Seq<bool>) -> bool {
        let least = if min < MIN_CHANNELS {
            MIN_CHANNELS
        } else {
            min
        };
        &&& map.len() == 79
        &&& forall|c: int|
            0 <= c < 79 && !self.bad(c, threshold) ==> #[trigger] map[c]
                == self.hopping.channel_map@[c]
        &&& (exists|c: int| 0 <= c < 79 && self.bad(c, threshold) && #[trigger] map[c])
            ==> sle_phy::marked_below(map, 79) <= least
        &&& (exists|c: int| 0 <= c < 79 && self.bad(c, threshold) && !#[trigger] map[c])
            ==> sle_phy::marked_below(map, 79) >= least
        &&& forall|c: int, d: int|
            0 <= c < 79 && 0 <= d < 79 && self.bad(c, threshold) && self.bad(d, threshold)
                && #[trigger] map[c] && !#[trigger] map[d] ==> self.before(c, d)
    }

    /// Reports since the last classification.
    pub open spec fn reports(self) -> int {
        sum_below(self.samples@, 79) + self.tx_attempts
    }

    /// Whether `self` is `old_self` after a classification.
    pub open spec fn after_classify(self, old_self: AfhState, threshold: i8, min: u8) -> bool {
        &&& old_self.classified(threshold, min, self.hopping.channel_map@)
        &&& self.hopping.channel_map.wf()
        &&& self.hopping == (HoppingState {
            channel_map: self.hopping.channel_map,
            ..old_self.hopping
        })
        &&& forall|c: int| 0 <= c < 79 ==> #[trigger] self.rssi_acc@[c] == 0
        &&& forall|c: int| 0 <= c < 79 ==> #[trigger] self.samples@[c] == 0
        &&& forall|c: int| 0 <= c < 79 ==> #[trigger] self.retx_score@[c] == 0
        &&& self.tx_attempts == 0
        &&& self.auto_classify_threshold == old_self.auto_classify_threshold
    }

    /// Whether `self` is `old_self` after a transmission on channel `c` was reported,
    /// before classification: retransmissions count three, successes take one off.
    pub open spec fn counted(self, old_self: AfhState, c: int, retransmitted: bool) -> bool {
        let s = old_self.retx_score@[c];
        &&& self.hopping == old_self.hopping
        &&& self.rssi_acc@ == old_self.rssi_acc@
        &&& self.samples@ == old_self.samples@
        &&& self.retx_score@ == old_self.retx_score@.update(
            c,
            if retransmitted {
                if s > 252 {
                    255
                } else {
                    (s + 3) as u8
                }
            } else if s == 0 {
                0
            } else {
                (s - 1) as u8
            },
        )
        &&& self.tx_attempts == (if old_self.tx_attempts == u32::MAX {
            u32::MAX as int
        } else {
            old_self.tx_attempts + 1
        })
        &&& self.auto_classify_threshold == old_self.auto_classify_threshold
    }

    /// Whether `self` is `old_self` after a transmission on channel `c` was reported:
    /// where automatic classification is on and more reports came in than it asks for,
    /// the channels are classified.
    pub open spec fn reported(self, old_self: AfhState, c: int, retransmitted: bool) -> bool {
        exists|mid: AfhState| #[trigger]
            mid.counted(old_self, c, retransmitted) && {
                if mid.auto_classify_threshold > 0 && mid.reports() > mid.auto_classify_threshold {
                    self.after_classify(mid, AUTO_THRESHOLD_DBM, MIN_CHANNELS)
                } else {
                    self == mid
                }
            }
    }

    /// Hopping over all channels that has not begun, and nothing measured.
    pub open spec fn fresh(self) -> bool {
        &&& self.hopping.hop_increment == 7
        &&& self.hopping.event_counter == 0
        &&& self.hopping.last_channel == 0
        &&& forall|c: int| 0 <= c < 79 ==> #[trigger] self.hopping.channel_map@[c]
        &&& forall|c: int| 0 <= c < 79 ==> #[trigger] self.rssi_acc@[c] == 0
        &&& forall|c: int| 0 <= c < 79 ==> #[trigger] self.samples@[c] == 0
        &&& forall|c: int| 0 <= c < 79 ==> #[trigger] self.retx_score@[c] == 0
        &&& self.tx_attempts == 0
        &&& self.auto_classify_threshold == 0
    }

    /// Fresh hopping over all channels.
    pub fn new() -> (r: Self)
        ensures
            r.fresh(),
            r.hopping.channel_map.wf(),
    {
        AfhState {
            hopping: HoppingState::new(7, ChannelMap::all_used()),
            rssi_acc: [0i64; 79],
            samples: [0u16; 79],
            retx_score: [0u8; 79],
            tx_attempts: 0,
            auto_classify_threshold: 0,
        }
    }

    fn is_bad(&self, ch: u8, threshold: i8) -> (r: bool)
        requires
            ch < 79,
        ensures
            r == self.bad(ch as int, threshold),
    {
        let idx = ch as usize;
        if self.samples[idx] > 0 {
            let n = self.samples[idx];
            let t = 10 * (threshold as i64);
            assert(-1280 * 0xFFFF <= t * n <= 1270 * 0xFFFF) by (nonlinear_arith)
                requires
                    -1280 <= t <= 1270,
                    n <= 0xFFFF,
            ;
            if self.rssi_acc[idx] < t * (n as i64) {
                return true;
            }
        }
        self.retx_score[idx] >= RETX_SCORE_BAD
    }

    fn quality_of(&self, ch: u8) -> (r: i64)
        requires
            ch < 79,
        ensures
            r == self.quality(ch as int),
    {
        let idx = ch as usize;
        if self.samples[idx] > 0 {
            average(self.rssi_acc[idx], self.samples[idx])
        } else {
            -0x4000_0000
        }
    }

    /// The bad channels, those first that are brought back first.
    fn rank_bad(&self, threshold: i8) -> (r: Vec<u8>)
        ensures
            forall|i: int|
                0 <= i < r@.len() ==> (#[trigger] r@[i]) < 79 && self.bad(r@[i] as int, threshold),
            forall|c: int|
                0 <= c < 79 && #[trigger] self.bad(c, threshold) ==> r@.contains(c as u8),
            forall|i: int, j: int|
                0 <= i < j < r@.len() ==> self.before(#[trigger] r@[i] as int, #[trigger] r@[j] as int),
    {
        let mut list: Vec<u8> = Vec::new();
        let mut ch: u8 = 0;
        while ch < 79
            invariant
                ch <= 79,
                forall|i: int|
                    0 <= i < list@.len() ==> (#[trigger] list@[i]) < ch && self.bad(
                        list@[i] as int,
                        threshold,
                    ),
                forall|c: int|
                    0 <= c < ch && #[trigger] self.bad(c, threshold) ==> list@.contains(c as u8),
                forall|i: int, j: int|
                    0 <= i < j < list@.len() ==> self.before(
                        #[trigger] list@[i] as int,
                        #[trigger] list@[j] as int,
                    ),
            decreases 79 - ch,
        {
            if self.is_bad(ch, threshold) {
                let q = self.quality_of(ch);
                let mut j = list.len();
                while j > 0 && self.quality_of(list[j - 1]) < q
                    invariant
                        j <= list.len(),
                        ch < 79,
                        q == self.quality(ch as int),
                        forall|i: int| 0 <= i < list@.len() ==> (#[trigger] list@[i]) < ch,
                        forall|i: int|
                            j <= i < list@.len() ==> self.before(
                                ch as int,
                                #[trigger] list@[i] as int,
                            ),
                    decreases j,
                {
                    j = j - 1;
                }
                let ghost before = list@;
                assert(j > 0 ==> self.before(before[j - 1] as int, ch as int));
                assert forall|i: int| 0 <= i < j implies self.before(
                    #[trigger] before[i] as int,
                    ch as int,
                ) by {
                    if i < j - 1 {
                        assert(self.before(before[i] as int, before[j - 1] as int));
                    }
                }
                list.insert(j, ch);
                proof {
                    assert(list@ == before.insert(j as int, ch));
                    assert forall|c: int| 0 <= c < ch + 1 && #[trigger] self.bad(
                        c,
                        threshold,
                    ) implies list@.contains(c as u8) by {
                        if c == ch {
                            assert(list@[j as int] == ch);
                        } else {
                            assert(before.contains(c as u8));
                            let k = choose|k: int|
                                0 <= k < before.len() && before[k] == c as u8;
                            if k < j {
                                assert(list@[k] == c as u8);
                            } else {
                                assert(list@[k + 1] == c as u8);
                            }
                        }
                    }
                    assert forall|a: int, b: int| 0 <= a < b < list@.len() implies self.before(
                        #[trigger] list@[a] as int,
                        #[trigger] list@[b] as int,
                    ) by {
                        let pa = if a < j {
                            a
                        } else {
                            a - 1
                        };
                        let pb = if b < j {
                            b
                        } else {
                            b - 1
                        };
                        if a != j && b != j {
                            assert(self.before(before[pa] as int, before[pb] as int));
                        }
                    }
                }
            }
            ch = ch + 1;
        }
        list
    }

    /// Takes bad channels out of use and forgets what was measured. Channels heard below
    /// `threshold_dbm` on average are bad, and those with many retransmissions. Where
    /// fewer than `min_channels` (at least 2) would be left, the best of the bad ones
    /// stay in use. Returns the new map.
    pub fn classify(&mut self, threshold_dbm: i8, min_channels: u8) -> (r: ChannelMap)
        requires
            old(self).hopping.channel_map.wf(),
        ensures
            final(self).after_classify(*old(self), threshold_dbm, min_channels),
            r == final(self).hopping.channel_map,
    {
        let min_ch = if min_channels < MIN_CHANNELS {
            MIN_CHANNELS
        } else {
            min_channels
        };
        let bad = self.rank_bad(threshold_dbm);
        let mut map = self.hopping.channel_map;
        let ghost start = map@;
        proof {
            map.raw_marks();
        }
        let mut i: usize = 0;
        while i < bad.len()
            invariant
                i <= bad.len(),
                map.wf(),
                *self == *old(self),
                start == self.hopping.channel_map@,
                start.len() == 79,
                map@.len() == 79,
                forall|k: int|
                    0 <= k < bad@.len() ==> (#[trigger] bad@[k]) < 79 && self.bad(
                        bad@[k] as int,
                        threshold_dbm,
                    ),
                forall|k: int| 0 <= k < i ==> !map@[#[trigger] bad@[k] as int],
                forall|c: int|
                    0 <= c < 79 && !self.bad(c, threshold_dbm) ==> #[trigger] map@[c] == start[c],
            decreases bad.len() - i,
        {
            let ghost m = map@;
            map.set_used(bad[i], false);
            assert(map@ == m.update(bad@[i as int] as int, false));
            i = i + 1;
        }
        let mut n: usize = 0;
        while n < bad.len() && map.used_count() < min_ch
            invariant
                n <= bad.len(),
                map.wf(),
                *self == *old(self),
                start == self.hopping.channel_map@,
                start.len() == 79,
                map@.len() == 79,
                forall|k: int|
                    0 <= k < bad@.len() ==> (#[trigger] bad@[k]) < 79 && self.bad(
                        bad@[k] as int,
                        threshold_dbm,
                    ),
                forall|a: int, b: int|
                    0 <= a < b < bad@.len() ==> self.before(
                        #[trigger] bad@[a] as int,
                        #[trigger] bad@[b] as int,
                    ),
                forall|k: int| 0 <= k < n ==> map@[#[trigger] bad@[k] as int],
                forall|k: int| n <= k < bad@.len() ==> !map@[#[trigger] bad@[k] as int],
                forall|c: int|
                    0 <= c < 79 && !self.bad(c, threshold_dbm) ==> #[trigger] map@[c] == start[c],
                n > 0 ==> sle_phy::marked_below(map@, 79) <= min_ch,
            decreases bad.len() - n,
        {
            let ghost m = map@;
            let c = bad[n];
            map.set_used(c, true);
            proof {
                assert(map@ == m.update(c as int, true));
                sle_phy::marked_below_update(m, c as int, true, 79);
                assert forall|k: int| 0 <= k < n + 1 implies map@[#[trigger] bad@[k] as int] by {
                    if k < n {
                        assert(m[bad@[k] as int]);
                    }
                }
                assert forall|k: int| n + 1 <= k < bad@.len() implies !map@[
                    #[trigger] bad@[k] as int] by {
                    assert(self.before(bad@[n as int] as int, bad@[k] as int));
                    assert(!m[bad@[k] as int]);
                }
            }
            n = n + 1;
        }
        proof {
            let final_map = map@;
            assert forall|c: int| 0 <= c < 79 && self.bad(c, threshold_dbm) implies (exists|k: int|
                0 <= k < bad@.len() && #[trigger] bad@[k] == c) by {
                assert(bad@.contains(c as u8));
                let k = choose|k: int| 0 <= k < bad@.len() && bad@[k] == c as u8;
                assert(bad@[k] == c);
            }
            assert forall|c: int, d: int|
                0 <= c < 79 && 0 <= d < 79 && self.bad(c, threshold_dbm) && self.bad(
                    d,
                    threshold_dbm,
                ) && #[trigger] final_map[c] && !#[trigger] final_map[d] implies self.before(
                c,
                d,
            ) by {
                let a = choose|k: int| 0 <= k < bad@.len() && #[trigger] bad@[k] == c;
                let b = choose|k: int| 0 <= k < bad@.len() && #[trigger] bad@[k] == d;
                assert(final_map[bad@[a] as int]);
                assert(!final_map[bad@[b] as int]);
                assert(a < n);
                assert(n <= b);
                assert(self.before(bad@[a] as int, bad@[b] as int));
            }
            if exists|c: int|
                0 <= c < 79 && self.bad(c, threshold_dbm) && #[trigger] final_map[c] {
                let c = choose|c: int|
                    0 <= c < 79 && self.bad(c, threshold_dbm) && #[trigger] final_map[c];
                let a = choose|k: int| 0 <= k < bad@.len() && #[trigger] bad@[k] == c;
                assert(final_map[bad@[a] as int]);
                assert(n > 0);
            }
            if exists|c: int|
                0 <= c < 79 && self.bad(c, threshold_dbm) && !#[trigger] final_map[c] {
                let c = choose|c: int|
                    0 <= c < 79 && self.bad(c, threshold_dbm) && !#[trigger] final_map[c];
                let a = choose|k: int| 0 <= k < bad@.len() && #[trigger] bad@[k] == c;
                assert(!final_map[bad@[a] as int]);
                assert(n < bad@.len());
            }
            assert(self.classified(threshold_dbm, min_channels, final_map));
        }
        self.hopping.update_map(map);
        self.rssi_acc = [0i64; 79];
        self.samples = [0u16; 79];
        self.retx_score = [0u8; 79];
        self.tx_attempts = 0;
        map
    }

    /// Takes in a measurement of the signal strength on a channel, or returns `EINVAL`
    /// where there is no such channel.
    pub fn report_rssi(&mut self, channel: u8, rssi_dbm: i8) -> (r: Result<(), Errno>)
        requires
            channel < 79 ==> i64::MIN <= old(self).rssi_acc@[channel as int] + 10 * rssi_dbm
                <= i64::MAX,
        ensures
            if channel < 79 {
                &&& r == Ok::<(), Errno>(())
                &&& final(self).measured(*old(self), channel as int, rssi_dbm)
            } else {
                r == Err::<(), Errno>(Errno::EINVAL) && *final(self) == *old(self)
            },
    {
        if channel >= 79 {
            return Err(Errno::EINVAL);
        }
        let idx = channel as usize;
        let acc = self.rssi_acc[idx];
        let n = self.samples[idx];
        self.rssi_acc[idx] = acc + 10 * (rssi_dbm as i64);
        self.samples[idx] = if n == 0xFFFF {
            0xFFFF
        } else {
            n + 1
        };
        Ok(())
    }

    /// Whether `self` is `old_self` after a measurement of `rssi` on channel `c`.
    pub open spec fn measured(self, old_self: AfhState, c: int, rssi: i8) -> bool {
        &&& self.hopping == old_self.hopping
        &&& self.rssi_acc@ == old_self.rssi_acc@.update(
            c,
            (old_self.rssi_acc@[c] + 10 * rssi) as i64,
        )
        &&& self.samples@ == old_self.samples@.update(
            c,
            if old_self.samples@[c] == 0xFFFF {
                0xFFFF
            } else {
                (old_self.samples@[c] + 1) as u16
            },
        )
        &&& self.retx_score@ == old_self.retx_score@
        &&& self.tx_attempts == old_self.tx_attempts
        &&& self.auto_classify_threshold == old_self.auto_classify_threshold
    }

    fn total_reports(&self) -> (r: u64)
        ensures
            r == self.reports(),
    {
        let mut total: u64 = 0;
        let mut i: usize = 0;
        while i < 79
            invariant
                i <= 79,
                total == sum_below(self.samples@, i as int),
                total <= 0xFFFF * i,
            decreases 79 - i,
        {
            total = total + self.samples[i] as u64;
            i = i + 1;
        }
        total + self.tx_attempts as u64
    }

    /// Takes in a transmission on a channel, or returns `EINVAL` where there is no such
    /// channel. Where more reports came in than automatic classification asks for, the
    /// channels are classified.
    pub fn report_retx(&mut self, channel: u8, retransmitted: bool) -> (r: Result<(), Errno>)
        requires
            old(self).hopping.channel_map.wf(),
        ensures
            if channel < 79 {
                &&& r == Ok::<(), Errno>(())
                &&& final(self).reported(*old(self), channel as int, retransmitted)
            } else {
                r == Err::<(), Errno>(Errno::EINVAL) && *final(self) == *old(self)
            },
            final(self).hopping.channel_map.wf(),
    {
        if channel >= 79 {
            return Err(Errno::EINVAL);
        }
        let idx = channel as usize;
        let s = self.retx_score[idx];
        self.retx_score[idx] = if retransmitted {
            if s > 252 {
                255
            } else {
                s + 3
            }
        } else if s == 0 {
            0
        } else {
            s - 1
        };
        if self.tx_attempts < u32::MAX {
            self.tx_attempts = self.tx_attempts + 1;
        }
        let ghost mid = *self;
        assert(mid.counted(*old(self), channel as int, retransmitted));
        if self.auto_classify_threshold > 0 {
            let total = self.total_reports();
            if total > self.auto_classify_threshold as u64 {
                let _ = self.classify(AUTO_THRESHOLD_DBM, MIN_CHANNELS);
            }
        }
        Ok(())
    }
}

fn average(acc: i64, n: u16) -> (r: i64)
    requires
        n > 0,
    ensures
        r == trunc_div(acc as int, n as int),
{
    if acc >= 0 {
        let q = (acc as u64) / (n as u64);
        assert(q <= acc) by (nonlinear_arith)
            requires
                q == acc as u64 / n as u64,
                n > 0,
                acc >= 0,
        ;
        q as i64
    } else {
        let m = (-(acc as i128)) as u64;
        let q = m / (n as u64);
        assert(q <= m) by (nonlinear_arith)
            requires
                q == m / n as u64,
                n > 0,
        ;
        (-(q as i128)) as i64
    }
}

/// A map that had enough channels still has enough after a classification.
pub proof fn classify_keeps_enough(s: AfhState, threshold: i8, min: u8, map: Seq<bool>)
    requires
        s.classified(threshold, min, map),
        s.hopping.channel_map@.len() == 79,
        sle_phy::marked_below(s.hopping.channel_map@, 79) >= min,
        sle_phy::marked_below(s.hopping.channel_map@, 79) >= MIN_CHANNELS,
    ensures
        sle_phy::marked_below(map, 79) >= min,
        sle_phy::marked_below(map, 79) >= MIN_CHANNELS,
{
    let old_map = s.hopping.channel_map@;
    if !(exists|c: int| 0 <= c < 79 && s.bad(c, threshold) && !#[trigger] map[c]) {
        assert forall|c: int| 0 <= c < 79 && old_map[c] implies map[c] by {
            if !s.bad(c, threshold) {
                assert(map[c] == old_map[c]);
            }
        }
        more_marked(old_map, map, 79);
    }
}

proof fn more_marked(a: Seq<bool>, b: Seq<bool>, n: int)
    requires
        n <= a.len(),
        n <= b.len(),
        forall|c: int| 0 <= c < n && a[c] ==> b[c],
    ensures
        sle_phy::marked_below(a, n) <= sle_phy::marked_below(b, n),
    decreases n,
{
    if n > 0 {
        more_marked(a, b, n - 1);
    }
}

} // verus!
