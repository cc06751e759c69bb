//! Physical layer: modulation and coding schemes, frequency hopping, antennas.

use vstd::prelude::*;

use crate::bytes;
use crate::errno::Errno;
use crate::sle_dli::SleFeature;

verus! {

/// Modulations.
#[derive(Clone, Copy, Debug, PartialEq, Eq, Structural)]
pub enum Modulation {
    Bpsk,
    Qpsk,
    Qam16,
    Qam64,
    Qam256,
}

impl Modulation {
    /// The number of the modulation.
    #[verifier::allow_in_spec]
    pub fn code(self) -> u8
        returns
            (match self {
                Modulation::Bpsk => 0u8,
                Modulation::Qpsk => 1u8,
                Modulation::Qam16 => 2u8,
                Modulation::Qam64 => 3u8,
                Modulation::Qam256 => 4u8,
            }),
    {
        match self {
            Modulation::Bpsk => 0,
            Modulation::Qpsk => 1,
            Modulation::Qam16 => 2,
            Modulation::Qam64 => 3,
            Modulation::Qam256 => 4,
        }
    }

    /// The modulation of number `v`, where there is one.
    #[verifier::allow_in_spec]
    pub fn from_raw(v: u8) -> Option<Modulation>
        returns
            (if v == 0 {
                Some(Modulation::Bpsk)
            } else if v == 1 {
                Some(Modulation::Qpsk)
            } else if v == 2 {
                Some(Modulation::Qam16)
            } else if v == 3 {
                Some(Modulation::Qam64)
            } else if v == 4 {
                Some(Modulation::Qam256)
            } else {
                None
            }),
    {
        match v {
            0 => Some(Modulation::Bpsk),
            1 => Some(Modulation::Qpsk),
            2 => Some(Modulation::Qam16),
            3 => Some(Modulation::Qam64),
            4 => Some(Modulation::Qam256),
            _ => None,
        }
    }
}

impl Modulation {
    /// Bits that one symbol carries.
    #[verifier::allow_in_spec]
    pub fn bits_per_symbol(self) -> u8
        returns
            (match self {
                Modulation::Bpsk => 1u8,
                Modulation::Qpsk => 2u8,
                Modulation::Qam16 => 4u8,
                Modulation::Qam64 => 6u8,
                Modulation::Qam256 => 8u8,
            }),
    {
        match self {
            Modulation::Bpsk => 1,
            Modulation::Qpsk => 2,
            Modulation::Qam16 => 4,
            Modulation::Qam64 => 6,
            Modulation::Qam256 => 8,
        }
    }
}

/// Share of payload bits among the bits sent, as a fraction.
#[derive(Clone, Copy, Debug, PartialEq, Eq, Structural)]
pub struct CodeRate {
    /// Numerator.
    pub num: u8,
    /// Denominator.
    pub den: u8,
}

impl CodeRate {
    /// The fraction in thousandths.
    pub fn efficiency_x1000(self) -> (r: u32)
        requires
            self.den != 0,
        ensures
            r == self.num * 1000 / (self.den as int),
    {
        (self.num as u32) * 1000 / (self.den as u32)
    }
}

/// A modulation and coding scheme.
#[derive(Clone, Copy, Debug, PartialEq, Eq, Structural)]
pub struct McsParams {
    /// Index of the scheme, 0 to 12.
    pub index: u8,
    /// Its modulation.
    pub modulation: Modulation,
    /// Its code rate.
    pub code_rate: CodeRate,
    /// Data rate in kbit/s at 1 MHz of bandwidth.
    pub data_rate_1m_kbps: u16,
    /// Whether it uses several carriers.
    pub ofdm: bool,
}

/// Number of schemes.
pub const MCS_COUNT: u8 = 13;

/// The schemes.
pub open spec fn mcs_table(i: int) -> McsParams {
    if i == 0 {
        McsParams {
            index: 0,
            modulation: Modulation::Bpsk,
            code_rate: CodeRate { num: 1, den: 4 },
            data_rate_1m_kbps: 125,
            ofdm: false,
        }
    } else if i == 1 {
        McsParams {
            index: 1,
            modulation: Modulation::Bpsk,
            code_rate: CodeRate { num: 1, den: 2 },
            data_rate_1m_kbps: 250,
            ofdm: false,
        }
    } else if i == 2 {
        McsParams {
            index: 2,
            modulation: Modulation::Bpsk,
            code_rate: CodeRate { num: 3, den: 4 },
            data_rate_1m_kbps: 375,
            ofdm: false,
        }
    } else if i == 3 {
        McsParams {
            index: 3,
            modulation: Modulation::Qpsk,
            code_rate: CodeRate { num: 1, den: 4 },
            data_rate_1m_kbps: 250,
            ofdm: false,
        }
    } else if i == 4 {
        McsParams {
            index: 4,
            modulation: Modulation::Qpsk,
            code_rate: CodeRate { num: 1, den: 2 },
            data_rate_1m_kbps: 500,
            ofdm: false,
        }
    } else if i == 5 {
        McsParams {
            index: 5,
            modulation: Modulation::Qpsk,
            code_rate: CodeRate { num: 3, den: 4 },
            data_rate_1m_kbps: 750,
            ofdm: false,
        }
    } else if i == 6 {
        McsParams {
            index: 6,
            modulation: Modulation::Qam16,
            code_rate: CodeRate { num: 1, den: 2 },
            data_rate_1m_kbps: 1000,
            ofdm: false,
        }
    } else if i == 7 {
        McsParams {
            index: 7,
            modulation: Modulation::Qpsk,
            code_rate: CodeRate { num: 1, den: 2 },
            data_rate_1m_kbps: 500,
            ofdm: true,
        }
    } else if i == 8 {
        McsParams {
            index: 8,
            modulation: Modulation::Qpsk,
            code_rate: CodeRate { num: 3, den: 4 },
            data_rate_1m_kbps: 750,
            ofdm: true,
        }
    } else if i == 9 {
        McsParams {
            index: 9,
            modulation: Modulation::Qam16,
            code_rate: CodeRate { num: 1, den: 2 },
            data_rate_1m_kbps: 1000,
            ofdm: true,
        }
    } else if i == 10 {
        McsParams {
            index: 10,
            modulation: Modulation::Qam16,
            code_rate: CodeRate { num: 3, den: 4 },
            data_rate_1m_kbps: 1500,
            ofdm: true,
        }
    } else if i == 11 {
        McsParams {
            index: 11,
            modulation: Modulation::Qam64,
            code_rate: CodeRate { num: 3, den: 4 },
            data_rate_1m_kbps: 2250,
            ofdm: true,
        }
    } else {
        McsParams {
            index: 12,
            modulation: Modulation::Qam256,
            code_rate: CodeRate { num: 5, den: 6 },
            data_rate_1m_kbps: 3333,
            ofdm: true,
        }
    }
}

/// Signal-to-noise ratio, in tenths of a decibel, that each scheme needs.
pub open spec fn sinr_table(i: int) -> int {
    if i == 0 {
        -20
    } else if i == 1 {
        10
    } else if i == 2 {
        40
    } else if i == 3 {
        20
    } else if i == 4 {
        50
    } else if i == 5 {
        80
    } else if i == 6 {
        100
    } else if i == 7 {
        60
    } else if i == 8 {
        90
    } else if i == 9 {
        120
    } else if i == 10 {
        150
    } else if i == 11 {
        190
    } else {
        230
    }
}

fn mcs_at(i: u8) -> (r: McsParams)
    requires
        i < 13,
    ensures
        r == mcs_table(i as int),
{
    if i == 0 {
        McsParams {
            index: 0,
            modulation: Modulation::Bpsk,
            code_rate: CodeRate { num: 1, den: 4 },
            data_rate_1m_kbps: 125,
            ofdm: false,
        }
    } else if i == 1 {
        McsParams {
            index: 1,
            modulation: Modulation::Bpsk,
            code_rate: CodeRate { num: 1, den: 2 },
            data_rate_1m_kbps: 250,
            ofdm: false,
        }
    } else if i == 2 {
        McsParams {
            index: 2,
            modulation: Modulation::Bpsk,
            code_rate: CodeRate { num: 3, den: 4 },
            data_rate_1m_kbps: 375,
            ofdm: false,
        }
    } else if i == 3 {
        McsParams {
            index: 3,
            modulation: Modulation::Qpsk,
            code_rate: CodeRate { num: 1, den: 4 },
            data_rate_1m_kbps: 250,
            ofdm: false,
        }
    } else if i == 4 {
        McsParams {
            index: 4,
            modulation: Modulation::Qpsk,
            code_rate: CodeRate { num: 1, den: 2 },
            data_rate_1m_kbps: 500,
            ofdm: false,
        }
    } else if i == 5 {
        McsParams {
            index: 5,
            modulation: Modulation::Qpsk,
            code_rate: CodeRate { num: 3, den: 4 },
            data_rate_1m_kbps: 750,
            ofdm: false,
        }
    } else if i == 6 {
        McsParams {
            index: 6,
            modulation: Modulation::Qam16,
            code_rate: CodeRate { num: 1, den: 2 },
            data_rate_1m_kbps: 1000,
            ofdm: false,
        }
    } else if i == 7 {
        McsParams {
            index: 7,
            modulation: Modulation::Qpsk,
            code_rate: CodeRate { num: 1, den: 2 },
            data_rate_1m_kbps: 500,
            ofdm: true,
        }
    } else if i == 8 {
        McsParams {
            index: 8,
            modulation: Modulation::Qpsk,
            code_rate: CodeRate { num: 3, den: 4 },
            data_rate_1m_kbps: 750,
            ofdm: true,
        }
    } else if i == 9 {
        McsParams {
            index: 9,
            modulation: Modulation::Qam16,
            code_rate: CodeRate { num: 1, den: 2 },
            data_rate_1m_kbps: 1000,
            ofdm: true,
        }
    } else if i == 10 {
        McsParams {
            index: 10,
            modulation: Modulation::Qam16,
            code_rate: CodeRate { num: 3, den: 4 },
            data_rate_1m_kbps: 1500,
            ofdm: true,
        }
    } else if i == 11 {
        McsParams {
            index: 11,
            modulation: Modulation::Qam64,
            code_rate: CodeRate { num: 3, den: 4 },
            data_rate_1m_kbps: 2250,
            ofdm: true,
        }
    } else {
        McsParams {
            index: 12,
            modulation: Modulation::Qam256,
            code_rate: CodeRate { num: 5, den: 6 },
            data_rate_1m_kbps: 3333,
            ofdm: true,
        }
    }
}

fn sinr_at(i: u8) -> (r: i16)
    requires
        i < 13,
    ensures
        r == sinr_table(i as int),
{
    if i == 0 {
        -20
    } else if i == 1 {
        10
    } else if i == 2 {
        40
    } else if i == 3 {
        20
    } else if i == 4 {
        50
    } else if i == 5 {
        80
    } else if i == 6 {
        100
    } else if i == 7 {
        60
    } else if i == 8 {
        90
    } else if i == 9 {
        120
    } else if i == 10 {
        150
    } else if i == 11 {
        190
    } else {
        230
    }
}

/// The scheme of index `index`, where there is one.
pub fn mcs_lookup(index: u8) -> (r: Option<McsParams>)
    ensures
        r == (if index < MCS_COUNT {
            Some(mcs_table(index as int))
        } else {
            None
        }),
{
    if index < MCS_COUNT {
        Some(mcs_at(index))
    } else {
        None
    }
}

/// Data rate of scheme `i` at `mhz` of bandwidth, in kbit/s.
pub open spec fn rate(i: int, mhz: u8) -> int {
    mcs_table(i).data_rate_1m_kbps * mhz
}

/// Data rate of scheme `mcs_index` at `bandwidth_mhz`, in kbit/s.
pub fn data_rate_kbps(mcs_index: u8, bandwidth_mhz: u8) -> (r: Option<u32>)
    ensures
        match r {
            Some(v) => mcs_index < MCS_COUNT && v == rate(mcs_index as int, bandwidth_mhz),
            None => mcs_index >= MCS_COUNT,
        },
{
    match mcs_lookup(mcs_index) {
        Some(p) => {
            let base = p.data_rate_1m_kbps as u32;
            let mhz = bandwidth_mhz as u32;
            assert(base <= 3333);
            assert(base * mhz <= 3333 * 255) by (nonlinear_arith)
                requires
                    base <= 3333,
                    mhz <= 255,
            ;
            Some(base * mhz)
        },
        None => None,
    }
}

/// Whether scheme `i` is fast enough and its signal strong enough.
pub open spec fn mcs_fits(i: int, min_kbps: u32, mhz: u8, sinr: i16) -> bool {
    rate(i, mhz) >= min_kbps && sinr_table(i) <= sinr
}

/// The fastest scheme of at least `min_kbps` whose need of signal-to-noise ratio
/// `sinr_db_x10` (tenths of a decibel) meets; of two of the same rate the one with
/// the higher index. Scheme 0 where none fits.
pub fn mcs_select(min_kbps: u32, bandwidth_mhz: u8, sinr_db_x10: i16) -> (r: u8)
    ensures
        r < MCS_COUNT,
        (exists|i: int| 0 <= i < 13 && #[trigger] mcs_fits(i, min_kbps, bandwidth_mhz, sinr_db_x10))
            ==> mcs_fits(r as int, min_kbps, bandwidth_mhz, sinr_db_x10) && (forall|i: int|
            0 <= i < 13 && #[trigger] mcs_fits(i, min_kbps, bandwidth_mhz, sinr_db_x10) ==> rate(
                i,
                bandwidth_mhz,
            ) < rate(r as int, bandwidth_mhz) || (rate(i, bandwidth_mhz) == rate(
                r as int,
                bandwidth_mhz,
            ) && i <= r)),
        (forall|i: int|
            0 <= i < 13 ==> !#[trigger] mcs_fits(i, min_kbps, bandwidth_mhz, sinr_db_x10)) ==> r
            == 0,
{
    let mut best: u8 = 0;
    let mut best_rate: u32 = 0;
    let mut found = false;
    let mut i: u8 = 0;
    while i < 13
        invariant
            i <= 13,
            best < 13,
            found ==> best < i && best_rate == rate(best as int, bandwidth_mhz) && mcs_fits(
                best as int,
                min_kbps,
                bandwidth_mhz,
                sinr_db_x10,
            ),
            found ==> forall|k: int|
                0 <= k < i && #[trigger] mcs_fits(k, min_kbps, bandwidth_mhz, sinr_db_x10) ==> rate(
                    k,
                    bandwidth_mhz,
                ) < best_rate || (rate(k, bandwidth_mhz) == best_rate && k <= best),
            !found ==> best == 0 && forall|k: int|
                0 <= k < i ==> !#[trigger] mcs_fits(k, min_kbps, bandwidth_mhz, sinr_db_x10),
        decreases 13 - i,
    {
        let p = mcs_at(i);
        let base = p.data_rate_1m_kbps as u32;
        let mhz = bandwidth_mhz as u32;
        assert(base <= 3333);
        assert(base * mhz <= 3333 * 255) by (nonlinear_arith)
            requires
                base <= 3333,
                mhz <= 255,
        ;
        let r = base * mhz;
        if r >= min_kbps && sinr_at(i) <= sinr_db_x10 && (!found || r >= best_rate) {
            best = i;
            best_rate = r;
            found = true;
        }
        i = i + 1;
    }
    best
}

/// The signal-to-noise ratios that the schemes need, in tenths of a decibel.
pub fn default_sinr_thresholds() -> (r: [i16; 13])
    ensures
        forall|i: int| 0 <= i < 13 ==> r@[i] == sinr_table(i),
        r@ == Seq::new(13, |i: int| sinr_table(i) as i16),
{
    let mut r: [i16; 13] = [0i16; 13];
    let mut i: u8 = 0;
    while i < 13
        invariant
            i <= 13,
            forall|k: int| 0 <= k < i ==> r@[k] == sinr_table(k),
        decreases 13 - i,
    {
        r[i as usize] = sinr_at(i);
        i = i + 1;
    }
    r
}

/// Number of channels; channel 0 lies at 2402 MHz, each channel is 1 MHz wide.
pub const NUM_CHANNELS: u8 = 79;

/// Bit `i` of byte `b`.
pub open spec fn bit(b: u8, i: u8) -> bool {
    (b >> i) & 1 != 0
}

/// Number of marked channels below channel `n`.
pub open spec fn marked_below(s: Seq<bool>, n: int) -> nat
    decreases n,
{
    if n <= 0 {
        0
    } else {
        marked_below(s, n - 1) + (if s[n - 1] {
            1nat
        } else {
            0nat
        })
    }
}

/// The channels that ten bytes of flags mark, channel 0 first.
pub open spec fn marks(m: Seq<u8>) -> Seq<bool> {
    Seq::new(79, |i: int| bit(m[i / 8], (i % 8) as u8))
}

/// A byte with bit `i` set or cleared and its other bits kept.
pub open spec fn with_bit(b: u8, i: u8, v: bool) -> u8 {
    if v {
        b | (1u8 << i)
    } else {
        b & !(1u8 << i)
    }
}

/// Setting or clearing bit `i` of a byte gives that bit the value and keeps the others.
pub proof fn with_bit_frame(b: u8, i: u8, v: bool, j: u8)
    requires
        i < 8,
        j < 8,
    ensures
        bit(with_bit(b, i, v), j) == (if i == j {
            v
        } else {
            bit(b, j)
        }),
{
    bit_ops(b, i, j);
}

/// The number of marked channels grows with the range, and no faster than it.
pub proof fn marked_below_bounds(s: Seq<bool>, a: int, b: int)
    requires
        0 <= a <= b,
    ensures
        marked_below(s, a) <= marked_below(s, b) <= marked_below(s, a) + (b - a),
        marked_below(s, a) <= a,
    decreases b,
{
    if a < b {
        marked_below_bounds(s, a, b - 1);
    } else if a > 0 {
        marked_below_bounds(s, a - 1, a - 1);
    }
}

/// A marked channel is told by the number of marked channels below it.
pub proof fn nth_unique(s: Seq<bool>, a: int, b: int)
    requires
        0 <= a < s.len(),
        0 <= b < s.len(),
        s[a],
        s[b],
        marked_below(s, a) == marked_below(s, b),
    ensures
        a == b,
{
    if a < b {
        marked_below_bounds(s, a + 1, b);
    } else if b < a {
        marked_below_bounds(s, b + 1, a);
    }
}

/// Marking or clearing one channel changes the number of marked channels accordingly.
pub proof fn marked_below_update(s: Seq<bool>, c: int, v: bool, n: int)
    requires
        0 <= c < s.len(),
        n <= s.len(),
    ensures
        n <= c ==> marked_below(s.update(c, v), n) == marked_below(s, n),
        n > c ==> marked_below(s.update(c, v), n) == marked_below(s, n) - (if s[c] {
            1int
        } else {
            0
        }) + (if v {
            1int
        } else {
            0
        }),
    decreases n,
{
    if n > 0 {
        marked_below_update(s, c, v, n - 1);
    }
}

proof fn bit_ops(b: u8, i: u8, j: u8)
    requires
        i < 8,
        j < 8,
    ensures
        bit(b | (1u8 << i), j) == (i == j || bit(b, j)),
        bit(b & !(1u8 << i), j) == (i != j && bit(b, j)),
        bit(b & 0x7F, j) == (j != 7 && bit(b, j)),
{
    assert(((b | (1u8 << i)) >> j) & 1 != 0 <==> (i == j || (b >> j) & 1 != 0)) by (bit_vector)
        requires
            i < 8,
            j < 8,
    ;
    assert(((b & !(1u8 << i)) >> j) & 1 != 0 <==> (i != j && (b >> j) & 1 != 0)) by (bit_vector)
        requires
            i < 8,
            j < 8,
    ;
    assert(((b & 0x7F) >> j) & 1 != 0 <==> (j != 7 && (b >> j) & 1 != 0)) by (bit_vector)
        requires
            j < 8,
    ;
}

proof fn bits_determine(a: u8, b: u8)
    requires
        forall|j: u8| j < 8 ==> bit(a, j) == bit(b, j),
    ensures
        a == b,
{
    assert(bit(a, 0) == bit(b, 0) && bit(a, 1) == bit(b, 1) && bit(a, 2) == bit(b, 2) && bit(a, 3)
        == bit(b, 3) && bit(a, 4) == bit(b, 4) && bit(a, 5) == bit(b, 5) && bit(a, 6) == bit(b, 6)
        && bit(a, 7) == bit(b, 7));
    assert(a == b) by (bit_vector)
        requires
            ((a >> 0u8) & 1 != 0) == ((b >> 0u8) & 1 != 0),
            ((a >> 1u8) & 1 != 0) == ((b >> 1u8) & 1 != 0),
            ((a >> 2u8) & 1 != 0) == ((b >> 2u8) & 1 != 0),
            ((a >> 3u8) & 1 != 0) == ((b >> 3u8) & 1 != 0),
            ((a >> 4u8) & 1 != 0) == ((b >> 4u8) & 1 != 0),
            ((a >> 5u8) & 1 != 0) == ((b >> 5u8) & 1 != 0),
            ((a >> 6u8) & 1 != 0) == ((b >> 6u8) & 1 != 0),
            ((a >> 7u8) & 1 != 0) == ((b >> 7u8) & 1 != 0),
    ;
}

proof fn full_bits(j: u8)
    requires
        j < 8,
    ensures
        bit(0xFF, j),
        bit(0x7F, j) == (j < 7),
{
    assert((0xFFu8 >> j) & 1 != 0) by (bit_vector)
        requires
            j < 8,
    ;
    assert((0x7Fu8 >> j) & 1 != 0 <==> j < 7) by (bit_vector)
        requires
            j < 8,
    ;
}

/// The channels that may be used.
#[derive(Clone, Copy, Debug)]
pub struct ChannelMap {
    map: [u8; 10],
    used_count: u8,
}

impl ChannelMap {
    /// Whether each of the 79 channels may be used.
    pub closed spec fn view(self) -> Seq<bool> {
        marks(self.map@)
    }

    /// The flags as ten bytes.
    pub closed spec fn raw(self) -> Seq<u8> {
        self.map@
    }

    /// The count is that of the marked channels, and the last flag, which stands for no
    /// channel, is clear.
    pub closed spec fn wf(self) -> bool {
        &&& self.used_count == marked_below(marks(self.map@), 79)
        &&& !bit(self.map@[9], 7)
    }

    /// The flags of a map spell its channels.
    pub proof fn raw_marks(self)
        ensures
            self@ == marks(self.raw()),
            self@.len() == 79,
            self.raw().len() == 10,
            self.wf() ==> !bit(self.raw()[9], 7),
    {
    }

    /// Two maps of the same channels have the same ten bytes.
    pub proof fn raw_determined(self, other: Self)
        requires
            self.wf(),
            other.wf(),
            self@ == other@,
        ensures
            self.raw() == other.raw(),
    {
        assert forall|k: int| 0 <= k < 10 implies self.map@[k] == other.map@[k] by {
            assert forall|j: u8| j < 8 implies bit(self.map@[k], j) == bit(other.map@[k], j) by {
                let i = 8 * k + j;
                assert(i / 8 == k && i % 8 == j);
                if i < 79 {
                    assert(self@[i] == bit(self.map@[k], j));
                    assert(other@[i] == bit(other.map@[k], j));
                } else {
                    assert(k == 9 && j == 7);
                }
            }
            bits_determine(self.map@[k], other.map@[k]);
        }
    }

    /// A map of all channels.
    pub fn all_used() -> (r: Self)
        ensures
            r.wf(),
            forall|i: int| 0 <= i < 79 ==> r@[i],
            r.raw() == seq![0xFFu8, 0xFF, 0xFF, 0xFF, 0xFF, 0xFF, 0xFF, 0xFF, 0xFF, 0x7F],
    {
        let mut map: [u8; 10] = [0xFFu8; 10];
        map[9] = 0x7F;
        let mut r = ChannelMap { map, used_count: 0 };
        assert forall|i: int| 0 <= i < 79 implies r@[i] by {
            full_bits((i % 8) as u8);
        }
        proof {
            full_bits(7);
        }
        r.recount();
        r
    }

    /// The map that ten bytes of flags spell; the last bit stands for no channel.
    pub fn from_raw(raw: [u8; 10]) -> (r: Self)
        ensures
            r.wf(),
            r@ == marks(raw@),
            r.raw() == raw@.update(9, raw@[9] & 0x7F),
    {
        let mut map = raw;
        map[9] = raw[9] & 0x7F;
        let mut r = ChannelMap { map, used_count: 0 };
        proof {
            assert forall|i: int| 0 <= i < 79 implies marks(map@)[i] == marks(raw@)[i] by {
                bit_ops(raw@[9], 0, (i % 8) as u8);
            }
            assert(marks(map@) == marks(raw@));
            bit_ops(raw@[9], 0, 7);
        }
        r.recount();
        r
    }

    fn recount(&mut self)
        requires
            !bit(old(self).raw()[9], 7),
        ensures
            final(self).wf(),
            final(self)@ == old(self)@,
            final(self).raw() == old(self).raw(),
    {
        let mut count: u8 = 0;
        let mut ch: u8 = 0;
        while ch < NUM_CHANNELS
            invariant
                ch <= 79,
                *self == *old(self),
                count == marked_below(self@, ch as int),
                count <= ch,
            decreases 79 - ch,
        {
            if self.is_used(ch) {
                count = count + 1;
            }
            ch = ch + 1;
        }
        self.used_count = count;
    }

    /// Whether a channel may be used.
    pub fn is_used(&self, channel: u8) -> (r: bool)
        ensures
            r == (channel < 79 && self@[channel as int]),
    {
        if channel >= NUM_CHANNELS {
            return false;
        }
        let byte_idx = (channel / 8) as usize;
        let bit_idx = channel % 8;
        (self.map[byte_idx] >> bit_idx) & 1 != 0
    }

    /// Marks a channel as usable or not; a channel that there is not is ignored. Of the
    /// ten bytes only the flag of that channel changes.
    pub fn set_used(&mut self, channel: u8, used: bool)
        requires
            old(self).wf(),
        ensures
            final(self).wf(),
            final(self)@ == (if channel < 79 {
                old(self)@.update(channel as int, used)
            } else {
                old(self)@
            }),
            final(self).raw() == (if channel < 79 {
                old(self).raw().update(
                    channel as int / 8,
                    with_bit(old(self).raw()[channel as int / 8], channel % 8, used),
                )
            } else {
                old(self).raw()
            }),
    {
        if channel >= NUM_CHANNELS {
            return;
        }
        let byte_idx = (channel / 8) as usize;
        let bit_idx = channel % 8;
        let b = self.map[byte_idx];
        if used {
            self.map[byte_idx] = b | (1u8 << bit_idx);
        } else {
            self.map[byte_idx] = b & !(1u8 << bit_idx);
        }
        proof {
            assert forall|i: int| 0 <= i < 79 implies self@[i] == old(self)@.update(
                channel as int,
                used,
            )[i] by {
                with_bit_frame(b, bit_idx, used, (i % 8) as u8);
            }
            assert(self@ == old(self)@.update(channel as int, used));
            with_bit_frame(b, bit_idx, used, 7);
        }
        self.recount();
    }

    /// Number of usable channels.
    pub fn used_count(&self) -> (r: u8)
        requires
            self.wf(),
        ensures
            r == marked_below(self@, 79),
    {
        self.used_count
    }

    /// The flags as ten bytes.
    pub fn map(&self) -> (r: [u8; 10])
        ensures
            r@ == self.raw(),
    {
        self.map
    }

    /// The `n`-th usable channel, counted from 0.
    pub fn nth_used(&self, n: u8) -> (r: Option<u8>)
        ensures
            match r {
                Some(ch) => ch < 79 && self@[ch as int] && marked_below(self@, ch as int) == n,
                None => marked_below(self@, 79) <= n,
            },
    {
        let mut count: u8 = 0;
        let mut ch: u8 = 0;
        while ch < NUM_CHANNELS
            invariant
                ch <= 79,
                count == marked_below(self@, ch as int),
                count <= ch,
                count <= n,
            decreases 79 - ch,
        {
            if self.is_used(ch) {
                if count == n {
                    return Some(ch);
                }
                count = count + 1;
            }
            ch = ch + 1;
        }
        None
    }
}

/// Where hopping stands.
#[derive(Clone, Copy, Debug)]
pub struct HoppingState {
    /// Distance of a hop, 1 to 78.
    pub hop_increment: u8,
    /// The channels that may be used.
    pub channel_map: ChannelMap,
    /// Hops so far, modulo 65536.
    pub event_counter: u16,
    /// The channel hopped to last.
    pub last_channel: u8,
}

/// The channel that a hop aims at.
pub open spec fn hop_aim(h: HoppingState) -> int {
    (h.last_channel + h.hop_increment) % 79
}

/// Whether a hop goes to channel `c`: to the channel it aims at where that may be
/// used, else to the usable channel whose number among them is the aim modulo their
/// count, and to channel 0 where no channel may be used.
pub open spec fn hops_to(h: HoppingState, c: int) -> bool {
    let s = h.channel_map@;
    let aim = hop_aim(h);
    if s[aim] {
        c == aim
    } else if marked_below(s, 79) == 0 {
        c == 0
    } else {
        0 <= c < 79 && s[c] && marked_below(s, c) == aim % marked_below(s, 79) as int
    }
}

/// A hop goes to one channel, one that there is, and one that may be used as long as
/// any may.
pub proof fn hop_lands(h: HoppingState, c: int, d: int)
    requires
        hops_to(h, c),
        h.channel_map@.len() == 79,
    ensures
        0 <= c < 79,
        marked_below(h.channel_map@, 79) > 0 ==> h.channel_map@[c],
        hops_to(h, d) ==> c == d,
{
    let s = h.channel_map@;
    if hops_to(h, d) && s[c] && s[d] && marked_below(s, c) == marked_below(s, d) {
        nth_unique(s, c, d);
    }
}

impl HoppingState {
    /// Hopping over `channel_map`; a distance outside 1 to 78 is replaced by 7.
    pub fn new(hop_increment: u8, channel_map: ChannelMap) -> (r: Self)
        ensures
            r == (HoppingState {
                hop_increment: if 0 < hop_increment < 79 {
                    hop_increment
                } else {
                    7
                },
                channel_map,
                event_counter: 0,
                last_channel: 0,
            }),
    {
        let hop = if hop_increment == 0 || hop_increment >= NUM_CHANNELS {
            7
        } else {
            hop_increment
        };
        HoppingState { hop_increment: hop, channel_map, event_counter: 0, last_channel: 0 }
    }

    /// Hops to the next channel.
    pub fn next_channel(&mut self) -> (r: u8)
        requires
            old(self).channel_map.wf(),
        ensures
            hops_to(*old(self), r as int),
            r < 79,
            *final(self) == (HoppingState {
                last_channel: r,
                event_counter: ((old(self).event_counter + 1) % 0x1_0000) as u16,
                ..*old(self)
            }),
    {
        let unmapped = ((self.last_channel as u16 + self.hop_increment as u16)
            % (NUM_CHANNELS as u16)) as u8;
        let channel = if self.channel_map.is_used(unmapped) {
            unmapped
        } else {
            let used = self.channel_map.used_count();
            if used == 0 {
                0
            } else {
                let n = unmapped % used;
                match self.channel_map.nth_used(n) {
                    Some(c) => c,
                    None => 0,
                }
            }
        };
        self.last_channel = channel;
        self.event_counter = self.event_counter.wrapping_add(1);
        channel
    }

    /// The frequency of a channel in MHz.
    pub fn channel_to_freq(channel: u8) -> (r: u16)
        ensures
            r == 2402 + channel,
    {
        2402 + channel as u16
    }

    /// Replaces the channels that may be used.
    pub fn update_map(&mut self, new_map: ChannelMap)
        ensures
            *final(self) == (HoppingState { channel_map: new_map, ..*old(self) }),
    {
        self.channel_map = new_map;
    }
}

/// Uses of several antennas.
#[derive(Clone, Copy, Debug, PartialEq, Eq, Structural)]
pub enum MimoMode {
    /// One antenna.
    Siso,
    /// Two streams at once.
    SpatialMux2x2,
    /// One stream from two antennas.
    TxDiversity2x1,
    /// One stream to two antennas.
    RxDiversity1x2,
    /// A steered beam.
    Beamforming2x2,
}

impl MimoMode {
    /// The number of the mode.
    #[verifier::allow_in_spec]
    pub fn code(self) -> u8
        returns
            (match self {
                MimoMode::Siso => 0u8,
                MimoMode::SpatialMux2x2 => 1u8,
                MimoMode::TxDiversity2x1 => 2u8,
                MimoMode::RxDiversity1x2 => 3u8,
                MimoMode::Beamforming2x2 => 4u8,
            }),
    {
        match self {
            MimoMode::Siso => 0,
            MimoMode::SpatialMux2x2 => 1,
            MimoMode::TxDiversity2x1 => 2,
            MimoMode::RxDiversity1x2 => 3,
            MimoMode::Beamforming2x2 => 4,
        }
    }

    /// The mode of number `v`, where there is one.
    #[verifier::allow_in_spec]
    pub fn from_raw(v: u8) -> Option<MimoMode>
        returns
            (if v == 0 {
                Some(MimoMode::Siso)
            } else if v == 1 {
                Some(MimoMode::SpatialMux2x2)
            } else if v == 2 {
                Some(MimoMode::TxDiversity2x1)
            } else if v == 3 {
                Some(MimoMode::RxDiversity1x2)
            } else if v == 4 {
                Some(MimoMode::Beamforming2x2)
            } else {
                None
            }),
    {
        match v {
            0 => Some(MimoMode::Siso),
            1 => Some(MimoMode::SpatialMux2x2),
            2 => Some(MimoMode::TxDiversity2x1),
            3 => Some(MimoMode::RxDiversity1x2),
            4 => Some(MimoMode::Beamforming2x2),
            _ => None,
        }
    }
}

impl MimoMode {
    /// Number of streams.
    pub fn num_streams(self) -> (r: u8)
        ensures
            r == (match self {
                MimoMode::SpatialMux2x2 | MimoMode::Beamforming2x2 => 2u8,
                _ => 1u8,
            }),
    {
        match self {
            MimoMode::Siso | MimoMode::TxDiversity2x1 | MimoMode::RxDiversity1x2 => 1,
            MimoMode::SpatialMux2x2 | MimoMode::Beamforming2x2 => 2,
        }
    }

    /// Throughput compared to one antenna, in percent.
    #[verifier::allow_in_spec]
    pub fn throughput_factor(self) -> u8
        returns
            (match self {
                MimoMode::Siso => 100u8,
                MimoMode::SpatialMux2x2 => 200u8,
                MimoMode::TxDiversity2x1 => 100u8,
                MimoMode::RxDiversity1x2 => 100u8,
                MimoMode::Beamforming2x2 => 150u8,
            }),
    {
        match self {
            MimoMode::Siso => 100,
            MimoMode::SpatialMux2x2 => 200,
            MimoMode::TxDiversity2x1 => 100,
            MimoMode::RxDiversity1x2 => 100,
            MimoMode::Beamforming2x2 => 150,
        }
    }
}

/// The antennas of a device.
#[derive(Clone, Copy, Debug)]
pub struct AntennaConfig {
    /// Transmit antennas.
    pub num_tx: u8,
    /// Receive antennas.
    pub num_rx: u8,
    /// How they are used.
    pub mode: MimoMode,
    /// Whether they are calibrated.
    pub calibrated: bool,
}

impl Default for AntennaConfig {
    fn default() -> (r: Self)
        ensures
            r == (AntennaConfig {
                num_tx: 1,
                num_rx: 1,
                mode: MimoMode::Siso,
                calibrated: false,
            }),
    {
        AntennaConfig { num_tx: 1, num_rx: 1, mode: MimoMode::Siso, calibrated: false }
    }
}

/// The smaller of two counts.
pub open spec fn min8(a: u8, b: u8) -> u8 {
    if a <= b {
        a
    } else {
        b
    }
}

/// The best use of the antennas of two devices: what counts is how many transmit
/// antennas face how many receive antennas, in both directions.
pub open spec fn best_mode(local: AntennaConfig, remote: AntennaConfig) -> MimoMode {
    let tx = min8(local.num_tx, remote.num_rx);
    let rx = min8(local.num_rx, remote.num_tx);
    if tx >= 2 && rx >= 2 {
        MimoMode::SpatialMux2x2
    } else if tx >= 2 && rx == 1 {
        MimoMode::TxDiversity2x1
    } else if tx == 1 && rx >= 2 {
        MimoMode::RxDiversity1x2
    } else {
        MimoMode::Siso
    }
}

/// Seen from the other side, transmit diversity is receive diversity; all else looks
/// the same from both sides.
pub proof fn best_mode_mirrors(a: AntennaConfig, b: AntennaConfig)
    ensures
        best_mode(b, a) == (match best_mode(a, b) {
            MimoMode::TxDiversity2x1 => MimoMode::RxDiversity1x2,
            MimoMode::RxDiversity1x2 => MimoMode::TxDiversity2x1,
            m => m,
        }),
{
}

impl AntennaConfig {
    /// The best use of the antennas of two devices.
    pub fn negotiate_mode(local: &Self, remote: &Self) -> (r: MimoMode)
        ensures
            r == best_mode(*local, *remote),
    {
        let tx = if local.num_tx <= remote.num_rx {
            local.num_tx
        } else {
            remote.num_rx
        };
        let rx = if local.num_rx <= remote.num_tx {
            local.num_rx
        } else {
            remote.num_tx
        };
        if tx >= 2 && rx >= 2 {
            MimoMode::SpatialMux2x2
        } else if tx >= 2 && rx == 1 {
            MimoMode::TxDiversity2x1
        } else if tx == 1 && rx >= 2 {
            MimoMode::RxDiversity1x2
        } else {
            MimoMode::Siso
        }
    }
}

/// Settings of the physical layer.
#[derive(Clone, Copy, Debug)]
pub struct PhyConfig {
    /// Modulation and coding scheme.
    pub mcs_index: u8,
    /// Bandwidth in MHz: 1, 2 or 4.
    pub bandwidth_mhz: u8,
    /// Pilot density: 0 for 4:1, 1 for 8:1, 2 for 16:1, 3 for none.
    pub pilot_density: u8,
    /// Transmit power in dBm.
    pub tx_power_dbm: i8,
    /// Where hopping stands.
    pub hopping: HoppingState,
    /// The antennas.
    pub antenna: AntennaConfig,
}

/// The code of a bandwidth; an unknown one has the code of 1 MHz.
pub open spec fn bandwidth_code(mhz: u8) -> u8 {
    if mhz == 2 {
        1
    } else if mhz == 4 {
        2
    } else {
        0
    }
}

impl PhyConfig {
    /// Whether every setting is within its limits.
    pub open spec fn valid(self) -> bool {
        &&& self.mcs_index <= 12
        &&& (self.bandwidth_mhz == 1 || self.bandwidth_mhz == 2 || self.bandwidth_mhz == 4)
        &&& self.pilot_density <= 3
        &&& -20 <= self.tx_power_dbm <= 20
    }

    /// The settings as the seven bytes of a parameter read.
    pub open spec fn param_bytes(self) -> Seq<u8> {
        seq![
            self.mcs_index,
            bandwidth_code(self.bandwidth_mhz),
            self.pilot_density,
            bytes::i8_byte(self.tx_power_dbm),
            self.antenna.mode.code(),
            self.antenna.num_tx,
            self.antenna.num_rx,
        ]
    }

    /// The settings after the bytes `b` were applied up to the first one that is out
    /// of its limits.
    pub open spec fn applied(self, b: Seq<u8>) -> PhyConfig {
        let c1 = PhyConfig { mcs_index: b[0], ..self };
        let c2 = PhyConfig {
            bandwidth_mhz: if b[1] == 0 {
                1
            } else if b[1] == 1 {
                2
            } else {
                4
            },
            ..c1
        };
        let c3 = PhyConfig { pilot_density: b[2], ..c2 };
        let c4 = PhyConfig { tx_power_dbm: bytes::byte_i8(b[3]), ..c3 };
        if b[0] > 12 {
            self
        } else if b[1] > 2 {
            c1
        } else if b[2] > 3 {
            c2
        } else if !(-20 <= bytes::byte_i8(b[3]) <= 20) {
            c3
        } else if MimoMode::from_raw(b[4]) is None {
            c4
        } else {
            PhyConfig {
                antenna: AntennaConfig {
                    mode: MimoMode::from_raw(b[4])->0,
                    num_tx: b[5],
                    num_rx: b[6],
                    ..self.antenna
                },
                ..c4
            }
        }
    }

    /// The settings that a device starts with.
    pub fn default_config() -> (r: Self)
        ensures
            r.mcs_index == 4,
            r.bandwidth_mhz == 1,
            r.pilot_density == 1,
            r.tx_power_dbm == 10,
            r.hopping.hop_increment == 7,
            r.hopping.event_counter == 0,
            r.hopping.last_channel == 0,
            r.hopping.channel_map.wf(),
            forall|i: int| 0 <= i < 79 ==> r.hopping.channel_map@[i],
            r.antenna == (AntennaConfig {
                num_tx: 1,
                num_rx: 1,
                mode: MimoMode::Siso,
                calibrated: false,
            }),
            r.valid(),
    {
        PhyConfig {
            mcs_index: 4,
            bandwidth_mhz: 1,
            pilot_density: 1,
            tx_power_dbm: 10,
            hopping: HoppingState::new(7, ChannelMap::all_used()),
            antenna: AntennaConfig::default(),
        }
    }

    /// Data rate in kbit/s with these settings; an unknown scheme counts as 500 kbit/s.
    pub fn effective_data_rate_kbps(&self) -> (r: u32)
        ensures
            r == (if self.mcs_index < MCS_COUNT {
                rate(self.mcs_index as int, self.bandwidth_mhz)
            } else {
                500
            }) * self.antenna.mode.throughput_factor() / 100,
    {
        let base = match data_rate_kbps(self.mcs_index, self.bandwidth_mhz) {
            Some(v) => v,
            None => 500,
        };
        let factor = self.antenna.mode.throughput_factor() as u32;
        assert(base <= 3333 * 255) by {
            let a = mcs_table(self.mcs_index as int).data_rate_1m_kbps as int;
            let b = self.bandwidth_mhz as int;
            assert(a * b <= 3333 * 255) by (nonlinear_arith)
                requires
                    0 <= a <= 3333,
                    0 <= b <= 255,
            ;
        }
        assert(base * factor <= 3333 * 255 * 200) by (nonlinear_arith)
            requires
                base <= 3333 * 255,
                factor <= 200,
        ;
        base * factor / 100
    }

    /// Sets the scheme, or returns `EINVAL` where there is none of that index.
    pub fn set_mcs(&mut self, index: u8) -> (r: Result<(), Errno>)
        ensures
            if index <= 12 {
                r == Ok::<(), Errno>(()) && *final(self) == (PhyConfig {
                    mcs_index: index,
                    ..*old(self)
                })
            } else {
                r == Err::<(), Errno>(Errno::EINVAL) && *final(self) == *old(self)
            },
    {
        if index > 12 {
            return Err(Errno::EINVAL);
        }
        self.mcs_index = index;
        Ok(())
    }

    /// Sets the bandwidth, or returns `EINVAL` where it is not 1, 2 or 4 MHz.
    pub fn set_bandwidth(&mut self, bw_mhz: u8) -> (r: Result<(), Errno>)
        ensures
            if bw_mhz == 1 || bw_mhz == 2 || bw_mhz == 4 {
                r == Ok::<(), Errno>(()) && *final(self) == (PhyConfig {
                    bandwidth_mhz: bw_mhz,
                    ..*old(self)
                })
            } else {
                r == Err::<(), Errno>(Errno::EINVAL) && *final(self) == *old(self)
            },
    {
        if bw_mhz == 1 || bw_mhz == 2 || bw_mhz == 4 {
            self.bandwidth_mhz = bw_mhz;
            Ok(())
        } else {
            Err(Errno::EINVAL)
        }
    }

    /// Sets the transmit power, or returns `EINVAL` where it is not within 20 dBm.
    pub fn set_tx_power(&mut self, power_dbm: i8) -> (r: Result<(), Errno>)
        ensures
            if -20 <= power_dbm <= 20 {
                r == Ok::<(), Errno>(()) && *final(self) == (PhyConfig {
                    tx_power_dbm: power_dbm,
                    ..*old(self)
                })
            } else {
                r == Err::<(), Errno>(Errno::EINVAL) && *final(self) == *old(self)
            },
    {
        if power_dbm < -20 || power_dbm > 20 {
            return Err(Errno::EINVAL);
        }
        self.tx_power_dbm = power_dbm;
        Ok(())
    }

    /// Writes the settings to the start of `buf` and returns their length, 0 where
    /// they do not fit.
    pub fn encode_dli_params(&self, buf: &mut [u8]) -> (r: usize)
        ensures
            if old(buf)@.len() < 7 {
                r == 0 && final(buf)@ == old(buf)@
            } else {
                r == 7 && final(buf)@ == bytes::splice(old(buf)@, 0, self.param_bytes())
            },
    {
        if buf.len() < 7 {
            return 0;
        }
        let code: u8 = match self.bandwidth_mhz {
            2 => 1,
            4 => 2,
            _ => 0,
        };
        let v: Vec<u8> = vec![
            self.mcs_index,
            code,
            self.pilot_density,
            bytes::i8_byte(self.tx_power_dbm),
            self.antenna.mode.code(),
            self.antenna.num_tx,
            self.antenna.num_rx,
        ];
        assert(v@ == self.param_bytes());
        bytes::put_slice(buf, v.as_slice());
        7
    }

    /// Applies settings from bytes, or returns `EINVAL` at the first one that is out
    /// of its limits; those before it stay applied.
    pub fn decode_dli_params(&mut self, buf: &[u8]) -> (r: Result<(), Errno>)
        ensures
            if buf@.len() < 7 {
                r == Err::<(), Errno>(Errno::EINVAL) && *final(self) == *old(self)
            } else {
                &&& *final(self) == old(self).applied(buf@)
                &&& r == (if buf@[0] <= 12 && buf@[1] <= 2 && buf@[2] <= 3 && -20 <= bytes::byte_i8(buf@[3])
                    <= 20 && MimoMode::from_raw(buf@[4]) is Some {
                    Ok::<(), Errno>(())
                } else {
                    Err::<(), Errno>(Errno::EINVAL)
                })
            },
            old(self).valid() ==> final(self).valid(),
    {
        if buf.len() < 7 {
            return Err(Errno::EINVAL);
        }
        if let Err(e) = self.set_mcs(buf[0]) {
            return Err(e);
        }
        let bw: u8 = match buf[1] {
            0 => 1,
            1 => 2,
            2 => 4,
            _ => {
                return Err(Errno::EINVAL);
            },
        };
        if let Err(e) = self.set_bandwidth(bw) {
            return Err(e);
        }
        if buf[2] > 3 {
            return Err(Errno::EINVAL);
        }
        self.pilot_density = buf[2];
        if let Err(e) = self.set_tx_power(bytes::byte_i8(buf[3])) {
            return Err(e);
        }
        match MimoMode::from_raw(buf[4]) {
            Some(m) => self.antenna.mode = m,
            None => {
                return Err(Errno::EINVAL);
            },
        }
        self.antenna.num_tx = buf[5];
        self.antenna.num_rx = buf[6];
        Ok(())
    }

    /// The feature bits that these settings need.
    pub open spec fn feature_bits(self) -> u64 {
        let mcs = if self.mcs_index <= 12 {
            1u64 << (14 + self.mcs_index)
        } else {
            0
        };
        let bw2 = if self.bandwidth_mhz >= 2 {
            SleFeature::Bw2m.mask()
        } else {
            0
        };
        let bw4 = if self.bandwidth_mhz >= 4 {
            SleFeature::Bw4m.mask()
        } else {
            0
        };
        let pilot = if self.pilot_density == 0 {
            SleFeature::Pilot4to1.mask()
        } else if self.pilot_density == 1 {
            SleFeature::Pilot8to1.mask()
        } else if self.pilot_density == 2 {
            SleFeature::Pilot16to1.mask()
        } else {
            0
        };
        mcs | bw2 | bw4 | pilot
    }

    /// The feature bits that these settings need.
    pub fn to_feature_bits(&self) -> (r: u64)
        ensures
            r == self.feature_bits(),
    {
        let mcs: u64 = if self.mcs_index <= 12 {
            1u64 << (14 + self.mcs_index)
        } else {
            0
        };
        let bw2: u64 = if self.bandwidth_mhz >= 2 {
            SleFeature::Bw2m.mask()
        } else {
            0
        };
        let bw4: u64 = if self.bandwidth_mhz >= 4 {
            SleFeature::Bw4m.mask()
        } else {
            0
        };
        let pilot: u64 = match self.pilot_density {
            0 => SleFeature::Pilot4to1.mask(),
            1 => SleFeature::Pilot8to1.mask(),
            2 => SleFeature::Pilot16to1.mask(),
            _ => 0,
        };
        mcs | bw2 | bw4 | pilot
    }
}

/// Settings within their limits come back from their bytes, whatever the settings
/// that the bytes are applied to.
pub proof fn params_round_trip(c: PhyConfig, d: PhyConfig)
    requires
        c.valid(),
    ensures
        d.applied(c.param_bytes()) == (PhyConfig {
            mcs_index: c.mcs_index,
            bandwidth_mhz: c.bandwidth_mhz,
            pilot_density: c.pilot_density,
            tx_power_dbm: c.tx_power_dbm,
            hopping: d.hopping,
            antenna: AntennaConfig { calibrated: d.antenna.calibrated, ..c.antenna },
        }),
{
}

} // verus!
