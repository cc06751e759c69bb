//! Laws of settings as text.

use vstd::prelude::*;

use crate::errno::Errno;
use crate::laws::pairing::ascii;
use crate::sle_configfs;
use crate::sle_configfs::SparkLinkConfig;
use crate::text;

verus! {

/// Whether a byte is blank.
pub open spec fn blank(b: u8) -> bool {
    b == 32 || 9 <= b <= 13
}

proof fn front_goes(s: Seq<u8>, n: int)
    requires
        0 <= n < s.len(),
        forall|i: int| 0 <= i < n ==> blank(#[trigger] s[i]),
        33 <= s[n] < 0x80,
    ensures
        text::trim_front(s) == s.skip(n),
    decreases n,
{
    if n > 0 {
        assert(blank(s[0]));
        assert forall|i: int| 0 <= i < n - 1 implies blank(#[trigger] s.skip(1)[i]) by {
            assert(blank(s[i + 1]));
        }
        front_goes(s.skip(1), n - 1);
        assert(s.skip(1).skip(n - 1) =~= s.skip(n));
    } else {
        assert(s.skip(0) =~= s);
    }
}

proof fn end_goes(s: Seq<u8>, n: int)
    requires
        0 <= n < s.len(),
        forall|i: int| n < i < s.len() ==> blank(#[trigger] s[i]),
        33 <= s[n] < 0x80,
    ensures
        text::trim_end(s) == s.take(n + 1),
    decreases s.len() - n,
{
    if n < s.len() - 1 {
        assert(blank(s[s.len() - 1]));
        let t = s.take(s.len() - 1);
        assert forall|i: int| n < i < t.len() implies blank(#[trigger] t[i]) by {
            assert(blank(s[i]));
        }
        end_goes(t, n);
        assert(t.take(n + 1) =~= s.take(n + 1));
    } else {
        assert(s.take(n + 1) =~= s);
    }
}

proof fn trims_to(s: Seq<u8>, a: int, b: int)
    requires
        0 <= a <= b < s.len(),
        forall|i: int| 0 <= i < a ==> blank(#[trigger] s[i]),
        forall|i: int| b < i < s.len() ==> blank(#[trigger] s[i]),
        33 <= s[a] < 0x80,
        33 <= s[b] < 0x80,
    ensures
        text::trimmed(s) == s.subrange(a, b + 1),
{
    front_goes(s, a);
    let t = s.skip(a);
    assert forall|i: int| b - a < i < t.len() implies blank(#[trigger] t[i]) by {
        assert(blank(s[i + a]));
    }
    end_goes(t, b - a);
    assert(t.take(b - a + 1) =~= s.subrange(a, b + 1));
}

/// Trimming takes the blanks around a text away, and nothing else.
pub proof fn blanks_go(s: &[u8], r: &[u8], a: int, b: int)
    requires
        call_ensures(text::trim, (s,), r),
        0 <= a <= b < s@.len(),
        forall|i: int| 0 <= i < a ==> blank(#[trigger] s@[i]),
        forall|i: int| b < i < s@.len() ==> blank(#[trigger] s@[i]),
        33 <= s@[a] < 0x80,
        33 <= s@[b] < 0x80,
    ensures
        r@ == s@.subrange(a, b + 1),
{
    trims_to(s@, a, b);
}

/// A number is written in digits and read back, unless it is too large.
pub proof fn numbers_come_back(n: u32, d: &[u8], v: Vec<u8>, max: u16, r: Option<u16>)
    requires
        call_ensures(text::to_digits, (n,), v),
        d@ == v@,
        call_ensures(text::parse_number, (d, max), r),
    ensures
        r == (if n <= max {
            Some(n as u16)
        } else {
            None
        }),
        v@.len() > 0,
        forall|i: int| 0 <= i < v@.len() ==> 48 <= #[trigger] v@[i] <= 57,
        v@.last() == 48 + n % 10,
{
    text::written_number_is_read(n as nat);
    text::digits_are_digits(n as nat);
}

/// A further digit multiplies a number by ten and is added.
pub proof fn digit_by_digit(
    s: &[u8],
    t: &[u8],
    c: u8,
    max: u16,
    a: Option<u16>,
    b: Option<u16>,
)
    requires
        call_ensures(text::parse_number, (s, max), a),
        call_ensures(text::parse_number, (t, max), b),
        t@ == s@.push(c),
        48 <= c <= 57,
    ensures
        a matches Some(x) ==> b == (if 10 * x + (c - 48) <= max {
            Some((10 * x + (c - 48)) as u16)
        } else {
            None
        }),
{
    if a is Some {
        let u = text::unsigned(s@);
        assert(text::unsigned(t@) =~= u.push(c));
        assert(u.push(c).drop_last() =~= u);
        assert(text::all_digits(u.push(c))) by {
            assert forall|i: int| 0 <= i < u.push(c).len() implies 48 <= #[trigger] u.push(c)[i]
                <= 57 by {
                if i < u.len() {
                    assert(48 <= u[i] <= 57);
                }
            }
        }
    }
}

/// What is not made of digits is no number.
pub proof fn only_digits_count(s: &[u8], max: u16, r: Option<u16>, i: int)
    requires
        call_ensures(text::parse_number, (s, max), r),
    ensures
        s@.len() == 0 ==> r is None,
        0 < i < s@.len() && !(48 <= s@[i] <= 57) ==> r is None,
        s@.len() > 0 && s@[0] != 43 && !(48 <= s@[0] <= 57) ==> r is None,
{
    let u = text::unsigned(s@);
    if 0 < i < s@.len() && !(48 <= s@[i] <= 57) {
        if s@[0] == 43 {
            assert(u[i - 1] == s@[i]);
        } else {
            assert(u[i] == s@[i]);
        }
    }
    if s@.len() > 0 && s@[0] != 43 {
        assert(u[0] == s@[0]);
    }
}

/// The settings at the start.
pub proof fn settings_at_start(r: SparkLinkConfig)
    requires
        call_ensures(SparkLinkConfig::new, (), r),
    ensures
        r.max_connections == 8,
        r.adv_interval_ms == 100,
        r.scan_window_ms == 200,
        r.power_mode == 0,
        r.controller_type == 0,
{
}

/// Settings are told as they are.
pub proof fn settings_are_told(c: &SparkLinkConfig, a: u8, b: u8, d: u16, e: u16)
    requires
        call_ensures(SparkLinkConfig::controller_type, (c,), a),
        call_ensures(SparkLinkConfig::max_connections, (c,), b),
        call_ensures(SparkLinkConfig::adv_interval_ms, (c,), d),
        call_ensures(SparkLinkConfig::scan_window_ms, (c,), e),
    ensures
        a == c.controller_type,
        b == c.max_connections,
        d == c.adv_interval_ms,
        e == c.scan_window_ms,
{
}

/// What one set of settings shows, another takes over, where it is in range.
pub proof fn shown_is_taken(
    c: &SparkLinkConfig,
    p: Vec<u8>,
    q: Vec<u8>,
    o: Vec<u8>,
    a: &mut SparkLinkConfig,
    b: &mut SparkLinkConfig,
    d: &mut SparkLinkConfig,
    x: &[u8],
    y: &[u8],
    z: &[u8],
    r: Result<(), Errno>,
    s: Result<(), Errno>,
    t: Result<(), Errno>,
)
    requires
        call_ensures(SparkLinkConfig::show_max_connections, (c,), p),
        call_ensures(SparkLinkConfig::show_adv_interval_ms, (c,), q),
        call_ensures(SparkLinkConfig::show_scan_window_ms, (c,), o),
        x@ == p@,
        y@ == q@,
        z@ == o@,
        call_ensures(SparkLinkConfig::store_max_connections, (a, x), r),
        call_ensures(SparkLinkConfig::store_adv_interval_ms, (b, y), s),
        call_ensures(SparkLinkConfig::store_scan_window_ms, (d, z), t),
    ensures
        1 <= c.max_connections <= 8 ==> r is Ok && *final(a) == (SparkLinkConfig {
            max_connections: c.max_connections,
            ..*old(a)
        }),
        20 <= c.adv_interval_ms <= 10240 ==> s is Ok && *final(b) == (SparkLinkConfig {
            adv_interval_ms: c.adv_interval_ms,
            ..*old(b)
        }),
        10 <= c.scan_window_ms <= 10240 ==> t is Ok && *final(d) == (SparkLinkConfig {
            scan_window_ms: c.scan_window_ms,
            ..*old(d)
        }),
        p@.last() == 10 && q@.last() == 10 && o@.last() == 10,
{
    if 1 <= c.max_connections <= 8 {
        sle_configfs::shown_number_is_stored(c.max_connections as nat, 1, 8);
    }
    if 20 <= c.adv_interval_ms <= 10240 {
        sle_configfs::shown_number_is_stored(c.adv_interval_ms as nat, 20, 10240);
    }
    if 10 <= c.scan_window_ms <= 10240 {
        sle_configfs::shown_number_is_stored(c.scan_window_ms as nat, 10, 10240);
    }
}

/// A setting that is out of range or no number is refused, and the old one stays.
pub proof fn out_of_range_is_refused(
    a: &mut SparkLinkConfig,
    b: &mut SparkLinkConfig,
    d: &mut SparkLinkConfig,
    page: &[u8],
    r: Result<(), Errno>,
    s: Result<(), Errno>,
    t: Result<(), Errno>,
)
    requires
        call_ensures(SparkLinkConfig::store_max_connections, (a, page), r),
        call_ensures(SparkLinkConfig::store_adv_interval_ms, (b, page), s),
        call_ensures(SparkLinkConfig::store_scan_window_ms, (d, page), t),
    ensures
        r is Ok ==> 1 <= final(a).max_connections <= 8,
        s is Ok ==> 20 <= final(b).adv_interval_ms <= 10240,
        t is Ok ==> 10 <= final(d).scan_window_ms <= 10240,
        r is Err ==> r->Err_0 == Errno::EINVAL && *final(a) == *old(a),
        s is Err ==> s->Err_0 == Errno::EINVAL && *final(b) == *old(b),
        t is Err ==> t->Err_0 == Errno::EINVAL && *final(d) == *old(d),
        s is Ok ==> t is Ok && final(d).scan_window_ms == final(b).adv_interval_ms,
{
}

/// The words and digits of a choice of three.
pub open spec fn chosen(
    word: Seq<u8>,
    a: Seq<char>,
    b: Seq<char>,
    c: Seq<char>,
) -> Option<u8> {
    if word == ascii(a) || word == ascii("0"@) {
        Some(0)
    } else if word == ascii(b) || word == ascii("1"@) {
        Some(1)
    } else if word == ascii(c) || word == ascii("2"@) {
        Some(2)
    } else {
        None
    }
}

proof fn words()
    ensures
        ascii("active"@) == sle_configfs::word_active(),
        ascii("sniff"@) == sle_configfs::word_sniff(),
        ascii("idle"@) == sle_configfs::word_idle(),
        ascii("virtual"@) == sle_configfs::word_virtual(),
        ascii("uart"@) == sle_configfs::word_uart(),
        ascii("spi"@) == sle_configfs::word_spi(),
        ascii("unknown"@) == sle_configfs::word_unknown(),
        ascii("0"@) == seq![48u8],
        ascii("1"@) == seq![49u8],
        ascii("2"@) == seq![50u8],
{
    reveal_strlit("active");
    reveal_strlit("sniff");
    reveal_strlit("idle");
    reveal_strlit("virtual");
    reveal_strlit("uart");
    reveal_strlit("spi");
    reveal_strlit("unknown");
    reveal_strlit("0");
    reveal_strlit("1");
    reveal_strlit("2");
    assert(ascii("active"@) =~= sle_configfs::word_active());
    assert(ascii("sniff"@) =~= sle_configfs::word_sniff());
    assert(ascii("idle"@) =~= sle_configfs::word_idle());
    assert(ascii("virtual"@) =~= sle_configfs::word_virtual());
    assert(ascii("uart"@) =~= sle_configfs::word_uart());
    assert(ascii("spi"@) =~= sle_configfs::word_spi());
    assert(ascii("unknown"@) =~= sle_configfs::word_unknown());
    assert(ascii("0"@) =~= seq![48u8]);
    assert(ascii("1"@) =~= seq![49u8]);
    assert(ascii("2"@) =~= seq![50u8]);
}

/// Power mode and kind of controller are set by their words or digits, between blanks.
pub proof fn words_choose(
    a: &mut SparkLinkConfig,
    b: &mut SparkLinkConfig,
    page: &[u8],
    w: &[u8],
    r: Result<(), Errno>,
    s: Result<(), Errno>,
)
    requires
        call_ensures(text::trim, (page,), w),
        call_ensures(SparkLinkConfig::store_power_mode, (a, page), r),
        call_ensures(SparkLinkConfig::store_controller_type, (b, page), s),
    ensures
        ({
            let m = chosen(w@, "active"@, "sniff"@, "idle"@);
            &&& r is Ok <==> m is Some
            &&& r is Ok ==> *final(a) == (SparkLinkConfig { power_mode: m->0, ..*old(a) })
            &&& r is Err ==> r->Err_0 == Errno::EINVAL && *final(a) == *old(a)
        }),
        ({
            let k = chosen(w@, "virtual"@, "uart"@, "spi"@);
            &&& s is Ok <==> k is Some
            &&& s is Ok ==> *final(b) == (SparkLinkConfig { controller_type: k->0, ..*old(b) })
            &&& s is Err ==> s->Err_0 == Errno::EINVAL && *final(b) == *old(b)
        }),
{
    words();
}

/// Power mode and kind of controller are shown by their words.
pub proof fn words_show(c: &SparkLinkConfig, p: Vec<u8>, q: Vec<u8>, v: Vec<u8>)
    requires
        call_ensures(SparkLinkConfig::show_power_mode, (c,), p),
        call_ensures(SparkLinkConfig::show_controller_type, (c,), q),
        call_ensures(SparkLinkConfig::show_version, (c,), v),
    ensures
        c.power_mode == 0 ==> p@ == ascii("active"@).push(10),
        c.power_mode == 1 ==> p@ == ascii("sniff"@).push(10),
        c.power_mode == 2 ==> p@ == ascii("idle"@).push(10),
        c.power_mode > 2 ==> p@ == ascii("unknown"@).push(10),
        c.controller_type == 0 ==> q@ == ascii("virtual"@).push(10),
        c.controller_type == 1 ==> q@ == ascii("uart"@).push(10),
        c.controller_type == 2 ==> q@ == ascii("spi"@).push(10),
        c.controller_type > 2 ==> q@ == ascii("unknown"@).push(10),
        v@ == ascii("0.3.0"@).push(10),
{
    words();
    reveal_strlit("0.3.0");
    assert(v@ =~= ascii("0.3.0"@).push(10));
}

} // verus!
