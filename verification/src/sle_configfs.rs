//! Settings that are read and written as text.

use vstd::prelude::*;

use crate::bytes;
use crate::errno::Errno;
use crate::text;

verus! {

/// The settings.
#[derive(Clone, Copy, Debug, PartialEq, Eq, Structural)]
pub struct SparkLinkConfig {
    /// Most connections.
    pub max_connections: u8,
    /// Advertising interval in milliseconds unless told otherwise.
    pub adv_interval_ms: u16,
    /// Scan window in milliseconds unless told otherwise.
    pub scan_window_ms: u16,
    /// Power mode: 0 active, 1 sniff, 2 idle.
    pub power_mode: u8,
    /// Kind of controller: 0 virtual, 1 UART, 2 SPI.
    pub controller_type: u8,
}

/// The word "active".
pub open spec fn word_active() -> Seq<u8> {
    seq![97u8, 99, 116, 105, 118, 101]
}

/// The word "sniff".
pub open spec fn word_sniff() -> Seq<u8> {
    seq![115u8, 110, 105, 102, 102]
}

/// The word "idle".
pub open spec fn word_idle() -> Seq<u8> {
    seq![105u8, 100, 108, 101]
}

/// The word "virtual".
pub open spec fn word_virtual() -> Seq<u8> {
    seq![118u8, 105, 114, 116, 117, 97, 108]
}

/// The word "uart".
pub open spec fn word_uart() -> Seq<u8> {
    seq![117u8, 97, 114, 116]
}

/// The word "spi".
pub open spec fn word_spi() -> Seq<u8> {
    seq![115u8, 112, 105]
}

/// The word "unknown".
pub open spec fn word_unknown() -> Seq<u8> {
    seq![117u8, 110, 107, 110, 111, 119, 110]
}

/// The word for a power mode.
pub open spec fn mode_word(mode: u8) -> Seq<u8> {
    if mode == 0 {
        word_active()
    } else if mode == 1 {
        word_sniff()
    } else if mode == 2 {
        word_idle()
    } else {
        word_unknown()
    }
}

/// The word for a kind of controller.
pub open spec fn type_word(kind: u8) -> Seq<u8> {
    if kind == 0 {
        word_virtual()
    } else if kind == 1 {
        word_uart()
    } else if kind == 2 {
        word_spi()
    } else {
        word_unknown()
    }
}

/// The power mode that a word or a digit names, if it does.
pub open spec fn named_mode(s: Seq<u8>) -> Option<u8> {
    if s == word_active() || s == seq![48u8] {
        Some(0)
    } else if s == word_sniff() || s == seq![49u8] {
        Some(1)
    } else if s == word_idle() || s == seq![50u8] {
        Some(2)
    } else {
        None
    }
}

/// The kind of controller that a word or a digit names, if it does.
pub open spec fn named_type(s: Seq<u8>) -> Option<u8> {
    if s == word_virtual() || s == seq![48u8] {
        Some(0)
    } else if s == word_uart() || s == seq![49u8] {
        Some(1)
    } else if s == word_spi() || s == seq![50u8] {
        Some(2)
    } else {
        None
    }
}

/// The number from `min` to `max` that a page spells between blanks, if it does.
pub open spec fn spelled(page: Seq<u8>, min: int, max: int) -> Option<int> {
    match text::number(text::trimmed(page)) {
        Some(n) => if min <= n <= max {
            Some(n)
        } else {
            None
        },
        None => None,
    }
}

/// The digits of `val` and a line end.
pub fn int_to_page(val: u32) -> (r: Vec<u8>)
    ensures
        r@ == text::digits(val as nat).push(10),
{
    let mut r = text::to_digits(val);
    r.push(10);
    r
}

fn read_number(page: &[u8], min: u16, max: u16) -> (r: Result<u16, Errno>)
    ensures
        match r {
            Ok(v) => spelled(page@, min as int, max as int) == Some(v as int),
            Err(e) => e == Errno::EINVAL && spelled(page@, min as int, max as int) is None,
        },
{
    match text::parse_number(text::trim(page), max) {
        Some(v) => if v < min {
            Err(Errno::EINVAL)
        } else {
            Ok(v)
        },
        None => Err(Errno::EINVAL),
    }
}

fn line(word: &[u8]) -> (r: Vec<u8>)
    ensures
        r@ == word@.push(10),
{
    let mut r = bytes::to_vec(word);
    r.push(10);
    r
}

impl SparkLinkConfig {
    /// Whether every setting is in its range.
    pub open spec fn in_range(self) -> bool {
        &&& 1 <= self.max_connections <= 8
        &&& 20 <= self.adv_interval_ms <= 10240
        &&& 10 <= self.scan_window_ms <= 10240
        &&& self.power_mode <= 2
        &&& self.controller_type <= 2
    }

    /// The settings at the start.
    pub fn new() -> (r: Self)
        ensures
            r == (SparkLinkConfig {
                max_connections: 8,
                adv_interval_ms: 100,
                scan_window_ms: 200,
                power_mode: 0,
                controller_type: 0,
            }),
            r.in_range(),
    {
        SparkLinkConfig {
            max_connections: 8,
            adv_interval_ms: 100,
            scan_window_ms: 200,
            power_mode: 0,
            controller_type: 0,
        }
    }

    /// Kind of controller.
    pub fn controller_type(&self) -> (r: u8)
        ensures
            r == self.controller_type,
    {
        self.controller_type
    }

    /// Most connections.
    pub fn max_connections(&self) -> (r: u8)
        ensures
            r == self.max_connections,
    {
        self.max_connections
    }

    /// Advertising interval in milliseconds.
    pub fn adv_interval_ms(&self) -> (r: u16)
        ensures
            r == self.adv_interval_ms,
    {
        self.adv_interval_ms
    }

    /// Scan window in milliseconds.
    pub fn scan_window_ms(&self) -> (r: u16)
        ensures
            r == self.scan_window_ms,
    {
        self.scan_window_ms
    }

    /// The version of the stack as a line: "0.3.0".
    pub fn show_version(&self) -> (r: Vec<u8>)
        ensures
            r@ == seq![48u8, 46, 51, 46, 48, 10],
    {
        let r = line(&[48, 46, 51, 46, 48]);
        assert(r@ =~= seq![48u8, 46, 51, 46, 48, 10]);
        r
    }

    /// The most connections as a line.
    pub fn show_max_connections(&self) -> (r: Vec<u8>)
        ensures
            r@ == text::digits(self.max_connections as nat).push(10),
    {
        int_to_page(self.max_connections as u32)
    }

    /// Sets the most connections, 1 to 8; `EINVAL` where the page spells no such number.
    pub fn store_max_connections(&mut self, page: &[u8]) -> (r: Result<(), Errno>)
        ensures
            match spelled(page@, 1, 8) {
                Some(n) => r == Ok::<(), Errno>(()) && *final(self) == (SparkLinkConfig {
                    max_connections: n as u8,
                    ..*old(self)
                }),
                None => r == Err::<(), Errno>(Errno::EINVAL) && *final(self) == *old(self),
            },
            old(self).in_range() ==> final(self).in_range(),
    {
        let v = read_number(page, 1, 8)?;
        self.max_connections = v as u8;
        Ok(())
    }

    /// The advertising interval as a line.
    pub fn show_adv_interval_ms(&self) -> (r: Vec<u8>)
        ensures
            r@ == text::digits(self.adv_interval_ms as nat).push(10),
    {
        int_to_page(self.adv_interval_ms as u32)
    }

    /// Sets the advertising interval, 20 to 10240; `EINVAL` where the page spells no such
    /// number.
    pub fn store_adv_interval_ms(&mut self, page: &[u8]) -> (r: Result<(), Errno>)
        ensures
            match spelled(page@, 20, 10240) {
                Some(n) => r == Ok::<(), Errno>(()) && *final(self) == (SparkLinkConfig {
                    adv_interval_ms: n as u16,
                    ..*old(self)
                }),
                None => r == Err::<(), Errno>(Errno::EINVAL) && *final(self) == *old(self),
            },
            old(self).in_range() ==> final(self).in_range(),
    {
        let v = read_number(page, 20, 10240)?;
        self.adv_interval_ms = v;
        Ok(())
    }

    /// The scan window as a line.
    pub fn show_scan_window_ms(&self) -> (r: Vec<u8>)
        ensures
            r@ == text::digits(self.scan_window_ms as nat).push(10),
    {
        int_to_page(self.scan_window_ms as u32)
    }

    /// Sets the scan window, 10 to 10240; `EINVAL` where the page spells no such number.
    pub fn store_scan_window_ms(&mut self, page: &[u8]) -> (r: Result<(), Errno>)
        ensures
            match spelled(page@, 10, 10240) {
                Some(n) => r == Ok::<(), Errno>(()) && *final(self) == (SparkLinkConfig {
                    scan_window_ms: n as u16,
                    ..*old(self)
                }),
                None => r == Err::<(), Errno>(Errno::EINVAL) && *final(self) == *old(self),
            },
            old(self).in_range() ==> final(self).in_range(),
    {
        let v = read_number(page, 10, 10240)?;
        self.scan_window_ms = v;
        Ok(())
    }

    /// The power mode as a line.
    pub fn show_power_mode(&self) -> (r: Vec<u8>)
        ensures
            r@ == mode_word(self.power_mode).push(10),
    {
        let r = match self.power_mode {
            0 => line(&[97, 99, 116, 105, 118, 101]),
            1 => line(&[115, 110, 105, 102, 102]),
            2 => line(&[105, 100, 108, 101]),
            _ => line(&[117, 110, 107, 110, 111, 119, 110]),
        };
        assert(r@ =~= mode_word(self.power_mode).push(10));
        r
    }

    /// Sets the power mode by its word or its digit; `EINVAL` where the page names none.
    pub fn store_power_mode(&mut self, page: &[u8]) -> (r: Result<(), Errno>)
        ensures
            match named_mode(text::trimmed(page@)) {
                Some(m) => r == Ok::<(), Errno>(()) && *final(self) == (SparkLinkConfig {
                    power_mode: m,
                    ..*old(self)
                }),
                None => r == Err::<(), Errno>(Errno::EINVAL) && *final(self) == *old(self),
            },
            old(self).in_range() ==> final(self).in_range(),
    {
        let s = text::trim(page);
        let active = [97, 99, 116, 105, 118, 101];
        let sniff = [115, 110, 105, 102, 102];
        let idle = [105, 100, 108, 101];
        assert(active@ =~= word_active() && sniff@ =~= word_sniff() && idle@ =~= word_idle());
        if bytes::same(s, &active) || Self::is_digit(s, 48) {
            self.power_mode = 0;
        } else if bytes::same(s, &sniff) || Self::is_digit(s, 49) {
            self.power_mode = 1;
        } else if bytes::same(s, &idle) || Self::is_digit(s, 50) {
            self.power_mode = 2;
        } else {
            return Err(Errno::EINVAL);
        }
        Ok(())
    }

    fn is_digit(s: &[u8], d: u8) -> (r: bool)
        ensures
            r == (s@ == seq![d]),
    {
        let r = s.len() == 1 && s[0] == d;
        assert(r ==> s@ =~= seq![d]);
        r
    }

    /// The kind of controller as a line.
    pub fn show_controller_type(&self) -> (r: Vec<u8>)
        ensures
            r@ == type_word(self.controller_type).push(10),
    {
        let r = match self.controller_type {
            0 => line(&[118, 105, 114, 116, 117, 97, 108]),
            1 => line(&[117, 97, 114, 116]),
            2 => line(&[115, 112, 105]),
            _ => line(&[117, 110, 107, 110, 111, 119, 110]),
        };
        assert(r@ =~= type_word(self.controller_type).push(10));
        r
    }

    /// Sets the kind of controller by its word or its digit; `EINVAL` where the page names
    /// none.
    pub fn store_controller_type(&mut self, page: &[u8]) -> (r: Result<(), Errno>)
        ensures
            match named_type(text::trimmed(page@)) {
                Some(m) => r == Ok::<(), Errno>(()) && *final(self) == (SparkLinkConfig {
                    controller_type: m,
                    ..*old(self)
                }),
                None => r == Err::<(), Errno>(Errno::EINVAL) && *final(self) == *old(self),
            },
            old(self).in_range() ==> final(self).in_range(),
    {
        let s = text::trim(page);
        let simulated = [118, 105, 114, 116, 117, 97, 108];
        let uart = [117, 97, 114, 116];
        let spi = [115, 112, 105];
        assert(simulated@ =~= word_virtual() && uart@ =~= word_uart() && spi@ =~= word_spi());
        if bytes::same(s, &simulated) || Self::is_digit(s, 48) {
            self.controller_type = 0;
        } else if bytes::same(s, &uart) || Self::is_digit(s, 49) {
            self.controller_type = 1;
        } else if bytes::same(s, &spi) || Self::is_digit(s, 50) {
            self.controller_type = 2;
        } else {
            return Err(Errno::EINVAL);
        }
        Ok(())
    }
}

/// A line of text without blanks at its ends reads as that text.
proof fn line_is_trimmed(s: Seq<u8>)
    requires
        s.len() > 0,
        forall|i: int| 0 <= i < s.len() ==> 33 <= #[trigger] s[i] < 0x80,
    ensures
        text::trimmed(s.push(10)) == s,
{
    let l = s.push(10);
    assert(l[0] == s[0]);
    assert(text::trim_front(l) == l);
    assert(text::blank_at_end(l) == 1);
    assert(l.take(l.len() - 1) =~= s);
    assert(s[s.len() - 1] < 0x80);
    assert(text::trim_end(s) == s);
}

/// What a number is shown as sets that number, where it lies in the range.
pub proof fn shown_number_is_stored(n: nat, min: int, max: int)
    requires
        min <= n <= max,
    ensures
        spelled(text::digits(n).push(10), min, max) == Some(n as int),
{
    text::digits_are_digits(n);
    line_is_trimmed(text::digits(n));
    text::written_number_is_read(n);
}

/// What a power mode or a kind of controller is shown as sets that one.
pub proof fn shown_word_is_stored(k: u8)
    requires
        k <= 2,
    ensures
        named_mode(text::trimmed(mode_word(k).push(10))) == Some(k),
        named_type(text::trimmed(type_word(k).push(10))) == Some(k),
{
    line_is_trimmed(mode_word(k));
    line_is_trimmed(type_word(k));
    assert(word_active()[0] == 97 && word_sniff()[0] == 115 && word_idle()[0] == 105);
    assert(word_virtual()[0] == 118 && word_uart()[0] == 117 && word_spi()[0] == 115);
}

} // verus!
