//! Numbers and words as text.

use vstd::prelude::*;

verus! {

/// The decimal digits of `n`.
pub open spec fn digits(n: nat) -> Seq<u8>
    decreases n,
{
    if n < 10 {
        seq![(48 + n) as u8]
    } else {
        digits(n / 10).push((48 + n % 10) as u8)
    }
}

/// The decimal digits of `n`.
pub fn to_digits(n: u32) -> (r: Vec<u8>)
    ensures
        r@ == digits(n as nat),
    decreases n,
{
    let mut v: Vec<u8> = if n < 10 {
        Vec::new()
    } else {
        to_digits(n / 10)
    };
    v.push(48 + (n % 10) as u8);
    assert(v@ =~= digits(n as nat));
    v
}

/// Whether `s` is made of decimal digits, and of one at least.
pub open spec fn all_digits(s: Seq<u8>) -> bool {
    s.len() > 0 && forall|i: int| 0 <= i < s.len() ==> 48 <= #[trigger] s[i] <= 57
}

/// The number that digits spell.
pub open spec fn value(s: Seq<u8>) -> int
    decreases s.len(),
{
    if s.len() == 0 {
        0
    } else {
        value(s.drop_last()) * 10 + (s.last() - 48)
    }
}

/// `s` without a plus sign in front.
pub open spec fn unsigned(s: Seq<u8>) -> Seq<u8> {
    if s.len() > 0 && s[0] == 43 {
        s.skip(1)
    } else {
        s
    }
}

/// The number that `s` spells, if it does: digits, and maybe a plus sign in front.
pub open spec fn number(s: Seq<u8>) -> Option<int> {
    if all_digits(unsigned(s)) {
        Some(value(unsigned(s)))
    } else {
        None
    }
}

/// The number that `s` spells, if it does and the number is at most `max`.
pub fn parse_number(s: &[u8], max: u16) -> (r: Option<u16>)
    ensures
        match r {
            Some(v) => number(s@) == Some(v as int) && v <= max,
            None => number(s@) is None || number(s@)->0 > max,
        },
{
    let from: usize = if s.len() > 0 && s[0] == 43 {
        1
    } else {
        0
    };
    let ghost d = unsigned(s@);
    assert(d =~= s@.skip(from as int));
    if s.len() == from {
        return None;
    }
    let mut acc: u32 = 0;
    let mut i: usize = from;
    while i < s.len()
        invariant
            from <= i <= s.len(),
            d == unsigned(s@),
            d == s@.skip(from as int),
            forall|j: int| 0 <= j < i - from ==> 48 <= #[trigger] d[j] <= 57,
            acc <= max + 1,
            value(d.take(i - from)) >= acc,
            acc <= max ==> value(d.take(i - from)) == acc,
        decreases s.len() - i,
    {
        let c = s[i];
        assert(c == d[i - from]);
        if c < 48 || c > 57 {
            return None;
        }
        let ghost k = i - from;
        assert(d.take(k + 1).drop_last() =~= d.take(k));
        assert(d.take(k + 1).last() == c);
        let next = acc * 10 + (c - 48) as u32;
        acc = if next > max as u32 {
            max as u32 + 1
        } else {
            next
        };
        i = i + 1;
    }
    assert(d.take(i - from) =~= d);
    assert(all_digits(d));
    if acc > max as u32 {
        None
    } else {
        Some(acc as u16)
    }
}

/// What a number is written as spells that number.
pub proof fn written_number_is_read(n: nat)
    ensures
        number(digits(n)) == Some(n as int),
    decreases n,
{
    let d = digits(n);
    if n >= 10 {
        let head = digits(n / 10);
        written_number_is_read(n / 10);
        digits_are_digits(n / 10);
        digits_are_digits(n);
        assert(d.drop_last() =~= head);
        assert(unsigned(d) == d);
        assert(unsigned(head) == head);
    } else {
        reveal_with_fuel(value, 2);
        assert(d.drop_last() =~= Seq::<u8>::empty());
        assert(all_digits(d));
    }
}

/// A number is written in digits.
pub proof fn digits_are_digits(n: nat)
    ensures
        all_digits(digits(n)),
    decreases n,
{
    if n >= 10 {
        digits_are_digits(n / 10);
    }
}

/// Whether three bytes are a blank character.
pub open spec fn wide_blank(a: u8, b: u8, c: u8) -> bool {
    ||| a == 0xE1 && b == 0x9A && c == 0x80
    ||| a == 0xE2 && b == 0x80 && (0x80 <= c <= 0x8A || c == 0xA8 || c == 0xA9 || c == 0xAF)
    ||| a == 0xE2 && b == 0x81 && c == 0x9F
    ||| a == 0xE3 && b == 0x80 && c == 0x80
}

/// Whether a byte is a blank character.
pub open spec fn narrow_blank(a: u8) -> bool {
    9 <= a <= 13 || a == 32
}

/// Length of the blank character at the front of `s`, or 0 where there is none.
pub open spec fn blank_in_front(s: Seq<u8>) -> int {
    if s.len() >= 1 && narrow_blank(s[0]) {
        1
    } else if s.len() >= 2 && s[0] == 0xC2 && (s[1] == 0x85 || s[1] == 0xA0) {
        2
    } else if s.len() >= 3 && wide_blank(s[0], s[1], s[2]) {
        3
    } else {
        0
    }
}

/// Length of the blank character at the end of `s`, or 0 where there is none.
pub open spec fn blank_at_end(s: Seq<u8>) -> int {
    let n = s.len() as int;
    if n >= 1 && narrow_blank(s[n - 1]) {
        1
    } else if n >= 2 && s[n - 2] == 0xC2 && (s[n - 1] == 0x85 || s[n - 1] == 0xA0) {
        2
    } else if n >= 3 && wide_blank(s[n - 3], s[n - 2], s[n - 1]) {
        3
    } else {
        0
    }
}

/// `s` without the blanks at its front.
pub open spec fn trim_front(s: Seq<u8>) -> Seq<u8>
    decreases s.len(),
{
    if blank_in_front(s) > 0 {
        trim_front(s.skip(blank_in_front(s)))
    } else {
        s
    }
}

/// `s` without the blanks at its end.
pub open spec fn trim_end(s: Seq<u8>) -> Seq<u8>
    decreases s.len(),
{
    if blank_at_end(s) > 0 {
        trim_end(s.take(s.len() - blank_at_end(s)))
    } else {
        s
    }
}

/// `s` without the blanks around it.
pub open spec fn trimmed(s: Seq<u8>) -> Seq<u8> {
    trim_end(trim_front(s))
}

fn is_wide(a: u8, b: u8, c: u8) -> (r: bool)
    ensures
        r == wide_blank(a, b, c),
{
    (a == 0xE1 && b == 0x9A && c == 0x80) || (a == 0xE2 && b == 0x80 && ((0x80 <= c && c <= 0x8A)
        || c == 0xA8 || c == 0xA9 || c == 0xAF)) || (a == 0xE2 && b == 0x81 && c == 0x9F) || (a
        == 0xE3 && b == 0x80 && c == 0x80)
}

fn is_narrow(a: u8) -> (r: bool)
    ensures
        r == narrow_blank(a),
{
    (9 <= a && a <= 13) || a == 32
}

fn front_len(s: &[u8], from: usize) -> (r: usize)
    requires
        from <= s.len(),
    ensures
        r == blank_in_front(s@.skip(from as int)),
{
    let n = s.len() - from;
    if n >= 1 && is_narrow(s[from]) {
        1
    } else if n >= 2 && s[from] == 0xC2 && (s[from + 1] == 0x85 || s[from + 1] == 0xA0) {
        2
    } else if n >= 3 && is_wide(s[from], s[from + 1], s[from + 2]) {
        3
    } else {
        0
    }
}

fn end_len(s: &[u8], from: usize, to: usize) -> (r: usize)
    requires
        from <= to <= s.len(),
    ensures
        r == blank_at_end(s@.subrange(from as int, to as int)),
{
    let n = to - from;
    if n >= 1 && is_narrow(s[to - 1]) {
        1
    } else if n >= 2 && s[to - 2] == 0xC2 && (s[to - 1] == 0x85 || s[to - 1] == 0xA0) {
        2
    } else if n >= 3 && is_wide(s[to - 3], s[to - 2], s[to - 1]) {
        3
    } else {
        0
    }
}

/// `s` without the blanks around it.
pub fn trim(s: &[u8]) -> (r: &[u8])
    ensures
        r@ == trimmed(s@),
{
    let mut from: usize = 0;
    let mut k = front_len(s, from);
    assert(s@.skip(0) == s@);
    while k > 0
        invariant
            from <= s.len(),
            k == blank_in_front(s@.skip(from as int)),
            trim_front(s@.skip(from as int)) == trim_front(s@),
        decreases s.len() - from,
    {
        assert(s@.skip(from as int).skip(k as int) =~= s@.skip(from + k));
        from = from + k;
        k = front_len(s, from);
    }
    let mut to: usize = s.len();
    k = end_len(s, from, to);
    assert(s@.subrange(from as int, to as int) =~= s@.skip(from as int));
    while k > 0
        invariant
            from <= to <= s.len(),
            k == blank_at_end(s@.subrange(from as int, to as int)),
            trim_end(s@.subrange(from as int, to as int)) == trimmed(s@),
        decreases to,
    {
        let ghost t = s@.subrange(from as int, to as int);
        assert(t.take(t.len() - k) =~= s@.subrange(from as int, to - k));
        to = to - k;
        k = end_len(s, from, to);
    }
    vstd::slice::slice_subrange(s, from, to)
}

} // verus!
