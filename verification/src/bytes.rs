//! Integers as byte strings, and copies between byte buffers.

use vstd::prelude::*;

verus! {

/// The little-endian reading of two bytes.
#[verifier::allow_in_spec]
pub fn le16(b0: u8, b1: u8) -> u16
    returns
        (b0 + 0x100 * b1) as u16,
{
    b0 as u16 + 0x100 * (b1 as u16)
}

/// The low byte of `v`.
#[verifier::allow_in_spec]
pub fn lo8(v: u16) -> u8
    returns
        (v % 0x100) as u8,
{
    (v % 0x100) as u8
}

/// The high byte of `v`.
#[verifier::allow_in_spec]
pub fn hi8(v: u16) -> u8
    returns
        (v / 0x100) as u8,
{
    (v / 0x100) as u8
}

/// The little-endian reading of four bytes.
#[verifier::allow_in_spec]
pub fn le32(b0: u8, b1: u8, b2: u8, b3: u8) -> u32
    returns
        (b0 + 0x100 * b1 + 0x1_0000 * b2 + 0x100_0000 * b3) as u32,
{
    b0 as u32 + 0x100 * (b1 as u32) + 0x1_0000 * (b2 as u32) + 0x100_0000 * (b3 as u32)
}

/// The low half of `v`.
#[verifier::allow_in_spec]
pub fn lo16(v: u32) -> u16
    returns
        (v % 0x1_0000) as u16,
{
    (v % 0x1_0000) as u16
}

/// The high half of `v`.
#[verifier::allow_in_spec]
pub fn hi16(v: u32) -> u16
    returns
        (v / 0x1_0000) as u16,
{
    (v / 0x1_0000) as u16
}

/// The low half of `v`.
#[verifier::allow_in_spec]
pub fn lo32(v: u64) -> u32
    returns
        (v % 0x1_0000_0000) as u32,
{
    (v % 0x1_0000_0000) as u32
}

/// The high half of `v`.
#[verifier::allow_in_spec]
pub fn hi32(v: u64) -> u32
    returns
        (v / 0x1_0000_0000) as u32,
{
    (v / 0x1_0000_0000) as u32
}

/// The little-endian bytes of `v`.
pub open spec fn le16_bytes(v: u16) -> Seq<u8> {
    seq![lo8(v), hi8(v)]
}

/// The little-endian bytes of `v`.
pub open spec fn le32_bytes(v: u32) -> Seq<u8> {
    seq![lo8(lo16(v)), hi8(lo16(v)), lo8(hi16(v)), hi8(hi16(v))]
}

/// The little-endian bytes of `v`.
pub open spec fn le64_bytes(v: u64) -> Seq<u8> {
    le32_bytes(lo32(v)) + le32_bytes(hi32(v))
}

/// Reading back the bytes of a 16-bit number gives that number.
pub broadcast proof fn le16_of_bytes(v: u16)
    ensures
        #![trigger lo8(v)]
        le16(lo8(v), hi8(v)) == v,
{
}

/// Two bytes are the bytes of the number they spell.
pub broadcast proof fn bytes_of_le16(b0: u8, b1: u8)
    ensures
        #![trigger le16(b0, b1)]
        lo8(le16(b0, b1)) == b0,
        hi8(le16(b0, b1)) == b1,
{
}

/// Reading back the bytes of a 32-bit number gives that number.
pub proof fn le32_of_bytes(v: u32)
    ensures
        le32(lo8(lo16(v)), hi8(lo16(v)), lo8(hi16(v)), hi8(hi16(v))) == v,
{
}

/// Four bytes are the bytes of the number they spell.
pub proof fn bytes_of_le32(b0: u8, b1: u8, b2: u8, b3: u8)
    ensures
        le32_bytes(le32(b0, b1, b2, b3)) == seq![b0, b1, b2, b3],
{
    let v = le32(b0, b1, b2, b3);
    assert(lo16(v) == le16(b0, b1)) by {
        assert(v == le16(b0, b1) + 0x1_0000 * le16(b2, b3));
    }
    assert(hi16(v) == le16(b2, b3));
    bytes_of_le16(b0, b1);
    bytes_of_le16(b2, b3);
}

/// The smaller of two numbers.
#[verifier::allow_in_spec]
pub fn min_usize(a: usize, b: usize) -> usize
    returns
        (if a <= b {
            a
        } else {
            b
        }),
{
    if a <= b {
        a
    } else {
        b
    }
}

/// The first `n` bytes of `s`, or all of `s` where it is shorter.
pub open spec fn prefix(s: Seq<u8>, n: int) -> Seq<u8> {
    if s.len() <= n {
        s
    } else {
        s.take(n)
    }
}

/// A run of `n` zero bytes.
pub open spec fn zeros(n: int) -> Seq<u8> {
    Seq::new(n as nat, |i: int| 0u8)
}

/// `s` cut or filled up with zeros to `n` bytes.
pub open spec fn padded(s: Seq<u8>, n: int) -> Seq<u8> {
    Seq::new(
        n as nat,
        |i: int|
            if i < s.len() {
                s[i]
            } else {
                0u8
            },
    )
}

/// `s` with the bytes from position `at` on overwritten by `t`.
pub open spec fn splice(s: Seq<u8>, at: int, t: Seq<u8>) -> Seq<u8> {
    Seq::new(
        s.len(),
        |i: int|
            if at <= i < at + t.len() {
                t[i - at]
            } else {
                s[i]
            },
    )
}

/// The byte of a signed number, in two's complement.
#[verifier::allow_in_spec]
pub fn i8_byte(v: i8) -> u8
    returns
        ((if v >= 0 {
            v as int
        } else {
            v + 256
        }) as u8),
{
    if v >= 0 {
        v as u8
    } else {
        (v as i16 + 256) as u8
    }
}

/// The signed number of a byte, in two's complement.
#[verifier::allow_in_spec]
pub fn byte_i8(b: u8) -> i8
    returns
        ((if b < 128 {
            b as int
        } else {
            b - 256
        }) as i8),
{
    if b < 128 {
        b as i8
    } else {
        (b as i16 - 256) as i8
    }
}

/// The byte of a boolean.
#[verifier::allow_in_spec]
pub fn bool_byte(b: bool) -> u8
    returns
        (if b {
            1u8
        } else {
            0u8
        }),
{
    if b {
        1
    } else {
        0
    }
}

/// Appends the bytes of `s` to `v`.
pub fn extend(v: &mut Vec<u8>, s: &[u8])
    ensures
        final(v)@ == old(v)@ + s@,
{
    let mut i: usize = 0;
    while i < s.len()
        invariant
            i <= s.len(),
            v@ == old(v)@ + s@.take(i as int),
        decreases s.len() - i,
    {
        v.push(s[i]);
        i = i + 1;
        assert(s@.take(i as int) == s@.take(i - 1).push(s@[i - 1]));
    }
    assert(s@.take(i as int) == s@);
}

/// Appends `n` zero bytes to `v`.
pub fn extend_zeros(v: &mut Vec<u8>, n: usize)
    ensures
        final(v)@ == old(v)@ + zeros(n as int),
{
    let mut i: usize = 0;
    while i < n
        invariant
            i <= n,
            v@ == old(v)@ + zeros(i as int),
        decreases n - i,
    {
        v.push(0);
        i = i + 1;
        assert(zeros(i as int) == zeros(i - 1).push(0));
    }
}

/// Appends the little-endian bytes of `x` to `v`.
pub fn push_le16(v: &mut Vec<u8>, x: u16)
    ensures
        final(v)@ == old(v)@ + le16_bytes(x),
{
    v.push(lo8(x));
    v.push(hi8(x));
}

/// Appends the little-endian bytes of `x` to `v`.
pub fn push_le32(v: &mut Vec<u8>, x: u32)
    ensures
        final(v)@ == old(v)@ + le32_bytes(x),
{
    v.push(lo8(lo16(x)));
    v.push(hi8(lo16(x)));
    v.push(lo8(hi16(x)));
    v.push(hi8(hi16(x)));
}

/// Appends the little-endian bytes of `x` to `v`.
pub fn push_le64(v: &mut Vec<u8>, x: u64)
    ensures
        final(v)@ == old(v)@ + le64_bytes(x),
{
    push_le32(v, lo32(x));
    push_le32(v, hi32(x));
}

/// The bytes of `s` from `from` up to `to`.
pub fn slice_of(s: &[u8], from: usize, to: usize) -> (r: Vec<u8>)
    requires
        from <= to <= s.len(),
    ensures
        r@ == s@.subrange(from as int, to as int),
{
    let mut r: Vec<u8> = Vec::new();
    let mut i: usize = from;
    while i < to
        invariant
            from <= i <= to <= s.len(),
            r@ == s@.subrange(from as int, i as int),
        decreases to - i,
    {
        r.push(s[i]);
        i = i + 1;
        assert(s@.subrange(from as int, i as int) == s@.subrange(from as int, i - 1).push(s@[i - 1]));
    }
    r
}

/// A copy of `s`.
pub fn to_vec(s: &[u8]) -> (r: Vec<u8>)
    ensures
        r@ == s@,
{
    let r = slice_of(s, 0, s.len());
    assert(s@.subrange(0, s@.len() as int) == s@);
    r
}

/// The first `n` bytes of `s`, or all of `s` where it is shorter.
pub fn to_prefix(s: &[u8], n: usize) -> (r: Vec<u8>)
    ensures
        r@ == prefix(s@, n as int),
{
    if s.len() <= n {
        to_vec(s)
    } else {
        let r = slice_of(s, 0, n);
        assert(s@.subrange(0, n as int) == s@.take(n as int));
        r
    }
}

/// Overwrites the bytes of `dst` from position `at` on by `src`.
pub fn put_at<const N: usize>(dst: &mut [u8; N], at: usize, src: &[u8])
    requires
        at + src.len() <= N,
    ensures
        final(dst)@ == splice(old(dst)@, at as int, src@),
{
    let mut i: usize = 0;
    assert(dst@ == splice(old(dst)@, at as int, src@.take(0)));
    while i < src.len()
        invariant
            i <= src.len(),
            at + src.len() <= N,
            dst@ == splice(old(dst)@, at as int, src@.take(i as int)),
        decreases src.len() - i,
    {
        dst[at + i] = src[i];
        i = i + 1;
        assert(dst@ == splice(old(dst)@, at as int, src@.take(i as int)));
    }
    assert(src@.take(i as int) == src@);
}

/// Overwrites the start of `dst` by `src`.
pub fn put_slice(dst: &mut [u8], src: &[u8])
    requires
        src.len() <= old(dst).len(),
    ensures
        final(dst)@ == splice(old(dst)@, 0, src@),
{
    let mut i: usize = 0;
    assert(dst@ == splice(old(dst)@, 0, src@.take(0)));
    while i < src.len()
        invariant
            i <= src.len() <= dst.len(),
            dst@ == splice(old(dst)@, 0, src@.take(i as int)),
        decreases src.len() - i,
    {
        dst[i] = src[i];
        i = i + 1;
        assert(dst@ == splice(old(dst)@, 0, src@.take(i as int)));
    }
    assert(src@.take(i as int) == src@);
}

/// Overwrites the bytes of `dst` from position `at` on by `src`.
pub fn put_vec(dst: &mut Vec<u8>, at: usize, src: &[u8])
    requires
        at + src.len() <= old(dst).len(),
    ensures
        final(dst)@ == splice(old(dst)@, at as int, src@),
{
    let mut i: usize = 0;
    assert(dst@ == splice(old(dst)@, at as int, src@.take(0)));
    while i < src.len()
        invariant
            i <= src.len(),
            at + src.len() <= dst.len(),
            dst@ == splice(old(dst)@, at as int, src@.take(i as int)),
        decreases src.len() - i,
    {
        dst.set(at + i, src[i]);
        i = i + 1;
        assert(dst@ == splice(old(dst)@, at as int, src@.take(i as int)));
    }
    assert(src@.take(i as int) == src@);
}

/// An array of zeros.
pub fn zero_array<const N: usize>() -> (r: [u8; N])
    ensures
        r@ == zeros(N as int),
{
    let mut r: [u8; N] = [0u8; N];
    let mut i: usize = 0;
    while i < N
        invariant
            i <= N,
            forall|j: int| 0 <= j < i ==> r@[j] == 0,
        decreases N - i,
    {
        r[i] = 0;
        i = i + 1;
    }
    r
}

/// An array of the first bytes of `s`, filled up with zeros.
pub fn to_array<const N: usize>(s: &[u8]) -> (r: [u8; N])
    ensures
        r@ == padded(s@, N as int),
{
    let mut r: [u8; N] = zero_array();
    let n = min_usize(s.len(), N);
    let head = to_prefix(s, n);
    put_at(&mut r, 0, head.as_slice());
    assert(r@ == splice(zeros(N as int), 0, head@));
    assert(r@ == padded(s@, N as int));
    r
}

/// Whether two byte strings are the same.
pub fn same(a: &[u8], b: &[u8]) -> (r: bool)
    ensures
        r == (a@ == b@),
{
    if a.len() != b.len() {
        return false;
    }
    let mut i: usize = 0;
    while i < a.len()
        invariant
            a.len() == b.len(),
            i <= a.len(),
            forall|j: int| 0 <= j < i ==> a@[j] == b@[j],
        decreases a.len() - i,
    {
        if a[i] != b[i] {
            return false;
        }
        i = i + 1;
    }
    assert(a@ == b@);
    true
}

} // verus!
