//! Laws of checksums, advertising packets, advertising and scanning.

use vstd::prelude::*;

use crate::bytes;
use crate::errno::Errno;
use crate::sle_adv;
use crate::sle_adv::{
    AdvParams, AdvScanInner, AdvScanState, ExtAdvParams, ExtAdvState, ScanParams,
};
use crate::sle_crc;
use crate::sle_pdu;
use crate::sle_pdu::{
    AdvDataBuilder, AdvDataEntry, AdvDataIter, AdvPdu, AdvPduHeader, BroadcastType, CrcErrors,
    PacketType,
};

verus! {

/// A register after one bit was shifted out, which feeds `poly` back where it was set.
pub open spec fn fed_back(c: u16, poly: u16) -> u16 {
    if c & 1 == 1 {
        (c >> 1) ^ poly
    } else {
        c >> 1
    }
}

/// A register after `n` bits.
pub open spec fn clocked(c: u16, poly: u16, n: nat) -> u16
    decreases n,
{
    if n == 0 {
        c
    } else {
        fed_back(clocked(c, poly, (n - 1) as nat), poly)
    }
}

/// The 12-bit checksum of nothing is the low 12 bits of the start value, and each further
/// byte is added to the register, which is then clocked eight times.
pub proof fn checksum12_by_bytes(seed: u16, a: &[u8], b: &[u8], x: u8, r: u16, s: u16)
    requires
        call_ensures(sle_crc::crc12, (seed, a), r),
        call_ensures(sle_crc::crc12, (seed, b), s),
        b@ == a@.push(x),
    ensures
        a@.len() == 0 ==> r == seed & 0x0FFF,
        s == clocked(r ^ (x as u16), 0x0D25, 8),
        s <= 0x0FFF,
{
    assert(b@.drop_last() =~= a@);
    reveal_with_fuel(clocked, 9);
}

/// The 16-bit checksum of nothing is the start value, and each further byte is added to the
/// register, which is then clocked eight times.
pub proof fn checksum16_by_bytes(seed: u16, a: &[u8], b: &[u8], x: u8, r: u16, s: u16)
    requires
        call_ensures(sle_crc::crc16, (seed, a), r),
        call_ensures(sle_crc::crc16, (seed, b), s),
        b@ == a@.push(x),
    ensures
        a@.len() == 0 ==> r == seed,
        s == clocked(r ^ (x as u16), 0xA001, 8),
{
    assert(b@.drop_last() =~= a@);
    reveal_with_fuel(clocked, 9);
}

/// The start value of the advertising channel.
pub proof fn advertising_start(r: u16)
    requires
        call_ensures(sle_crc::crc12_adv_seed, (), r),
    ensures
        r == 0xA62,
{
}

/// A packet whose checksum was appended is found sound, and no longer where a byte of its
/// data was changed.
pub proof fn appended_and_checked(
    seed: u16,
    buf: &mut [u8],
    n: usize,
    packet: &[u8],
    spoiled: &[u8],
    i: int,
    b: u8,
    good: bool,
    bad: bool,
)
    requires
        call_ensures(sle_crc::crc16_append, (seed, buf, n), ()),
        n + 2 <= buf@.len(),
        packet@ == final(buf)@.take(n + 2),
        call_ensures(sle_crc::crc16_verify, (seed, packet), good),
        0 <= i < n,
        packet@[i] != b,
        spoiled@ == packet@.update(i, b),
        call_ensures(sle_crc::crc16_verify, (seed, spoiled), bad),
    ensures
        good,
        !bad,
        final(buf)@.take(n as int) == old(buf)@.take(n as int),
        final(buf)@.skip(n + 2) == old(buf)@.skip(n + 2),
{
    let d = buf@.take(n as int);
    let c = sle_crc::crc16_of(seed, d);
    assert(final(buf)@.take(n as int) =~= d);
    assert(final(buf)@.skip(n + 2) =~= buf@.skip(n + 2));
    assert(packet@.take(packet@.len() - 2) =~= d);
    assert(packet@[n as int] == bytes::lo8(c) && packet@[n + 1] == bytes::hi8(c));
    assert(bytes::le16(bytes::lo8(c), bytes::hi8(c)) == c);
    assert(spoiled@.take(spoiled@.len() - 2) =~= d.update(i, b));
    sle_crc::one_byte_changed(seed, d, i, b);
}

/// Something shorter than a checksum is not sound.
pub proof fn too_short_to_check(seed: u16, packet: &[u8], r: bool)
    requires
        call_ensures(sle_crc::crc16_verify, (seed, packet), r),
        packet@.len() < 2,
    ensures
        !r,
{
}

/// The bytes of a packet header: link quality; kinds of broadcast and packet, three bits
/// each; the length across the upper half of the third and the lower half of the fourth byte.
pub proof fn header_layout(h: &AdvPduHeader, r: [u8; 4])
    requires
        call_ensures(AdvPduHeader::encode, (h,), r),
    ensures
        r@[0] == h.link_quality,
        r@[1] % 8 == h.broadcast_type.code(),
        r@[1] / 8 == h.packet_type.code(),
        r@[2] % 16 == 0,
        r@[2] / 16 == h.data_length % 16,
        r@[3] == h.data_length / 16,
{
    let q = h.link_quality as int;
    let k = h.broadcast_type.code() + 8 * h.packet_type.code();
    let d = h.data_length as int;
    let w = h.word();
    assert(0 <= k < 64);
    assert(w == q + 0x100 * k + 0x1_0000 * (16 * d));
    halves(q + 0x100 * k, 16 * d);
    assert(bytes::lo16(w) == q + 0x100 * k);
    assert(bytes::hi16(w) == 16 * d);
    quarters(q, k);
    quarters(16 * (d % 16), d / 16);
    assert(r@[1] == k);
}

proof fn halves(a: int, b: int)
    requires
        0 <= a < 0x1_0000,
        0 <= b < 0x1_0000,
    ensures
        (a + 0x1_0000 * b) % 0x1_0000 == a,
        (a + 0x1_0000 * b) / 0x1_0000 == b,
{
}

proof fn quarters(a: int, b: int)
    requires
        0 <= a < 0x100,
    ensures
        (a + 0x100 * b) % 0x100 == a,
        (a + 0x100 * b) / 0x100 == b,
{
}

/// A header is read back.
pub proof fn header_comes_back(h: &AdvPduHeader, b: [u8; 4], r: Option<AdvPduHeader>)
    requires
        call_ensures(AdvPduHeader::encode, (h,), b),
        call_ensures(AdvPduHeader::decode, (&b,), r),
    ensures
        r == Some(*h),
{
    sle_pdu::header_round_trip(*h);
    bytes::le32_of_bytes(h.word());
}

/// An unknown kind makes no header.
pub proof fn unknown_kinds(b: &[u8; 4], r: Option<AdvPduHeader>)
    requires
        call_ensures(AdvPduHeader::decode, (b,), r),
    ensures
        r is None <==> b@[1] % 8 > 3 || b@[1] / 8 % 8 > 5,
        r matches Some(h) ==> h.link_quality == b@[0] && h.data_length == b@[2] / 16 + 16 * (b@[3]
            % 16),
{
    let w = bytes::le32(b@[0], b@[1], b@[2], b@[3]);
    let h = b@[2] + 0x100 * b@[3];
    let k = b@[1] + 0x100 * h;
    assert(w == b@[0] + 0x100 * k);
    quarters(b@[0] as int, k);
    in_parts(b@[1] as int, h);
    in_parts(h, 0);
    parts_of(w as int);
    spread(b@[2] as int, b@[3] as int);
}

proof fn in_parts(a: int, h: int)
    requires
        0 <= a,
        0 <= h,
    ensures
        a < 0x100 ==> (a + 0x100 * h) % 8 == a % 8,
        a < 0x100 ==> (a + 0x100 * h) / 8 % 8 == a / 8 % 8,
        a < 0x100 ==> (a + 0x100 * h) / 0x1000 == h / 16,
{
    let x = a + 0x100 * h;
    assert(x == 8 * (a / 8 + 32 * h) + a % 8);
    assert(x / 8 == a / 8 + 32 * h);
    assert(a / 8 + 32 * h == 8 * (a / 8 / 8 + 4 * h) + a / 8 % 8);
    assert(a < 0x100 ==> x == 0x1000 * (h / 16) + (a + 0x100 * (h % 16)));
}

proof fn parts_of(w: int)
    requires
        0 <= w,
    ensures
        w / 0x800 == w / 0x100 / 8,
        w / 0x10_0000 == w / 0x100 / 0x1000,
{
}

proof fn spread(a: int, b: int)
    requires
        0 <= a < 0x100,
        0 <= b < 0x100,
    ensures
        (a + 0x100 * b) / 16 % 0x100 == a / 16 + 16 * (b % 16),
{
    assert(a + 0x100 * b == 16 * (a / 16 + 16 * b) + a % 16);
    assert((a + 0x100 * b) / 16 == a / 16 + 16 * b);
    assert(a / 16 + 16 * b == 0x100 * (b / 16) + (a / 16 + 16 * (b % 16)));
}

/// The codes of the kinds.
pub proof fn kinds(b: BroadcastType, p: PacketType, x: u8, y: u8)
    requires
        call_ensures(BroadcastType::code, (b,), x),
        call_ensures(PacketType::code, (p,), y),
    ensures
        b == BroadcastType::NoAccessNoScan <==> x == 0,
        b == BroadcastType::AccessibleNoScan <==> x == 1,
        b == BroadcastType::NoAccessScannable <==> x == 2,
        b == BroadcastType::AccessibleScannable <==> x == 3,
        p == PacketType::BasicAdv <==> y == 0,
        p == PacketType::ExtendedAdv <==> y == 1,
        p == PacketType::ScanRequest <==> y == 2,
        p == PacketType::ScanResponse <==> y == 3,
        p == PacketType::AccessRequest <==> y == 4,
        p == PacketType::AccessResponse <==> y == 5,
{
}

/// Whether an element of some kind and value was put behind the data, or left out for want of
/// room.
pub open spec fn put(
    before: Seq<u8>,
    after: Seq<u8>,
    r: Result<(), Errno>,
    typ: u8,
    value: Seq<u8>,
) -> bool {
    if before.len() + value.len() > 253 {
        r == Err::<(), Errno>(Errno::ENOMEM) && after == before
    } else {
        &&& r == Ok::<(), Errno>(())
        &&& after.len() == before.len() + 2 + value.len()
        &&& after.take(before.len() as int) == before
        &&& after[before.len() as int] == typ
        &&& after[before.len() as int + 1] == value.len()
        &&& after.skip(before.len() as int + 2) == value
    }
}

proof fn put_is(before: Seq<u8>, after: Seq<u8>, r: Result<(), Errno>, typ: u8, value: Seq<u8>)
    requires
        sle_pdu::appended(before, typ, value, after, r),
    ensures
        put(before, after, r, typ, value),
{
    if r is Ok {
        assert(after.take(before.len() as int) =~= before);
        assert(after.skip(before.len() as int + 2) =~= value);
    }
}

/// Elements are put behind the data: kind, length, value.
pub proof fn element_is_put(
    b: &mut AdvDataBuilder,
    typ: u8,
    value: &[u8],
    r: Result<(), Errno>,
)
    requires
        call_ensures(AdvDataBuilder::push_tlv, (b, typ, value), r),
    ensures
        put(old(b)@, final(b)@, r, typ, value@),
{
    put_is(b@, final(b)@, r, typ, value@);
}

/// The kinds of the usual elements.
pub proof fn usual_elements(
    a: &mut AdvDataBuilder,
    b: &mut AdvDataBuilder,
    c: &mut AdvDataBuilder,
    d: &mut AdvDataBuilder,
    e: &mut AdvDataBuilder,
    level: u8,
    name: &[u8],
    dbm: i8,
    addr: &[u8; 6],
    u: Result<(), Errno>,
    v: Result<(), Errno>,
    w: Result<(), Errno>,
    x: Result<(), Errno>,
    y: Result<(), Errno>,
)
    requires
        call_ensures(AdvDataBuilder::push_discovery_level, (a, level), u),
        call_ensures(AdvDataBuilder::push_complete_name, (b, name), v),
        call_ensures(AdvDataBuilder::push_short_name, (c, name), w),
        call_ensures(AdvDataBuilder::push_tx_power, (d, dbm), x),
        call_ensures(AdvDataBuilder::push_sle_addr, (e, addr), y),
    ensures
        put(old(a)@, final(a)@, u, 0x01, seq![(level % 8) as u8]),
        put(old(b)@, final(b)@, v, 0x0B, name@),
        put(old(c)@, final(c)@, w, 0x0A, name@),
        x is Ok ==> final(d)@.len() == old(d)@.len() + 3 && final(d)@[old(d)@.len() as int]
            == 0x0C && (final(d)@.last() - dbm) % 256 == 0,
        put(old(e)@, final(e)@, y, 0x0F, addr@),
{
    put_is(a@, final(a)@, u, 0x01, seq![(level % 8) as u8]);
    put_is(b@, final(b)@, v, 0x0B, name@);
    put_is(c@, final(c)@, w, 0x0A, name@);
    put_is(d@, final(d)@, x, 0x0C, seq![bytes::i8_byte(dbm)]);
    put_is(e@, final(e)@, y, 0x0F, addr@);
    if x is Ok {
        let t = final(d)@;
        assert(t.skip(d@.len() as int + 2)[0] == t.last());
    }
}

/// Data of a service and of a manufacturer stand behind their number.
pub proof fn tagged_elements(
    a: &mut AdvDataBuilder,
    b: &mut AdvDataBuilder,
    tag: u16,
    data: &[u8],
    x: Result<(), Errno>,
    y: Result<(), Errno>,
)
    requires
        call_ensures(AdvDataBuilder::push_std_service_data, (a, tag, data), x),
        call_ensures(AdvDataBuilder::push_manufacturer_specific, (b, tag, data), y),
    ensures
        put(old(a)@, final(a)@, x, 0x03, seq![(tag % 0x100) as u8, (tag / 0x100) as u8] + data@),
        put(old(b)@, final(b)@, y, 0xFF, seq![(tag % 0x100) as u8, (tag / 0x100) as u8] + data@),
{
    put_is(a@, final(a)@, x, 0x03, bytes::le16_bytes(tag) + data@);
    put_is(b@, final(b)@, y, 0xFF, bytes::le16_bytes(tag) + data@);
}

/// Walking gives the first whole element and goes on behind it.
pub proof fn element_is_read<'a>(
    it: &mut AdvDataIter<'a>,
    r: Option<AdvDataEntry<'a>>,
    typ: u8,
    value: Seq<u8>,
    rest: Seq<u8>,
)
    requires
        call_ensures(AdvDataIter::<'a>::next, (it,), r),
        value.len() <= 255,
        it.rest() == seq![typ, value.len() as u8] + value + rest,
    ensures
        r matches Some(e) && e.typ == typ && e.value@ == value,
        final(it).rest() == rest,
{
    let s = it.rest();
    assert(s.subrange(2, 2 + s[1]) =~= value);
    assert(s.skip(2 + s[1]) =~= rest);
}

/// Where no whole element is left, walking ends.
pub proof fn walking_ends<'a>(it: &mut AdvDataIter<'a>, r: Option<AdvDataEntry<'a>>)
    requires
        call_ensures(AdvDataIter::<'a>::next, (it,), r),
    ensures
        r is None <==> old(it).rest().len() < 2 || old(it).rest().len() - 2 < old(it).rest()[1],
        r is None ==> final(it).rest() == old(it).rest(),
{
}

/// The bytes of a packet: header, payload, checksum with its lowest byte first.
pub proof fn packet_layout(p: &AdvPdu, out: &mut [u8], r: Result<usize, Errno>, h: [u8; 4])
    requires
        call_ensures(AdvPdu::serialize, (p, out), r),
        call_ensures(AdvPduHeader::encode, (&p.header,), h),
        p.data_len <= 255,
    ensures
        r is Err <==> old(out)@.len() < 6 + p.data_len,
        r is Err ==> r->Err_0 == Errno::ENOMEM && final(out)@ == old(out)@,
        r is Ok ==> {
            let n = p.data_len as int;
            &&& r->Ok_0 == 6 + n
            &&& final(out)@.take(4) == h@
            &&& final(out)@.subrange(4, 4 + n) == p.data@.take(n)
            &&& final(out)@[4 + n] + 0x100 * final(out)@[5 + n] == p.crc
            &&& final(out)@.skip(6 + n) == old(out)@.skip(6 + n)
        },
{
    if r is Ok {
        let n = p.data_len as int;
        assert(final(out)@.take(4) =~= h@);
        assert(final(out)@.subrange(4, 4 + n) =~= p.data@.take(n));
        assert(final(out)@.skip(6 + n) =~= out@.skip(6 + n));
    }
}

/// A packet that was built and written is read back.
pub proof fn packet_comes_back(
    b: BroadcastType,
    k: PacketType,
    q: u8,
    d: &AdvDataBuilder,
    p: AdvPdu,
    out: &mut [u8],
    n: usize,
    data: &[u8],
    errors: &mut CrcErrors,
    r: Option<AdvPdu>,
)
    requires
        call_ensures(AdvPdu::build, (b, k, q, d), p),
        d@.len() <= 255,
        call_ensures(AdvPdu::serialize, (&p, out), Ok::<usize, Errno>(n)),
        data@ == final(out)@.take(n as int),
        call_ensures(AdvPdu::deserialize, (data, errors), r),
    ensures
        r matches Some(x) && x.header == p.header && x.data_len == d@.len() && x.data@.take(
            x.data_len as int,
        ) == d@ && x.crc == p.crc,
        p.header.broadcast_type == b && p.header.packet_type == k && p.header.link_quality == q,
        p.header.data_length == d@.len(),
        *final(errors) == *old(errors),
{
    sent(b, k, q, d, p, out, n);
    read_back(p.header, d@, data, errors, r);
}

proof fn read_back(
    h: AdvPduHeader,
    d: Seq<u8>,
    data: &[u8],
    errors: &mut CrcErrors,
    r: Option<AdvPdu>,
)
    requires
        d.len() == h.data_length,
        data@ == sle_pdu::packet_bytes(h, d, sle_crc::crc12_of(sle_crc::crc12_adv_seed(), d)),
        call_ensures(AdvPdu::deserialize, (data, errors), r),
    ensures
        r matches Some(x) && x.header == h && x.data_len == d.len() && x.data@.take(
            x.data_len as int,
        ) == d && x.crc == sle_crc::crc12_of(sle_crc::crc12_adv_seed(), d),
        *final(errors) == *old(errors),
{
    sle_pdu::packet_round_trip(h, d, Seq::empty());
    assert(data@ + Seq::<u8>::empty() =~= data@);
}

/// A packet of which a payload byte changed on the way is dropped and counted.
pub proof fn spoiled_packet_is_dropped(
    b: BroadcastType,
    k: PacketType,
    q: u8,
    d: &AdvDataBuilder,
    p: AdvPdu,
    out: &mut [u8],
    n: usize,
    data: &[u8],
    i: int,
    v: u8,
    errors: &mut CrcErrors,
    r: Option<AdvPdu>,
)
    requires
        call_ensures(AdvPdu::build, (b, k, q, d), p),
        d@.len() <= 255,
        call_ensures(AdvPdu::serialize, (&p, out), Ok::<usize, Errno>(n)),
        0 <= i < d@.len(),
        d@[i] != v,
        data@ == final(out)@.take(n as int).update(4 + i, v),
        call_ensures(AdvPdu::deserialize, (data, errors), r),
        errors.count < u32::MAX,
    ensures
        r is None,
        final(errors).count == old(errors).count + 1,
{
    sent(b, k, q, d, p, out, n);
    spoiled(p.header, d@, data@, i, v);
    dropped(p.header, data, errors, r);
}

proof fn dropped(h: AdvPduHeader, data: &[u8], errors: &mut CrcErrors, r: Option<AdvPdu>)
    requires
        sle_pdu::packet_header(data@) == Some(h),
        !sle_pdu::packet_sound(data@, h),
        call_ensures(AdvPdu::deserialize, (data, errors), r),
        errors.count < u32::MAX,
    ensures
        r is None,
        final(errors).count == old(errors).count + 1,
{
}

proof fn sent(
    b: BroadcastType,
    k: PacketType,
    q: u8,
    d: &AdvDataBuilder,
    p: AdvPdu,
    out: &mut [u8],
    n: usize,
)
    requires
        call_ensures(AdvPdu::build, (b, k, q, d), p),
        d@.len() <= 255,
        call_ensures(AdvPdu::serialize, (&p, out), Ok::<usize, Errno>(n)),
    ensures
        p.header.data_length == d@.len(),
        final(out)@.take(n as int) == sle_pdu::packet_bytes(
            p.header,
            d@,
            sle_crc::crc12_of(sle_crc::crc12_adv_seed(), d@),
        ),
{
    assert(final(out)@.take(n as int) =~= sle_pdu::packet_bytes(p.header, d@, p.crc));
}

proof fn spoiled(h: AdvPduHeader, d: Seq<u8>, data: Seq<u8>, i: int, v: u8)
    requires
        d.len() == h.data_length,
        0 <= i < d.len(),
        d[i] != v,
        data == sle_pdu::packet_bytes(
            h,
            d,
            sle_crc::crc12_of(sle_crc::crc12_adv_seed(), d),
        ).update(4 + i, v),
    ensures
        sle_pdu::packet_header(data) == Some(h),
        !sle_pdu::packet_sound(data, h),
{
    let c = sle_crc::crc12_of(sle_crc::crc12_adv_seed(), d);
    let all = sle_pdu::packet_bytes(h, d, c);
    sle_pdu::packet_round_trip(h, d, Seq::empty());
    assert(all + Seq::<u8>::empty() =~= all);
    assert(data.subrange(4, 4 + h.data_length) =~= d.update(i, v));
    sle_crc::one_byte_changed(sle_crc::crc12_adv_seed(), d, i, v);
}

/// What is cut short is no packet and is not counted.
pub proof fn cut_packet_is_none(data: &[u8], errors: &mut CrcErrors, r: Option<AdvPdu>)
    requires
        call_ensures(AdvPdu::deserialize, (data, errors), r),
        data@.len() < 6,
    ensures
        r is None,
        *final(errors) == *old(errors),
{
}

/// A device advertises when it did nothing else, and waits for the controller first.
pub proof fn advertising_starts(a: &mut AdvScanInner, p: AdvParams, r: Result<(), Errno>)
    requires
        call_ensures(AdvScanInner::start_advertising, (a, p), r),
    ensures
        r is Ok <==> old(a).state == AdvScanState::Idle,
        r is Err ==> r->Err_0 == Errno::EBUSY && final(a)@ == old(a)@,
        r is Ok ==> final(a).state == AdvScanState::AdvPending && final(a).adv_params == p
            && final(a)@.results == old(a)@.results,
{
}

/// A device scans when it did nothing else, waits for the controller first, and forgets what
/// it heard before.
pub proof fn scanning_starts(a: &mut AdvScanInner, p: ScanParams, r: Result<(), Errno>)
    requires
        call_ensures(AdvScanInner::start_scanning, (a, p), r),
    ensures
        r is Ok <==> old(a).state == AdvScanState::Idle,
        r is Err ==> r->Err_0 == Errno::EBUSY && final(a)@ == old(a)@,
        r is Ok ==> final(a).state == AdvScanState::ScanPending && final(a).scan_params == p
            && final(a)@.results.len() == 0,
{
}

/// What the controller confirms goes on, what it refuses is over, and nothing else changes.
pub proof fn controller_decides(
    a: &mut AdvScanInner,
    b: &mut AdvScanInner,
    c: &mut AdvScanInner,
    d: &mut AdvScanInner,
)
    requires
        call_ensures(AdvScanInner::confirm_advertising, (a,), ()),
        call_ensures(AdvScanInner::abort_advertising, (b,), ()),
        call_ensures(AdvScanInner::confirm_scanning, (c,), ()),
        call_ensures(AdvScanInner::abort_scanning, (d,), ()),
    ensures
        final(a).state == (if old(a).state == AdvScanState::AdvPending {
            AdvScanState::Advertising
        } else {
            old(a).state
        }),
        final(b).state == (if old(b).state == AdvScanState::AdvPending {
            AdvScanState::Idle
        } else {
            old(b).state
        }),
        final(c).state == (if old(c).state == AdvScanState::ScanPending {
            AdvScanState::Scanning
        } else {
            old(c).state
        }),
        final(d).state == (if old(d).state == AdvScanState::ScanPending {
            AdvScanState::Idle
        } else {
            old(d).state
        }),
        final(c)@.results == old(c)@.results,
{
}

/// Advertising and scanning are stopped where they are under way or asked for.
pub proof fn stopping(
    a: &mut AdvScanInner,
    b: &mut AdvScanInner,
    x: Result<(), Errno>,
    y: Result<(), Errno>,
)
    requires
        call_ensures(AdvScanInner::stop_advertising, (a,), x),
        call_ensures(AdvScanInner::stop_scanning, (b,), y),
    ensures
        x is Ok <==> old(a).state == AdvScanState::Advertising || old(a).state
            == AdvScanState::AdvPending,
        y is Ok <==> old(b).state == AdvScanState::Scanning || old(b).state
            == AdvScanState::ScanPending,
        x is Ok ==> final(a).state == AdvScanState::Idle,
        y is Ok ==> final(b).state == AdvScanState::Idle && final(b)@.results == old(b)@.results,
        x is Err ==> x->Err_0 == Errno::EBUSY && final(a)@ == old(a)@,
        y is Err ==> y->Err_0 == Errno::EBUSY && final(b)@ == old(b)@,
{
}

/// What a device is doing, as others ask.
pub proof fn doing(a: &AdvScanInner, x: bool, y: bool)
    requires
        call_ensures(AdvScanInner::is_advertising, (a,), x),
        call_ensures(AdvScanInner::is_scanning, (a,), y),
    ensures
        x == (a.state == AdvScanState::Advertising || a.state == AdvScanState::AdvPending),
        y == (a.state == AdvScanState::Scanning || a.state == AdvScanState::ScanPending),
        !(x && y),
{
}

/// A report of the controller is kept behind the others where the device scans and the level
/// is not below the filter; the oldest goes where there are as many as are kept.
pub proof fn report_is_kept(
    a: &mut AdvScanInner,
    addr: &[u8; 6],
    rssi: i8,
    level: u8,
    data: &[u8],
    r: Result<(), Errno>,
)
    requires
        call_ensures(AdvScanInner::process_adv_report, (a, addr, rssi, level, data), r),
    ensures
        r is Ok,
        (old(a).state != AdvScanState::Scanning && old(a).state != AdvScanState::ScanPending)
            || level < old(a).scan_params.filter_level ==> final(a)@ == old(a)@,
        (old(a).state == AdvScanState::Scanning || old(a).state == AdvScanState::ScanPending)
            && level >= old(a).scan_params.filter_level ==> {
            let o = old(a)@.results;
            let n = final(a)@.results;
            let s = n.last();
            &&& n.len() > 0
            &&& o.len() < old(a).scan_results_max ==> n.drop_last() == o
            &&& o.len() >= old(a).scan_results_max && o.len() > 0 ==> n.drop_last() == o.skip(1)
            &&& s.addr == addr@
            &&& s.rssi == rssi
            &&& s.discovery_level == level
            &&& data@.len() <= 255 ==> s.adv_data_len == data@.len() && s.adv_data.take(
                data@.len() as int,
            ) == data@
            &&& data@.len() > 255 ==> s.adv_data_len == 255 && s.adv_data == data@.take(255)
            &&& final(a).state == old(a).state
        },
{
    if (a.state == AdvScanState::Scanning || a.state == AdvScanState::ScanPending) && level
        >= a.scan_params.filter_level {
        let o = a@.results;
        let n = final(a)@.results;
        if o.len() < a.scan_results_max {
            assert(n.drop_last() =~= o);
        } else if o.len() > 0 {
            assert(n.drop_last() =~= o.skip(1));
        }
        let s = n.last();
        if data@.len() <= 255 {
            assert(s.adv_data.take(data@.len() as int) =~= data@);
        } else {
            assert(s.adv_data =~= data@.take(255));
        }
    }
}

/// What one device advertises, another that scans reports: level, address and name, with the
/// strength at which it was heard.
pub proof fn heard_as_sent(
    a: &AdvScanInner,
    p: AdvPdu,
    b: &mut AdvScanInner,
    rssi: i8,
    r: Result<(), Errno>,
)
    requires
        call_ensures(AdvScanInner::build_adv_pdu, (a,), Some(p)),
        a.local_name_len <= 32,
        a.local_name_len > 0,
        call_ensures(AdvScanInner::process_adv_pdu, (b, &p, rssi), r),
        b.state == AdvScanState::Scanning,
        a.adv_params.discovery_level % 8 >= b.scan_params.filter_level,
    ensures
        r is Ok,
        final(b)@.results.len() > 0,
        ({
            let s = final(b)@.results.last();
            &&& s.addr == a.addr@
            &&& s.rssi == rssi
            &&& s.discovery_level == a.adv_params.discovery_level % 8
            &&& s.name.take(s.name_len) == a.local_name@.take(a.local_name_len as int)
        }),
{
    let start = sle_adv::ScanModel {
        rssi,
        adv_data: bytes::padded(p.payload(), 255),
        adv_data_len: p.data_len as int,
        ..sle_adv::blank()
    };
    sle_adv::heard_as_advertised(
        a.adv_params.discovery_level,
        a.adv_params.tx_power,
        a.addr@,
        a@.name(),
        start,
    );
    kept_rssi(start, sle_pdu::elements(p.payload()));
}

proof fn kept_rssi(s: sle_adv::ScanModel, es: Seq<(u8, Seq<u8>)>)
    ensures
        s.told_all(es).rssi == s.rssi,
        s.told_all(es).adv_data == s.adv_data,
    decreases es.len(),
{
    if es.len() > 0 {
        kept_rssi(s.told(es[0]), es.drop_first());
    }
}

/// What one element alone tells a device that scans: a level, a name of at most 32 bytes,
/// whole or shortened, or an address; an element of any other kind tells nothing.
pub proof fn lone_element_is_heard(
    b: &mut AdvScanInner,
    p: &AdvPdu,
    rssi: i8,
    r: Result<(), Errno>,
    v: Seq<u8>,
)
    requires
        call_ensures(AdvScanInner::process_adv_pdu, (b, p, rssi), r),
        b.state == AdvScanState::Scanning,
        b.scan_params.filter_level == 0,
        v.len() <= 253,
        p.payload().len() == v.len() + 2,
        p.payload()[1] == v.len(),
        p.payload().skip(2) == v,
    ensures
        r is Ok,
        final(b)@.results.len() > 0,
        ({
            let s = final(b)@.results.last();
            let t = p.payload()[0];
            let n = if v.len() < 32 {
                v.len() as int
            } else {
                32
            };
            &&& s.rssi == rssi
            &&& s.discovery_level == (if t == 1 && v.len() > 0 {
                v[0] % 8
            } else {
                0
            })
            &&& s.name_len == (if t == 10 || t == 11 {
                n
            } else {
                0
            })
            &&& t == 10 || t == 11 ==> s.name.take(n) == v.take(n)
            &&& s.addr == (if t == 15 && v.len() == 6 {
                v
            } else {
                seq![0, 0, 0, 0, 0, 0]
            })
        }),
{
    let d = p.payload();
    assert(sle_pdu::starts_whole(d));
    assert(d.subrange(2, 2 + d[1]) =~= v);
    assert(d.skip(2 + d[1]) =~= Seq::<u8>::empty());
    let es = sle_pdu::elements(d);
    assert(sle_pdu::elements(d.skip(2 + d[1])) =~= Seq::empty());
    assert(es =~= seq![(d[0], v)]);
    let start = sle_adv::ScanModel {
        rssi,
        adv_data: bytes::padded(d, 255),
        adv_data_len: p.data_len as int,
        ..sle_adv::blank()
    };
    reveal_with_fuel(sle_adv::ScanModel::told_all, 2);
    assert(es.drop_first().len() == 0);
    let s = start.told_all(es);
    assert(s == start.told((d[0], v)));
    assert(start.addr =~= seq![0, 0, 0, 0, 0, 0]);
    let n = if v.len() < 32 {
        v.len() as int
    } else {
        32
    };
    if d[0] == 10 || d[0] == 11 {
        assert(s.name.take(n) =~= v.take(n));
    }
}

/// The last name that is told counts: an element behind whole ones replaces what they told.
pub proof fn last_name_is_heard(
    b: &mut AdvScanInner,
    p: &AdvPdu,
    rssi: i8,
    r: Result<(), Errno>,
    first: Seq<u8>,
    v: Seq<u8>,
)
    requires
        call_ensures(AdvScanInner::process_adv_pdu, (b, p, rssi), r),
        b.state == AdvScanState::Scanning,
        b.scan_params.filter_level == 0,
        0 < v.len() <= 32,
        sle_pdu::whole(first),
        p.payload() == first + seq![11u8, v.len() as u8] + v,
    ensures
        r is Ok,
        final(b)@.results.len() > 0,
        final(b)@.results.last().name_len == v.len(),
        final(b)@.results.last().name.take(v.len() as int) == v,
{
    let d = p.payload();
    assert(d =~= first + sle_pdu::tlv(11, v));
    sle_pdu::appended_comes_last(first, 11, v);
    let es = sle_pdu::elements(first);
    let start = sle_adv::ScanModel {
        rssi,
        adv_data: bytes::padded(d, 255),
        adv_data_len: p.data_len as int,
        ..sle_adv::blank()
    };
    told_behind(start, es, (11u8, v));
    let s = start.told_all(es);
    assert(s.told((11u8, v)).name.take(v.len() as int) =~= v);
}

proof fn told_behind(s: sle_adv::ScanModel, es: Seq<(u8, Seq<u8>)>, e: (u8, Seq<u8>))
    requires
        s.name.len() == 32,
    ensures
        s.told_all(es.push(e)) == s.told_all(es).told(e),
        s.told_all(es).name.len() == 32,
    decreases es.len(),
{
    if es.len() == 0 {
        reveal_with_fuel(sle_adv::ScanModel::told_all, 2);
        assert(es.push(e).drop_first().len() == 0);
    } else {
        told_behind(s.told(es[0]), es.drop_first(), e);
        assert(es.push(e).drop_first() =~= es.drop_first().push(e));
    }
}

/// A device that does not advertise has no advertisement; one that does tells its kinds.
pub proof fn advertisement(a: &AdvScanInner, r: Option<AdvPdu>)
    requires
        call_ensures(AdvScanInner::build_adv_pdu, (a,), r),
    ensures
        r is Some <==> a.state == AdvScanState::Advertising || a.state == AdvScanState::AdvPending,
        r matches Some(p) ==> p.header.packet_type == PacketType::BasicAdv
            && p.header.broadcast_type == a.adv_params.broadcast_type,
{
}

/// A device that does not scan refuses what it hears.
pub proof fn deaf_unless_scanning(
    b: &mut AdvScanInner,
    p: &AdvPdu,
    rssi: i8,
    r: Result<(), Errno>,
)
    requires
        call_ensures(AdvScanInner::process_adv_pdu, (b, p, rssi), r),
        b.state != AdvScanState::Scanning,
        b.state != AdvScanState::ScanPending,
    ensures
        r == Err::<(), Errno>(Errno::EPERM),
        final(b)@ == old(b)@,
{
}

/// An extended set is set up under one of four handles, unless it is active.
pub proof fn set_is_configured(
    a: &mut AdvScanInner,
    h: u8,
    p: ExtAdvParams,
    r: Result<(), Errno>,
)
    requires
        call_ensures(AdvScanInner::ext_adv_configure, (a, h, p), r),
    ensures
        h >= 4 || p.sid > 15 ==> r == Err::<(), Errno>(Errno::EINVAL),
        h < 4 && p.sid <= 15 && old(a)@.sets[h as int] is Some && (old(a)@.sets[h as int]->0).state == ExtAdvState::Active ==> r == Err::<(), Errno>(Errno::EBUSY),
        r is Err ==> final(a)@ == old(a)@,
        h < 4 && p.sid <= 15 && (old(a)@.sets[h as int] is None || (old(a)@.sets[h as int]->0).state != ExtAdvState::Active) ==> {
            &&& r is Ok
            &&& final(a)@.sets[h as int] is Some
            &&& (final(a)@.sets[h as int]->0).state == ExtAdvState::Configured
            &&& (final(a)@.sets[h as int]->0).params == p
            &&& old(a)@.sets[h as int] is Some ==> (final(a)@.sets[h as int]->0).data == (old(a)@.sets[h as int]->0).data
            &&& forall|i: int|
                0 <= i < 4 && i != h ==> #[trigger] final(a)@.sets[i] == old(a)@.sets[i]
        },
{
}

/// A set that is set up takes data and can be enabled with its limits; enabling starts all
/// counts anew.
pub proof fn set_is_enabled(
    a: &mut AdvScanInner,
    b: &mut AdvScanInner,
    h: u8,
    data: &[u8],
    ticks: u16,
    events: u8,
    x: Result<(), Errno>,
    y: Result<(), Errno>,
)
    requires
        call_ensures(AdvScanInner::ext_adv_set_data, (a, h, data), x),
        h < 4,
        a@.sets[h as int] is Some,
        (a@.sets[h as int]->0).state != ExtAdvState::Idle,
        *b == *final(a),
        call_ensures(AdvScanInner::ext_adv_enable_ex, (b, h, ticks, events), y),
    ensures
        x is Ok && y is Ok,
        ({
            let s = final(b)@.sets[h as int]->0;
            &&& final(b)@.sets[h as int] is Some
            &&& s.state == ExtAdvState::Active
            &&& data@.len() <= 1650 ==> s.data == data@
            &&& data@.len() > 1650 ==> s.data == data@.take(1650)
            &&& s.duration_10ms == ticks && s.max_events == events
            &&& s.events_sent == 0 && s.elapsed_ticks == 0 && s.tx_count == 0
            &&& s.params == (old(a)@.sets[h as int]->0).params
        }),
{
}

/// An active set is disabled, and only such a one; a set that is not active can be removed.
pub proof fn set_is_disabled_and_removed(
    a: &mut AdvScanInner,
    b: &mut AdvScanInner,
    h: u8,
    x: Result<(), Errno>,
    y: Result<(), Errno>,
)
    requires
        call_ensures(AdvScanInner::ext_adv_disable, (a, h), x),
        call_ensures(AdvScanInner::ext_adv_remove, (b, h), y),
        h < 4,
        a@.sets[h as int] is Some,
        b@.sets[h as int] is Some,
    ensures
        x is Ok <==> (old(a)@.sets[h as int]->0).state == ExtAdvState::Active,
        x is Ok ==> (final(a)@.sets[h as int]->0).state == ExtAdvState::Configured,
        x is Err ==> x->Err_0 == Errno::EINVAL && final(a)@ == old(a)@,
        y is Ok <==> (old(b)@.sets[h as int]->0).state != ExtAdvState::Active,
        y is Ok ==> final(b)@.sets[h as int] is None,
        y is Err ==> y->Err_0 == Errno::EBUSY && final(b)@ == old(b)@,
{
}

/// A set that is not there cannot be used.
pub proof fn no_such_set(a: &mut AdvScanInner, h: u8, r: Result<(), Errno>)
    requires
        call_ensures(AdvScanInner::ext_adv_enable, (a, h), r),
        h >= 4 || a@.sets[h as int] is None,
    ensures
        r == Err::<(), Errno>(
            if h >= 4 {
                Errno::EINVAL
            } else {
                Errno::ENOENT
            },
        ),
        final(a)@ == old(a)@,
{
}

/// With each 10 ms an active set sends once; it stops when its time or its number of events
/// is reached, and not before.
pub proof fn set_ticks(a: &mut AdvScanInner, r: u8, i: int)
    requires
        call_ensures(AdvScanInner::ext_adv_tick, (a,), r),
        0 <= i < 4,
        a@.sets[i] is Some,
        (a@.sets[i]->0).elapsed_ticks < u32::MAX,
        (a@.sets[i]->0).events_sent < u32::MAX,
        (a@.sets[i]->0).tx_count < u64::MAX,
    ensures
        final(a)@.sets[i] is Some,
        ({
            let o = old(a)@.sets[i]->0;
            let s = final(a)@.sets[i]->0;
            &&& o.state != ExtAdvState::Active ==> s == o
            &&& o.state == ExtAdvState::Active ==> {
                &&& s.elapsed_ticks == o.elapsed_ticks + 1
                &&& s.events_sent == o.events_sent + 1
                &&& s.tx_count == o.tx_count + 1
                &&& s.data == o.data
                &&& s.state == ExtAdvState::Active <==> (o.duration_10ms == 0 || s.elapsed_ticks
                    < o.duration_10ms) && (o.max_events == 0 || s.events_sent < o.max_events)
                &&& s.state == ExtAdvState::Active || s.state == ExtAdvState::Configured
            }
        }),
        r <= 4,
{
    stopping_bound(a@.sets, 4);
}

proof fn stopping_bound(s: Seq<Option<sle_adv::ExtModel>>, n: int)
    requires
        n >= 0,
    ensures
        0 <= sle_adv::stopping_sets(s, n) <= n,
    decreases n,
{
    if n > 0 {
        stopping_bound(s, n - 1);
    }
}

/// A fresh device does nothing, has its address and as much of its name as fits.
pub proof fn fresh_device(addr: [u8; 6], name: &[u8], r: AdvScanInner)
    requires
        call_ensures(AdvScanInner::new, (addr, name), r),
    ensures
        r.state == AdvScanState::Idle,
        r.addr@ == addr@,
        name@.len() <= 32 ==> r.local_name_len == name@.len() && r.local_name@.take(
            name@.len() as int,
        ) == name@,
        name@.len() > 32 ==> r.local_name_len == 32 && r.local_name@ == name@.take(32),
        r.scan_results_max == 64,
        r@.results.len() == 0,
        forall|i: int| 0 <= i < 4 ==> #[trigger] r@.sets[i] is None,
{
    assert(r.local_name@ == r@.local_name);
    if name@.len() <= 32 {
        assert(r.local_name@.take(name@.len() as int) =~= name@);
    } else {
        assert(r.local_name@ =~= name@.take(32));
    }
}

/// Whether bytes start with the elements of an advertisement: level, power where it is told,
/// address, and the name where there is one; `n` is their length.
pub open spec fn introduced(
    s: Seq<u8>,
    level: u8,
    power: Option<i8>,
    addr: Seq<u8>,
    name: Seq<u8>,
    n: int,
) -> bool {
    let o: int = if power is Some {
        6
    } else {
        3
    };
    &&& n == o + 8 + (if name.len() > 0 {
        2 + name.len() as int
    } else {
        0
    })
    &&& s.len() >= n
    &&& s[0] == 0x01 && s[1] == 1 && s[2] == level % 8
    &&& power is Some ==> s[3] == 0x0C && s[4] == 1 && (s[5] - power->0) % 256 == 0
    &&& s[o] == 0x0F && s[o + 1] == 6 && s.subrange(o + 2, o + 8) == addr
    &&& name.len() > 0 ==> s[o + 8] == 0x0B && s[o + 9] == name.len() && s.subrange(o + 10, n)
        == name
}

proof fn is_introduced(level: u8, power: Option<i8>, addr: Seq<u8>, name: Seq<u8>, rest: Seq<u8>)
    requires
        addr.len() == 6,
        name.len() <= 32,
    ensures
        ({
            let c = sle_adv::common_data(level, power, addr, name);
            introduced(c + rest, level, power, addr, name, c.len() as int)
        }),
{
    let c = sle_adv::common_data(level, power, addr, name);
    let s = c + rest;
    let o: int = if power is Some {
        6
    } else {
        3
    };
    assert(s.subrange(o + 2, o + 8) =~= addr);
    if name.len() > 0 {
        assert(s.subrange(o + 10, c.len() as int) =~= name);
    }
}

/// What an advertisement says: level, power, address and name of the device, with a checksum.
pub proof fn advertisement_says(a: &AdvScanInner, p: AdvPdu, c: u16, payload: &[u8])
    requires
        call_ensures(AdvScanInner::build_adv_pdu, (a,), Some(p)),
        a.local_name_len <= 32,
        payload@ == p.data@.take(p.data_len as int),
        call_ensures(sle_crc::crc12, (0xA62u16, payload), c),
    ensures
        p.header.link_quality == 0 && p.header.data_length == p.data_len,
        p.crc == c,
        introduced(
            payload@,
            a.adv_params.discovery_level,
            Some(a.adv_params.tx_power),
            a.addr@,
            a.local_name@.take(a.local_name_len as int),
            p.data_len as int,
        ),
{
    let d = sle_adv::common_data(
        a.adv_params.discovery_level,
        Some(a.adv_params.tx_power),
        a.addr@,
        a@.name(),
    );
    is_introduced(
        a.adv_params.discovery_level,
        Some(a.adv_params.tx_power),
        a.addr@,
        a@.name(),
        Seq::empty(),
    );
    assert(d + Seq::<u8>::empty() =~= d);
    assert(payload@ =~= d);
}

/// An extended set that is active advertises its own data behind what every advertisement
/// says, as far as 251 bytes go.
pub proof fn extended_advertisement(a: &AdvScanInner, h: u8, r: Option<AdvPdu>)
    requires
        call_ensures(AdvScanInner::build_ext_adv_pdu, (a, h), r),
        a.local_name_len <= 32,
    ensures
        r is Some <==> h < 4 && a@.sets[h as int] is Some && (a@.sets[h as int]->0).state
            == ExtAdvState::Active,
        r matches Some(p) ==> {
            let s = a@.sets[h as int]->0;
            let payload = p.data@.take(p.data_len as int);
            let power = if s.params.include_tx_power {
                Some(s.params.tx_power)
            } else {
                None
            };
            &&& p.header.packet_type == PacketType::ExtendedAdv
            &&& p.header.broadcast_type == s.params.broadcast_type
            &&& p.data_len <= 251
            &&& exists|n: int|
                #![trigger payload.skip(n)]
                introduced(
                    payload,
                    s.params.discovery_level,
                    power,
                    a.addr@,
                    a.local_name@.take(a.local_name_len as int),
                    n,
                ) && (if n + s.data.len() <= 251 {
                    payload.skip(n) == s.data
                } else {
                    payload.skip(n) == s.data.take(251 - n)
                })
        },
{
    if r is Some {
        let p = r->0;
        let s = a@.sets[h as int]->0;
        let payload = p.data@.take(p.data_len as int);
        let power = if s.params.include_tx_power {
            Some(s.params.tx_power)
        } else {
            None
        };
        let c = sle_adv::common_data(s.params.discovery_level, power, a.addr@, a@.name());
        let n = c.len() as int;
        let rest = if n + s.data.len() <= 251 {
            s.data
        } else {
            s.data.take(251 - n)
        };
        is_introduced(s.params.discovery_level, power, a.addr@, a@.name(), rest);
        assert(payload == s.payload(a.addr@, a@.name()));
        assert(payload =~= c + rest);
        assert(payload.skip(n) =~= rest);
    }
}

/// An advertisement below the level that a scanner asks for leaves no trace.
pub proof fn filtered_out(
    a: &AdvScanInner,
    p: AdvPdu,
    b: &mut AdvScanInner,
    rssi: i8,
    r: Result<(), Errno>,
)
    requires
        call_ensures(AdvScanInner::build_adv_pdu, (a,), Some(p)),
        0 < a.local_name_len <= 32,
        call_ensures(AdvScanInner::process_adv_pdu, (b, &p, rssi), r),
        b.state == AdvScanState::Scanning,
        a.adv_params.discovery_level % 8 < b.scan_params.filter_level,
    ensures
        r is Ok,
        final(b)@ == old(b)@,
{
    let start = sle_adv::ScanModel {
        rssi,
        adv_data: bytes::padded(p.payload(), 255),
        adv_data_len: p.data_len as int,
        ..sle_adv::blank()
    };
    sle_adv::heard_as_advertised(
        a.adv_params.discovery_level,
        a.adv_params.tx_power,
        a.addr@,
        a@.name(),
        start,
    );
}

/// What is told of an extended set.
pub proof fn set_is_told(
    a: &AdvScanInner,
    h: u8,
    r: Result<(ExtAdvState, u8, u8, usize, u64, u8, u8, u32), Errno>,
    n: usize,
)
    requires
        call_ensures(AdvScanInner::ext_adv_info, (a, h), r),
        call_ensures(AdvScanInner::scan_result_count, (a,), n),
    ensures
        n == a@.results.len(),
        h >= 4 ==> r is Err && r->Err_0 == Errno::EINVAL,
        h < 4 && a@.sets[h as int] is None ==> r is Err && r->Err_0 == Errno::ENOENT,
        h < 4 && a@.sets[h as int] is Some ==> {
            let s = a@.sets[h as int]->0;
            r matches Ok(t) && t.0 == s.state && t.1 == s.params.sid && t.2
                == s.params.primary_phy.code() && (s.data.len() <= 1650 ==> t.3 == s.data.len())
                && t.4 == s.tx_count && t.5 == s.params.extended_adv_timing && t.6 == s.max_events
                && t.7 == s.events_sent
        },
{
}

/// A builder starts empty, tells its bytes and what room is left, and takes bytes as they are.
pub proof fn builder_tells(
    e: AdvDataBuilder,
    b: &AdvDataBuilder,
    n: usize,
    m: usize,
    v: &[u8],
    c: &mut AdvDataBuilder,
    data: &[u8],
    r: Result<(), Errno>,
)
    requires
        call_ensures(AdvDataBuilder::new, (), e),
        call_ensures(AdvDataBuilder::len, (b,), n),
        call_ensures(AdvDataBuilder::remaining, (b,), m),
        call_ensures(AdvDataBuilder::as_bytes, (b,), v),
        call_ensures(AdvDataBuilder::push_raw, (c, data), r),
    ensures
        e@.len() == 0,
        n == b@.len() && v@ == b@,
        m == 255 - n,
        r is Ok <==> old(c)@.len() + data@.len() <= 255,
        r is Ok ==> final(c)@ == old(c)@ + data@,
        r is Err ==> r->Err_0 == Errno::ENOMEM && final(c)@ == old(c)@,
{
}

/// The number that stands at place `i` of a list of 16-bit numbers.
pub open spec fn item16(s: Seq<u8>, i: int) -> int {
    s[2 * i] + 0x100 * s[2 * i + 1]
}

proof fn items16(s: Seq<u16>, i: int)
    requires
        0 <= i < s.len(),
    ensures
        sle_pdu::uuid16_bytes(s).len() == 2 * s.len(),
        item16(sle_pdu::uuid16_bytes(s), i) == s[i],
    decreases s.len(),
{
    let d = s.drop_last();
    if d.len() > 0 {
        items16(
            d,
            if i < d.len() {
                i
            } else {
                0
            },
        );
    } else {
        assert(sle_pdu::uuid16_bytes(d) =~= Seq::<u8>::empty());
    }
}

proof fn items128(s: Seq<[u8; 16]>, i: int)
    requires
        0 <= i < s.len(),
    ensures
        sle_pdu::uuid128_bytes(s).len() == 16 * s.len(),
        sle_pdu::uuid128_bytes(s).subrange(16 * i, 16 * i + 16) == s[i]@,
    decreases s.len(),
{
    let d = s.drop_last();
    if d.len() > 0 {
        items128(
            d,
            if i < d.len() {
                i
            } else {
                0
            },
        );
    } else {
        assert(sle_pdu::uuid128_bytes(d) =~= Seq::<u8>::empty());
    }
    let all = sle_pdu::uuid128_bytes(s);
    if i < d.len() {
        assert(all.subrange(16 * i, 16 * i + 16) =~= sle_pdu::uuid128_bytes(d).subrange(
            16 * i,
            16 * i + 16,
        ));
    } else {
        assert(all.subrange(16 * i, 16 * i + 16) =~= s[i]@);
    }
}

/// Lists of services, their hash and the capability to be accessed are elements of their own
/// kinds.
pub proof fn further_elements(
    a: &mut AdvDataBuilder,
    b: &mut AdvDataBuilder,
    c: &mut AdvDataBuilder,
    d: &mut AdvDataBuilder,
    u: &[u16],
    v: &[[u8; 16]],
    hash: &[u8; 16],
    cap: u8,
    w: Result<(), Errno>,
    x: Result<(), Errno>,
    y: Result<(), Errno>,
    z: Result<(), Errno>,
    i: int,
)
    requires
        call_ensures(AdvDataBuilder::push_std_service_list, (a, u), w),
        call_ensures(AdvDataBuilder::push_custom_service_list, (b, v), x),
        call_ensures(AdvDataBuilder::push_service_hash, (c, hash), y),
        call_ensures(AdvDataBuilder::push_access_capability, (d, cap), z),
        0 <= i < u@.len(),
        0 <= i < v@.len(),
    ensures
        exists|p: Seq<u8>| #[trigger]
            put(old(a)@, final(a)@, w, 0x05, p) && p.len() == 2 * u@.len() && item16(p, i)
                == u@[i],
        exists|p: Seq<u8>| #[trigger]
            put(old(b)@, final(b)@, x, 0x06, p) && p.len() == 16 * v@.len() && p.subrange(
                16 * i,
                16 * i + 16,
            ) == v@[i]@,
        put(old(c)@, final(c)@, y, 0x09, hash@),
        put(old(d)@, final(d)@, z, 0x02, seq![cap]),
{
    put_is(a@, final(a)@, w, 0x05, sle_pdu::uuid16_bytes(u@));
    put_is(b@, final(b)@, x, 0x06, sle_pdu::uuid128_bytes(v@));
    put_is(c@, final(c)@, y, 0x09, hash@);
    put_is(d@, final(d)@, z, 0x02, seq![cap]);
    items16(u@, i);
    items128(v@, i);
}

} // verus!
