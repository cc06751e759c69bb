//! Laws of commands on their way and of messages made of attributes.

use vstd::prelude::*;

use crate::bytes;
use crate::errno::Errno;
use crate::sle_mgmt;
use crate::sle_mgmt::{
    CmdPendingEntry, CmdPendingQueue, CmdRequest, CmdRequestQueue, PendingModel,
};
use crate::sle_netlink;
use crate::sle_netlink::{NlAttr, NlAttrBuilder, NlAttrIter, ParsedAttr};

verus! {

/// A command that was just sent waits, and is overdue when its time is over.
pub proof fn command_waits(
    op: u16,
    seq: u32,
    now: u64,
    timeout: u64,
    r: CmdPendingEntry,
    t: u64,
    p: bool,
    q: bool,
    x: bool,
    s: Option<u8>,
)
    requires
        call_ensures(CmdPendingEntry::new, (op, seq, now, timeout), r),
        call_ensures(CmdPendingEntry::is_pending, (&r,), p),
        call_ensures(CmdPendingEntry::is_resolved, (&r,), q),
        call_ensures(CmdPendingEntry::is_expired, (&r, t), x),
        call_ensures(CmdPendingEntry::result_status, (&r,), s),
    ensures
        r.opcode == op && r.seq == seq && r.data_len == 0,
        p && !q && s is None,
        now + timeout <= u64::MAX ==> (x <==> t >= now + timeout),
        r.deadline == (now + timeout) % 0x1_0000_0000_0000_0000,
{
    assert(r@.opcode == op);
}

/// An answer settles a command: its status is read back and the start of the data kept.
pub proof fn answer_settles(
    e: &mut CmdPendingEntry,
    status: u8,
    data: &[u8],
    f: CmdPendingEntry,
    p: bool,
    q: bool,
    s: Option<u8>,
)
    requires
        call_ensures(CmdPendingEntry::resolve, (e, status, data), ()),
        f == *final(e),
        call_ensures(CmdPendingEntry::is_pending, (&f,), p),
        call_ensures(CmdPendingEntry::is_resolved, (&f,), q),
        call_ensures(CmdPendingEntry::result_status, (&f,), s),
    ensures
        s == Some(status) && !p && q,
        data@.len() <= 64 ==> final(e).data_len == data@.len() && final(e).data@.take(
            data@.len() as int,
        ) == data@,
        data@.len() > 64 ==> final(e).data_len == 64 && final(e).data@ == data@.take(64),
        final(e).opcode == old(e).opcode && final(e).seq == old(e).seq,
        final(e).deadline == old(e).deadline,
{
    assert(f@ == e@.answered(status, data@));
    if data@.len() <= 64 {
        assert(f.data@.take(data@.len() as int) =~= data@);
    } else {
        assert(f.data@ =~= data@.take(64));
    }
}

/// A command that is given up is settled without a status.
pub proof fn given_up_is_settled(
    e: &mut CmdPendingEntry,
    f: CmdPendingEntry,
    p: bool,
    q: bool,
    s: Option<u8>,
)
    requires
        call_ensures(CmdPendingEntry::timeout, (e,), ()),
        f == *final(e),
        call_ensures(CmdPendingEntry::is_pending, (&f,), p),
        call_ensures(CmdPendingEntry::is_resolved, (&f,), q),
        call_ensures(CmdPendingEntry::result_status, (&f,), s),
    ensures
        s is None && !p && q,
        final(e).opcode == old(e).opcode && final(e).seq == old(e).seq,
{
    assert(f@ == e@.given_up());
}

/// Whether a slot holds a command that waits.
pub open spec fn open_slot(s: Option<PendingModel>) -> bool {
    s is Some && (s->0).status == 0xFFFF_FFFF
}

/// Commands are numbered one after the other; each takes the slot that is next, and waits
/// there until its time is over. At most 16 wait.
pub proof fn command_is_entered(
    q: &mut CmdPendingQueue,
    op: u16,
    now: u64,
    timeout: u64,
    r: Result<u32, Errno>,
    i: int,
)
    requires
        call_ensures(CmdPendingQueue::submit_with_timeout, (q, op, now, timeout), r),
        q.wf(),
        q@.submitted < u64::MAX,
        0 <= i < 16,
    ensures
        r is Ok <==> old(q)@.pending < 16,
        r is Err ==> r->Err_0 == Errno::EBUSY && final(q)@ == old(q)@,
        r matches Ok(n) ==> {
            let t = old(q)@.tail;
            &&& n == old(q)@.next_seq
            &&& final(q)@.next_seq == (if n == 0xFFFF_FFFFu32 {
                0
            } else {
                n + 1
            })
            &&& final(q)@.tail == (if t == 15 {
                0
            } else {
                t + 1
            })
            &&& i != t ==> final(q)@.slots[i] == old(q)@.slots[i]
            &&& open_slot(final(q)@.slots[t])
            &&& (final(q)@.slots[t]->0).opcode == op
            &&& (final(q)@.slots[t]->0).seq == n
            &&& (final(q)@.slots[t]->0).deadline == (now + timeout) % 0x1_0000_0000_0000_0000
            &&& final(q)@.submitted == old(q)@.submitted + 1
            &&& final(q)@.pending == old(q)@.pending + (if open_slot(old(q)@.slots[t]) {
                0int
            } else {
                1
            })
            &&& final(q)@.resolved == old(q)@.resolved && final(q)@.timeouts == old(q)@.timeouts
        },
{
    q.invariants();
}

/// The usual way to enter a command is that with the usual time.
pub proof fn usual_time(
    a: &mut CmdPendingQueue,
    b: &mut CmdPendingQueue,
    op: u16,
    now: u64,
    timeout: u64,
    x: Result<u32, Errno>,
    y: Result<u32, Errno>,
)
    requires
        call_ensures(CmdPendingQueue::submit, (a, op, now, timeout), x),
        call_ensures(CmdPendingQueue::submit_with_timeout, (b, op, now, timeout), y),
        a@ == b@,
    ensures
        x == y,
        final(a)@ == final(b)@,
{
}

/// How long ago, in slots, a slot was filled: 0 for the one filled longest ago.
pub open spec fn age(i: int, tail: int) -> int {
    if i >= tail {
        i - tail
    } else {
        i + 16 - tail
    }
}

/// An answer goes to the command that waits longest among those with its opcode, and to no
/// other.
pub proof fn oldest_is_answered(
    q: &mut CmdPendingQueue,
    op: u16,
    status: u8,
    data: &[u8],
    r: bool,
)
    requires
        call_ensures(CmdPendingQueue::resolve, (q, op, status, data), r),
        q.wf(),
        q@.resolved < u64::MAX,
    ensures
        r <==> exists|i: int|
            0 <= i < 16 && open_slot(#[trigger] old(q)@.slots[i]) && (old(q)@.slots[i]->0).opcode
                == op,
        !r ==> final(q)@ == old(q)@,
        r ==> exists|i: int|
            {
                &&& 0 <= i < 16
                &&& open_slot(old(q)@.slots[i])
                &&& (old(q)@.slots[i]->0).opcode == op
                &&& #[trigger] final(q)@.slots[i] is Some
                &&& (final(q)@.slots[i]->0).status == 0x8000_0000 + status
                &&& (final(q)@.slots[i]->0).seq == (old(q)@.slots[i]->0).seq
                &&& forall|j: int|
                    0 <= j < 16 && j != i ==> #[trigger] final(q)@.slots[j] == old(q)@.slots[j]
                &&& forall|j: int|
                    0 <= j < 16 && open_slot(#[trigger] old(q)@.slots[j]) && (old(q)@.slots[j]->0).opcode == op ==> age(i, old(q)@.tail) <= age(
                        j,
                        old(q)@.tail,
                    )
            },
        r ==> final(q)@.pending == old(q)@.pending - 1 && final(q)@.resolved == old(q)@.resolved
            + 1 && final(q)@.submitted == old(q)@.submitted && final(q)@.timeouts == old(q)@.timeouts,
{
    q.invariants();
    let m = q@;
    if r {
        let k = choose|k: int| m.oldest_at(k, op);
        let i = m.by_age(k);
        assert(m.matches_at(k, op));
        assert(sle_mgmt::waits(m.slots[i]));
        assert forall|j: int|
            0 <= j < 16 && open_slot(#[trigger] m.slots[j]) && (m.slots[j]->0).opcode
                == op implies age(i, m.tail) <= age(j, m.tail) by {
            let a = age(j, m.tail);
            assert(m.by_age(a) == j);
            if a < k {
                assert(m.matches_at(a, op));
            }
        }
        assert(final(q)@.slots[i] is Some);
    } else {
        assert forall|i: int| 0 <= i < 16 implies !(open_slot(#[trigger] m.slots[i])
            && (m.slots[i]->0).opcode == op) by {
            if open_slot(m.slots[i]) && (m.slots[i]->0).opcode == op {
                assert(m.by_age(age(i, m.tail)) == i);
                some_oldest(m, op, age(i, m.tail));
            }
        }
    }
}

proof fn some_oldest(m: sle_mgmt::PendingQueueModel, op: u16, k: int)
    requires
        0 <= k < 16,
        m.matches_at(k, op),
    ensures
        m.has(op),
    decreases k,
{
    if exists|j: int| 0 <= j < k && m.matches_at(j, op) {
        let j = choose|j: int| 0 <= j < k && m.matches_at(j, op);
        some_oldest(m, op, j);
    } else {
        assert(m.oldest_at(k, op));
    }
}

/// Commands whose time is over are given up, and no others.
pub proof fn overdue_are_given_up(q: &mut CmdPendingQueue, now: u64, r: u32, i: int)
    requires
        call_ensures(CmdPendingQueue::expire_stale, (q, now), r),
        q.wf(),
        q@.resolved + 16 <= u64::MAX,
        q@.timeouts + 16 <= u64::MAX,
        0 <= i < 16,
    ensures
        open_slot(old(q)@.slots[i]) && now >= (old(q)@.slots[i]->0).deadline ==> final(q)@.slots[i] is Some && (final(q)@.slots[i]->0).status == 0x8000_0100 && (final(q)@.slots[i]->0).seq == (old(q)@.slots[i]->0).seq && r > 0,
        !(open_slot(old(q)@.slots[i]) && now >= (old(q)@.slots[i]->0).deadline) ==> final(q)@.slots[i] == old(q)@.slots[i],
        final(q)@.pending == old(q)@.pending - r,
        final(q)@.timeouts == old(q)@.timeouts + r,
        final(q)@.resolved == old(q)@.resolved + r,
        final(q)@.submitted == old(q)@.submitted,
{
    q.invariants();
    overdue_counts(q@.slots, now, 16, i);
}

proof fn overdue_counts(s: Seq<Option<PendingModel>>, now: u64, n: int, i: int)
    requires
        0 <= n <= s.len(),
    ensures
        0 <= sle_mgmt::overdue(s, now, n) <= n,
        0 <= i < n && sle_mgmt::waits(s[i]) && s[i]->0.overdue(now) ==> sle_mgmt::overdue(s, now, n)
            > 0,
    decreases n,
{
    if n > 0 {
        overdue_counts(s, now, n - 1, i);
    }
}

/// Slots of commands that are settled are freed, and no others.
pub proof fn settled_are_freed(q: &mut CmdPendingQueue, i: int)
    requires
        call_ensures(CmdPendingQueue::gc, (q,), ()),
        q.wf(),
        0 <= i < 16,
    ensures
        old(q)@.slots[i] is Some && (old(q)@.slots[i]->0).status >= 0x8000_0000 && !open_slot(
            old(q)@.slots[i],
        ) ==> final(q)@.slots[i] is None,
        open_slot(old(q)@.slots[i]) || old(q)@.slots[i] is None || (old(q)@.slots[i]->0).status
            < 0x8000_0000 ==> final(q)@.slots[i] == old(q)@.slots[i],
        final(q)@.pending == old(q)@.pending,
        final(q)@.next_seq == old(q)@.next_seq && final(q)@.tail == old(q)@.tail,
{
    q.invariants();
}

/// A command is found by its number.
pub proof fn found_by_number(q: &CmdPendingQueue, n: u32, r: Option<&CmdPendingEntry>)
    requires
        call_ensures(CmdPendingQueue::find_by_seq, (q, n), r),
    ensures
        r matches Some(e) ==> e.seq == n && exists|i: int|
            0 <= i < 16 && #[trigger] q@.slots[i] == Some(e@),
        r is None ==> forall|i: int|
            0 <= i < 16 && #[trigger] q@.slots[i] is Some ==> (q@.slots[i]->0).seq != n,
{
    if r is Some {
        let e = r->0;
        let i = choose|i: int|
            0 <= i < 16 && #[trigger] q@.slots[i] == Some(e@) && e@.seq == n && (forall|j: int|
                0 <= j < i ==> !(#[trigger] q@.slots[j] matches Some(x) && x.seq == n));
        assert(q@.slots[i] == Some(e@));
    }
}

/// Commands wait to be sent in their order, with their parameters, and at most 64 of them.
pub proof fn requests_in_order(
    q: &mut CmdRequestQueue,
    op: u16,
    params: &[u8],
    r: Result<(), Errno>,
    p: &mut CmdRequestQueue,
    x: Option<CmdRequest>,
)
    requires
        call_ensures(CmdRequestQueue::push, (q, op, params), r),
        call_ensures(CmdRequestQueue::pop, (p,), x),
        *p == *final(q),
    ensures
        r is Ok <==> old(q)@.len() < 64,
        r is Err ==> r->Err_0 == Errno::EBUSY && final(q)@ == old(q)@,
        r is Ok ==> final(q)@.drop_last() == old(q)@ && final(q)@.last().opcode == op,
        r is Ok && params@.len() <= 240 ==> final(q)@.last().param_len == params@.len()
            && final(q)@.last().params.take(params@.len() as int) == params@,
        r is Ok && params@.len() > 240 ==> final(q)@.last().param_len == 240
            && final(q)@.last().params == params@.take(240),
        x is Some <==> old(p)@.len() > 0,
        x matches Some(c) ==> c@ == old(p)@[0] && final(p)@ == old(p)@.skip(1),
        x is None ==> final(p)@ == old(p)@,
        r is Ok && old(q)@.len() == 0 ==> (x matches Some(c) && c.opcode == op),
{
    if r is Ok {
        assert(final(q)@.drop_last() =~= q@);
        if params@.len() <= 240 {
            assert(final(q)@.last().params.take(params@.len() as int) =~= params@);
        } else {
            assert(final(q)@.last().params =~= params@.take(240));
        }
    }
    if x is Some {
        assert(final(p)@ =~= p@.skip(1));
        assert((x->0)@.opcode == (x->0).opcode);
    }
}

/// Whether an attribute was written behind some bytes: length of header and payload, kind,
/// payload, and zeros up to a multiple of four.
pub open spec fn written(before: Seq<u8>, after: Seq<u8>, kind: u16, payload: Seq<u8>) -> bool {
    let b = before.len() as int;
    let n = payload.len() as int;
    &&& after.len() == b + 4 + n + (if n % 4 == 0 {
        0int
    } else {
        4 - n % 4
    })
    &&& after.take(b) == before
    &&& n + 4 <= 0xFFFF ==> after[b] + 0x100 * after[b + 1] == 4 + n
    &&& after[b + 2] + 0x100 * after[b + 3] == kind
    &&& after.subrange(b + 4, b + 4 + n) == payload
    &&& forall|i: int| b + 4 + n <= i < after.len() ==> #[trigger] after[i] == 0
}

proof fn is_written(before: Seq<u8>, after: Seq<u8>, kind: u16, payload: Seq<u8>)
    requires
        after == before + sle_netlink::attr_bytes(kind, payload),
    ensures
        written(before, after, kind, payload),
{
    let b = before.len() as int;
    let n = payload.len() as int;
    assert(after.take(b) =~= before);
    assert(after.subrange(b + 4, b + 4 + n) =~= payload);
}

/// The number that some bytes spell, lowest byte first.
pub open spec fn number(s: Seq<u8>) -> int
    decreases s.len(),
{
    if s.len() == 0 {
        0
    } else {
        s[0] + 0x100 * number(s.skip(1))
    }
}

proof fn number2(s: Seq<u8>)
    requires
        s.len() == 2,
    ensures
        number(s) == s[0] + 0x100 * s[1],
{
    reveal_with_fuel(number, 3);
}

proof fn number4(s: Seq<u8>)
    requires
        s.len() == 4,
    ensures
        number(s) == s[0] + 0x100 * s[1] + 0x1_0000 * s[2] + 0x100_0000 * s[3],
{
    reveal_with_fuel(number, 5);
}

proof fn number8(s: Seq<u8>)
    requires
        s.len() == 8,
    ensures
        number(s) == number(s.take(4)) + 0x1_0000_0000 * number(s.skip(4)),
{
    number4(s.take(4));
    number4(s.skip(4));
    let t = s.skip(1).skip(1).skip(1).skip(1);
    assert(t =~= s.skip(4));
    reveal_with_fuel(number, 5);
}

proof fn spelled16(v: u16)
    ensures
        number(bytes::le16_bytes(v)) == v,
{
    number2(bytes::le16_bytes(v));
}

proof fn spelled32(v: u32)
    ensures
        number(bytes::le32_bytes(v)) == v,
{
    number4(bytes::le32_bytes(v));
    bytes::le32_of_bytes(v);
}

proof fn spelled64(v: u64)
    ensures
        number(bytes::le64_bytes(v)) == v,
{
    let s = bytes::le64_bytes(v);
    number8(s);
    assert(s.take(4) =~= bytes::le32_bytes(bytes::lo32(v)));
    assert(s.skip(4) =~= bytes::le32_bytes(bytes::hi32(v)));
    spelled32(bytes::lo32(v));
    spelled32(bytes::hi32(v));
}

/// Whether an attribute that holds a number of `n` bytes was written.
pub open spec fn number_written(
    before: Seq<u8>,
    after: Seq<u8>,
    kind: u16,
    n: nat,
    v: int,
) -> bool {
    exists|p: Seq<u8>| #[trigger]
        written(before, after, kind, p) && p.len() == n && number(p) == v
}

/// Numbers are written with their kind, in as many bytes as their type has.
pub proof fn numbers_are_written(
    a: &mut NlAttrBuilder,
    b: &mut NlAttrBuilder,
    c: &mut NlAttrBuilder,
    d: &mut NlAttrBuilder,
    k: NlAttr,
    w: u8,
    x: u16,
    y: u32,
    z: u64,
    r: Result<(), Errno>,
    s: Result<(), Errno>,
    t: Result<(), Errno>,
    u: Result<(), Errno>,
)
    requires
        call_ensures(NlAttrBuilder::put_u8, (a, k, w), r),
        call_ensures(NlAttrBuilder::put_u16, (b, k, x), s),
        call_ensures(NlAttrBuilder::put_u32, (c, k, y), t),
        call_ensures(NlAttrBuilder::put_u64, (d, k, z), u),
    ensures
        r is Ok && s is Ok && t is Ok && u is Ok,
        written(old(a)@, final(a)@, k.code(), seq![w]),
        number_written(old(b)@, final(b)@, k.code(), 2, x as int),
        number_written(old(c)@, final(c)@, k.code(), 4, y as int),
        number_written(old(d)@, final(d)@, k.code(), 8, z as int),
{
    is_written(a@, final(a)@, k.code(), seq![w]);
    spelled16(x);
    spelled32(y);
    spelled64(z);
    is_number(b@, final(b)@, k.code(), bytes::le16_bytes(x));
    is_number(c@, final(c)@, k.code(), bytes::le32_bytes(y));
    is_number(d@, final(d)@, k.code(), bytes::le64_bytes(z));
}

proof fn is_number(before: Seq<u8>, after: Seq<u8>, kind: u16, payload: Seq<u8>)
    requires
        after == before + sle_netlink::attr_bytes(kind, payload),
    ensures
        number_written(before, after, kind, payload.len(), number(payload)),
{
    is_written(before, after, kind, payload);
}

/// Bytes are written as they are, a text up to its first zero and with a closing zero.
pub proof fn bytes_are_written(
    a: &mut NlAttrBuilder,
    b: &mut NlAttrBuilder,
    k: NlAttr,
    data: &[u8],
    text: &[u8],
    n: int,
    r: Result<(), Errno>,
    s: Result<(), Errno>,
)
    requires
        call_ensures(NlAttrBuilder::put_binary, (a, k, data), r),
        call_ensures(NlAttrBuilder::put_string, (b, k, text), s),
        0 <= n <= text@.len(),
        forall|i: int| 0 <= i < n ==> #[trigger] text@[i] != 0,
        n < text@.len() ==> text@[n] == 0,
    ensures
        r is Ok && s is Ok,
        written(old(a)@, final(a)@, k.code(), data@),
        written(old(b)@, final(b)@, k.code(), text@.take(n).push(0)),
{
    is_written(a@, final(a)@, k.code(), data@);
    cut(text@, n);
    is_written(b@, final(b)@, k.code(), text@.take(n).push(0));
}

/// A signed byte is written in one byte.
pub proof fn signed_is_written(c: &mut NlAttrBuilder, k: NlAttr, v: i8, t: Result<(), Errno>)
    requires
        call_ensures(NlAttrBuilder::put_s8, (c, k, v), t),
    ensures
        t is Ok,
        exists|b: u8| #[trigger]
            written(old(c)@, final(c)@, k.code(), seq![b]) && (b - v) % 256 == 0,
{
    is_written(c@, final(c)@, k.code(), seq![bytes::i8_byte(v)]);
}

proof fn cut(s: Seq<u8>, n: int)
    requires
        0 <= n <= s.len(),
        forall|i: int| 0 <= i < n ==> #[trigger] s[i] != 0,
        n < s.len() ==> s[n] == 0,
    ensures
        sle_netlink::up_to_zero(s) == s.take(n),
    decreases n,
{
    if n > 0 {
        assert(s[0] != 0);
        assert forall|i: int| 0 <= i < n - 1 implies #[trigger] s.skip(1)[i] != 0 by {
            assert(s[i + 1] != 0);
        }
        cut(s.skip(1), n - 1);
        assert(seq![s[0]] + s.skip(1).take(n - 1) =~= s.take(n));
    } else {
        assert(s.take(0) =~= Seq::<u8>::empty());
    }
}

/// A builder starts empty, and what it holds comes out.
pub proof fn builder_holds(r: NlAttrBuilder, b: NlAttrBuilder, v: Vec<u8>, n: usize)
    requires
        call_ensures(NlAttrBuilder::new, (), r),
        call_ensures(NlAttrBuilder::finish, (b,), v),
        call_ensures(NlAttrBuilder::len, (&b,), n),
    ensures
        r@.len() == 0,
        v@ == b@,
        n == b@.len(),
{
}

/// An attribute that was written is read back, and reading goes on behind it.
pub proof fn written_comes_back<'a>(
    data: &'a [u8],
    i: NlAttrIter<'a>,
    it: &mut NlAttrIter<'a>,
    r: Option<ParsedAttr<'a>>,
    kind: u16,
    payload: Seq<u8>,
    first: Seq<u8>,
    rest: Seq<u8>,
)
    requires
        call_ensures(sle_netlink::parse_attrs, (data,), i),
        *it == i,
        written(Seq::empty(), first, kind, payload),
        payload.len() + 4 <= 0xFFFF,
        data@ == first + rest,
        call_ensures(NlAttrIter::<'a>::next, (it,), r),
    ensures
        r matches Some(a) && a.attr_type == kind && a.payload@ == payload,
        final(it)@ == rest,
{
    let s = data@;
    let n = payload.len() as int;
    assert(sle_netlink::stated_len(s) == 4 + n);
    assert(s.subrange(4, 4 + n) =~= first.subrange(4, 4 + n));
    assert(s.skip(first.len() as int) =~= rest);
}

/// Reading ends where no whole attribute is left.
pub proof fn reading_ends<'a>(it: &mut NlAttrIter<'a>, r: Option<ParsedAttr<'a>>)
    requires
        call_ensures(NlAttrIter::<'a>::next, (it,), r),
    ensures
        old(it)@.len() < 4 ==> r is None,
        old(it)@.len() >= 4 ==> (r is None <==> old(it)@[0] + 0x100 * old(it)@[1] < 4 || old(it)@[0] + 0x100 * old(it)@[1] > old(it)@.len()),
        r is None ==> final(it)@ == old(it)@,
{
}

/// A number is read from the start of a payload that is long enough.
pub proof fn numbers_are_read(
    a: &ParsedAttr<'_>,
    w: Option<u8>,
    x: Option<u16>,
    y: Option<u32>,
    z: Option<u64>,
)
    requires
        call_ensures(sle_netlink::attr_get_u8, (a,), w),
        call_ensures(sle_netlink::attr_get_u16, (a,), x),
        call_ensures(sle_netlink::attr_get_u32, (a,), y),
        call_ensures(sle_netlink::attr_get_u64, (a,), z),
    ensures
        w is Some <==> a.payload@.len() >= 1,
        x is Some <==> a.payload@.len() >= 2,
        y is Some <==> a.payload@.len() >= 4,
        z is Some <==> a.payload@.len() >= 8,
        w matches Some(v) ==> v == a.payload@[0],
        x matches Some(v) ==> v == number(a.payload@.take(2)),
        y matches Some(v) ==> v == number(a.payload@.take(4)),
        z matches Some(v) ==> v == number(a.payload@.take(8)),
{
    if x is Some {
        spelled16(x->0);
    }
    if y is Some {
        spelled32(y->0);
    }
    if z is Some {
        spelled64(z->0);
    }
}

/// Lengths are rounded up to the next multiple of four.
pub proof fn rounded_up(n: usize, r: usize)
    requires
        call_ensures(sle_netlink::nla_align, (n,), r),
    ensures
        r % 4 == 0,
        n <= r < n + 4,
{
}

/// The names of the family and of its group of events.
pub proof fn family_names(f: [u8; 10], g: [u8; 7])
    requires
        call_ensures(sle_netlink::genl_family_name, (), f),
        call_ensures(sle_netlink::mcgrp_events, (), g),
    ensures
        f@ == crate::laws::pairing::ascii("sparklink"@).push(0),
        g@ == crate::laws::pairing::ascii("events"@).push(0),
{
    reveal_strlit("sparklink");
    reveal_strlit("events");
    assert(f@ =~= crate::laws::pairing::ascii("sparklink"@).push(0));
    assert(g@ =~= crate::laws::pairing::ascii("events"@).push(0));
}

/// Queues of commands start empty and tell their counts.
pub proof fn command_counts(
    n: CmdPendingQueue,
    m: CmdRequestQueue,
    p: &CmdPendingQueue,
    q: &CmdRequestQueue,
    a: u16,
    b: u64,
    c: u64,
    d: u64,
    e: u16,
    f: bool,
)
    requires
        call_ensures(CmdPendingQueue::new, (), n),
        call_ensures(CmdRequestQueue::new, (), m),
        call_ensures(CmdPendingQueue::pending, (p,), a),
        call_ensures(CmdPendingQueue::total_submitted, (p,), b),
        call_ensures(CmdPendingQueue::total_resolved, (p,), c),
        call_ensures(CmdPendingQueue::total_timeouts, (p,), d),
        call_ensures(CmdRequestQueue::len, (q,), e),
        call_ensures(CmdRequestQueue::is_empty, (q,), f),
    ensures
        n@.pending == 0 && n@.next_seq == 1 && n@.submitted == 0,
        forall|i: int| 0 <= i < 16 ==> #[trigger] n@.slots[i] is None,
        m@.len() == 0,
        a == p@.pending && b == p@.submitted && c == p@.resolved && d == p@.timeouts,
        e == q@.len(),
        f <==> e == 0,
{
}

} // verus!
