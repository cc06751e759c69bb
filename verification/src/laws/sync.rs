//! Laws of synchronous links.

use vstd::prelude::*;

use crate::conn_types::ConnState;
use crate::errno::Errno;
use crate::sle_conn::{ConnManager, MgrModel};
use crate::sync_link;
use crate::sync_link::{
    SyncBigParams, SyncBigResult, SyncCigParams, SyncCigResult, SyncLinkEntry, SyncLinkState,
    SyncLinkType, SyncLinks,
};

verus! {

/// The links that stay where a group goes.
pub open spec fn without(
    s: Seq<SyncLinkEntry>,
    id: u8,
    ty: SyncLinkType,
) -> Seq<SyncLinkEntry> {
    s.filter(|l: SyncLinkEntry| !(l.cig_id == id && l.link_type == ty))
}

/// The links of a group that wait for their connection.
pub open spec fn pending(
    s: Seq<SyncLinkEntry>,
    id: u8,
    ty: SyncLinkType,
) -> Seq<SyncLinkEntry> {
    s.filter(
        |l: SyncLinkEntry|
            l.cig_id == id && l.link_type == ty && l.state == SyncLinkState::Configured,
    )
}

/// Whether handle `b` is the one after handle `a`.
pub open spec fn succeeds(a: u16, b: u16) -> bool {
    if a == 0xFFFF {
        b == 1
    } else {
        b == a + 1
    }
}

/// Whether a link is as a group asked for, and not yet in use.
pub open spec fn asked_for(l: SyncLinkEntry, p: SyncCigParams, ty: SyncLinkType) -> bool {
    &&& l.link_type == ty
    &&& l.state == SyncLinkState::Configured
    &&& l.acl_handle == 0
    &&& l.cig_id == p.cig_id
    &&& l.sdu_interval_g2t == p.sdu_interval_g2t
    &&& l.sdu_interval_t2g == p.sdu_interval_t2g
    &&& l.max_sdu_g2t == p.max_sdu_g2t
    &&& l.max_sdu_t2g == p.max_sdu_t2g
    &&& l.retransmit_g2t == p.retransmit_g2t
    &&& l.retransmit_t2g == p.retransmit_t2g
    &&& l.max_latency_g2t == p.max_latency_g2t
    &&& l.max_latency_t2g == p.max_latency_t2g
    &&& l.adapt_mode == p.adapt_mode
    &&& l.datapath_direction == 0
    &&& l.datapath_id == 0
    &&& l.codec_id == 0
    &&& !l.datapath_configured
}

/// Whether a group of `n` links stands behind the links of the others, under handles that
/// follow one another from `first` on.
pub open spec fn grouped(
    before: Seq<SyncLinkEntry>,
    after: Seq<SyncLinkEntry>,
    first: u16,
    next: u16,
    handles: Seq<u16>,
    p: SyncCigParams,
    ty: SyncLinkType,
) -> bool {
    let k = without(before, p.cig_id, ty).len();
    let n = p.link_count as int;
    &&& after.len() == k + n
    &&& after.take(k as int) == without(before, p.cig_id, ty)
    &&& handles.len() == 8
    &&& forall|i: int| n <= i < 8 ==> #[trigger] handles[i] == 0
    &&& forall|i: int|
        0 <= i < n ==> {
            let l = after[k + i];
            &&& l.handle == #[trigger] handles[i]
            &&& l.cis_id == i
            &&& asked_for(l, p, ty)
        }
    &&& handles[0] == first
    &&& forall|i: int|
        0 <= i < n - 1 ==> succeeds(#[trigger] handles[i], handles[i + 1])
    &&& succeeds(handles[n - 1], next)
}

proof fn others_are(s: Seq<SyncLinkEntry>, id: u8, ty: SyncLinkType)
    ensures
        sync_link::others(s, id, ty) == without(s, id, ty),
    decreases s.len(),
{
    reveal(Seq::filter);
    if s.len() > 0 {
        others_are(s.drop_last(), id, ty);
    }
}

proof fn waiting_are(s: Seq<SyncLinkEntry>, id: u8, ty: SyncLinkType, n: int)
    requires
        0 <= n <= s.len(),
    ensures
        sync_link::waiting_below(s, id, ty, n) == pending(s.take(n), id, ty).len(),
    decreases n,
{
    reveal(Seq::filter);
    if n > 0 {
        waiting_are(s, id, ty, n - 1);
        assert(s.take(n).drop_last() =~= s.take(n - 1));
    }
}

proof fn is_grouped(
    before: Seq<SyncLinkEntry>,
    after: Seq<SyncLinkEntry>,
    first: u16,
    next: u16,
    handles: Seq<u16>,
    p: SyncCigParams,
    ty: SyncLinkType,
)
    requires
        first >= 1,
        1 <= p.link_count <= 8,
        handles == Seq::new(
            8,
            |i: int|
                if i < p.link_count {
                    sync_link::handle_after(first, i)
                } else {
                    0
                },
        ),
        after == sync_link::others(before, p.cig_id, ty) + Seq::new(
            p.link_count as nat,
            |i: int|
                SyncLinkEntry {
                    link_type: ty,
                    ..sync_link::unicast_link(p, sync_link::handle_after(first, i), i)
                },
        ),
        next == sync_link::handle_after(first, p.link_count as int),
    ensures
        grouped(before, after, first, next, handles, p, ty),
{
    others_are(before, p.cig_id, ty);
    let w = without(before, p.cig_id, ty);
    assert(after.take(w.len() as int) =~= w);
}

/// A group whose identifier is at most 0xEF, of one to eight links, takes the place of the
/// group of its kind and identifier; any other is refused.
pub proof fn unicast_group(
    s: &mut SyncLinks,
    p: &SyncCigParams,
    r: Result<SyncCigResult, Errno>,
)
    requires
        call_ensures(SyncLinks::ucast_configure, (s, p), r),
        s.next_handle >= 1,
    ensures
        r is Ok <==> p.cig_id <= 0xEF && 1 <= p.link_count <= 8,
        r is Err ==> r->Err_0 == Errno::EINVAL && *final(s) == *old(s),
        r matches Ok(g) ==> g.cig_id == p.cig_id && g.link_count == p.link_count && grouped(
            old(s).links@,
            final(s).links@,
            old(s).next_handle,
            final(s).next_handle,
            g.handles@,
            *p,
            SyncLinkType::Unicast,
        ),
{
    if r is Ok {
        let g = r->Ok_0;
        let first = s.next_handle;
        assert(Seq::new(
            p.link_count as nat,
            |i: int| sync_link::unicast_link(*p, sync_link::handle_after(first, i), i),
        ) =~= Seq::new(
            p.link_count as nat,
            |i: int|
                SyncLinkEntry {
                    link_type: SyncLinkType::Unicast,
                    ..sync_link::unicast_link(*p, sync_link::handle_after(first, i), i)
                },
        ));
        is_grouped(
            s.links@,
            final(s).links@,
            first,
            final(s).next_handle,
            g.handles@,
            *p,
            SyncLinkType::Unicast,
        );
    }
}

/// The wishes of a multicast group, under the names of a unicast group.
pub open spec fn wishes(p: SyncBigParams, q: SyncCigParams) -> bool {
    &&& q.cig_id == p.big_id
    &&& q.sdu_interval_g2t == p.sdu_interval_g2t
    &&& q.sdu_interval_t2g == p.sdu_interval_t2g
    &&& q.max_sdu_g2t == p.max_sdu_g2t
    &&& q.max_sdu_t2g == p.max_sdu_t2g
    &&& q.retransmit_g2t == p.retransmit_g2t
    &&& q.retransmit_t2g == p.retransmit_t2g
    &&& q.max_latency_g2t == p.max_latency_g2t
    &&& q.max_latency_t2g == p.max_latency_t2g
    &&& q.adapt_mode == p.adapt_mode
    &&& q.link_count == p.link_count
}

/// What holds of unicast groups holds of multicast groups.
pub proof fn multicast_group(
    s: &mut SyncLinks,
    p: &SyncBigParams,
    q: SyncCigParams,
    r: Result<SyncBigResult, Errno>,
)
    requires
        call_ensures(SyncLinks::mcast_configure, (s, p), r),
        s.next_handle >= 1,
        wishes(*p, q),
    ensures
        r is Ok <==> p.big_id <= 0xEF && 1 <= p.link_count <= 8,
        r is Err ==> r->Err_0 == Errno::EINVAL && *final(s) == *old(s),
        r matches Ok(g) ==> g.big_id == p.big_id && g.link_count == p.link_count && grouped(
            old(s).links@,
            final(s).links@,
            old(s).next_handle,
            final(s).next_handle,
            g.handles@,
            q,
            SyncLinkType::Multicast,
        ),
{
    if r is Ok {
        let g = r->Ok_0;
        let first = s.next_handle;
        assert(q == sync_link::group_params(*p));
        assert(Seq::new(
            p.link_count as nat,
            |i: int| sync_link::multicast_link(*p, sync_link::handle_after(first, i), i),
        ) =~= Seq::new(
            q.link_count as nat,
            |i: int|
                SyncLinkEntry {
                    link_type: SyncLinkType::Multicast,
                    ..sync_link::unicast_link(q, sync_link::handle_after(first, i), i)
                },
        ));
        is_grouped(
            s.links@,
            final(s).links@,
            first,
            final(s).next_handle,
            g.handles@,
            q,
            SyncLinkType::Multicast,
        );
    }
}

/// Whether the links of a group that wait were handed the connections in order, as long as
/// there were any of both, and everything else stayed.
pub open spec fn handed_out(
    before: Seq<SyncLinkEntry>,
    after: Seq<SyncLinkEntry>,
    id: u8,
    ty: SyncLinkType,
    acl: Seq<u16>,
) -> bool {
    &&& after.len() == before.len()
    &&& forall|i: int|
        0 <= i < before.len() ==> {
            let o = before[i];
            let l = #[trigger] after[i];
            let k = pending(before.take(i), id, ty).len() as int;
            if o.cig_id == id && o.link_type == ty && o.state == SyncLinkState::Configured && k
                < acl.len() {
                l == (SyncLinkEntry { state: SyncLinkState::Active, acl_handle: acl[k], ..o })
            } else {
                l == o
            }
        }
}

/// How many links can be handed a connection.
pub open spec fn matched(
    s: Seq<SyncLinkEntry>,
    id: u8,
    ty: SyncLinkType,
    acl: Seq<u16>,
) -> int {
    if pending(s, id, ty).len() < acl.len() {
        pending(s, id, ty).len() as int
    } else {
        acl.len() as int
    }
}

proof fn is_handed_out(s: Seq<SyncLinkEntry>, id: u8, ty: SyncLinkType, acl: Seq<u16>)
    ensures
        handed_out(s, sync_link::created(s, id, ty, acl), id, ty, acl),
        sync_link::created_count(s, id, ty, acl) == matched(s, id, ty, acl),
{
    let t = sync_link::created(s, id, ty, acl);
    waiting_are(s, id, ty, s.len() as int);
    assert(s.take(s.len() as int) =~= s);
    assert forall|i: int| 0 <= i < s.len() implies {
        let o = s[i];
        let l = #[trigger] t[i];
        let k = pending(s.take(i), id, ty).len() as int;
        if o.cig_id == id && o.link_type == ty && o.state == SyncLinkState::Configured && k
            < acl.len() {
            l == (SyncLinkEntry { state: SyncLinkState::Active, acl_handle: acl[k], ..o })
        } else {
            l == o
        }
    } by {
        waiting_are(s, id, ty, i);
    }
}

/// Links are created in the order in which they were asked for, one for each connection.
pub proof fn links_are_created(
    s: &mut SyncLinks,
    id: u8,
    ty: SyncLinkType,
    acl: &[u16],
    r: Result<u8, Errno>,
)
    requires
        call_ensures(SyncLinks::create, (s, id, ty, acl), r),
    ensures
        handed_out(old(s).links@, final(s).links@, id, ty, acl@),
        final(s).next_handle == old(s).next_handle,
        r is Ok <==> pending(old(s).links@, id, ty).len() > 0 && acl@.len() > 0,
        r matches Ok(n) ==> n == matched(old(s).links@, id, ty, acl@),
        r is Err ==> r->Err_0 == Errno::ENOENT && final(s).links@ == old(s).links@,
{
    is_handed_out(s.links@, id, ty, acl@);
    if r is Err {
        let b = s.links@;
        let a = final(s).links@;
        if acl@.len() > 0 {
            assert forall|i: int| 0 <= i < b.len() implies a[i] == b[i] by {
                waiting_are(b, id, ty, i);
                waiting_are(b, id, ty, b.len() as int);
                assert(b.take(b.len() as int) =~= b);
                if sync_link::waiting(b[i], id, ty) {
                    waits_grow(b, id, ty, i, b.len() as int);
                }
            }
        }
        assert(a =~= b);
    }
}

proof fn waits_grow(s: Seq<SyncLinkEntry>, id: u8, ty: SyncLinkType, i: int, n: int)
    requires
        0 <= i < n <= s.len(),
        sync_link::waiting(s[i], id, ty),
    ensures
        sync_link::waiting_below(s, id, ty, n) > sync_link::waiting_below(s, id, ty, i) >= 0,
    decreases n,
{
    waiting_are(s, id, ty, i);
    if i < n - 1 {
        waits_grow(s, id, ty, i, n - 1);
    }
}

/// Whether a group has a link, and one that is active.
pub open spec fn present(s: Seq<SyncLinkEntry>, id: u8, ty: SyncLinkType) -> bool {
    exists|i: int|
        0 <= i < s.len() && (#[trigger] s[i]).cig_id == id && s[i].link_type == ty
}

/// Whether a group has a link that carries data.
pub open spec fn busy(s: Seq<SyncLinkEntry>, id: u8, ty: SyncLinkType) -> bool {
    exists|i: int|
        0 <= i < s.len() && (#[trigger] s[i]).cig_id == id && s[i].link_type == ty && s[i].state
            == SyncLinkState::Active
}

proof fn group_words(s: Seq<SyncLinkEntry>, id: u8, ty: SyncLinkType)
    ensures
        sync_link::any_member(s, id, ty) == present(s, id, ty),
        sync_link::any_active(s, id, ty) == busy(s, id, ty),
{
    if present(s, id, ty) {
        let i = choose|i: int|
            0 <= i < s.len() && (#[trigger] s[i]).cig_id == id && s[i].link_type == ty;
        assert(sync_link::member(s[i], id, ty));
    }
    if busy(s, id, ty) {
        let i = choose|i: int|
            0 <= i < s.len() && (#[trigger] s[i]).cig_id == id && s[i].link_type == ty && s[i].state
                == SyncLinkState::Active;
        assert(sync_link::member(s[i], id, ty));
    }
}

/// A group goes with all its links, unless one of them carries data.
pub proof fn group_is_removed(s: &mut SyncLinks, id: u8, ty: SyncLinkType, r: Result<(), Errno>)
    requires
        call_ensures(SyncLinks::remove, (s, id, ty), r),
    ensures
        r is Ok <==> present(old(s).links@, id, ty) && !busy(old(s).links@, id, ty),
        r is Ok ==> final(s).links@ == without(old(s).links@, id, ty),
        r is Err ==> final(s).links@ == old(s).links@ && r->Err_0 == (if busy(
            old(s).links@,
            id,
            ty,
        ) {
            Errno::EBUSY
        } else {
            Errno::ENOENT
        }),
        final(s).next_handle == old(s).next_handle,
{
    group_words(s.links@, id, ty);
    others_are(s.links@, id, ty);
}

/// Whether place `i` is that of the first link of handle `h`.
pub open spec fn place_of(s: Seq<SyncLinkEntry>, h: u16, i: int) -> bool {
    &&& 0 <= i < s.len()
    &&& s[i].handle == h
    &&& forall|j: int| 0 <= j < i ==> (#[trigger] s[j]).handle != h
}

/// Whether no link has handle `h`.
pub open spec fn unknown(s: Seq<SyncLinkEntry>, h: u16) -> bool {
    forall|i: int| 0 <= i < s.len() ==> (#[trigger] s[i]).handle != h
}

proof fn placed(s: Seq<SyncLinkEntry>, h: u16, i: int)
    requires
        place_of(s, h, i),
    ensures
        sync_link::has_link(s, h),
        sync_link::link_pos(s, h) == i,
{
    assert(sync_link::link_at(s, h, i));
    let j = sync_link::link_pos(s, h);
    assert(sync_link::link_at(s, h, j));
    if j < i {
        assert(s[j].handle != h);
    } else if i < j {
        assert(s[i].handle != h);
    }
}

/// Whether nothing but the link at place `i` changed.
pub open spec fn only_link(s: Seq<SyncLinkEntry>, t: Seq<SyncLinkEntry>, i: int) -> bool {
    &&& t.len() == s.len()
    &&& forall|j: int| 0 <= j < s.len() && j != i ==> #[trigger] t[j] == s[j]
}

/// A link that carries data gets the data path that was asked for, and loses it again.
pub proof fn data_paths(
    s: &mut SyncLinks,
    t: &mut SyncLinks,
    h: u16,
    direction: u8,
    path: u8,
    codec: u8,
    i: int,
    x: Result<(), Errno>,
    y: Result<(), Errno>,
)
    requires
        call_ensures(SyncLinks::datapath_config, (s, h, direction, path, codec), x),
        call_ensures(SyncLinks::datapath_remove, (t, h), y),
        place_of(s.links@, h, i),
        place_of(t.links@, h, i),
    ensures
        x is Ok <==> old(s).links@[i].state == SyncLinkState::Active,
        x is Ok ==> only_link(old(s).links@, final(s).links@, i) && final(s).links@[i] == (
        SyncLinkEntry {
            datapath_configured: true,
            datapath_direction: direction,
            datapath_id: path,
            codec_id: codec,
            ..old(s).links@[i]
        }),
        x is Err ==> x->Err_0 == Errno::EINVAL && final(s).links@ == old(s).links@,
        y is Ok <==> old(t).links@[i].datapath_configured,
        y is Ok ==> only_link(old(t).links@, final(t).links@, i) && final(t).links@[i] == (
        SyncLinkEntry {
            datapath_configured: false,
            datapath_direction: 0,
            datapath_id: 0,
            codec_id: 0,
            ..old(t).links@[i]
        }),
        y is Err ==> y->Err_0 == Errno::EINVAL && final(t).links@ == old(t).links@,
{
    placed(s.links@, h, i);
    placed(t.links@, h, i);
}

/// A link that is not there has no data path to give or take, and nothing to tell.
pub proof fn no_link_no_path(
    s: &mut SyncLinks,
    t: &mut SyncLinks,
    u: &SyncLinks,
    h: u16,
    direction: u8,
    path: u8,
    codec: u8,
    x: Result<(), Errno>,
    y: Result<(), Errno>,
    z: Result<&SyncLinkEntry, Errno>,
)
    requires
        call_ensures(SyncLinks::datapath_config, (s, h, direction, path, codec), x),
        call_ensures(SyncLinks::datapath_remove, (t, h), y),
        call_ensures(SyncLinks::link_info, (u, h), z),
        unknown(s.links@, h),
        unknown(t.links@, h),
        unknown(u.links@, h),
    ensures
        x == Err::<(), Errno>(Errno::ENOENT) && final(s).links@ == old(s).links@,
        y == Err::<(), Errno>(Errno::ENOENT) && final(t).links@ == old(t).links@,
        z == Err::<&SyncLinkEntry, Errno>(Errno::ENOENT),
{
}

/// A link is found under its handle.
pub proof fn link_is_found(s: &SyncLinks, h: u16, i: int, r: Result<&SyncLinkEntry, Errno>)
    requires
        call_ensures(SyncLinks::link_info, (s, h), r),
        place_of(s.links@, h, i),
    ensures
        r matches Ok(l) && *l == s.links@[i],
{
    placed(s.links@, h, i);
}

/// Whether only the synchronous links of a node changed.
pub open spec fn links_alone(a: MgrModel, b: MgrModel) -> bool {
    b == (MgrModel { sync: b.sync, next_sync: b.next_sync, ..a })
}

/// A node configures its groups as they are asked for.
pub proof fn node_groups(
    m: &mut ConnManager,
    n: &mut ConnManager,
    p: &SyncCigParams,
    b: &SyncBigParams,
    q: SyncCigParams,
    x: Result<SyncCigResult, Errno>,
    y: Result<SyncBigResult, Errno>,
)
    requires
        call_ensures(ConnManager::sync_ucast_configure, (m, p), x),
        call_ensures(ConnManager::sync_mcast_configure, (n, b), y),
        m@.next_sync >= 1,
        n@.next_sync >= 1,
        wishes(*b, q),
    ensures
        links_alone(old(m)@, final(m)@),
        links_alone(old(n)@, final(n)@),
        x is Ok <==> p.cig_id <= 0xEF && 1 <= p.link_count <= 8,
        y is Ok <==> b.big_id <= 0xEF && 1 <= b.link_count <= 8,
        x is Err ==> x->Err_0 == Errno::EINVAL && final(m)@ == old(m)@,
        y is Err ==> y->Err_0 == Errno::EINVAL && final(n)@ == old(n)@,
        x matches Ok(g) ==> g.cig_id == p.cig_id && g.link_count == p.link_count && grouped(
            old(m)@.sync,
            final(m)@.sync,
            old(m)@.next_sync,
            final(m)@.next_sync,
            g.handles@,
            *p,
            SyncLinkType::Unicast,
        ),
        y matches Ok(g) ==> g.big_id == b.big_id && g.link_count == b.link_count && grouped(
            old(n)@.sync,
            final(n)@.sync,
            old(n)@.next_sync,
            final(n)@.next_sync,
            g.handles@,
            q,
            SyncLinkType::Multicast,
        ),
{
    if x is Ok {
        let first = m@.next_sync;
        assert(Seq::new(
            p.link_count as nat,
            |i: int| sync_link::unicast_link(*p, sync_link::handle_after(first, i), i),
        ) =~= Seq::new(
            p.link_count as nat,
            |i: int|
                SyncLinkEntry {
                    link_type: SyncLinkType::Unicast,
                    ..sync_link::unicast_link(*p, sync_link::handle_after(first, i), i)
                },
        ));
        is_grouped(
            m@.sync,
            final(m)@.sync,
            first,
            final(m)@.next_sync,
            (x->Ok_0).handles@,
            *p,
            SyncLinkType::Unicast,
        );
    }
    if y is Ok {
        let first = n@.next_sync;
        assert(q == sync_link::group_params(*b));
        assert(Seq::new(
            b.link_count as nat,
            |i: int| sync_link::multicast_link(*b, sync_link::handle_after(first, i), i),
        ) =~= Seq::new(
            q.link_count as nat,
            |i: int|
                SyncLinkEntry {
                    link_type: SyncLinkType::Multicast,
                    ..sync_link::unicast_link(q, sync_link::handle_after(first, i), i)
                },
        ));
        is_grouped(
            n@.sync,
            final(n)@.sync,
            first,
            final(n)@.next_sync,
            (y->Ok_0).handles@,
            q,
            SyncLinkType::Multicast,
        );
    }
}

/// Whether every handle is that of a connection that is established.
pub open spec fn established(m: MgrModel, acl: Seq<u16>) -> bool {
    forall|j: int|
        0 <= j < acl.len() ==> exists|i: int|
            0 <= i < m.entries.len() && (#[trigger] m.entries[i]).handle == #[trigger] acl[j]
                && m.entries[i].state == ConnState::Connected
}

proof fn no_acl_error(m: ConnManager, acl: Seq<u16>, k: int)
    requires
        m.wf(),
        established(m@, acl),
        0 <= k <= acl.len(),
    ensures
        m@.acl_error(acl, k) is None,
    decreases acl.len() - k,
{
    if k < acl.len() {
        let h = acl[k];
        let i = choose|i: int|
            0 <= i < m@.entries.len() && (#[trigger] m@.entries[i]).handle == h
                && m@.entries[i].state == ConnState::Connected;
        crate::laws::conn::place(m, h, i);
        no_acl_error(m, acl, k + 1);
    }
}

proof fn acl_error_at(m: ConnManager, acl: Seq<u16>, k: int, j: int)
    requires
        m.wf(),
        0 <= k <= j < acl.len(),
        forall|i: int|
            0 <= i < m@.entries.len() && (#[trigger] m@.entries[i]).handle == acl[j]
                ==> m@.entries[i].state != ConnState::Connected,
    ensures
        m@.acl_error(acl, k) is Some,
    decreases acl.len() - k,
{
    if k == j {
        if m@.has(acl[j]) {
            let i = m@.pos(acl[j]);
            m.invariants();
            assert(m@.entries[i].handle == acl[j]);
        }
    } else {
        acl_error_at(m, acl, k + 1, j);
    }
}

/// A node creates links for connections that are all established, and else none at all.
pub proof fn node_creates(
    m: &mut ConnManager,
    n: &mut ConnManager,
    id: u8,
    acl: &[u16],
    j: int,
    x: Result<u8, Errno>,
    y: Result<u8, Errno>,
)
    requires
        call_ensures(ConnManager::sync_ucast_create, (m, id, acl), x),
        call_ensures(ConnManager::sync_mcast_create, (n, id, acl), y),
        m.wf(),
        n.wf(),
    ensures
        links_alone(old(m)@, final(m)@) && final(m)@.next_sync == old(m)@.next_sync,
        links_alone(old(n)@, final(n)@) && final(n)@.next_sync == old(n)@.next_sync,
        established(old(m)@, acl@) ==> handed_out(
            old(m)@.sync,
            final(m)@.sync,
            id,
            SyncLinkType::Unicast,
            acl@,
        ) && (x is Ok <==> matched(old(m)@.sync, id, SyncLinkType::Unicast, acl@) > 0),
        established(old(n)@, acl@) ==> handed_out(
            old(n)@.sync,
            final(n)@.sync,
            id,
            SyncLinkType::Multicast,
            acl@,
        ) && (y is Ok <==> matched(old(n)@.sync, id, SyncLinkType::Multicast, acl@) > 0),
        x matches Ok(c) ==> c == matched(old(m)@.sync, id, SyncLinkType::Unicast, acl@),
        y matches Ok(c) ==> c == matched(old(n)@.sync, id, SyncLinkType::Multicast, acl@),
        0 <= j < acl@.len() && (forall|i: int|
            0 <= i < old(m)@.entries.len() && (#[trigger] old(m)@.entries[i]).handle == acl@[j]
                ==> old(m)@.entries[i].state != ConnState::Connected) ==> x is Err && final(m)@
            == old(m)@,
        0 <= j < acl@.len() && (forall|i: int|
            0 <= i < old(n)@.entries.len() && (#[trigger] old(n)@.entries[i]).handle == acl@[j]
                ==> old(n)@.entries[i].state != ConnState::Connected) ==> y is Err && final(n)@
            == old(n)@,
{
    is_handed_out(m@.sync, id, SyncLinkType::Unicast, acl@);
    is_handed_out(n@.sync, id, SyncLinkType::Multicast, acl@);
    if established(m@, acl@) {
        no_acl_error(*m, acl@, 0);
    }
    if established(n@, acl@) {
        no_acl_error(*n, acl@, 0);
    }
    if 0 <= j < acl@.len() {
        if forall|i: int|
            0 <= i < m@.entries.len() && (#[trigger] m@.entries[i]).handle == acl@[j]
                ==> m@.entries[i].state != ConnState::Connected {
            acl_error_at(*m, acl@, 0, j);
        }
        if forall|i: int|
            0 <= i < n@.entries.len() && (#[trigger] n@.entries[i]).handle == acl@[j]
                ==> n@.entries[i].state != ConnState::Connected {
            acl_error_at(*n, acl@, 0, j);
        }
    }
}

/// Whether a call removed a group, or refused to.
pub open spec fn removes(
    a: MgrModel,
    b: MgrModel,
    r: Result<(), Errno>,
    id: u8,
    ty: SyncLinkType,
) -> bool {
    &&& r is Ok <==> present(a.sync, id, ty) && !busy(a.sync, id, ty)
    &&& r is Ok ==> b == (MgrModel { sync: without(a.sync, id, ty), ..a })
    &&& r is Err ==> b == a && r->Err_0 == (if busy(a.sync, id, ty) {
        Errno::EBUSY
    } else {
        Errno::ENOENT
    })
}

/// A node removes the group of the kind and identifier that is named.
pub proof fn node_removes(
    m: &mut ConnManager,
    n: &mut ConnManager,
    id: u8,
    x: Result<(), Errno>,
    y: Result<(), Errno>,
)
    requires
        call_ensures(ConnManager::sync_ucast_remove, (m, id), x),
        call_ensures(ConnManager::sync_mcast_remove, (n, id), y),
    ensures
        removes(old(m)@, final(m)@, x, id, SyncLinkType::Unicast),
        removes(old(n)@, final(n)@, y, id, SyncLinkType::Multicast),
{
    group_words(m@.sync, id, SyncLinkType::Unicast);
    group_words(n@.sync, id, SyncLinkType::Multicast);
    others_are(m@.sync, id, SyncLinkType::Unicast);
    others_are(n@.sync, id, SyncLinkType::Multicast);
}

/// Data paths of the links of a node.
pub proof fn node_paths(
    m: &mut ConnManager,
    n: &mut ConnManager,
    o: &ConnManager,
    h: u16,
    direction: u8,
    path: u8,
    codec: u8,
    i: int,
    x: Result<(), Errno>,
    y: Result<(), Errno>,
    z: Result<&SyncLinkEntry, Errno>,
)
    requires
        call_ensures(ConnManager::sync_datapath_config, (m, h, direction, path, codec), x),
        call_ensures(ConnManager::sync_datapath_remove, (n, h), y),
        call_ensures(ConnManager::sync_link_info, (o, h), z),
    ensures
        links_alone(old(m)@, final(m)@) && final(m)@.next_sync == old(m)@.next_sync,
        links_alone(old(n)@, final(n)@) && final(n)@.next_sync == old(n)@.next_sync,
        unknown(old(m)@.sync, h) ==> x == Err::<(), Errno>(Errno::ENOENT) && final(m)@ == old(m)@,
        unknown(old(n)@.sync, h) ==> y == Err::<(), Errno>(Errno::ENOENT) && final(n)@ == old(n)@,
        unknown(o@.sync, h) ==> z == Err::<&SyncLinkEntry, Errno>(Errno::ENOENT),
        place_of(o@.sync, h, i) ==> (z matches Ok(l) && *l == o@.sync[i]),
        place_of(old(m)@.sync, h, i) ==> {
            &&& x is Ok <==> old(m)@.sync[i].state == SyncLinkState::Active
            &&& x is Ok ==> only_link(old(m)@.sync, final(m)@.sync, i) && final(m)@.sync[i] == (
            SyncLinkEntry {
                datapath_configured: true,
                datapath_direction: direction,
                datapath_id: path,
                codec_id: codec,
                ..old(m)@.sync[i]
            })
            &&& x is Err ==> x->Err_0 == Errno::EINVAL && final(m)@ == old(m)@
        },
        place_of(old(n)@.sync, h, i) ==> {
            &&& y is Ok <==> old(n)@.sync[i].datapath_configured
            &&& y is Ok ==> only_link(old(n)@.sync, final(n)@.sync, i) && final(n)@.sync[i] == (
            SyncLinkEntry {
                datapath_configured: false,
                datapath_direction: 0,
                datapath_id: 0,
                codec_id: 0,
                ..old(n)@.sync[i]
            })
            &&& y is Err ==> y->Err_0 == Errno::EINVAL && final(n)@ == old(n)@
        },
{
    if place_of(m@.sync, h, i) {
        placed(m@.sync, h, i);
    }
    if place_of(n@.sync, h, i) {
        placed(n@.sync, h, i);
    }
    if place_of(o@.sync, h, i) {
        placed(o@.sync, h, i);
    }
}

} // verus!
