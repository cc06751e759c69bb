//! Laws of the connections of a node.

use vstd::prelude::*;

use crate::conn_channel::ChannelState;
use crate::conn_types::{AccessResponseType, ConnState, GtRole, NegotiatedParams};
use crate::errno::Errno;
use crate::sle_conn;
use crate::sle_conn::{ConnEntry, ConnManager, ConnModel, MgrModel};
use crate::sle_phy::ChannelMap;
use crate::sle_ssap::SsapInner;

verus! {

/// Whether place `i` is that of the connection of handle `h`.
pub open spec fn at(m: MgrModel, h: u16, i: int) -> bool {
    0 <= i < m.entries.len() && m.entries[i].handle == h
}

/// Whether there is no connection of handle `h`.
pub open spec fn gone(m: MgrModel, h: u16) -> bool {
    forall|i: int| 0 <= i < m.entries.len() ==> (#[trigger] m.entries[i]).handle != h
}

/// Whether nothing but the connection at place `i` changed, which kept its handle.
pub open spec fn only(a: MgrModel, b: MgrModel, i: int) -> bool {
    &&& b.entries.len() == a.entries.len()
    &&& forall|j: int| 0 <= j < a.entries.len() && j != i ==> #[trigger] b.entries[j] == a.entries[j]
    &&& b.entries[i].handle == a.entries[i].handle
    &&& b.local_addr == a.local_addr
    &&& b.next_handle == a.next_handle
    &&& b.max_connections == a.max_connections
    &&& b.total_created == a.total_created
    &&& b.total_completed == a.total_completed
    &&& b.sync == a.sync
    &&& b.next_sync == a.next_sync
}

/// Whether the connection at place `i` left and the others stayed, in order.
pub open spec fn left(a: MgrModel, b: MgrModel, i: int) -> bool {
    &&& b.entries.len() == a.entries.len() - 1
    &&& forall|j: int| 0 <= j < i ==> #[trigger] b.entries[j] == a.entries[j]
    &&& forall|j: int| i < j < a.entries.len() ==> b.entries[j - 1] == #[trigger] a.entries[j]
    &&& gone(b, a.entries[i].handle)
}

pub(crate) proof fn place(m: ConnManager, h: u16, i: int)
    requires
        m.wf(),
        at(m@, h, i),
    ensures
        m@.has(h),
        m@.pos(h) == i,
{
    m.invariants();
    let j = m@.pos(h);
    assert(m@.entries[i].handle == h);
    if j < i {
        assert(m@.entries[j].handle != m@.entries[i].handle);
    } else if i < j {
        assert(m@.entries[i].handle != m@.entries[j].handle);
    }
}

/// A new node has no connection and may have eight.
pub proof fn node_starts_empty(addr: [u8; 6], r: ConnManager)
    requires
        call_ensures(ConnManager::new, (addr,), r),
    ensures
        r@.entries.len() == 0,
        r@.local_addr == addr@,
        r@.max_connections == 8,
        r@.total_created == 0 && r@.total_completed == 0,
        r@.sync.len() == 0,
{
}

/// The limit of connections is what it is set to, but never more than eight.
pub proof fn limit_is_at_most_eight(m: &mut ConnManager, max: usize)
    requires
        call_ensures(ConnManager::set_max_connections, (m, max), ()),
    ensures
        final(m)@.max_connections <= 8,
        max <= 8 ==> final(m)@.max_connections == max,
        max > 8 ==> final(m)@.max_connections == 8,
        final(m)@.entries == old(m)@.entries,
{
}

/// A connection is begun where there is room and none to that peer that is not idle: it gets
/// a handle that no other has, waits for the controller, and is counted; the others stay.
pub proof fn connection_is_begun(
    m: &mut ConnManager,
    peer: [u8; 6],
    role: GtRole,
    r: Result<u16, Errno>,
)
    requires
        call_ensures(ConnManager::connect, (m, peer, role), r),
        m.wf(),
        m@.total_created < u64::MAX,
    ensures
        old(m)@.entries.len() >= old(m)@.max_connections ==> r == Err::<u16, Errno>(Errno::EBUSY),
        old(m)@.entries.len() < old(m)@.max_connections ==> ((r is Err) == (exists|i: int|
            0 <= i < old(m)@.entries.len() && (#[trigger] old(m)@.entries[i]).peer_addr == peer@
                && old(m)@.entries[i].state != ConnState::Idle)),
        old(m)@.entries.len() < old(m)@.max_connections && r is Err ==> r->Err_0 == Errno::EEXIST,
        r is Err ==> final(m)@ == old(m)@,
        r matches Ok(h) ==> {
            let e = final(m)@.entries.last();
            &&& h != 0 && h != 0xFFFF
            &&& gone(old(m)@, h)
            &&& final(m)@.entries == old(m)@.entries.push(e)
            &&& e.handle == h
            &&& e.peer_addr == peer@
            &&& e.local_role == role
            &&& e.state == ConnState::ConnectPending
            &&& e.tx_queue.len() == 0 && e.rx_queue.len() == 0
            &&& e.session is None
            &&& e.tx_bytes == 0 && e.rx_bytes == 0
            &&& final(m)@.total_created == old(m)@.total_created + 1
            &&& final(m)@.total_completed == old(m)@.total_completed
            &&& final(m)@.max_connections == old(m)@.max_connections
            &&& final(m)@.sync == old(m)@.sync
        },
{
    m.invariants();
    sle_conn::new_handle_is_free(m@);
    if r is Ok {
        let h = r->Ok_0;
        assert forall|i: int| 0 <= i < m@.entries.len() implies (#[trigger] m@.entries[i]).handle
            != h by {}
        assert(final(m)@.entries == m@.entries.push(final(m)@.entries.last()));
    }
}

/// What the controller accepts moves on from waiting to the access request; anything else
/// stays as it is.
pub proof fn accepted_request_moves_on(m: &mut ConnManager, h: u16, i: int)
    requires
        call_ensures(ConnManager::confirm_connecting, (m, h), ()),
        m.wf(),
    ensures
        gone(old(m)@, h) ==> final(m)@ == old(m)@,
        at(old(m)@, h, i) && old(m)@.entries[i].state != ConnState::ConnectPending ==> final(m)@
            == old(m)@,
        at(old(m)@, h, i) && old(m)@.entries[i].state == ConnState::ConnectPending ==> only(
            old(m)@,
            final(m)@,
            i,
        ) && final(m)@.entries[i].state == ConnState::Connecting && final(m)@.entries[i].peer_addr
            == old(m)@.entries[i].peer_addr,
{
    if at(m@, h, i) {
        place(*m, h, i);
    }
}

/// What the controller refuses is gone, if it waited.
pub proof fn refused_request_is_gone(m: &mut ConnManager, h: u16, i: int)
    requires
        call_ensures(ConnManager::abort_connecting, (m, h), ()),
        m.wf(),
        at(m@, h, i),
    ensures
        old(m)@.entries[i].state == ConnState::ConnectPending ==> left(old(m)@, final(m)@, i),
        old(m)@.entries[i].state != ConnState::ConnectPending ==> final(m)@ == old(m)@,
        final(m)@.total_created == old(m)@.total_created,
        final(m)@.total_completed == old(m)@.total_completed,
{
    place(*m, h, i);
    m.invariants();
    if m@.entries[i].state == ConnState::ConnectPending {
        removed(m@, final(m)@, i);
    }
}

proof fn removed(a: MgrModel, b: MgrModel, i: int)
    requires
        0 <= i < a.entries.len(),
        sle_conn::unique(a.entries),
        b.entries == a.entries.remove(i),
    ensures
        left(a, b, i),
{
    assert forall|j: int| i < j < a.entries.len() implies b.entries[j - 1] == #[trigger] a.entries[j] by {}
    assert forall|k: int| 0 <= k < b.entries.len() implies (#[trigger] b.entries[k]).handle
        != a.entries[i].handle by {
        if k < i {
            assert(b.entries[k] == a.entries[k]);
        } else {
            assert(b.entries[k] == a.entries[k + 1]);
        }
    }
}

/// A connection is found by the address of its peer as well: the first that waits moves on,
/// and its handle is told.
pub proof fn accepted_by_address(m: &mut ConnManager, addr: &[u8; 6], r: Option<u16>, i: int)
    requires
        call_ensures(ConnManager::confirm_connecting_by_addr, (m, addr), r),
        m.wf(),
    ensures
        r is Some <==> (exists|j: int|
            0 <= j < old(m)@.entries.len() && (#[trigger] old(m)@.entries[j]).peer_addr == addr@
                && old(m)@.entries[j].state == ConnState::ConnectPending),
        r is None ==> final(m)@ == old(m)@,
        0 <= i < old(m)@.entries.len() && old(m)@.entries[i].peer_addr == addr@
            && old(m)@.entries[i].state == ConnState::ConnectPending && (forall|j: int|
            0 <= j < i ==> !((#[trigger] old(m)@.entries[j]).peer_addr == addr@
                && old(m)@.entries[j].state == ConnState::ConnectPending)) ==> {
            &&& r == Some(old(m)@.entries[i].handle)
            &&& only(old(m)@, final(m)@, i)
            &&& final(m)@.entries[i].state == ConnState::Connecting
        },
{
    let s = m@.entries;
    if exists|j: int|
        0 <= j < s.len() && (#[trigger] s[j]).peer_addr == addr@ && s[j].state
            == ConnState::ConnectPending {
        let j = choose|j: int|
            0 <= j < s.len() && (#[trigger] s[j]).peer_addr == addr@ && s[j].state
                == ConnState::ConnectPending;
        first_pending(s, addr@, j);
    }
    if 0 <= i < s.len() && s[i].peer_addr == addr@ && s[i].state == ConnState::ConnectPending && (
    forall|j: int|
        0 <= j < i ==> !((#[trigger] s[j]).peer_addr == addr@ && s[j].state
            == ConnState::ConnectPending)) {
        assert(sle_conn::pending_at(s, addr@, i));
        let k = sle_conn::pending_pos(s, addr@);
        assert(sle_conn::pending_at(s, addr@, k));
        assert(k == i);
    }
    if sle_conn::has_pending(s, addr@) {
        let k = choose|k: int| sle_conn::pending_at(s, addr@, k);
        assert(s[k].peer_addr == addr@);
    }
}

proof fn first_pending(s: Seq<ConnModel>, addr: Seq<u8>, j: int)
    requires
        0 <= j < s.len(),
        s[j].peer_addr == addr && s[j].state == ConnState::ConnectPending,
    ensures
        sle_conn::has_pending(s, addr),
    decreases j,
{
    if forall|k: int|
        0 <= k < j ==> !((#[trigger] s[k]).peer_addr == addr && s[k].state
            == ConnState::ConnectPending) {
        assert(sle_conn::pending_at(s, addr, j));
    } else {
        let k = choose|k: int|
            0 <= k < j && (#[trigger] s[k]).peer_addr == addr && s[k].state
                == ConnState::ConnectPending;
        first_pending(s, addr, k);
    }
}

/// A peer is known where some connection has its address.
pub proof fn known_peers(m: &ConnManager, addr: &[u8; 6], r: bool)
    requires
        call_ensures(ConnManager::has_addr, (m, addr), r),
    ensures
        r == exists|i: int|
            0 <= i < m@.entries.len() && (#[trigger] m@.entries[i]).peer_addr == addr@,
{
}

/// A connection that a peer made is established at once, under the handle that it came with.
pub proof fn incoming_connection(
    m: &mut ConnManager,
    h: u16,
    addr: &[u8; 6],
    now: u64,
    r: Result<(), Errno>,
)
    requires
        call_ensures(ConnManager::accept_incoming, (m, h, addr, now), r),
        m.wf(),
        m@.total_created < u64::MAX,
    ensures
        r is Err <==> old(m)@.entries.len() >= old(m)@.max_connections,
        r is Err ==> r->Err_0 == Errno::EBUSY && final(m)@ == old(m)@,
        r is Ok && !gone(old(m)@, h) ==> final(m)@ == old(m)@,
        r is Ok && gone(old(m)@, h) ==> {
            let e = final(m)@.entries.last();
            &&& final(m)@.entries == old(m)@.entries.push(e)
            &&& e.handle == h
            &&& e.peer_addr == addr@
            &&& e.state == ConnState::Connected
            &&& e.last_activity == now
            &&& final(m)@.total_created == old(m)@.total_created + 1
        },
{
    if r is Ok && gone(m@, h) {
        assert(!m@.has(h));
        assert(final(m)@.entries == m@.entries.push(final(m)@.entries.last()));
    }
}

/// A peer that accepts establishes the connection: all channels are open, messages may be as
/// long as the packets that were agreed on but not longer than 512, a fresh service session
/// begins, and the agreed parameters hold.
pub proof fn accepted_by_the_peer(
    m: &mut ConnManager,
    h: u16,
    params: NegotiatedParams,
    now: u64,
    r: Result<(), Errno>,
    i: int,
)
    requires
        call_ensures(
            ConnManager::process_access_response,
            (m, h, AccessResponseType::Accepted, params, now),
            r,
        ),
        m.wf(),
        at(m@, h, i),
        m@.entries[i].state == ConnState::Connecting,
    ensures
        r == Ok::<(), Errno>(()),
        only(old(m)@, final(m)@, i),
        ({
            let e = final(m)@.entries[i];
            let o = old(m)@.entries[i];
            &&& e.state == ConnState::Connected
            &&& e.params == params
            &&& e.last_activity == now
            &&& e.peer_addr == o.peer_addr
            &&& e.channels.mgmt.state == ChannelState::Open
            &&& e.channels.svc_mgmt.state == ChannelState::Open
            &&& e.channels.data.state == ChannelState::Open
            &&& e.channels.data.mtu <= 512 && e.channels.data.mtu <= params.max_pdu_size
            &&& e.channels.data.mtu == 512 || e.channels.data.mtu == params.max_pdu_size
            &&& e.session matches Some(s) && s.conn_handle == h && !s.info_exchanged
                && s.remote.entries.len() == 0
            &&& e.tx_queue == o.tx_queue && e.rx_queue == o.rx_queue
        }),
{
    place(*m, h, i);
}

/// Any other answer leaves the connection idle and is reported.
pub proof fn refused_by_the_peer(
    m: &mut ConnManager,
    h: u16,
    t: AccessResponseType,
    params: NegotiatedParams,
    now: u64,
    r: Result<(), Errno>,
    i: int,
)
    requires
        call_ensures(ConnManager::process_access_response, (m, h, t, params, now), r),
        m.wf(),
    ensures
        gone(old(m)@, h) ==> r == Err::<(), Errno>(Errno::ENOENT) && final(m)@ == old(m)@,
        at(old(m)@, h, i) && old(m)@.entries[i].state != ConnState::Connecting ==> r == Err::<
            (),
            Errno,
        >(Errno::EBUSY) && final(m)@ == old(m)@,
        at(old(m)@, h, i) && old(m)@.entries[i].state == ConnState::Connecting && t
            != AccessResponseType::Accepted ==> r == Err::<(), Errno>(Errno::EACCES) && only(
            old(m)@,
            final(m)@,
            i,
        ) && final(m)@.entries[i].state == ConnState::Idle,
{
    if at(m@, h, i) {
        place(*m, h, i);
    }
}

/// A connection that is established or being made can be asked to be closed, and only such a
/// one.
pub proof fn closing(m: &mut ConnManager, h: u16, r: Result<(), Errno>, i: int)
    requires
        call_ensures(ConnManager::disconnect, (m, h), r),
        m.wf(),
    ensures
        gone(old(m)@, h) ==> r == Err::<(), Errno>(Errno::ENOENT) && final(m)@ == old(m)@,
        at(old(m)@, h, i) ==> {
            let s = old(m)@.entries[i].state;
            if s == ConnState::Connected || s == ConnState::Connecting || s
                == ConnState::ConnectPending {
                r == Ok::<(), Errno>(()) && only(old(m)@, final(m)@, i)
                    && final(m)@.entries[i].state == ConnState::DisconnectPending
            } else {
                r == Err::<(), Errno>(Errno::EPIPE) && final(m)@ == old(m)@
            }
        },
{
    if at(m@, h, i) {
        place(*m, h, i);
    }
}

/// Once the controller accepted that, the connection is gone and counted as closed.
pub proof fn closed_at_last(m: &mut ConnManager, h: u16, i: int)
    requires
        call_ensures(ConnManager::confirm_disconnecting, (m, h), ()),
        m.wf(),
        m@.total_completed < u64::MAX,
        at(m@, h, i),
    ensures
        old(m)@.entries[i].state == ConnState::DisconnectPending ==> left(old(m)@, final(m)@, i)
            && final(m)@.total_completed == old(m)@.total_completed + 1,
        old(m)@.entries[i].state != ConnState::DisconnectPending ==> final(m)@ == old(m)@,
{
    place(*m, h, i);
    m.invariants();
    if m@.entries[i].state == ConnState::DisconnectPending {
        removed(m@, final(m)@, i);
    }
}

/// Where the controller refuses to close, the connection is established again.
pub proof fn not_closed(m: &mut ConnManager, h: u16, i: int)
    requires
        call_ensures(ConnManager::abort_disconnecting, (m, h), ()),
        m.wf(),
        at(m@, h, i),
    ensures
        old(m)@.entries[i].state == ConnState::DisconnectPending ==> only(old(m)@, final(m)@, i)
            && final(m)@.entries[i].state == ConnState::Connected,
        old(m)@.entries[i].state != ConnState::DisconnectPending ==> final(m)@ == old(m)@,
{
    place(*m, h, i);
}

/// A connection that the controller reports as closed is gone, whoever asked for it; one that
/// is idle or still waits is not touched.
pub proof fn closed_from_outside(m: &mut ConnManager, h: u16, r: bool, i: int)
    requires
        call_ensures(ConnManager::confirm_disconnecting_by_handle, (m, h), r),
        m.wf(),
        m@.total_completed < u64::MAX,
    ensures
        gone(old(m)@, h) ==> !r && final(m)@ == old(m)@,
        at(old(m)@, h, i) ==> {
            let s = old(m)@.entries[i].state;
            &&& r == (s == ConnState::Connected || s == ConnState::Connecting || s
                == ConnState::DisconnectPending)
            &&& r ==> left(old(m)@, final(m)@, i) && final(m)@.total_completed
                == old(m)@.total_completed + 1
            &&& !r ==> final(m)@ == old(m)@
        },
{
    if at(m@, h, i) {
        place(*m, h, i);
        m.invariants();
        if r {
            removed(m@, final(m)@, i);
        }
    }
}

/// A connection that timed out is idle, has no open channel and no session, and its peer is
/// told; its handle is not among the active ones.
pub proof fn timed_out_is_idle(m: &mut ConnManager, h: u16, r: Result<[u8; 6], Errno>, i: int)
    requires
        call_ensures(ConnManager::timeout_disconnect, (m, h), r),
        m.wf(),
    ensures
        gone(old(m)@, h) ==> r == Err::<[u8; 6], Errno>(Errno::ENOENT) && final(m)@ == old(m)@,
        at(old(m)@, h, i) ==> {
            let e = final(m)@.entries[i];
            &&& r matches Ok(a) && a@ == old(m)@.entries[i].peer_addr
            &&& only(old(m)@, final(m)@, i)
            &&& e.state == ConnState::Idle
            &&& e.session is None
            &&& e.channels.mgmt.state == ChannelState::Closed
            &&& e.channels.svc_mgmt.state == ChannelState::Closed
            &&& e.channels.data.state == ChannelState::Closed
            &&& e.channels.mgmt.tx_credits == 0 && e.channels.svc_mgmt.tx_credits == 0
            &&& e.peer_addr == old(m)@.entries[i].peer_addr
            &&& final(m)@.unusable(h) == Some(Errno::EPIPE)
            &&& !sle_conn::active(final(m)@.entries).contains(h)
        },
{
    if at(m@, h, i) {
        place(*m, h, i);
        place(*final(m), h, i);
        final(m).invariants();
        let s = final(m)@.entries;
        active_exact(s, h);
        assert forall|j: int| 0 <= j < s.len() && (#[trigger] s[j]).handle == h implies s[j].state
            == ConnState::Idle by {
            if j < i {
                assert(s[j].handle != s[i].handle);
            } else if i < j {
                assert(s[i].handle != s[j].handle);
            }
        }
    }
}

/// After a timeout, nothing can be sent or received on the connection.
pub proof fn timed_out_is_silent(
    m: &mut ConnManager,
    n: &mut ConnManager,
    h: u16,
    data: &[u8],
    now: u64,
    r: Result<[u8; 6], Errno>,
    s: Result<usize, Errno>,
    i: int,
)
    requires
        call_ensures(ConnManager::timeout_disconnect, (m, h), r),
        m.wf(),
        at(m@, h, i),
        *n == *final(m),
        call_ensures(ConnManager::send, (n, h, data, now), s),
    ensures
        s == Err::<usize, Errno>(Errno::EPIPE),
        final(n)@ == old(n)@,
{
    place(*m, h, i);
    place(*n, h, i);
}

proof fn active_exact(s: Seq<ConnModel>, h: u16)
    ensures
        sle_conn::active(s).contains(h) <==> exists|i: int|
            0 <= i < s.len() && (#[trigger] s[i]).handle == h && s[i].state != ConnState::Idle,
        sle_conn::active(s).len() <= s.len(),
    decreases s.len(),
{
    if s.len() > 0 {
        let t = s.drop_last();
        active_exact(t, h);
        let a = sle_conn::active(s);
        let b = sle_conn::active(t);
        if s.last().state != ConnState::Idle {
            assert(a == b.push(s.last().handle));
            assert(a[b.len() as int] == s.last().handle);
            if b.contains(h) {
                let k = choose|k: int| 0 <= k < b.len() && b[k] == h;
                assert(a[k] == h);
            }
            if a.contains(h) {
                let k = choose|k: int| 0 <= k < a.len() && a[k] == h;
                if k < b.len() {
                    assert(b[k] == h);
                }
            }
        }
        if exists|i: int|
            0 <= i < s.len() && (#[trigger] s[i]).handle == h && s[i].state != ConnState::Idle {
            let i = choose|i: int|
                0 <= i < s.len() && (#[trigger] s[i]).handle == h && s[i].state != ConnState::Idle;
            if i < t.len() {
                assert(t[i] == s[i]);
            }
        }
        if exists|i: int|
            0 <= i < t.len() && (#[trigger] t[i]).handle == h && t[i].state != ConnState::Idle {
            let i = choose|i: int|
                0 <= i < t.len() && (#[trigger] t[i]).handle == h && t[i].state != ConnState::Idle;
            assert(s[i] == t[i]);
        }
    }
}

/// The active handles are those of the connections that are not idle, and no others.
pub proof fn active_handles_exact(m: &ConnManager, r: ([u16; 8], usize), h: u16)
    requires
        call_ensures(ConnManager::active_handles, (m,), r),
        m.wf(),
    ensures
        r.1 <= m@.entries.len(),
        (exists|k: int| 0 <= k < r.1 && #[trigger] r.0@[k] == h) <==> exists|i: int|
            0 <= i < m@.entries.len() && (#[trigger] m@.entries[i]).handle == h
                && m@.entries[i].state != ConnState::Idle,
        forall|k: int| r.1 <= k < 8 ==> r.0@[k] == 0,
{
    let a = sle_conn::active(m@.entries);
    active_exact(m@.entries, h);
    if a.contains(h) {
        let k = choose|k: int| 0 <= k < a.len() && a[k] == h;
        assert(r.0@[k] == h);
    }
    if exists|k: int| 0 <= k < r.1 && #[trigger] r.0@[k] == h {
        let k = choose|k: int| 0 <= k < r.1 && #[trigger] r.0@[k] == h;
        assert(a[k] == h);
    }
}

/// No connection is active exactly when all are idle.
pub proof fn active_count_zero(m: &ConnManager, r: usize)
    requires
        call_ensures(ConnManager::active_count, (m,), r),
    ensures
        r == 0 <==> forall|i: int|
            0 <= i < m@.entries.len() ==> (#[trigger] m@.entries[i]).state == ConnState::Idle,
        r <= m@.entries.len(),
{
    let s = m@.entries;
    let a = sle_conn::active(s);
    assert forall|i: int| 0 <= i < s.len() && s[i].state != ConnState::Idle implies a.contains(
        #[trigger] s[i].handle,
    ) by {
        active_exact(s, s[i].handle);
    }
    active_exact(s, 0);
    if a.len() > 0 {
        active_exact(s, a[0]);
        assert(a.contains(a[0]));
    }
    if exists|i: int| 0 <= i < s.len() && (#[trigger] s[i]).state != ConnState::Idle {
        let i = choose|i: int| 0 <= i < s.len() && (#[trigger] s[i]).state != ConnState::Idle;
        assert(a.contains(s[i].handle));
    }
}

/// A message is queued behind the others where the connection is established, the message is
/// neither empty nor too long, and the queue has room; otherwise nothing changes.
pub proof fn message_is_queued(
    m: &mut ConnManager,
    h: u16,
    data: &[u8],
    now: u64,
    r: Result<usize, Errno>,
    i: int,
)
    requires
        call_ensures(ConnManager::send, (m, h, data, now), r),
        m.wf(),
        at(m@, h, i) ==> m@.entries[i].tx_bytes + data@.len() <= u64::MAX,
    ensures
        r is Err ==> final(m)@ == old(m)@,
        gone(old(m)@, h) ==> r == Err::<usize, Errno>(Errno::ENOENT),
        at(old(m)@, h, i) ==> {
            let o = old(m)@.entries[i];
            let e = final(m)@.entries[i];
            &&& o.state != ConnState::Connected ==> r == Err::<usize, Errno>(Errno::EPIPE)
            &&& o.state == ConnState::Connected && (data@.len() == 0 || data@.len() > 255) ==> r
                == Err::<usize, Errno>(Errno::EINVAL)
            &&& o.state == ConnState::Connected && 0 < data@.len() <= 255 && data@.len()
                > o.channels.data.mtu ==> r == Err::<usize, Errno>(Errno::EFBIG)
            &&& o.state == ConnState::Connected && 0 < data@.len() <= 255 && data@.len()
                <= o.channels.data.mtu && o.tx_queue.len() >= 64 ==> r == Err::<usize, Errno>(
                Errno::EAGAIN,
            )
            &&& o.state == ConnState::Connected && 0 < data@.len() <= 255 && data@.len()
                <= o.channels.data.mtu && o.tx_queue.len() < 64 ==> {
                &&& r == Ok::<usize, Errno>(data@.len() as usize)
                &&& only(old(m)@, final(m)@, i)
                &&& e.tx_queue == o.tx_queue.push(data@)
                &&& e.rx_queue == o.rx_queue
                &&& e.tx_bytes == o.tx_bytes + data@.len()
                &&& e.rx_bytes == o.rx_bytes
                &&& e.seq.tx_seq == 1 - o.seq.tx_seq
                &&& e.seq.rx_seq == o.seq.rx_seq
                &&& e.last_activity == now
                &&& e.state == ConnState::Connected
            }
        },
{
    if at(m@, h, i) {
        place(*m, h, i);
        m.invariants();
        assert(m@.entries[i].seq.wf());
    }
}

/// A message from the peer is taken in where its number is the expected one, and only then;
/// it is put behind the others, and the oldest makes room where 64 wait.
pub proof fn message_is_taken_in(
    m: &mut ConnManager,
    h: u16,
    data: &[u8],
    seq: u8,
    now: u64,
    r: Result<(), Errno>,
    i: int,
)
    requires
        call_ensures(ConnManager::receive_data, (m, h, data, seq, now), r),
        m.wf(),
        at(m@, h, i) ==> m@.entries[i].rx_bytes + data@.len() <= u64::MAX,
    ensures
        r is Err ==> final(m)@ == old(m)@,
        gone(old(m)@, h) ==> r == Err::<(), Errno>(Errno::ENOENT),
        at(old(m)@, h, i) ==> {
            let o = old(m)@.entries[i];
            let e = final(m)@.entries[i];
            &&& o.state != ConnState::Connected ==> r == Err::<(), Errno>(Errno::EPIPE)
            &&& o.state == ConnState::Connected ==> r == Ok::<(), Errno>(()) && only(
                old(m)@,
                final(m)@,
                i,
            )
            &&& o.state == ConnState::Connected && seq % 2 != o.seq.rx_seq ==> e == o
            &&& o.state == ConnState::Connected && seq % 2 == o.seq.rx_seq ==> {
                &&& e.rx_queue.last() == (if data@.len() <= 255 {
                    data@
                } else {
                    data@.take(255)
                })
                &&& e.rx_queue.drop_last() == (if o.rx_queue.len() < 64 {
                    o.rx_queue
                } else {
                    o.rx_queue.skip(1)
                })
                &&& e.rx_queue.len() > 0
                &&& e.seq.rx_seq == 1 - o.seq.rx_seq
                &&& e.seq.tx_seq == o.seq.tx_seq
                &&& e.rx_bytes == o.rx_bytes + data@.len()
                &&& e.tx_queue == o.tx_queue
                &&& e.last_activity == now
            }
        },
{
    if at(m@, h, i) {
        place(*m, h, i);
        m.invariants();
        let o = m@.entries[i];
        let e = final(m)@.entries[i];
        assert(o.seq.wf());
        if o.state == ConnState::Connected && seq % 2 == o.seq.rx_seq {
            assert(e.rx_queue.drop_last() =~= (if o.rx_queue.len() < 64 {
                o.rx_queue
            } else {
                o.rx_queue.skip(1)
            }));
        }
    }
}

/// Messages are handed out oldest first, each once; as much of a message as fits is copied to
/// the start of the buffer.
pub proof fn message_is_handed_out(
    m: &mut ConnManager,
    h: u16,
    buf: &mut [u8],
    r: Result<usize, Errno>,
    i: int,
)
    requires
        call_ensures(ConnManager::recv, (m, h, buf), r),
        m.wf(),
    ensures
        r is Err ==> final(m)@ == old(m)@ && final(buf)@ == old(buf)@,
        gone(old(m)@, h) ==> r == Err::<usize, Errno>(Errno::ENOENT),
        at(old(m)@, h, i) ==> {
            let o = old(m)@.entries[i];
            let e = final(m)@.entries[i];
            &&& o.state != ConnState::Connected ==> r == Err::<usize, Errno>(Errno::EPIPE)
            &&& o.state == ConnState::Connected && o.rx_queue.len() == 0 ==> r == Err::<
                usize,
                Errno,
            >(Errno::EAGAIN)
            &&& o.state == ConnState::Connected && o.rx_queue.len() > 0 && o.rx_queue[0].len()
                <= usize::MAX ==> {
                &&& r == Ok::<usize, Errno>(o.rx_queue[0].len() as usize)
                &&& only(old(m)@, final(m)@, i)
                &&& e.rx_queue == o.rx_queue.skip(1)
                &&& e.tx_queue == o.tx_queue
                &&& e.seq == o.seq
                &&& final(buf)@.len() == old(buf)@.len()
                &&& forall|k: int|
                    0 <= k < old(buf)@.len() ==> final(buf)@[k] == (if k < o.rx_queue[0].len() {
                        o.rx_queue[0][k]
                    } else {
                        old(buf)@[k]
                    })
            }
        },
{
    if at(m@, h, i) {
        place(*m, h, i);
        let o = m@.entries[i];
        let e = final(m)@.entries[i];
        if o.state == ConnState::Connected && o.rx_queue.len() > 0 {
            assert(e.rx_queue =~= o.rx_queue.skip(1));
        }
    }
}

/// What one call takes in, the next one hands out, where nothing else waited.
pub proof fn taken_in_and_handed_out(
    m: &mut ConnManager,
    n: &mut ConnManager,
    h: u16,
    data: &[u8],
    seq: u8,
    now: u64,
    buf: &mut [u8],
    a: Result<(), Errno>,
    b: Result<usize, Errno>,
    i: int,
)
    requires
        call_ensures(ConnManager::receive_data, (m, h, data, seq, now), a),
        m.wf(),
        at(m@, h, i),
        m@.entries[i].state == ConnState::Connected,
        m@.entries[i].rx_queue.len() == 0,
        m@.entries[i].rx_bytes + data@.len() <= u64::MAX,
        seq % 2 == m@.entries[i].seq.rx_seq,
        *n == *final(m),
        call_ensures(ConnManager::recv, (n, h, buf), b),
        data@.len() <= 255,
        data@.len() <= buf@.len(),
    ensures
        b == Ok::<usize, Errno>(data@.len() as usize),
        final(buf)@.take(data@.len() as int) == data@,
        final(n)@.entries[i].rx_queue.len() == 0,
{
    place(*m, h, i);
    m.invariants();
    message_is_taken_in(m, h, data, seq, now, a, i);
    place(*n, h, i);
    message_is_handed_out(n, h, buf, b, i);
    let q = n@.entries[i].rx_queue;
    assert(q.drop_last() =~= Seq::<Seq<u8>>::empty());
    assert(q.len() == 1);
    assert(q[0] == data@);
    assert(final(buf)@.take(data@.len() as int) =~= data@);
}

/// A connection can be looked at unless it is idle.
pub proof fn looked_at(m: &ConnManager, h: u16, r: Result<&ConnEntry, Errno>, i: int)
    requires
        call_ensures(ConnManager::info, (m, h), r),
        m.wf(),
    ensures
        gone(m@, h) ==> r is Err && r->Err_0 == Errno::ENOENT,
        at(m@, h, i) && m@.entries[i].state == ConnState::Idle ==> r is Err && r->Err_0
            == Errno::EPIPE,
        at(m@, h, i) && m@.entries[i].state != ConnState::Idle ==> r is Ok && r->Ok_0.handle == h
            && r->Ok_0.state == m@.entries[i].state && r->Ok_0.peer_addr@
            == m@.entries[i].peer_addr,
{
    if at(m@, h, i) {
        place(*m, h, i);
    }
}

/// The timing of an established connection is changed by what is not 0.
pub proof fn timing_is_changed(
    m: &mut ConnManager,
    h: u16,
    interval: u16,
    latency: u16,
    timeout: u16,
    now: u64,
    r: Result<(), Errno>,
    i: int,
)
    requires
        call_ensures(
            ConnManager::update_conn_params,
            (m, h, interval, latency, timeout, now),
            r,
        ),
        m.wf(),
        at(m@, h, i),
    ensures
        old(m)@.entries[i].state != ConnState::Connected ==> r == Err::<(), Errno>(Errno::EPIPE)
            && final(m)@ == old(m)@,
        old(m)@.entries[i].state == ConnState::Connected ==> {
            let o = old(m)@.entries[i].params;
            let p = final(m)@.entries[i].params;
            &&& r == Ok::<(), Errno>(())
            &&& only(old(m)@, final(m)@, i)
            &&& interval > 0 ==> p.event_group_period == interval
            &&& interval == 0 ==> p.event_group_period == o.event_group_period
            &&& latency > 0 ==> p.latency_period == latency
            &&& latency == 0 ==> p.latency_period == o.latency_period
            &&& timeout > 0 ==> p.supervision_timeout == timeout
            &&& timeout == 0 ==> p.supervision_timeout == o.supervision_timeout
            &&& p.mcs_index == o.mcs_index && p.bandwidth_mhz == o.bandwidth_mhz
            &&& p.max_pdu_size == o.max_pdu_size
            &&& final(m)@.entries[i].last_activity == now
        },
{
    place(*m, h, i);
}

/// The radio parameters of an established connection are changed within their limits.
pub proof fn radio_is_changed(
    m: &mut ConnManager,
    h: u16,
    mcs: u8,
    mhz: u8,
    now: u64,
    r: Result<(), Errno>,
    i: int,
)
    requires
        call_ensures(ConnManager::update_phy_params, (m, h, mcs, mhz, now), r),
        m.wf(),
        at(m@, h, i),
    ensures
        old(m)@.entries[i].state != ConnState::Connected ==> r == Err::<(), Errno>(Errno::EPIPE)
            && final(m)@ == old(m)@,
        old(m)@.entries[i].state == ConnState::Connected ==> {
            let o = old(m)@.entries[i].params;
            let p = final(m)@.entries[i].params;
            &&& r == Ok::<(), Errno>(())
            &&& only(old(m)@, final(m)@, i)
            &&& mcs <= 12 ==> p.mcs_index == mcs
            &&& mcs > 12 ==> p.mcs_index == o.mcs_index
            &&& mhz == 1 || mhz == 2 || mhz == 4 ==> p.bandwidth_mhz == mhz
            &&& mhz != 1 && mhz != 2 && mhz != 4 ==> p.bandwidth_mhz == o.bandwidth_mhz
            &&& p.supervision_timeout == o.supervision_timeout
            &&& final(m)@.entries[i].last_activity == now
        },
{
    place(*m, h, i);
}

/// Packets are as long as both directions allow; a length of 0 changes nothing.
pub proof fn length_is_changed(
    m: &mut ConnManager,
    h: u16,
    tx: u16,
    rx: u16,
    r: Result<(), Errno>,
    i: int,
)
    requires
        call_ensures(ConnManager::update_data_length, (m, h, tx, rx), r),
        m.wf(),
        at(m@, h, i),
        m@.entries[i].state == ConnState::Connected,
    ensures
        r == Ok::<(), Errno>(()),
        tx == 0 || rx == 0 ==> final(m)@ == old(m)@,
        tx > 0 && rx > 0 ==> {
            let e = final(m)@.entries[i];
            &&& only(old(m)@, final(m)@, i)
            &&& e.params.max_pdu_size <= tx && e.params.max_pdu_size <= rx
            &&& e.params.max_pdu_size == tx || e.params.max_pdu_size == rx
            &&& e.channels.data.mtu == e.params.max_pdu_size
            &&& e.channels.data.mps == e.params.max_pdu_size
            &&& e.channels.svc_mgmt.mtu == e.params.max_pdu_size
            &&& e.channels.svc_mgmt.mps <= e.params.max_pdu_size
        },
{
    place(*m, h, i);
    if tx == 0 || rx == 0 {
        assert(final(m)@.entries =~= m@.entries);
    }
}

/// The sizes of the data channel are set within what was agreed on; segments are never longer
/// than messages.
pub proof fn sizes_are_set(
    m: &mut ConnManager,
    h: u16,
    mtu: u16,
    mps: Option<u16>,
    r: Result<(), Errno>,
    i: int,
)
    requires
        call_ensures(ConnManager::set_data_mtu, (m, h, mtu, mps), r),
        m.wf(),
        at(m@, h, i),
        m@.entries[i].state == ConnState::Connected,
    ensures
        r is Ok <==> 23 <= mtu <= old(m)@.entries[i].params.max_pdu_size,
        r is Err ==> r->Err_0 == Errno::EINVAL && final(m)@ == old(m)@,
        r is Ok ==> {
            let c = final(m)@.entries[i].channels.data;
            let o = old(m)@.entries[i].channels.data;
            &&& only(old(m)@, final(m)@, i)
            &&& c.mtu == mtu
            &&& c.mps <= mtu
            &&& mps is Some && 0 < mps->0 <= mtu ==> c.mps == mps->0
            &&& (mps is None || mps->0 == 0) && o.mps <= mtu ==> c.mps == o.mps
            &&& final(m)@.entries[i].channels.svc_mgmt == old(m)@.entries[i].channels.svc_mgmt
            &&& final(m)@.entries[i].channels.mgmt == old(m)@.entries[i].channels.mgmt
        },
{
    place(*m, h, i);
}

/// What the peer tells about itself is kept.
pub proof fn peer_is_remembered(
    m: &mut ConnManager,
    n: &mut ConnManager,
    h: u16,
    features: [u8; 10],
    version: u8,
    manufacturer: u16,
    subversion: u16,
    a: Result<(), Errno>,
    b: Result<(), Errno>,
    i: int,
)
    requires
        call_ensures(ConnManager::store_peer_features, (m, h, features), a),
        m.wf(),
        at(m@, h, i),
        m@.entries[i].state == ConnState::Connected,
        *n == *final(m),
        call_ensures(
            ConnManager::store_peer_version,
            (n, h, version, manufacturer, subversion),
            b,
        ),
    ensures
        a is Ok && b is Ok,
        only(old(m)@, final(n)@, i),
        ({
            let c = final(n)@.entries[i].peer_cap;
            &&& c.features@ == features@ && c.features_valid
            &&& c.version == version && c.manufacturer == manufacturer
            &&& c.subversion == subversion && c.version_valid
        }),
{
    place(*m, h, i);
    place(*n, h, i);
}

/// Handle 0 stands for the first established connection; any other handle for itself.
pub proof fn handle_to_use(m: &ConnManager, h: u16, r: Result<u16, Errno>, i: int)
    requires
        call_ensures(ConnManager::resolve_handle, (m, h), r),
        m.wf(),
    ensures
        h != 0 && gone(m@, h) ==> r == Err::<u16, Errno>(Errno::ENOENT),
        h != 0 && at(m@, h, i) ==> r == Ok::<u16, Errno>(h),
        h == 0 && 0 <= i < m@.entries.len() && m@.entries[i].state == ConnState::Connected && (
        forall|j: int| 0 <= j < i ==> (#[trigger] m@.entries[j]).state != ConnState::Connected)
            ==> r == Ok::<u16, Errno>(m@.entries[i].handle),
        h == 0 && (forall|j: int|
            0 <= j < m@.entries.len() ==> (#[trigger] m@.entries[j]).state != ConnState::Connected)
            ==> r == Err::<u16, Errno>(Errno::EPIPE),
{
    if h == 0 && r is Ok {
        let k = choose|k: int| #[trigger]
            sle_conn::connected_at(m@.entries, k) && m@.entries[k].handle == r->Ok_0;
        assert(m@.entries[k].state == ConnState::Connected);
        if 0 <= i < m@.entries.len() && m@.entries[i].state == ConnState::Connected {
            assert(k <= i);
            assert(i <= k || !(forall|j: int|
                0 <= j < i ==> (#[trigger] m@.entries[j]).state != ConnState::Connected));
        }
    }
    if h == 0 && r is Err && 0 <= i < m@.entries.len() {
        assert(m@.entries[i].state != ConnState::Connected);
    }
}

/// A connection that has been silent for longer than its time is reported, and no other: its
/// time without traffic is counted modulo 2^64.
pub proof fn silence_is_noticed(
    m: &ConnManager,
    now: u64,
    timeouts: &[u64],
    out: &mut [u16; 8],
    r: usize,
    i: int,
)
    requires
        call_ensures(ConnManager::check_supervision_timeouts, (m, now, timeouts, out), r),
        m.wf(),
        timeouts@.len() == m@.entries.len(),
        0 <= i < m@.entries.len(),
    ensures
        r <= m@.entries.len(),
        (exists|k: int| 0 <= k < r && #[trigger] final(out)@[k] == m@.entries[i].handle) <==> {
            let e = m@.entries[i];
            &&& e.state == ConnState::Connected
            &&& e.last_activity != 0
            &&& e.params.supervision_timeout != 0
            &&& (now - e.last_activity) % 0x1_0000_0000_0000_0000 > timeouts@[i]
        },
{
    let s = m@.entries;
    let x = sle_conn::expired(s, now, timeouts@);
    let h = s[i].handle;
    expired_exact(s, now, timeouts@, h);
    m.invariants();
    let d = now - s[i].last_activity;
    assert(d % 0x1_0000_0000_0000_0000 == s[i].elapsed(now));
    if x.contains(h) {
        let k = choose|k: int| 0 <= k < x.len() && x[k] == h;
        assert(final(out)@[k] == h);
        let j = choose|j: int|
            0 <= j < s.len() && (#[trigger] s[j]).handle == h && s[j].expired(now, timeouts@[j]);
        if j < i {
            assert(s[j].handle != s[i].handle);
        } else if i < j {
            assert(s[i].handle != s[j].handle);
        }
    }
    if exists|k: int| 0 <= k < r && #[trigger] final(out)@[k] == h {
        let k = choose|k: int| 0 <= k < r && #[trigger] final(out)@[k] == h;
        assert(x[k] == h);
    }
    if s[i].expired(now, timeouts@[i]) {
        assert(x.contains(h));
    }
}

proof fn expired_exact(s: Seq<ConnModel>, now: u64, t: Seq<u64>, h: u16)
    ensures
        sle_conn::expired(s, now, t).contains(h) <==> exists|i: int|
            0 <= i < s.len() && (#[trigger] s[i]).handle == h && s[i].expired(now, t[i]),
        sle_conn::expired(s, now, t).len() <= s.len(),
    decreases s.len(),
{
    if s.len() > 0 {
        let u = s.drop_last();
        expired_exact(u, now, t, h);
        let a = sle_conn::expired(s, now, t);
        let b = sle_conn::expired(u, now, t);
        if s.last().expired(now, t[s.len() - 1]) {
            assert(a == b.push(s.last().handle));
            assert(a[b.len() as int] == s.last().handle);
            if b.contains(h) {
                let k = choose|k: int| 0 <= k < b.len() && b[k] == h;
                assert(a[k] == h);
            }
            if a.contains(h) {
                let k = choose|k: int| 0 <= k < a.len() && a[k] == h;
                if k < b.len() {
                    assert(b[k] == h);
                }
            }
        }
        if exists|i: int|
            0 <= i < s.len() && (#[trigger] s[i]).handle == h && s[i].expired(now, t[i]) {
            let i = choose|i: int|
                0 <= i < s.len() && (#[trigger] s[i]).handle == h && s[i].expired(now, t[i]);
            if i < u.len() {
                assert(u[i] == s[i]);
            }
        }
        if exists|i: int|
            0 <= i < u.len() && (#[trigger] u[i]).handle == h && u[i].expired(now, t[i]) {
            let i = choose|i: int|
                0 <= i < u.len() && (#[trigger] u[i]).handle == h && u[i].expired(now, t[i]);
            assert(s[i] == u[i]);
        }
    }
}

/// The time until a supervised connection is given up next is the shortest that is left.
pub proof fn next_check(m: &ConnManager, now: u64, timeouts: &[u64], r: Option<u64>, i: int)
    requires
        call_ensures(ConnManager::next_supervision_jiffies, (m, now, timeouts), r),
        timeouts@.len() == m@.entries.len(),
        0 <= i < m@.entries.len(),
        m@.entries[i].state == ConnState::Connected,
        m@.entries[i].last_activity != 0,
        m@.entries[i].params.supervision_timeout != 0,
        (now - m@.entries[i].last_activity) % 0x1_0000_0000_0000_0000 < timeouts@[i],
    ensures
        r matches Some(x) && x > 0 && x <= timeouts@[i] - (now - m@.entries[i].last_activity)
            % 0x1_0000_0000_0000_0000,
{
    let e = m@.entries[i];
    let d = now - e.last_activity;
    assert(d % 0x1_0000_0000_0000_0000 == e.elapsed(now));
    assert(e.running(now, timeouts@[i]));
}

/// The times of supervision are ten milliseconds for each unit that was agreed on.
pub proof fn supervision_times(m: &ConnManager, r: Vec<u32>, i: int)
    requires
        call_ensures(ConnManager::supervision_timeouts_ms, (m,), r),
        0 <= i < m@.entries.len(),
    ensures
        r@.len() == m@.entries.len(),
        r@[i] == 10 * m@.entries[i].params.supervision_timeout,
{
}

/// A credit is taken for a message to send on a reliable channel; without one it must wait.
pub proof fn credit_for_sending(
    m: &mut ConnManager,
    h: u16,
    tcid: u16,
    r: Result<(), Errno>,
    i: int,
)
    requires
        call_ensures(ConnManager::consume_tx_credit, (m, h, tcid), r),
        m.wf(),
    ensures
        gone(old(m)@, h) ==> r == Err::<(), Errno>(Errno::ENOENT) && final(m)@ == old(m)@,
        at(old(m)@, h, i) && tcid != 0x02 && tcid != 0x0A && tcid != 0x1F ==> r == Err::<
            (),
            Errno,
        >(Errno::EINVAL) && final(m)@ == old(m)@,
        at(old(m)@, h, i) && tcid == 0x0A && old(m)@.entries[i].channels.svc_mgmt.mode
            == crate::conn_channel::TransportMode::Reliable ==> {
            let o = old(m)@.entries[i].channels;
            let c = final(m)@.entries[i].channels;
            &&& only(old(m)@, final(m)@, i)
            &&& o.svc_mgmt.tx_credits == 0 ==> r == Err::<(), Errno>(Errno::EAGAIN)
                && c.svc_mgmt.tx_credits == 0
            &&& o.svc_mgmt.tx_credits > 0 ==> r == Ok::<(), Errno>(()) && c.svc_mgmt.tx_credits
                == o.svc_mgmt.tx_credits - 1
            &&& c.svc_mgmt.rx_credits == o.svc_mgmt.rx_credits
            &&& c.mgmt == o.mgmt
            &&& c.data == o.data
        },
{
    if at(m@, h, i) {
        place(*m, h, i);
    }
}

/// Credits that the peer grants are added to those of the channel, up to 65535.
pub proof fn credits_are_added(
    m: &mut ConnManager,
    h: u16,
    n: u16,
    r: Result<(), Errno>,
    i: int,
)
    requires
        call_ensures(ConnManager::receive_credits, (m, h, 0x0A, n), r),
        m.wf(),
        at(m@, h, i),
    ensures
        r == Ok::<(), Errno>(()),
        only(old(m)@, final(m)@, i),
        ({
            let o = old(m)@.entries[i].channels;
            let c = final(m)@.entries[i].channels;
            &&& c.svc_mgmt.tx_credits == (if o.svc_mgmt.tx_credits + n <= 65535 {
                o.svc_mgmt.tx_credits + n
            } else {
                65535
            })
            &&& c.svc_mgmt.rx_credits == o.svc_mgmt.rx_credits
            &&& c.mgmt == o.mgmt
            &&& c.data == o.data
        }),
{
    place(*m, h, i);
}

/// The peer is granted sixteen credits at a time, each grant under a number of its own.
pub proof fn credits_are_granted(
    m: &mut ConnManager,
    h: u16,
    r: Result<(u16, u8), Errno>,
    i: int,
)
    requires
        call_ensures(ConnManager::grant_credits, (m, h, 0x0A), r),
        m.wf(),
        at(m@, h, i),
    ensures
        r matches Ok(g) && g.0 == 16 && g.1 == old(m)@.entries[i].channels.credit_grant_id,
        only(old(m)@, final(m)@, i),
        ({
            let o = old(m)@.entries[i].channels;
            let c = final(m)@.entries[i].channels;
            &&& c.credit_grant_id != o.credit_grant_id
            &&& o.credit_grant_id < 255 ==> c.credit_grant_id == o.credit_grant_id + 1
            &&& o.svc_mgmt.rx_credits <= 65519 ==> c.svc_mgmt.rx_credits == o.svc_mgmt.rx_credits
                + 16
            &&& c.svc_mgmt.tx_credits == o.svc_mgmt.tx_credits
            &&& c.mgmt == o.mgmt
            &&& c.data == o.data
        }),
{
    place(*m, h, i);
}

/// The channels that a connection hops over are those that were set, at least two.
pub proof fn map_is_set(
    m: &mut ConnManager,
    h: u16,
    map: ChannelMap,
    min: u8,
    r: Result<(), Errno>,
    n: &ConnManager,
    g: Result<ChannelMap, Errno>,
    i: int,
)
    requires
        call_ensures(ConnManager::set_channel_map, (m, h, map, min), r),
        m.wf(),
        map.wf(),
        at(m@, h, i),
        m@.entries[i].state == ConnState::Connected,
        *n == *final(m),
        call_ensures(ConnManager::get_channel_map, (n, h), g),
    ensures
        r is Ok ==> (g matches Ok(c) && c@ == map@),
        r is Err ==> r->Err_0 == Errno::EINVAL && final(m)@ == old(m)@,
        r is Ok ==> only(old(m)@, final(m)@, i),
{
    place(*m, h, i);
    place(*n, h, i);
}

/// A service message goes to the session of an established connection only.
pub proof fn service_needs_a_connection(
    m: &mut ConnManager,
    h: u16,
    pdu: &[u8],
    db: &mut SsapInner,
    buf: &mut [u8],
    r: Result<usize, Errno>,
    i: int,
)
    requires
        call_ensures(ConnManager::process_ssap_pdu, (m, h, pdu, db, buf), r),
        m.wf(),
    ensures
        gone(old(m)@, h) ==> r == Err::<usize, Errno>(Errno::ENOENT) && final(m)@ == old(m)@,
        at(old(m)@, h, i) && old(m)@.entries[i].state != ConnState::Connected ==> r == Err::<
            usize,
            Errno,
        >(Errno::EPIPE) && final(m)@ == old(m)@ && final(db)@ == old(db)@,
        at(old(m)@, h, i) && old(m)@.entries[i].state == ConnState::Connected
            && old(m)@.entries[i].session is None ==> r == Err::<usize, Errno>(Errno::ENODEV)
            && final(m)@ == old(m)@ && final(db)@ == old(db)@,
{
    if at(m@, h, i) {
        place(*m, h, i);
    }
}

} // verus!
