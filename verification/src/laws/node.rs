//! Further laws of the connections of a node: credits, hopping and what is asked of them.

use vstd::prelude::*;

use crate::conn_afh::AfhState;
use crate::conn_channel::{ChannelSet, TransportChannel, TransportMode};
use crate::conn_queue::DataRingBuffer;
use crate::conn_types::{ConnState, PeerCapability};
use crate::errno::Errno;
use crate::laws::conn::{at, gone, left, only, place};
use crate::sle_conn;
use crate::sle_conn::ConnManager;
use crate::sle_phy;
use crate::sle_phy::ChannelMap;
use crate::sle_ssap::SsapInner;
use crate::ssap_session::SsapSession;

verus! {

/// The channel of an identifier.
pub open spec fn chan(c: ChannelSet, id: u16) -> TransportChannel {
    if id == 0x02 {
        c.mgmt
    } else if id == 0x0A {
        c.svc_mgmt
    } else {
        c.data
    }
}

/// Whether an identifier is that of a channel.
pub open spec fn is_channel(id: u16) -> bool {
    id == 0x02 || id == 0x0A || id == 0x1F
}

/// Whether the channels but that of an identifier stayed as they were.
pub open spec fn other_channels(a: ChannelSet, b: ChannelSet, id: u16) -> bool {
    &&& id != 0x02 ==> b.mgmt == a.mgmt
    &&& id != 0x0A ==> b.svc_mgmt == a.svc_mgmt
    &&& id != 0x1F ==> b.data == a.data
}

/// Sending on a reliable channel takes one of its credits, and none of another channel.
pub proof fn sending_takes_a_credit(
    m: &mut ConnManager,
    h: u16,
    id: u16,
    r: Result<(), Errno>,
    i: int,
)
    requires
        call_ensures(ConnManager::consume_tx_credit, (m, h, id), r),
        m.wf(),
        at(m@, h, i),
        is_channel(id),
    ensures
        only(old(m)@, final(m)@, i),
        ({
            let o = old(m)@.entries[i].channels;
            let c = final(m)@.entries[i].channels;
            &&& other_channels(o, c, id)
            &&& chan(o, id).mode == TransportMode::Reliable && chan(o, id).tx_credits > 0 ==> r is Ok
                && chan(c, id).tx_credits == chan(o, id).tx_credits - 1
            &&& chan(o, id).mode == TransportMode::Reliable && chan(o, id).tx_credits == 0 ==> r
                == Err::<(), Errno>(Errno::EAGAIN)
            &&& chan(o, id).mode != TransportMode::Reliable ==> r is Ok && chan(c, id).tx_credits
                == chan(o, id).tx_credits
            &&& chan(c, id).rx_credits == chan(o, id).rx_credits
        }),
{
    place(*m, h, i);
}

/// Receiving on a reliable channel takes one of the credits that the peer was granted, and
/// tells when fewer than four are left.
pub proof fn receiving_takes_a_credit(
    m: &mut ConnManager,
    h: u16,
    id: u16,
    now: u64,
    r: bool,
    i: int,
)
    requires
        call_ensures(ConnManager::consume_rx_credit, (m, h, id, now), r),
        m.wf(),
    ensures
        gone(old(m)@, h) ==> !r && final(m)@ == old(m)@,
        at(old(m)@, h, i) ==> only(old(m)@, final(m)@, i) && final(m)@.entries[i].last_activity
            == now,
        at(old(m)@, h, i) && is_channel(id) ==> {
            let o = old(m)@.entries[i].channels;
            let c = final(m)@.entries[i].channels;
            &&& other_channels(o, c, id)
            &&& chan(c, id).tx_credits == chan(o, id).tx_credits
            &&& chan(o, id).mode == TransportMode::Reliable ==> chan(c, id).rx_credits == (if chan(
                o,
                id,
            ).rx_credits > 0 {
                chan(o, id).rx_credits - 1
            } else {
                0
            })
            &&& chan(o, id).mode != TransportMode::Reliable ==> !r && chan(c, id).rx_credits
                == chan(o, id).rx_credits
            &&& chan(o, id).mode == TransportMode::Reliable ==> (r <==> chan(c, id).rx_credits < 4)
        },
{
    if at(m@, h, i) {
        place(*m, h, i);
    }
}

/// Credits of a channel are told as they are.
pub proof fn credits_are_told(
    m: &ConnManager,
    h: u16,
    id: u16,
    r: Option<(u16, u16)>,
    i: int,
)
    requires
        call_ensures(ConnManager::channel_credits, (m, h, id), r),
        m.wf(),
    ensures
        gone(m@, h) ==> r is None,
        at(m@, h, i) ==> (r is Some <==> is_channel(id)),
        at(m@, h, i) && is_channel(id) ==> r == Some(
            (chan(m@.entries[i].channels, id).tx_credits, chan(m@.entries[i].channels, id).rx_credits),
        ),
{
    if at(m@, h, i) {
        place(*m, h, i);
    }
}

/// Credits that the peer grants, and those granted to it, go to the channel that is named.
pub proof fn credits_go_to_their_channel(
    m: &mut ConnManager,
    n: &mut ConnManager,
    h: u16,
    id: u16,
    k: u16,
    r: Result<(), Errno>,
    s: Result<(u16, u8), Errno>,
    i: int,
)
    requires
        call_ensures(ConnManager::receive_credits, (m, h, id, k), r),
        call_ensures(ConnManager::grant_credits, (n, h, id), s),
        m.wf(),
        n.wf(),
        at(m@, h, i),
        at(n@, h, i),
        is_channel(id),
    ensures
        r is Ok && s is Ok,
        only(old(m)@, final(m)@, i) && only(old(n)@, final(n)@, i),
        ({
            let o = old(m)@.entries[i].channels;
            let c = final(m)@.entries[i].channels;
            &&& other_channels(o, c, id)
            &&& chan(o, id).tx_credits + k <= 65535 ==> chan(c, id).tx_credits == chan(
                o,
                id,
            ).tx_credits + k
            &&& chan(c, id).rx_credits == chan(o, id).rx_credits
        }),
        ({
            let o = old(n)@.entries[i].channels;
            let c = final(n)@.entries[i].channels;
            &&& other_channels(o, c, id)
            &&& chan(o, id).rx_credits <= 65519 ==> chan(c, id).rx_credits == chan(
                o,
                id,
            ).rx_credits + 16
            &&& chan(c, id).tx_credits == chan(o, id).tx_credits
        }),
{
    place(*m, h, i);
    place(*n, h, i);
}

/// A connection hops over its own channels; its count and its place go on.
pub proof fn connection_hops(
    m: &mut ConnManager,
    h: u16,
    r: Result<(u8, u16, u16), Errno>,
    i: int,
)
    requires
        call_ensures(ConnManager::hop_next, (m, h), r),
        m.wf(),
    ensures
        gone(old(m)@, h) ==> r == Err::<(u8, u16, u16), Errno>(Errno::ENOENT) && final(m)@ == old(m)@,
        at(old(m)@, h, i) && old(m)@.entries[i].state != ConnState::Connected ==> r == Err::<
            (u8, u16, u16),
            Errno,
        >(Errno::EPIPE) && final(m)@ == old(m)@,
        at(old(m)@, h, i) && old(m)@.entries[i].state == ConnState::Connected ==> {
            let o = old(m)@.entries[i].afh.hopping;
            let c = final(m)@.entries[i].afh.hopping;
            let aim = (o.last_channel + o.hop_increment) % 79;
            &&& r matches Ok(x) && x.0 < 79 && x.1 == 2402 + x.0 && x.2 == (o.event_counter + 1)
                % 65536 && c.last_channel == x.0 && c.event_counter == x.2 && (
            o.channel_map@[aim] ==> x.0 == aim)
            &&& only(old(m)@, final(m)@, i)
            &&& c.channel_map == o.channel_map && c.hop_increment == o.hop_increment
        },
{
    if at(m@, h, i) {
        place(*m, h, i);
    }
}

/// What is measured on a channel of a connection counts for that channel of that connection.
pub proof fn connection_is_measured(
    m: &mut ConnManager,
    h: u16,
    ch: u8,
    dbm: i8,
    r: Result<(), Errno>,
    i: int,
    c: int,
)
    requires
        call_ensures(ConnManager::report_rssi, (m, h, ch, dbm), r),
        m.wf(),
        0 <= c < 79,
    ensures
        gone(old(m)@, h) ==> r == Err::<(), Errno>(Errno::ENOENT) && final(m)@ == old(m)@,
        at(old(m)@, h, i) ==> (r is Ok <==> ch < 79),
        at(old(m)@, h, i) && ch >= 79 ==> r->Err_0 == Errno::EINVAL && final(m)@ == old(m)@,
        at(old(m)@, h, i) && ch < 79 ==> {
            let o = old(m)@.entries[i].afh;
            let a = final(m)@.entries[i].afh;
            &&& only(old(m)@, final(m)@, i)
            &&& c != ch ==> a.rssi_acc@[c] == o.rssi_acc@[c] && a.samples@[c] == o.samples@[c]
            &&& c == ch && o.samples@[c] < 65535 ==> a.samples@[c] == o.samples@[c] + 1
            &&& c == ch && -1000000 <= o.rssi_acc@[c] <= 1000000 ==> a.rssi_acc@[c]
                == o.rssi_acc@[c] + 10 * dbm
            &&& a.retx_score@ == o.retx_score@ && a.hopping == o.hopping
        },
{
    if at(m@, h, i) {
        place(*m, h, i);
    }
}

/// Transmissions on a channel of a connection count for that channel: three for one that was
/// repeated, one less for one that was not.
pub proof fn connection_is_scored(
    m: &mut ConnManager,
    h: u16,
    ch: u8,
    again: bool,
    r: Result<(), Errno>,
    i: int,
    c: int,
)
    requires
        call_ensures(ConnManager::report_retx, (m, h, ch, again), r),
        m.wf(),
        0 <= c < 79,
    ensures
        gone(old(m)@, h) ==> r == Err::<(), Errno>(Errno::ENOENT) && final(m)@ == old(m)@,
        at(old(m)@, h, i) ==> (r is Ok <==> ch < 79),
        at(old(m)@, h, i) && ch >= 79 ==> r->Err_0 == Errno::EINVAL && final(m)@ == old(m)@,
        at(old(m)@, h, i) && ch < 79 ==> only(old(m)@, final(m)@, i),
        at(old(m)@, h, i) && ch < 79 && !again ==> final(m)@.entries[i].afh.retx_score@[c] <= old(m)@.entries[i].afh.retx_score@[c],
        at(old(m)@, h, i) && ch < 79 && old(m)@.entries[i].afh.auto_classify_threshold == 0 ==> {
            let o = old(m)@.entries[i].afh;
            let a = final(m)@.entries[i].afh;
            &&& c != ch ==> a.retx_score@[c] == o.retx_score@[c]
            &&& c == ch && again && o.retx_score@[c] <= 252 ==> a.retx_score@[c]
                == o.retx_score@[c] + 3
            &&& c == ch && again && o.retx_score@[c] > 252 ==> a.retx_score@[c] == 255
            &&& c == ch && !again && o.retx_score@[c] > 0 ==> a.retx_score@[c] == o.retx_score@[c]
                - 1
            &&& a.hopping == o.hopping
        },
{
    if at(m@, h, i) {
        place(*m, h, i);
    }
}

/// How often a connection classifies its channels on its own is what it is told.
pub proof fn automatic_classification_is_set(
    m: &mut ConnManager,
    h: u16,
    n: u16,
    r: Result<(), Errno>,
    i: int,
)
    requires
        call_ensures(ConnManager::set_auto_classify, (m, h, n), r),
        m.wf(),
    ensures
        gone(old(m)@, h) ==> r == Err::<(), Errno>(Errno::ENOENT) && final(m)@ == old(m)@,
        at(old(m)@, h, i) ==> r is Ok && only(old(m)@, final(m)@, i) && final(m)@.entries[i].afh
            == (AfhState { auto_classify_threshold: n, ..old(m)@.entries[i].afh }),
{
    if at(m@, h, i) {
        place(*m, h, i);
    }
}

/// A connection that classifies its channels hops over the map that is told: channels that
/// are good stay as they were, and bad ones are taken out as far as enough are left.
pub proof fn connection_classifies(
    m: &mut ConnManager,
    h: u16,
    dbm: i8,
    min: u8,
    r: Result<ChannelMap, Errno>,
    i: int,
    c: int,
)
    requires
        call_ensures(ConnManager::classify_channels, (m, h, dbm, min), r),
        m.wf(),
        0 <= c < 79,
    ensures
        gone(old(m)@, h) ==> r is Err && r->Err_0 == Errno::ENOENT && final(m)@ == old(m)@,
        at(old(m)@, h, i) && old(m)@.entries[i].state != ConnState::Connected ==> r is Err
            && r->Err_0 == Errno::EPIPE && final(m)@ == old(m)@,
        at(old(m)@, h, i) && old(m)@.entries[i].state == ConnState::Connected ==> {
            let o = old(m)@.entries[i].afh;
            let a = final(m)@.entries[i].afh;
            let bad = (o.samples@[c] > 0 && o.rssi_acc@[c] < 10 * dbm * o.samples@[c])
                || o.retx_score@[c] >= 5;
            &&& r matches Ok(map) && map == a.hopping.channel_map
            &&& only(old(m)@, final(m)@, i)
            &&& !bad ==> a.hopping.channel_map@[c] == o.hopping.channel_map@[c]
            &&& bad && a.hopping.channel_map@[c] ==> sle_phy::marked_below(
                a.hopping.channel_map@,
                79,
            ) <= 2 || sle_phy::marked_below(a.hopping.channel_map@, 79) <= min
            &&& a.retx_score@[c] == 0 && a.samples@[c] == 0 && a.rssi_acc@[c] == 0
        },
{
    if at(m@, h, i) {
        place(*m, h, i);
    }
}

/// Where the controller refuses the connection to an address, the first that waits is gone.
pub proof fn refused_by_address(m: &mut ConnManager, addr: &[u8; 6], i: int)
    requires
        call_ensures(ConnManager::abort_connecting_by_addr, (m, addr), ()),
        m.wf(),
        0 <= i < m@.entries.len(),
        m@.entries[i].peer_addr == addr@,
        m@.entries[i].state == ConnState::ConnectPending,
        forall|j: int|
            0 <= j < i ==> !((#[trigger] m@.entries[j]).peer_addr == addr@ && m@.entries[j].state
                == ConnState::ConnectPending),
    ensures
        left(old(m)@, final(m)@, i),
{
    let s = m@.entries;
    assert(sle_conn::pending_at(s, addr@, i));
    let k = sle_conn::pending_pos(s, addr@);
    assert(sle_conn::pending_at(s, addr@, k));
    assert(k == i);
    m.invariants();
    let t = final(m)@.entries;
    assert forall|j: int| 0 <= j < t.len() implies (#[trigger] t[j]).handle != s[i].handle by {
        if j < i {
            assert(t[j] == s[j]);
            assert(s[j].handle != s[i].handle);
        } else {
            assert(t[j] == s[j + 1]);
            assert(s[i].handle != s[j + 1].handle);
        }
    }
}

/// Where no connection to an address waits, none is refused.
pub proof fn nothing_to_refuse(m: &mut ConnManager, addr: &[u8; 6])
    requires
        call_ensures(ConnManager::abort_connecting_by_addr, (m, addr), ()),
        forall|j: int|
            0 <= j < m@.entries.len() ==> !((#[trigger] m@.entries[j]).peer_addr == addr@
                && m@.entries[j].state == ConnState::ConnectPending),
    ensures
        final(m)@ == old(m)@,
{
    if sle_conn::has_pending(m@.entries, addr@) {
        let k = choose|k: int| sle_conn::pending_at(m@.entries, addr@, k);
        assert(m@.entries[k].peer_addr == addr@);
    }
}

/// The first connection that is established is the one that is meant where none is named.
pub proof fn first_established(m: &ConnManager, r: Option<u16>, n: usize)
    requires
        call_ensures(ConnManager::first_active_handle, (m,), r),
        call_ensures(ConnManager::slot_count, (m,), n),
    ensures
        n == m@.entries.len(),
        r is None <==> (forall|i: int|
            0 <= i < m@.entries.len() ==> (#[trigger] m@.entries[i]).state != ConnState::Connected),
        r matches Some(h) ==> exists|i: int|
            0 <= i < m@.entries.len() && (#[trigger] m@.entries[i]).handle == h
                && m@.entries[i].state == ConnState::Connected && (forall|j: int|
                0 <= j < i ==> (#[trigger] m@.entries[j]).state != ConnState::Connected),
{
    if r is Some {
        let i = choose|i: int| #[trigger]
            sle_conn::connected_at(m@.entries, i) && m@.entries[i].handle == r->0;
        assert(m@.entries[i].handle == r->0);
    }
}

/// The size that was agreed on for services is told for each connection that has a session.
pub proof fn session_is_told(m: &ConnManager, h: u16, r: Option<(u16, bool)>, i: int)
    requires
        call_ensures(ConnManager::ssap_session_info, (m, h), r),
        m.wf(),
    ensures
        gone(m@, h) ==> r is None,
        at(m@, h, i) ==> (r is Some <==> m@.entries[i].session is Some),
        at(m@, h, i) && r is Some ==> (r->0).0 == (m@.entries[i].session->0).mtu && (r->0).1 == (
        m@.entries[i].session->0).info_exchanged,
{
    if at(m@, h, i) {
        place(*m, h, i);
    }
}

/// What a connection does with a message of services is what its session does with it.
pub proof fn session_answers(
    m: &mut ConnManager,
    h: u16,
    data: &[u8],
    db: &mut SsapInner,
    buf: &mut [u8],
    r: Result<usize, Errno>,
    s: &mut SsapSession,
    db2: &mut SsapInner,
    buf2: &mut [u8],
    q: Result<usize, Errno>,
    i: int,
)
    requires
        call_ensures(ConnManager::process_ssap_pdu, (m, h, data, db, buf), r),
        m.wf(),
        at(m@, h, i),
        m@.entries[i].state == ConnState::Connected,
        m@.entries[i].session == Some(s@),
        db2@ == db@,
        buf2@ == buf@,
        call_ensures(SsapSession::process_incoming, (s, db2, data, buf2), q),
        q is Ok,
    ensures
        r == q,
        final(db)@ == final(db2)@,
        final(buf)@ == final(buf2)@,
        final(m)@.entries[i].session == Some(final(s)@),
        only(old(m)@, final(m)@, i),
{
    place(*m, h, i);
}

/// What the peer said of itself is kept, and its features are told bit by bit.
pub proof fn peer_is_known(
    a: &mut PeerCapability,
    b: &mut PeerCapability,
    c: &PeerCapability,
    f: [u8; 10],
    v: u8,
    x: u16,
    y: u16,
    k: u8,
    r: bool,
)
    requires
        call_ensures(PeerCapability::set_features, (a, f), ()),
        call_ensures(PeerCapability::set_version, (b, v, x, y), ()),
        call_ensures(PeerCapability::has_feature, (c, k), r),
    ensures
        final(a).features == f && final(a).features_valid && final(a).version == old(a).version,
        final(b).version == v && final(b).manufacturer == x && final(b).subversion == y
            && final(b).version_valid && final(b).features == old(b).features,
        k >= 80 ==> !r,
        k < 80 && c.features@[k as int / 8] == 0 ==> !r,
        k < 80 && c.features@[k as int / 8] == 0xFF ==> r,
{
    let t = k % 8;
    assert(t < 8 ==> 0u8 & (1u8 << t) == 0 && 0xFFu8 & (1u8 << t) != 0) by (bit_vector);
}

/// A queue of messages starts empty and tells its length.
pub proof fn queue_tells(n: DataRingBuffer, q: &DataRingBuffer, a: usize, b: bool)
    requires
        call_ensures(DataRingBuffer::new, (), n),
        call_ensures(DataRingBuffer::len, (q,), a),
        call_ensures(DataRingBuffer::is_empty, (q,), b),
    ensures
        n@.len() == 0,
        a == q@.len(),
        b <==> a == 0,
{
}

} // verus!
