//! The connections of a node.

use vstd::prelude::*;

use crate::bytes;
use crate::conn_afh::AfhState;
use crate::conn_channel;
use crate::conn_channel::{ChannelSet, SeqTracker};
use crate::conn_queue::{DataRingBuffer, CONN_DATA_MAX, QUEUE_DEPTH};
use crate::conn_types;
use crate::conn_types::{
    AccessCapability, AccessResponseType, ConnState, GtRole, NegotiatedParams, PeerCapability,
};
use crate::errno::Errno;
use crate::sle_phy;
use crate::sle_phy::{ChannelMap, HoppingState};
use crate::sle_ssap::SsapInner;
use crate::ssap_pdu;
use crate::ssap_session;
use crate::ssap_session::{SessionModel, SsapSession};
use crate::sync_link;
use crate::sync_link::{
    SyncBigParams, SyncBigResult, SyncCigParams, SyncCigResult, SyncLinkEntry, SyncLinkType,
    SyncLinks,
};

verus! {

/// Most connections at a time.
pub const MAX_CONNECTIONS: usize = 8;

/// Handle of no connection.
pub const INVALID_HANDLE: u16 = 0xFFFF;

/// Shortest message size that a data channel may be set to.
pub const MIN_DATA_MTU: u16 = 23;

/// One connection.
pub struct ConnEntry {
    /// Handle.
    pub handle: u16,
    /// State.
    pub state: ConnState,
    /// Address of the peer.
    pub peer_addr: [u8; 6],
    /// Role of this node.
    pub local_role: GtRole,
    /// What this node offers.
    pub local_cap: AccessCapability,
    /// What the nodes agreed on.
    pub params: NegotiatedParams,
    /// What the peer told about itself.
    pub peer_cap: PeerCapability,
    /// Transport channels.
    pub channels: ChannelSet,
    /// Service session, once connected.
    pub ssap_session: Option<SsapSession>,
    /// Sequence numbers of the data link.
    pub seq: SeqTracker,
    /// Messages to the peer.
    pub tx_queue: DataRingBuffer,
    /// Messages from the peer.
    pub rx_queue: DataRingBuffer,
    /// Most messages of a queue.
    pub queue_max: usize,
    /// Bytes sent.
    pub tx_bytes: u64,
    /// Bytes received.
    pub rx_bytes: u64,
    /// Time of the last traffic, 0 for none.
    pub last_activity: u64,
    /// Frequency hopping.
    pub afh: AfhState,
}

/// One connection as a value.
#[verifier::ext_equal]
pub struct ConnModel {
    /// Handle.
    pub handle: u16,
    /// State.
    pub state: ConnState,
    /// Address of the peer.
    pub peer_addr: Seq<u8>,
    /// Role of this node.
    pub local_role: GtRole,
    /// What this node offers.
    pub local_cap: AccessCapability,
    /// What the nodes agreed on.
    pub params: NegotiatedParams,
    /// What the peer told about itself.
    pub peer_cap: PeerCapability,
    /// Transport channels.
    pub channels: ChannelSet,
    /// Service session, once connected.
    pub session: Option<SessionModel>,
    /// Sequence numbers of the data link.
    pub seq: SeqTracker,
    /// Messages to the peer, oldest first.
    pub tx_queue: Seq<Seq<u8>>,
    /// Messages from the peer, oldest first.
    pub rx_queue: Seq<Seq<u8>>,
    /// Bytes sent.
    pub tx_bytes: u64,
    /// Bytes received.
    pub rx_bytes: u64,
    /// Time of the last traffic, 0 for none.
    pub last_activity: u64,
    /// Frequency hopping.
    pub afh: AfhState,
}

/// The model of a session, if there is one.
pub open spec fn session_view(s: Option<SsapSession>) -> Option<SessionModel> {
    match s {
        Some(x) => Some(x@),
        None => None,
    }
}

impl View for ConnEntry {
    type V = ConnModel;

    open spec fn view(&self) -> ConnModel {
        ConnModel {
            handle: self.handle,
            state: self.state,
            peer_addr: self.peer_addr@,
            local_role: self.local_role,
            local_cap: self.local_cap,
            params: self.params,
            peer_cap: self.peer_cap,
            channels: self.channels,
            session: session_view(self.ssap_session),
            seq: self.seq,
            tx_queue: self.tx_queue@,
            rx_queue: self.rx_queue@,
            tx_bytes: self.tx_bytes,
            rx_bytes: self.rx_bytes,
            last_activity: self.last_activity,
            afh: self.afh,
        }
    }
}

impl ConnModel {
    /// Whether this is a connection of handle `h` on which nothing has happened.
    pub open spec fn fresh(self, h: u16) -> bool {
        &&& self.handle == h
        &&& self.state == ConnState::Idle
        &&& self.peer_addr =~= bytes::zeros(6)
        &&& self.local_role == GtRole::TNode
        &&& self.local_cap == conn_types::default_capability()
        &&& self.params == conn_types::default_params()
        &&& self.peer_cap.unknown()
        &&& self.channels == conn_channel::channels_start()
        &&& self.session is None
        &&& self.seq == (SeqTracker { tx_seq: 0, rx_seq: 0, modulus: 2 })
        &&& self.tx_queue.len() == 0
        &&& self.rx_queue.len() == 0
        &&& self.tx_bytes == 0
        &&& self.rx_bytes == 0
        &&& self.last_activity == 0
        &&& self.afh.fresh()
    }

    /// The connection after the peer accepted it.
    pub open spec fn accepted(self, params: NegotiatedParams, now: u64) -> ConnModel {
        ConnModel {
            params,
            channels: self.channels.negotiated(params.max_pdu_size, 512).all_opened(),
            session: Some(ssap_session::session_start(self.handle)),
            state: ConnState::Connected,
            last_activity: now,
            ..self
        }
    }

    /// The connection after a message was queued for the peer.
    pub open spec fn sent(self, data: Seq<u8>, now: u64) -> ConnModel {
        ConnModel {
            tx_queue: self.tx_queue.push(data),
            seq: self.seq.tx_advanced(),
            tx_bytes: (self.tx_bytes + data.len()) as u64,
            last_activity: now,
            ..self
        }
    }

    /// Whether a message of sequence number `seq` is the one expected next.
    pub open spec fn expects(self, seq: u8) -> bool {
        seq % self.seq.modulus == self.seq.rx_seq
    }

    /// The connection after a message of sequence number `seq` arrived: a message out
    /// of sequence is dropped, and the oldest one where the queue is full.
    pub open spec fn received(self, data: Seq<u8>, seq: u8, now: u64) -> ConnModel {
        if self.expects(seq) {
            ConnModel {
                rx_queue: (if self.rx_queue.len() >= 64 {
                    self.rx_queue.drop_first()
                } else {
                    self.rx_queue
                }).push(bytes::prefix(data, 255)),
                seq: self.seq.rx_advanced(),
                rx_bytes: (self.rx_bytes + data.len()) as u64,
                last_activity: now,
                ..self
            }
        } else {
            self
        }
    }

    /// The connection after parameters were updated; 0 leaves a parameter as it is.
    pub open spec fn with_params(self, interval: u16, latency: u16, timeout: u16, now: u64) -> ConnModel {
        ConnModel {
            params: NegotiatedParams {
                event_group_period: if interval > 0 {
                    interval
                } else {
                    self.params.event_group_period
                },
                latency_period: if latency > 0 {
                    latency
                } else {
                    self.params.latency_period
                },
                supervision_timeout: if timeout > 0 {
                    timeout
                } else {
                    self.params.supervision_timeout
                },
                ..self.params
            },
            last_activity: now,
            ..self
        }
    }

    /// The connection after the radio parameters were updated; values out of range leave
    /// a parameter as it is.
    pub open spec fn with_phy(self, mcs: u8, bandwidth: u8, now: u64) -> ConnModel {
        ConnModel {
            params: NegotiatedParams {
                mcs_index: if mcs <= 12 {
                    mcs
                } else {
                    self.params.mcs_index
                },
                bandwidth_mhz: if bandwidth == 1 || bandwidth == 2 || bandwidth == 4 {
                    bandwidth
                } else {
                    self.params.bandwidth_mhz
                },
                ..self.params
            },
            last_activity: now,
            ..self
        }
    }

    /// The connection after the packet sizes of both directions changed; the smaller one
    /// holds, unless it is 0.
    pub open spec fn with_data_length(self, tx: u16, rx: u16) -> ConnModel {
        let m = conn_channel::min16(tx, rx);
        if m > 0 {
            ConnModel {
                params: NegotiatedParams { max_pdu_size: m, ..self.params },
                channels: self.channels.negotiated(m, m),
                ..self
            }
        } else {
            self
        }
    }

    /// The connection after the sizes of the data channel were set: segments are never
    /// longer than messages.
    pub open spec fn with_data_mtu(self, mtu: u16, mps: Option<u16>) -> ConnModel {
        let wanted = match mps {
            Some(m) => if m > 0 {
                m
            } else {
                self.channels.data.mps
            },
            None => self.channels.data.mps,
        };
        ConnModel {
            channels: ChannelSet {
                data: conn_channel::TransportChannel {
                    mtu,
                    mps: conn_channel::min16(wanted, mtu),
                    ..self.channels.data
                },
                ..self.channels
            },
            ..self
        }
    }

    /// The connection after it timed out.
    pub open spec fn timed_out(self) -> ConnModel {
        ConnModel {
            channels: self.channels.all_closed(),
            state: ConnState::Idle,
            session: None,
            ..self
        }
    }

    /// Whether the connection is given up after a time without traffic.
    pub open spec fn supervised(self) -> bool {
        self.state == ConnState::Connected && self.last_activity != 0
            && self.params.supervision_timeout != 0
    }

    /// Time since the last traffic; the clock counts modulo 2^64.
    pub open spec fn elapsed(self, now: u64) -> int {
        if now >= self.last_activity {
            now - self.last_activity
        } else {
            now - self.last_activity + 0x1_0000_0000_0000_0000
        }
    }

    /// Whether the connection has been without traffic for longer than `timeout`.
    pub open spec fn expired(self, now: u64, timeout: u64) -> bool {
        self.supervised() && self.elapsed(now) > timeout
    }

    /// Whether the connection is supervised and `timeout` has not passed yet.
    pub open spec fn running(self, now: u64, timeout: u64) -> bool {
        self.supervised() && self.elapsed(now) < timeout
    }
}

impl ConnEntry {
    /// The parts of the entry are well formed.
    pub open spec fn wf(self) -> bool {
        &&& self.tx_queue.wf()
        &&& self.rx_queue.wf()
        &&& self.queue_max == QUEUE_DEPTH
        &&& self.seq.modulus == 2
        &&& self.seq.wf()
        &&& self.afh.hopping.channel_map.wf()
    }

    fn new(handle: u16) -> (r: Self)
        ensures
            r.wf(),
            r@.fresh(handle),
    {
        ConnEntry {
            handle,
            state: ConnState::Idle,
            peer_addr: [0u8; 6],
            local_role: GtRole::TNode,
            local_cap: AccessCapability::default(),
            params: NegotiatedParams::default(),
            peer_cap: PeerCapability::default(),
            channels: ChannelSet::default(),
            ssap_session: None,
            seq: SeqTracker::new_async(),
            tx_queue: DataRingBuffer::new(),
            rx_queue: DataRingBuffer::new(),
            queue_max: QUEUE_DEPTH,
            tx_bytes: 0,
            rx_bytes: 0,
            last_activity: 0,
            afh: AfhState::new(),
        }
    }
}

/// All connections of a node as a value.
#[verifier::ext_equal]
pub struct MgrModel {
    /// Address of this node.
    pub local_addr: Seq<u8>,
    /// Connections, oldest first.
    pub entries: Seq<ConnModel>,
    /// The handle that is tried first for the next connection.
    pub next_handle: u16,
    /// Most connections at a time.
    pub max_connections: usize,
    /// Connections made so far.
    pub total_created: u64,
    /// Connections closed so far.
    pub total_completed: u64,
    /// Synchronous links.
    pub sync: Seq<SyncLinkEntry>,
    /// Handle of the next synchronous link.
    pub next_sync: u16,
}

/// The handle after `h`; 0 and 0xFFFF are no handles of connections.
pub open spec fn handle_succ(h: u16) -> u16 {
    if h >= 0xFFFE {
        1
    } else {
        (h + 1) as u16
    }
}

/// Whether a connection has handle `h`.
pub open spec fn in_use(s: Seq<ConnModel>, h: u16) -> bool {
    exists|i: int| 0 <= i < s.len() && (#[trigger] s[i]).handle == h
}

/// The first handle from `h` on that no connection has, after at most `tries` steps.
pub open spec fn free_handle(s: Seq<ConnModel>, h: u16, tries: nat) -> u16
    decreases tries,
{
    if tries > 0 && in_use(s, h) {
        free_handle(s, handle_succ(h), (tries - 1) as nat)
    } else {
        h
    }
}

/// Handles tell connections apart.
pub open spec fn unique(s: Seq<ConnModel>) -> bool {
    forall|i: int, j: int|
        0 <= i < j < s.len() ==> (#[trigger] s[i]).handle != (#[trigger] s[j]).handle
}

/// The handles of the connections that are not idle, oldest first.
pub open spec fn active(s: Seq<ConnModel>) -> Seq<u16>
    decreases s.len(),
{
    if s.len() == 0 {
        Seq::empty()
    } else if s.last().state != ConnState::Idle {
        active(s.drop_last()).push(s.last().handle)
    } else {
        active(s.drop_last())
    }
}

/// The handles of the connections that have been without traffic for longer than their
/// time in `timeouts`, oldest first.
pub open spec fn expired(s: Seq<ConnModel>, now: u64, timeouts: Seq<u64>) -> Seq<u16>
    decreases s.len(),
{
    if s.len() == 0 {
        Seq::empty()
    } else if s.last().expired(now, timeouts[s.len() - 1]) {
        expired(s.drop_last(), now, timeouts).push(s.last().handle)
    } else {
        expired(s.drop_last(), now, timeouts)
    }
}

/// Whether `after` is `before` with its start overwritten by the handles `x`.
pub open spec fn listed(x: Seq<u16>, before: Seq<u16>, after: Seq<u16>) -> bool {
    &&& after.len() == before.len()
    &&& forall|k: int|
        0 <= k < after.len() ==> #[trigger] after[k] == if k < x.len() {
            x[k]
        } else {
            before[k]
        }
}

/// Whether `r` is the shortest time that is left to a supervised connection, none where none
/// is supervised.
pub open spec fn soonest(s: Seq<ConnModel>, now: u64, timeouts: Seq<u64>, r: Option<u64>) -> bool {
    match r {
        None => forall|i: int|
            0 <= i < s.len() ==> !(#[trigger] s[i]).running(now, timeouts[i]),
        Some(x) => {
            &&& exists|i: int|
                0 <= i < s.len() && (#[trigger] s[i]).running(now, timeouts[i]) && x == timeouts[i]
                    - s[i].elapsed(now)
            &&& forall|i: int|
                0 <= i < s.len() && (#[trigger] s[i]).running(now, timeouts[i]) ==> x
                    <= timeouts[i] - s[i].elapsed(now)
        },
    }
}

/// Whether `i` is the place of the first connection to `addr` that the controller has
/// not yet accepted.
pub open spec fn pending_at(s: Seq<ConnModel>, addr: Seq<u8>, i: int) -> bool {
    &&& 0 <= i < s.len()
    &&& s[i].peer_addr == addr && s[i].state == ConnState::ConnectPending
    &&& forall|j: int|
        0 <= j < i ==> !((#[trigger] s[j]).peer_addr == addr && s[j].state
            == ConnState::ConnectPending)
}

/// Whether there is a connection to `addr` that the controller has not yet accepted.
pub open spec fn has_pending(s: Seq<ConnModel>, addr: Seq<u8>) -> bool {
    exists|i: int| pending_at(s, addr, i)
}

/// The place of the first connection to `addr` that the controller has not yet accepted.
pub open spec fn pending_pos(s: Seq<ConnModel>, addr: Seq<u8>) -> int {
    choose|i: int| pending_at(s, addr, i)
}

/// Whether `i` is the place of the first established connection.
pub open spec fn connected_at(s: Seq<ConnModel>, i: int) -> bool {
    &&& 0 <= i < s.len()
    &&& s[i].state == ConnState::Connected
    &&& forall|j: int| 0 <= j < i ==> (#[trigger] s[j]).state != ConnState::Connected
}

impl MgrModel {
    /// Whether there is a connection of handle `h`.
    pub open spec fn has(self, h: u16) -> bool {
        in_use(self.entries, h)
    }

    /// The place of the connection of handle `h`.
    pub open spec fn pos(self, h: u16) -> int {
        choose|i: int| 0 <= i < self.entries.len() && (#[trigger] self.entries[i]).handle == h
    }

    /// The connection of handle `h`.
    pub open spec fn entry(self, h: u16) -> ConnModel {
        self.entries[self.pos(h)]
    }

    /// With the connection of handle `h` replaced.
    pub open spec fn with_entry(self, h: u16, e: ConnModel) -> MgrModel {
        MgrModel { entries: self.entries.update(self.pos(h), e), ..self }
    }

    /// Without the connection of handle `h`.
    pub open spec fn without(self, h: u16) -> MgrModel {
        MgrModel { entries: self.entries.remove(self.pos(h)), ..self }
    }

    /// Whether the connection of handle `h` is there and in state `st`.
    pub open spec fn is_in(self, h: u16, st: ConnState) -> bool {
        self.has(h) && self.entry(h).state == st
    }

    /// Why the connection of handle `h` cannot be used: it is not there, or not
    /// established.
    pub open spec fn unusable(self, h: u16) -> Option<Errno> {
        if !self.has(h) {
            Some(Errno::ENOENT)
        } else if self.entry(h).state != ConnState::Connected {
            Some(Errno::EPIPE)
        } else {
            None
        }
    }

    /// Why synchronous links cannot be created for the connections from place `i` on.
    pub open spec fn acl_error(self, acl: Seq<u16>, i: int) -> Option<Errno>
        decreases acl.len() - i,
    {
        if i >= acl.len() {
            None
        } else if self.unusable(acl[i]) is Some {
            self.unusable(acl[i])
        } else {
            self.acl_error(acl, i + 1)
        }
    }

    /// Whether there is a connection to `addr` that is not idle.
    pub open spec fn talks_to(self, addr: Seq<u8>) -> bool {
        exists|i: int|
            0 <= i < self.entries.len() && (#[trigger] self.entries[i]).peer_addr == addr
                && self.entries[i].state != ConnState::Idle
    }

    /// Whether there is a connection to `addr`, in any state.
    pub open spec fn knows(self, addr: Seq<u8>) -> bool {
        exists|i: int|
            0 <= i < self.entries.len() && (#[trigger] self.entries[i]).peer_addr == addr
    }

    /// The handle that the next connection gets.
    pub open spec fn new_handle(self) -> u16 {
        free_handle(self.entries, self.next_handle, self.entries.len())
    }

    /// Whether `self` is `m` after a connection to `peer` was begun.
    pub open spec fn begun(self, m: MgrModel, peer: Seq<u8>, role: GtRole) -> bool {
        let h = m.new_handle();
        &&& self.entries.len() == m.entries.len() + 1
        &&& exists|e: ConnModel| #[trigger]
            e.fresh(h) && self == (MgrModel {
                entries: m.entries.push(
                    ConnModel {
                        peer_addr: peer,
                        local_role: role,
                        state: ConnState::ConnectPending,
                        ..e
                    },
                ),
                next_handle: handle_succ(h),
                total_created: (m.total_created + 1) as u64,
                ..m
            })
    }

    /// Whether `self` is `m` after a connection that the peer began was accepted.
    pub open spec fn taken(self, m: MgrModel, h: u16, addr: Seq<u8>, now: u64) -> bool {
        exists|e: ConnModel| #[trigger]
            e.fresh(h) && self == (MgrModel {
                entries: m.entries.push(
                    ConnModel {
                        peer_addr: addr,
                        state: ConnState::Connected,
                        last_activity: now,
                        ..e
                    },
                ),
                total_created: (m.total_created + 1) as u64,
                ..m
            })
    }

    /// After the controller accepted the request to connect.
    pub open spec fn confirmed(self, h: u16) -> MgrModel {
        if self.is_in(h, ConnState::ConnectPending) {
            self.with_entry(h, ConnModel { state: ConnState::Connecting, ..self.entry(h) })
        } else {
            self
        }
    }

    /// After the peer answered the access request.
    pub open spec fn answered(
        self,
        h: u16,
        t: AccessResponseType,
        params: NegotiatedParams,
        now: u64,
    ) -> MgrModel {
        if !self.is_in(h, ConnState::Connecting) {
            self
        } else if t == AccessResponseType::Accepted {
            self.with_entry(h, self.entry(h).accepted(params, now))
        } else {
            self.with_entry(h, ConnModel { state: ConnState::Idle, ..self.entry(h) })
        }
    }

    /// Whether the connection of handle `h` can be closed.
    pub open spec fn closable(self, h: u16) -> bool {
        self.is_in(h, ConnState::Connected) || self.is_in(h, ConnState::Connecting) || self.is_in(
            h,
            ConnState::ConnectPending,
        )
    }

    /// After the connection was asked to be closed.
    pub open spec fn closing(self, h: u16) -> MgrModel {
        if self.closable(h) {
            self.with_entry(h, ConnModel { state: ConnState::DisconnectPending, ..self.entry(h) })
        } else {
            self
        }
    }

    /// After the controller accepted the request to disconnect.
    pub open spec fn closed(self, h: u16) -> MgrModel {
        if self.is_in(h, ConnState::DisconnectPending) {
            MgrModel { total_completed: (self.total_completed + 1) as u64, ..self.without(h) }
        } else {
            self
        }
    }
}

proof fn pos_is(m: MgrModel, h: u16, i: int)
    requires
        unique(m.entries),
        0 <= i < m.entries.len(),
        m.entries[i].handle == h,
    ensures
        m.has(h),
        m.pos(h) == i,
{
    let j = m.pos(h);
    assert(m.entries[j].handle == h);
    if j < i {
        assert(m.entries[j].handle != m.entries[i].handle);
    }
    if i < j {
        assert(m.entries[i].handle != m.entries[j].handle);
    }
}

proof fn pending_is(s: Seq<ConnModel>, addr: Seq<u8>, i: int)
    requires
        pending_at(s, addr, i),
    ensures
        has_pending(s, addr),
        pending_pos(s, addr) == i,
{
    let j = pending_pos(s, addr);
    assert(pending_at(s, addr, j));
}

proof fn none_pending(s: Seq<ConnModel>, addr: Seq<u8>)
    requires
        forall|j: int|
            0 <= j < s.len() ==> !((#[trigger] s[j]).peer_addr == addr && s[j].state
                == ConnState::ConnectPending),
    ensures
        !has_pending(s, addr),
{
    if has_pending(s, addr) {
        let i = choose|i: int| pending_at(s, addr, i);
        assert(s[i].peer_addr == addr);
    }
}

spec fn step(h: u16, k: int) -> u16 {
    if h + k > 0xFFFE {
        (h + k - 0xFFFE) as u16
    } else {
        (h + k) as u16
    }
}

proof fn tried(s: Seq<ConnModel>, h: u16, tries: nat)
    requires
        1 <= h <= 0xFFFE,
        tries < 0xFFFE,
    ensures
        1 <= free_handle(s, h, tries) <= 0xFFFE,
        in_use(s, free_handle(s, h, tries)) ==> forall|k: int|
            0 <= k <= tries ==> in_use(s, #[trigger] step(h, k)),
    decreases tries,
{
    if tries > 0 && in_use(s, h) {
        tried(s, handle_succ(h), (tries - 1) as nat);
        if in_use(s, free_handle(s, h, tries)) {
            assert forall|k: int| 0 <= k <= tries implies in_use(s, #[trigger] step(h, k)) by {
                if k > 0 {
                    assert(step(h, k) == step(handle_succ(h), k - 1));
                }
            }
        }
    } else if in_use(s, h) {
        assert forall|k: int| 0 <= k <= tries implies in_use(s, #[trigger] step(h, k)) by {}
    }
}

/// The handle that a connection gets is one that no other has, and neither 0 nor
/// 0xFFFF.
pub proof fn new_handle_is_free(m: MgrModel)
    requires
        1 <= m.next_handle <= 0xFFFE,
        m.entries.len() <= MAX_CONNECTIONS,
    ensures
        !m.has(m.new_handle()),
        m.new_handle() != 0,
        m.new_handle() != INVALID_HANDLE,
{
    let n = m.entries.len();
    tried(m.entries, m.next_handle, n);
    if m.has(m.new_handle()) {
        let used = m.entries.map_values(|e: ConnModel| e.handle);
        let seen = Seq::new((n + 1) as nat, |k: int| step(m.next_handle, k));
        assert(seen.no_duplicates());
        seen.unique_seq_to_set();
        used.lemma_cardinality_of_set();
        assert(seen.to_set().subset_of(used.to_set())) by {
            assert forall|h: u16| seen.to_set().contains(h) implies used.to_set().contains(h) by {
                let k = choose|k: int| 0 <= k < seen.len() && seen[k] == h;
                assert(in_use(m.entries, step(m.next_handle, k)));
                let i = choose|i: int|
                    0 <= i < m.entries.len() && (#[trigger] m.entries[i]).handle == h;
                assert(used[i] == h);
            }
        }
        vstd::set_lib::lemma_len_subset(seen.to_set(), used.to_set());
    }
}

/// The connections of a node, at most eight at a time.
pub struct ConnManager {
    /// Address of this node.
    pub local_addr: [u8; 6],
    connections: Vec<ConnEntry>,
    next_handle: u16,
    max_connections: usize,
    /// Connections made so far.
    pub total_created: u64,
    /// Connections closed so far.
    pub total_completed: u64,
    sync: SyncLinks,
}

impl View for ConnManager {
    type V = MgrModel;

    closed spec fn view(&self) -> MgrModel {
        MgrModel {
            local_addr: self.local_addr@,
            entries: self.connections@.map_values(|e: ConnEntry| e@),
            next_handle: self.next_handle,
            max_connections: self.max_connections,
            total_created: self.total_created,
            total_completed: self.total_completed,
            sync: self.sync.links@,
            next_sync: self.sync.next_handle,
        }
    }
}

impl ConnManager {
    /// Handles are unique, there are at most eight connections, and each of them is well
    /// formed.
    pub closed spec fn wf(self) -> bool {
        &&& unique(self@.entries)
        &&& forall|i: int| 0 <= i < self.connections@.len() ==> (#[trigger] self.connections@[i]).wf()
        &&& self.connections@.len() <= MAX_CONNECTIONS
        &&& self.max_connections <= MAX_CONNECTIONS
        &&& 1 <= self.next_handle <= 0xFFFE
        &&& self.sync.wf()
    }

    /// What holds of the connections at all times: handles tell them apart, there are at
    /// most eight, sequence numbers have one bit, and the limit is at most eight.
    pub proof fn invariants(self)
        requires
            self.wf(),
        ensures
            unique(self@.entries),
            self@.entries.len() <= MAX_CONNECTIONS,
            self@.max_connections <= MAX_CONNECTIONS,
            1 <= self@.next_handle <= 0xFFFE,
            self@.next_sync >= 1,
            forall|i: int|
                0 <= i < self@.entries.len() ==> {
                    let e = #[trigger] self@.entries[i];
                    &&& e.seq.modulus == 2
                    &&& e.seq.wf()
                    &&& e.afh.hopping.channel_map.wf()
                    &&& e.tx_queue.len() <= 64
                    &&& e.rx_queue.len() <= 64
                },
    {
        assert forall|i: int| 0 <= i < self@.entries.len() implies {
            let e = #[trigger] self@.entries[i];
            &&& e.seq.modulus == 2
            &&& e.seq.wf()
            &&& e.afh.hopping.channel_map.wf()
            &&& e.tx_queue.len() <= 64
            &&& e.rx_queue.len() <= 64
        } by {
            let c = self.connections@[i];
            assert(c.wf());
            c.tx_queue.bounded();
            c.rx_queue.bounded();
        }
    }

    /// A node without connections.
    pub fn new(local_addr: [u8; 6]) -> (r: Self)
        ensures
            r.wf(),
            r@ == (MgrModel {
                local_addr: local_addr@,
                entries: Seq::empty(),
                next_handle: 1,
                max_connections: MAX_CONNECTIONS,
                total_created: 0,
                total_completed: 0,
                sync: Seq::empty(),
                next_sync: 1,
            }),
    {
        ConnManager {
            local_addr,
            connections: Vec::new(),
            next_handle: 1,
            max_connections: MAX_CONNECTIONS,
            total_created: 0,
            total_completed: 0,
            sync: SyncLinks::new(),
        }
    }

    /// Sets how many connections there may be at a time, at most eight.
    pub fn set_max_connections(&mut self, max: usize)
        requires
            old(self).wf(),
        ensures
            final(self).wf(),
            final(self)@ == (MgrModel {
                max_connections: if max < MAX_CONNECTIONS {
                    max
                } else {
                    MAX_CONNECTIONS
                },
                ..old(self)@
            }),
    {
        self.max_connections = if max < MAX_CONNECTIONS {
            max
        } else {
            MAX_CONNECTIONS
        };
    }

    fn find(&self, handle: u16) -> (r: Option<usize>)
        requires
            self.wf(),
        ensures
            match r {
                Some(i) => self@.has(handle) && self@.pos(handle) == i && i
                    < self.connections@.len() && self.connections@[i as int]@ == self@.entry(handle)
                    && self.connections@[i as int].wf() && self.connections@[i as int].handle
                    == handle && self@.entries.len() == self.connections@.len(),
                None => !self@.has(handle),
            },
    {
        let mut i: usize = 0;
        while i < self.connections.len()
            invariant
                i <= self.connections.len(),
                self.wf(),
                forall|j: int| 0 <= j < i ==> (#[trigger] self@.entries[j]).handle != handle,
            decreases self.connections.len() - i,
        {
            if self.connections[i].handle == handle {
                proof {
                    assert(self@.entries[i as int].handle == handle);
                    pos_is(self@, handle, i as int);
                }
                return Some(i);
            }
            i = i + 1;
        }
        None
    }

    fn alloc_handle(&mut self) -> (r: u16)
        requires
            old(self).wf(),
        ensures
            r == old(self)@.new_handle(),
            !old(self)@.has(r),
            final(self).wf(),
            final(self)@ == (MgrModel { next_handle: handle_succ(r), ..old(self)@ }),
    {
        let mut h = self.next_handle;
        let mut tries = self.connections.len();
        proof {
            new_handle_is_free(self@);
        }
        while tries > 0 && self.find(h).is_some()
            invariant
                *self == *old(self),
                self.wf(),
                1 <= h <= 0xFFFE,
                free_handle(self@.entries, h, tries as nat) == self@.new_handle(),
            decreases tries,
        {
            h = if h >= 0xFFFE {
                1
            } else {
                h + 1
            };
            tries = tries - 1;
        }
        self.next_handle = if h >= 0xFFFE {
            1
        } else {
            h + 1
        };
        h
    }

    /// Number of connections that are not idle.
    pub fn active_count(&self) -> (r: usize)
        ensures
            r == active(self@.entries).len(),
    {
        let mut n: usize = 0;
        let mut i: usize = 0;
        while i < self.connections.len()
            invariant
                i <= self.connections.len(),
                n <= i,
                n == active(self@.entries.take(i as int)).len(),
            decreases self.connections.len() - i,
        {
            proof {
                let t = self@.entries.take(i + 1);
                assert(t.drop_last() == self@.entries.take(i as int));
                assert(t.last() == self@.entries[i as int]);
            }
            if self.connections[i].state != ConnState::Idle {
                n = n + 1;
            }
            i = i + 1;
        }
        assert(self@.entries.take(i as int) == self@.entries);
        n
    }

    /// Number of connections.
    pub fn slot_count(&self) -> (r: usize)
        ensures
            r == self@.entries.len(),
    {
        self.connections.len()
    }

    /// Begins a connection to a peer and returns its handle. Returns `EBUSY` where there
    /// are as many connections as there may be, and `EEXIST` where there is already one
    /// to that peer.
    pub fn connect(&mut self, peer_addr: [u8; 6], role: GtRole) -> (r: Result<u16, Errno>)
        requires
            old(self).wf(),
            old(self)@.total_created < u64::MAX,
        ensures
            final(self).wf(),
            if old(self)@.entries.len() >= old(self)@.max_connections {
                r == Err::<u16, Errno>(Errno::EBUSY) && final(self)@ == old(self)@
            } else if old(self)@.talks_to(peer_addr@) {
                r == Err::<u16, Errno>(Errno::EEXIST) && final(self)@ == old(self)@
            } else {
                r == Ok::<u16, Errno>(old(self)@.new_handle()) && final(self)@.begun(
                    old(self)@,
                    peer_addr@,
                    role,
                )
            },
    {
        if self.connections.len() >= self.max_connections {
            return Err(Errno::EBUSY);
        }
        let mut i: usize = 0;
        while i < self.connections.len()
            invariant
                i <= self.connections.len(),
                *self == *old(self),
                self.wf(),
                self@.entries.len() < self@.max_connections,
                forall|j: int|
                    0 <= j < i ==> !((#[trigger] self@.entries[j]).peer_addr == peer_addr@
                        && self@.entries[j].state != ConnState::Idle),
            decreases self.connections.len() - i,
        {
            assert(self@.entries[i as int] == self.connections@[i as int]@);
            if bytes::same(&self.connections[i].peer_addr, &peer_addr) && self.connections[i].state
                != ConnState::Idle {
                return Err(Errno::EEXIST);
            }
            i = i + 1;
        }
        let handle = self.alloc_handle();
        let mut entry = ConnEntry::new(handle);
        let ghost e = entry@;
        entry.peer_addr = peer_addr;
        entry.local_role = role;
        entry.state = ConnState::ConnectPending;
        let ghost made = entry@;
        self.connections.push(entry);
        self.total_created = self.total_created + 1;
        proof {
            let m = old(self)@;
            assert(e.fresh(handle));
            assert(self@.entries =~= m.entries.push(made));
            assert(self@ =~= (MgrModel {
                entries: m.entries.push(
                    ConnModel {
                        peer_addr: peer_addr@,
                        local_role: role,
                        state: ConnState::ConnectPending,
                        ..e
                    },
                ),
                next_handle: handle_succ(handle),
                total_created: (m.total_created + 1) as u64,
                ..m
            }));
            assert(unique(self@.entries));
        }
        Ok(handle)
    }

    proof fn replaced_view(before: ConnManager, after: ConnManager, i: int, e: ConnEntry)
        requires
            before.wf(),
            0 <= i < before.connections@.len(),
            after == (ConnManager { connections: after.connections, ..before }),
            after.connections@ == before.connections@.update(i, e),
            e.handle == before.connections@[i].handle,
            e.wf(),
        ensures
            after.wf(),
            after@ == (MgrModel { entries: before@.entries.update(i, e@), ..before@ }),
    {
        assert(after@.entries =~= before@.entries.update(i, e@));
        assert forall|k: int| 0 <= k < after.connections@.len() implies (
        #[trigger] after.connections@[k]).wf() by {
            if k != i {
                assert(after.connections@[k] == before.connections@[k]);
            }
        }
        assert forall|a: int, b: int| 0 <= a < b < after@.entries.len() implies (
        #[trigger] after@.entries[a]).handle != (#[trigger] after@.entries[b]).handle by {
            assert(before@.entries[a].handle != before@.entries[b].handle);
        }
        assert(after@ =~= (MgrModel { entries: before@.entries.update(i, e@), ..before@ }));
    }

    fn set_state(&mut self, i: usize, state: ConnState)
        requires
            old(self).wf(),
            i < old(self)@.entries.len(),
        ensures
            final(self).wf(),
            final(self)@ == (MgrModel {
                entries: old(self)@.entries.update(
                    i as int,
                    ConnModel { state, ..old(self)@.entries[i as int] },
                ),
                ..old(self)@
            }),
    {
        self.connections[i].state = state;
        proof {
            let e = self.connections@[i as int];
            Self::replaced_view(*old(self), *self, i as int, e);
        }
    }

    fn remove_at(&mut self, i: usize)
        requires
            old(self).wf(),
            i < old(self)@.entries.len(),
        ensures
            final(self).wf(),
            final(self)@ == (MgrModel {
                entries: old(self)@.entries.remove(i as int),
                ..old(self)@
            }),
    {
        let _ = self.connections.remove(i);
        proof {
            assert(self@.entries =~= old(self)@.entries.remove(i as int));
            assert forall|k: int| 0 <= k < self.connections@.len() implies (
            #[trigger] self.connections@[k]).wf() by {
                if k < i {
                    assert(self.connections@[k] == old(self).connections@[k]);
                } else {
                    assert(self.connections@[k] == old(self).connections@[k + 1]);
                }
            }
        }
    }

    /// The controller accepted the request to connect.
    pub fn confirm_connecting(&mut self, handle: u16)
        requires
            old(self).wf(),
        ensures
            final(self).wf(),
            final(self)@ == old(self)@.confirmed(handle),
    {
        if let Some(i) = self.find(handle) {
            if self.connections[i].state == ConnState::ConnectPending {
                self.set_state(i, ConnState::Connecting);
            }
        }
    }

    /// The controller refused the request to connect: the connection is gone.
    pub fn abort_connecting(&mut self, handle: u16)
        requires
            old(self).wf(),
        ensures
            final(self).wf(),
            final(self)@ == (if old(self)@.is_in(handle, ConnState::ConnectPending) {
                old(self)@.without(handle)
            } else {
                old(self)@
            }),
    {
        if let Some(i) = self.find(handle) {
            if self.connections[i].state == ConnState::ConnectPending {
                self.remove_at(i);
            }
        }
    }

    fn find_pending(&self, addr: &[u8; 6]) -> (r: Option<usize>)
        requires
            self.wf(),
        ensures
            match r {
                Some(i) => i < self@.entries.len() && self@.entries.len() == self.connections@.len()
                    && self.connections@[i as int]@ == self@.entries[i as int] && has_pending(
                    self@.entries,
                    addr@,
                ) && pending_pos(self@.entries, addr@) == i,
                None => !has_pending(self@.entries, addr@),
            },
    {
        let mut i: usize = 0;
        while i < self.connections.len()
            invariant
                i <= self.connections.len(),
                self@.entries.len() == self.connections@.len(),
                forall|j: int|
                    0 <= j < i ==> !((#[trigger] self@.entries[j]).peer_addr == addr@
                        && self@.entries[j].state == ConnState::ConnectPending),
            decreases self.connections.len() - i,
        {
            assert(self@.entries[i as int] == self.connections@[i as int]@);
            if bytes::same(&self.connections[i].peer_addr, addr) && self.connections[i].state
                == ConnState::ConnectPending {
                proof {
                    pending_is(self@.entries, addr@, i as int);
                }
                return Some(i);
            }
            i = i + 1;
        }
        proof {
            none_pending(self@.entries, addr@);
        }
        None
    }

    /// The controller accepted the request to connect to `addr`: the first such
    /// connection moves on, and its handle is returned.
    pub fn confirm_connecting_by_addr(&mut self, addr: &[u8; 6]) -> (r: Option<u16>)
        requires
            old(self).wf(),
        ensures
            final(self).wf(),
            if has_pending(old(self)@.entries, addr@) {
                let i = pending_pos(old(self)@.entries, addr@);
                let e = old(self)@.entries[i];
                r == Some(e.handle) && final(self)@ == (MgrModel {
                    entries: old(self)@.entries.update(
                        i,
                        ConnModel { state: ConnState::Connecting, ..e },
                    ),
                    ..old(self)@
                })
            } else {
                r is None && final(self)@ == old(self)@
            },
    {
        match self.find_pending(addr) {
            Some(i) => {
                let h = self.connections[i].handle;
                self.set_state(i, ConnState::Connecting);
                Some(h)
            },
            None => None,
        }
    }

    /// The controller refused the request to connect to `addr`: the first such
    /// connection is gone.
    pub fn abort_connecting_by_addr(&mut self, addr: &[u8; 6])
        requires
            old(self).wf(),
        ensures
            final(self).wf(),
            final(self)@ == (if has_pending(old(self)@.entries, addr@) {
                MgrModel {
                    entries: old(self)@.entries.remove(pending_pos(old(self)@.entries, addr@)),
                    ..old(self)@
                }
            } else {
                old(self)@
            }),
    {
        if let Some(i) = self.find_pending(addr) {
            self.remove_at(i);
        }
    }

    /// Whether there is a connection to `addr`, in any state.
    pub fn has_addr(&self, addr: &[u8; 6]) -> (r: bool)
        ensures
            r == self@.knows(addr@),
    {
        let mut i: usize = 0;
        while i < self.connections.len()
            invariant
                i <= self.connections.len(),
                forall|j: int| 0 <= j < i ==> (#[trigger] self@.entries[j]).peer_addr != addr@,
            decreases self.connections.len() - i,
        {
            assert(self@.entries[i as int] == self.connections@[i as int]@);
            if bytes::same(&self.connections[i].peer_addr, addr) {
                return true;
            }
            i = i + 1;
        }
        false
    }

    /// Takes in a connection that a peer made, under the handle that the controller gave
    /// it. Does nothing where there is one of that handle already, and returns `EBUSY`
    /// where there are as many connections as there may be.
    pub fn accept_incoming(&mut self, handle: u16, addr: &[u8; 6], now: u64) -> (r: Result<
        (),
        Errno,
    >)
        requires
            old(self).wf(),
            old(self)@.total_created < u64::MAX,
        ensures
            final(self).wf(),
            if old(self)@.entries.len() >= old(self)@.max_connections {
                r == Err::<(), Errno>(Errno::EBUSY) && final(self)@ == old(self)@
            } else if old(self)@.has(handle) {
                r == Ok::<(), Errno>(()) && final(self)@ == old(self)@
            } else {
                r == Ok::<(), Errno>(()) && final(self)@.taken(old(self)@, handle, addr@, now)
            },
    {
        if self.connections.len() >= self.max_connections {
            return Err(Errno::EBUSY);
        }
        if self.find(handle).is_some() {
            return Ok(());
        }
        let mut entry = ConnEntry::new(handle);
        let ghost e = entry@;
        entry.peer_addr = *addr;
        entry.state = ConnState::Connected;
        entry.last_activity = now;
        let ghost made = entry@;
        self.connections.push(entry);
        self.total_created = self.total_created + 1;
        proof {
            let m = old(self)@;
            assert(e.fresh(handle));
            assert(self@.entries =~= m.entries.push(made));
            assert(self@ =~= (MgrModel {
                entries: m.entries.push(
                    ConnModel {
                        peer_addr: addr@,
                        state: ConnState::Connected,
                        last_activity: now,
                        ..e
                    },
                ),
                total_created: (m.total_created + 1) as u64,
                ..m
            }));
            assert(unique(self@.entries));
        }
        Ok(())
    }

    /// A connection was closed: it is gone, whether this node asked for it or not. Tells
    /// whether there was one that could be closed.
    pub fn confirm_disconnecting_by_handle(&mut self, handle: u16) -> (r: bool)
        requires
            old(self).wf(),
            old(self)@.total_completed < u64::MAX,
        ensures
            final(self).wf(),
            r == (old(self)@.is_in(handle, ConnState::DisconnectPending) || old(self)@.is_in(
                handle,
                ConnState::Connected,
            ) || old(self)@.is_in(handle, ConnState::Connecting)),
            final(self)@ == (if r {
                MgrModel {
                    total_completed: (old(self)@.total_completed + 1) as u64,
                    ..old(self)@.without(handle)
                }
            } else {
                old(self)@
            }),
    {
        if let Some(i) = self.find(handle) {
            let st = self.connections[i].state;
            if st == ConnState::DisconnectPending || st == ConnState::Connected || st
                == ConnState::Connecting {
                self.remove_at(i);
                self.total_completed = self.total_completed + 1;
                return true;
            }
        }
        false
    }

    /// The peer answered the access request. Returns `ENOENT` where there is no such
    /// connection, `EBUSY` where it waits for no answer, and `EACCES` where the peer
    /// refused.
    pub fn process_access_response(
        &mut self,
        handle: u16,
        response_type: AccessResponseType,
        params: NegotiatedParams,
        now: u64,
    ) -> (r: Result<(), Errno>)
        requires
            old(self).wf(),
        ensures
            final(self).wf(),
            r == (if !old(self)@.has(handle) {
                Err::<(), Errno>(Errno::ENOENT)
            } else if old(self)@.entry(handle).state != ConnState::Connecting {
                Err(Errno::EBUSY)
            } else if response_type == AccessResponseType::Accepted {
                Ok(())
            } else {
                Err(Errno::EACCES)
            }),
            final(self)@ == old(self)@.answered(handle, response_type, params, now),
    {
        let i = match self.find(handle) {
            Some(i) => i,
            None => return Err(Errno::ENOENT),
        };
        if self.connections[i].state != ConnState::Connecting {
            return Err(Errno::EBUSY);
        }
        if response_type == AccessResponseType::Accepted {
            let e = &mut self.connections[i];
            e.params = params;
            e.channels.negotiate(params.max_pdu_size, 512);
            e.channels.open_all();
            e.ssap_session = Some(SsapSession::new(handle));
            e.state = ConnState::Connected;
            e.last_activity = now;
            proof {
                let e = self.connections@[i as int];
                Self::replaced_view(*old(self), *self, i as int, e);
                assert(e@ =~= old(self)@.entry(handle).accepted(params, now));
            }
            Ok(())
        } else {
            self.set_state(i, ConnState::Idle);
            Err(Errno::EACCES)
        }
    }

    /// Asks for a connection to be closed. Returns `ENOENT` where there is no such
    /// connection, and `EPIPE` where it is neither established nor being made.
    pub fn disconnect(&mut self, handle: u16) -> (r: Result<(), Errno>)
        requires
            old(self).wf(),
        ensures
            final(self).wf(),
            r == (if !old(self)@.has(handle) {
                Err::<(), Errno>(Errno::ENOENT)
            } else if old(self)@.closable(handle) {
                Ok(())
            } else {
                Err(Errno::EPIPE)
            }),
            final(self)@ == old(self)@.closing(handle),
    {
        let i = match self.find(handle) {
            Some(i) => i,
            None => return Err(Errno::ENOENT),
        };
        match self.connections[i].state {
            ConnState::Connected | ConnState::Connecting | ConnState::ConnectPending => {
                self.set_state(i, ConnState::DisconnectPending);
                Ok(())
            },
            _ => Err(Errno::EPIPE),
        }
    }

    /// The controller accepted the request to disconnect: the connection is gone.
    pub fn confirm_disconnecting(&mut self, handle: u16)
        requires
            old(self).wf(),
            old(self)@.total_completed < u64::MAX,
        ensures
            final(self).wf(),
            final(self)@ == old(self)@.closed(handle),
    {
        if let Some(i) = self.find(handle) {
            if self.connections[i].state == ConnState::DisconnectPending {
                self.remove_at(i);
                self.total_completed = self.total_completed + 1;
            }
        }
    }

    /// The controller refused the request to disconnect: the connection stays.
    pub fn abort_disconnecting(&mut self, handle: u16)
        requires
            old(self).wf(),
        ensures
            final(self).wf(),
            final(self)@ == (if old(self)@.is_in(handle, ConnState::DisconnectPending) {
                old(self)@.with_entry(
                    handle,
                    ConnModel { state: ConnState::Connected, ..old(self)@.entry(handle) },
                )
            } else {
                old(self)@
            }),
    {
        if let Some(i) = self.find(handle) {
            if self.connections[i].state == ConnState::DisconnectPending {
                self.set_state(i, ConnState::Connected);
            }
        }
    }

    fn find_connected(&self, handle: u16) -> (r: Result<usize, Errno>)
        requires
            self.wf(),
        ensures
            match r {
                Ok(i) => self@.unusable(handle) is None && self@.pos(handle) == i && i
                    < self.connections@.len() && self.connections@[i as int]@ == self@.entry(handle)
                    && self.connections@[i as int].wf() && self.connections@[i as int].handle
                    == handle,
                Err(e) => self@.unusable(handle) == Some(e),
            },
    {
        match self.find(handle) {
            Some(i) => if self.connections[i].state != ConnState::Connected {
                Err(Errno::EPIPE)
            } else {
                Ok(i)
            },
            None => Err(Errno::ENOENT),
        }
    }

    /// Queues a message for the peer and returns its length. Returns `EINVAL` where it is
    /// empty or longer than 255 bytes, `EFBIG` where it is longer than the data channel
    /// takes, and `EAGAIN` where the queue is full.
    pub fn send(&mut self, handle: u16, data: &[u8], now: u64) -> (r: Result<usize, Errno>)
        requires
            old(self).wf(),
            old(self)@.unusable(handle) is None ==> old(self)@.entry(handle).tx_bytes + data@.len()
                <= u64::MAX,
        ensures
            final(self).wf(),
            match old(self)@.unusable(handle) {
                Some(e) => r == Err::<usize, Errno>(e) && final(self)@ == old(self)@,
                None => {
                    let e = old(self)@.entry(handle);
                    if data@.len() == 0 || data@.len() > CONN_DATA_MAX {
                        r == Err::<usize, Errno>(Errno::EINVAL) && final(self)@ == old(self)@
                    } else if data@.len() > e.channels.data.mtu {
                        r == Err::<usize, Errno>(Errno::EFBIG) && final(self)@ == old(self)@
                    } else if e.tx_queue.len() >= QUEUE_DEPTH {
                        r == Err::<usize, Errno>(Errno::EAGAIN) && final(self)@ == old(self)@
                    } else {
                        r == Ok::<usize, Errno>(data@.len() as usize) && final(self)@ == old(
                            self,
                        )@.with_entry(handle, e.sent(data@, now))
                    }
                },
            },
    {
        let i = match self.find_connected(handle) {
            Ok(i) => i,
            Err(e) => return Err(e),
        };
        if data.len() == 0 || data.len() > CONN_DATA_MAX {
            return Err(Errno::EINVAL);
        }
        let mtu = self.connections[i].channels.data.mtu as usize;
        if data.len() > mtu {
            return Err(Errno::EFBIG);
        }
        if self.connections[i].tx_queue.len() >= QUEUE_DEPTH {
            return Err(Errno::EAGAIN);
        }
        let e = &mut self.connections[i];
        let _ = e.tx_queue.enqueue(data);
        e.seq.advance_tx();
        e.tx_bytes = e.tx_bytes + data.len() as u64;
        e.last_activity = now;
        proof {
            let e = self.connections@[i as int];
            Self::replaced_view(*old(self), *self, i as int, e);
            assert(bytes::prefix(data@, 255) == data@);
            assert(e@ =~= old(self)@.entry(handle).sent(data@, now));
        }
        Ok(data.len())
    }

    /// A message arrived from the peer.
    pub fn receive_data(&mut self, handle: u16, data: &[u8], seq: u8, now: u64) -> (r: Result<
        (),
        Errno,
    >)
        requires
            old(self).wf(),
            old(self)@.unusable(handle) is None ==> old(self)@.entry(handle).rx_bytes + data@.len()
                <= u64::MAX,
        ensures
            final(self).wf(),
            match old(self)@.unusable(handle) {
                Some(e) => r == Err::<(), Errno>(e) && final(self)@ == old(self)@,
                None => r == Ok::<(), Errno>(()) && final(self)@ == old(self)@.with_entry(
                    handle,
                    old(self)@.entry(handle).received(data@, seq, now),
                ),
            },
    {
        let i = match self.find_connected(handle) {
            Ok(i) => i,
            Err(e) => return Err(e),
        };
        if !self.connections[i].seq.check_rx(seq) {
            assert(self@.with_entry(handle, self@.entry(handle)) == self@);
            return Ok(());
        }
        let e = &mut self.connections[i];
        if e.rx_queue.len() >= e.queue_max {
            e.rx_queue.drop_oldest();
        }
        let _ = e.rx_queue.enqueue(data);
        e.seq.advance_rx();
        e.rx_bytes = e.rx_bytes + data.len() as u64;
        e.last_activity = now;
        proof {
            let e = self.connections@[i as int];
            old(self).connections@[i as int].rx_queue.bounded();
            Self::replaced_view(*old(self), *self, i as int, e);
            assert(e@ =~= old(self)@.entry(handle).received(data@, seq, now));
        }
        Ok(())
    }

    /// Takes the oldest message of the peer, copies as much of it as fits to the start of
    /// `buf` and returns its length, or returns `EAGAIN` where there is none.
    pub fn recv(&mut self, handle: u16, buf: &mut [u8]) -> (r: Result<usize, Errno>)
        requires
            old(self).wf(),
        ensures
            final(self).wf(),
            match old(self)@.unusable(handle) {
                Some(e) => r == Err::<usize, Errno>(e) && final(self)@ == old(self)@ && final(buf)@
                    == old(buf)@,
                None => {
                    let e = old(self)@.entry(handle);
                    if e.rx_queue.len() == 0 {
                        r == Err::<usize, Errno>(Errno::EAGAIN) && final(self)@ == old(self)@
                            && final(buf)@ == old(buf)@
                    } else {
                        &&& r == Ok::<usize, Errno>(e.rx_queue[0].len() as usize)
                        &&& final(self)@ == old(self)@.with_entry(
                            handle,
                            ConnModel { rx_queue: e.rx_queue.drop_first(), ..e },
                        )
                        &&& final(buf)@ == bytes::splice(
                            old(buf)@,
                            0,
                            bytes::prefix(e.rx_queue[0], old(buf)@.len() as int),
                        )
                    }
                },
            },
    {
        let i = match self.find_connected(handle) {
            Ok(i) => i,
            Err(e) => return Err(e),
        };
        if self.connections[i].rx_queue.is_empty() {
            return Err(Errno::EAGAIN);
        }
        let e = &mut self.connections[i];
        let r = e.rx_queue.dequeue_into(buf);
        proof {
            let e = self.connections@[i as int];
            Self::replaced_view(*old(self), *self, i as int, e);
        }
        r
    }

    /// The connection of a handle; returns `ENOENT` where there is none and `EPIPE` where
    /// it is idle.
    pub fn info(&self, handle: u16) -> (r: Result<&ConnEntry, Errno>)
        requires
            self.wf(),
        ensures
            match r {
                Ok(e) => self@.has(handle) && self@.entry(handle).state != ConnState::Idle && e@
                    == self@.entry(handle),
                Err(e) => if self@.has(handle) {
                    e == Errno::EPIPE && self@.entry(handle).state == ConnState::Idle
                } else {
                    e == Errno::ENOENT
                },
            },
    {
        match self.find(handle) {
            Some(i) => if self.connections[i].state == ConnState::Idle {
                Err(Errno::EPIPE)
            } else {
                Ok(&self.connections[i])
            },
            None => Err(Errno::ENOENT),
        }
    }

    /// Takes in the features of the peer.
    pub fn store_peer_features(&mut self, handle: u16, features: [u8; 10]) -> (r: Result<
        (),
        Errno,
    >)
        requires
            old(self).wf(),
        ensures
            final(self).wf(),
            match old(self)@.unusable(handle) {
                Some(e) => r == Err::<(), Errno>(e) && final(self)@ == old(self)@,
                None => {
                    let e = old(self)@.entry(handle);
                    r == Ok::<(), Errno>(()) && final(self)@ == old(self)@.with_entry(
                        handle,
                        ConnModel {
                            peer_cap: PeerCapability { features, features_valid: true, ..e.peer_cap },
                            ..e
                        },
                    )
                },
            },
    {
        let i = match self.find_connected(handle) {
            Ok(i) => i,
            Err(e) => return Err(e),
        };
        let e = &mut self.connections[i];
        e.peer_cap.set_features(features);
        proof {
            let e = self.connections@[i as int];
            Self::replaced_view(*old(self), *self, i as int, e);
        }
        Ok(())
    }

    /// Takes in the version of the peer.
    pub fn store_peer_version(
        &mut self,
        handle: u16,
        version: u8,
        manufacturer: u16,
        subversion: u16,
    ) -> (r: Result<(), Errno>)
        requires
            old(self).wf(),
        ensures
            final(self).wf(),
            match old(self)@.unusable(handle) {
                Some(e) => r == Err::<(), Errno>(e) && final(self)@ == old(self)@,
                None => {
                    let e = old(self)@.entry(handle);
                    r == Ok::<(), Errno>(()) && final(self)@ == old(self)@.with_entry(
                        handle,
                        ConnModel {
                            peer_cap: PeerCapability {
                                version,
                                manufacturer,
                                subversion,
                                version_valid: true,
                                ..e.peer_cap
                            },
                            ..e
                        },
                    )
                },
            },
    {
        let i = match self.find_connected(handle) {
            Ok(i) => i,
            Err(e) => return Err(e),
        };
        let e = &mut self.connections[i];
        e.peer_cap.set_version(version, manufacturer, subversion);
        proof {
            let e = self.connections@[i as int];
            Self::replaced_view(*old(self), *self, i as int, e);
        }
        Ok(())
    }

    /// The timing of a connection changed.
    pub fn update_conn_params(
        &mut self,
        handle: u16,
        interval: u16,
        latency: u16,
        timeout: u16,
        now: u64,
    ) -> (r: Result<(), Errno>)
        requires
            old(self).wf(),
        ensures
            final(self).wf(),
            match old(self)@.unusable(handle) {
                Some(e) => r == Err::<(), Errno>(e) && final(self)@ == old(self)@,
                None => r == Ok::<(), Errno>(()) && final(self)@ == old(self)@.with_entry(
                    handle,
                    old(self)@.entry(handle).with_params(interval, latency, timeout, now),
                ),
            },
    {
        let i = match self.find_connected(handle) {
            Ok(i) => i,
            Err(e) => return Err(e),
        };
        let e = &mut self.connections[i];
        if interval > 0 {
            e.params.event_group_period = interval;
        }
        if latency > 0 {
            e.params.latency_period = latency;
        }
        if timeout > 0 {
            e.params.supervision_timeout = timeout;
        }
        e.last_activity = now;
        proof {
            let e = self.connections@[i as int];
            Self::replaced_view(*old(self), *self, i as int, e);
        }
        Ok(())
    }

    /// The radio parameters of a connection changed.
    pub fn update_phy_params(&mut self, handle: u16, mcs_index: u8, bandwidth_mhz: u8, now: u64) -> (r:
        Result<(), Errno>)
        requires
            old(self).wf(),
        ensures
            final(self).wf(),
            match old(self)@.unusable(handle) {
                Some(e) => r == Err::<(), Errno>(e) && final(self)@ == old(self)@,
                None => r == Ok::<(), Errno>(()) && final(self)@ == old(self)@.with_entry(
                    handle,
                    old(self)@.entry(handle).with_phy(mcs_index, bandwidth_mhz, now),
                ),
            },
    {
        let i = match self.find_connected(handle) {
            Ok(i) => i,
            Err(e) => return Err(e),
        };
        let e = &mut self.connections[i];
        if mcs_index <= 12 {
            e.params.mcs_index = mcs_index;
        }
        if bandwidth_mhz == 1 || bandwidth_mhz == 2 || bandwidth_mhz == 4 {
            e.params.bandwidth_mhz = bandwidth_mhz;
        }
        e.last_activity = now;
        proof {
            let e = self.connections@[i as int];
            Self::replaced_view(*old(self), *self, i as int, e);
        }
        Ok(())
    }

    /// The packet sizes of a connection changed.
    pub fn update_data_length(&mut self, handle: u16, max_tx_octets: u16, max_rx_octets: u16) -> (r:
        Result<(), Errno>)
        requires
            old(self).wf(),
        ensures
            final(self).wf(),
            match old(self)@.unusable(handle) {
                Some(e) => r == Err::<(), Errno>(e) && final(self)@ == old(self)@,
                None => r == Ok::<(), Errno>(()) && final(self)@ == old(self)@.with_entry(
                    handle,
                    old(self)@.entry(handle).with_data_length(max_tx_octets, max_rx_octets),
                ),
            },
    {
        let i = match self.find_connected(handle) {
            Ok(i) => i,
            Err(e) => return Err(e),
        };
        let effective = if max_tx_octets <= max_rx_octets {
            max_tx_octets
        } else {
            max_rx_octets
        };
        let e = &mut self.connections[i];
        if effective > 0 {
            e.params.max_pdu_size = effective;
            e.channels.negotiate(effective, effective);
        }
        proof {
            let e = self.connections@[i as int];
            Self::replaced_view(*old(self), *self, i as int, e);
        }
        Ok(())
    }

    /// The handles of the connections that are not idle, oldest first, then zeros, and
    /// their number.
    pub fn active_handles(&self) -> (r: ([u16; 8], usize))
        requires
            self.wf(),
        ensures
            r.1 == active(self@.entries).len(),
            r.1 <= 8,
            r.0@ == Seq::new(
                8,
                |i: int|
                    if i < r.1 {
                        active(self@.entries)[i]
                    } else {
                        0
                    },
            ),
    {
        let mut handles: [u16; 8] = [0u16; 8];
        let mut count: usize = 0;
        let mut i: usize = 0;
        while i < self.connections.len()
            invariant
                i <= self.connections.len() <= 8,
                count <= i,
                count == active(self@.entries.take(i as int)).len(),
                handles@ == Seq::new(
                    8,
                    |k: int|
                        if k < count {
                            active(self@.entries.take(i as int))[k]
                        } else {
                            0
                        },
                ),
            decreases self.connections.len() - i,
        {
            proof {
                let t = self@.entries.take(i + 1);
                assert(t.drop_last() == self@.entries.take(i as int));
                assert(t.last() == self@.entries[i as int]);
            }
            if self.connections[i].state != ConnState::Idle {
                handles[count] = self.connections[i].handle;
                count = count + 1;
            }
            i = i + 1;
        }
        assert(self@.entries.take(i as int) == self@.entries);
        (handles, count)
    }

    /// The handle of the first established connection, if there is one.
    pub fn first_active_handle(&self) -> (r: Option<u16>)
        ensures
            match r {
                Some(h) => exists|i: int| #[trigger]
                    connected_at(self@.entries, i) && self@.entries[i].handle == h,
                None => forall|i: int|
                    0 <= i < self@.entries.len() ==> (#[trigger] self@.entries[i]).state
                        != ConnState::Connected,
            },
    {
        let mut i: usize = 0;
        while i < self.connections.len()
            invariant
                i <= self.connections.len(),
                forall|j: int|
                    0 <= j < i ==> (#[trigger] self@.entries[j]).state != ConnState::Connected,
            decreases self.connections.len() - i,
        {
            assert(self@.entries[i as int] == self.connections@[i as int]@);
            if self.connections[i].state == ConnState::Connected {
                assert(connected_at(self@.entries, i as int));
                return Some(self.connections[i].handle);
            }
            i = i + 1;
        }
        None
    }

    /// The handle to use: 0 stands for the first established connection. Returns `EPIPE`
    /// where there is none, and `ENOENT` where there is no connection of the handle.
    pub fn resolve_handle(&self, handle: u16) -> (r: Result<u16, Errno>)
        requires
            self.wf(),
        ensures
            if handle == 0 {
                match r {
                    Ok(h) => exists|i: int| #[trigger]
                        connected_at(self@.entries, i) && self@.entries[i].handle == h,
                    Err(e) => e == Errno::EPIPE && forall|i: int|
                        0 <= i < self@.entries.len() ==> (#[trigger] self@.entries[i]).state
                            != ConnState::Connected,
                }
            } else if self@.has(handle) {
                r == Ok::<u16, Errno>(handle)
            } else {
                r == Err::<u16, Errno>(Errno::ENOENT)
            },
    {
        if handle == 0 {
            match self.first_active_handle() {
                Some(h) => Ok(h),
                None => Err(Errno::EPIPE),
            }
        } else {
            match self.find(handle) {
                Some(_) => Ok(handle),
                None => Err(Errno::ENOENT),
            }
        }
    }

    /// Hands a service message of the peer to the session of the connection, which
    /// writes its answer to `resp_buf`, and returns the length of the answer. Returns
    /// `ENODEV` where the connection has no session.
    pub fn process_ssap_pdu(
        &mut self,
        handle: u16,
        pdu_data: &[u8],
        ssap: &mut SsapInner,
        resp_buf: &mut [u8],
    ) -> (r: Result<usize, Errno>)
        requires
            old(self).wf(),
        ensures
            final(self).wf(),
            old(ssap)@.wf() ==> final(ssap)@.wf(),
            match old(self)@.unusable(handle) {
                Some(e) => r == Err::<usize, Errno>(e) && final(self)@ == old(self)@ && final(ssap)@
                    == old(ssap)@ && final(resp_buf)@ == old(resp_buf)@,
                None => match old(self)@.entry(handle).session {
                    None => r == Err::<usize, Errno>(Errno::ENODEV) && final(self)@ == old(self)@
                        && final(ssap)@ == old(ssap)@ && final(resp_buf)@ == old(resp_buf)@,
                    Some(s) => match ssap_pdu::parse_pdu(pdu_data@) {
                        None => r == Err::<usize, Errno>(Errno::EINVAL) && final(self)@ == old(
                            self,
                        )@ && final(ssap)@ == old(ssap)@ && final(resp_buf)@ == old(resp_buf)@,
                        Some(m) => {
                            &&& final(self)@ == old(self)@.with_entry(
                                handle,
                                ConnModel {
                                    session: Some(s.after(m)),
                                    ..old(self)@.entry(handle)
                                },
                            )
                            &&& final(ssap)@ == ssap_session::db_after(old(ssap)@, m)
                            &&& match s.answer(old(ssap)@, m, pdu_data@[0]) {
                                None => r == Ok::<usize, Errno>(0) && final(resp_buf)@ == old(
                                    resp_buf,
                                )@,
                                Some(a) => ssap_pdu::encoded(
                                    a,
                                    old(resp_buf)@,
                                    final(resp_buf)@,
                                    r,
                                ),
                            }
                        },
                    },
                },
            },
    {
        let i = match self.find_connected(handle) {
            Ok(i) => i,
            Err(e) => return Err(e),
        };
        let e = &mut self.connections[i];
        let r = match &mut e.ssap_session {
            Some(s) => s.process_incoming(ssap, pdu_data, resp_buf),
            None => Err(Errno::ENODEV),
        };
        proof {
            let e = self.connections@[i as int];
            Self::replaced_view(*old(self), *self, i as int, e);
        }
        r
    }

    /// Message size of the session of a connection, and whether it was exchanged.
    pub fn ssap_session_info(&self, handle: u16) -> (r: Option<(u16, bool)>)
        requires
            self.wf(),
        ensures
            r == (if self@.has(handle) {
                match self@.entry(handle).session {
                    Some(s) => Some((s.mtu, s.info_exchanged)),
                    None => None,
                }
            } else {
                None
            }),
    {
        match self.find(handle) {
            Some(i) => match &self.connections[i].ssap_session {
                Some(s) => Some((s.mtu, s.info_exchanged)),
                None => None,
            },
            None => None,
        }
    }

    /// The session of a connection, for changing.
    pub fn get_ssap_session(&mut self, handle: u16) -> (r: Option<&mut SsapSession>)
        requires
            old(self).wf(),
        ensures
            final(self).wf(),
            match r {
                Some(s) => {
                    &&& old(self)@.has(handle)
                    &&& old(self)@.entry(handle).session == Some((*s)@)
                    &&& final(self)@ == old(self)@.with_entry(
                        handle,
                        ConnModel {
                            session: Some((*final(s))@),
                            ..old(self)@.entry(handle)
                        },
                    )
                },
                None => {
                    &&& !old(self)@.has(handle) || old(self)@.entry(handle).session is None
                    &&& final(self)@ == old(self)@
                },
            },
    {
        let i = match self.find(handle) {
            Some(i) => i,
            None => return None,
        };
        if self.connections[i].ssap_session.is_none() {
            return None;
        }
        proof {
            let before = *self;
            let c = before.connections@[i as int];
            assert forall|after: ConnManager|
                after == (ConnManager { connections: after.connections, ..before })
                    && after.connections@ == before.connections@.update(
                    i as int,
                    ConnEntry { ssap_session: after.connections@[i as int].ssap_session, ..c },
                ) implies #[trigger] after.wf() by {
                Self::replaced_view(before, after, i as int, after.connections@[i as int]);
            }
        }
        match &mut self.connections[i].ssap_session {
            Some(s) => Some(s),
            None => None,
        }
    }

    /// Takes a credit for a message to send on a channel. Returns `ENOENT` where there is
    /// no such connection, `EINVAL` where it has no such channel, and `EAGAIN` where no
    /// credit is left.
    pub fn consume_tx_credit(&mut self, handle: u16, tcid: u16) -> (r: Result<(), Errno>)
        requires
            old(self).wf(),
        ensures
            final(self).wf(),
            if !old(self)@.has(handle) {
                r == Err::<(), Errno>(Errno::ENOENT) && final(self)@ == old(self)@
            } else {
                let e = old(self)@.entry(handle);
                match e.channels.channel(tcid) {
                    None => r == Err::<(), Errno>(Errno::EINVAL) && final(self)@ == old(self)@,
                    Some(c) => r == (if c.may_send() {
                        Ok::<(), Errno>(())
                    } else {
                        Err(Errno::EAGAIN)
                    }) && final(self)@ == old(self)@.with_entry(
                        handle,
                        ConnModel {
                            channels: e.channels.with_channel(tcid, c.tx_consumed()),
                            ..e
                        },
                    ),
                }
            },
    {
        let i = match self.find(handle) {
            Some(i) => i,
            None => return Err(Errno::ENOENT),
        };
        let e = &mut self.connections[i];
        let r = match e.channels.by_tcid_mut(tcid) {
            Some(ch) => ch.try_consume_tx_credit(),
            None => Err(Errno::EINVAL),
        };
        proof {
            let e = self.connections@[i as int];
            Self::replaced_view(*old(self), *self, i as int, e);
        }
        r
    }

    /// Takes a credit for a message that arrived on a channel, and tells whether the peer
    /// is to be granted new ones.
    pub fn consume_rx_credit(&mut self, handle: u16, tcid: u16, now: u64) -> (r: bool)
        requires
            old(self).wf(),
        ensures
            final(self).wf(),
            if !old(self)@.has(handle) {
                !r && final(self)@ == old(self)@
            } else {
                let e = ConnModel { last_activity: now, ..old(self)@.entry(handle) };
                match e.channels.channel(tcid) {
                    None => !r && final(self)@ == old(self)@.with_entry(handle, e),
                    Some(c) => r == c.wants_grant() && final(self)@ == old(self)@.with_entry(
                        handle,
                        ConnModel {
                            channels: e.channels.with_channel(tcid, c.rx_consumed()),
                            ..e
                        },
                    ),
                }
            },
    {
        let i = match self.find(handle) {
            Some(i) => i,
            None => return false,
        };
        let e = &mut self.connections[i];
        e.last_activity = now;
        let r = match e.channels.by_tcid_mut(tcid) {
            Some(ch) => ch.consume_rx_credit(),
            None => false,
        };
        proof {
            let e = self.connections@[i as int];
            Self::replaced_view(*old(self), *self, i as int, e);
        }
        r
    }

    /// Grants the peer credits on a channel, and returns how many and the identifier of
    /// the grant. Returns `ENOENT` where there is no such connection and `EINVAL` where
    /// it has no such channel; the identifier is used up all the same.
    pub fn grant_credits(&mut self, handle: u16, tcid: u16) -> (r: Result<(u16, u8), Errno>)
        requires
            old(self).wf(),
        ensures
            final(self).wf(),
            if !old(self)@.has(handle) {
                r == Err::<(u16, u8), Errno>(Errno::ENOENT) && final(self)@ == old(self)@
            } else {
                let e = old(self)@.entry(handle);
                let id = e.channels.credit_grant_id;
                let next = ChannelSet { credit_grant_id: ((id + 1) % 256) as u8, ..e.channels };
                match e.channels.channel(tcid) {
                    None => r == Err::<(u16, u8), Errno>(Errno::EINVAL) && final(self)@ == old(
                        self,
                    )@.with_entry(handle, ConnModel { channels: next, ..e }),
                    Some(c) => r == Ok::<(u16, u8), Errno>((conn_channel::CREDIT_GRANT_SIZE, id))
                        && final(self)@ == old(self)@.with_entry(
                        handle,
                        ConnModel { channels: next.with_channel(tcid, c.granted()), ..e },
                    ),
                }
            },
    {
        let i = match self.find(handle) {
            Some(i) => i,
            None => return Err(Errno::ENOENT),
        };
        let e = &mut self.connections[i];
        let id = e.channels.next_credit_grant_id();
        let r = match e.channels.by_tcid_mut(tcid) {
            Some(ch) => Ok((ch.grant_rx_credits(), id)),
            None => Err(Errno::EINVAL),
        };
        proof {
            let e = self.connections@[i as int];
            Self::replaced_view(*old(self), *self, i as int, e);
        }
        r
    }

    /// Adds the credits that the peer granted on a channel. Returns `ENOENT` where there
    /// is no such connection and `EINVAL` where it has no such channel.
    pub fn receive_credits(&mut self, handle: u16, tcid: u16, credits: u16) -> (r: Result<
        (),
        Errno,
    >)
        requires
            old(self).wf(),
        ensures
            final(self).wf(),
            if !old(self)@.has(handle) {
                r == Err::<(), Errno>(Errno::ENOENT) && final(self)@ == old(self)@
            } else {
                let e = old(self)@.entry(handle);
                match e.channels.channel(tcid) {
                    None => r == Err::<(), Errno>(Errno::EINVAL) && final(self)@ == old(self)@,
                    Some(c) => r == Ok::<(), Errno>(()) && final(self)@ == old(self)@.with_entry(
                        handle,
                        ConnModel {
                            channels: e.channels.with_channel(tcid, c.credited(credits)),
                            ..e
                        },
                    ),
                }
            },
    {
        let i = match self.find(handle) {
            Some(i) => i,
            None => return Err(Errno::ENOENT),
        };
        let e = &mut self.connections[i];
        let r = match e.channels.by_tcid_mut(tcid) {
            Some(ch) => {
                ch.receive_tx_credits(credits);
                Ok(())
            },
            None => Err(Errno::EINVAL),
        };
        proof {
            let e = self.connections@[i as int];
            Self::replaced_view(*old(self), *self, i as int, e);
        }
        r
    }

    /// The credits of a channel for sending and for receiving.
    pub fn channel_credits(&self, handle: u16, tcid: u16) -> (r: Option<(u16, u16)>)
        requires
            self.wf(),
        ensures
            r == (if self@.has(handle) {
                match self@.entry(handle).channels.channel(tcid) {
                    Some(c) => Some((c.tx_credits, c.rx_credits)),
                    None => None,
                }
            } else {
                None
            }),
    {
        match self.find(handle) {
            Some(i) => match self.connections[i].channels.by_tcid(tcid) {
                Some(c) => Some((c.tx_credits, c.rx_credits)),
                None => None,
            },
            None => None,
        }
    }

    /// Sets the longest message of the data channel and, where `mps` is given and not 0,
    /// its longest segment. Returns `EINVAL` where the message is shorter than 23 bytes
    /// or longer than the packets that were agreed on.
    pub fn set_data_mtu(&mut self, handle: u16, mtu: u16, mps: Option<u16>) -> (r: Result<
        (),
        Errno,
    >)
        requires
            old(self).wf(),
        ensures
            final(self).wf(),
            match old(self)@.unusable(handle) {
                Some(e) => r == Err::<(), Errno>(e) && final(self)@ == old(self)@,
                None => {
                    let e = old(self)@.entry(handle);
                    if MIN_DATA_MTU <= mtu <= e.params.max_pdu_size {
                        r == Ok::<(), Errno>(()) && final(self)@ == old(self)@.with_entry(
                            handle,
                            e.with_data_mtu(mtu, mps),
                        )
                    } else {
                        r == Err::<(), Errno>(Errno::EINVAL) && final(self)@ == old(self)@
                    }
                },
            },
    {
        let i = match self.find_connected(handle) {
            Ok(i) => i,
            Err(e) => return Err(e),
        };
        let max = self.connections[i].params.max_pdu_size;
        if mtu < MIN_DATA_MTU || mtu > max {
            return Err(Errno::EINVAL);
        }
        let e = &mut self.connections[i];
        e.channels.data.mtu = mtu;
        if let Some(m) = mps {
            if m > 0 {
                e.channels.data.mps = if m <= mtu {
                    m
                } else {
                    mtu
                };
            }
        }
        if e.channels.data.mps > mtu {
            e.channels.data.mps = mtu;
        }
        proof {
            let e = self.connections@[i as int];
            Self::replaced_view(*old(self), *self, i as int, e);
        }
        Ok(())
    }

    /// Sets the channels that a connection may hop to. Returns `EINVAL` where there are
    /// fewer than `min_channels`, or fewer than two.
    pub fn set_channel_map(&mut self, handle: u16, map: ChannelMap, min_channels: u8) -> (r: Result<
        (),
        Errno,
    >)
        requires
            old(self).wf(),
            map.wf(),
        ensures
            final(self).wf(),
            match old(self)@.unusable(handle) {
                Some(e) => r == Err::<(), Errno>(e) && final(self)@ == old(self)@,
                None => {
                    let e = old(self)@.entry(handle);
                    if sle_phy::marked_below(map@, 79) < min_channels || sle_phy::marked_below(
                        map@,
                        79,
                    ) < 2 {
                        r == Err::<(), Errno>(Errno::EINVAL) && final(self)@ == old(self)@
                    } else {
                        r == Ok::<(), Errno>(()) && final(self)@ == old(self)@.with_entry(
                            handle,
                            ConnModel {
                                afh: AfhState {
                                    hopping: HoppingState { channel_map: map, ..e.afh.hopping },
                                    ..e.afh
                                },
                                ..e
                            },
                        )
                    }
                },
            },
    {
        let i = match self.find_connected(handle) {
            Ok(i) => i,
            Err(e) => return Err(e),
        };
        let min_ch = if min_channels < 2 {
            2
        } else {
            min_channels
        };
        if map.used_count() < min_ch {
            return Err(Errno::EINVAL);
        }
        let e = &mut self.connections[i];
        e.afh.hopping.update_map(map);
        proof {
            let e = self.connections@[i as int];
            Self::replaced_view(*old(self), *self, i as int, e);
        }
        Ok(())
    }

    /// The channels that a connection may hop to, or `ENOENT`.
    pub fn get_channel_map(&self, handle: u16) -> (r: Result<ChannelMap, Errno>)
        requires
            self.wf(),
        ensures
            r == (if self@.has(handle) {
                Ok::<ChannelMap, Errno>(self@.entry(handle).afh.hopping.channel_map)
            } else {
                Err(Errno::ENOENT)
            }),
            r matches Ok(m) ==> m.wf(),
    {
        match self.find(handle) {
            Some(i) => Ok(self.connections[i].afh.hopping.channel_map),
            None => Err(Errno::ENOENT),
        }
    }

    /// Hops to the next channel, and returns it, its frequency in MHz and the number of
    /// hops.
    pub fn hop_next(&mut self, handle: u16) -> (r: Result<(u8, u16, u16), Errno>)
        requires
            old(self).wf(),
        ensures
            final(self).wf(),
            match old(self)@.unusable(handle) {
                Some(e) => r == Err::<(u8, u16, u16), Errno>(e) && final(self)@ == old(self)@,
                None => {
                    let e = old(self)@.entry(handle);
                    let count = ((e.afh.hopping.event_counter + 1) % 0x1_0000) as u16;
                    &&& r matches Ok(x) && sle_phy::hops_to(e.afh.hopping, x.0 as int) && x.0 < 79
                        && x.1 == 2402 + x.0 && x.2 == count
                    &&& final(self)@ == old(self)@.with_entry(
                        handle,
                        ConnModel {
                            afh: AfhState {
                                hopping: HoppingState {
                                    last_channel: r->Ok_0.0,
                                    event_counter: count,
                                    ..e.afh.hopping
                                },
                                ..e.afh
                            },
                            ..e
                        },
                    )
                },
            },
    {
        let i = match self.find_connected(handle) {
            Ok(i) => i,
            Err(e) => return Err(e),
        };
        let e = &mut self.connections[i];
        let ch = e.afh.hopping.next_channel();
        let freq = HoppingState::channel_to_freq(ch);
        let ec = e.afh.hopping.event_counter;
        proof {
            let e = self.connections@[i as int];
            Self::replaced_view(*old(self), *self, i as int, e);
        }
        Ok((ch, freq, ec))
    }

    /// Takes in a measurement of the signal strength on a channel. Returns `ENOENT` where
    /// there is no such connection and `EINVAL` where there is no such channel.
    pub fn report_rssi(&mut self, handle: u16, channel: u8, rssi_dbm: i8) -> (r: Result<(), Errno>)
        requires
            old(self).wf(),
            old(self)@.has(handle) && channel < 79 ==> i64::MIN <= old(self)@.entry(
                handle,
            ).afh.rssi_acc@[channel as int] + 10 * rssi_dbm <= i64::MAX,
        ensures
            final(self).wf(),
            if !old(self)@.has(handle) {
                r == Err::<(), Errno>(Errno::ENOENT) && final(self)@ == old(self)@
            } else if channel >= 79 {
                r == Err::<(), Errno>(Errno::EINVAL) && final(self)@ == old(self)@
            } else {
                let e = old(self)@.entry(handle);
                let a = final(self)@.entries[old(self)@.pos(handle)].afh;
                &&& r == Ok::<(), Errno>(())
                &&& a.measured(e.afh, channel as int, rssi_dbm)
                &&& final(self)@ == old(self)@.with_entry(handle, ConnModel { afh: a, ..e })
            },
    {
        let i = match self.find(handle) {
            Some(i) => i,
            None => return Err(Errno::ENOENT),
        };
        if channel >= 79 {
            return Err(Errno::EINVAL);
        }
        let e = &mut self.connections[i];
        let r = e.afh.report_rssi(channel, rssi_dbm);
        proof {
            let e = self.connections@[i as int];
            Self::replaced_view(*old(self), *self, i as int, e);
        }
        r
    }

    /// Takes in a transmission on a channel. Where automatic classification is on and
    /// more reports came in than it asks for, the channels are classified. Returns
    /// `ENOENT` where there is no such connection and `EINVAL` where there is no such
    /// channel.
    pub fn report_retx(&mut self, handle: u16, channel: u8, retransmitted: bool) -> (r: Result<
        (),
        Errno,
    >)
        requires
            old(self).wf(),
        ensures
            final(self).wf(),
            if !old(self)@.has(handle) {
                r == Err::<(), Errno>(Errno::ENOENT) && final(self)@ == old(self)@
            } else if channel >= 79 {
                r == Err::<(), Errno>(Errno::EINVAL) && final(self)@ == old(self)@
            } else {
                let e = old(self)@.entry(handle);
                let a = final(self)@.entries[old(self)@.pos(handle)].afh;
                &&& r == Ok::<(), Errno>(())
                &&& a.reported(e.afh, channel as int, retransmitted)
                &&& final(self)@ == old(self)@.with_entry(handle, ConnModel { afh: a, ..e })
            },
    {
        let i = match self.find(handle) {
            Some(i) => i,
            None => return Err(Errno::ENOENT),
        };
        if channel >= 79 {
            return Err(Errno::EINVAL);
        }
        let e = &mut self.connections[i];
        let r = e.afh.report_retx(channel, retransmitted);
        proof {
            let e = self.connections@[i as int];
            Self::replaced_view(*old(self), *self, i as int, e);
        }
        r
    }

    /// Sets after how many reports the channels of a connection are classified on their
    /// own, 0 for never.
    pub fn set_auto_classify(&mut self, handle: u16, threshold: u16) -> (r: Result<(), Errno>)
        requires
            old(self).wf(),
        ensures
            final(self).wf(),
            if !old(self)@.has(handle) {
                r == Err::<(), Errno>(Errno::ENOENT) && final(self)@ == old(self)@
            } else {
                let e = old(self)@.entry(handle);
                r == Ok::<(), Errno>(()) && final(self)@ == old(self)@.with_entry(
                    handle,
                    ConnModel {
                        afh: AfhState { auto_classify_threshold: threshold, ..e.afh },
                        ..e
                    },
                )
            },
    {
        let i = match self.find(handle) {
            Some(i) => i,
            None => return Err(Errno::ENOENT),
        };
        let e = &mut self.connections[i];
        e.afh.auto_classify_threshold = threshold;
        proof {
            let e = self.connections@[i as int];
            Self::replaced_view(*old(self), *self, i as int, e);
        }
        Ok(())
    }

    /// Takes the bad channels of a connection out of use, forgets what was measured, and
    /// returns the channels left.
    pub fn classify_channels(&mut self, handle: u16, threshold_dbm: i8, min_channels: u8) -> (r:
        Result<ChannelMap, Errno>)
        requires
            old(self).wf(),
        ensures
            final(self).wf(),
            match old(self)@.unusable(handle) {
                Some(e) => r == Err::<ChannelMap, Errno>(e) && final(self)@ == old(self)@,
                None => {
                    let e = old(self)@.entry(handle);
                    let a = final(self)@.entries[old(self)@.pos(handle)].afh;
                    &&& r == Ok::<ChannelMap, Errno>(a.hopping.channel_map)
                    &&& a.after_classify(e.afh, threshold_dbm, min_channels)
                    &&& final(self)@ == old(self)@.with_entry(handle, ConnModel { afh: a, ..e })
                },
            },
    {
        let i = match self.find_connected(handle) {
            Ok(i) => i,
            Err(e) => return Err(e),
        };
        let e = &mut self.connections[i];
        let m = e.afh.classify(threshold_dbm, min_channels);
        proof {
            let e = self.connections@[i as int];
            Self::replaced_view(*old(self), *self, i as int, e);
        }
        Ok(m)
    }

    /// For each connection the time in milliseconds without traffic after which it is
    /// given up.
    pub fn supervision_timeouts_ms(&self) -> (r: Vec<u32>)
        ensures
            r@ == self@.entries.map_values(
                |e: ConnModel| (e.params.supervision_timeout * 10) as u32,
            ),
    {
        let mut out: Vec<u32> = Vec::new();
        let mut i: usize = 0;
        while i < self.connections.len()
            invariant
                i <= self.connections.len(),
                out@ == self@.entries.take(i as int).map_values(
                    |e: ConnModel| (e.params.supervision_timeout * 10) as u32,
                ),
            decreases self.connections.len() - i,
        {
            let t = self.connections[i].params.supervision_timeout as u32;
            out.push(t * 10);
            i = i + 1;
            assert(out@ =~= self@.entries.take(i as int).map_values(
                |e: ConnModel| (e.params.supervision_timeout * 10) as u32,
            ));
        }
        assert(self@.entries.take(i as int) == self@.entries);
        out
    }

    /// Writes the handles of the connections that have been without traffic for too long
    /// to the start of `out`, and returns how many there are. `timeouts` holds the time
    /// of each connection, in the unit of `now`.
    pub fn check_supervision_timeouts(&self, now: u64, timeouts: &[u64], out: &mut [u16; 8]) -> (r:
        usize)
        requires
            self.wf(),
            timeouts@.len() == self@.entries.len(),
        ensures
            r == expired(self@.entries, now, timeouts@).len(),
            r <= 8,
            listed(expired(self@.entries, now, timeouts@), old(out)@, final(out)@),
    {
        let mut count: usize = 0;
        let mut i: usize = 0;
        while i < self.connections.len()
            invariant
                i <= self.connections.len() <= 8,
                timeouts@.len() == self.connections@.len(),
                count <= i,
                count == expired(self@.entries.take(i as int), now, timeouts@).len(),
                forall|k: int|
                    0 <= k < 8 ==> out@[k] == if k < count {
                        expired(self@.entries.take(i as int), now, timeouts@)[k]
                    } else {
                        old(out)@[k]
                    },
            decreases self.connections.len() - i,
        {
            let e = &self.connections[i];
            proof {
                let t = self@.entries.take(i + 1);
                assert(t.drop_last() == self@.entries.take(i as int));
                assert(t.last() == e@);
            }
            if e.state == ConnState::Connected && e.last_activity != 0
                && e.params.supervision_timeout != 0 {
                let elapsed = now.wrapping_sub(e.last_activity);
                assert(elapsed == e@.elapsed(now));
                if elapsed > timeouts[i] {
                    out[count] = e.handle;
                    count = count + 1;
                }
            }
            i = i + 1;
        }
        assert(self@.entries.take(i as int) == self@.entries);
        count
    }

    /// The time until a connection is given up next, if one is supervised. `timeouts`
    /// holds the time of each connection, in the unit of `now`.
    pub fn next_supervision_jiffies(&self, now: u64, timeouts: &[u64]) -> (r: Option<u64>)
        requires
            timeouts@.len() == self@.entries.len(),
        ensures
            soonest(self@.entries, now, timeouts@, r),
    {
        let mut earliest: Option<u64> = None;
        let mut i: usize = 0;
        while i < self.connections.len()
            invariant
                i <= self.connections.len(),
                timeouts@.len() == self.connections@.len(),
                match earliest {
                    None => forall|k: int|
                        0 <= k < i ==> !(#[trigger] self@.entries[k]).running(now, timeouts@[k]),
                    Some(x) => {
                        &&& exists|k: int|
                            0 <= k < i && (#[trigger] self@.entries[k]).running(now, timeouts@[k])
                                && x == timeouts@[k] - self@.entries[k].elapsed(now)
                        &&& forall|k: int|
                            0 <= k < i && (#[trigger] self@.entries[k]).running(now, timeouts@[k])
                                ==> x <= timeouts@[k] - self@.entries[k].elapsed(now)
                    },
                },
            decreases self.connections.len() - i,
        {
            let e = &self.connections[i];
            assert(self@.entries[i as int] == e@);
            if e.state == ConnState::Connected && e.last_activity != 0
                && e.params.supervision_timeout != 0 {
                let elapsed = now.wrapping_sub(e.last_activity);
                assert(elapsed == e@.elapsed(now));
                if elapsed < timeouts[i] {
                    let remaining = timeouts[i] - elapsed;
                    earliest = match earliest {
                        Some(x) => if remaining < x {
                            Some(remaining)
                        } else {
                            Some(x)
                        },
                        None => Some(remaining),
                    };
                }
            }
            i = i + 1;
        }
        earliest
    }

    /// Gives a connection up after a time without traffic, and returns the address of its
    /// peer, or `ENOENT`.
    pub fn timeout_disconnect(&mut self, handle: u16) -> (r: Result<[u8; 6], Errno>)
        requires
            old(self).wf(),
        ensures
            final(self).wf(),
            if old(self)@.has(handle) {
                &&& r matches Ok(a) && a@ == old(self)@.entry(handle).peer_addr
                &&& final(self)@ == old(self)@.with_entry(
                    handle,
                    old(self)@.entry(handle).timed_out(),
                )
            } else {
                r == Err::<[u8; 6], Errno>(Errno::ENOENT) && final(self)@ == old(self)@
            },
    {
        let i = match self.find(handle) {
            Some(i) => i,
            None => return Err(Errno::ENOENT),
        };
        let e = &mut self.connections[i];
        let peer = e.peer_addr;
        e.channels.close_all();
        e.state = ConnState::Idle;
        e.ssap_session = None;
        proof {
            let e = self.connections@[i as int];
            Self::replaced_view(*old(self), *self, i as int, e);
        }
        Ok(peer)
    }

    /// Configures a unicast group of synchronous links, or returns `EINVAL` where its
    /// identifier or its number of links is out of range.
    pub fn sync_ucast_configure(&mut self, params: &SyncCigParams) -> (r: Result<
        SyncCigResult,
        Errno,
    >)
        requires
            old(self).wf(),
        ensures
            final(self).wf(),
            if SyncLinks::configurable(params.cig_id, params.link_count) {
                let first = old(self)@.next_sync;
                &&& r matches Ok(g) && g.cig_id == params.cig_id && g.link_count
                    == params.link_count && g.handles@ == Seq::new(
                    8,
                    |i: int|
                        if i < params.link_count {
                            sync_link::handle_after(first, i)
                        } else {
                            0
                        },
                )
                &&& final(self)@ == (MgrModel {
                    sync: sync_link::others(
                        old(self)@.sync,
                        params.cig_id,
                        SyncLinkType::Unicast,
                    ) + Seq::new(
                        params.link_count as nat,
                        |i: int|
                            sync_link::unicast_link(
                                *params,
                                sync_link::handle_after(first, i),
                                i,
                            ),
                    ),
                    next_sync: sync_link::handle_after(first, params.link_count as int),
                    ..old(self)@
                })
            } else {
                r == Err::<SyncCigResult, Errno>(Errno::EINVAL) && final(self)@ == old(self)@
            },
    {
        self.sync.ucast_configure(params)
    }

    /// Configures a multicast group of synchronous links, or returns `EINVAL` where its
    /// identifier or its number of links is out of range.
    pub fn sync_mcast_configure(&mut self, params: &SyncBigParams) -> (r: Result<
        SyncBigResult,
        Errno,
    >)
        requires
            old(self).wf(),
        ensures
            final(self).wf(),
            if SyncLinks::configurable(params.big_id, params.link_count) {
                let first = old(self)@.next_sync;
                &&& r matches Ok(g) && g.big_id == params.big_id && g.link_count
                    == params.link_count && g.handles@ == Seq::new(
                    8,
                    |i: int|
                        if i < params.link_count {
                            sync_link::handle_after(first, i)
                        } else {
                            0
                        },
                )
                &&& final(self)@ == (MgrModel {
                    sync: sync_link::others(
                        old(self)@.sync,
                        params.big_id,
                        SyncLinkType::Multicast,
                    ) + Seq::new(
                        params.link_count as nat,
                        |i: int|
                            sync_link::multicast_link(
                                *params,
                                sync_link::handle_after(first, i),
                                i,
                            ),
                    ),
                    next_sync: sync_link::handle_after(first, params.link_count as int),
                    ..old(self)@
                })
            } else {
                r == Err::<SyncBigResult, Errno>(Errno::EINVAL) && final(self)@ == old(self)@
            },
    {
        self.sync.mcast_configure(params)
    }

    fn check_acl(&self, acl_handles: &[u16]) -> (r: Result<(), Errno>)
        requires
            self.wf(),
        ensures
            r == (match self@.acl_error(acl_handles@, 0) {
                Some(e) => Err::<(), Errno>(e),
                None => Ok(()),
            }),
    {
        let mut i: usize = 0;
        while i < acl_handles.len()
            invariant
                i <= acl_handles.len(),
                self.wf(),
                self@.acl_error(acl_handles@, 0) == self@.acl_error(acl_handles@, i as int),
            decreases acl_handles.len() - i,
        {
            match self.find_connected(acl_handles[i]) {
                Ok(_) => {},
                Err(e) => return Err(e),
            }
            i = i + 1;
        }
        Ok(())
    }

    fn sync_create(&mut self, id: u8, ty: SyncLinkType, acl_handles: &[u16]) -> (r: Result<
        u8,
        Errno,
    >)
        requires
            old(self).wf(),
        ensures
            final(self).wf(),
            match old(self)@.acl_error(acl_handles@, 0) {
                Some(e) => r == Err::<u8, Errno>(e) && final(self)@ == old(self)@,
                None => {
                    let n = sync_link::created_count(old(self)@.sync, id, ty, acl_handles@);
                    &&& match r {
                        Ok(c) => c > 0 && c == n,
                        Err(e) => e == Errno::ENOENT && n == 0,
                    }
                    &&& final(self)@ == (MgrModel {
                        sync: sync_link::created(old(self)@.sync, id, ty, acl_handles@),
                        ..old(self)@
                    })
                },
            },
    {
        match self.check_acl(acl_handles) {
            Ok(()) => {},
            Err(e) => return Err(e),
        }
        self.sync.create(id, ty, acl_handles)
    }

    /// Creates the links of a unicast group that wait, in order, one for each connection
    /// of `acl_handles`, and returns how many. Returns `ENOENT` or `EPIPE` where one of
    /// the connections is not there or not established, and `ENOENT` where no link is
    /// created.
    pub fn sync_ucast_create(&mut self, cig_id: u8, acl_handles: &[u16]) -> (r: Result<u8, Errno>)
        requires
            old(self).wf(),
        ensures
            final(self).wf(),
            match old(self)@.acl_error(acl_handles@, 0) {
                Some(e) => r == Err::<u8, Errno>(e) && final(self)@ == old(self)@,
                None => {
                    let n = sync_link::created_count(
                        old(self)@.sync,
                        cig_id,
                        SyncLinkType::Unicast,
                        acl_handles@,
                    );
                    &&& match r {
                        Ok(c) => c > 0 && c == n,
                        Err(e) => e == Errno::ENOENT && n == 0,
                    }
                    &&& final(self)@ == (MgrModel {
                        sync: sync_link::created(
                            old(self)@.sync,
                            cig_id,
                            SyncLinkType::Unicast,
                            acl_handles@,
                        ),
                        ..old(self)@
                    })
                },
            },
    {
        self.sync_create(cig_id, SyncLinkType::Unicast, acl_handles)
    }

    /// Creates the links of a multicast group, as `sync_ucast_create` does those of a
    /// unicast group.
    pub fn sync_mcast_create(&mut self, big_id: u8, acl_handles: &[u16]) -> (r: Result<u8, Errno>)
        requires
            old(self).wf(),
        ensures
            final(self).wf(),
            match old(self)@.acl_error(acl_handles@, 0) {
                Some(e) => r == Err::<u8, Errno>(e) && final(self)@ == old(self)@,
                None => {
                    let n = sync_link::created_count(
                        old(self)@.sync,
                        big_id,
                        SyncLinkType::Multicast,
                        acl_handles@,
                    );
                    &&& match r {
                        Ok(c) => c > 0 && c == n,
                        Err(e) => e == Errno::ENOENT && n == 0,
                    }
                    &&& final(self)@ == (MgrModel {
                        sync: sync_link::created(
                            old(self)@.sync,
                            big_id,
                            SyncLinkType::Multicast,
                            acl_handles@,
                        ),
                        ..old(self)@
                    })
                },
            },
    {
        self.sync_create(big_id, SyncLinkType::Multicast, acl_handles)
    }

    fn sync_remove(&mut self, id: u8, ty: SyncLinkType) -> (r: Result<(), Errno>)
        requires
            old(self).wf(),
        ensures
            final(self).wf(),
            r == (if sync_link::any_active(old(self)@.sync, id, ty) {
                Err::<(), Errno>(Errno::EBUSY)
            } else if sync_link::any_member(old(self)@.sync, id, ty) {
                Ok(())
            } else {
                Err(Errno::ENOENT)
            }),
            final(self)@ == (if r is Ok {
                MgrModel { sync: sync_link::others(old(self)@.sync, id, ty), ..old(self)@ }
            } else {
                old(self)@
            }),
    {
        self.sync.remove(id, ty)
    }

    /// Removes a unicast group. Returns `EBUSY` where a link of it is active and `ENOENT`
    /// where it has none.
    pub fn sync_ucast_remove(&mut self, cig_id: u8) -> (r: Result<(), Errno>)
        requires
            old(self).wf(),
        ensures
            final(self).wf(),
            r == (if sync_link::any_active(old(self)@.sync, cig_id, SyncLinkType::Unicast) {
                Err::<(), Errno>(Errno::EBUSY)
            } else if sync_link::any_member(old(self)@.sync, cig_id, SyncLinkType::Unicast) {
                Ok(())
            } else {
                Err(Errno::ENOENT)
            }),
            final(self)@ == (if r is Ok {
                MgrModel {
                    sync: sync_link::others(old(self)@.sync, cig_id, SyncLinkType::Unicast),
                    ..old(self)@
                }
            } else {
                old(self)@
            }),
    {
        self.sync_remove(cig_id, SyncLinkType::Unicast)
    }

    /// Removes a multicast group. Returns `EBUSY` where a link of it is active and
    /// `ENOENT` where it has none.
    pub fn sync_mcast_remove(&mut self, big_id: u8) -> (r: Result<(), Errno>)
        requires
            old(self).wf(),
        ensures
            final(self).wf(),
            r == (if sync_link::any_active(old(self)@.sync, big_id, SyncLinkType::Multicast) {
                Err::<(), Errno>(Errno::EBUSY)
            } else if sync_link::any_member(old(self)@.sync, big_id, SyncLinkType::Multicast) {
                Ok(())
            } else {
                Err(Errno::ENOENT)
            }),
            final(self)@ == (if r is Ok {
                MgrModel {
                    sync: sync_link::others(old(self)@.sync, big_id, SyncLinkType::Multicast),
                    ..old(self)@
                }
            } else {
                old(self)@
            }),
    {
        self.sync_remove(big_id, SyncLinkType::Multicast)
    }

    /// Gives a synchronous link a data path. Returns `ENOENT` where there is no such link
    /// and `EINVAL` where it is not active.
    pub fn sync_datapath_config(
        &mut self,
        sync_handle: u16,
        direction: u8,
        path_id: u8,
        codec_id: u8,
    ) -> (r: Result<(), Errno>)
        requires
            old(self).wf(),
        ensures
            final(self).wf(),
            if !sync_link::has_link(old(self)@.sync, sync_handle) {
                r == Err::<(), Errno>(Errno::ENOENT) && final(self)@ == old(self)@
            } else {
                let i = sync_link::link_pos(old(self)@.sync, sync_handle);
                let l = old(self)@.sync[i];
                if l.state != sync_link::SyncLinkState::Active {
                    r == Err::<(), Errno>(Errno::EINVAL) && final(self)@ == old(self)@
                } else {
                    r == Ok::<(), Errno>(()) && final(self)@ == (MgrModel {
                        sync: old(self)@.sync.update(
                            i,
                            SyncLinkEntry {
                                datapath_direction: direction,
                                datapath_id: path_id,
                                codec_id,
                                datapath_configured: true,
                                ..l
                            },
                        ),
                        ..old(self)@
                    })
                }
            },
    {
        self.sync.datapath_config(sync_handle, direction, path_id, codec_id)
    }

    /// Takes the data path of a synchronous link away. Returns `ENOENT` where there is no
    /// such link and `EINVAL` where it has none.
    pub fn sync_datapath_remove(&mut self, sync_handle: u16) -> (r: Result<(), Errno>)
        requires
            old(self).wf(),
        ensures
            final(self).wf(),
            if !sync_link::has_link(old(self)@.sync, sync_handle) {
                r == Err::<(), Errno>(Errno::ENOENT) && final(self)@ == old(self)@
            } else {
                let i = sync_link::link_pos(old(self)@.sync, sync_handle);
                let l = old(self)@.sync[i];
                if !l.datapath_configured {
                    r == Err::<(), Errno>(Errno::EINVAL) && final(self)@ == old(self)@
                } else {
                    r == Ok::<(), Errno>(()) && final(self)@ == (MgrModel {
                        sync: old(self)@.sync.update(i, sync_link::without_path(l)),
                        ..old(self)@
                    })
                }
            },
    {
        self.sync.datapath_remove(sync_handle)
    }

    /// The first synchronous link of a handle, or `ENOENT`.
    pub fn sync_link_info(&self, sync_handle: u16) -> (r: Result<&SyncLinkEntry, Errno>)
        ensures
            match r {
                Ok(l) => sync_link::has_link(self@.sync, sync_handle) && *l
                    == self@.sync[sync_link::link_pos(self@.sync, sync_handle)],
                Err(e) => !sync_link::has_link(self@.sync, sync_handle) && e == Errno::ENOENT,
            },
    {
        self.sync.link_info(sync_handle)
    }
}

proof fn replaced_has(m: MgrModel, h: u16, e: ConnModel)
    requires
        unique(m.entries),
        m.has(h),
        e.handle == h,
    ensures
        unique(m.with_entry(h, e).entries),
        m.with_entry(h, e).has(h),
        m.with_entry(h, e).entry(h) == e,
        m.with_entry(h, e).pos(h) == m.pos(h),
{
    let n = m.with_entry(h, e);
    let i = m.pos(h);
    assert(m.entries[i].handle == h);
    assert(n.entries[i] == e);
    assert forall|a: int, b: int| 0 <= a < b < n.entries.len() implies (
    #[trigger] n.entries[a]).handle != (#[trigger] n.entries[b]).handle by {
        assert(m.entries[a].handle != m.entries[b].handle);
    }
    pos_is(n, h, i);
}

/// The life of a connection: one that was begun waits for the controller; once the
/// controller and the peer accepted it, it is established, with all channels open and
/// a fresh service session.
pub proof fn becomes_connected(
    m: MgrModel,
    n: MgrModel,
    peer: Seq<u8>,
    role: GtRole,
    params: NegotiatedParams,
    now: u64,
)
    requires
        unique(m.entries),
        m.entries.len() <= MAX_CONNECTIONS,
        1 <= m.next_handle <= 0xFFFE,
        n.begun(m, peer, role),
    ensures
        ({
            let h = m.new_handle();
            let c = n.confirmed(h);
            let d = c.answered(h, AccessResponseType::Accepted, params, now);
            &&& n.is_in(h, ConnState::ConnectPending)
            &&& c.is_in(h, ConnState::Connecting)
            &&& d.is_in(h, ConnState::Connected)
            &&& d.entry(h).peer_addr == peer
            &&& d.entry(h).local_role == role
            &&& d.entry(h).params == params
            &&& d.entry(h).channels.mgmt.state == conn_channel::ChannelState::Open
            &&& d.entry(h).channels.svc_mgmt.state == conn_channel::ChannelState::Open
            &&& d.entry(h).channels.data.state == conn_channel::ChannelState::Open
            &&& d.entry(h).session == Some(ssap_session::session_start(h))
            &&& d.unusable(h) is None
        }),
{
    let h = m.new_handle();
    new_handle_is_free(m);
    let k = m.entries.len() as int;
    assert(n.entries[k].handle == h);
    assert forall|a: int, b: int| 0 <= a < b < n.entries.len() implies (
    #[trigger] n.entries[a]).handle != (#[trigger] n.entries[b]).handle by {
        if b < k {
            assert(m.entries[a].handle != m.entries[b].handle);
        } else {
            assert(m.entries[a].handle != h);
        }
    }
    pos_is(n, h, k);
    let e = ConnModel { state: ConnState::Connecting, ..n.entry(h) };
    replaced_has(n, h, e);
    let c = n.confirmed(h);
    replaced_has(c, h, c.entry(h).accepted(params, now));
}

/// A connection that was asked to be closed is gone once the controller accepted that,
/// and the others are as they were.
pub proof fn becomes_closed(m: MgrModel, h: u16, other: u16)
    requires
        unique(m.entries),
        m.closable(h),
        other != h,
    ensures
        !m.closing(h).closed(h).has(h),
        m.closing(h).closed(h).has(other) == m.has(other),
        m.has(other) ==> m.closing(h).closed(h).entry(other) == m.entry(other),
        m.closing(h).closed(h).entries.len() == m.entries.len() - 1,
        unique(m.closing(h).closed(h).entries),
{
    let i = m.pos(h);
    let c = m.closing(h);
    replaced_has(m, h, ConnModel { state: ConnState::DisconnectPending, ..m.entry(h) });
    let d = c.closed(h);
    assert(d.entries =~= c.entries.remove(i));
    assert forall|a: int| 0 <= a < d.entries.len() implies (#[trigger] d.entries[a]).handle
        != h by {
        let b = if a < i {
            a
        } else {
            a + 1
        };
        assert(d.entries[a] == c.entries[b]);
        if b < i {
            assert(c.entries[b].handle != c.entries[i].handle);
        } else {
            assert(c.entries[i].handle != c.entries[b].handle);
        }
    }
    assert forall|a: int, b: int| 0 <= a < b < d.entries.len() implies (
    #[trigger] d.entries[a]).handle != (#[trigger] d.entries[b]).handle by {
        let x = if a < i {
            a
        } else {
            a + 1
        };
        let y = if b < i {
            b
        } else {
            b + 1
        };
        assert(d.entries[a] == c.entries[x]);
        assert(d.entries[b] == c.entries[y]);
        assert(c.entries[x].handle != c.entries[y].handle);
    }
    if m.has(other) {
        let j = m.pos(other);
        assert(m.entries[j].handle == other);
        assert(c.entries[j] == m.entries[j]);
        let k = if j < i {
            j
        } else {
            j - 1
        };
        assert(d.entries[k] == m.entries[j]);
        pos_is(d, other, k);
    }
    if d.has(other) {
        let k = d.pos(other);
        assert(d.entries[k].handle == other);
        let j = if k < i {
            k
        } else {
            k + 1
        };
        assert(d.entries[k] == c.entries[j]);
        assert(m.entries[j].handle == other);
    }
}

/// A message that arrives twice is taken in once: after it was taken in, a message of
/// the same sequence number changes nothing.
pub proof fn duplicate_ignored(
    e: ConnModel,
    data: Seq<u8>,
    again: Seq<u8>,
    seq: u8,
    now: u64,
    later: u64,
)
    requires
        e.seq.modulus == 2,
        e.seq.wf(),
        e.expects(seq),
    ensures
        e.received(data, seq, now).received(again, seq, later) == e.received(data, seq, now),
{
}

/// What one side sends, the other side receives in order: the sequence number of the
/// next message to send is the one that the receiver expects, before and after each
/// message.
pub proof fn sides_stay_in_step(a: ConnModel, b: ConnModel, data: Seq<u8>, t: u64, u: u64)
    requires
        a.seq.modulus == 2,
        a.seq.wf(),
        b.seq.modulus == 2,
        b.seq.wf(),
        a.seq.tx_seq == b.seq.rx_seq,
        data.len() <= 255,
        b.rx_queue.len() < 64,
    ensures
        b.expects(a.seq.tx_seq),
        b.received(data, a.seq.tx_seq, u).rx_queue == b.rx_queue.push(data),
        a.sent(data, t).seq.tx_seq == b.received(data, a.seq.tx_seq, u).seq.rx_seq,
{
    assert(bytes::prefix(data, 255) =~= data);
}

/// Segments of the data channel are never longer than its messages once its sizes were
/// set or agreed on.
pub proof fn segments_fit(e: ConnModel, mtu: u16, mps: Option<u16>, tx: u16, rx: u16)
    requires
        tx > 0,
        rx > 0,
    ensures
        e.with_data_mtu(mtu, mps).channels.data.mps <= mtu,
        e.with_data_mtu(mtu, mps).channels.data.mtu == mtu,
        e.with_data_length(tx, rx).channels.data.mps <= e.with_data_length(tx, rx).channels.data.mtu,
        e.with_data_length(tx, rx).channels.data.mtu <= tx,
        e.with_data_length(tx, rx).channels.data.mtu <= rx,
{
}

} // verus!
