//! Transport channels of a connection: sequence windows and credits.

use vstd::prelude::*;

use crate::errno::Errno;
use crate::tcid;

verus! {

/// How a channel delivers.
#[derive(Clone, Copy, Debug, PartialEq, Eq, Structural)]
pub enum TransportMode {
    /// Without retransmission.
    Unreliable,
    /// With retransmission and credits.
    Reliable,
}

impl TransportMode {
    /// The number of the mode.
    #[verifier::allow_in_spec]
    pub fn code(self) -> u8
        returns
            (match self {
                TransportMode::Unreliable => 0u8,
                TransportMode::Reliable => 1u8,
            }),
    {
        match self {
            TransportMode::Unreliable => 0,
            TransportMode::Reliable => 1,
        }
    }
}

/// Whether a channel is in use.
#[derive(Clone, Copy, Debug, PartialEq, Eq, Structural)]
pub enum ChannelState {
    /// Not set up.
    Closed,
    /// Ready for data.
    Open,
}

impl ChannelState {
    /// The number of the state.
    #[verifier::allow_in_spec]
    pub fn code(self) -> u8
        returns
            (match self {
                ChannelState::Closed => 0u8,
                ChannelState::Open => 1u8,
            }),
    {
        match self {
            ChannelState::Closed => 0,
            ChannelState::Open => 1,
        }
    }
}

/// Credits that a reliable channel starts with, and the size of its window.
pub const INITIAL_CREDITS: u16 = 16;

/// Below this many receive credits the peer is granted new ones.
pub const CREDIT_LOW_WATERMARK: u16 = 4;

/// Credits of one grant.
pub const CREDIT_GRANT_SIZE: u16 = 16;

/// Code of a credit grant on the management channel.
pub const CREDIT_GRANT_PDU_TYPE: u8 = 0xFC;

/// Bytes of a credit grant.
pub const CREDIT_GRANT_PDU_SIZE: usize = 8;

/// Sequence numbers count modulo this.
pub const SEQ_MODULUS: u16 = 0x4000;

/// Steps from sequence number `b` forward to `a`.
pub open spec fn distance(a: u16, b: u16) -> int {
    (a - b) % 0x4000
}

/// A distance, without a remainder.
proof fn distance_is(a: u16, b: u16)
    requires
        a < 0x4000,
        b < 0x4000,
    ensures
        distance(a, b) == (if a >= b {
            a - b
        } else {
            a - b + 0x4000
        }),
{
}

/// A sum of sequence numbers, without a remainder.
proof fn wraps(x: int)
    requires
        0 <= x < 0x8000,
    ensures
        x % 0x4000 == (if x < 0x4000 {
            x
        } else {
            x - 0x4000
        }),
{
}

fn seq_distance(a: u16, b: u16) -> (r: u16)
    requires
        a < 0x4000,
        b < 0x4000,
    ensures
        r == distance(a, b),
{
    (a + 0x4000 - b) % 0x4000
}

/// The sequence number behind `a`.
pub open spec fn next_seq(a: u16) -> u16 {
    ((a + 1) % 0x4000) as u16
}

/// Sequence numbers of a reliable channel.
#[derive(Clone, Copy, Debug)]
pub struct SeqState {
    /// Number of the next new message.
    pub next_tx_seq: u16,
    /// Number of the oldest message that is not acknowledged.
    pub expected_ack_seq: u16,
    /// Number of the next message to send again; nothing is to be sent again where it
    /// is that of the next new message.
    pub retx_seq: u16,
    /// Most messages that may wait for acknowledgement.
    pub tx_window: u16,
    /// Number of the message that is expected next.
    pub expected_rx_seq: u16,
    /// Number behind the last message that was set aside.
    pub buffer_seq: u16,
    /// Messages sent.
    pub tx_count: u32,
    /// Messages sent again.
    pub retx_count: u32,
    /// Messages taken in, in order.
    pub rx_count: u32,
    /// Messages dropped.
    pub rx_drop_count: u32,
}

/// The state of a fresh channel.
pub open spec fn seq_start() -> SeqState {
    SeqState {
        next_tx_seq: 0,
        expected_ack_seq: 0,
        retx_seq: 0,
        tx_window: INITIAL_CREDITS,
        expected_rx_seq: 0,
        buffer_seq: 0,
        tx_count: 0,
        retx_count: 0,
        rx_count: 0,
        rx_drop_count: 0,
    }
}

impl Default for SeqState {
    fn default() -> (r: Self)
        ensures
            r == seq_start(),
    {
        SeqState {
            next_tx_seq: 0,
            expected_ack_seq: 0,
            retx_seq: 0,
            tx_window: INITIAL_CREDITS,
            expected_rx_seq: 0,
            buffer_seq: 0,
            tx_count: 0,
            retx_count: 0,
            rx_count: 0,
            rx_drop_count: 0,
        }
    }
}

/// What a sender may do.
#[derive(Clone, Copy, Debug, PartialEq, Eq, Structural)]
pub enum TxAction {
    /// Send a new message under this number.
    SendNew(u16),
    /// Send the message of this number again.
    Retransmit(u16),
    /// Wait: too many messages are not acknowledged.
    WindowFull,
}

/// What a receiver does with a message.
#[derive(Clone, Copy, Debug, PartialEq, Eq, Structural)]
pub enum RxAction {
    /// Hand it on.
    Accept,
    /// Set it aside until those before it arrive.
    Buffer,
    /// Drop it.
    Drop,
}

impl SeqState {
    /// All numbers are sequence numbers.
    pub open spec fn wf(self) -> bool {
        &&& self.next_tx_seq < 0x4000
        &&& self.expected_ack_seq < 0x4000
        &&& self.retx_seq < 0x4000
        &&& self.expected_rx_seq < 0x4000
        &&& self.buffer_seq < 0x4000
    }

    /// Messages that wait for acknowledgement.
    pub open spec fn outstanding(self) -> int {
        distance(self.next_tx_seq, self.expected_ack_seq)
    }

    /// What a sender does next: messages that are to be sent again come first.
    pub open spec fn tx_action(self) -> TxAction {
        if self.retx_seq != self.next_tx_seq {
            TxAction::Retransmit(self.retx_seq)
        } else if self.outstanding() < self.tx_window {
            TxAction::SendNew(self.next_tx_seq)
        } else {
            TxAction::WindowFull
        }
    }

    /// The state after the sender did that.
    pub open spec fn after_tx(self) -> SeqState {
        match self.tx_action() {
            TxAction::Retransmit(_) => SeqState {
                retx_seq: next_seq(self.retx_seq),
                retx_count: (self.retx_count + 1) as u32,
                ..self
            },
            TxAction::SendNew(_) => SeqState {
                next_tx_seq: next_seq(self.next_tx_seq),
                retx_seq: next_seq(self.next_tx_seq),
                tx_count: (self.tx_count + 1) as u32,
                ..self
            },
            TxAction::WindowFull => self,
        }
    }

    /// Messages that acknowledgement `ack` frees: those up to it, or none where it
    /// lies outside the window.
    pub open spec fn acked(self, ack: u16) -> int {
        let n = distance((ack % 0x4000) as u16, self.expected_ack_seq);
        if n <= self.tx_window {
            n
        } else {
            0
        }
    }

    /// What a receiver does with the message of number `seq`.
    pub open spec fn rx_action(self, seq: u16) -> RxAction {
        let d = distance((seq % 0x4000) as u16, self.expected_rx_seq);
        if d == 0 {
            RxAction::Accept
        } else if d < self.tx_window {
            RxAction::Buffer
        } else {
            RxAction::Drop
        }
    }

    /// The state after the message of number `seq` arrived.
    pub open spec fn after_rx(self, seq: u16) -> SeqState {
        match self.rx_action(seq) {
            RxAction::Accept => SeqState {
                expected_rx_seq: next_seq(self.expected_rx_seq),
                buffer_seq: next_seq(self.expected_rx_seq),
                rx_count: (self.rx_count + 1) as u32,
                ..self
            },
            RxAction::Buffer => {
                let end = next_seq((seq % 0x4000) as u16);
                let d = distance(end, self.expected_rx_seq);
                SeqState {
                    buffer_seq: if distance(self.buffer_seq, self.expected_rx_seq) < d
                        < self.tx_window {
                        end
                    } else {
                        self.buffer_seq
                    },
                    ..self
                }
            },
            RxAction::Drop => SeqState {
                rx_drop_count: (self.rx_drop_count + 1) as u32,
                ..self
            },
        }
    }

    /// Tells the sender what to do next, and takes it as done.
    pub fn next_tx_action(&mut self) -> (r: TxAction)
        requires
            old(self).wf(),
            old(self).tx_count < u32::MAX,
            old(self).retx_count < u32::MAX,
        ensures
            r == old(self).tx_action(),
            *final(self) == old(self).after_tx(),
            final(self).wf(),
    {
        if self.retx_seq == self.next_tx_seq {
            let outstanding = seq_distance(self.next_tx_seq, self.expected_ack_seq);
            if outstanding < self.tx_window {
                let seq = self.next_tx_seq;
                self.next_tx_seq = (self.next_tx_seq + 1) % SEQ_MODULUS;
                self.retx_seq = self.next_tx_seq;
                self.tx_count = self.tx_count + 1;
                TxAction::SendNew(seq)
            } else {
                TxAction::WindowFull
            }
        } else {
            let seq = self.retx_seq;
            self.retx_seq = (self.retx_seq + 1) % SEQ_MODULUS;
            self.retx_count = self.retx_count + 1;
            TxAction::Retransmit(seq)
        }
    }

    /// Takes in an acknowledgement of all messages before number `ack_seq` and returns
    /// how many messages it acknowledges.
    pub fn process_ack(&mut self, ack_seq: u16) -> (r: u16)
        requires
            old(self).wf(),
        ensures
            r == old(self).acked(ack_seq),
            *final(self) == (SeqState {
                expected_ack_seq: ((old(self).expected_ack_seq + r) % 0x4000) as u16,
                ..*old(self)
            }),
            final(self).wf(),
    {
        let ack = ack_seq % SEQ_MODULUS;
        let acked = seq_distance(ack, self.expected_ack_seq);
        if acked > 0 && acked <= self.tx_window {
            self.expected_ack_seq = ack;
            acked
        } else {
            0
        }
    }

    /// Has all messages that are not acknowledged sent again.
    pub fn trigger_retransmit(&mut self)
        ensures
            *final(self) == (SeqState { retx_seq: old(self).expected_ack_seq, ..*old(self) }),
    {
        self.retx_seq = self.expected_ack_seq;
    }

    /// Tells the receiver what to do with the message of number `tx_seq`.
    pub fn classify_rx(&mut self, tx_seq: u16) -> (r: RxAction)
        requires
            old(self).wf(),
            old(self).rx_count < u32::MAX,
            old(self).rx_drop_count < u32::MAX,
        ensures
            r == old(self).rx_action(tx_seq),
            *final(self) == old(self).after_rx(tx_seq),
            final(self).wf(),
    {
        let seq = tx_seq % SEQ_MODULUS;
        let d = seq_distance(seq, self.expected_rx_seq);
        if seq == self.expected_rx_seq {
            self.expected_rx_seq = (self.expected_rx_seq + 1) % SEQ_MODULUS;
            self.buffer_seq = self.expected_rx_seq;
            self.rx_count = self.rx_count + 1;
            RxAction::Accept
        } else if d > 0 && d < self.tx_window {
            let new_end = (seq + 1) % SEQ_MODULUS;
            let new_dist = seq_distance(new_end, self.expected_rx_seq);
            let cur_dist = seq_distance(self.buffer_seq, self.expected_rx_seq);
            if new_dist > cur_dist && new_dist < self.tx_window {
                self.buffer_seq = new_end;
            }
            RxAction::Buffer
        } else {
            self.rx_drop_count = self.rx_drop_count + 1;
            RxAction::Drop
        }
    }
}

/// A sender never lets more messages wait for acknowledgement than the window holds,
/// and acknowledgements of messages that were sent only lower their number.
pub proof fn window_bound(s: SeqState, ack: u16)
    requires
        s.wf(),
        s.outstanding() <= s.tx_window < 0x4000,
    ensures
        s.after_tx().outstanding() <= s.tx_window,
        s.acked(ack) <= s.outstanding() ==> (SeqState {
            expected_ack_seq: ((s.expected_ack_seq + s.acked(ack)) % 0x4000) as u16,
            ..s
        }).outstanding() == s.outstanding() - s.acked(ack),
{
    let a = s.expected_ack_seq;
    let n = s.next_tx_seq;
    distance_is(n, a);
    wraps(n + 1);
    distance_is(next_seq(n), a);
    distance_is((ack % 0x4000) as u16, a);
    let k = s.acked(ack);
    if k <= s.outstanding() {
        wraps(a + k);
        distance_is(n, ((a + k) % 0x4000) as u16);
    }
}

/// The sender's state after `k` steps.
pub open spec fn tx_steps(s: SeqState, k: nat) -> SeqState
    decreases k,
{
    if k == 0 {
        s
    } else {
        tx_steps(s, (k - 1) as nat).after_tx()
    }
}

/// After a retransmission was asked for, the sender sends every message that is not
/// acknowledged again, oldest first, before it sends a new one.
#[verifier::rlimit(60)]
#[verifier::spinoff_prover]
pub proof fn retransmits_all(s: SeqState, k: nat)
    requires
        s.wf(),
        k <= s.outstanding(),
        s.retx_count + s.outstanding() <= u32::MAX,
    ensures
        ({
            let t = tx_steps(SeqState { retx_seq: s.expected_ack_seq, ..s }, k);
            &&& k < s.outstanding() ==> t.tx_action() == TxAction::Retransmit(
                ((s.expected_ack_seq + k) % 0x4000) as u16,
            )
            &&& k == s.outstanding() ==> !(t.tx_action() is Retransmit)
            &&& t == (SeqState {
                retx_seq: ((s.expected_ack_seq + k) % 0x4000) as u16,
                retx_count: (s.retx_count + k) as u32,
                ..s
            })
        }),
    decreases k,
{
    if k > 0 {
        retransmits_all(s, (k - 1) as nat);
    }
}

/// A channel within a connection.
#[derive(Clone, Copy, Debug)]
pub struct TransportChannel {
    /// Identifier of the channel.
    pub tcid: u16,
    /// Whether it is in use.
    pub state: ChannelState,
    /// How it delivers.
    pub mode: TransportMode,
    /// Longest message.
    pub mtu: u16,
    /// Longest segment.
    pub mps: u16,
    /// Messages that may be sent.
    pub tx_credits: u16,
    /// Messages that the peer may send.
    pub rx_credits: u16,
    /// Sequence numbers, used in reliable mode.
    pub seq: SeqState,
}

/// A fresh channel.
pub open spec fn channel_start(tcid: u16, mode: TransportMode, mtu: u16) -> TransportChannel {
    TransportChannel {
        tcid,
        state: ChannelState::Closed,
        mode,
        mtu,
        mps: mtu,
        tx_credits: 0,
        rx_credits: 0,
        seq: seq_start(),
    }
}

/// The sum of two numbers, at most 65535.
pub open spec fn sat_add16(a: u16, b: u16) -> u16 {
    if a + b > 0xFFFF {
        0xFFFF
    } else {
        (a + b) as u16
    }
}

impl TransportChannel {
    /// A fresh channel; segments may be as long as messages.
    pub fn new(tcid: u16, mode: TransportMode, mtu: u16) -> (r: Self)
        ensures
            r == channel_start(tcid, mode, mtu),
    {
        TransportChannel {
            tcid,
            state: ChannelState::Closed,
            mode,
            mtu,
            mps: mtu,
            tx_credits: 0,
            rx_credits: 0,
            seq: SeqState::default(),
        }
    }

    /// The channel after one message was sent.
    pub open spec fn tx_consumed(self) -> TransportChannel {
        if self.mode == TransportMode::Reliable && self.tx_credits > 0 {
            TransportChannel { tx_credits: (self.tx_credits - 1) as u16, ..self }
        } else {
            self
        }
    }

    /// Whether a message may be sent.
    pub open spec fn may_send(self) -> bool {
        self.mode == TransportMode::Unreliable || self.tx_credits > 0
    }

    /// The channel after one message arrived.
    pub open spec fn rx_consumed(self) -> TransportChannel {
        if self.mode == TransportMode::Reliable && self.rx_credits > 0 {
            TransportChannel { rx_credits: (self.rx_credits - 1) as u16, ..self }
        } else {
            self
        }
    }

    /// Whether the peer is to be granted credits after a message arrived.
    pub open spec fn wants_grant(self) -> bool {
        self.mode == TransportMode::Reliable && self.rx_consumed().rx_credits
            < CREDIT_LOW_WATERMARK
    }

    /// The channel after the peer was granted credits.
    pub open spec fn granted(self) -> TransportChannel {
        TransportChannel {
            rx_credits: sat_add16(self.rx_credits, CREDIT_GRANT_SIZE),
            ..self
        }
    }

    /// The channel after the peer granted `n` credits.
    pub open spec fn credited(self, n: u16) -> TransportChannel {
        TransportChannel { tx_credits: sat_add16(self.tx_credits, n), ..self }
    }

    /// Takes a credit for a message to send, or returns `EAGAIN` where none is left.
    /// Unreliable channels need none.
    pub fn try_consume_tx_credit(&mut self) -> (r: Result<(), Errno>)
        ensures
            r == (if old(self).may_send() {
                Ok::<(), Errno>(())
            } else {
                Err::<(), Errno>(Errno::EAGAIN)
            }),
            *final(self) == old(self).tx_consumed(),
    {
        if self.mode == TransportMode::Unreliable {
            return Ok(());
        }
        if self.tx_credits == 0 {
            return Err(Errno::EAGAIN);
        }
        self.tx_credits = self.tx_credits - 1;
        Ok(())
    }

    /// Takes a credit for a message that arrived, and tells whether the peer is to be
    /// granted new ones. Unreliable channels need none.
    pub fn consume_rx_credit(&mut self) -> (r: bool)
        ensures
            r == old(self).wants_grant(),
            *final(self) == old(self).rx_consumed(),
    {
        if self.mode == TransportMode::Unreliable {
            return false;
        }
        if self.rx_credits > 0 {
            self.rx_credits = self.rx_credits - 1;
        }
        self.rx_credits < CREDIT_LOW_WATERMARK
    }

    /// Adds the credits of one grant and returns how many the peer is to be granted.
    pub fn grant_rx_credits(&mut self) -> (r: u16)
        ensures
            r == CREDIT_GRANT_SIZE,
            *final(self) == old(self).granted(),
    {
        self.rx_credits = if self.rx_credits > 0xFFFF - CREDIT_GRANT_SIZE {
            0xFFFF
        } else {
            self.rx_credits + CREDIT_GRANT_SIZE
        };
        CREDIT_GRANT_SIZE
    }

    /// Adds the credits that the peer granted.
    pub fn receive_tx_credits(&mut self, credits: u16)
        ensures
            *final(self) == old(self).credited(credits),
    {
        self.tx_credits = if self.tx_credits > 0xFFFF - credits {
            0xFFFF
        } else {
            self.tx_credits + credits
        };
    }
}

/// What one side of a reliable channel grants, the other side can send: a sender that
/// adds the grant may send that many more messages, and a receiver that granted them
/// has that many more credits, as long as neither count reaches its limit.
pub proof fn grant_matches_credit(rx: TransportChannel, tx: TransportChannel)
    requires
        rx.rx_credits + CREDIT_GRANT_SIZE <= 0xFFFF,
        tx.tx_credits + CREDIT_GRANT_SIZE <= 0xFFFF,
    ensures
        rx.granted().rx_credits - rx.rx_credits == CREDIT_GRANT_SIZE,
        tx.credited(CREDIT_GRANT_SIZE).tx_credits - tx.tx_credits == CREDIT_GRANT_SIZE,
        tx.credited(CREDIT_GRANT_SIZE).may_send(),
{
}

/// The three channels of a connection.
#[derive(Clone, Copy, Debug)]
pub struct ChannelSet {
    /// Management channel.
    pub mgmt: TransportChannel,
    /// Service management channel.
    pub svc_mgmt: TransportChannel,
    /// Data channel.
    pub data: TransportChannel,
    /// Identifier of the next credit grant.
    pub credit_grant_id: u8,
}

/// The channels of a fresh connection.
pub open spec fn channels_start() -> ChannelSet {
    ChannelSet {
        mgmt: channel_start(tcid::MANAGEMENT, TransportMode::Reliable, 48),
        svc_mgmt: channel_start(tcid::SERVICE_MGMT, TransportMode::Reliable, 247),
        data: channel_start(tcid::DEFAULT_DATA, TransportMode::Unreliable, 247),
        credit_grant_id: 0,
    }
}

impl Default for ChannelSet {
    fn default() -> (r: Self)
        ensures
            r == channels_start(),
    {
        ChannelSet {
            mgmt: TransportChannel::new(tcid::MANAGEMENT, TransportMode::Reliable, 48),
            svc_mgmt: TransportChannel::new(tcid::SERVICE_MGMT, TransportMode::Reliable, 247),
            data: TransportChannel::new(tcid::DEFAULT_DATA, TransportMode::Unreliable, 247),
            credit_grant_id: 0,
        }
    }
}

/// A channel that was opened: reliable channels get their first credits.
pub open spec fn opened(c: TransportChannel) -> TransportChannel {
    if c.mode == TransportMode::Reliable {
        TransportChannel {
            state: ChannelState::Open,
            tx_credits: INITIAL_CREDITS,
            rx_credits: INITIAL_CREDITS,
            ..c
        }
    } else {
        TransportChannel { state: ChannelState::Open, ..c }
    }
}

/// A channel that was closed, without credits.
pub open spec fn closed(c: TransportChannel) -> TransportChannel {
    TransportChannel { state: ChannelState::Closed, tx_credits: 0, rx_credits: 0, ..c }
}

/// The smaller of two numbers.
pub open spec fn min16(a: u16, b: u16) -> u16 {
    if a <= b {
        a
    } else {
        b
    }
}

fn open_channel(c: TransportChannel) -> (r: TransportChannel)
    ensures
        r == opened(c),
{
    let mut d = c;
    d.state = ChannelState::Open;
    if d.mode == TransportMode::Reliable {
        d.tx_credits = INITIAL_CREDITS;
        d.rx_credits = INITIAL_CREDITS;
    }
    d
}

fn close_channel(c: TransportChannel) -> (r: TransportChannel)
    ensures
        r == closed(c),
{
    let mut d = c;
    d.state = ChannelState::Closed;
    d.tx_credits = 0;
    d.rx_credits = 0;
    d
}

impl ChannelSet {
    /// The channels opened.
    pub open spec fn all_opened(self) -> ChannelSet {
        ChannelSet {
            mgmt: opened(self.mgmt),
            svc_mgmt: opened(self.svc_mgmt),
            data: opened(self.data),
            ..self
        }
    }

    /// The channels closed.
    pub open spec fn all_closed(self) -> ChannelSet {
        ChannelSet {
            mgmt: closed(self.mgmt),
            svc_mgmt: closed(self.svc_mgmt),
            data: closed(self.data),
            ..self
        }
    }

    /// The channels after sizes were agreed on: messages and data segments may be as
    /// long as both sides allow, segments of the service channel never grow.
    pub open spec fn negotiated(self, max_pdu_size: u16, controller_mtu: u16) -> ChannelSet {
        let m = min16(max_pdu_size, controller_mtu);
        ChannelSet {
            data: TransportChannel { mtu: m, mps: m, ..self.data },
            svc_mgmt: TransportChannel {
                mtu: m,
                mps: min16(self.svc_mgmt.mps, m),
                ..self.svc_mgmt
            },
            ..self
        }
    }

    /// The channel of an identifier.
    pub open spec fn channel(self, id: u16) -> Option<TransportChannel> {
        if id == tcid::MANAGEMENT {
            Some(self.mgmt)
        } else if id == tcid::SERVICE_MGMT {
            Some(self.svc_mgmt)
        } else if id == tcid::DEFAULT_DATA {
            Some(self.data)
        } else {
            None
        }
    }

    /// The channels with that of an identifier replaced.
    pub open spec fn with_channel(self, id: u16, c: TransportChannel) -> ChannelSet {
        if id == tcid::MANAGEMENT {
            ChannelSet { mgmt: c, ..self }
        } else if id == tcid::SERVICE_MGMT {
            ChannelSet { svc_mgmt: c, ..self }
        } else if id == tcid::DEFAULT_DATA {
            ChannelSet { data: c, ..self }
        } else {
            self
        }
    }

    /// Opens all channels.
    pub fn open_all(&mut self)
        ensures
            *final(self) == old(self).all_opened(),
    {
        self.mgmt = open_channel(self.mgmt);
        self.svc_mgmt = open_channel(self.svc_mgmt);
        self.data = open_channel(self.data);
    }

    /// Closes all channels.
    pub fn close_all(&mut self)
        ensures
            *final(self) == old(self).all_closed(),
    {
        self.mgmt = close_channel(self.mgmt);
        self.svc_mgmt = close_channel(self.svc_mgmt);
        self.data = close_channel(self.data);
    }

    /// The identifier of the next credit grant; identifiers count modulo 256.
    pub fn next_credit_grant_id(&mut self) -> (r: u8)
        ensures
            r == old(self).credit_grant_id,
            *final(self) == (ChannelSet {
                credit_grant_id: ((old(self).credit_grant_id + 1) % 256) as u8,
                ..*old(self)
            }),
    {
        let id = self.credit_grant_id;
        self.credit_grant_id = self.credit_grant_id.wrapping_add(1);
        id
    }

    /// Takes over sizes that were agreed on.
    pub fn negotiate(&mut self, max_pdu_size: u16, controller_mtu: u16)
        ensures
            *final(self) == old(self).negotiated(max_pdu_size, controller_mtu),
    {
        let m = if max_pdu_size <= controller_mtu {
            max_pdu_size
        } else {
            controller_mtu
        };
        self.data.mtu = m;
        self.data.mps = m;
        self.svc_mgmt.mtu = m;
        if self.svc_mgmt.mps > m {
            self.svc_mgmt.mps = m;
        }
    }

    /// The channel of identifier `id`, for changing.
    pub fn by_tcid_mut(&mut self, id: u16) -> (r: Option<&mut TransportChannel>)
        ensures
            match r {
                Some(c) => old(self).channel(id) == Some(*c) && *final(self) == old(
                    self,
                ).with_channel(id, *final(c)),
                None => old(self).channel(id) is None && *final(self) == *old(self),
            },
    {
        if id == tcid::MANAGEMENT {
            Some(&mut self.mgmt)
        } else if id == tcid::SERVICE_MGMT {
            Some(&mut self.svc_mgmt)
        } else if id == tcid::DEFAULT_DATA {
            Some(&mut self.data)
        } else {
            None
        }
    }

    /// The channel of identifier `id`.
    pub fn by_tcid(&self, id: u16) -> (r: Option<&TransportChannel>)
        ensures
            match r {
                Some(c) => self.channel(id) == Some(*c),
                None => self.channel(id) is None,
            },
    {
        if id == tcid::MANAGEMENT {
            Some(&self.mgmt)
        } else if id == tcid::SERVICE_MGMT {
            Some(&self.svc_mgmt)
        } else if id == tcid::DEFAULT_DATA {
            Some(&self.data)
        } else {
            None
        }
    }
}

/// One-bit sequence numbers of the data link.
#[derive(Clone, Copy, Debug)]
pub struct SeqTracker {
    /// Number of the next message to send.
    pub tx_seq: u8,
    /// Number of the message that is expected next.
    pub rx_seq: u8,
    /// Numbers count modulo this.
    pub modulus: u8,
}

impl SeqTracker {
    /// Both numbers are below the modulus.
    pub open spec fn wf(self) -> bool {
        self.tx_seq < self.modulus && self.rx_seq < self.modulus
    }

    /// The tracker after a message was sent.
    pub open spec fn tx_advanced(self) -> SeqTracker {
        SeqTracker {
            tx_seq: if self.tx_seq + 1 >= self.modulus {
                0
            } else {
                (self.tx_seq + 1) as u8
            },
            ..self
        }
    }

    /// The tracker after a message was taken in.
    pub open spec fn rx_advanced(self) -> SeqTracker {
        SeqTracker {
            rx_seq: if self.rx_seq + 1 >= self.modulus {
                0
            } else {
                (self.rx_seq + 1) as u8
            },
            ..self
        }
    }

    /// A tracker of one-bit numbers.
    pub fn new_async() -> (r: Self)
        ensures
            r == (SeqTracker { tx_seq: 0, rx_seq: 0, modulus: 2 }),
            r.wf(),
    {
        SeqTracker { tx_seq: 0, rx_seq: 0, modulus: 2 }
    }

    /// A message was sent.
    pub fn advance_tx(&mut self)
        requires
            old(self).wf(),
        ensures
            *final(self) == old(self).tx_advanced(),
            final(self).wf(),
    {
        self.tx_seq = if self.tx_seq + 1 == self.modulus {
            0
        } else {
            self.tx_seq + 1
        };
    }

    /// A message was taken in.
    pub fn advance_rx(&mut self)
        requires
            old(self).wf(),
        ensures
            *final(self) == old(self).rx_advanced(),
            final(self).wf(),
    {
        self.rx_seq = if self.rx_seq + 1 == self.modulus {
            0
        } else {
            self.rx_seq + 1
        };
    }

    /// Whether the message of number `seq` is the one expected next.
    pub fn check_rx(&self, seq: u8) -> (r: bool)
        requires
            self.modulus > 0,
        ensures
            r == (seq % self.modulus == self.rx_seq),
    {
        (seq % self.modulus) == self.rx_seq
    }
}

} // verus!
