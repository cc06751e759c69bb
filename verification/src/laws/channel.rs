//! Laws of transport channels, sequence numbers and message queues.

use vstd::prelude::*;

use crate::conn_channel::{
    ChannelSet, ChannelState, RxAction, SeqState, SeqTracker, TransportChannel, TransportMode,
    TxAction,
};
use crate::conn_queue::DataRingBuffer;
use crate::errno::Errno;

verus! {

/// What a sender does next: while a message is to be sent again, that one; otherwise a new one
/// as long as fewer messages wait than the window holds. Numbers go up by one, modulo 16384.
pub proof fn sender_steps(s: &mut SeqState, r: TxAction)
    requires
        call_ensures(SeqState::next_tx_action, (s,), r),
        s.wf(),
        s.tx_count < u32::MAX,
        s.retx_count < u32::MAX,
    ensures
        r is Retransmit <==> old(s).retx_seq != old(s).next_tx_seq,
        r matches TxAction::Retransmit(n) ==> n == old(s).retx_seq && final(s).next_tx_seq == old(s).next_tx_seq && final(s).retx_seq == (old(s).retx_seq + 1) % 16384
            && final(s).retx_count == old(s).retx_count + 1,
        r matches TxAction::SendNew(n) ==> n == old(s).next_tx_seq && final(s).next_tx_seq == (old(s).next_tx_seq + 1) % 16384 && final(s).retx_seq == final(s).next_tx_seq
            && final(s).tx_count == old(s).tx_count + 1 && (old(s).next_tx_seq - old(s).expected_ack_seq) % 16384 < old(s).tx_window,
        r is WindowFull ==> *final(s) == *old(s) && (old(s).next_tx_seq - old(s).expected_ack_seq)
            % 16384 >= old(s).tx_window,
        final(s).expected_ack_seq == old(s).expected_ack_seq,
        final(s).expected_rx_seq == old(s).expected_rx_seq,
{
}

/// An acknowledgement within the window frees the messages before its number; any other one
/// frees none.
pub proof fn acknowledgement(s: &mut SeqState, ack: u16, r: u16)
    requires
        call_ensures(SeqState::process_ack, (s, ack), r),
        s.wf(),
    ensures
        ({
            let n = (ack % 16384 - old(s).expected_ack_seq) % 16384;
            &&& n <= old(s).tx_window ==> r == n && final(s).expected_ack_seq == ack % 16384
            &&& n > old(s).tx_window ==> r == 0 && final(s).expected_ack_seq == old(s).expected_ack_seq
        }),
        final(s).next_tx_seq == old(s).next_tx_seq,
        final(s).retx_seq == old(s).retx_seq,
        final(s).expected_rx_seq == old(s).expected_rx_seq,
{
}

/// A retransmission starts at the oldest message that is not acknowledged.
pub proof fn retransmission_starts(s: &mut SeqState)
    requires
        call_ensures(SeqState::trigger_retransmit, (s,), ()),
    ensures
        final(s).retx_seq == old(s).expected_ack_seq,
        final(s).expected_ack_seq == old(s).expected_ack_seq,
        final(s).next_tx_seq == old(s).next_tx_seq,
        final(s).retx_count == old(s).retx_count,
{
}

/// The expected message is accepted and the next one expected; one that lies ahead within the
/// window is set aside; every other one is dropped and counted.
pub proof fn receiver_steps(s: &mut SeqState, seq: u16, r: RxAction)
    requires
        call_ensures(SeqState::classify_rx, (s, seq), r),
        s.wf(),
        s.rx_count < u32::MAX,
        s.rx_drop_count < u32::MAX,
    ensures
        ({
            let ahead = (seq % 16384 - old(s).expected_rx_seq) % 16384;
            &&& r == RxAction::Accept <==> ahead == 0
            &&& r == RxAction::Buffer <==> 0 < ahead < old(s).tx_window
            &&& r == RxAction::Drop <==> ahead != 0 && ahead >= old(s).tx_window
        }),
        r == RxAction::Accept ==> final(s).expected_rx_seq == (old(s).expected_rx_seq + 1) % 16384
            && final(s).rx_count == old(s).rx_count + 1 && final(s).rx_drop_count == old(s).rx_drop_count,
        r != RxAction::Accept ==> final(s).expected_rx_seq == old(s).expected_rx_seq
            && final(s).rx_count == old(s).rx_count,
        r == RxAction::Drop ==> final(s).rx_drop_count == old(s).rx_drop_count + 1,
        r == RxAction::Buffer ==> final(s).rx_drop_count == old(s).rx_drop_count,
        r == RxAction::Accept ==> final(s).buffer_seq == final(s).expected_rx_seq,
        r == RxAction::Drop ==> final(s).buffer_seq == old(s).buffer_seq,
        r == RxAction::Buffer ==> ({
            let end = (seq % 16384 + 1) % 16384;
            let ahead = (end - old(s).expected_rx_seq) % 16384;
            let known = (old(s).buffer_seq - old(s).expected_rx_seq) % 16384;
            final(s).buffer_seq == (if known < ahead && ahead < old(s).tx_window {
                end
            } else {
                old(s).buffer_seq as int
            })
        }),
        final(s).next_tx_seq == old(s).next_tx_seq,
        final(s).expected_ack_seq == old(s).expected_ack_seq,
{
}

/// A message of the number that a sender gives is accepted by a receiver in step with it, and
/// they stay in step.
pub proof fn sender_and_receiver(
    a: &mut SeqState,
    b: &mut SeqState,
    n: u16,
    x: TxAction,
    y: RxAction,
)
    requires
        call_ensures(SeqState::next_tx_action, (a,), x),
        a.wf(),
        a.tx_count < u32::MAX,
        a.retx_count < u32::MAX,
        x == TxAction::SendNew(n),
        b.wf(),
        b.rx_count < u32::MAX,
        b.rx_drop_count < u32::MAX,
        a.next_tx_seq == b.expected_rx_seq,
        call_ensures(SeqState::classify_rx, (b, n), y),
    ensures
        y == RxAction::Accept,
        final(a).next_tx_seq == final(b).expected_rx_seq,
{
}

/// A reliable channel needs a credit for each message; an unreliable one needs none.
pub proof fn credit_to_send(c: &mut TransportChannel, r: Result<(), Errno>)
    requires
        call_ensures(TransportChannel::try_consume_tx_credit, (c,), r),
    ensures
        old(c).mode == TransportMode::Unreliable ==> r is Ok && *final(c) == *old(c),
        old(c).mode == TransportMode::Reliable && old(c).tx_credits > 0 ==> r is Ok
            && final(c).tx_credits == old(c).tx_credits - 1,
        old(c).mode == TransportMode::Reliable && old(c).tx_credits == 0 ==> r == Err::<(), Errno>(
            Errno::EAGAIN,
        ) && *final(c) == *old(c),
        final(c).rx_credits == old(c).rx_credits,
        final(c).mtu == old(c).mtu && final(c).state == old(c).state,
{
}

/// A message that arrives on a reliable channel takes one of the credits of the peer, who is
/// to be granted new ones once fewer than four are left.
pub proof fn credit_of_the_peer(c: &mut TransportChannel, r: bool)
    requires
        call_ensures(TransportChannel::consume_rx_credit, (c,), r),
    ensures
        old(c).mode == TransportMode::Unreliable ==> !r && *final(c) == *old(c),
        old(c).mode == TransportMode::Reliable && old(c).rx_credits > 0 ==> final(c).rx_credits
            == old(c).rx_credits - 1,
        old(c).mode == TransportMode::Reliable ==> r == (final(c).rx_credits < 4),
        final(c).tx_credits == old(c).tx_credits,
{
}

/// A grant is of sixteen credits, for which the receiver then has room, and which the sender
/// can use.
pub proof fn grant_and_use(
    a: &mut TransportChannel,
    b: &mut TransportChannel,
    n: u16,
)
    requires
        call_ensures(TransportChannel::grant_rx_credits, (a,), n),
        call_ensures(TransportChannel::receive_tx_credits, (b, n), ()),
    ensures
        n == 16,
        old(a).rx_credits <= 65519 ==> final(a).rx_credits == old(a).rx_credits + 16,
        old(a).rx_credits > 65519 ==> final(a).rx_credits == 65535,
        old(b).tx_credits <= 65519 ==> final(b).tx_credits == old(b).tx_credits + 16,
        old(b).tx_credits > 65519 ==> final(b).tx_credits == 65535,
        final(a).tx_credits == old(a).tx_credits,
        final(b).rx_credits == old(b).rx_credits,
{
}

/// A fresh channel is closed, without credits, and cuts no message.
pub proof fn fresh_channel(tcid: u16, mode: TransportMode, mtu: u16, r: TransportChannel)
    requires
        call_ensures(TransportChannel::new, (tcid, mode, mtu), r),
    ensures
        r.tcid == tcid && r.mode == mode && r.mtu == mtu && r.mps == mtu,
        r.state == ChannelState::Closed,
        r.tx_credits == 0 && r.rx_credits == 0,
        r.seq.next_tx_seq == 0 && r.seq.expected_rx_seq == 0 && r.seq.tx_window == 16,
{
}

/// The channels of a fresh connection.
pub proof fn fresh_channels(r: ChannelSet)
    requires
        call_ensures(ChannelSet::default, (), r),
    ensures
        r.mgmt.tcid == 0x02 && r.mgmt.mode == TransportMode::Reliable && r.mgmt.mtu == 48,
        r.svc_mgmt.tcid == 0x0A && r.svc_mgmt.mode == TransportMode::Reliable && r.svc_mgmt.mtu
            == 247,
        r.data.tcid == 0x1F && r.data.mode == TransportMode::Unreliable && r.data.mtu == 247,
        r.mgmt.state == ChannelState::Closed && r.svc_mgmt.state == ChannelState::Closed
            && r.data.state == ChannelState::Closed,
{
}

/// Opening opens all channels and gives the reliable ones sixteen credits both ways.
pub proof fn channels_open(s: &mut ChannelSet)
    requires
        call_ensures(ChannelSet::open_all, (s,), ()),
    ensures
        final(s).mgmt.state == ChannelState::Open,
        final(s).svc_mgmt.state == ChannelState::Open,
        final(s).data.state == ChannelState::Open,
        old(s).mgmt.mode == TransportMode::Reliable ==> final(s).mgmt.tx_credits == 16
            && final(s).mgmt.rx_credits == 16,
        old(s).svc_mgmt.mode == TransportMode::Reliable ==> final(s).svc_mgmt.tx_credits == 16
            && final(s).svc_mgmt.rx_credits == 16,
        old(s).data.mode == TransportMode::Reliable ==> final(s).data.tx_credits == 16,
        old(s).data.mode == TransportMode::Unreliable ==> final(s).data.tx_credits == old(s).data.tx_credits,
        final(s).data.mtu == old(s).data.mtu && final(s).svc_mgmt.mtu == old(s).svc_mgmt.mtu,
{
}

/// Closing closes all channels and takes all credits.
pub proof fn channels_close(s: &mut ChannelSet)
    requires
        call_ensures(ChannelSet::close_all, (s,), ()),
    ensures
        final(s).mgmt.state == ChannelState::Closed,
        final(s).svc_mgmt.state == ChannelState::Closed,
        final(s).data.state == ChannelState::Closed,
        final(s).mgmt.tx_credits == 0 && final(s).mgmt.rx_credits == 0,
        final(s).svc_mgmt.tx_credits == 0 && final(s).svc_mgmt.rx_credits == 0,
        final(s).data.tx_credits == 0 && final(s).data.rx_credits == 0,
        final(s).data.mtu == old(s).data.mtu,
        final(s).credit_grant_id == old(s).credit_grant_id,
{
}

/// Messages are as long as packets and controller allow; the management channel keeps its
/// size.
pub proof fn sizes_agreed(s: &mut ChannelSet, pdu: u16, mtu: u16)
    requires
        call_ensures(ChannelSet::negotiate, (s, pdu, mtu), ()),
    ensures
        final(s).data.mtu <= pdu && final(s).data.mtu <= mtu,
        final(s).data.mtu == pdu || final(s).data.mtu == mtu,
        final(s).data.mps == final(s).data.mtu,
        final(s).svc_mgmt.mtu == final(s).data.mtu,
        final(s).svc_mgmt.mps <= final(s).svc_mgmt.mtu,
        final(s).svc_mgmt.mps <= old(s).svc_mgmt.mps,
        final(s).svc_mgmt.mps == final(s).svc_mgmt.mtu || final(s).svc_mgmt.mps == old(s).svc_mgmt.mps,
        final(s).mgmt == old(s).mgmt,
{
}

/// Grants are numbered one after the other, modulo 256.
pub proof fn grants_are_numbered(s: &mut ChannelSet, r: u8)
    requires
        call_ensures(ChannelSet::next_credit_grant_id, (s,), r),
    ensures
        r == old(s).credit_grant_id,
        final(s).credit_grant_id == (r + 1) % 256,
        final(s).data == old(s).data,
{
}

/// A channel is found for changing under its identifier; it stays as it is left, and the
/// others as they were.
pub proof fn channel_is_changed(s: &mut ChannelSet, id: u16, r: Option<&mut TransportChannel>)
    requires
        call_ensures(ChannelSet::by_tcid_mut, (s, id), r),
    ensures
        r is Some <==> id == 2 || id == 10 || id == 31,
        r is None ==> *final(s) == *old(s),
        r matches Some(c) ==> id == 2 ==> *c == old(s).mgmt && final(s).mgmt == *final(c),
        r matches Some(c) ==> id == 10 ==> *c == old(s).svc_mgmt && final(s).svc_mgmt == *final(c),
        r matches Some(c) ==> id == 31 ==> *c == old(s).data && final(s).data == *final(c),
        id != 2 ==> final(s).mgmt == old(s).mgmt,
        id != 10 ==> final(s).svc_mgmt == old(s).svc_mgmt,
        id != 31 ==> final(s).data == old(s).data,
        final(s).credit_grant_id == old(s).credit_grant_id,
{
}

/// A channel is found by its identifier.
pub proof fn channel_by_identifier(s: &ChannelSet, id: u16, r: Option<&TransportChannel>)
    requires
        call_ensures(ChannelSet::by_tcid, (s, id), r),
    ensures
        id == 0x02 ==> (r matches Some(c) && *c == s.mgmt),
        id == 0x0A ==> (r matches Some(c) && *c == s.svc_mgmt),
        id == 0x1F ==> (r matches Some(c) && *c == s.data),
        id != 0x02 && id != 0x0A && id != 0x1F ==> r is None,
{
}

/// One-bit numbers flip with each message, each way on its own.
pub proof fn numbers_flip(
    a: &mut SeqTracker,
    b: &mut SeqTracker,
    c: &SeqTracker,
    seq: u8,
    r: bool,
)
    requires
        call_ensures(SeqTracker::advance_tx, (a,), ()),
        call_ensures(SeqTracker::advance_rx, (b,), ()),
        call_ensures(SeqTracker::check_rx, (c, seq), r),
        a.modulus == 2 && a.wf(),
        b.modulus == 2 && b.wf(),
        c.modulus == 2,
    ensures
        final(a).tx_seq == 1 - old(a).tx_seq && final(a).rx_seq == old(a).rx_seq,
        final(b).rx_seq == 1 - old(b).rx_seq && final(b).tx_seq == old(b).tx_seq,
        r == (seq % 2 == c.rx_seq),
{
}

/// A queue hands messages out in the order in which they came, cut to 255 bytes, and takes 64.
pub proof fn queue_is_first_in_first_out(
    q: &mut DataRingBuffer,
    p: &mut DataRingBuffer,
    data: &[u8],
    buf: &mut [u8],
    a: Result<(), Errno>,
    b: Result<usize, Errno>,
)
    requires
        call_ensures(DataRingBuffer::enqueue, (q, data), a),
        q.wf(),
        *p == *final(q),
        call_ensures(DataRingBuffer::dequeue_into, (p, buf), b),
        data@.len() <= 255,
        data@.len() <= buf@.len(),
    ensures
        a is Ok <==> old(q)@.len() < 64,
        a is Err ==> a->Err_0 == Errno::EAGAIN && final(q)@ == old(q)@,
        a is Ok ==> final(q)@.len() == old(q)@.len() + 1 && final(q)@.last() == data@,
        a is Ok && old(q)@.len() == 0 ==> b == Ok::<usize, Errno>(data@.len() as usize)
            && final(buf)@.take(data@.len() as int) == data@ && final(p)@.len() == 0,
        a is Ok && old(q)@.len() > 0 ==> final(p)@ == old(q)@.skip(1).push(data@),
{
    if a is Ok && q@.len() == 0 {
        assert(final(q)@[0] == data@);
        assert(final(buf)@.take(data@.len() as int) =~= data@);
    }
    if a is Ok && q@.len() > 0 {
        assert(final(p)@ =~= q@.skip(1).push(data@));
    }
}

/// Nothing comes out of an empty queue, and dropping takes the oldest message.
pub proof fn queue_edges(
    q: &mut DataRingBuffer,
    p: &mut DataRingBuffer,
    buf: &mut [u8],
    r: Result<usize, Errno>,
)
    requires
        call_ensures(DataRingBuffer::dequeue_into, (q, buf), r),
        call_ensures(DataRingBuffer::drop_oldest, (p,), ()),
    ensures
        old(q)@.len() == 0 ==> r == Err::<usize, Errno>(Errno::EAGAIN) && final(buf)@ == old(buf)@
            && final(q)@ == old(q)@,
        old(q)@.len() > 0 ==> r is Ok && final(q)@ == old(q)@.skip(1),
        final(p)@ == (if old(p)@.len() == 0 {
            old(p)@
        } else {
            old(p)@.skip(1)
        }),
{
    if q@.len() > 0 {
        assert(final(q)@ =~= q@.skip(1));
    }
    if p@.len() > 0 {
        assert(final(p)@ =~= p@.skip(1));
    }
}

} // verus!
