//! Commands on their way to the controller, and those that wait for its answer.

use vstd::prelude::*;

use crate::bytes;
use crate::errno::Errno;
use crate::ring;

verus! {

/// Status of a command without an answer.
pub const CMD_STATUS_PENDING: u32 = 0xFFFF_FFFF;

/// Longest answer that is kept.
pub const CMD_DATA_MAX: usize = 64;

/// Time in milliseconds within which an answer is due unless told otherwise.
pub const CMD_TIMEOUT_MS: u32 = 5000;

/// Bit of the status of a command that was settled.
pub const CMD_RESOLVED_BIT: u32 = 0x8000_0000;

/// Status of a command that was not answered in time.
pub const CMD_TIMEOUT_STATUS: u32 = 0x8000_0100;

/// Most commands that wait for an answer.
pub const CMD_QUEUE_DEPTH: usize = 16;

/// Longest parameters of a command.
pub const CMD_REQ_PARAM_MAX: usize = 240;

/// Most commands that wait to be sent.
pub const CMD_REQ_QUEUE_DEPTH: usize = 64;

/// A command that was sent.
#[derive(Clone, Copy)]
pub struct CmdPendingEntry {
    /// Opcode.
    pub opcode: u16,
    /// Number.
    pub seq: u32,
    /// Whether it was settled, and how.
    pub status: u32,
    /// Start of the answer, then zeros.
    pub data: [u8; 64],
    /// Length of the answer.
    pub data_len: u16,
    /// Time at which the answer is overdue.
    pub deadline: u64,
}

/// A command that was sent as a value.
#[verifier::ext_equal]
pub struct PendingModel {
    /// Opcode.
    pub opcode: u16,
    /// Number.
    pub seq: u32,
    /// Whether it was settled, and how.
    pub status: u32,
    /// Start of the answer, then zeros.
    pub data: Seq<u8>,
    /// Length of the answer.
    pub data_len: u16,
    /// Time at which the answer is overdue.
    pub deadline: u64,
}

impl View for CmdPendingEntry {
    type V = PendingModel;

    open spec fn view(&self) -> PendingModel {
        PendingModel {
            opcode: self.opcode,
            seq: self.seq,
            status: self.status,
            data: self.data@,
            data_len: self.data_len,
            deadline: self.deadline,
        }
    }
}

/// Time `t` after `now`; the clock counts modulo 2^64.
pub open spec fn later(now: u64, t: u64) -> u64 {
    ((now + t) % 0x1_0000_0000_0000_0000) as u64
}

/// A command that was just sent.
pub open spec fn just_sent(opcode: u16, seq: u32, now: u64, timeout: u64) -> PendingModel {
    PendingModel {
        opcode,
        seq,
        status: CMD_STATUS_PENDING,
        data: bytes::zeros(64),
        data_len: 0,
        deadline: later(now, timeout),
    }
}

impl PendingModel {
    /// Whether the command waits for its answer.
    pub open spec fn pending(self) -> bool {
        self.status == CMD_STATUS_PENDING
    }

    /// After the answer came.
    pub open spec fn answered(self, status: u8, response: Seq<u8>) -> PendingModel {
        let head = bytes::prefix(response, CMD_DATA_MAX as int);
        PendingModel {
            status: (CMD_RESOLVED_BIT + status) as u32,
            data: bytes::splice(self.data, 0, head),
            data_len: head.len() as u16,
            ..self
        }
    }

    /// After it was given up.
    pub open spec fn given_up(self) -> PendingModel {
        PendingModel { status: CMD_TIMEOUT_STATUS, ..self }
    }

    /// Whether the answer is overdue.
    pub open spec fn overdue(self, now: u64) -> bool {
        now >= self.deadline
    }

    /// The status that the controller answered with, if it did.
    pub open spec fn answer(self) -> Option<u8> {
        if self.pending() || self.status < CMD_RESOLVED_BIT || self.status == CMD_TIMEOUT_STATUS {
            None
        } else {
            Some((self.status % 0x100) as u8)
        }
    }
}

impl CmdPendingEntry {
    /// A command that was just sent. `timeout` is in the unit of `now`.
    pub fn new(opcode: u16, seq: u32, now: u64, timeout: u64) -> (r: Self)
        ensures
            r@ == just_sent(opcode, seq, now, timeout),
    {
        CmdPendingEntry {
            opcode,
            seq,
            status: CMD_STATUS_PENDING,
            data: [0u8; 64],
            data_len: 0,
            deadline: now.wrapping_add(timeout),
        }
    }

    /// Whether the command waits for its answer.
    pub fn is_pending(&self) -> (r: bool)
        ensures
            r == self@.pending(),
    {
        self.status == CMD_STATUS_PENDING
    }

    /// Whether the command was answered or given up.
    pub fn is_resolved(&self) -> (r: bool)
        ensures
            r == (!self@.pending() && self@.status >= CMD_RESOLVED_BIT),
    {
        self.status != CMD_STATUS_PENDING && self.status >= CMD_RESOLVED_BIT
    }

    /// The answer came; its first 64 bytes are kept.
    pub fn resolve(&mut self, dli_status: u8, response: &[u8])
        ensures
            final(self)@ == old(self)@.answered(dli_status, response@),
    {
        let head = bytes::to_prefix(response, CMD_DATA_MAX);
        bytes::put_at(&mut self.data, 0, head.as_slice());
        self.data_len = head.len() as u16;
        self.status = CMD_RESOLVED_BIT + dli_status as u32;
    }

    /// The command is given up.
    pub fn timeout(&mut self)
        ensures
            final(self)@ == old(self)@.given_up(),
    {
        self.status = CMD_TIMEOUT_STATUS;
    }

    /// The status that the controller answered with, if it did.
    pub fn result_status(&self) -> (r: Option<u8>)
        ensures
            r == self@.answer(),
    {
        if !self.is_resolved() || self.status == CMD_TIMEOUT_STATUS {
            None
        } else {
            Some((self.status % 0x100) as u8)
        }
    }

    /// Whether the answer is overdue.
    pub fn is_expired(&self, now: u64) -> (r: bool)
        ensures
            r == self@.overdue(now),
    {
        now >= self.deadline
    }
}

/// The status that was answered is the one that is read, and a command that was given up
/// has none; neither waits any longer.
pub proof fn settled(e: PendingModel, status: u8, response: Seq<u8>)
    ensures
        e.answered(status, response).answer() == Some(status),
        !e.answered(status, response).pending(),
        e.given_up().answer() is None,
        !e.given_up().pending(),
{
}

/// Whether the slot holds a command that waits.
pub open spec fn waits(s: Option<PendingModel>) -> bool {
    s matches Some(e) && e.pending()
}

/// How many of the first `n` slots hold a command that waits.
pub open spec fn waiting(s: Seq<Option<PendingModel>>, n: int) -> int
    decreases n,
{
    if n <= 0 {
        0
    } else {
        waiting(s, n - 1) + if waits(s[n - 1]) {
            1int
        } else {
            0
        }
    }
}

/// How many of the first `n` slots hold a command that waits and is overdue.
pub open spec fn overdue(s: Seq<Option<PendingModel>>, now: u64, n: int) -> int
    decreases n,
{
    if n <= 0 {
        0
    } else {
        overdue(s, now, n - 1) + if waits(s[n - 1]) && s[n - 1]->0.overdue(now) {
            1int
        } else {
            0
        }
    }
}

proof fn waiting_bounds(s: Seq<Option<PendingModel>>, n: int)
    requires
        0 <= n,
    ensures
        0 <= waiting(s, n) <= n,
    decreases n,
{
    if n > 0 {
        waiting_bounds(s, n - 1);
    }
}

proof fn waiting_update(s: Seq<Option<PendingModel>>, i: int, x: Option<PendingModel>, n: int)
    requires
        0 <= i < s.len(),
        0 <= n <= s.len(),
    ensures
        waiting(s.update(i, x), n) == waiting(s, n) + if i < n {
            (if waits(x) {
                1int
            } else {
                0
            }) - (if waits(s[i]) {
                1int
            } else {
                0
            })
        } else {
            0
        },
        i < n && waits(s[i]) ==> waiting(s, n) >= 1,
        i < n && !waits(s[i]) ==> waiting(s, n) < n,
    decreases n,
{
    if n > 0 {
        waiting_update(s, i, x, n - 1);
        waiting_bounds(s, n - 1);
    }
}

/// Commands that wait for their answer, in a ring of 16 slots.
pub struct CmdPendingQueue {
    entries: [Option<CmdPendingEntry>; 16],
    tail: usize,
    next_seq: u32,
    pending_count: u16,
    total_submitted: u64,
    total_resolved: u64,
    total_timeouts: u64,
}

/// Commands that wait for their answer as a value.
#[verifier::ext_equal]
pub struct PendingQueueModel {
    /// The slots.
    pub slots: Seq<Option<PendingModel>>,
    /// The slot that is filled next, the one that was filled longest ago.
    pub tail: int,
    /// Number of the next command.
    pub next_seq: u32,
    /// Commands that wait.
    pub pending: int,
    /// Commands sent so far.
    pub submitted: u64,
    /// Commands settled so far.
    pub resolved: u64,
    /// Commands given up so far.
    pub timeouts: u64,
}

/// The model of a command, if there is one.
pub open spec fn slot_view(s: Option<CmdPendingEntry>) -> Option<PendingModel> {
    match s {
        Some(e) => Some(e@),
        None => None,
    }
}

impl View for CmdPendingQueue {
    type V = PendingQueueModel;

    closed spec fn view(&self) -> PendingQueueModel {
        PendingQueueModel {
            slots: self.entries@.map_values(|s: Option<CmdPendingEntry>| slot_view(s)),
            tail: self.tail as int,
            next_seq: self.next_seq,
            pending: self.pending_count as int,
            submitted: self.total_submitted,
            resolved: self.total_resolved,
            timeouts: self.total_timeouts,
        }
    }
}

impl PendingQueueModel {
    /// The slot that was filled `k`-th longest ago.
    pub open spec fn by_age(self, k: int) -> int {
        ring::wrap(self.tail + k, CMD_QUEUE_DEPTH as int)
    }

    /// Whether the command that was sent `k`-th longest ago waits and has an opcode.
    pub open spec fn matches_at(self, k: int, opcode: u16) -> bool {
        waits(self.slots[self.by_age(k)]) && self.slots[self.by_age(k)]->0.opcode == opcode
    }

    /// Whether the oldest command that waits and has an opcode was sent `k`-th longest
    /// ago.
    pub open spec fn oldest_at(self, k: int, opcode: u16) -> bool {
        &&& 0 <= k < CMD_QUEUE_DEPTH
        &&& self.matches_at(k, opcode)
        &&& forall|j: int| 0 <= j < k ==> !#[trigger] self.matches_at(j, opcode)
    }

    /// Whether a command waits and has an opcode.
    pub open spec fn has(self, opcode: u16) -> bool {
        exists|k: int| self.oldest_at(k, opcode)
    }

    /// The slot of the oldest command that waits and has an opcode.
    pub open spec fn oldest(self, opcode: u16) -> int {
        self.by_age(choose|k: int| self.oldest_at(k, opcode))
    }

    /// After a command was sent: it takes the slot that was filled longest ago.
    pub open spec fn sent(self, opcode: u16, now: u64, timeout: u64) -> PendingQueueModel {
        PendingQueueModel {
            slots: self.slots.update(
                self.tail,
                Some(just_sent(opcode, self.next_seq, now, timeout)),
            ),
            tail: self.by_age(1),
            next_seq: ((self.next_seq + 1) % 0x1_0000_0000) as u32,
            pending: if waits(self.slots[self.tail]) {
                self.pending
            } else {
                self.pending + 1
            },
            submitted: (self.submitted + 1) as u64,
            ..self
        }
    }

    /// After the answer to an opcode came: the oldest command that waits for it is
    /// settled.
    pub open spec fn answered(self, opcode: u16, status: u8, data: Seq<u8>) -> PendingQueueModel {
        let i = self.oldest(opcode);
        PendingQueueModel {
            slots: self.slots.update(i, Some(self.slots[i]->0.answered(status, data))),
            pending: self.pending - 1,
            resolved: (self.resolved + 1) as u64,
            ..self
        }
    }
}

/// The slots after the commands that are overdue were given up.
pub open spec fn expired_slots(s: Seq<Option<PendingModel>>, now: u64) -> Seq<Option<PendingModel>> {
    s.map_values(
        |x: Option<PendingModel>|
            if waits(x) && x->0.overdue(now) {
                Some(x->0.given_up())
            } else {
                x
            },
    )
}

/// The slots without the commands that were settled.
pub open spec fn cleared_slots(s: Seq<Option<PendingModel>>) -> Seq<Option<PendingModel>> {
    s.map_values(
        |x: Option<PendingModel>|
            if x matches Some(e) && !e.pending() && e.status >= CMD_RESOLVED_BIT {
                None
            } else {
                x
            },
    )
}

proof fn oldest_is(m: PendingQueueModel, k: int, opcode: u16)
    requires
        m.oldest_at(k, opcode),
    ensures
        m.has(opcode),
        m.oldest(opcode) == m.by_age(k),
{
    let j = choose|j: int| m.oldest_at(j, opcode);
    assert(m.oldest_at(j, opcode));
    if j < k {
        assert(!m.matches_at(j, opcode));
    }
    if k < j {
        assert(!m.matches_at(k, opcode));
    }
}

impl CmdPendingQueue {
    /// The count is that of the commands that wait, and the place lies in the ring.
    pub closed spec fn wf(self) -> bool {
        self.tail < CMD_QUEUE_DEPTH && self.pending_count == waiting(self@.slots, 16)
    }

    /// What holds of the queue at all times.
    pub proof fn invariants(self)
        requires
            self.wf(),
        ensures
            self@.slots.len() == CMD_QUEUE_DEPTH,
            0 <= self@.tail < CMD_QUEUE_DEPTH,
            self@.pending == waiting(self@.slots, 16),
            self@.pending <= CMD_QUEUE_DEPTH,
    {
        waiting_bounds(self@.slots, 16);
    }

    /// No commands.
    pub fn new() -> (r: Self)
        ensures
            r.wf(),
            r@ == (PendingQueueModel {
                slots: Seq::new(16, |i: int| None::<PendingModel>),
                tail: 0,
                next_seq: 1,
                pending: 0,
                submitted: 0,
                resolved: 0,
                timeouts: 0,
            }),
    {
        let r = CmdPendingQueue {
            entries: [
                None,
                None,
                None,
                None,
                None,
                None,
                None,
                None,
                None,
                None,
                None,
                None,
                None,
                None,
                None,
                None,
            ],
            tail: 0,
            next_seq: 1,
            pending_count: 0,
            total_submitted: 0,
            total_resolved: 0,
            total_timeouts: 0,
        };
        proof {
            assert(r@.slots =~= Seq::new(16, |i: int| None::<PendingModel>));
            reveal_with_fuel(waiting, 17);
        }
        r
    }

    /// A command is sent; `default_timeout` is the usual time for an answer, in the unit
    /// of `now`. Returns its number, or `EBUSY` where as many wait as may.
    pub fn submit(&mut self, opcode: u16, now: u64, default_timeout: u64) -> (r: Result<u32, Errno>)
        requires
            old(self).wf(),
            old(self)@.submitted < u64::MAX,
        ensures
            final(self).wf(),
            if old(self)@.pending >= CMD_QUEUE_DEPTH {
                r == Err::<u32, Errno>(Errno::EBUSY) && final(self)@ == old(self)@
            } else {
                r == Ok::<u32, Errno>(old(self)@.next_seq) && final(self)@ == old(self)@.sent(
                    opcode,
                    now,
                    default_timeout,
                )
            },
    {
        self.submit_with_timeout(opcode, now, default_timeout)
    }

    /// A command is sent that is to be answered within `timeout`. Returns its number, or
    /// `EBUSY` where as many wait as may.
    pub fn submit_with_timeout(&mut self, opcode: u16, now: u64, timeout: u64) -> (r: Result<
        u32,
        Errno,
    >)
        requires
            old(self).wf(),
            old(self)@.submitted < u64::MAX,
        ensures
            final(self).wf(),
            if old(self)@.pending >= CMD_QUEUE_DEPTH {
                r == Err::<u32, Errno>(Errno::EBUSY) && final(self)@ == old(self)@
            } else {
                r == Ok::<u32, Errno>(old(self)@.next_seq) && final(self)@ == old(self)@.sent(
                    opcode,
                    now,
                    timeout,
                )
            },
    {
        if self.pending_count as usize >= CMD_QUEUE_DEPTH {
            return Err(Errno::EBUSY);
        }
        let seq = self.next_seq;
        self.next_seq = self.next_seq.wrapping_add(1);
        let entry = CmdPendingEntry::new(opcode, seq, now, timeout);
        let in_flight = match &self.entries[self.tail] {
            Some(e) => e.is_pending(),
            None => false,
        };
        let ghost i = self.tail as int;
        proof {
            waiting_update(self@.slots, i, Some(entry@), 16);
            assert(in_flight == waits(self@.slots[i]));
        }
        self.entries[self.tail] = Some(entry);
        self.tail = (self.tail + 1) % CMD_QUEUE_DEPTH;
        if !in_flight {
            self.pending_count = self.pending_count + 1;
        }
        self.total_submitted = self.total_submitted + 1;
        assert(self@.slots =~= old(self)@.slots.update(i, Some(entry@)));
        Ok(seq)
    }

    /// The answer to an opcode came: the oldest command that waits for it is settled.
    /// Tells whether there was one.
    pub fn resolve(&mut self, opcode: u16, status: u8, data: &[u8]) -> (r: bool)
        requires
            old(self).wf(),
            old(self)@.resolved < u64::MAX,
        ensures
            final(self).wf(),
            r == old(self)@.has(opcode),
            final(self)@ == (if r {
                old(self)@.answered(opcode, status, data@)
            } else {
                old(self)@
            }),
    {
        let mut k: usize = 0;
        while k < CMD_QUEUE_DEPTH
            invariant
                k <= CMD_QUEUE_DEPTH,
                *self == *old(self),
                self.wf(),
                self@.resolved < u64::MAX,
                forall|j: int| 0 <= j < k ==> !#[trigger] self@.matches_at(j, opcode),
            decreases CMD_QUEUE_DEPTH - k,
        {
            let idx = (self.tail + k) % CMD_QUEUE_DEPTH;
            let ghost m = self@;
            assert(idx == m.by_age(k as int));
            assert(m.slots[idx as int] == slot_view(self.entries@[idx as int]));
            if let Some(e) = self.entries[idx] {
                if e.opcode == opcode && e.is_pending() {
                    let mut done = e;
                    done.resolve(status, data);
                    proof {
                        assert(m.oldest_at(k as int, opcode));
                        oldest_is(m, k as int, opcode);
                        waiting_update(m.slots, idx as int, Some(done@), 16);
                    }
                    self.entries[idx] = Some(done);
                    self.pending_count = self.pending_count - 1;
                    self.total_resolved = self.total_resolved + 1;
                    assert(self@.slots =~= m.slots.update(idx as int, Some(done@)));
                    return true;
                }
            }
            k = k + 1;
        }
        proof {
            if self@.has(opcode) {
                let j = choose|j: int| self@.oldest_at(j, opcode);
                assert(self@.matches_at(j, opcode));
            }
        }
        false
    }

    /// Gives up the commands whose answer is overdue, and returns how many there are.
    pub fn expire_stale(&mut self, now: u64) -> (r: u32)
        requires
            old(self).wf(),
            old(self)@.resolved + 16 <= u64::MAX,
            old(self)@.timeouts + 16 <= u64::MAX,
        ensures
            final(self).wf(),
            r == overdue(old(self)@.slots, now, 16),
            final(self)@ == (PendingQueueModel {
                slots: expired_slots(old(self)@.slots, now),
                pending: old(self)@.pending - r,
                resolved: (old(self)@.resolved + r) as u64,
                timeouts: (old(self)@.timeouts + r) as u64,
                ..old(self)@
            }),
    {
        let ghost m = self@;
        let mut expired: u32 = 0;
        let mut i: usize = 0;
        while i < CMD_QUEUE_DEPTH
            invariant
                i <= CMD_QUEUE_DEPTH,
                m == old(self)@,
                self.wf(),
                m.resolved + 16 <= u64::MAX,
                m.timeouts + 16 <= u64::MAX,
                expired <= i,
                expired == overdue(m.slots, now, i as int),
                m.slots.len() == 16,
                self@ == (PendingQueueModel {
                    slots: self@.slots,
                    pending: m.pending - expired,
                    resolved: (m.resolved + expired) as u64,
                    timeouts: (m.timeouts + expired) as u64,
                    ..m
                }),
                self@.slots.len() == 16,
                forall|j: int|
                    0 <= j < i ==> #[trigger] self@.slots[j] == expired_slots(m.slots, now)[j],
                forall|j: int| i <= j < 16 ==> #[trigger] self@.slots[j] == m.slots[j],
            decreases CMD_QUEUE_DEPTH - i,
        {
            let ghost prev = self@.slots;
            assert(prev[i as int] == slot_view(self.entries@[i as int]));
            if let Some(e) = self.entries[i] {
                if e.is_pending() && e.is_expired(now) {
                    let mut gone = e;
                    gone.timeout();
                    proof {
                        waiting_update(prev, i as int, Some(gone@), 16);
                    }
                    self.entries[i] = Some(gone);
                    self.pending_count = self.pending_count - 1;
                    self.total_resolved = self.total_resolved + 1;
                    self.total_timeouts = self.total_timeouts + 1;
                    expired = expired + 1;
                    assert(self@.slots =~= prev.update(i as int, Some(gone@)));
                }
            }
            i = i + 1;
        }
        assert(self@.slots =~= expired_slots(m.slots, now));
        expired
    }

    /// Frees the slots of the commands that were settled.
    pub fn gc(&mut self)
        requires
            old(self).wf(),
        ensures
            final(self).wf(),
            final(self)@ == (PendingQueueModel {
                slots: cleared_slots(old(self)@.slots),
                ..old(self)@
            }),
    {
        let ghost m = self@;
        let mut i: usize = 0;
        while i < CMD_QUEUE_DEPTH
            invariant
                i <= CMD_QUEUE_DEPTH,
                m == old(self)@,
                self.wf(),
                m.slots.len() == 16,
                self@ == (PendingQueueModel { slots: self@.slots, ..m }),
                self@.slots.len() == 16,
                forall|j: int| 0 <= j < i ==> #[trigger] self@.slots[j] == cleared_slots(m.slots)[j],
                forall|j: int| i <= j < 16 ==> #[trigger] self@.slots[j] == m.slots[j],
            decreases CMD_QUEUE_DEPTH - i,
        {
            let ghost prev = self@.slots;
            assert(prev[i as int] == slot_view(self.entries@[i as int]));
            if let Some(e) = self.entries[i] {
                if e.is_resolved() {
                    proof {
                        waiting_update(prev, i as int, None, 16);
                    }
                    self.entries[i] = None;
                    assert(self@.slots =~= prev.update(i as int, None));
                }
            }
            i = i + 1;
        }
        assert(self@.slots =~= cleared_slots(m.slots));
    }

    /// Number of commands that wait.
    pub fn pending(&self) -> (r: u16)
        ensures
            r == self@.pending,
    {
        self.pending_count
    }

    /// Commands sent so far.
    pub fn total_submitted(&self) -> (r: u64)
        ensures
            r == self@.submitted,
    {
        self.total_submitted
    }

    /// Commands settled so far.
    pub fn total_resolved(&self) -> (r: u64)
        ensures
            r == self@.resolved,
    {
        self.total_resolved
    }

    /// Commands given up so far.
    pub fn total_timeouts(&self) -> (r: u64)
        ensures
            r == self@.timeouts,
    {
        self.total_timeouts
    }

    /// The command of a number in the first slot that holds one, if any does.
    pub fn find_by_seq(&self, seq: u32) -> (r: Option<&CmdPendingEntry>)
        ensures
            match r {
                Some(e) => exists|i: int|
                    0 <= i < 16 && #[trigger] self@.slots[i] == Some(e@) && e@.seq == seq && (
                    forall|j: int|
                        0 <= j < i ==> !(#[trigger] self@.slots[j] matches Some(x) && x.seq
                            == seq)),
                None => forall|j: int|
                    0 <= j < 16 ==> !(#[trigger] self@.slots[j] matches Some(x) && x.seq == seq),
            },
    {
        let mut i: usize = 0;
        while i < CMD_QUEUE_DEPTH
            invariant
                i <= CMD_QUEUE_DEPTH,
                forall|j: int|
                    0 <= j < i ==> !(#[trigger] self@.slots[j] matches Some(x) && x.seq == seq),
            decreases CMD_QUEUE_DEPTH - i,
        {
            assert(self@.slots[i as int] == slot_view(self.entries@[i as int]));
            if let Some(e) = &self.entries[i] {
                if e.seq == seq {
                    assert(self@.slots[i as int] == Some(e@));
                    return Some(e);
                }
            }
            i = i + 1;
        }
        None
    }
}

/// A command that waits to be sent.
#[derive(Clone, Copy)]
pub struct CmdRequest {
    /// Opcode.
    pub opcode: u16,
    /// Parameters, then zeros.
    pub params: [u8; 240],
    /// Length of the parameters.
    pub param_len: u16,
}

/// A command that waits to be sent as a value.
#[verifier::ext_equal]
pub struct RequestModel {
    /// Opcode.
    pub opcode: u16,
    /// Parameters, then zeros.
    pub params: Seq<u8>,
    /// Length of the parameters.
    pub param_len: u16,
}

impl View for CmdRequest {
    type V = RequestModel;

    open spec fn view(&self) -> RequestModel {
        RequestModel { opcode: self.opcode, params: self.params@, param_len: self.param_len }
    }
}

/// A command with parameters, which are cut to 240 bytes.
pub open spec fn request(opcode: u16, params: Seq<u8>) -> RequestModel {
    RequestModel {
        opcode,
        params: bytes::padded(params, CMD_REQ_PARAM_MAX as int),
        param_len: bytes::prefix(params, CMD_REQ_PARAM_MAX as int).len() as u16,
    }
}

/// Commands that wait to be sent, at most 64.
pub struct CmdRequestQueue {
    entries: Vec<CmdRequest>,
    head: usize,
    count: usize,
}

impl View for CmdRequestQueue {
    type V = Seq<RequestModel>;

    closed spec fn view(&self) -> Seq<RequestModel> {
        ring::ring(self.entries@, self.head as int, self.count as int).map_values(
            |r: CmdRequest| r@,
        )
    }
}

impl CmdRequestQueue {
    /// The ring has 64 slots.
    pub closed spec fn wf(self) -> bool {
        self.entries@.len() == CMD_REQ_QUEUE_DEPTH && self.head < CMD_REQ_QUEUE_DEPTH && self.count
            <= CMD_REQ_QUEUE_DEPTH
    }

    /// No commands.
    pub fn new() -> (r: Self)
        ensures
            r.wf(),
            r@ == Seq::<RequestModel>::empty(),
    {
        let blank = CmdRequest { opcode: 0, params: [0u8; 240], param_len: 0 };
        let mut entries: Vec<CmdRequest> = Vec::new();
        let mut i: usize = 0;
        while i < CMD_REQ_QUEUE_DEPTH
            invariant
                i <= CMD_REQ_QUEUE_DEPTH,
                entries@.len() == i,
            decreases CMD_REQ_QUEUE_DEPTH - i,
        {
            entries.push(blank);
            i = i + 1;
        }
        let r = CmdRequestQueue { entries, head: 0, count: 0 };
        assert(r@ =~= Seq::<RequestModel>::empty());
        r
    }

    /// Appends a command, or returns `EBUSY` where there are as many as may wait.
    pub fn push(&mut self, opcode: u16, params: &[u8]) -> (r: Result<(), Errno>)
        requires
            old(self).wf(),
        ensures
            final(self).wf(),
            if old(self)@.len() >= CMD_REQ_QUEUE_DEPTH {
                r == Err::<(), Errno>(Errno::EBUSY) && final(self)@ == old(self)@
            } else {
                r == Ok::<(), Errno>(()) && final(self)@ == old(self)@.push(
                    request(opcode, params@),
                )
            },
    {
        if self.count >= CMD_REQ_QUEUE_DEPTH {
            return Err(Errno::EBUSY);
        }
        let req = CmdRequest {
            opcode,
            params: bytes::to_array(params),
            param_len: bytes::min_usize(params.len(), CMD_REQ_PARAM_MAX) as u16,
        };
        proof {
            ring::ring_push(self.entries@, self.head as int, self.count as int, req);
        }
        let tail = (self.head + self.count) % CMD_REQ_QUEUE_DEPTH;
        self.entries.set(tail, req);
        self.count = self.count + 1;
        assert(self@ =~= old(self)@.push(request(opcode, params@)));
        Ok(())
    }

    /// Takes the oldest command, if there is one.
    pub fn pop(&mut self) -> (r: Option<CmdRequest>)
        requires
            old(self).wf(),
        ensures
            final(self).wf(),
            match r {
                Some(q) => old(self)@.len() > 0 && q@ == old(self)@[0] && final(self)@ == old(
                    self,
                )@.drop_first(),
                None => old(self)@.len() == 0 && final(self)@ == old(self)@,
            },
    {
        if self.count == 0 {
            return None;
        }
        let req = self.entries[self.head];
        proof {
            ring::ring_pop(self.entries@, self.head as int, self.count as int, req);
        }
        self.head = (self.head + 1) % CMD_REQ_QUEUE_DEPTH;
        self.count = self.count - 1;
        assert(self@ =~= old(self)@.drop_first());
        Some(req)
    }

    /// Number of commands.
    pub fn len(&self) -> (r: u16)
        requires
            self.wf(),
        ensures
            r == self@.len(),
    {
        self.count as u16
    }

    /// Whether there is no command.
    pub fn is_empty(&self) -> (r: bool)
        ensures
            r == (self@.len() == 0),
    {
        self.count == 0
    }
}

/// Freeing slots leaves the commands that wait where they are.
pub proof fn clearing_keeps_waiting(s: Seq<Option<PendingModel>>, n: int)
    requires
        0 <= n <= s.len(),
    ensures
        waiting(cleared_slots(s), n) == waiting(s, n),
        forall|i: int| 0 <= i < n && waits(s[i]) ==> #[trigger] cleared_slots(s)[i] == s[i],
    decreases n,
{
    if n > 0 {
        clearing_keeps_waiting(s, n - 1);
    }
}

/// After the commands that are overdue were given up, none that waits is overdue.
pub proof fn none_left_overdue(s: Seq<Option<PendingModel>>, now: u64, n: int)
    requires
        0 <= n <= s.len(),
    ensures
        overdue(expired_slots(s, now), now, n) == 0,
    decreases n,
{
    if n > 0 {
        none_left_overdue(s, now, n - 1);
    }
}

} // verus!
