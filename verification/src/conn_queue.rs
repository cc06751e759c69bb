//! Queue of the messages of a connection, kept in one block of memory.

use vstd::prelude::*;

use crate::bytes;
use crate::errno::Errno;
use crate::ring;

verus! {

/// Longest message of a connection.
pub const CONN_DATA_MAX: usize = 255;

/// Most messages that a queue holds.
pub const QUEUE_DEPTH: usize = 64;

/// A queue of at most 64 messages of at most 255 bytes. Each message has a slot of
/// fixed size in the storage.
pub struct DataRingBuffer {
    storage: Vec<u8>,
    lengths: [u16; 64],
    head: usize,
    count: usize,
}

impl DataRingBuffer {
    /// The slots lie within the storage.
    pub closed spec fn wf(self) -> bool {
        &&& self.storage@.len() == 64 * 255
        &&& self.head < 64
        &&& self.count <= 64
        &&& forall|s: int| 0 <= s < 64 ==> (#[trigger] self.lengths@[s]) <= 255
    }

    spec fn slot(self, s: int) -> Seq<u8> {
        self.storage@.subrange(s * 255, s * 255 + self.lengths@[s])
    }

    /// The messages, oldest first.
    pub closed spec fn view(self) -> Seq<Seq<u8>> {
        Seq::new(self.count as nat, |i: int| self.slot(ring::wrap(self.head + i, 64)))
    }

    /// A queue holds at most 64 messages, each of at most 255 bytes.
    pub proof fn bounded(self)
        requires
            self.wf(),
        ensures
            self@.len() <= 64,
            forall|i: int| 0 <= i < self@.len() ==> (#[trigger] self@[i]).len() <= 255,
    {
        assert forall|i: int| 0 <= i < self@.len() implies (#[trigger] self@[i]).len() <= 255 by {
            let s = ring::wrap(self.head + i, 64);
            assert(self.lengths@[s] <= 255);
        }
    }

    /// An empty queue.
    pub fn new() -> (r: Self)
        ensures
            r.wf(),
            r@ == Seq::<Seq<u8>>::empty(),
    {
        let mut storage: Vec<u8> = Vec::new();
        bytes::extend_zeros(&mut storage, 64 * 255);
        let r = DataRingBuffer { storage, lengths: [0u16; 64], head: 0, count: 0 };
        assert(r@ == Seq::<Seq<u8>>::empty());
        r
    }

    /// Number of messages.
    pub fn len(&self) -> (r: usize)
        ensures
            r == self@.len(),
    {
        self.count
    }

    /// Whether there is no message.
    pub fn is_empty(&self) -> (r: bool)
        ensures
            r == (self@.len() == 0),
    {
        self.count == 0
    }

    /// Appends a message, cut to 255 bytes, or returns `EAGAIN` where the queue is full.
    pub fn enqueue(&mut self, data: &[u8]) -> (r: Result<(), Errno>)
        requires
            old(self).wf(),
        ensures
            final(self).wf(),
            if old(self)@.len() >= 64 {
                r == Err::<(), Errno>(Errno::EAGAIN) && final(self)@ == old(self)@
            } else {
                r == Ok::<(), Errno>(()) && final(self)@ == old(self)@.push(
                    bytes::prefix(data@, 255),
                )
            },
    {
        if self.count >= QUEUE_DEPTH {
            return Err(Errno::EAGAIN);
        }
        let head = bytes::to_prefix(data, CONN_DATA_MAX);
        let tail = (self.head + self.count) % QUEUE_DEPTH;
        bytes::put_vec(&mut self.storage, tail * CONN_DATA_MAX, head.as_slice());
        self.lengths[tail] = head.len() as u16;
        self.count = self.count + 1;
        proof {
            assert(self.slot(tail as int) == head@);
            assert forall|s: int| 0 <= s < 64 && s != tail implies self.slot(s) == old(self).slot(
                s,
            ) by {
                assert(self.lengths@[s] == old(self).lengths@[s]);
                assert(old(self).lengths@[s] <= 255);
                assert(self.slot(s) =~= old(self).slot(s));
            }
            assert forall|i: int| 0 <= i < old(self).count implies self@[i] == old(self)@[i] by {
                assert(ring::wrap(old(self).head + i, 64) != tail);
            }
            assert(self@ == old(self)@.push(head@));
        }
        Ok(())
    }

    /// Takes the oldest message, copies as much of it as fits to the start of `buf` and
    /// returns its length, or returns `EAGAIN` where there is none.
    pub fn dequeue_into(&mut self, buf: &mut [u8]) -> (r: Result<usize, Errno>)
        requires
            old(self).wf(),
        ensures
            final(self).wf(),
            if old(self)@.len() == 0 {
                r == Err::<usize, Errno>(Errno::EAGAIN) && final(self)@ == old(self)@
                    && final(buf)@ == old(buf)@
            } else {
                &&& r == Ok::<usize, Errno>(old(self)@[0].len() as usize)
                &&& final(self)@ == old(self)@.drop_first()
                &&& final(buf)@ == bytes::splice(
                    old(buf)@,
                    0,
                    bytes::prefix(old(self)@[0], old(buf)@.len() as int),
                )
            },
    {
        if self.count == 0 {
            return Err(Errno::EAGAIN);
        }
        let len = self.lengths[self.head] as usize;
        let off = self.head * CONN_DATA_MAX;
        assert(self.lengths@[self.head as int] <= 255);
        let msg = bytes::slice_of(self.storage.as_slice(), off, off + len);
        assert(msg@ == self.slot(self.head as int));
        assert(ring::wrap(self.head + 0, 64) == self.head);
        assert(self@[0] == msg@);
        let cut = bytes::to_prefix(msg.as_slice(), buf.len());
        bytes::put_slice(buf, cut.as_slice());
        self.head = (self.head + 1) % QUEUE_DEPTH;
        self.count = self.count - 1;
        assert forall|i: int| 0 <= i < self.count implies self@[i] == old(self)@[i + 1] by {
            let s = ring::wrap(self.head + i, 64);
            assert(s == ring::wrap(old(self).head + (i + 1), 64));
            assert(self.slot(s) == old(self).slot(s));
        }
        assert(self@ == old(self)@.drop_first());
        Ok(len)
    }

    /// Drops the oldest message, if there is one.
    pub fn drop_oldest(&mut self)
        requires
            old(self).wf(),
        ensures
            final(self).wf(),
            final(self)@ == (if old(self)@.len() == 0 {
                old(self)@
            } else {
                old(self)@.drop_first()
            }),
    {
        if self.count > 0 {
            self.head = (self.head + 1) % QUEUE_DEPTH;
            self.count = self.count - 1;
            assert forall|i: int| 0 <= i < self.count implies self@[i] == old(self)@[i + 1] by {
                let s = ring::wrap(self.head + i, 64);
                assert(s == ring::wrap(old(self).head + (i + 1), 64));
                assert(self.slot(s) == old(self).slot(s));
            }
            assert(self@ == old(self)@.drop_first());
        }
    }
}

} // verus!
