//! A bounded FIFO of received bytes, filled by the console interrupt and
//! drained by the console loop.
use vstd::prelude::*;

verus! {

/// Capacity of the console byte queue.
pub const RING_BUFFER_SIZE: usize = 64;

/// A bounded FIFO of bytes kept in a circular buffer.
pub struct RingBuffer {
    data: Vec<u8>,
    head: usize,
    len: usize,
}

impl View for RingBuffer {
    type V = Seq<u8>;

    /// The queued bytes, oldest first.
    closed spec fn view(&self) -> Seq<u8> {
        Seq::new(
            self.len as nat,
            |i: int| self.data@[(self.head + i) % (RING_BUFFER_SIZE as int)],
        )
    }
}

impl RingBuffer {
    /// The circular buffer is well formed.
    #[verifier::type_invariant]
    closed spec fn wf(&self) -> bool {
        &&& self.data@.len() == RING_BUFFER_SIZE
        &&& self.head < RING_BUFFER_SIZE
        &&& self.len <= RING_BUFFER_SIZE
    }

    /// An empty queue.
    pub fn new() -> (r: Self)
        ensures
            r@ == Seq::<u8>::empty(),
    {
        let mut data: Vec<u8> = Vec::new();
        let mut i: usize = 0;
        while i < RING_BUFFER_SIZE
            invariant
                i <= RING_BUFFER_SIZE,
                data@.len() == i,
            decreases RING_BUFFER_SIZE - i,
        {
            data.push(0);
            i += 1;
        }
        let r = RingBuffer { data, head: 0, len: 0 };
        assert(r@ =~= Seq::<u8>::empty());
        r
    }

    /// The number of queued bytes.
    pub fn len(&self) -> (n: usize)
        ensures
            n == self@.len(),
    {
        proof {
            use_type_invariant(self);
        }
        self.len
    }

    /// Appends `b` when there is room and tells whether it did; a full
    /// queue is left as it was and the byte is dropped.
    pub fn push(&mut self, b: u8) -> (stored: bool)
        ensures
            old(self)@.len() <= RING_BUFFER_SIZE,
            stored == (old(self)@.len() < RING_BUFFER_SIZE),
            stored ==> final(self)@ == old(self)@.push(b),
            !stored ==> final(self)@ == old(self)@,
    {
        proof {
            use_type_invariant(&*self);
        }
        if self.len == RING_BUFFER_SIZE {
            return false;
        }
        let tail = (self.head + self.len) % RING_BUFFER_SIZE;
        self.data[tail] = b;
        self.len = self.len + 1;
        assert(self@ =~= old(self)@.push(b)) by {
            assert forall|i: int| 0 <= i < old(self)@.len() implies #[trigger] self@[i] == old(
                self,
            )@[i] by {
                assert((self.head + i) % (RING_BUFFER_SIZE as int) != tail as int) by {
                    lemma_distinct_slots(self.head as int, i, old(self).len as int);
                }
            }
        }
        true
    }

    /// Removes and returns the oldest byte, or `None` when the queue is empty.
    pub fn pop(&mut self) -> (r: Option<u8>)
        ensures
            old(self)@.len() == 0 ==> r == None::<u8> && final(self)@ == old(self)@,
            old(self)@.len() > 0 ==> r == Some(old(self)@[0]) && final(self)@ == old(
                self,
            )@.drop_first(),
    {
        proof {
            use_type_invariant(&*self);
        }
        if self.len == 0 {
            return None;
        }
        let b = self.data[self.head];
        assert(b == old(self)@[0]);
        self.head = (self.head + 1) % RING_BUFFER_SIZE;
        self.len = self.len - 1;
        assert(self@ =~= old(self)@.drop_first()) by {
            assert forall|i: int| 0 <= i < self@.len() implies #[trigger] self@[i] == old(
                self,
            )@.drop_first()[i] by {
                lemma_next_slot(old(self).head as int, i);
            }
        }
        Some(b)
    }
}

/// Slot `head + i` and slot `head + len` differ when `i < len <= size`.
proof fn lemma_distinct_slots(head: int, i: int, len: int)
    requires
        0 <= head < RING_BUFFER_SIZE,
        0 <= i < len,
        len < RING_BUFFER_SIZE,
    ensures
        (head + i) % (RING_BUFFER_SIZE as int) != (head + len) % (RING_BUFFER_SIZE as int),
{
}

/// Advancing the head by one slot shifts the positions by one.
proof fn lemma_next_slot(head: int, i: int)
    requires
        0 <= head < RING_BUFFER_SIZE,
        0 <= i,
    ensures
        ((head + 1) % (RING_BUFFER_SIZE as int) + i) % (RING_BUFFER_SIZE as int) == (head + (i
            + 1)) % (RING_BUFFER_SIZE as int),
{
}

/// The queue is first in, first out: after pushing `b` onto a queue that
/// has room, popping gives the queue's oldest byte, or `b` when it was empty.
pub proof fn lemma_fifo(q: Seq<u8>, b: u8)
    requires
        q.len() < RING_BUFFER_SIZE,
    ensures
        q.push(b)[0] == (if q.len() == 0 { b } else { q[0] }),
        q.len() > 0 ==> q.push(b).drop_first() =~= q.drop_first().push(b),
{
}

} // verus!
