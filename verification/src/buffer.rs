//! Fixed-capacity FIFO byte queue.

use vstd::arithmetic::div_mod::{lemma_mod_self_0, lemma_small_mod};
use vstd::prelude::*;

verus! {

/// Position `x` folded back into a ring of `cap` slots, for `x` below `2 * cap`.
spec fn wrap(x: int, cap: int) -> int {
    if x >= cap {
        x - cap
    } else {
        x
    }
}

/// The pending bytes after `byte` was offered to a queue of `cap` slots: it
/// goes to the back, unless the queue is full, which drops it.
pub open spec fn after_enqueue(pending: Seq<u8>, cap: nat, byte: u8) -> Seq<u8> {
    if pending.len() < cap {
        pending.push(byte)
    } else {
        pending
    }
}

/// The pending bytes after the oldest one, if any, was taken out.
pub open spec fn after_dequeue(pending: Seq<u8>) -> Seq<u8> {
    if pending.len() > 0 {
        pending.drop_first()
    } else {
        pending
    }
}

/// One step of a queue's history.
pub enum BufferOp {
    Enqueue(u8),
    Dequeue,
}

/// The pending bytes after one step.
pub open spec fn after_op(pending: Seq<u8>, cap: nat, op: BufferOp) -> Seq<u8> {
    match op {
        BufferOp::Enqueue(byte) => after_enqueue(pending, cap, byte),
        BufferOp::Dequeue => after_dequeue(pending),
    }
}

/// The pending bytes after a whole history of steps, in order.
pub open spec fn after_ops(pending: Seq<u8>, cap: nat, ops: Seq<BufferOp>) -> Seq<u8>
    decreases ops.len(),
{
    if ops.len() == 0 {
        pending
    } else {
        after_op(after_ops(pending, cap, ops.drop_last()), cap, ops.last())
    }
}

/// `n` held within `0 ..= cap`.
pub open spec fn clamp(n: int, cap: nat) -> int {
    if n < 0 {
        0
    } else if n > cap {
        cap as int
    } else {
        n
    }
}

/// Bytes put in minus bytes taken out over a history that starts with `n`
/// bytes, the running count held within `0 ..= cap` at every step.
pub open spec fn count_after_ops(n: int, cap: nat, ops: Seq<BufferOp>) -> int
    decreases ops.len(),
{
    if ops.len() == 0 {
        n
    } else {
        let before = count_after_ops(n, cap, ops.drop_last());
        match ops.last() {
            BufferOp::Enqueue(_) => clamp(before + 1, cap),
            BufferOp::Dequeue => clamp(before - 1, cap),
        }
    }
}

/// Whatever the order of enqueues and dequeues, the number of pending bytes
/// is the number put in minus the number taken out, clamped to the capacity
/// from above and to zero from below.
pub proof fn lemma_available_is_clamped_count(pending: Seq<u8>, cap: nat, ops: Seq<BufferOp>)
    requires
        pending.len() <= cap,
    ensures
        after_ops(pending, cap, ops).len() == count_after_ops(pending.len() as int, cap, ops),
        after_ops(pending, cap, ops).len() <= cap,
    decreases ops.len(),
{
    if ops.len() > 0 {
        lemma_available_is_clamped_count(pending, cap, ops.drop_last());
    }
}

/// Bytes leave in the order in which they were accepted: after enqueues
/// alone on an empty queue with room for them all, the pending bytes are the
/// enqueued ones in order.
pub proof fn lemma_fifo_order(cap: nat, bytes: Seq<u8>)
    requires
        bytes.len() <= cap,
    ensures
        after_ops(Seq::<u8>::empty(), cap, bytes.map_values(|b: u8| BufferOp::Enqueue(b)))
            == bytes,
    decreases bytes.len(),
{
    let ops = bytes.map_values(|b: u8| BufferOp::Enqueue(b));
    if bytes.len() > 0 {
        lemma_fifo_order(cap, bytes.drop_last());
        assert(ops.drop_last() =~= bytes.drop_last().map_values(|b: u8| BufferOp::Enqueue(b)));
        assert(bytes.drop_last().push(bytes.last()) =~= bytes);
    } else {
        assert(bytes =~= Seq::<u8>::empty());
    }
}

/// Where the pending bytes lie in the ring: the slot of the oldest one, the
/// slot the next one goes to, and how many there are.
struct Span {
    first: usize,
    last: usize,
    size: usize,
}

/// A bounded first-in first-out queue of bytes, stored in a ring.
pub struct Buffer {
    data: Vec<u8>,
    cap: usize,
    span: Span,
}

impl Buffer {
    #[verifier::type_invariant]
    spec fn inv(self) -> bool {
        &&& self.data@.len() == self.cap
        &&& self.span.size <= self.cap
        &&& self.cap == 0 ==> self.span.first == 0 && self.span.last == 0
        &&& self.cap > 0 ==> self.span.first < self.cap && self.span.last == wrap(
            self.span.first + self.span.size,
            self.cap as int,
        )
    }

    /// The pending bytes, oldest first.
    pub closed spec fn view(&self) -> Seq<u8> {
        Seq::new(
            self.span.size as nat,
            |i: int| self.data@[wrap(self.span.first + i, self.cap as int)],
        )
    }

    /// The number of bytes the queue can hold.
    pub closed spec fn capacity(&self) -> nat {
        self.cap as nat
    }

    /// An empty queue that holds up to `capacity` bytes.
    pub fn new(capacity: usize) -> (b: Buffer)
        ensures
            b@ == Seq::<u8>::empty(),
            b.capacity() == capacity,
    {
        let data = vec![0u8; capacity];
        let b = Buffer { data, cap: capacity, span: Span { first: 0, last: 0, size: 0 } };
        assert(b@ =~= Seq::<u8>::empty());
        b
    }

    /// Appends `byte` behind the pending bytes; a full queue refuses it and
    /// stays as it was.
    pub fn enqueue(&mut self, byte: u8) -> (ok: bool)
        ensures
            final(self).capacity() == old(self).capacity(),
            ok == (old(self)@.len() < old(self).capacity()),
            final(self)@ == after_enqueue(old(self)@, old(self).capacity(), byte),
    {
        proof {
            use_type_invariant(&*self);
        }
        if self.span.size < self.cap {
            let at: usize = self.span.last;
            let next: usize = (at + 1) % self.cap;
            proof {
                if at + 1 < self.cap {
                    lemma_small_mod((at + 1) as nat, self.cap as nat);
                } else {
                    lemma_mod_self_0(self.cap as int);
                }
            }
            self.data[at] = byte;
            self.span = Span { first: self.span.first, last: next, size: self.span.size + 1 };
            assert(self@ =~= old(self)@.push(byte));
            true
        } else {
            false
        }
    }

    /// Removes the oldest pending byte and returns it; nothing on an empty
    /// queue, which stays as it was.
    pub fn dequeue(&mut self) -> (out: Option<u8>)
        ensures
            final(self).capacity() == old(self).capacity(),
            out == (if old(self)@.len() > 0 {
                Some(old(self)@[0])
            } else {
                None
            }),
            final(self)@ == after_dequeue(old(self)@),
    {
        proof {
            use_type_invariant(&*self);
        }
        if self.span.size > 0 {
            let at: usize = self.span.first;
            let byte = self.data[at];
            let next: usize = (at + 1) % self.cap;
            proof {
                if at + 1 < self.cap {
                    lemma_small_mod((at + 1) as nat, self.cap as nat);
                } else {
                    lemma_mod_self_0(self.cap as int);
                }
            }
            self.span = Span { first: next, last: self.span.last, size: self.span.size - 1 };
            assert(self@ =~= old(self)@.drop_first());
            Some(byte)
        } else {
            None
        }
    }

    /// Removes every pending byte and returns them, oldest first.
    pub fn deallqueue(&mut self) -> (out: Vec<u8>)
        ensures
            final(self).capacity() == old(self).capacity(),
            out@ == old(self)@,
            final(self)@ == Seq::<u8>::empty(),
    {
        let mut result: Vec<u8> = Vec::with_capacity(self.span.size);
        loop
            invariant
                self.capacity() == old(self).capacity(),
                result@ + self@ == old(self)@,
            ensures
                self@.len() == 0,
            decreases self@.len(),
        {
            match self.dequeue() {
                Some(b) => {
                    result.push(b);
                },
                None => {
                    break ;
                },
            }
        }
        assert(self@ =~= Seq::<u8>::empty());
        assert(result@ =~= result@ + self@);
        result
    }

    /// The number of pending bytes.
    pub fn available(&self) -> (n: usize)
        ensures
            n == self@.len(),
            n <= self.capacity(),
    {
        proof {
            use_type_invariant(self);
        }
        self.span.size
    }
}

} // verus!
