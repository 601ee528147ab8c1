//! The bounded receive queue between the interrupt path and the main loop.
//! The interrupt handler pushes bytes with `push` (constant-time, never
//! allocating); the main loop drains them with `pop`. The queue never
//! overwrites unread bytes: on overflow the byte is dropped and a sticky
//! flag is raised that the decode path must report as fatal.

use vstd::prelude::*;

verus! {

/// Position of logical offset `i` from `head` in a ring of size `cap`.
pub open spec fn ring_index(head: int, i: int, cap: int) -> int {
    if head + i < cap {
        head + i
    } else {
        head + i - cap
    }
}

/// The condition the decode path reports instead of returning bytes.
#[derive(Clone, Copy, PartialEq, Eq, Structural, Debug)]
pub enum FatalError {
    /// The receive queue dropped at least one byte: the stream is unreliable.
    RxOverflow,
}

/// A fixed-capacity single-producer/single-consumer byte queue.
pub struct RxQueue {
    buf: Vec<u8>,
    head: usize,
    count: usize,
    overflowed: bool,
}

impl RxQueue {
    /// Internal layout invariant.
    pub closed spec fn wf(&self) -> bool {
        &&& self.buf@.len() > 0
        &&& self.head < self.buf@.len()
        &&& self.count <= self.buf@.len()
    }

    /// Number of bytes the queue can hold.
    pub closed spec fn capacity(&self) -> nat {
        self.buf@.len()
    }

    /// The unread bytes, oldest first.
    pub closed spec fn contents(&self) -> Seq<u8> {
        Seq::new(
            self.count as nat,
            |i: int| self.buf@[ring_index(self.head as int, i, self.buf@.len() as int)],
        )
    }

    /// Whether a byte was ever dropped for want of space (sticky).
    pub closed spec fn overflow(&self) -> bool {
        self.overflowed
    }

    /// An empty queue of capacity `cap`.
    pub fn new(cap: usize) -> (r: RxQueue)
        requires
            cap > 0,
        ensures
            r.wf(),
            r.capacity() == cap,
            r.contents() =~= Seq::<u8>::empty(),
            !r.overflow(),
    {
        let mut buf: Vec<u8> = Vec::new();
        let mut i: usize = 0;
        while i < cap
            invariant
                i <= cap,
                buf@.len() == i,
            decreases cap - i,
        {
            buf.push(0);
            i = i + 1;
        }
        RxQueue { buf, head: 0, count: 0, overflowed: false }
    }

    /// Appends `b`, or — with the queue full — drops it and raises the
    /// sticky overflow flag. Constant-time and allocation-free, as the
    /// interrupt path demands.
    pub fn push(&mut self, b: u8)
        requires
            old(self).wf(),
        ensures
            final(self).wf(),
            final(self).capacity() == old(self).capacity(),
            old(self).contents().len() == old(self).capacity() ==> {
                &&& final(self).contents() == old(self).contents()
                &&& final(self).overflow()
            },
            old(self).contents().len() < old(self).capacity() ==> {
                &&& final(self).contents() == old(self).contents().push(b)
                &&& final(self).overflow() == old(self).overflow()
            },
    {
        let cap = self.buf.len();
        if self.count == cap {
            self.overflowed = true;
            proof {
                assert(self.contents() =~= old(self).contents());
            }
            return;
        }
        let room = cap - self.head;
        let idx = if self.count >= room {
            self.count - room
        } else {
            self.head + self.count
        };
        self.buf[idx] = b;
        self.count = self.count + 1;
        proof {
            assert(self.contents() =~= old(self).contents().push(b));
        }
    }

    /// Removes and returns the oldest byte, if any. The overflow flag is
    /// left as it is: it stays raised until the fault is reported.
    pub fn pop(&mut self) -> (r: Option<u8>)
        requires
            old(self).wf(),
        ensures
            final(self).wf(),
            final(self).capacity() == old(self).capacity(),
            final(self).overflow() == old(self).overflow(),
            old(self).contents().len() == 0 ==> {
                &&& r is None
                &&& final(self).contents() == old(self).contents()
            },
            old(self).contents().len() > 0 ==> {
                &&& r == Some(old(self).contents().first())
                &&& final(self).contents() == old(self).contents().drop_first()
            },
    {
        if self.count == 0 {
            proof {
                assert(self.contents() =~= old(self).contents());
            }
            return None;
        }
        let b = self.buf[self.head];
        self.head = if self.head == self.buf.len() - 1 {
            0
        } else {
            self.head + 1
        };
        self.count = self.count - 1;
        proof {
            assert(self.contents() =~= old(self).contents().drop_first());
        }
        Some(b)
    }

    /// Number of unread bytes.
    pub fn len(&self) -> (r: usize)
        ensures
            r == self.contents().len(),
    {
        self.count
    }

    /// Whether a byte was ever dropped.
    pub fn has_overflowed(&self) -> (r: bool)
        ensures
            r == self.overflow(),
    {
        self.overflowed
    }
}

} // verus!
