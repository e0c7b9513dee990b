//! The shared byte queue: the FIFO buffer standing between the adapter's
//! push-writable entry point and its pull side.
//!
//! The queue also carries the synthetic-source reading discipline: an empty
//! queue means "nothing available *yet*", never end-of-stream, because the
//! adapter may append more bytes later. `take` therefore reports emptiness
//! as `None` (not ready) and otherwise hands out a non-empty prefix.

use vstd::prelude::*;

verus! {

/// FIFO byte buffer. `push` appends at the back, `take` removes from the
/// front; the bytes between are never reordered.
pub struct ByteQueue {
    buf: Vec<u8>,
    head: usize,
}

impl ByteQueue {
    /// The bytes currently queued, oldest first.
    pub closed spec fn view(&self) -> Seq<u8> {
        self.buf@.skip(self.head as int)
    }

    /// Well-formedness: the read position never passes the end of the buffer.
    pub closed spec fn wf(&self) -> bool {
        self.head <= self.buf@.len()
    }

    /// An empty queue.
    pub fn new() -> (r: ByteQueue)
        ensures
            r.wf(),
            r@ =~= Seq::<u8>::empty(),
    {
        ByteQueue { buf: Vec::new(), head: 0 }
    }

    /// How many bytes are queued.
    pub fn len(&self) -> (r: usize)
        requires
            self.wf(),
        ensures
            r == self@.len(),
    {
        self.buf.len() - self.head
    }

    /// Append `data` behind everything already queued.
    pub fn push(&mut self, data: &[u8])
        requires
            old(self).wf(),
        ensures
            final(self).wf(),
            final(self)@ == old(self)@ + data@,
    {
        let mut i: usize = 0;
        while i < data.len()
            invariant
                i <= data@.len(),
                self.head == old(self).head,
                self.buf@ == old(self).buf@ + data@.take(i as int),
            decreases data@.len() - i,
        {
            self.buf.push(data[i]);
            proof {
                assert(old(self).buf@ + data@.take(i + 1)
                    =~= (old(self).buf@ + data@.take(i as int)).push(data@[i as int]));
            }
            i = i + 1;
        }
        proof {
            assert(data@.take(data@.len() as int) =~= data@);
            assert((old(self).buf@ + data@).skip(self.head as int)
                =~= old(self).buf@.skip(self.head as int) + data@);
        }
    }

    /// Remove and return up to `cap` bytes from the front, in order.
    ///
    /// `None` reports an empty queue: not ready rather than finished, since
    /// a later `push` may replenish it. Otherwise the result is a non-empty
    /// prefix of the queued bytes, which are no longer queued afterwards.
    pub fn take(&mut self, cap: usize) -> (r: Option<Vec<u8>>)
        requires
            old(self).wf(),
            cap >= 1,
        ensures
            final(self).wf(),
            match r {
                None => old(self)@.len() == 0 && final(self)@ == old(self)@,
                Some(d) => {
                    &&& 1 <= d@.len() <= cap
                    &&& d@.len() <= old(self)@.len()
                    &&& d@ == old(self)@.take(d@.len() as int)
                    &&& final(self)@ == old(self)@.skip(d@.len() as int)
                },
            },
    {
        let avail = self.buf.len() - self.head;
        if avail == 0 {
            assert(self@ =~= old(self)@);
            return None;
        }
        let n = if cap < avail {
            cap
        } else {
            avail
        };
        let mut d: Vec<u8> = Vec::new();
        let mut i: usize = 0;
        while i < n
            invariant
                i <= n,
                self.head + n <= self.buf@.len() <= usize::MAX,
                self == old(self),
                d@ == self.buf@.subrange(self.head as int, self.head + i),
            decreases n - i,
        {
            d.push(self.buf[self.head + i]);
            proof {
                assert(self.buf@.subrange(self.head as int, self.head + i + 1)
                    =~= self.buf@.subrange(self.head as int, self.head + i)
                        .push(self.buf@[self.head + i]));
            }
            i = i + 1;
        }
        proof {
            assert(d@ =~= old(self)@.take(n as int));
        }
        self.head = self.head + n;
        proof {
            assert(self.buf@.skip(self.head as int)
                =~= old(self)@.skip(n as int));
        }
        if self.head == self.buf.len() {
            self.buf = Vec::new();
            self.head = 0;
            assert(self@ =~= old(self)@.skip(n as int));
        }
        Some(d)
    }
}

} // verus!
