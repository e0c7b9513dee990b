//! The sink adapter: the direction-inverting core.
//!
//! The adapter is push-writable. `write` hands bytes to the shared byte
//! queue; `flush` drives the pull side — the synthetic source reading that
//! queue, the slot where a streaming transform would run (the default is an
//! identity pass-through) — and forwards what it yields to the downstream
//! sink, honouring that sink's backpressure; `close` drains what the queue
//! still holds once the caller stops writing.
//!
//! The contracts speak of two sequences: `delivered`, what the downstream
//! sink has accepted, and `unsent`, what the adapter has accepted but not
//! yet forwarded (the pending tail of the backlog followed by the queue).
//! Their concatenation, `stream`, is what every byte the adapter ever
//! accepted amounts to: `flush` and `close` conserve it exactly, and a
//! successful `write` extends it by exactly the bytes written — so no byte
//! is lost, duplicated or reordered on its way downstream.

use vstd::prelude::*;
use vstd::slice::slice_subrange;

use crate::queue::ByteQueue;
use crate::sink::Downstream;
use crate::sink::WriteOutcome;

verus! {

/// Capacity of the scratch buffer one pull from the transform fills: the
/// backlog never holds more than this many bytes at a time.
pub const BUF_SIZE: usize = 1024;

/// What a flush (or close) invocation came to.
#[derive(Clone, Copy, Debug, PartialEq, Eq, Structural)]
pub enum FlushStatus {
    /// Nothing further can be done now: everything on hand was forwarded
    /// and the queue is drained, or the downstream sink has closed.
    Complete,
    /// The downstream sink reported backpressure; retry the flush later.
    NotReady,
    /// The downstream sink failed; the failure is propagated, nothing retried.
    Failed,
}

/// What a write invocation came to.
#[derive(Clone, Copy, Debug, PartialEq, Eq, Structural)]
pub enum WriteStatus {
    /// The whole byte sequence was accepted into the shared byte queue.
    Accepted(usize),
    /// Backpressure from the preceding flush; nothing was accepted, the
    /// caller retries the same write verbatim later.
    NotReady,
    /// The preceding flush failed; nothing was accepted.
    Failed,
}

/// The push-writable adapter around a downstream sink `W`. It owns the
/// shared byte queue its pull side reads from, and the backlog of already
/// pulled, not yet forwarded output together with the delivery cursor.
pub struct SinkAdapter<W: Downstream> {
    target: W,
    queue: ByteQueue,
    backlog: Vec<u8>,
    pos: usize,
}

impl<W: Downstream> SinkAdapter<W> {
    /// Well-formedness: the cursor never passes the end of the backlog, and
    /// the queue and the downstream sink are themselves well-formed.
    pub closed spec fn wf(&self) -> bool {
        &&& self.pos <= self.backlog@.len()
        &&& self.queue.wf()
        &&& self.target.inv()
    }

    /// The bytes the downstream sink has accepted so far, in order.
    pub closed spec fn delivered(&self) -> Seq<u8> {
        self.target.delivered()
    }

    /// The bytes accepted by `write` but not yet accepted downstream: the
    /// pending tail of the backlog, then the queued bytes, in order.
    pub closed spec fn unsent(&self) -> Seq<u8> {
        self.backlog@.skip(self.pos as int) + self.queue@
    }

    /// Every byte this adapter ever accepted, in order: first the delivered
    /// ones, then the ones still on their way.
    pub open spec fn stream(&self) -> Seq<u8> {
        self.delivered() + self.unsent()
    }

    /// Whether the downstream sink has reported itself closed.
    pub closed spec fn target_closed(&self) -> bool {
        self.target.closed()
    }

    /// The downstream sink, for inspection.
    pub fn downstream(&self) -> (r: &W)
        ensures
            r.delivered() == self.delivered(),
            r.closed() == self.target_closed(),
    {
        &self.target
    }

    /// Forward as much as possible right now.
    ///
    /// First the pending backlog is offered to the downstream sink until it
    /// is exhausted; then the pull side refills the backlog from the queue,
    /// and so on, until the queue has nothing more to give (complete), the
    /// sink reports backpressure (not ready, retry the whole flush later),
    /// the sink closes (complete, remaining bytes abandoned), or the sink
    /// fails (the failure is propagated).
    ///
    /// Whatever the outcome, the stream is conserved: bytes only move from
    /// `unsent` to `delivered`, in order. An adapter with nothing unsent
    /// completes at once and touches nothing.
    pub fn flush(&mut self) -> (r: FlushStatus)
        requires
            old(self).wf(),
        ensures
            final(self).wf(),
            final(self).stream() == old(self).stream(),
            old(self).delivered().is_prefix_of(final(self).delivered()),
            r is Complete ==> final(self).unsent().len() == 0 || final(self).target_closed(),
            old(self).unsent().len() == 0 ==> r is Complete
                && final(self).delivered() == old(self).delivered()
                && final(self).unsent().len() == 0,
    {
        loop
            invariant
                self.wf(),
                self.stream() == old(self).stream(),
                old(self).delivered().is_prefix_of(self.delivered()),
                old(self).unsent().len() == 0 ==> self.delivered() == old(self).delivered()
                    && self.unsent().len() == 0,
            decreases 2 * self.queue@.len() + (self.backlog@.len() - self.pos),
        {
            if self.pos < self.backlog.len() {
                proof {
                    assert(self.unsent().len() > 0);
                    assert(old(self).unsent().len() != 0);
                }
                let chunk = slice_subrange(self.backlog.as_slice(), self.pos, self.backlog.len());
                let ghost pre = *self;
                match self.target.attempt(chunk) {
                    WriteOutcome::Accepted(n) => {
                        proof {
                            assert(chunk@.take(n as int) + pre.backlog@.skip(self.pos + n)
                                =~= pre.backlog@.skip(self.pos as int));
                        }
                        self.pos = self.pos + n;
                        proof {
                            assert(self.stream() =~= pre.stream());
                            assert(old(self).delivered().is_prefix_of(self.delivered())) by {
                                assert(self.delivered().subrange(
                                    0, old(self).delivered().len() as int,
                                ) =~= old(self).delivered());
                            }
                        }
                    },
                    WriteOutcome::NotReady => {
                        return FlushStatus::NotReady;
                    },
                    WriteOutcome::Closed => {
                        return FlushStatus::Complete;
                    },
                    WriteOutcome::Failed => {
                        return FlushStatus::Failed;
                    },
                }
            } else {
                let ghost pre = *self;
                match self.queue.take(BUF_SIZE) {
                    None => {
                        proof {
                            assert(self.unsent() =~= Seq::<u8>::empty());
                        }
                        return FlushStatus::Complete;
                    },
                    Some(d) => {
                        proof {
                            assert(pre.unsent().len() != 0);
                            assert(old(self).unsent().len() != 0);
                        }
                        self.backlog = d;
                        self.pos = 0;
                        proof {
                            assert(pre.backlog@.skip(pre.pos as int)
                                =~= Seq::<u8>::empty());
                            assert(self.backlog@.skip(0) =~= self.backlog@);
                            assert(self.unsent() =~= pre.unsent());
                            assert(self.stream() =~= old(self).stream());
                        }
                    },
                }
            }
        }
    }

    /// Accept `bytes` for forwarding.
    ///
    /// A flush runs first. If it reports backpressure or failure, that is
    /// the write's own report and nothing is accepted — a not-ready write is
    /// retried verbatim by the caller. Otherwise the whole sequence enters
    /// the shared byte queue — acceptance does not wait for the downstream
    /// sink to catch up, since the queue is unbounded — and the full length
    /// is reported accepted.
    pub fn write(&mut self, bytes: &[u8]) -> (r: WriteStatus)
        requires
            old(self).wf(),
        ensures
            final(self).wf(),
            old(self).delivered().is_prefix_of(final(self).delivered()),
            match r {
                WriteStatus::Accepted(n) => n == bytes@.len()
                    && final(self).stream() == old(self).stream() + bytes@,
                WriteStatus::NotReady => final(self).stream() == old(self).stream(),
                WriteStatus::Failed => final(self).stream() == old(self).stream(),
            },
            old(self).unsent().len() == 0 ==> r is Accepted
                && final(self).delivered() == old(self).delivered()
                && final(self).unsent() == bytes@,
    {
        match self.flush() {
            FlushStatus::NotReady => WriteStatus::NotReady,
            FlushStatus::Failed => WriteStatus::Failed,
            FlushStatus::Complete => {
                let ghost pre = *self;
                self.queue.push(bytes);
                proof {
                    assert(self.stream() =~= pre.stream() + bytes@);
                    assert(old(self).delivered().is_prefix_of(self.delivered()));
                    if old(self).unsent().len() == 0 {
                        assert(self.unsent() =~= bytes@);
                    }
                }
                WriteStatus::Accepted(bytes.len())
            },
        }
    }

    /// Conclude the stream: one flush step towards full drainage.
    ///
    /// After the caller stops writing, the queue is never replenished, yet
    /// it may still hold input the pull side can turn into output; a flush
    /// forwards all of it unless the downstream sink intervenes. The caller
    /// invokes `close` repeatedly until it reports `Complete` or `Failed`;
    /// once everything is drained, further calls complete at once and touch
    /// nothing, so closing again is a harmless no-op.
    pub fn close(&mut self) -> (r: FlushStatus)
        requires
            old(self).wf(),
        ensures
            final(self).wf(),
            final(self).stream() == old(self).stream(),
            old(self).delivered().is_prefix_of(final(self).delivered()),
            r is Complete ==> final(self).unsent().len() == 0 || final(self).target_closed(),
            old(self).unsent().len() == 0 ==> r is Complete
                && final(self).delivered() == old(self).delivered()
                && final(self).unsent().len() == 0,
    {
        self.flush()
    }
}

/// Wrap the push-writable target `target` into a push-writable adapter whose
/// writes pass through the internal queue and pull side before reaching it.
/// The fresh adapter holds nothing unsent.
pub fn uncompress_data_write<W: Downstream>(target: W) -> (r: SinkAdapter<W>)
    requires
        target.inv(),
    ensures
        r.wf(),
        r.delivered() == target.delivered(),
        r.target_closed() == target.closed(),
        r.unsent().len() == 0,
{
    let adapter = SinkAdapter {
        target,
        queue: ByteQueue::new(),
        backlog: Vec::new(),
        pos: 0,
    };
    proof {
        assert(adapter.unsent() =~= Seq::<u8>::empty());
    }
    adapter
}

} // verus!
