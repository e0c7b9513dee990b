//! The downstream side: the push-writable target that the adapter forwards
//! transformed output to.
//!
//! `Downstream` is the contract an integrator's sink must meet. Its model is
//! the sequence of bytes the sink has accepted so far (`delivered`) together
//! with whether it has closed (`closed`): a single attempt may accept a
//! non-empty prefix of what it was offered, report backpressure, report that
//! the sink has closed, or fail. The module also provides several small
//! sinks that meet the contract; they exercise each of those behaviours.

use vstd::prelude::*;

verus! {

/// What a single write attempt against a downstream sink came to.
#[derive(Clone, Copy, Debug, PartialEq, Eq, Structural)]
pub enum WriteOutcome {
    /// The sink accepted this many bytes from the front of the offered slice.
    Accepted(usize),
    /// The sink cannot take bytes right now; retry later. Nothing was taken.
    NotReady,
    /// The sink has closed and will accept nothing further. Nothing was taken.
    Closed,
    /// The sink failed. Nothing was taken; the attempt is aborted.
    Failed,
}

/// A push-writable byte sink.
///
/// `delivered` is the sink's model: every byte it has accepted, in order.
/// `attempt` offers it a non-empty slice; whatever the outcome, the sink may
/// only ever extend `delivered` with a prefix of what was offered, so bytes
/// are never lost, duplicated or reordered on the way in.
pub trait Downstream: Sized {
    /// Internal well-formedness of the sink; `attempt` preserves it. The
    /// default suits a sink with no internal invariant.
    open spec fn inv(&self) -> bool {
        true
    }

    /// The bytes this sink has accepted so far, in order. Every sink that
    /// can report acceptance must override this default: with an always
    /// empty model, no `Accepted` outcome can meet `attempt`'s contract.
    open spec fn delivered(&self) -> Seq<u8> {
        Seq::<u8>::empty()
    }

    /// Whether the sink has reported itself closed. The default suits a
    /// sink that never reports `Closed`.
    open spec fn closed(&self) -> bool {
        false
    }

    /// Offer the sink the bytes of `buf`; it takes a prefix or reports why not.
    fn attempt(&mut self, buf: &[u8]) -> (r: WriteOutcome)
        requires
            old(self).inv(),
            buf@.len() >= 1,
        ensures
            final(self).inv(),
            match r {
                WriteOutcome::Accepted(n) => {
                    &&& 1 <= n <= buf@.len()
                    &&& final(self).delivered() == old(self).delivered() + buf@.take(n as int)
                },
                WriteOutcome::NotReady => final(self).delivered() == old(self).delivered(),
                WriteOutcome::Closed => {
                    &&& final(self).delivered() == old(self).delivered()
                    &&& final(self).closed()
                },
                WriteOutcome::Failed => final(self).delivered() == old(self).delivered(),
            };
}

/// A sink that accepts everything it is offered, at once, into a growing
/// byte vector. It never signals backpressure, never closes, never fails.
pub struct VecSink {
    data: Vec<u8>,
}

impl VecSink {
    pub fn new() -> (r: VecSink)
        ensures
            r.inv(),
            r.delivered() =~= Seq::<u8>::empty(),
    {
        VecSink { data: Vec::new() }
    }

    /// The bytes accepted so far.
    pub fn data(&self) -> (r: &Vec<u8>)
        ensures
            r@ == self.delivered(),
    {
        &self.data
    }
}

impl Downstream for VecSink {
    open spec fn inv(&self) -> bool {
        true
    }

    closed spec fn delivered(&self) -> Seq<u8> {
        self.data@
    }

    open spec fn closed(&self) -> bool {
        false
    }

    fn attempt(&mut self, buf: &[u8]) -> (r: WriteOutcome)
        ensures
            r == WriteOutcome::Accepted(buf@.len() as usize),
            final(self).delivered() == old(self).delivered() + buf@,
    {
        push_prefix(&mut self.data, buf, buf.len());
        proof {
            assert(buf@.take(buf@.len() as int) =~= buf@);
        }
        WriteOutcome::Accepted(buf.len())
    }
}

/// Append the first `n` bytes of `src` to `dst`.
fn push_prefix(dst: &mut Vec<u8>, src: &[u8], n: usize)
    requires
        n <= src@.len(),
    ensures
        final(dst)@ == old(dst)@ + src@.take(n as int),
{
    let mut i: usize = 0;
    while i < n
        invariant
            i <= n <= src@.len(),
            dst@ == old(dst)@ + src@.take(i as int),
        decreases n - i,
    {
        dst.push(src[i]);
        proof {
            assert(old(dst)@ + src@.take(i + 1)
                =~= (old(dst)@ + src@.take(i as int)).push(src@[i as int]));
        }
        i = i + 1;
    }
}

/// A sink that accepts at most `limit` bytes per attempt, modelling a slow
/// target that forces the adapter to deliver a chunk over several attempts.
pub struct ThrottledSink {
    data: Vec<u8>,
    limit: usize,
}

impl ThrottledSink {
    /// How many bytes one attempt takes at most.
    pub closed spec fn limit(&self) -> usize {
        self.limit
    }

    /// A sink that takes at most `limit` bytes at a time.
    pub fn new(limit: usize) -> (r: ThrottledSink)
        requires
            limit >= 1,
        ensures
            r.inv(),
            r.delivered() =~= Seq::<u8>::empty(),
            r.limit() == limit,
    {
        ThrottledSink { data: Vec::new(), limit }
    }

    /// The bytes accepted so far.
    pub fn data(&self) -> (r: &Vec<u8>)
        ensures
            r@ == self.delivered(),
    {
        &self.data
    }
}

impl Downstream for ThrottledSink {
    closed spec fn inv(&self) -> bool {
        self.limit >= 1
    }

    closed spec fn delivered(&self) -> Seq<u8> {
        self.data@
    }

    open spec fn closed(&self) -> bool {
        false
    }

    fn attempt(&mut self, buf: &[u8]) -> (r: WriteOutcome)
        ensures
            final(self).limit() == old(self).limit(),
            ({
                let n: int = if old(self).limit() < buf@.len() {
                    old(self).limit() as int
                } else {
                    buf@.len() as int
                };
                r == WriteOutcome::Accepted(n as usize)
                    && final(self).delivered() == old(self).delivered() + buf@.take(n)
            }),
    {
        let n = if self.limit < buf.len() {
            self.limit
        } else {
            buf.len()
        };
        push_prefix(&mut self.data, buf, n);
        WriteOutcome::Accepted(n)
    }
}

/// A sink that reports backpressure on every other attempt: not ready once,
/// then everything accepted, and so on. It models a target whose readiness
/// the caller must poll for, forcing retries between writes.
pub struct StutterSink {
    data: Vec<u8>,
    ready: bool,
}

impl StutterSink {
    /// Whether the next attempt will report backpressure.
    pub closed spec fn stalls_next(&self) -> bool {
        !self.ready
    }

    /// A sink whose first attempt reports backpressure.
    pub fn new() -> (r: StutterSink)
        ensures
            r.inv(),
            r.delivered() =~= Seq::<u8>::empty(),
            r.stalls_next(),
    {
        StutterSink { data: Vec::new(), ready: false }
    }

    /// The bytes accepted so far.
    pub fn data(&self) -> (r: &Vec<u8>)
        ensures
            r@ == self.delivered(),
    {
        &self.data
    }
}

impl Downstream for StutterSink {
    open spec fn inv(&self) -> bool {
        true
    }

    closed spec fn delivered(&self) -> Seq<u8> {
        self.data@
    }

    open spec fn closed(&self) -> bool {
        false
    }

    fn attempt(&mut self, buf: &[u8]) -> (r: WriteOutcome)
        ensures
            final(self).stalls_next() == !old(self).stalls_next(),
            old(self).stalls_next() ==> r == WriteOutcome::NotReady
                && final(self).delivered() == old(self).delivered(),
            !old(self).stalls_next() ==> r == WriteOutcome::Accepted(buf@.len() as usize)
                && final(self).delivered() == old(self).delivered() + buf@,
    {
        if !self.ready {
            self.ready = true;
            WriteOutcome::NotReady
        } else {
            self.ready = false;
            push_prefix(&mut self.data, buf, buf.len());
            proof {
                assert(buf@.take(buf@.len() as int) =~= buf@);
            }
            WriteOutcome::Accepted(buf.len())
        }
    }
}

/// A sink that accepts `cap` bytes in total and then reports itself closed,
/// modelling a target that goes away while the adapter still holds output.
pub struct CappedSink {
    data: Vec<u8>,
    cap: usize,
}

impl CappedSink {
    /// How many bytes the sink accepts in total before closing.
    pub closed spec fn cap(&self) -> usize {
        self.cap
    }

    /// A sink that closes after accepting `cap` bytes.
    pub fn new(cap: usize) -> (r: CappedSink)
        ensures
            r.inv(),
            r.delivered() =~= Seq::<u8>::empty(),
            r.closed() == (cap == 0),
            r.cap() == cap,
    {
        CappedSink { data: Vec::new(), cap }
    }

    /// The bytes accepted so far.
    pub fn data(&self) -> (r: &Vec<u8>)
        ensures
            r@ == self.delivered(),
    {
        &self.data
    }
}

impl Downstream for CappedSink {
    closed spec fn inv(&self) -> bool {
        self.data@.len() <= self.cap
    }

    closed spec fn delivered(&self) -> Seq<u8> {
        self.data@
    }

    closed spec fn closed(&self) -> bool {
        self.data@.len() == self.cap
    }

    fn attempt(&mut self, buf: &[u8]) -> (r: WriteOutcome)
        ensures
            final(self).cap() == old(self).cap(),
            old(self).closed() ==> r == WriteOutcome::Closed
                && final(self).delivered() == old(self).delivered(),
            !old(self).closed() ==> ({
                let room: int = old(self).cap() - old(self).delivered().len();
                let n: int = if room < buf@.len() {
                    room
                } else {
                    buf@.len() as int
                };
                r == WriteOutcome::Accepted(n as usize)
                    && final(self).delivered() == old(self).delivered() + buf@.take(n)
            }),
    {
        let room = self.cap - self.data.len();
        if room == 0 {
            WriteOutcome::Closed
        } else {
            let n = if room < buf.len() {
                room
            } else {
                buf.len()
            };
            push_prefix(&mut self.data, buf, n);
            WriteOutcome::Accepted(n)
        }
    }
}

/// A sink that fails every attempt, modelling an I/O error downstream.
pub struct FailSink {
    failures: usize,
}

impl FailSink {
    pub fn new() -> (r: FailSink)
        ensures
            r.inv(),
            r.delivered() =~= Seq::<u8>::empty(),
            r.attempts() == 0,
    {
        FailSink { failures: 0 }
    }

    /// How many attempts have been made against this sink.
    pub closed spec fn attempts(&self) -> usize {
        self.failures
    }

    /// How many attempts have been made against this sink.
    pub fn failures(&self) -> (r: usize)
        ensures
            r == self.attempts(),
    {
        self.failures
    }
}

impl Downstream for FailSink {
    open spec fn inv(&self) -> bool {
        true
    }

    closed spec fn delivered(&self) -> Seq<u8> {
        Seq::<u8>::empty()
    }

    open spec fn closed(&self) -> bool {
        false
    }

    fn attempt(&mut self, buf: &[u8]) -> (r: WriteOutcome)
        ensures
            r == WriteOutcome::Failed,
            old(self).attempts() < usize::MAX
                ==> final(self).attempts() == old(self).attempts() + 1,
    {
        if self.failures < usize::MAX {
            self.failures = self.failures + 1;
        }
        WriteOutcome::Failed
    }
}

} // verus!
