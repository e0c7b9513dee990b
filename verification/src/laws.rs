//! Laws that relate several adapter operations, stated over the same models
//! the operation contracts use: `delivered` (what the downstream sink has
//! accepted), `unsent` (what the adapter still holds), and their
//! concatenation `stream`.
//!
//! Each premise below is an instance of an `ensures` clause of
//! [`crate::adapter::SinkAdapter`]'s operations, so the laws hold of any
//! sequence of calls with the stated outcomes. Notably, none of them
//! depends on how the downstream sink fragmented its acceptance — one byte
//! per attempt or everything at once — nor on how many not-ready retries
//! stood between the calls, since every one of those steps conserves the
//! stream.

use vstd::prelude::*;

verus! {

/// Round-trip law: a byte sequence written through a fresh adapter and then
/// drained by a completed close comes out downstream exactly as it went in,
/// byte for byte, in order.
///
/// The premises instantiate the operation contracts: a fresh adapter has an
/// empty stream (nothing delivered, nothing unsent); an accepted write of
/// `s` extends the stream by exactly `s`; a close conserves the stream; and
/// a close that completes with the downstream sink still open leaves
/// nothing unsent.
pub proof fn lemma_identity_round_trip(
    s: Seq<u8>,
    delivered_after_write: Seq<u8>,
    unsent_after_write: Seq<u8>,
    delivered_after_close: Seq<u8>,
    unsent_after_close: Seq<u8>,
)
    requires
        delivered_after_write + unsent_after_write == (Seq::<u8>::empty()
            + Seq::<u8>::empty()) + s,
        delivered_after_close + unsent_after_close == delivered_after_write
            + unsent_after_write,
        unsent_after_close.len() == 0,
    ensures
        delivered_after_close == s,
{
    assert(delivered_after_close =~= delivered_after_close + unsent_after_close);
    assert((Seq::<u8>::empty() + Seq::<u8>::empty()) + s =~= s);
}

/// Order-preservation law: three byte sequences written in order — however
/// many stream-conserving flushes and not-ready retries stand between the
/// writes — are delivered downstream as their concatenation, in order,
/// once a close completes with the downstream sink still open.
///
/// `delivered0` is whatever the downstream sink held before the first
/// write, with the adapter holding nothing unsent.
pub proof fn lemma_order_preserved(
    a: Seq<u8>,
    b: Seq<u8>,
    c: Seq<u8>,
    delivered0: Seq<u8>,
    stream_after_a: Seq<u8>,
    stream_after_b: Seq<u8>,
    stream_after_c: Seq<u8>,
    delivered_after_close: Seq<u8>,
    unsent_after_close: Seq<u8>,
)
    requires
        stream_after_a == (delivered0 + Seq::<u8>::empty()) + a,
        stream_after_b == stream_after_a + b,
        stream_after_c == stream_after_b + c,
        delivered_after_close + unsent_after_close == stream_after_c,
        unsent_after_close.len() == 0,
    ensures
        delivered_after_close == delivered0 + a + b + c,
{
    assert(delivered_after_close =~= delivered_after_close + unsent_after_close);
    assert((delivered0 + Seq::<u8>::empty()) + a =~= delivered0 + a);
    assert(((delivered0 + a) + b) + c =~= delivered0 + a + b + c);
}

} // verus!
