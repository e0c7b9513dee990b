//! A direction-inverting adapter: it accepts bytes through a push-writable
//! interface, buffers them in an internal FIFO queue, pulls them back out
//! through a synthetic pull-readable source (the slot where a streaming
//! transform such as a decompressor would run; the default is an identity
//! pass-through), and forwards the pulled output to a caller-supplied
//! downstream sink while honouring that sink's backpressure.
//!
//! [`adapter`] holds the core: the adapter itself and the drive loop behind
//! its `write`, `flush` and `close`. [`queue`] is the byte queue those
//! operations share with the pull side; [`sink`] is the downstream contract
//! together with several sinks meeting it; [`laws`] states and proves the
//! properties that relate whole call sequences.

pub mod adapter;
pub mod laws;
pub mod queue;
pub mod sink;
