//! Decision logic of a periodic sampling-and-persistence pipeline.
//!
//! A sampler takes a collection of sub-samples each cycle, hands the
//! resulting reading to a writer through a queue, and polls for a
//! termination request. The writer appends every reading it receives, in
//! order, until it sees the shutdown marker. The I/O (sensor, clock, store,
//! channels) is performed by the caller; this crate decides what happens
//! next and proves that the decisions keep the pipeline's guarantees.
use vstd::prelude::*;

pub mod sampler;
pub mod writer;

verus! {

/// Messages that other threads send to the sampler.
#[derive(Debug, Clone, Copy, PartialEq, Eq, Structural)]
pub enum ThreadMessage {
    /// Stop collecting, flush the writer and exit.
    Terminate,
}

} // verus!
