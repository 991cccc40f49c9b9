//! Core logic of a Geiger-Müller pulse monitor: an opaque counter token with
//! saturating delta computation, a fixed-capacity circular window of
//! per-interval deltas, and the periodic aggregation that reduces the window
//! to the figures a report carries. Hardware access, timing and printing live
//! outside this crate; everything here is plain arithmetic on plain values.

use vstd::prelude::*;

pub mod counter;
pub mod sampler;
pub mod window;

pub use counter::CounterToken;
pub use sampler::Report;
pub use sampler::Sampler;

verus! {

/// What an unrecoverable fault leaves the process to do, round after round:
/// keep idling. There is no recovery, no state dump and no exit, so the
/// fault handler that owns the actual halt loop asks before every round and
/// always hears the same answer.
pub fn panic() -> (keep_idling: bool)
    ensures
        keep_idling,
{
    true
}

} // verus!
