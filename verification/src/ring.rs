//! The sample ingestor's delta and the ring buffer's trailing-window
//! model.

use vstd::prelude::*;

verus! {

/// The bounded delta of one raw sample against the previous one: the
/// absolute difference, with the subtraction order chosen by comparison so
/// it never underflows. Always non-negative, being unsigned.
pub open spec fn delta_of(sample: u64, last: u64) -> u64 {
    if sample > last {
        (sample - last) as u64
    } else {
        (last - sample) as u64
    }
}

/// The `depth` most recent ring entries in reverse-chronological order,
/// where `head` is the next write position: entry `i` sits at ring slot
/// `(head + 16 - 1 - i) mod 16`.
pub open spec fn window_seq(h: Seq<u64>, head: int, depth: int) -> Seq<u64>
    recommends
        h.len() == 16,
        0 <= head < 16,
        0 <= depth <= 16,
{
    Seq::new(depth as nat, |i: int| h[(head + 16 - 1 - i) % 16])
}

/// Turns one raw sample into its bounded delta against the previous one.
/// The delta is exactly the absolute difference and, as an unsigned value,
/// is always at least zero; this holds for every pair of samples.
pub fn compute_delta(sample: u64, last: u64) -> (d: u64)
    ensures
        d == delta_of(sample, last),
{
    if sample > last {
        sample - last
    } else {
        last - sample
    }
}

} // verus!
