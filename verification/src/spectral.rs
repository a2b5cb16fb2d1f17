//! Positions of samples within an analysis window.

use vstd::prelude::*;

verus! {

/// The divisor that turns a sample index into a position between zero and
/// one within a window of `len` samples: the index of the last sample.
///
/// A window needs two samples to have a first and a last position. Shorter
/// buffers have no divisor, and are to be left as they are.
pub fn window_divisor(len: usize) -> (divisor: Option<usize>)
    ensures
        divisor is Some <==> len >= 2,
        divisor matches Some(d) ==> d == len - 1 && d >= 1,
{
    if len >= 2 {
        Some(len - 1)
    } else {
        None
    }
}

} // verus!
