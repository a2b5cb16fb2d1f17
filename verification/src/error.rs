//! Error conditions reported by the toolkit.

use vstd::prelude::*;

verus! {

/// Why a request was rejected.
#[derive(Clone, Copy, Debug, PartialEq, Eq, Structural)]
pub enum DspError {
    /// A sample rate, duration or length that no processor can be built for.
    InvalidParameter,
    /// A combination of sample encoding and bit depth that has no
    /// normalization rule.
    UnsupportedFormat,
}

} // verus!
