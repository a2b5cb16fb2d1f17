//! Buffer lengths of the whole-buffer transforms.

use crate::error::DspError;
use vstd::prelude::*;

verus! {

/// Length of the convolution of a signal of `signal_len` samples with an
/// impulse response of `impulse_len` samples: one less than the sum. Where
/// both are empty the convolution is empty too.
pub open spec fn convolved_len(signal_len: nat, impulse_len: nat) -> nat {
    if signal_len + impulse_len == 0 {
        0
    } else {
        (signal_len + impulse_len - 1) as nat
    }
}

/// Length of the output buffer of a convolution.
///
/// A length that no buffer can have is rejected.
pub fn convolution_length(signal_len: usize, impulse_len: usize) -> (made: Result<usize, DspError>)
    ensures
        made is Ok <==> convolved_len(signal_len as nat, impulse_len as nat) <= usize::MAX,
        made matches Ok(n) ==> n == convolved_len(signal_len as nat, impulse_len as nat),
        made matches Err(e) ==> e == DspError::InvalidParameter,
{
    if signal_len == 0 {
        if impulse_len == 0 {
            Ok(0)
        } else {
            Ok(impulse_len - 1)
        }
    } else if impulse_len <= usize::MAX - (signal_len - 1) {
        Ok(signal_len - 1 + impulse_len)
    } else {
        Err(DspError::InvalidParameter)
    }
}

/// The product of sample `i` of the signal and sample `j` of the impulse
/// response lands on output sample `i + j`, which the output buffer has.
pub proof fn lemma_product_lands_in_output(i: nat, j: nat, signal_len: nat, impulse_len: nat)
    requires
        i < signal_len,
        j < impulse_len,
    ensures
        i + j < convolved_len(signal_len, impulse_len),
{
}

/// The last output sample is reached: the output is no longer than it has
/// to be.
pub proof fn lemma_output_is_tight(signal_len: nat, impulse_len: nat)
    requires
        signal_len > 0,
        impulse_len > 0,
    ensures
        (signal_len - 1) + (impulse_len - 1) == convolved_len(signal_len, impulse_len) - 1,
{
}

/// Convolution does not care which operand is called the signal.
pub proof fn lemma_convolved_len_is_symmetric(signal_len: nat, impulse_len: nat)
    ensures
        convolved_len(signal_len, impulse_len) == convolved_len(impulse_len, signal_len),
{
}

} // verus!
