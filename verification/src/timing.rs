//! Durations measured in samples.

use vstd::prelude::*;

verus! {

/// The number of samples nearest to `duration_ms` milliseconds at
/// `sample_rate` samples per second. Half a sample rounds up.
pub open spec fn span_in_samples(sample_rate: nat, duration_ms: nat) -> nat {
    (sample_rate * duration_ms + 500) / 1000
}

/// The capacity of a delay line for that duration: the span in samples, but
/// never less than one slot.
pub open spec fn line_capacity(sample_rate: nat, duration_ms: nat) -> nat {
    if span_in_samples(sample_rate, duration_ms) == 0 {
        1
    } else {
        span_in_samples(sample_rate, duration_ms)
    }
}

/// Converts a duration to a number of samples. The result may be zero: a
/// duration of less than half a sample spans none.
pub fn delay_samples(sample_rate: u32, duration_ms: u32) -> (n: u64)
    ensures
        n == span_in_samples(sample_rate as nat, duration_ms as nat),
{
    let rate: u64 = sample_rate as u64;
    let ms: u64 = duration_ms as u64;
    assert(rate * ms <= 0xffff_ffff * 0xffff_ffff) by (nonlinear_arith)
        requires
            rate <= 0xffff_ffff,
            ms <= 0xffff_ffff,
    ;
    (rate * ms + 500) / 1000
}

/// The span in samples is the integer nearest to the exact product of rate
/// and duration: it is off by at most half a sample, and a tie goes up.
pub proof fn lemma_span_is_nearest(sample_rate: nat, duration_ms: nat)
    ensures
        1000 * span_in_samples(sample_rate, duration_ms) <= sample_rate * duration_ms + 500,
        sample_rate * duration_ms + 500 < 1000 * span_in_samples(sample_rate, duration_ms) + 1000,
{
    vstd::arithmetic::div_mod::lemma_fundamental_div_mod(
        (sample_rate * duration_ms + 500) as int,
        1000,
    );
}

/// A longer duration or a higher rate never spans fewer samples.
pub proof fn lemma_span_is_monotonic(rate_a: nat, ms_a: nat, rate_b: nat, ms_b: nat)
    requires
        rate_a <= rate_b,
        ms_a <= ms_b,
    ensures
        span_in_samples(rate_a, ms_a) <= span_in_samples(rate_b, ms_b),
        line_capacity(rate_a, ms_a) <= line_capacity(rate_b, ms_b),
{
    assert(rate_a * ms_a <= rate_b * ms_b) by (nonlinear_arith)
        requires
            rate_a <= rate_b,
            ms_a <= ms_b,
    ;
    vstd::arithmetic::div_mod::lemma_div_is_ordered(
        (rate_a * ms_a + 500) as int,
        (rate_b * ms_b + 500) as int,
        1000,
    );
}

} // verus!
