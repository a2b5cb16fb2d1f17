//! Delay-line layouts of the time-domain effects.

use crate::delay::{DelayLine, DelayModel};
use crate::error::DspError;
use crate::timing::{delay_samples, line_capacity, span_in_samples};
use vstd::prelude::*;

verus! {

/// Number of parallel comb filters in the reverberator.
pub const COMB_COUNT: usize = 4;

/// Delay time, in milliseconds, of each comb filter of the reverberator.
/// The times are distinct primes, so that no comb repeats on a multiple of
/// another's period.
pub const COMB_DELAYS_MS: [u32; 4] = [29, 37, 41, 43];

/// The delay line of a single-tap delay, filled with `fill`: as long as
/// `delay_ms` milliseconds at `sample_rate` samples per second, rounded to
/// the nearest sample. Where that is no sample at all there is nothing to
/// delay by, and `None` says that the signal passes through as it is.
///
/// A sample rate of zero is rejected, and so is a delay of more samples
/// than a buffer can hold.
pub fn tap_line<T: Copy>(sample_rate: u32, delay_ms: u32, fill: T) -> (made: Result<
    Option<DelayLine<T>>,
    DspError,
>)
    ensures
        made is Ok <==> sample_rate > 0 && span_in_samples(sample_rate as nat, delay_ms as nat)
            <= usize::MAX,
        made matches Ok(tap) ==> (tap is None <==> span_in_samples(
            sample_rate as nat,
            delay_ms as nat,
        ) == 0),
        made matches Ok(Some(line)) ==> line@ == DelayModel::silent(
            span_in_samples(sample_rate as nat, delay_ms as nat),
            fill,
        ) && line@.wf(),
        made matches Err(e) ==> e == DspError::InvalidParameter,
{
    if sample_rate == 0 {
        return Err(DspError::InvalidParameter);
    }
    let span: u64 = delay_samples(sample_rate, delay_ms);
    if span > usize::MAX as u64 {
        Err(DspError::InvalidParameter)
    } else if span == 0 {
        Ok(None)
    } else {
        Ok(Some(DelayLine::new(span as usize, fill)))
    }
}

/// Builds the comb filters' delay lines for a sample rate: one line per
/// delay time, in the order of [`COMB_DELAYS_MS`], each filled with `fill`.
///
/// Only a sample rate of zero is rejected: the longest line is shorter than
/// a twentieth of a second.
pub fn comb_bank<T: Copy>(sample_rate: u32, fill: T) -> (made: Result<Vec<DelayLine<T>>, DspError>)
    ensures
        made is Ok <==> sample_rate > 0,
        made matches Ok(lines) ==> lines.len() == COMB_COUNT && forall|i: int|
            0 <= i < COMB_COUNT ==> (#[trigger] lines[i])@ == DelayModel::silent(
                line_capacity(sample_rate as nat, COMB_DELAYS_MS@[i] as nat),
                fill,
            ),
        made matches Err(e) ==> e == DspError::InvalidParameter,
{
    if sample_rate == 0 {
        return Err(DspError::InvalidParameter);
    }
    let mut lines: Vec<DelayLine<T>> = Vec::new();
    let mut index: usize = 0;
    while index < COMB_COUNT
        invariant
            index <= COMB_COUNT,
            sample_rate > 0,
            lines.len() == index,
            forall|i: int|
                0 <= i < index ==> (#[trigger] lines[i])@ == DelayModel::silent(
                    line_capacity(sample_rate as nat, COMB_DELAYS_MS@[i] as nat),
                    fill,
                ),
        decreases COMB_COUNT - index,
    {
        let ms: u32 = COMB_DELAYS_MS[index];
        proof {
            lemma_short_line_fits(sample_rate as nat, ms as nat);
        }
        let span: u64 = delay_samples(sample_rate, ms);
        lines.push(DelayLine::new(span as usize, fill));
        index += 1;
    }
    Ok(lines)
}

/// A line of less than a second has no more slots than the sample rate, so
/// it fits any buffer.
proof fn lemma_short_line_fits(sample_rate: nat, duration_ms: nat)
    requires
        0 < sample_rate <= u32::MAX,
        duration_ms <= 999,
    ensures
        line_capacity(sample_rate, duration_ms) <= sample_rate,
        line_capacity(sample_rate, duration_ms) <= usize::MAX,
{
    assert(sample_rate * duration_ms + 500 <= sample_rate * 1000 + 999) by (nonlinear_arith)
        requires
            0 < sample_rate,
            duration_ms <= 999,
    ;
}

/// From 500 samples per second on, a longer delay time gives a strictly
/// longer line, so the four comb filters have four different lengths.
pub proof fn lemma_comb_lengths_differ(sample_rate: nat, i: int, j: int)
    requires
        sample_rate >= 500,
        0 <= i < j < COMB_COUNT,
    ensures
        line_capacity(sample_rate, COMB_DELAYS_MS@[i] as nat) < line_capacity(
            sample_rate,
            COMB_DELAYS_MS@[j] as nat,
        ),
{
    let short = COMB_DELAYS_MS@[i] as nat;
    let long = COMB_DELAYS_MS@[j] as nat;
    assert(short + 2 <= long);
    assert(sample_rate * short + 500 + 1000 <= sample_rate * long + 500) by (nonlinear_arith)
        requires
            sample_rate >= 500,
            short + 2 <= long,
    ;
    vstd::arithmetic::div_mod::lemma_fundamental_div_mod((sample_rate * short + 500) as int, 1000);
    vstd::arithmetic::div_mod::lemma_fundamental_div_mod((sample_rate * long + 500) as int, 1000);
    assert(sample_rate * short >= 500 * 29) by (nonlinear_arith)
        requires
            sample_rate >= 500,
            short >= 29,
    ;
}

} // verus!
