//! Geometry of linear-interpolation resampling.
//!
//! Changing the rate of a signal from `source_rate` to `target_rate`
//! places output sample `i` at the input position `i * source_rate /
//! target_rate`. That position is a fraction: its whole part names the input
//! sample at or before it, and its remainder is the weight of the sample
//! after it. This module computes those positions exactly, in integers; the
//! caller blends the two input samples.

use crate::error::DspError;
use vstd::prelude::*;

verus! {

/// Length of the resampled signal: `len * target_rate / source_rate`,
/// rounded to the nearest integer, half rounding up.
pub open spec fn resampled_len(len: nat, source_rate: nat, target_rate: nat) -> nat {
    (2 * len * target_rate + source_rate) / (2 * source_rate)
}

/// Whole part of the input position of output sample `i`.
pub open spec fn source_index(i: nat, source_rate: nat, target_rate: nat) -> nat {
    (i * source_rate) / target_rate
}

/// Remainder of the input position of output sample `i`, in units of
/// `1 / target_rate` of a sample.
pub open spec fn source_remainder(i: nat, source_rate: nat, target_rate: nat) -> nat {
    (i * source_rate) % target_rate
}

/// Where one output sample lies between two input samples.
///
/// The output sample is `input[lower] * (1 - w) + input[upper] * w` with
/// `w = weight / scale`.
#[derive(Clone, Copy, Debug, PartialEq, Eq, Structural)]
pub struct Interpolation {
    /// Index of the input sample at or before the position.
    pub lower: usize,
    /// Index of the input sample after it, or the last index where there is
    /// none.
    pub upper: usize,
    /// Numerator of the weight of `upper`.
    pub weight: u32,
    /// Denominator of the weight.
    pub scale: u32,
}

impl Interpolation {
    /// Whether this is the place of output sample `i` in an input of `len`
    /// samples.
    pub open spec fn locates(self, i: nat, len: nat, source_rate: nat, target_rate: nat) -> bool {
        &&& self.lower == source_index(i, source_rate, target_rate)
        &&& self.upper == if self.lower + 1 < len {
            self.lower + 1
        } else {
            len - 1
        }
        &&& self.weight == source_remainder(i, source_rate, target_rate)
        &&& self.scale == target_rate
    }
}

/// The resampled length is the integer nearest to the exact quotient: twice
/// the distance is at most one, and a tie goes up.
pub proof fn lemma_resampled_len_is_nearest(len: nat, source_rate: nat, target_rate: nat)
    requires
        source_rate > 0,
    ensures
        2 * source_rate * resampled_len(len, source_rate, target_rate) <= 2 * len * target_rate
            + source_rate,
        2 * len * target_rate + source_rate < 2 * source_rate * resampled_len(
            len,
            source_rate,
            target_rate,
        ) + 2 * source_rate,
{
    let x = (2 * len * target_rate + source_rate) as int;
    let d = (2 * source_rate) as int;
    vstd::arithmetic::div_mod::lemma_fundamental_div_mod(x, d);
    vstd::arithmetic::div_mod::lemma_mod_bound(x, d);
}

/// Every output sample of the resampled signal lies on the input: the whole
/// part of its position is a valid index, and the weight is a proper
/// fraction.
pub proof fn lemma_source_on_input(i: nat, len: nat, source_rate: nat, target_rate: nat)
    requires
        source_rate > 0,
        target_rate > 0,
        i < resampled_len(len, source_rate, target_rate),
    ensures
        source_index(i, source_rate, target_rate) < len,
        source_remainder(i, source_rate, target_rate) < target_rate,
{
    let new_len = resampled_len(len, source_rate, target_rate);
    lemma_resampled_len_is_nearest(len, source_rate, target_rate);
    assert(2 * source_rate * (i + 1) <= 2 * source_rate * new_len) by (nonlinear_arith)
        requires
            i + 1 <= new_len,
    ;
    assert(2 * source_rate * (i + 1) == 2 * (i * source_rate) + 2 * source_rate)
        by (nonlinear_arith);
    assert(i * source_rate < len * target_rate) by (nonlinear_arith)
        requires
            2 * (i * source_rate) + 2 * source_rate <= 2 * len * target_rate + source_rate,
            source_rate > 0,
    ;
    let x = (i * source_rate) as int;
    let t = target_rate as int;
    vstd::arithmetic::div_mod::lemma_fundamental_div_mod(x, t);
    vstd::arithmetic::div_mod::lemma_mod_bound(x, t);
    assert(x / t < len) by (nonlinear_arith)
        requires
            x == t * (x / t) + x % t,
            0 <= x % t,
            x < len * t,
            t > 0,
    ;
}

/// Resampling to the rate a signal already has changes nothing: the length
/// stays, and output sample `i` sits exactly on input sample `i`.
pub proof fn lemma_same_rate_keeps_signal(i: nat, len: nat, rate: nat)
    requires
        rate > 0,
    ensures
        resampled_len(len, rate, rate) == len,
        source_index(i, rate, rate) == i,
        source_remainder(i, rate, rate) == 0,
{
    assert(2 * len * rate + rate == len * (2 * rate) + rate) by (nonlinear_arith);
    vstd::arithmetic::div_mod::lemma_fundamental_div_mod_converse(
        (2 * len * rate + rate) as int,
        (2 * rate) as int,
        len as int,
        rate as int,
    );
    vstd::arithmetic::div_mod::lemma_fundamental_div_mod_converse(
        (i * rate) as int,
        rate as int,
        i as int,
        0,
    );
}

/// Output samples keep the order of the input: a later output sample never
/// lies before an earlier one.
pub proof fn lemma_source_ascends(i: nat, j: nat, source_rate: nat, target_rate: nat)
    requires
        target_rate > 0,
        i <= j,
    ensures
        source_index(i, source_rate, target_rate) <= source_index(j, source_rate, target_rate),
{
    assert(i * source_rate <= j * source_rate) by (nonlinear_arith)
        requires
            i <= j,
    ;
    vstd::arithmetic::div_mod::lemma_div_is_ordered(
        (i * source_rate) as int,
        (j * source_rate) as int,
        target_rate as int,
    );
}

/// Length of the signal after resampling `len` samples from `source_rate`
/// to `target_rate`.
///
/// A rate of zero is rejected, and so is a length that no buffer can have.
pub fn resample_length(len: usize, source_rate: u32, target_rate: u32) -> (made: Result<
    usize,
    DspError,
>)
    ensures
        made is Ok <==> source_rate > 0 && target_rate > 0 && resampled_len(
            len as nat,
            source_rate as nat,
            target_rate as nat,
        ) <= usize::MAX,
        made matches Ok(n) ==> n == resampled_len(
            len as nat,
            source_rate as nat,
            target_rate as nat,
        ),
        made matches Err(e) ==> e == DspError::InvalidParameter,
{
    if source_rate == 0 || target_rate == 0 {
        return Err(DspError::InvalidParameter);
    }
    let wide_len: u128 = len as u128;
    let from: u128 = source_rate as u128;
    let to: u128 = target_rate as u128;
    assert(2 * wide_len * to <= 2 * 0xffff_ffff_ffff_ffff * 0xffff_ffff) by (nonlinear_arith)
        requires
            wide_len <= 0xffff_ffff_ffff_ffff,
            to <= 0xffff_ffff,
    ;
    let rounded: u128 = (2 * wide_len * to + from) / (2 * from);
    if rounded > usize::MAX as u128 {
        return Err(DspError::InvalidParameter);
    }
    Ok(rounded as usize)
}

/// The place of output sample `i` on an input of `len` samples.
pub fn interpolation_at(i: usize, len: usize, source_rate: u32, target_rate: u32) -> (place:
    Interpolation)
    requires
        source_rate > 0,
        target_rate > 0,
        i < resampled_len(len as nat, source_rate as nat, target_rate as nat),
    ensures
        place.locates(i as nat, len as nat, source_rate as nat, target_rate as nat),
        place.lower < len,
        place.upper < len,
        place.lower <= place.upper <= place.lower + 1,
        place.weight < place.scale,
{
    proof {
        lemma_source_on_input(i as nat, len as nat, source_rate as nat, target_rate as nat);
    }
    let wide_i: u128 = i as u128;
    let from: u128 = source_rate as u128;
    let to: u128 = target_rate as u128;
    assert(wide_i * from <= 0xffff_ffff_ffff_ffff * 0xffff_ffff) by (nonlinear_arith)
        requires
            wide_i <= 0xffff_ffff_ffff_ffff,
            from <= 0xffff_ffff,
    ;
    let position: u128 = wide_i * from;
    let lower: usize = (position / to) as usize;
    let weight: u32 = (position % to) as u32;
    let upper: usize = if lower + 1 < len {
        lower + 1
    } else {
        len - 1
    };
    Interpolation { lower, upper, weight, scale: target_rate }
}

/// The places of all output samples, in order: entry `i` says where output
/// sample `i` lies on an input of `len` samples.
///
/// A rate of zero is rejected, and so is a resampled length that no buffer
/// can have.
pub fn resample_plan(len: usize, source_rate: u32, target_rate: u32) -> (made: Result<
    Vec<Interpolation>,
    DspError,
>)
    ensures
        made is Ok <==> source_rate > 0 && target_rate > 0 && resampled_len(
            len as nat,
            source_rate as nat,
            target_rate as nat,
        ) <= usize::MAX,
        made matches Ok(plan) ==> plan.len() == resampled_len(
            len as nat,
            source_rate as nat,
            target_rate as nat,
        ) && forall|i: int|
            0 <= i < plan.len() ==> (#[trigger] plan[i]).locates(
                i as nat,
                len as nat,
                source_rate as nat,
                target_rate as nat,
            ) && plan[i].lower <= plan[i].upper < len,
        made matches Err(e) ==> e == DspError::InvalidParameter,
{
    let new_len: usize = match resample_length(len, source_rate, target_rate) {
        Ok(n) => n,
        Err(e) => {
            return Err(e);
        },
    };
    let mut plan: Vec<Interpolation> = Vec::new();
    let mut i: usize = 0;
    while i < new_len
        invariant
            i <= new_len,
            source_rate > 0,
            target_rate > 0,
            new_len == resampled_len(len as nat, source_rate as nat, target_rate as nat),
            plan.len() == i,
            forall|k: int|
                0 <= k < i ==> (#[trigger] plan[k]).locates(
                    k as nat,
                    len as nat,
                    source_rate as nat,
                    target_rate as nat,
                ) && plan[k].lower <= plan[k].upper < len,
        decreases new_len - i,
    {
        plan.push(interpolation_at(i, len, source_rate, target_rate));
        i += 1;
    }
    Ok(plan)
}

} // verus!
