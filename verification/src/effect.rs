//! Instantaneous feed-forward dynamic-range compression.
//!
//! Per-sample gain reduction with no attack/release smoothing, no
//! lookahead and no knee: a sample whose magnitude stays at or below
//! the threshold passes unchanged; above it, the excess is divided by
//! the ratio. The gain curve is continuous in value (not in slope) at
//! the threshold crossing, which is deliberate.

use vstd::prelude::*;

use crate::sample::{abs_of, sample_in_range};

verus! {

/// What one compressed sample is.
///
/// `threshold_amp` is the threshold as a fixed-point amplitude and
/// `ratio` the compression ratio. A non-positive threshold or a ratio
/// below one is treated defensively as "no compression".
pub open spec fn compressed_sample(s: int, threshold_amp: int, ratio: int) -> int {
    let a = abs_of(s);
    if threshold_amp <= 0 || ratio < 1 || a <= threshold_amp {
        s
    } else {
        let gain = threshold_amp + (a - threshold_amp) / ratio;
        if s >= 0 {
            gain
        } else {
            -gain
        }
    }
}

/// Compress one sample.
pub fn compress_sample(s: i64, threshold_amp: i64, ratio: i64) -> (r: i64)
    requires
        sample_in_range(s as int),
    ensures
        r == compressed_sample(s as int, threshold_amp as int, ratio as int),
        sample_in_range(r as int),
{
    let a: i64 = if s >= 0 {
        s
    } else {
        -s
    };
    if threshold_amp <= 0 || ratio < 1 || a <= threshold_amp {
        s
    } else {
        let excess: u64 = (a - threshold_amp) as u64;
        let reduced: u64 = excess / (ratio as u64);
        assert(reduced <= excess) by {
            vstd::arithmetic::div_mod::lemma_div_nonincreasing(excess as int, ratio as int);
        };
        let gain: i64 = threshold_amp + (reduced as i64);
        if s >= 0 {
            gain
        } else {
            -gain
        }
    }
}

/// Compress a whole frame, sample by sample.
pub fn compress_audio(samples: &Vec<i64>, threshold_amp: i64, ratio: i64) -> (r: Vec<i64>)
    requires
        crate::sample::frame_in_range(samples@),
    ensures
        r@.len() == samples@.len(),
        forall|i: int|
            0 <= i < samples@.len() ==> r@[i] == compressed_sample(
                samples@[i] as int,
                threshold_amp as int,
                ratio as int,
            ),
        crate::sample::frame_in_range(r@),
{
    let mut result: Vec<i64> = Vec::new();
    let mut idx: usize = 0;
    while idx < samples.len()
        invariant
            crate::sample::frame_in_range(samples@),
            idx <= samples@.len(),
            result@.len() == idx,
            forall|i: int|
                0 <= i < idx ==> result@[i] == compressed_sample(
                    samples@[i] as int,
                    threshold_amp as int,
                    ratio as int,
                ),
            forall|i: int|
                0 <= i < idx ==> sample_in_range(#[trigger] result@[i] as int),
        decreases samples@.len() - idx,
    {
        let c = compress_sample(samples[idx], threshold_amp, ratio);
        result.push(c);
        idx += 1;
    }
    result
}

/// Below the threshold the compressor is the identity: a sample whose
/// magnitude is at most the threshold amplitude passes unchanged.
pub proof fn lemma_compress_identity_below_threshold(s: int, threshold_amp: int, ratio: int)
    requires
        abs_of(s) <= threshold_amp,
    ensures
        compressed_sample(s, threshold_amp, ratio) == s,
{
}

/// Above the threshold, with a ratio greater than one, compression
/// strictly reduces a sample's magnitude.
pub proof fn lemma_compress_attenuates_above_threshold(s: int, threshold_amp: int, ratio: int)
    requires
        1 <= threshold_amp < abs_of(s),
        2 <= ratio,
    ensures
        abs_of(compressed_sample(s, threshold_amp, ratio)) < abs_of(s),
        compressed_sample(s, threshold_amp, ratio) > 0 <==> s > 0,
{
    let a = abs_of(s);
    let excess = a - threshold_amp;
    vstd::arithmetic::div_mod::lemma_div_decreases(excess, ratio);
    vstd::arithmetic::div_mod::lemma_div_pos_is_pos(excess, ratio);
}

/// A ratio of exactly one makes the compressor the identity function,
/// whatever the sample and the threshold.
pub proof fn lemma_compress_ratio_one_identity(s: int, threshold_amp: int)
    ensures
        compressed_sample(s, threshold_amp, 1) == s,
{
    let a = abs_of(s);
    if threshold_amp > 0 && a > threshold_amp {
        vstd::arithmetic::div_mod::lemma_div_by_self(1);
        assert((a - threshold_amp) / 1 == a - threshold_amp);
    }
}

} // verus!
