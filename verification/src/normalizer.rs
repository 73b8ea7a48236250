//! Downmix of interleaved normalized samples to quantized mono frames.

use vstd::prelude::*;
use vstd::arithmetic::div_mod::{
    lemma_div_multiples_vanish,
    lemma_fundamental_div_mod,
    lemma_mod_bound,
};
use crate::format::IntegerFormat;

verus! {

/// The largest magnitude of a quantized mono sample.
pub const QUANTIZED_MAX: i16 = 32_767;

/// Absolute value.
pub open spec fn magnitude(value: int) -> int {
    if value < 0 { -value } else { value }
}

/// Sum of the `count` numerators that start at index `start`.
pub open spec fn frame_sum(numerators: Seq<i32>, start: int, count: int) -> int
    decreases count,
{
    if count <= 0 {
        0
    } else {
        frame_sum(numerators, start, count - 1) + numerators[start + count - 1]
    }
}

/// The quantized mono sample of a frame whose numerators add up to `sum`.
///
/// The frame's mean is `sum / (channels * full_scale)`. A mean of magnitude
/// one or more clamps to full scale; any other is scaled by 32767 and
/// truncated toward zero.
pub open spec fn quantize_mean(sum: int, channels: int, full_scale: int) -> int {
    let span = channels * full_scale;
    let level = if magnitude(sum) >= span {
        QUANTIZED_MAX as int
    } else {
        (QUANTIZED_MAX * magnitude(sum)) / span
    };
    if sum < 0 { -level } else { level }
}

/// The quantized mono sample of frame `k` of a batch of interleaved
/// numerators.
pub open spec fn mono_frame(numerators: Seq<i32>, channels: int, full_scale: int, k: int) -> i16 {
    quantize_mean(frame_sum(numerators, k * channels, channels), channels, full_scale) as i16
}

/// The mono frames of a batch of interleaved numerators: one per complete
/// frame of `channels` samples, a trailing incomplete frame left out, and
/// none at all for a channel count of zero.
pub open spec fn mono_frames(numerators: Seq<i32>, channels: int, full_scale: int) -> Seq<i16> {
    if channels <= 0 {
        Seq::empty()
    } else {
        Seq::new(
            (numerators.len() as int / channels) as nat,
            |k: int| mono_frame(numerators, channels, full_scale, k),
        )
    }
}

/// A quantized mean lies within the quantized range.
pub proof fn lemma_quantize_mean_bounds(sum: int, channels: int, full_scale: int)
    requires
        channels > 0,
        full_scale > 0,
    ensures
        -(QUANTIZED_MAX as int) <= quantize_mean(sum, channels, full_scale) <= QUANTIZED_MAX as int,
{
    let span = channels * full_scale;
    let size = magnitude(sum);
    assert(span > 0) by (nonlinear_arith)
        requires
            span == channels * full_scale,
            channels > 0,
            full_scale > 0,
    ;
    if size < span {
        assert(0 <= (32_767 * size) / span <= 32_767) by (nonlinear_arith)
            requires
                0 <= size < span,
        ;
    }
}

/// The sum of a frame depends on the samples of that frame alone.
proof fn lemma_frame_sum_of_prefix(numerators: Seq<i32>, kept: int, start: int, count: int)
    requires
        0 <= start,
        0 <= count,
        start + count <= kept <= numerators.len(),
    ensures
        frame_sum(numerators.take(kept), start, count) == frame_sum(numerators, start, count),
    decreases count,
{
    if count > 0 {
        lemma_frame_sum_of_prefix(numerators, kept, start, count - 1);
    }
}

/// A trailing incomplete frame is dropped: the mono frames of a batch are
/// those of its complete frames, one for each.
pub proof fn lemma_trailing_frame_dropped(numerators: Seq<i32>, channels: int, full_scale: int)
    requires
        channels > 0,
    ensures
        mono_frames(numerators, channels, full_scale).len() == numerators.len() as int / channels,
        (numerators.len() as int / channels) * channels <= numerators.len(),
        mono_frames(numerators, channels, full_scale) == mono_frames(
            numerators.take((numerators.len() as int / channels) * channels),
            channels,
            full_scale,
        ),
{
    let total = numerators.len() as int;
    let frames = total / channels;
    let kept = frames * channels;
    lemma_fundamental_div_mod(total, channels);
    lemma_mod_bound(total, channels);
    assert(kept == channels * frames) by (nonlinear_arith)
        requires
            kept == frames * channels,
    ;
    assert(frames >= 0) by (nonlinear_arith)
        requires
            total == channels * frames + total % channels,
            total % channels < channels,
            channels > 0,
            total >= 0,
    ;
    lemma_div_multiples_vanish(frames, channels);
    let complete = numerators.take(kept);
    assert(complete.len() as int / channels == frames);
    assert forall|k: int| 0 <= k < frames implies #[trigger] mono_frame(
        complete,
        channels,
        full_scale,
        k,
    ) == mono_frame(numerators, channels, full_scale, k) by {
        assert(0 <= k * channels && k * channels + channels <= kept) by (nonlinear_arith)
            requires
                0 <= k < frames,
                channels > 0,
                kept == frames * channels,
        ;
        lemma_frame_sum_of_prefix(numerators, kept, k * channels, channels);
    }
    assert(mono_frames(numerators, channels, full_scale) =~= mono_frames(
        complete,
        channels,
        full_scale,
    ));
}

fn quantize(sum: i128, channels: usize, format: IntegerFormat) -> (sample: i16)
    requires
        channels > 0,
        magnitude(sum as int) <= channels * 0x8000_0000,
    ensures
        sample == quantize_mean(sum as int, channels as int, format.full_scale() as int),
{
    let scale: u32 = format.full_scale();
    assert(channels * scale <= u128::MAX) by (nonlinear_arith)
        requires
            0 <= channels <= u64::MAX,
            0 <= scale <= u32::MAX,
    ;
    let span: u128 = (channels as u128) * (scale as u128);
    let size: u128 = if sum < 0 { (-sum) as u128 } else { sum as u128 };
    proof {
        lemma_quantize_mean_bounds(sum as int, channels as int, format.full_scale() as int);
    }
    let level: i16 = if size >= span {
        QUANTIZED_MAX
    } else {
        ((32_767 * size) / span) as i16
    };
    if sum < 0 { -level } else { level }
}

/// Averages every complete frame of `channels` interleaved samples and
/// quantizes the mean to a 16-bit signed mono sample.
pub fn downmix(numerators: &[i32], channels: usize, format: IntegerFormat) -> (mono: Vec<i16>)
    ensures
        mono@ == mono_frames(numerators@, channels as int, format.full_scale() as int),
{
    let mut mono: Vec<i16> = Vec::new();
    if channels == 0 {
        assert(mono@ =~= mono_frames(numerators@, channels as int, format.full_scale() as int));
        return mono;
    }
    let total: usize = numerators.len();
    let frames: usize = total / channels;
    proof {
        lemma_fundamental_div_mod(total as int, channels as int);
        lemma_mod_bound(total as int, channels as int);
        assert(frames * channels == channels * (total as int / channels as int)) by (nonlinear_arith)
            requires
                frames == total as int / channels as int,
        ;
    }
    let mut k: usize = 0;
    let mut base: usize = 0;
    while k < frames
        invariant
            channels > 0,
            total == numerators@.len(),
            frames == total / channels,
            frames * channels <= total,
            k <= frames,
            base == k * channels,
            mono@.len() == k,
            forall|j: int|
                0 <= j < k ==> mono@[j] == mono_frame(
                    numerators@,
                    channels as int,
                    format.full_scale() as int,
                    j,
                ),
        decreases frames - k,
    {
        assert(base + channels <= total) by (nonlinear_arith)
            requires
                base == k * channels,
                k < frames,
                frames * channels <= total,
        ;
        let mut sum: i128 = 0;
        let mut c: usize = 0;
        while c < channels
            invariant
                c <= channels,
                base + channels <= total,
                total == numerators@.len(),
                sum == frame_sum(numerators@, base as int, c as int),
                -(c * 0x8000_0000) <= sum <= c * 0x8000_0000,
            decreases channels - c,
        {
            sum = sum + numerators[base + c] as i128;
            c = c + 1;
        }
        let sample = quantize(sum, channels, format);
        mono.push(sample);
        assert((k + 1) * channels == base + channels) by (nonlinear_arith)
            requires
                base == k * channels,
        ;
        base = base + channels;
        k = k + 1;
    }
    assert(mono@ =~= mono_frames(numerators@, channels as int, format.full_scale() as int));
    mono
}

} // verus!
