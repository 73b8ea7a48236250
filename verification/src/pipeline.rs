//! One hardware batch of integer samples, from raw interleaved samples to
//! mono frames and a level reading.

use vstd::prelude::*;
use crate::format::{i16_numerator, normalize_i16, normalize_u16, u16_numerator, IntegerFormat};
use crate::meter::{
    lemma_level_bounds,
    lemma_mean_square_at_most_peak_square,
    measure,
    peak_magnitude,
    sum_of_squares,
    LevelSample,
};
use crate::normalizer::{downmix, frame_sum, magnitude, mono_frames, quantize_mean};

verus! {

/// Numerators of a batch of 16-bit signed samples.
pub open spec fn i16_numerators(data: Seq<i16>) -> Seq<i32> {
    Seq::new(data.len(), |i: int| i16_numerator(data[i]))
}

/// Numerators of a batch of 16-bit unsigned samples.
pub open spec fn u16_numerators(data: Seq<u16>) -> Seq<i32> {
    Seq::new(data.len(), |i: int| u16_numerator(data[i]))
}

/// What one batch contributes: the mono samples to append to the capture
/// buffer and the level to report.
#[derive(Debug)]
pub struct ProcessedBatch {
    pub mono: Vec<i16>,
    pub level: LevelSample,
}

impl ProcessedBatch {
    /// This is what a batch with the given numerators comes to: its complete
    /// frames downmixed and quantized, and the level over all of its samples.
    pub open spec fn is_result_of(
        self,
        numerators: Seq<i32>,
        channels: int,
        format: IntegerFormat,
    ) -> bool {
        &&& self.mono@ == mono_frames(numerators, channels, format.full_scale() as int)
        &&& self.level.measures(numerators, format)
    }
}

/// Normalizes a batch of 16-bit signed samples.
pub fn normalize_batch_i16(data: &[i16]) -> (numerators: Vec<i32>)
    ensures
        numerators@ == i16_numerators(data@),
{
    let mut numerators: Vec<i32> = Vec::new();
    let mut i: usize = 0;
    while i < data.len()
        invariant
            i <= data@.len(),
            numerators@.len() == i,
            forall|j: int| 0 <= j < i ==> numerators@[j] == i16_numerator(data@[j]),
        decreases data@.len() - i,
    {
        numerators.push(normalize_i16(data[i]));
        i = i + 1;
    }
    assert(numerators@ =~= i16_numerators(data@));
    numerators
}

/// Normalizes a batch of 16-bit unsigned samples.
pub fn normalize_batch_u16(data: &[u16]) -> (numerators: Vec<i32>)
    ensures
        numerators@ == u16_numerators(data@),
{
    let mut numerators: Vec<i32> = Vec::new();
    let mut i: usize = 0;
    while i < data.len()
        invariant
            i <= data@.len(),
            numerators@.len() == i,
            forall|j: int| 0 <= j < i ==> numerators@[j] == u16_numerator(data@[j]),
        decreases data@.len() - i,
    {
        numerators.push(normalize_u16(data[i]));
        i = i + 1;
    }
    assert(numerators@ =~= u16_numerators(data@));
    numerators
}

/// Downmixes and measures a batch of normalized samples. An empty batch and
/// a channel count of zero yield nothing: no frames, no level.
pub fn process_normalized(numerators: &[i32], channels: usize, format: IntegerFormat) -> (out:
    Option<ProcessedBatch>)
    ensures
        out is None <==> (numerators@.len() == 0 || channels == 0),
        out matches Some(batch) ==> batch.is_result_of(numerators@, channels as int, format),
{
    if numerators.len() == 0 || channels == 0 {
        return None;
    }
    let mono = downmix(numerators, channels, format);
    let level = measure(numerators, format);
    Some(ProcessedBatch { mono, level })
}

/// Processes one batch of interleaved 16-bit signed samples.
pub fn process_input_i16(data: &[i16], channels: usize) -> (out: Option<ProcessedBatch>)
    ensures
        out is None <==> (data@.len() == 0 || channels == 0),
        out matches Some(batch) ==> batch.is_result_of(
            i16_numerators(data@),
            channels as int,
            IntegerFormat::I16,
        ),
{
    let numerators = normalize_batch_i16(data);
    process_normalized(numerators.as_slice(), channels, IntegerFormat::I16)
}

/// Processes one batch of interleaved 16-bit unsigned samples.
pub fn process_input_u16(data: &[u16], channels: usize) -> (out: Option<ProcessedBatch>)
    ensures
        out is None <==> (data@.len() == 0 || channels == 0),
        out matches Some(batch) ==> batch.is_result_of(
            u16_numerators(data@),
            channels as int,
            IntegerFormat::U16,
        ),
{
    let numerators = normalize_batch_u16(data);
    process_normalized(numerators.as_slice(), channels, IntegerFormat::U16)
}

/// A batch of one sample on one channel: the sum of its one frame is that
/// sample's numerator, the one mono sample is that numerator quantized, the
/// peak is its magnitude, and the mean square is its square, so that the
/// root mean square equals the peak.
pub proof fn lemma_single_sample_batch(numerator: i32, format: IntegerFormat, batch: ProcessedBatch)
    requires
        batch.is_result_of(seq![numerator], 1, format),
    ensures
        frame_sum(seq![numerator], 0, 1) == numerator,
        batch.mono@ == seq![
            quantize_mean(numerator as int, 1, format.full_scale() as int) as i16,
        ],
        batch.level.peak == magnitude(numerator as int),
        batch.level.count == 1,
        batch.level.square_sum == batch.level.peak * batch.level.peak,
{
    let numerators = seq![numerator];
    let size = magnitude(numerator as int);
    reveal_with_fuel(frame_sum, 2);
    assert(numerators.drop_last() =~= Seq::<i32>::empty());
    assert(peak_magnitude(numerators) == size) by {
        reveal_with_fuel(peak_magnitude, 2);
    }
    assert(sum_of_squares(numerators) == numerator * numerator) by {
        reveal_with_fuel(sum_of_squares, 2);
    }
    assert(size * size == numerator * numerator) by (nonlinear_arith)
        requires
            size == numerator || size == -numerator,
    ;
    assert(batch.mono@ =~= seq![
        quantize_mean(numerator as int, 1, format.full_scale() as int) as i16,
    ]);
}

/// The level of a batch of 16-bit unsigned samples lies within unit range:
/// the peak is at most full scale, and the mean square is at most the
/// square of the peak.
pub proof fn lemma_u16_level_in_unit_range(data: Seq<u16>, channels: int, batch: ProcessedBatch)
    requires
        batch.is_result_of(u16_numerators(data), channels, IntegerFormat::U16),
    ensures
        batch.level.peak <= batch.level.full_scale,
        batch.level.square_sum <= batch.level.count * (batch.level.peak * batch.level.peak),
{
    let numerators = u16_numerators(data);
    lemma_level_bounds(numerators, IntegerFormat::U16.full_scale() as int);
    lemma_mean_square_at_most_peak_square(numerators);
}

/// The level of a batch of 16-bit signed samples exceeds unit range by at
/// most one step, and only where the batch holds the most negative sample:
/// the peak is at most full scale plus one, and the mean square is at most
/// the square of the peak.
pub proof fn lemma_i16_level_near_unit_range(data: Seq<i16>, channels: int, batch: ProcessedBatch)
    requires
        batch.is_result_of(i16_numerators(data), channels, IntegerFormat::I16),
    ensures
        batch.level.peak <= batch.level.full_scale + 1,
        (forall|i: int| 0 <= i < data.len() ==> data[i] != i16::MIN) ==> batch.level.peak
            <= batch.level.full_scale,
        batch.level.square_sum <= batch.level.count * (batch.level.peak * batch.level.peak),
{
    let numerators = i16_numerators(data);
    lemma_level_bounds(numerators, IntegerFormat::I16.full_scale() + 1);
    lemma_mean_square_at_most_peak_square(numerators);
    if forall|i: int| 0 <= i < data.len() ==> data[i] != i16::MIN {
        assert forall|i: int| 0 <= i < numerators.len() implies magnitude(
            #[trigger] numerators[i] as int,
        ) <= IntegerFormat::I16.full_scale() by {
            assert(data[i] != i16::MIN);
        }
        lemma_level_bounds(numerators, IntegerFormat::I16.full_scale() as int);
    }
}

} // verus!
