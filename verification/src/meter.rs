//! Loudness of one batch: peak magnitude and mean square.

use vstd::prelude::*;
use crate::format::IntegerFormat;
use crate::normalizer::magnitude;

verus! {

/// Loudness of one batch, measured before the downmix so that averaging the
/// channels cannot hide one loud channel.
///
/// The peak is `peak / full_scale`. The root mean square is the square root
/// of `square_sum / count`, over `full_scale`; the sum and the count are
/// kept apart so that nothing is rounded before the root is taken.
#[derive(Clone, Copy, Debug, PartialEq, Eq, Structural)]
pub struct LevelSample {
    /// Largest magnitude among the numerators.
    pub peak: u32,
    /// Sum of the squared numerators.
    pub square_sum: u128,
    /// Number of samples measured, whichever channel they are of.
    pub count: usize,
    /// The denominator under every numerator.
    pub full_scale: u32,
}

/// Largest magnitude among the numerators; zero for none.
pub open spec fn peak_magnitude(numerators: Seq<i32>) -> int
    decreases numerators.len(),
{
    if numerators.len() == 0 {
        0
    } else {
        let rest = peak_magnitude(numerators.drop_last());
        let last = magnitude(numerators.last() as int);
        if last > rest { last } else { rest }
    }
}

/// Sum of the squared numerators.
pub open spec fn sum_of_squares(numerators: Seq<i32>) -> int
    decreases numerators.len(),
{
    if numerators.len() == 0 {
        0
    } else {
        sum_of_squares(numerators.drop_last()) + numerators.last() * numerators.last()
    }
}

impl LevelSample {
    /// This is the level of a batch with the given numerators.
    pub open spec fn measures(self, numerators: Seq<i32>, format: IntegerFormat) -> bool {
        &&& self.peak == peak_magnitude(numerators)
        &&& self.square_sum == sum_of_squares(numerators)
        &&& self.count == numerators.len()
        &&& self.full_scale == format.full_scale()
    }
}

/// Measures one batch of normalized samples.
pub fn measure(numerators: &[i32], format: IntegerFormat) -> (level: LevelSample)
    ensures
        level.measures(numerators@, format),
{
    let total: usize = numerators.len();
    let mut peak: u32 = 0;
    let mut squares: u128 = 0;
    let mut i: usize = 0;
    while i < total
        invariant
            i <= total,
            total == numerators@.len(),
            peak == peak_magnitude(numerators@.take(i as int)),
            squares == sum_of_squares(numerators@.take(i as int)),
            squares <= i * 0x4000_0000_0000_0000,
        decreases total - i,
    {
        let value: i64 = numerators[i] as i64;
        let size: u32 = if value < 0 { (-value) as u32 } else { value as u32 };
        proof {
            assert(numerators@.take(i + 1).drop_last() =~= numerators@.take(i as int));
            assert(numerators@.take(i + 1).last() == numerators@[i as int]);
            assert(value * value == size * size) by (nonlinear_arith)
                requires
                    size == magnitude(value as int),
            ;
            assert(size * size <= 0x4000_0000_0000_0000) by (nonlinear_arith)
                requires
                    0 <= size <= 0x8000_0000,
            ;
        }
        if size > peak {
            peak = size;
        }
        squares = squares + (size as u128) * (size as u128);
        i = i + 1;
    }
    assert(numerators@.take(total as int) =~= numerators@);
    LevelSample { peak, square_sum: squares, count: total, full_scale: format.full_scale() }
}

/// Where no numerator exceeds `bound` in magnitude, neither does the peak,
/// and the squares add up to at most `bound` squared for each sample.
pub proof fn lemma_level_bounds(numerators: Seq<i32>, bound: int)
    requires
        0 <= bound,
        forall|i: int| 0 <= i < numerators.len() ==> magnitude(#[trigger] numerators[i] as int) <= bound,
    ensures
        0 <= peak_magnitude(numerators) <= bound,
        0 <= sum_of_squares(numerators) <= numerators.len() * (bound * bound),
    decreases numerators.len(),
{
    if numerators.len() > 0 {
        let rest = numerators.drop_last();
        let last = numerators.last() as int;
        lemma_level_bounds(rest, bound);
        assert(magnitude(numerators[numerators.len() - 1] as int) <= bound);
        assert(0 <= last * last <= bound * bound) by (nonlinear_arith)
            requires
                -bound <= last <= bound,
        ;
        assert(numerators.len() * (bound * bound) == rest.len() * (bound * bound) + bound * bound)
            by (nonlinear_arith)
            requires
                numerators.len() == rest.len() + 1,
        ;
    }
}

/// No numerator exceeds the peak in magnitude.
pub proof fn lemma_peak_dominates(numerators: Seq<i32>)
    ensures
        forall|i: int|
            0 <= i < numerators.len() ==> magnitude(#[trigger] numerators[i] as int)
                <= peak_magnitude(numerators),
    decreases numerators.len(),
{
    if numerators.len() > 0 {
        let rest = numerators.drop_last();
        lemma_peak_dominates(rest);
        assert forall|i: int| 0 <= i < numerators.len() implies magnitude(
            #[trigger] numerators[i] as int,
        ) <= peak_magnitude(numerators) by {
            if i < rest.len() {
                assert(rest[i] == numerators[i]);
            }
        }
    }
}

/// The root mean square of a batch never exceeds its peak: the mean of the
/// squares is at most the square of the peak.
pub proof fn lemma_mean_square_at_most_peak_square(numerators: Seq<i32>)
    ensures
        0 <= sum_of_squares(numerators) <= numerators.len() * (peak_magnitude(numerators)
            * peak_magnitude(numerators)),
{
    lemma_peak_dominates(numerators);
    lemma_level_bounds(numerators, 0x8000_0000);
    lemma_level_bounds(numerators, peak_magnitude(numerators));
}

} // verus!
