//! The native sample encodings, and the normalization of the two integer
//! encodings to exact fractions.
//!
//! A normalized integer sample is a numerator over the full scale of its
//! encoding: the value it stands for is `numerator / full_scale`. Keeping
//! the two apart lets every later step work on whole numbers. Samples in
//! 32-bit floating point are not normalized here: their arithmetic is
//! floating point from end to end, and stays with the caller.

use vstd::prelude::*;

verus! {

/// Full scale of a 16-bit signed sample: the largest positive value.
pub const I16_FULL_SCALE: u32 = 32_767;

/// Full scale of a 16-bit unsigned sample: the largest value.
pub const U16_FULL_SCALE: u32 = 65_535;

/// One of the three native encodings a device may deliver.
#[derive(Clone, Copy, Debug, PartialEq, Eq, Structural)]
pub enum SampleFormat {
    /// 32-bit floating point.
    F32,
    /// 16-bit signed integer.
    I16,
    /// 16-bit unsigned integer.
    U16,
}

/// One of the two integer encodings, whose samples are normalized to exact
/// fractions.
#[derive(Clone, Copy, Debug, PartialEq, Eq, Structural)]
pub enum IntegerFormat {
    /// 16-bit signed integer.
    I16,
    /// 16-bit unsigned integer.
    U16,
}

impl IntegerFormat {
    /// The denominator under every numerator of this encoding.
    pub open spec fn spec_full_scale(self) -> u32 {
        match self {
            IntegerFormat::I16 => I16_FULL_SCALE,
            IntegerFormat::U16 => U16_FULL_SCALE,
        }
    }

    /// The denominator under every numerator of this encoding.
    #[verifier::when_used_as_spec(spec_full_scale)]
    pub fn full_scale(self) -> (scale: u32)
        ensures
            scale == self.spec_full_scale(),
            scale > 0,
    {
        match self {
            IntegerFormat::I16 => I16_FULL_SCALE,
            IntegerFormat::U16 => U16_FULL_SCALE,
        }
    }
}

/// Numerator of a 16-bit signed sample: the sample itself, over 32767. The
/// most negative sample therefore stands for a value just below -1.
pub open spec fn i16_numerator(sample: i16) -> i32 {
    sample as i32
}

/// Numerator of a 16-bit unsigned sample over 65535: `sample / 65535 * 2 - 1`
/// brought onto one fraction.
pub open spec fn u16_numerator(sample: u16) -> i32 {
    (2 * (sample as int) - 65_535) as i32
}

/// Normalizes one 16-bit signed sample.
pub fn normalize_i16(sample: i16) -> (numerator: i32)
    ensures
        numerator == i16_numerator(sample),
{
    sample as i32
}

/// Normalizes one 16-bit unsigned sample.
pub fn normalize_u16(sample: u16) -> (numerator: i32)
    ensures
        numerator == u16_numerator(sample),
        -65_535 <= numerator <= 65_535,
{
    2 * (sample as i32) - 65_535
}

} // verus!
