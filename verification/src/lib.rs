//! Audio capture core: sample normalization and downmixing, level metering,
//! the capture buffer, the recording session state machine and the encoder
//! that turns a finished recording into a mono 16-bit PCM container.
//!
//! Samples in the two integer encodings are normalized to exact fractions,
//! an integer numerator over the full scale of the encoding. Nothing is
//! rounded on the way but the quantized mono sample, which is truncated
//! toward zero. Samples in 32-bit floating point are processed by the
//! caller, in floating point.

pub mod buffer;
pub mod encoder;
pub mod error;
pub mod format;
pub mod meter;
pub mod normalizer;
pub mod pipeline;
pub mod session;
