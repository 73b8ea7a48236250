use audio_capture::format::IntegerFormat;
use audio_capture::meter::LevelSample;
use audio_capture::pipeline::{
    normalize_batch_i16, normalize_batch_u16, process_input_i16, process_input_u16,
    process_normalized,
};

#[test]
fn single_signed_sample_is_its_own_frame_peak_and_rms() {
    for s in [0i16, 1, -1, 128, -4_000, 32_766, 32_767, -32_767] {
        let batch = process_input_i16(&[s], 1).unwrap();
        assert_eq!(batch.mono, vec![s]);
        let size = s.unsigned_abs() as u32;
        assert_eq!(
            batch.level,
            LevelSample {
                peak: size,
                square_sum: (size as u128) * (size as u128),
                count: 1,
                full_scale: 32_767
            }
        );
    }
}

#[test]
fn single_unsigned_sample_is_its_own_frame_peak_and_rms() {
    for s in [0u16, 1, 32_767, 32_768, 40_000, 65_535] {
        let normalized = (s as f64 / 65_535.0) * 2.0 - 1.0;
        let batch = process_input_u16(&[s], 1).unwrap();
        assert_eq!(batch.mono.len(), 1);
        assert!((batch.mono[0] as f64 - (normalized * 32_767.0).trunc()).abs() <= 1e-9);
        assert_eq!(batch.level.count, 1);
        assert_eq!(
            batch.level.square_sum,
            (batch.level.peak as u128) * (batch.level.peak as u128)
        );
        assert!((batch.level.peak as f64 / 65_535.0 - normalized.abs()).abs() < 1e-12);
    }
}

#[test]
fn unsigned_stereo_extremes_give_zero_frame() {
    assert_eq!(normalize_batch_u16(&[0, 65_535]), vec![-65_535, 65_535]);
    let batch = process_input_u16(&[0, 65_535], 2).unwrap();
    assert_eq!(batch.mono, vec![0]);
    assert_eq!(
        batch.level,
        LevelSample {
            peak: 65_535,
            square_sum: 2 * 65_535 * 65_535,
            count: 2,
            full_scale: 65_535
        }
    );
}

#[test]
fn empty_batch_yields_nothing() {
    assert!(process_input_i16(&[], 2).is_none());
    assert!(process_input_u16(&[], 2).is_none());
    assert!(process_normalized(&[], 1, IntegerFormat::I16).is_none());
}

#[test]
fn zero_channels_yields_nothing() {
    assert!(process_input_i16(&[1, 2], 0).is_none());
    assert!(process_input_u16(&[1, 2], 0).is_none());
    assert!(process_normalized(&[1, 2], 0, IntegerFormat::U16).is_none());
}

#[test]
fn signed_stereo_batch_is_downmixed_and_measured() {
    let batch = process_input_i16(&[1000, -500, 32_767, 32_767, -32_768, -32_768], 2).unwrap();
    assert_eq!(batch.mono, vec![250, 32_767, -32_767]);
    assert_eq!(batch.level.peak, 32_768);
    assert_eq!(batch.level.full_scale, 32_767);
    assert_eq!(batch.level.count, 6);
    assert_eq!(batch.level.square_sum, 4_296_086_226);
}

#[test]
fn level_counts_every_raw_sample() {
    let batch = process_input_i16(&[0, 0, 30_000], 2).unwrap();
    assert_eq!(batch.mono, vec![0]);
    assert_eq!(
        batch.level,
        LevelSample { peak: 30_000, square_sum: 900_000_000, count: 3, full_scale: 32_767 }
    );
}

#[test]
fn batch_shorter_than_one_frame_still_has_a_level() {
    let batch = process_input_i16(&[300, -400], 3).unwrap();
    assert!(batch.mono.is_empty());
    assert_eq!(batch.level.peak, 400);
    assert_eq!(batch.level.square_sum, 250_000);
    assert_eq!(batch.level.count, 2);
}

#[test]
fn batch_normalization_keeps_order() {
    assert_eq!(normalize_batch_i16(&[5, -6, 7]), vec![5, -6, 7]);
    assert_eq!(normalize_batch_u16(&[32_768, 0]), vec![1, -65_535]);
}

fn float_reference_i16(data: &[i16], channels: usize) -> (Vec<f64>, f64, f64) {
    let mut peak = 0.0f64;
    let mut sum_squares = 0.0f64;
    let mut means = Vec::new();
    for sample in data {
        let normalized = *sample as f64 / 32_767.0;
        peak = peak.max(normalized.abs());
        sum_squares += normalized * normalized;
    }
    for frame in data.chunks(channels) {
        if frame.len() < channels {
            break;
        }
        let sum: f64 = frame.iter().map(|s| *s as f64 / 32_767.0).sum();
        means.push((sum / channels as f64).clamp(-1.0, 1.0));
    }
    (means, (sum_squares / data.len() as f64).sqrt(), peak)
}

#[test]
fn signed_batches_track_the_floating_point_description() {
    let mut state: u32 = 12_345;
    for channels in 1usize..=4 {
        let data: Vec<i16> = (0..(channels * 64 + 1))
            .map(|_| {
                state = state.wrapping_mul(1_664_525).wrapping_add(1_013_904_223);
                (state >> 16) as u16 as i16
            })
            .collect();
        let batch = process_input_i16(&data, channels).unwrap();
        let (means, rms, peak) = float_reference_i16(&data, channels);
        assert_eq!(batch.mono.len(), means.len());
        for (mono, mean) in batch.mono.iter().zip(means.iter()) {
            let scaled = mean * 32_767.0;
            let near_whole = (scaled - scaled.round()).abs() < 1e-6;
            assert!(near_whole || *mono as f64 == scaled.trunc());
        }
        let scale = batch.level.full_scale as f64;
        let measured = (batch.level.square_sum as f64 / batch.level.count as f64).sqrt() / scale;
        assert!((batch.level.peak as f64 / scale - peak).abs() < 1e-12);
        assert!((measured - rms).abs() < 1e-12);
        assert!(measured <= batch.level.peak as f64 / scale);
    }
}
