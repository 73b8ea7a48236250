use audio_capture::encoder::{
    container_rate, encode_wav, finish_encoding, sample_rate_or_fallback, FinishedRecording,
    FALLBACK_SAMPLE_RATE, MAX_SAMPLE_COUNT, MAX_SAMPLE_RATE,
};
use audio_capture::error::CaptureError;

#[test]
fn encodes_header_and_little_endian_samples() {
    let bytes = encode_wav(&[1, -2, 0x1234], 8000).unwrap();
    let expected: Vec<u8> = vec![
        0x52, 0x49, 0x46, 0x46, 42, 0, 0, 0, 0x57, 0x41, 0x56, 0x45, 0x66, 0x6d, 0x74, 0x20,
        16, 0, 0, 0, 1, 0, 1, 0, 0x40, 0x1f, 0, 0, 0x80, 0x3e, 0, 0, 2, 0, 16, 0,
        0x64, 0x61, 0x74, 0x61, 6, 0, 0, 0, 0x01, 0x00, 0xfe, 0xff, 0x34, 0x12,
    ];
    assert_eq!(bytes, expected);
}

#[test]
fn round_trip_header_matches_recording() {
    let samples: Vec<i16> = vec![0, 1, -1, 32767, -32768, 1234, -4321];
    let bytes = encode_wav(&samples, 48_000).unwrap();
    let reader = hound::WavReader::new(std::io::Cursor::new(bytes)).unwrap();
    let spec = reader.spec();
    assert_eq!(spec.channels, 1);
    assert_eq!(spec.bits_per_sample, 16);
    assert_eq!(spec.sample_rate, 48_000);
    assert_eq!(spec.sample_format, hound::SampleFormat::Int);
    assert_eq!(reader.len() as usize, samples.len());
    let decoded: Vec<i16> = reader.into_samples::<i16>().map(|s| s.unwrap()).collect();
    assert_eq!(decoded, samples);
}

#[test]
fn empty_recording_is_a_valid_container() {
    let recording = FinishedRecording { samples: Vec::new(), sample_rate: 44_100 };
    let bytes = recording.encode().unwrap();
    assert_eq!(bytes.len(), 44);
    let reader = hound::WavReader::new(std::io::Cursor::new(bytes)).unwrap();
    assert_eq!(reader.len(), 0);
    assert_eq!(reader.spec().sample_rate, 44_100);
}

#[test]
fn zero_rate_falls_back_to_44100() {
    let bytes = encode_wav(&[5, 6], 0).unwrap();
    let reader = hound::WavReader::new(std::io::Cursor::new(bytes)).unwrap();
    assert_eq!(reader.spec().sample_rate, 44_100);
    assert_eq!(reader.len(), 2);
}

#[test]
fn rate_beyond_container_is_an_encode_error() {
    let result = encode_wav(&[1], 0x8000_0000);
    assert_eq!(
        result,
        Err(CaptureError::EncodeError(
            "sample rate is too high for a WAVE container".to_string()
        ))
    );
}

#[test]
fn highest_rate_still_encodes() {
    let bytes = encode_wav(&[1], 0x7fff_ffff).unwrap();
    let reader = hound::WavReader::new(std::io::Cursor::new(bytes)).unwrap();
    assert_eq!(reader.spec().sample_rate, 0x7fff_ffff);
}

#[test]
fn writer_failure_becomes_encode_error() {
    let result = finish_encoding(Err(hound::Error::Unsupported));
    assert!(matches!(result, Err(CaptureError::EncodeError(_))));
    let passed = finish_encoding(Ok(vec![1, 2, 3]));
    assert_eq!(passed, Ok(vec![1, 2, 3]));
}

#[test]
fn container_limits_are_enforced() {
    assert_eq!(container_rate(0, 44_100), Ok(44_100));
    assert_eq!(container_rate(MAX_SAMPLE_COUNT, MAX_SAMPLE_RATE), Ok(MAX_SAMPLE_RATE));
    assert_eq!(container_rate(10, 0), Ok(44_100));
    assert_eq!(
        container_rate(MAX_SAMPLE_COUNT + 1, 44_100),
        Err(CaptureError::EncodeError("recording is too long for a WAVE container".to_string()))
    );
    assert_eq!(
        container_rate(usize::MAX, u32::MAX),
        Err(CaptureError::EncodeError("recording is too long for a WAVE container".to_string()))
    );
    assert_eq!(
        container_rate(MAX_SAMPLE_COUNT, MAX_SAMPLE_RATE + 1),
        Err(CaptureError::EncodeError("sample rate is too high for a WAVE container".to_string()))
    );
}

#[test]
fn container_limits_fit_the_header_fields() {
    assert_eq!(MAX_SAMPLE_COUNT as u64 * 2 + 36, u32::MAX as u64 - 1);
    assert_eq!(MAX_SAMPLE_RATE as u64 * 2, u32::MAX as u64 - 1);
}

#[test]
fn fallback_rate_replaces_zero_only() {
    assert_eq!(FALLBACK_SAMPLE_RATE, 44_100);
    assert_eq!(sample_rate_or_fallback(0), 44_100);
    assert_eq!(sample_rate_or_fallback(1), 1);
    assert_eq!(sample_rate_or_fallback(48_000), 48_000);
    assert_eq!(sample_rate_or_fallback(u32::MAX), u32::MAX);
}

#[test]
fn negative_samples_are_twos_complement_low_byte_first() {
    let bytes = encode_wav(&[-1, -32_768, 32_767, -256, 255], 1).unwrap();
    assert_eq!(&bytes[44..], &[0xff, 0xff, 0x00, 0x80, 0xff, 0x7f, 0x00, 0xff, 0xff, 0x00]);
    assert_eq!(&bytes[24..32], &[1, 0, 0, 0, 2, 0, 0, 0]);
    assert_eq!(&bytes[4..8], &[46, 0, 0, 0]);
    assert_eq!(&bytes[40..44], &[10, 0, 0, 0]);
}

#[test]
fn long_recording_sizes_span_several_bytes() {
    let samples: Vec<i16> = (0..40_000).map(|i| (i % 1000) as i16).collect();
    let bytes = encode_wav(&samples, 96_000).unwrap();
    assert_eq!(bytes.len(), 44 + 80_000);
    assert_eq!(&bytes[4..8], &80_036u32.to_le_bytes());
    assert_eq!(&bytes[24..28], &96_000u32.to_le_bytes());
    assert_eq!(&bytes[28..32], &192_000u32.to_le_bytes());
    assert_eq!(&bytes[40..44], &80_000u32.to_le_bytes());
    let reader = hound::WavReader::new(std::io::Cursor::new(bytes)).unwrap();
    assert_eq!(reader.len(), 40_000);
}

fn expected_image(samples: &[i16], rate: u32) -> Vec<u8> {
    let data_len = (samples.len() * 2) as u32;
    let mut image = Vec::new();
    image.extend_from_slice(b"RIFF");
    image.extend_from_slice(&(data_len + 36).to_le_bytes());
    image.extend_from_slice(b"WAVE");
    image.extend_from_slice(b"fmt ");
    image.extend_from_slice(&16u32.to_le_bytes());
    image.extend_from_slice(&1u16.to_le_bytes());
    image.extend_from_slice(&1u16.to_le_bytes());
    image.extend_from_slice(&rate.to_le_bytes());
    image.extend_from_slice(&(rate * 2).to_le_bytes());
    image.extend_from_slice(&2u16.to_le_bytes());
    image.extend_from_slice(&16u16.to_le_bytes());
    image.extend_from_slice(b"data");
    image.extend_from_slice(&data_len.to_le_bytes());
    for sample in samples {
        image.extend_from_slice(&sample.to_le_bytes());
    }
    image
}

#[test]
fn container_bytes_follow_the_layout_for_many_recordings() {
    let mut state: u32 = 0x2545_f491;
    for (length, rate) in [
        (0usize, 8_000u32),
        (1, 11_025),
        (2, 16_000),
        (255, 22_050),
        (256, 44_100),
        (1_000, 48_000),
        (4_097, 192_000),
        (3, 1),
        (3, 0x7fff_ffff),
    ] {
        let samples: Vec<i16> = (0..length)
            .map(|_| {
                state = state.wrapping_mul(1_664_525).wrapping_add(1_013_904_223);
                (state >> 16) as u16 as i16
            })
            .collect();
        assert_eq!(encode_wav(&samples, rate).unwrap(), expected_image(&samples, rate));
    }
}

#[test]
fn recording_encodes_like_its_samples() {
    let recording = FinishedRecording { samples: vec![9, -9, 900, -900], sample_rate: 0 };
    assert_eq!(recording.encode().unwrap(), expected_image(&[9, -9, 900, -900], 44_100));
    assert_eq!(recording.encode(), encode_wav(&recording.samples, recording.sample_rate));
}

#[test]
fn every_recording_within_the_limits_encodes() {
    for rate in [0u32, 1, 8_000, 44_100, MAX_SAMPLE_RATE] {
        for length in [0usize, 1, 2, 777] {
            let samples = vec![-5i16; length];
            assert!(container_rate(length, rate).is_ok());
            assert!(encode_wav(&samples, rate).is_ok());
        }
    }
}
