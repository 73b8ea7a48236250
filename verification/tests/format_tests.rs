use audio_capture::format::{
    normalize_i16, normalize_u16, IntegerFormat, I16_FULL_SCALE, U16_FULL_SCALE,
};

#[test]
fn full_scale_of_each_encoding() {
    assert_eq!(IntegerFormat::I16.full_scale(), 32_767);
    assert_eq!(IntegerFormat::U16.full_scale(), 65_535);
    assert_eq!(I16_FULL_SCALE, i16::MAX as u32);
    assert_eq!(U16_FULL_SCALE, u16::MAX as u32);
}

#[test]
fn signed_samples_are_their_own_numerator() {
    assert_eq!(normalize_i16(0), 0);
    assert_eq!(normalize_i16(1), 1);
    assert_eq!(normalize_i16(-1), -1);
    assert_eq!(normalize_i16(i16::MAX), 32_767);
    assert_eq!(normalize_i16(i16::MIN), -32_768);
}

#[test]
fn unsigned_samples_are_centred_on_zero() {
    assert_eq!(normalize_u16(0), -65_535);
    assert_eq!(normalize_u16(65_535), 65_535);
    assert_eq!(normalize_u16(32_767), -1);
    assert_eq!(normalize_u16(32_768), 1);
    assert_eq!(normalize_u16(49_151), 32_767);
}

#[test]
fn unsigned_numerator_matches_the_formula() {
    for sample in [0u16, 1, 255, 256, 16_384, 32_767, 32_768, 50_000, 65_534, 65_535] {
        let expected = (sample as f64 / 65_535.0) * 2.0 - 1.0;
        let got = normalize_u16(sample) as f64 / 65_535.0;
        assert!((got - expected).abs() < 1e-12);
    }
}
