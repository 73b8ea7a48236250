use audio_capture::encoder::recording_file_name;
use audio_capture::error::CaptureError;

#[test]
fn fixed_errors_have_fixed_descriptions() {
    assert_eq!(CaptureError::DeviceUnavailable.describe(), "No input device available");
    assert_eq!(CaptureError::UnsupportedFormat.describe(), "Unsupported sample format");
    assert_eq!(CaptureError::NotRecording.describe(), "Recording is not running");
}

#[test]
fn collaborator_errors_carry_their_detail() {
    assert_eq!(CaptureError::ConfigError("a".to_string()).describe(), "a");
    assert_eq!(CaptureError::StreamError("b".to_string()).describe(), "b");
    assert_eq!(CaptureError::EncodeError("c".to_string()).describe(), "c");
    assert_eq!(CaptureError::SettingsIoError("d".to_string()).describe(), "d");
    assert_eq!(CaptureError::EncodeError(String::new()).describe(), "");
}

#[test]
fn file_name_holds_the_timestamp_in_decimal() {
    assert_eq!(recording_file_name(0), "event_searcher_recording_0.wav");
    assert_eq!(recording_file_name(7), "event_searcher_recording_7.wav");
    assert_eq!(recording_file_name(10), "event_searcher_recording_10.wav");
    assert_eq!(
        recording_file_name(1_700_000_000_123),
        "event_searcher_recording_1700000000123.wav"
    );
    assert_eq!(
        recording_file_name(u128::MAX),
        "event_searcher_recording_340282366920938463463374607431768211455.wav"
    );
}

#[test]
fn file_names_of_different_instants_differ() {
    assert_ne!(recording_file_name(1_000), recording_file_name(1_001));
    assert_eq!(recording_file_name(1_000), format!("event_searcher_recording_{}.wav", 1_000));
}
