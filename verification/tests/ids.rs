//! Session-id sanitization, format validation and the small start helpers.
use media_capture::RecordingError;
use media_capture::effective_channels;
use media_capture::output_file_name;
use media_capture::sanitize_id;
use media_capture::validate_format;

#[test]
fn sanitize_keeps_allowed_characters() {
    let r = sanitize_id(Some(String::from("session-01_ok")));
    assert_eq!(r, "session-01_ok");
}

#[test]
fn sanitize_filters_disallowed_characters() {
    let r = sanitize_id(Some(String::from("a b/c:d!e")));
    assert_eq!(r, "abcde");
    let r2 = sanitize_id(Some(String::from("Hello, Wörld!")));
    assert_eq!(r2, "HelloWrld");
}

#[test]
fn sanitize_of_empty_input_is_numeric_timestamp() {
    let r = sanitize_id(Some(String::from("!! ??")));
    assert!(!r.is_empty());
    assert!(r.chars().all(|c| c.is_ascii_digit()));
}

#[test]
fn sanitize_of_absent_input_is_numeric_timestamp() {
    let r = sanitize_id(None);
    assert!(!r.is_empty());
    assert!(r.chars().all(|c| c.is_ascii_digit()));
}

#[test]
fn sanitize_result_is_always_well_formed() {
    for raw in ["", "   ", "αβγ", "x", "A-Z_0-9", "../../etc"] {
        let r = sanitize_id(Some(String::from(raw)));
        assert!(!r.is_empty());
        assert!(r.chars().all(|c| c.is_ascii_alphanumeric() || c == '-' || c == '_'));
    }
}

#[test]
fn format_accepts_supported_codec_case_insensitively() {
    assert!(validate_format(&None).is_ok());
    assert!(validate_format(&Some(String::from("opus"))).is_ok());
    assert!(validate_format(&Some(String::from("OPUS"))).is_ok());
    assert!(validate_format(&Some(String::from("Opus"))).is_ok());
}

#[test]
fn format_rejects_other_names() {
    let e = validate_format(&Some(String::from("mp3"))).unwrap_err();
    assert_eq!(e.code(), "invalid-format");
    assert_eq!(e.boundary_message(), "invalid-format: invalid format mp3");
    assert!(validate_format(&Some(String::from("opus "))).is_err());
    assert!(validate_format(&Some(String::from(""))).is_err());
}

#[test]
fn channel_override_wins_only_for_one_or_two() {
    assert_eq!(effective_channels(Some(1), 2), 1);
    assert_eq!(effective_channels(Some(2), 1), 2);
    assert_eq!(effective_channels(Some(6), 2), 2);
    assert_eq!(effective_channels(Some(0), 1), 1);
    assert_eq!(effective_channels(None, 2), 2);
}

#[test]
fn output_path_is_dir_slash_id_dot_opus() {
    let p = output_file_name(&String::from("/tmp/records"), &String::from("abc"));
    assert_eq!(p, "/tmp/records/abc.opus");
}

#[test]
fn error_codes_are_stable() {
    assert_eq!(RecordingError::UnsupportedPlatform.code(), "unsupported-platform");
    assert_eq!(RecordingError::InvalidOutputDir.code(), "invalid-output-dir");
    assert_eq!(RecordingError::InvalidFormat(String::from("x")).code(), "invalid-format");
    assert_eq!(RecordingError::Io(String::from("x")).code(), "io-error");
    assert_eq!(RecordingError::Encoding(String::from("x")).code(), "encoding-error");
    assert_eq!(RecordingError::NotFound.code(), "not-found");
    assert_eq!(RecordingError::Empty.code(), "empty-recording");
    assert_eq!(RecordingError::Start(String::from("x")).code(), "start-failure");
    assert_eq!(RecordingError::Join.code(), "join-failure");
}

#[test]
fn boundary_messages_join_code_and_message() {
    assert_eq!(RecordingError::NotFound.boundary_message(), "not-found: recording not found");
    assert_eq!(RecordingError::Empty.boundary_message(), "empty-recording: empty recording");
    assert_eq!(
        RecordingError::Start(String::from("duplicate recording id")).boundary_message(),
        "start-failure: start failure: duplicate recording id"
    );
}
