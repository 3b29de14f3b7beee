use voice_transcribe::error::AppError;
use voice_transcribe::text::decimal_string;

#[test]
fn model_not_found_message() {
    let error = AppError::ModelNotFound("/tmp/model.bin".into());
    assert_eq!(error.message(), "Model not found at: /tmp/model.bin");
}

#[test]
fn error_messages() {
    assert_eq!(AppError::Sqlite("locked".into()).message(), "SQLite error: locked");
    assert_eq!(AppError::Json("eof".into()).message(), "JSON error: eof");
    assert_eq!(AppError::Io("gone".into()).message(), "IO error: gone");
    assert_eq!(AppError::Whisper("w".into()).message(), "Whisper error: w");
    assert_eq!(AppError::Audio("a".into()).message(), "Audio error: a");
    assert_eq!(AppError::MicrophoneUnavailable.message(), "Microphone unavailable");
    assert_eq!(AppError::PasteFailed("p".into()).message(), "Paste injection failed: p");
    assert_eq!(AppError::SettingsInvalid("s".into()).message(), "Settings invalid: s");
}

#[test]
fn decimal_rendering() {
    assert_eq!(decimal_string(0), "0");
    assert_eq!(decimal_string(7), "7");
    assert_eq!(decimal_string(10), "10");
    assert_eq!(decimal_string(u64::MAX), u64::MAX.to_string());
}
