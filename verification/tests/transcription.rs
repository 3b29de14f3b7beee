use voice_transcribe::error::AppError;
use voice_transcribe::settings::Settings;
use voice_transcribe::text::count_words;
use voice_transcribe::transcription::{
    split_clock_reading, timestamp_text_at, record_word_count, transcription_from_parts, transcription_from_row, validate_transcription,
    Transcription,
};

#[test]
fn new_transcription_keeps_text_and_duration() {
    let t = Transcription::new("hello world".to_string(), 500, [7; 16]).expect("valid transcription");
    assert_eq!(t.text, "hello world");
    assert_eq!(t.duration_ms, 500);
    assert_eq!(t.id.len(), 36);
    assert_eq!(t.id.chars().nth(14), Some('4'));
    assert!(!t.created_at.is_empty());
}

#[test]
fn fresh_identifiers_differ() {
    let a = Transcription::new("a".to_string(), 500, [1; 16]).unwrap();
    let b = Transcription::new("a".to_string(), 500, [2; 16]).unwrap();
    assert_ne!(a.id, b.id);
}

#[test]
fn too_short_recording_is_rejected() {
    assert_eq!(
        Transcription::new("x".to_string(), 149, [7; 16]),
        Err(AppError::SettingsInvalid("Recording duration 149ms below minimum 150ms".to_string()))
    );
    assert_eq!(
        validate_transcription("x", -3),
        Err(AppError::SettingsInvalid("Recording duration -3ms below minimum 150ms".to_string()))
    );
}

#[test]
fn too_long_recording_is_rejected() {
    assert_eq!(
        validate_transcription("x", 60_001),
        Err(AppError::SettingsInvalid(
            "Recording duration 60001ms exceeds maximum 60000ms".to_string()
        ))
    );
    assert_eq!(validate_transcription("x", 60_000), Ok(()));
    assert_eq!(validate_transcription("x", 150), Ok(()));
}

#[test]
fn too_long_text_is_rejected() {
    let long = "a".repeat(10_001);
    assert_eq!(
        validate_transcription(&long, 500),
        Err(AppError::SettingsInvalid("Transcription text exceeds 10000 characters".to_string()))
    );
    assert_eq!(validate_transcription(&"a".repeat(10_000), 500), Ok(()));
    // The limit counts characters, not bytes.
    assert_eq!(validate_transcription(&"é".repeat(10_000), 500), Ok(()));
    assert!(validate_transcription(&"é".repeat(10_001), 500).is_err());
    assert!(Transcription::new("é".repeat(6_000), 500, [7; 16]).is_ok());
}

#[test]
fn words_are_counted_across_whitespace() {
    assert_eq!(count_words("hello world"), 2);
    assert_eq!(count_words("  one\ttwo\n three  "), 3);
    assert_eq!(count_words(""), 0);
    assert_eq!(count_words(" \u{3000} "), 0);
    assert_eq!(count_words("a\u{00a0}b"), 2);
}

#[test]
fn save_transcription_persists_cumulative_word_count() {
    let mut settings = Settings::defaults_in(None);
    assert!(record_word_count(&mut settings, "hello world"));
    assert!(record_word_count(&mut settings, "one two three"));
    assert_eq!(settings.total_words, 5);
}

#[test]
fn save_transcription_does_not_increment_count_for_empty_text() {
    let mut settings = Settings::defaults_in(None);
    assert!(!record_word_count(&mut settings, ""));
    assert_eq!(settings.total_words, 0);
}

#[test]
fn stored_row_round_trips() {
    let t = Transcription::new("copy this full text".to_string(), 500, [7; 16]).expect("valid transcription");
    let found = transcription_from_row(&t.id, t.text.clone(), t.duration_ms, &t.created_at)
        .expect("transcription should exist");
    assert_eq!(found.id, t.id);
    assert_eq!(found.text, t.text);
    assert_eq!(found.duration_ms, t.duration_ms);
    assert_eq!(found.created_at, t.created_at);
}

#[test]
fn stored_row_is_canonicalized() {
    let found = transcription_from_row(
        "550E8400E29B41D4A716446655440000",
        "x".to_string(),
        500,
        "1996-12-19T16:39:57-08:00",
    )
    .expect("row should parse");
    assert_eq!(found.id, "550e8400-e29b-41d4-a716-446655440000");
    assert_eq!(found.created_at, "1996-12-20T00:39:57+00:00");
}

#[test]
fn unparsable_rows_are_skipped() {
    assert!(transcription_from_row("not-a-uuid", "x".to_string(), 1, "1996-12-19T16:39:57Z").is_none());
    assert!(transcription_from_row(
        "550e8400-e29b-41d4-a716-446655440000",
        "x".to_string(),
        1,
        "yesterday"
    )
    .is_none());
}

#[test]
fn parts_assemble_only_when_both_parsed() {
    assert!(transcription_from_parts(None, "x".to_string(), 1, Some("t".to_string())).is_none());
    assert!(transcription_from_parts(Some("i".to_string()), "x".to_string(), 1, None).is_none());
    let t = transcription_from_parts(Some("i".to_string()), "x".to_string(), 1, Some("t".to_string()))
        .unwrap();
    assert_eq!(t.id, "i");
    assert_eq!(t.created_at, "t");
}

#[test]
fn duration_bounds_are_inclusive() {
    assert!(Transcription::new("hi".to_string(), 149, [7; 16]).is_err());
    assert!(Transcription::new("hi".to_string(), 60_001, [7; 16]).is_err());
    assert!(Transcription::new("hi".to_string(), 150, [7; 16]).is_ok());
    assert!(Transcription::new("hi".to_string(), 60_000, [7; 16]).is_ok());
}

#[test]
fn clock_readings_split_into_seconds_and_nanos() {
    assert_eq!(split_clock_reading(false, 1_000, 5), Some((1_000, 5)));
    assert_eq!(split_clock_reading(true, 10, 0), Some((-10, 0)));
    assert_eq!(split_clock_reading(true, 10, 250_000_000), Some((-11, 750_000_000)));
    assert_eq!(split_clock_reading(false, 253_402_300_800, 0), Some((253_402_300_800, 0)));
    assert_eq!(split_clock_reading(true, 62_167_219_200, 1), Some((-62_167_219_201, 999_999_999)));
    assert_eq!(split_clock_reading(false, u64::MAX, 0), None);
    assert_eq!(split_clock_reading(true, i64::MAX as u64, 1), Some((i64::MIN, 999_999_999)));
}

#[test]
fn clock_readings_render_as_utc_text() {
    assert_eq!(timestamp_text_at(false, 0, 0), Some("1970-01-01T00:00:00+00:00".to_string()));
    assert_eq!(
        timestamp_text_at(false, 851_013_597, 500_000_000),
        Some("1996-12-19T16:39:57.500+00:00".to_string())
    );
    assert_eq!(
        timestamp_text_at(true, 1, 0),
        Some("1969-12-31T23:59:59+00:00".to_string())
    );
    // after the year 9999 the year is written with its sign
    assert_eq!(
        timestamp_text_at(false, 253_402_300_800, 0),
        Some("+10000-01-01T00:00:00+00:00".to_string())
    );
    assert_eq!(timestamp_text_at(false, i64::MAX as u64, 0), None);
    assert_eq!(timestamp_text_at(false, u64::MAX, 0), None);
}

#[test]
fn identifier_is_built_from_the_random_bytes() {
    let bytes = [0u8, 1, 2, 3, 4, 5, 6, 7, 8, 9, 10, 11, 12, 13, 14, 15];
    let t = Transcription::new("x".to_string(), 500, bytes).unwrap();
    // version 4 and the RFC 4122 variant are set in bytes 6 and 8
    assert_eq!(t.id, "00010203-0405-4607-8809-0a0b0c0d0e0f");
}

#[test]
fn transcription_from_clock_reading() {
    let t = Transcription::from_clock(
        "x".to_string(),
        500,
        [0; 16],
        Some("1970-01-01T00:00:00+00:00".to_string()),
    )
    .unwrap();
    assert_eq!(t.id, "00000000-0000-4000-8000-000000000000");
    assert_eq!(t.created_at, "1970-01-01T00:00:00+00:00");
    assert_eq!(
        Transcription::from_clock("x".to_string(), 500, [0; 16], None),
        Err(AppError::Io("System clock is outside the supported range".to_string()))
    );
    assert!(matches!(
        Transcription::from_clock("x".to_string(), 10, [0; 16], None),
        Err(AppError::SettingsInvalid(_))
    ));
}
