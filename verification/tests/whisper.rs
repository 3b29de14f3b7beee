use voice_transcribe::constants::MAX_WHISPER_INFERENCE_THREADS;
use voice_transcribe::error::AppError;
use voice_transcribe::whisper::{
    capture_duration_ms, capture_is_long_enough, check_audio_length, inference_thread_count,
    normalize_transcription_text,
};

#[test]
fn inference_threads_preserve_smaller_cpu_counts() {
    assert_eq!(inference_thread_count(4), 4);
    assert_eq!(inference_thread_count(8), 8);
}

#[test]
fn inference_threads_are_capped_for_large_and_hybrid_cpus() {
    assert_eq!(
        inference_thread_count(MAX_WHISPER_INFERENCE_THREADS + 6),
        MAX_WHISPER_INFERENCE_THREADS as i32
    );
}

#[test]
fn inference_threads_never_return_zero() {
    assert_eq!(inference_thread_count(0), 1);
}

#[test]
fn blank_audio_sentinel_is_normalized_to_empty_text() {
    assert_eq!(normalize_transcription_text(" [BLANK_AUDIO] "), "");
    assert_eq!(normalize_transcription_text("[blank_audio]"), "");
}

#[test]
fn spoken_text_is_trimmed_and_preserved() {
    assert_eq!(
        normalize_transcription_text("  hello world  "),
        "hello world"
    );
}

#[test]
fn near_blank_text_is_kept() {
    assert_eq!(normalize_transcription_text("[BLANK_AUDIO] hi"), "[BLANK_AUDIO] hi");
    assert_eq!(normalize_transcription_text("\n\t"), "");
    assert_eq!(normalize_transcription_text("Ünïcode  "), "Ünïcode");
}

#[test]
fn normalizing_twice_is_normalizing_once() {
    for s in ["  a b  ", " [Blank_Audio] ", "", "x"] {
        let once = normalize_transcription_text(s);
        assert_eq!(normalize_transcription_text(&once), once);
    }
}

#[test]
fn capture_duration_at_whisper_rate() {
    assert_eq!(capture_duration_ms(16_000), 1000);
    assert_eq!(capture_duration_ms(2_399), 149);
    assert_eq!(capture_duration_ms(0), 0);
}

#[test]
fn finalize_recording_returns_empty_for_short_capture() {
    let short_duration_ms: i64 = 150 - 1;
    let short_samples = (16_000i64 * short_duration_ms / 1000) as usize;
    assert!(!capture_is_long_enough(short_samples));
}

#[test]
fn finalize_recording_keeps_valid_capture() {
    let valid_duration_ms: i64 = 150 + 50;
    let valid_samples = (16_000i64 * valid_duration_ms / 1000) as usize;
    assert!(capture_is_long_enough(valid_samples));
}

#[test]
fn short_audio_is_refused_by_the_engine() {
    assert_eq!(check_audio_length(2_399), Err(AppError::Whisper("Audio too short".to_string())));
    assert_eq!(check_audio_length(2_400), Ok(150));
}
