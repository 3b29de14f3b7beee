//! Decisions around the Whisper transcription engine: thread count, audio
//! length checks and normalization of the transcribed text.

use vstd::prelude::*;

use crate::constants::{MAX_WHISPER_INFERENCE_THREADS, MIN_RECORDING_DURATION_MS, WHISPER_SAMPLE_RATE};
use crate::error::AppError;
use crate::text::{
    chars_eq_ignore_ascii_case, chars_of, eq_ignore_ascii_case_seq, lemma_trim_idempotent,
    string_from_chars, trim_bounds, trim_seq,
};

verus! {

/// Number of inference threads for a machine with `physical_cores` cores:
/// the core count clamped to `1..=MAX_WHISPER_INFERENCE_THREADS`.
pub fn inference_thread_count(physical_cores: usize) -> (n: i32)
    ensures
        n == (if physical_cores < 1 {
            1
        } else if physical_cores > MAX_WHISPER_INFERENCE_THREADS {
            MAX_WHISPER_INFERENCE_THREADS as int
        } else {
            physical_cores as int
        }),
        1 <= n <= MAX_WHISPER_INFERENCE_THREADS,
{
    if physical_cores < 1 {
        1
    } else if physical_cores > MAX_WHISPER_INFERENCE_THREADS {
        MAX_WHISPER_INFERENCE_THREADS as i32
    } else {
        physical_cores as i32
    }
}

/// The text reported for a transcription: trimmed, and empty when Whisper
/// only reported the "[BLANK_AUDIO]" marker (in any ASCII case).
pub open spec fn normalized_transcription(text: Seq<char>) -> Seq<char> {
    let t = trim_seq(text);
    if eq_ignore_ascii_case_seq(t, "[BLANK_AUDIO]"@) {
        Seq::empty()
    } else {
        t
    }
}

/// Normalizes the raw text produced by Whisper.
pub fn normalize_transcription_text(text: &str) -> (r: String)
    ensures
        r@ == normalized_transcription(text@),
{
    let v = chars_of(text);
    let (a, b) = trim_bounds(&v);
    let trimmed = string_from_chars(&v, a, b);
    let t = chars_of(trimmed.as_str());
    if chars_eq_ignore_ascii_case(&t, "[BLANK_AUDIO]") {
        String::new()
    } else {
        trimmed
    }
}

/// Normalizing an already normalized transcription changes nothing.
pub proof fn lemma_normalize_transcription_idempotent(text: Seq<char>)
    ensures
        normalized_transcription(normalized_transcription(text)) == normalized_transcription(text),
{
    lemma_trim_idempotent(text);
    let t = trim_seq(text);
    if eq_ignore_ascii_case_seq(t, "[BLANK_AUDIO]"@) {
        reveal_strlit("[BLANK_AUDIO]");
        let e = Seq::<char>::empty();
        assert(trim_seq(e) == e);
        assert(!eq_ignore_ascii_case_seq(e, "[BLANK_AUDIO]"@));
    }
}

/// Duration in milliseconds of `sample_count` samples at the Whisper rate.
pub open spec fn capture_duration_spec(sample_count: nat) -> int {
    (sample_count * 1000) as int / (WHISPER_SAMPLE_RATE as int)
}

/// Duration in milliseconds of `sample_count` samples at 16 kHz.
pub fn capture_duration_ms(sample_count: usize) -> (ms: i64)
    requires
        sample_count * 1000 <= i64::MAX,
    ensures
        ms == capture_duration_spec(sample_count as nat),
{
    (sample_count as i64) * 1000 / (WHISPER_SAMPLE_RATE as i64)
}

/// Whether a finished capture of `sample_count` samples (at 16 kHz) lasts
/// at least the minimum recording duration; shorter captures are discarded.
pub fn capture_is_long_enough(sample_count: usize) -> (b: bool)
    requires
        sample_count * 1000 <= i64::MAX,
    ensures
        b == (capture_duration_spec(sample_count as nat) >= MIN_RECORDING_DURATION_MS),
{
    capture_duration_ms(sample_count) >= MIN_RECORDING_DURATION_MS
}

/// Checks that audio handed to Whisper is long enough; returns its duration.
pub fn check_audio_length(sample_count: usize) -> (r: Result<i64, AppError>)
    requires
        sample_count * 1000 <= i64::MAX,
    ensures
        capture_duration_spec(sample_count as nat) >= MIN_RECORDING_DURATION_MS ==> r == Ok::<
            i64,
            AppError,
        >(capture_duration_spec(sample_count as nat) as i64),
        capture_duration_spec(sample_count as nat) < MIN_RECORDING_DURATION_MS ==> (r matches Err(
            AppError::Whisper(m),
        ) && m@ == "Audio too short"@),
{
    let ms = capture_duration_ms(sample_count);
    if ms < MIN_RECORDING_DURATION_MS {
        Err(AppError::Whisper(String::from_str("Audio too short")))
    } else {
        Ok(ms)
    }
}

/// Normalizing keeps what was said: the result is the trimmed text, except
/// that the "[BLANK_AUDIO]" marker alone (in any ASCII case) becomes empty. So
/// a non-empty trimmed text other than the marker is never emptied.
pub proof fn lemma_normalize_keeps_speech(text: Seq<char>)
    ensures
        !eq_ignore_ascii_case_seq(trim_seq(text), "[BLANK_AUDIO]"@) ==> normalized_transcription(text)
            == trim_seq(text),
        eq_ignore_ascii_case_seq(trim_seq(text), "[BLANK_AUDIO]"@) ==> normalized_transcription(
            text,
        ).len() == 0,
        normalized_transcription(text).len() == 0 ==> trim_seq(text).len() == 0
            || eq_ignore_ascii_case_seq(trim_seq(text), "[BLANK_AUDIO]"@),
{
}

/// A capture of `n` samples at 16 kHz lasts `n / 16` milliseconds (rounded
/// down), for every `n`: the duration never decreases as the capture grows,
/// and every capture of at least 2400 samples is long enough.
pub proof fn lemma_capture_duration(n: nat, m: nat)
    ensures
        capture_duration_spec(n) == n / 16,
        n <= m ==> capture_duration_spec(n) <= capture_duration_spec(m),
        n >= 2400 ==> capture_duration_spec(n) >= MIN_RECORDING_DURATION_MS,
{
    assert forall|k: nat| #[trigger] capture_duration_spec(k) == k / 16 by {
        vstd::arithmetic::div_mod::lemma_div_denominator((k * 1000) as int, 1000, 16);
        vstd::arithmetic::div_mod::lemma_div_multiples_vanish(k as int, 1000);
        assert(1000 * k == k * 1000) by (nonlinear_arith);
    }
    if n <= m {
        vstd::arithmetic::div_mod::lemma_div_is_ordered(n as int, m as int, 16);
    }
    if n >= 2400 {
        vstd::arithmetic::div_mod::lemma_div_is_ordered(2400, n as int, 16);
    }
}

} // verus!
