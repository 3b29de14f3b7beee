use voice_transcribe::error::AppError;
use voice_transcribe::orchestrator::{Effect, Event, Orchestrator, RecordingState};
use voice_transcribe::paste::PasteOutcome;

fn recording_since(t: u64) -> Orchestrator {
    let mut o = Orchestrator::new();
    assert_eq!(o.handle(Event::HotkeyPressed), vec![Effect::PrepareRecorder]);
    let effects = o.handle(Event::RecorderStarted { now_ms: t });
    assert_eq!(
        effects,
        vec![Effect::EmitRecordingStarted, Effect::ShowOverlay, Effect::StartLevelMeter]
    );
    assert_eq!(o.recording(), RecordingState::Recording { started_at_ms: t });
    o
}

#[test]
fn press_while_busy_is_debounced() {
    let mut o = recording_since(10);
    assert!(o.handle(Event::HotkeyPressed).is_empty());
    assert!(o.is_recording());
    o.handle(Event::HotkeyReleased { now_ms: 500 });
    assert_eq!(o.recording(), RecordingState::Processing);
    assert!(o.handle(Event::HotkeyPressed).is_empty());
}

#[test]
fn full_cycle_reports_text_and_returns_to_idle() {
    let mut o = recording_since(1_000);
    o.set_last_error("old".to_string());
    assert_eq!(
        o.handle(Event::HotkeyReleased { now_ms: 1_800 }),
        vec![
            Effect::EmitRecordingStopped { duration_ms: 800 },
            Effect::StopLevelMeter,
            Effect::CollectSamples
        ]
    );
    assert_eq!(o.handle(Event::SamplesCollected { sample_count: 12_800 }), vec![Effect::Transcribe]);
    assert_eq!(
        o.handle(Event::Transcribed { text: "hello".to_string() }),
        vec![Effect::HideOverlayBeforePaste, Effect::Paste { text: "hello".to_string() }]
    );
    assert_eq!(
        o.handle(Event::PasteFinished { outcome: Some(PasteOutcome::CopiedAndPasted) }),
        vec![Effect::SaveTranscription { text: "hello".to_string(), duration_ms: 800 }]
    );
    assert_eq!(
        o.handle(Event::SaveFinished),
        vec![
            Effect::EmitTranscriptionComplete {
                text: "hello".to_string(),
                duration_ms: 800,
                clipboard_only: Some(false)
            },
            Effect::HideOverlay
        ]
    );
    assert_eq!(o.recording(), RecordingState::Idle);
    assert_eq!(o.last_error(), None);
}

#[test]
fn failed_paste_counts_as_clipboard_only() {
    let mut o = recording_since(0);
    o.handle(Event::HotkeyReleased { now_ms: 1_000 });
    o.handle(Event::SamplesCollected { sample_count: 16_000 });
    o.handle(Event::Transcribed { text: "hi".to_string() });
    o.handle(Event::PasteFinished { outcome: None });
    let effects = o.handle(Event::SaveFinished);
    assert_eq!(
        effects[0],
        Effect::EmitTranscriptionComplete {
            text: "hi".to_string(),
            duration_ms: 1_000,
            clipboard_only: Some(true)
        }
    );
}

#[test]
fn empty_capture_completes_with_empty_text() {
    let mut o = recording_since(0);
    o.set_last_error("kept".to_string());
    o.handle(Event::HotkeyReleased { now_ms: 100 });
    assert_eq!(
        o.handle(Event::SamplesCollected { sample_count: 0 }),
        vec![
            Effect::EmitTranscriptionComplete {
                text: String::new(),
                duration_ms: 100,
                clipboard_only: None
            },
            Effect::HideOverlay
        ]
    );
    assert_eq!(o.recording(), RecordingState::Idle);
    assert_eq!(o.last_error(), Some("kept".to_string()));
}

#[test]
fn empty_transcription_skips_paste_and_save() {
    let mut o = recording_since(0);
    o.handle(Event::HotkeyReleased { now_ms: 900 });
    o.handle(Event::SamplesCollected { sample_count: 1 });
    let effects = o.handle(Event::Transcribed { text: String::new() });
    assert_eq!(effects.len(), 2);
    assert_eq!(effects[1], Effect::HideOverlay);
    assert_eq!(o.recording(), RecordingState::Idle);
}

#[test]
fn too_long_recording_is_not_saved() {
    let mut o = recording_since(0);
    o.set_last_error("x".to_string());
    o.handle(Event::HotkeyReleased { now_ms: 70_000 });
    o.handle(Event::SamplesCollected { sample_count: 5 });
    o.handle(Event::Transcribed { text: "long".to_string() });
    assert_eq!(
        o.handle(Event::PasteFinished { outcome: Some(PasteOutcome::CopiedOnly) }),
        vec![
            Effect::EmitTranscriptionComplete {
                text: "long".to_string(),
                duration_ms: 70_000,
                clipboard_only: None
            },
            Effect::HideOverlay
        ]
    );
    assert_eq!(o.last_error(), None);
    assert_eq!(o.recording(), RecordingState::Idle);
}

#[test]
fn pipeline_failures_are_reported_and_remembered() {
    let mut o = recording_since(0);
    o.handle(Event::HotkeyReleased { now_ms: 900 });
    let effects = o.handle(Event::CollectFailed { error: AppError::Audio("boom".to_string()) });
    let message = "Recording failed: Audio error: boom".to_string();
    assert_eq!(
        effects,
        vec![Effect::EmitTranscriptionError { message: message.clone() }, Effect::HideOverlay]
    );
    assert_eq!(o.last_error(), Some(message));
    assert_eq!(o.recording(), RecordingState::Idle);

    let mut o = recording_since(0);
    o.handle(Event::HotkeyReleased { now_ms: 900 });
    o.handle(Event::RecorderMissing);
    assert_eq!(o.last_error(), Some("No recorder available".to_string()));

    let mut o = recording_since(0);
    o.handle(Event::HotkeyReleased { now_ms: 900 });
    o.handle(Event::SamplesCollected { sample_count: 3 });
    o.handle(Event::TranscriptionFailed { error: AppError::ModelNotFound("/m".to_string()) });
    assert_eq!(
        o.last_error(),
        Some("Transcription failed: Model not found at: /m".to_string())
    );
}

#[test]
fn press_failures_keep_idle_and_report() {
    let mut o = Orchestrator::new();
    o.handle(Event::HotkeyPressed);
    assert_eq!(
        o.handle(Event::NoInputDevice),
        vec![Effect::EmitTranscriptionError { message: "No audio input devices available".to_string() }]
    );
    assert_eq!(o.recording(), RecordingState::Idle);
    o.handle(Event::RecorderSpawnFailed { error: AppError::MicrophoneUnavailable });
    assert_eq!(
        o.last_error(),
        Some("Microphone unavailable: Microphone unavailable".to_string())
    );
    o.handle(Event::RecorderStartFailed { error: AppError::Audio("x".to_string()) });
    assert_eq!(
        o.last_error(),
        Some("Failed to start recording: Audio error: x".to_string())
    );
    o.handle(Event::RecorderStarted { now_ms: 5 });
    assert_eq!(o.last_error(), None);
}

#[test]
fn events_out_of_stage_are_ignored() {
    let mut o = Orchestrator::new();
    assert!(o.handle(Event::SamplesCollected { sample_count: 3 }).is_empty());
    assert!(o.handle(Event::SaveFinished).is_empty());
    assert_eq!(o.recording(), RecordingState::Idle);
}

#[test]
fn release_without_press_is_ignored() {
    let mut o = Orchestrator::new();
    assert!(o.handle(Event::HotkeyReleased { now_ms: 3 }).is_empty());
    assert_eq!(o.recording(), RecordingState::Idle);
    // the next press still starts a recording
    assert_eq!(o.handle(Event::HotkeyPressed), vec![Effect::PrepareRecorder]);
}

#[test]
fn clock_going_backwards_gives_zero_duration() {
    let mut o = recording_since(500);
    assert_eq!(
        o.handle(Event::HotkeyReleased { now_ms: 100 })[0],
        Effect::EmitRecordingStopped { duration_ms: 0 }
    );
}
