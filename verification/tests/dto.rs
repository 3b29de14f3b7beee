use voice_transcribe::dto::{
    download_response, history_response, model_info_response, settings_response, status_response,
};
use voice_transcribe::model::ModelDownloadInfo;
use voice_transcribe::orchestrator::{Event, Orchestrator};
use voice_transcribe::settings::Settings;
use voice_transcribe::transcription::Transcription;

fn info() -> ModelDownloadInfo {
    ModelDownloadInfo {
        model_name: "ggml-base.en.bin".to_string(),
        size_label: "148 MB".to_string(),
        destination_path: "/d/voice-transcribe/ggml-base.en.bin".to_string(),
        source_url: "https://example".to_string(),
        installed: true,
    }
}

#[test]
fn settings_are_shown_with_word_total() {
    let mut s = Settings::defaults_in(Some("/d"));
    s.total_words = 42;
    let r = settings_response(&s);
    assert_eq!(r.hotkey, s.hotkey);
    assert_eq!(r.model_path, s.model_path);
    assert_eq!(r.paste_mode, "auto");
    assert_eq!(r.total_words, 42);
}

#[test]
fn model_info_is_passed_through() {
    let r = model_info_response(info());
    assert_eq!(r.destination_path, "/d/voice-transcribe/ggml-base.en.bin");
    assert!(r.installed);
}

#[test]
fn download_message_names_model_and_path() {
    let r = download_response(info());
    assert!(r.success);
    assert_eq!(r.message, "Downloaded ggml-base.en.bin to /d/voice-transcribe/ggml-base.en.bin");
    assert_eq!(r.model_path, "/d/voice-transcribe/ggml-base.en.bin");
}

#[test]
fn history_keeps_order() {
    let a = Transcription::new("first".to_string(), 500, [1; 16]).unwrap();
    let b = Transcription::new("second".to_string(), 600, [2; 16]).unwrap();
    let r = history_response(vec![a.clone(), b.clone()]);
    assert_eq!(r.transcriptions.len(), 2);
    assert_eq!(r.transcriptions[0].id, a.id);
    assert_eq!(r.transcriptions[1].text, "second");
    assert_eq!(r.transcriptions[1].duration_ms, 600);
    assert_eq!(r.transcriptions[1].created_at, b.created_at);
}

#[test]
fn status_names_the_state() {
    let mut o = Orchestrator::new();
    assert_eq!(status_response(&o).state, "Idle");
    o.handle(Event::RecorderStarted { now_ms: 1 });
    assert_eq!(status_response(&o).state, "Recording");
    o.handle(Event::HotkeyReleased { now_ms: 2 });
    assert_eq!(status_response(&o).state, "Processing");
    o.set_last_error("bad".to_string());
    assert_eq!(status_response(&o).last_error, Some("bad".to_string()));
}
