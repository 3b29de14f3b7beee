use voice_transcribe::error::AppError;
use voice_transcribe::settings::{
    app_data_dir_in, current_schema, default_model_path_in, default_paste_mode, join_path,
    Settings,
};

#[test]
fn schema_and_paste_mode_defaults() {
    assert_eq!(current_schema(), 1);
    assert_eq!(default_paste_mode(), "auto");
}

#[test]
fn paths_join_with_a_single_separator() {
    assert_eq!(join_path("/home/a/.local/share", "voice-transcribe"), "/home/a/.local/share/voice-transcribe");
    assert_eq!(join_path("/data/", "x"), "/data/x");
    assert_eq!(join_path("", "x"), "x");
}

#[test]
fn default_model_lives_in_the_app_data_dir() {
    assert_eq!(
        default_model_path_in(Some("/home/a/.local/share")),
        "/home/a/.local/share/voice-transcribe/ggml-base.en.bin"
    );
    assert_eq!(default_model_path_in(None), "ggml-base.en.bin");
}

#[test]
fn app_data_dir_needs_a_user_data_dir() {
    assert_eq!(app_data_dir_in(Some("/d")), Ok("/d/voice-transcribe".to_string()));
    assert_eq!(
        app_data_dir_in(None),
        Err(AppError::Io("Could not determine application data directory".to_string()))
    );
}

#[test]
fn default_settings() {
    let s = Settings::defaults_in(Some("/d"));
    assert_eq!(s.hotkey, "CmdOrCtrl+Shift+V");
    assert_eq!(s.model_path, "/d/voice-transcribe/ggml-base.en.bin");
    assert_eq!(s.model_name, "ggml-base.en.bin");
    assert_eq!(s.paste_mode, "auto");
    assert_eq!(s.audio_input, None);
    assert!(s.auto_paste);
    assert_eq!(s.total_words, 0);
    assert_eq!(s.schema_version, 1);
    let d = Settings::default();
    assert!(d.model_path.ends_with("ggml-base.en.bin"));
    assert_eq!(d.hotkey, "CmdOrCtrl+Shift+V");
}

#[test]
fn duplicate_is_equal() {
    let s = Settings::defaults_in(None);
    assert_eq!(s.duplicate(), s);
}
