use vstd::prelude::*;

verus! {

/// Maximum number of transcription history items to retain.
pub const MAX_HISTORY_ITEMS: u32 = 10;

/// Maximum length of a transcription text in characters.
pub const MAX_TRANSCRIPTION_LENGTH: usize = 10_000;

/// Minimum recording duration in milliseconds below which audio is discarded.
pub const MIN_RECORDING_DURATION_MS: i64 = 150;

/// Maximum recording duration in milliseconds.
pub const MAX_RECORDING_DURATION_MS: i64 = 60_000;

/// Sample rate required by whisper.cpp (16 kHz).
pub const WHISPER_SAMPLE_RATE: u32 = 16_000;

/// Upper bound on the number of threads used for Whisper inference.
pub const MAX_WHISPER_INFERENCE_THREADS: usize = 8;

/// Application data subdirectory name.
pub const APP_DATA_SUBDIR: &'static str = "voice-transcribe";

/// Default GGML model file name.
pub const DEFAULT_MODEL_FILE: &'static str = "ggml-base.en.bin";

/// Default upstream source for the base English GGML model.
pub const DEFAULT_MODEL_URL: &'static str =
    "https://huggingface.co/ggerganov/whisper.cpp/resolve/main/ggml-base.en.bin?download=true";

/// Display size for the default GGML model.
pub const DEFAULT_MODEL_SIZE_LABEL: &'static str = "148 MB";

/// Default push-to-talk hotkey.
pub const DEFAULT_HOTKEY: &'static str = "CmdOrCtrl+Shift+V";

} // verus!
