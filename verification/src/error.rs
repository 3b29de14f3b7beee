use vstd::prelude::*;

verus! {

/// Application-wide error type.
///
/// Errors that come from outside libraries (SQLite, JSON, I/O) carry the
/// message of the underlying error.
#[derive(Debug, Clone, PartialEq, Eq)]
pub enum AppError {
    Sqlite(String),
    Json(String),
    Io(String),
    Whisper(String),
    Audio(String),
    ModelNotFound(String),
    MicrophoneUnavailable,
    PasteFailed(String),
    SettingsInvalid(String),
}

/// The human-readable text of an error, as shown to the user.
pub open spec fn error_text(e: AppError) -> Seq<char> {
    match e {
        AppError::Sqlite(m) => "SQLite error: "@ + m@,
        AppError::Json(m) => "JSON error: "@ + m@,
        AppError::Io(m) => "IO error: "@ + m@,
        AppError::Whisper(m) => "Whisper error: "@ + m@,
        AppError::Audio(m) => "Audio error: "@ + m@,
        AppError::ModelNotFound(m) => "Model not found at: "@ + m@,
        AppError::MicrophoneUnavailable => "Microphone unavailable"@,
        AppError::PasteFailed(m) => "Paste injection failed: "@ + m@,
        AppError::SettingsInvalid(m) => "Settings invalid: "@ + m@,
    }
}

/// Builds `prefix` followed by `rest`.
pub fn prefixed(prefix: &str, rest: &str) -> (res: String)
    ensures
        res@ == prefix@ + rest@,
{
    let mut s = String::from_str(prefix);
    s.append(rest);
    s
}

impl AppError {
    /// The display text of the error.
    pub fn message(&self) -> (res: String)
        ensures
            res@ == error_text(*self),
    {
        match self {
            AppError::Sqlite(m) => prefixed("SQLite error: ", m.as_str()),
            AppError::Json(m) => prefixed("JSON error: ", m.as_str()),
            AppError::Io(m) => prefixed("IO error: ", m.as_str()),
            AppError::Whisper(m) => prefixed("Whisper error: ", m.as_str()),
            AppError::Audio(m) => prefixed("Audio error: ", m.as_str()),
            AppError::ModelNotFound(m) => prefixed("Model not found at: ", m.as_str()),
            AppError::MicrophoneUnavailable => String::from_str("Microphone unavailable"),
            AppError::PasteFailed(m) => prefixed("Paste injection failed: ", m.as_str()),
            AppError::SettingsInvalid(m) => prefixed("Settings invalid: ", m.as_str()),
        }
    }
}

} // verus!
