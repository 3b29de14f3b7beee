//! Data handed to the front end, and how it is built from the library's state.

use vstd::prelude::*;

use crate::model::ModelDownloadInfo;
use crate::orchestrator::{Orchestrator, RecordingState};
use crate::settings::{copy_optional_selection, AudioInputSelection, Settings};
use crate::transcription::Transcription;

verus! {

/// Response for the settings query.
#[derive(Clone, Debug, PartialEq, Eq)]
pub struct SettingsResponse {
    pub hotkey: String,
    pub model_path: String,
    pub model_name: String,
    pub paste_mode: String,
    pub audio_input: Option<AudioInputSelection>,
    pub total_words: u64,
}

/// Information about the built-in model download option.
#[derive(Clone, Debug, PartialEq, Eq)]
pub struct ModelDownloadInfoResponse {
    pub model_name: String,
    pub size_label: String,
    pub destination_path: String,
    pub source_url: String,
    pub installed: bool,
}

/// Request to change some settings; absent fields stay as they are.
#[derive(Clone, Debug, PartialEq, Eq)]
pub struct UpdateSettingsRequest {
    pub hotkey: Option<String>,
    pub model_path: Option<String>,
    pub model_name: Option<String>,
    pub paste_mode: Option<String>,
    pub audio_input: Option<AudioInputSelection>,
}

/// Response to a settings change.
#[derive(Clone, Debug, PartialEq, Eq)]
pub struct UpdateSettingsResponse {
    pub success: bool,
    pub message: String,
    pub requires_restart: bool,
}

/// Response to a model download.
#[derive(Clone, Debug, PartialEq, Eq)]
pub struct DownloadModelResponse {
    pub success: bool,
    pub message: String,
    pub model_name: String,
    pub model_path: String,
}

/// A single transcription history item.
#[derive(Clone, Debug, PartialEq, Eq)]
pub struct TranscriptionItem {
    pub id: String,
    pub text: String,
    pub duration_ms: i64,
    pub created_at: String,
}

/// Response to the history query.
#[derive(Clone, Debug, PartialEq, Eq)]
pub struct TranscriptionHistoryResponse {
    pub transcriptions: Vec<TranscriptionItem>,
}

/// Response to the status query.
#[derive(Clone, Debug, PartialEq, Eq)]
pub struct StatusResponse {
    pub state: String,
    pub last_error: Option<String>,
}

/// The settings as shown to the front end.
pub fn settings_response(settings: &Settings) -> (r: SettingsResponse)
    ensures
        r.hotkey == settings.hotkey,
        r.model_path == settings.model_path,
        r.model_name == settings.model_name,
        r.paste_mode == settings.paste_mode,
        r.audio_input == settings.audio_input,
        r.total_words == settings.total_words,
{
    SettingsResponse {
        hotkey: settings.hotkey.clone(),
        model_path: settings.model_path.clone(),
        model_name: settings.model_name.clone(),
        paste_mode: settings.paste_mode.clone(),
        audio_input: copy_optional_selection(&settings.audio_input),
        total_words: settings.total_words,
    }
}

/// The model download information as shown to the front end.
pub fn model_info_response(info: ModelDownloadInfo) -> (r: ModelDownloadInfoResponse)
    ensures
        r == (ModelDownloadInfoResponse {
            model_name: info.model_name,
            size_label: info.size_label,
            destination_path: info.destination_path,
            source_url: info.source_url,
            installed: info.installed,
        }),
{
    ModelDownloadInfoResponse {
        model_name: info.model_name,
        size_label: info.size_label,
        destination_path: info.destination_path,
        source_url: info.source_url,
        installed: info.installed,
    }
}

/// The message reporting a finished model download.
pub open spec fn download_message(name: Seq<char>, path: Seq<char>) -> Seq<char> {
    "Downloaded "@ + name + " to "@ + path
}

/// The response to a finished model download.
pub fn download_response(info: ModelDownloadInfo) -> (r: DownloadModelResponse)
    ensures
        r.success,
        r.message@ == download_message(info.model_name@, info.destination_path@),
        r.model_name == info.model_name,
        r.model_path == info.destination_path,
{
    let mut message = String::from_str("Downloaded ");
    message.append(info.model_name.as_str());
    message.append(" to ");
    message.append(info.destination_path.as_str());
    DownloadModelResponse {
        success: true,
        message,
        model_name: info.model_name,
        model_path: info.destination_path,
    }
}

/// A history item for the front end.
pub fn transcription_item(t: Transcription) -> (r: TranscriptionItem)
    ensures
        r == (TranscriptionItem {
            id: t.id,
            text: t.text,
            duration_ms: t.duration_ms,
            created_at: t.created_at,
        }),
{
    TranscriptionItem { id: t.id, text: t.text, duration_ms: t.duration_ms, created_at: t.created_at }
}

/// The history as shown to the front end, in the same order.
pub fn history_response(transcriptions: Vec<Transcription>) -> (r: TranscriptionHistoryResponse)
    ensures
        r.transcriptions.len() == transcriptions.len(),
        forall|i: int|
            0 <= i < transcriptions.len() ==> #[trigger] r.transcriptions[i] == (TranscriptionItem {
                id: transcriptions[i].id,
                text: transcriptions[i].text,
                duration_ms: transcriptions[i].duration_ms,
                created_at: transcriptions[i].created_at,
            }),
{
    let mut items: Vec<TranscriptionItem> = Vec::new();
    let ghost all = transcriptions@;
    for t in it: transcriptions.into_iter()
        invariant
            it.seq() == all,
            items.len() == it.index(),
            forall|k: int|
                0 <= k < items.len() ==> #[trigger] items[k] == (TranscriptionItem {
                    id: all[k].id,
                    text: all[k].text,
                    duration_ms: all[k].duration_ms,
                    created_at: all[k].created_at,
                }),
    {
        items.push(transcription_item(t));
    }
    TranscriptionHistoryResponse { transcriptions: items }
}

/// The name of a recording state.
pub open spec fn state_name(s: RecordingState) -> Seq<char> {
    match s {
        RecordingState::Idle => "Idle"@,
        RecordingState::Recording { .. } => "Recording"@,
        RecordingState::Processing => "Processing"@,
    }
}

/// The current status for the front end: the recording state and the last error.
pub fn status_response(o: &Orchestrator) -> (r: StatusResponse)
    ensures
        r.state@ == state_name(o@.recording),
        match r.last_error {
            Some(m) => o@.last_error == Some(m@),
            None => o@.last_error is None,
        },
{
    let state = match o.recording() {
        RecordingState::Idle => "Idle",
        RecordingState::Recording { .. } => "Recording",
        RecordingState::Processing => "Processing",
    };
    StatusResponse { state: String::from_str(state), last_error: o.last_error() }
}

} // verus!
