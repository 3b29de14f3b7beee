//! Verified core of a push-to-talk voice transcription desktop application.
//!
//! The library holds the decisions of the application: settings defaults and
//! validation, transcription entities, paste-target classification, audio
//! device naming and selection, the recording pipeline state machine and the
//! helpers around the Whisper model. Platform work (audio capture, the Whisper
//! runtime, SQLite, the desktop shell) is performed by the application around it.

pub mod constants;
pub mod error;
pub mod text;
pub mod target_app;
pub mod settings;
pub mod whisper;
pub mod transcription;
pub mod paste;
pub mod orchestrator;
pub mod audio;
pub mod model;
pub mod dto;
pub mod settings_update;
pub mod overlay;
