# voice-transcribe

A push-to-talk voice transcription desktop application: hold a global hotkey
to record from the microphone, release it to transcribe the recording with
Whisper, and the text is copied to the clipboard and pasted into the focused
window (with the terminal paste shortcut when the focused window is a
terminal). Recent transcriptions are kept in a local history.

## Layout

- `src/` — the library, verified with Verus. It holds the decisions of the
  application:
  - `orchestrator` — the recording pipeline as a state machine from state and
    event to next state and effects, with its laws (debounced presses, progress
    of the pipeline, errors remembered, a full cycle back to idle);
  - `settings`, `settings_update` — defaults, validation of a settings change
    and its resolution after the hotkey is (re)registered;
  - `transcription` — validation, identifiers, stored rows, word totals;
  - `target_app` — classification of the focused window for the paste shortcut;
  - `audio` — input device naming and selection, level-meter band bins and the
    analysis window;
  - `model`, `whisper` — the default model download and the Whisper helpers;
  - `paste`, `overlay` — the keyboard-input controller holder and the overlay
    hide bookkeeping;
  - `dto` — what the front end receives;
  - `text`, `error`, `constants` — shared helpers.
- `app/` — the desktop shell around the library: Tauri window and commands,
  audio capture (cpal), Whisper (whisper-rs), SQLite, clipboard and keystrokes,
  D-Bus focus tracking. It performs the effects the library asks for.
- `tests/` — tests of the library.
