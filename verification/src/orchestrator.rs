//! The push-to-talk pipeline as a state machine.
//!
//! Hotkey press starts recording, release stops it and runs the pipeline:
//! collect samples, transcribe, paste, save. The machine decides; the
//! application performs each requested effect and reports back with an event.

use vstd::prelude::*;

use crate::error::{error_text, prefixed, AppError};
use crate::paste::PasteOutcome;
use crate::transcription::{transcription_valid, validate_transcription};

verus! {

/// Current state of the recording pipeline.
#[derive(Clone, Copy, Debug, PartialEq, Eq)]
pub enum RecordingState {
    /// Idle, ready to start a new recording.
    Idle,
    /// Actively recording audio since the given time (milliseconds on a monotonic clock).
    Recording { started_at_ms: u64 },
    /// Transcribing and processing the last recording.
    Processing,
}

/// Where a running pipeline stands.
#[derive(Clone, Debug, PartialEq, Eq)]
pub enum PipelineStage {
    /// Waiting for the recorder to hand over the samples.
    Collecting { duration_ms: i64 },
    /// Waiting for the transcription of the samples.
    Transcribing { duration_ms: i64 },
    /// Waiting for the paste of the transcribed text.
    Pasting { duration_ms: i64, text: String },
    /// Waiting for the transcription to be saved to the history.
    Saving { duration_ms: i64, text: String, clipboard_only: bool },
}

/// Model of a pipeline stage.
pub enum StageView {
    Collecting { duration_ms: i64 },
    Transcribing { duration_ms: i64 },
    Pasting { duration_ms: i64, text: Seq<char> },
    Saving { duration_ms: i64, text: Seq<char>, clipboard_only: bool },
}

impl View for PipelineStage {
    type V = StageView;

    open spec fn view(&self) -> StageView {
        match self {
            PipelineStage::Collecting { duration_ms } => StageView::Collecting {
                duration_ms: *duration_ms,
            },
            PipelineStage::Transcribing { duration_ms } => StageView::Transcribing {
                duration_ms: *duration_ms,
            },
            PipelineStage::Pasting { duration_ms, text } => StageView::Pasting {
                duration_ms: *duration_ms,
                text: text@,
            },
            PipelineStage::Saving { duration_ms, text, clipboard_only } => StageView::Saving {
                duration_ms: *duration_ms,
                text: text@,
                clipboard_only: *clipboard_only,
            },
        }
    }
}

/// What happened outside the machine.
#[derive(Clone, Debug)]
pub enum Event {
    /// The push-to-talk hotkey went down.
    HotkeyPressed,
    /// No audio input device could be found.
    NoInputDevice,
    /// The recorder for the chosen device could not be started.
    RecorderSpawnFailed { error: AppError },
    /// The recorder refused to start recording.
    RecorderStartFailed { error: AppError },
    /// The recorder is recording, since `now_ms`.
    RecorderStarted { now_ms: u64 },
    /// The push-to-talk hotkey went up at `now_ms`.
    HotkeyReleased { now_ms: u64 },
    /// The recorder handed over this many samples (after discarding short captures).
    SamplesCollected { sample_count: usize },
    /// The recorder failed to hand over the samples.
    CollectFailed { error: AppError },
    /// There was no recorder to collect from.
    RecorderMissing,
    /// Whisper produced this (normalized) text.
    Transcribed { text: String },
    /// Whisper failed.
    TranscriptionFailed { error: AppError },
    /// The paste finished; `None` when it failed.
    PasteFinished { outcome: Option<PasteOutcome> },
    /// Saving the transcription finished (a failure to save is only logged).
    SaveFinished,
}

/// What the application is asked to do, in order.
#[derive(Clone, Debug, PartialEq, Eq)]
pub enum Effect {
    /// Resolve the input device, (re)spawn the recorder if needed and start it.
    PrepareRecorder,
    /// Tell the front end that the pipeline failed.
    EmitTranscriptionError { message: String },
    /// Tell the front end that recording started.
    EmitRecordingStarted,
    /// Show the recording overlay.
    ShowOverlay,
    /// Re-arm the level meter and start feeding it.
    StartLevelMeter,
    /// Tell the front end that recording stopped.
    EmitRecordingStopped { duration_ms: i64 },
    /// Stop feeding the level meter.
    StopLevelMeter,
    /// Stop the recorder and collect its samples.
    CollectSamples,
    /// Transcribe the collected samples.
    Transcribe,
    /// Hide the overlay at once, so focus returns to the target window.
    HideOverlayBeforePaste,
    /// Copy the text and paste it into the focused window.
    Paste { text: String },
    /// Save the transcription to the history and count its words.
    SaveTranscription { text: String, duration_ms: i64 },
    /// Tell the front end that the pipeline completed.
    EmitTranscriptionComplete { text: String, duration_ms: i64, clipboard_only: Option<bool> },
    /// Hide the overlay after its exit animation.
    HideOverlay,
}

/// Model of an effect.
pub enum EffectView {
    PrepareRecorder,
    EmitTranscriptionError { message: Seq<char> },
    EmitRecordingStarted,
    ShowOverlay,
    StartLevelMeter,
    EmitRecordingStopped { duration_ms: i64 },
    StopLevelMeter,
    CollectSamples,
    Transcribe,
    HideOverlayBeforePaste,
    Paste { text: Seq<char> },
    SaveTranscription { text: Seq<char>, duration_ms: i64 },
    EmitTranscriptionComplete { text: Seq<char>, duration_ms: i64, clipboard_only: Option<bool> },
    HideOverlay,
}

impl View for Effect {
    type V = EffectView;

    open spec fn view(&self) -> EffectView {
        match self {
            Effect::PrepareRecorder => EffectView::PrepareRecorder,
            Effect::EmitTranscriptionError { message } => EffectView::EmitTranscriptionError {
                message: message@,
            },
            Effect::EmitRecordingStarted => EffectView::EmitRecordingStarted,
            Effect::ShowOverlay => EffectView::ShowOverlay,
            Effect::StartLevelMeter => EffectView::StartLevelMeter,
            Effect::EmitRecordingStopped { duration_ms } => EffectView::EmitRecordingStopped {
                duration_ms: *duration_ms,
            },
            Effect::StopLevelMeter => EffectView::StopLevelMeter,
            Effect::CollectSamples => EffectView::CollectSamples,
            Effect::Transcribe => EffectView::Transcribe,
            Effect::HideOverlayBeforePaste => EffectView::HideOverlayBeforePaste,
            Effect::Paste { text } => EffectView::Paste { text: text@ },
            Effect::SaveTranscription { text, duration_ms } => EffectView::SaveTranscription {
                text: text@,
                duration_ms: *duration_ms,
            },
            Effect::EmitTranscriptionComplete { text, duration_ms, clipboard_only } =>
                EffectView::EmitTranscriptionComplete {
                text: text@,
                duration_ms: *duration_ms,
                clipboard_only: *clipboard_only,
            },
            Effect::HideOverlay => EffectView::HideOverlay,
        }
    }
}

/// The models of a sequence of effects.
pub open spec fn effects_view(v: Seq<Effect>) -> Seq<EffectView> {
    v.map_values(|e: Effect| e@)
}

/// The state of the push-to-talk pipeline and the last error shown to the user.
pub struct Orchestrator {
    recording: RecordingState,
    last_error: Option<String>,
    pipeline: Option<PipelineStage>,
}

/// Model of the orchestrator.
pub struct OrchestratorView {
    pub recording: RecordingState,
    pub last_error: Option<Seq<char>>,
    pub pipeline: Option<StageView>,
}

impl View for Orchestrator {
    type V = OrchestratorView;

    closed spec fn view(&self) -> OrchestratorView {
        OrchestratorView {
            recording: self.recording,
            last_error: match self.last_error {
                Some(m) => Some(m@),
                None => None,
            },
            pipeline: match self.pipeline {
                Some(p) => Some(p@),
                None => None,
            },
        }
    }
}

/// Milliseconds from `started_at_ms` to `now_ms` (0 if the clock went backwards).
pub open spec fn elapsed_ms(started_at_ms: u64, now_ms: u64) -> i64 {
    if now_ms <= started_at_ms {
        0
    } else if now_ms - started_at_ms > i64::MAX {
        i64::MAX
    } else {
        (now_ms - started_at_ms) as i64
    }
}

/// A press-phase failure: the error is remembered and reported; the state stays.
pub open spec fn press_failure(s: OrchestratorView, message: Seq<char>) -> (
    OrchestratorView,
    Seq<EffectView>,
) {
    (
        OrchestratorView { last_error: Some(message), ..s },
        seq![EffectView::EmitTranscriptionError { message }],
    )
}

/// A pipeline failure: back to idle, the error is remembered, reported, and
/// the overlay hidden.
pub open spec fn pipeline_failure(s: OrchestratorView, message: Seq<char>) -> (
    OrchestratorView,
    Seq<EffectView>,
) {
    (
        OrchestratorView { recording: RecordingState::Idle, last_error: Some(message), pipeline: None },
        seq![EffectView::EmitTranscriptionError { message }, EffectView::HideOverlay],
    )
}

/// The pipeline completes: back to idle, completion reported with the given
/// payload, overlay hidden. `clear_error` says whether the last error is cleared.
pub open spec fn pipeline_completion(
    s: OrchestratorView,
    text: Seq<char>,
    duration_ms: i64,
    clipboard_only: Option<bool>,
    clear_error: bool,
) -> (OrchestratorView, Seq<EffectView>) {
    (
        OrchestratorView {
            recording: RecordingState::Idle,
            last_error: if clear_error {
                None
            } else {
                s.last_error
            },
            pipeline: None,
        },
        seq![
            EffectView::EmitTranscriptionComplete { text, duration_ms, clipboard_only },
            EffectView::HideOverlay,
        ],
    )
}

/// An event that does not apply in the current stage changes nothing.
pub open spec fn unchanged(s: OrchestratorView) -> (OrchestratorView, Seq<EffectView>) {
    (s, Seq::empty())
}

/// The transition function of the pipeline.
pub open spec fn step_spec(s: OrchestratorView, e: Event) -> (OrchestratorView, Seq<EffectView>) {
    match e {
        Event::HotkeyPressed => if s.recording is Idle {
            (s, seq![EffectView::PrepareRecorder])
        } else {
            unchanged(s)
        },
        Event::NoInputDevice => press_failure(s, "No audio input devices available"@),
        Event::RecorderSpawnFailed { error } => press_failure(
            s,
            "Microphone unavailable: "@ + error_text(error),
        ),
        Event::RecorderStartFailed { error } => press_failure(
            s,
            "Failed to start recording: "@ + error_text(error),
        ),
        Event::RecorderStarted { now_ms } => (
            OrchestratorView {
                recording: RecordingState::Recording { started_at_ms: now_ms },
                last_error: None,
                pipeline: None,
            },
            seq![
                EffectView::EmitRecordingStarted,
                EffectView::ShowOverlay,
                EffectView::StartLevelMeter,
            ],
        ),
        Event::HotkeyReleased { now_ms } => match s.recording {
            RecordingState::Recording { started_at_ms } => {
                let d = elapsed_ms(started_at_ms, now_ms);
                (
                    OrchestratorView {
                        recording: RecordingState::Processing,
                        last_error: s.last_error,
                        pipeline: Some(StageView::Collecting { duration_ms: d }),
                    },
                    seq![
                        EffectView::EmitRecordingStopped { duration_ms: d },
                        EffectView::StopLevelMeter,
                        EffectView::CollectSamples,
                    ],
                )
            },
            _ => unchanged(s),
        },
        Event::SamplesCollected { sample_count } => match s.pipeline {
            Some(StageView::Collecting { duration_ms }) => if sample_count == 0 {
                pipeline_completion(s, Seq::empty(), duration_ms, None, false)
            } else {
                (
                    OrchestratorView {
                        pipeline: Some(StageView::Transcribing { duration_ms }),
                        ..s
                    },
                    seq![EffectView::Transcribe],
                )
            },
            _ => unchanged(s),
        },
        Event::CollectFailed { error } => match s.pipeline {
            Some(StageView::Collecting { .. }) => pipeline_failure(
                s,
                "Recording failed: "@ + error_text(error),
            ),
            _ => unchanged(s),
        },
        Event::RecorderMissing => match s.pipeline {
            Some(StageView::Collecting { .. }) => pipeline_failure(s, "No recorder available"@),
            _ => unchanged(s),
        },
        Event::Transcribed { text } => match s.pipeline {
            Some(StageView::Transcribing { duration_ms }) => if text@.len() == 0 {
                pipeline_completion(s, Seq::empty(), duration_ms, None, false)
            } else {
                (
                    OrchestratorView {
                        pipeline: Some(StageView::Pasting { duration_ms, text: text@ }),
                        ..s
                    },
                    seq![EffectView::HideOverlayBeforePaste, EffectView::Paste { text: text@ }],
                )
            },
            _ => unchanged(s),
        },
        Event::TranscriptionFailed { error } => match s.pipeline {
            Some(StageView::Transcribing { .. }) => pipeline_failure(
                s,
                "Transcription failed: "@ + error_text(error),
            ),
            _ => unchanged(s),
        },
        Event::PasteFinished { outcome } => match s.pipeline {
            Some(StageView::Pasting { duration_ms, text }) => {
                let clipboard_only = outcome != Some(PasteOutcome::CopiedAndPasted);
                if transcription_valid(text, duration_ms) {
                    (
                        OrchestratorView {
                            pipeline: Some(StageView::Saving { duration_ms, text, clipboard_only }),
                            ..s
                        },
                        seq![EffectView::SaveTranscription { text, duration_ms }],
                    )
                } else {
                    pipeline_completion(s, text, duration_ms, None, true)
                }
            },
            _ => unchanged(s),
        },
        Event::SaveFinished => match s.pipeline {
            Some(StageView::Saving { duration_ms, text, clipboard_only }) => pipeline_completion(
                s,
                text,
                duration_ms,
                Some(clipboard_only),
                true,
            ),
            _ => unchanged(s),
        },
    }
}

/// Whether the orchestrator's state is consistent: a pipeline only runs while processing.
pub open spec fn orchestrator_wf(s: OrchestratorView) -> bool {
    s.pipeline is Some ==> s.recording is Processing
}

/// Events reported by the running pipeline.
pub open spec fn is_pipeline_event(e: Event) -> bool {
    ||| e is SamplesCollected
    ||| e is CollectFailed
    ||| e is RecorderMissing
    ||| e is Transcribed
    ||| e is TranscriptionFailed
    ||| e is PasteFinished
    ||| e is SaveFinished
}

/// How far a pipeline still has to go.
pub open spec fn remaining_stages(p: Option<StageView>) -> nat {
    match p {
        None => 0,
        Some(StageView::Saving { .. }) => 1,
        Some(StageView::Pasting { .. }) => 2,
        Some(StageView::Transcribing { .. }) => 3,
        Some(StageView::Collecting { .. }) => 4,
    }
}

/// The final state and all effects of a run of events.
pub open spec fn run_spec(s: OrchestratorView, events: Seq<Event>) -> (
    OrchestratorView,
    Seq<EffectView>,
)
    decreases events.len(),
{
    if events.len() == 0 {
        (s, Seq::empty())
    } else {
        let (s1, f1) = step_spec(s, events[0]);
        let (s2, f2) = run_spec(s1, events.drop_first());
        (s2, f1 + f2)
    }
}

/// A hotkey press while recording or processing is ignored; a press while
/// idle only asks for the recorder to be prepared.
pub proof fn lemma_press_is_debounced(s: OrchestratorView)
    ensures
        !(s.recording is Idle) ==> step_spec(s, Event::HotkeyPressed) == (s, Seq::<EffectView>::empty()),
        s.recording is Idle ==> step_spec(s, Event::HotkeyPressed) == (
            s,
            seq![EffectView::PrepareRecorder],
        ),
{
}

/// Releasing the hotkey while recording stops the recording and starts the
/// pipeline with the elapsed recording time.
pub proof fn lemma_release_starts_pipeline(s: OrchestratorView, started_at_ms: u64, now_ms: u64)
    requires
        s.recording == (RecordingState::Recording { started_at_ms }),
    ensures
        ({
            let (t, f) = step_spec(s, Event::HotkeyReleased { now_ms });
            let d = elapsed_ms(started_at_ms, now_ms);
            &&& t.recording is Processing
            &&& t.pipeline == Some(StageView::Collecting { duration_ms: d })
            &&& t.last_error == s.last_error
            &&& f == seq![
                EffectView::EmitRecordingStopped { duration_ms: d },
                EffectView::StopLevelMeter,
                EffectView::CollectSamples,
            ]
        }),
        0 <= elapsed_ms(started_at_ms, now_ms),
        started_at_ms <= now_ms && now_ms - started_at_ms <= i64::MAX ==> elapsed_ms(
            started_at_ms,
            now_ms,
        ) == now_ms - started_at_ms,
{
}

/// A release that matches no press (idle, or already processing) changes
/// nothing and starts nothing, so an idle orchestrator stays ready.
pub proof fn lemma_stray_release_is_ignored(s: OrchestratorView, now_ms: u64)
    requires
        !(s.recording is Recording),
    ensures
        step_spec(s, Event::HotkeyReleased { now_ms }) == (s, Seq::<EffectView>::empty()),
{
}

/// Every step keeps the state consistent.
pub proof fn lemma_step_preserves_wf(s: OrchestratorView, e: Event)
    requires
        orchestrator_wf(s),
    ensures
        orchestrator_wf(step_spec(s, e).0),
{
}

/// A pipeline event either does not apply (nothing changes), or moves the
/// pipeline to a later stage, or ends it: back to idle with the overlay hidden
/// as the last effect.
pub proof fn lemma_pipeline_progress(s: OrchestratorView, e: Event)
    requires
        orchestrator_wf(s),
        s.pipeline is Some,
        is_pipeline_event(e),
    ensures
        ({
            let (t, f) = step_spec(s, e);
            ||| (t, f) == (s, Seq::<EffectView>::empty())
            ||| t.pipeline is Some && remaining_stages(t.pipeline) < remaining_stages(s.pipeline)
                && t.recording is Processing
            ||| t.pipeline is None && t.recording is Idle && f.len() > 0 && f.last()
                == EffectView::HideOverlay
        }),
{
}

/// The effects that report the end of a pipeline to the user.
pub open spec fn is_outcome_report(e: EffectView) -> bool {
    e is EmitTranscriptionError || e is EmitTranscriptionComplete
}

/// How many end-of-pipeline reports a run of effects holds.
pub open spec fn outcome_reports(f: Seq<EffectView>) -> nat
    decreases f.len(),
{
    if f.len() == 0 {
        0
    } else {
        outcome_reports(f.drop_last()) + if is_outcome_report(f.last()) {
            1nat
        } else {
            0nat
        }
    }
}

proof fn lemma_outcome_reports_concat(a: Seq<EffectView>, b: Seq<EffectView>)
    ensures
        outcome_reports(a + b) == outcome_reports(a) + outcome_reports(b),
    decreases b.len(),
{
    if b.len() == 0 {
        assert(a + b =~= a);
    } else {
        lemma_outcome_reports_concat(a, b.drop_last());
        assert((a + b).drop_last() =~= a + b.drop_last());
    }
}

/// One pipeline step: it changes nothing, or moves on without reporting, or
/// ends the pipeline with exactly one report followed by hiding the overlay.
proof fn lemma_pipeline_step_reports(s: OrchestratorView, e: Event)
    requires
        orchestrator_wf(s),
        s.pipeline is Some,
        is_pipeline_event(e),
    ensures
        ({
            let (t, f) = step_spec(s, e);
            &&& orchestrator_wf(t)
            &&& t.pipeline is Some ==> outcome_reports(f) == 0
            &&& t.pipeline is None ==> t.recording is Idle && f.len() == 2 && is_outcome_report(f[0])
                && f[1] == EffectView::HideOverlay && outcome_reports(f) == 1
        }),
{
    let (t, f) = step_spec(s, e);
    lemma_step_preserves_wf(s, e);
    reveal_with_fuel(outcome_reports, 3);
    if f.len() == 2 {
        assert(f.drop_last().drop_last() =~= Seq::<EffectView>::empty());
    } else if f.len() == 1 {
        assert(f.drop_last() =~= Seq::<EffectView>::empty());
    }
}

/// Pipeline events that arrive when no pipeline runs change nothing.
proof fn lemma_run_without_pipeline(s: OrchestratorView, events: Seq<Event>)
    requires
        s.pipeline is None,
        forall|i: int| 0 <= i < events.len() ==> is_pipeline_event(#[trigger] events[i]),
    ensures
        run_spec(s, events) == (s, Seq::<EffectView>::empty()),
    decreases events.len(),
{
    if events.len() > 0 {
        assert(is_pipeline_event(events[0]));
        let rest = events.drop_first();
        assert forall|i: int| 0 <= i < rest.len() implies is_pipeline_event(#[trigger] rest[i]) by {
            assert(rest[i] == events[i + 1]);
        }
        lemma_run_without_pipeline(s, rest);
        assert(Seq::<EffectView>::empty() + Seq::<EffectView>::empty() =~= Seq::<EffectView>::empty());
    }
}

/// Whatever the pipeline's events, a running pipeline reports its end to the
/// user exactly once: while it runs nothing is reported; once it has ended it
/// is idle, and the last two effects are the one report (an error or the
/// completion) and hiding the overlay. Later pipeline events change nothing.
pub proof fn lemma_pipeline_reports_once(s: OrchestratorView, events: Seq<Event>)
    requires
        orchestrator_wf(s),
        s.pipeline is Some,
        forall|i: int| 0 <= i < events.len() ==> is_pipeline_event(#[trigger] events[i]),
    ensures
        ({
            let (t, f) = run_spec(s, events);
            &&& t.pipeline is Some ==> t.recording is Processing && outcome_reports(f) == 0
            &&& t.pipeline is None ==> t.recording is Idle && f.len() >= 2 && is_outcome_report(
                f[f.len() - 2],
            ) && f[f.len() - 1] == EffectView::HideOverlay && outcome_reports(f) == 1
        }),
    decreases events.len(),
{
    if events.len() == 0 {
        reveal_with_fuel(outcome_reports, 1);
    } else {
        let e = events[0];
        assert(is_pipeline_event(e));
        let rest = events.drop_first();
        assert forall|i: int| 0 <= i < rest.len() implies is_pipeline_event(#[trigger] rest[i]) by {
            assert(rest[i] == events[i + 1]);
        }
        let (s1, f1) = step_spec(s, e);
        lemma_pipeline_step_reports(s, e);
        let (t, f2) = run_spec(s1, rest);
        assert(run_spec(s, events) == (t, f1 + f2));
        lemma_outcome_reports_concat(f1, f2);
        if s1.pipeline is Some {
            lemma_pipeline_reports_once(s1, rest);
            if t.pipeline is None {
                assert((f1 + f2)[(f1 + f2).len() - 2] == f2[f2.len() - 2]);
                assert((f1 + f2)[(f1 + f2).len() - 1] == f2[f2.len() - 1]);
            }
        } else {
            lemma_run_without_pipeline(s1, rest);
            assert(f1 + f2 =~= f1);
        }
    }
}

/// What a transcription result does to a pipeline that is transcribing: an
/// empty text (silence) ends it as a completion with an empty text and the
/// recording time, keeping the last error; a non-empty text moves on to
/// pasting that text after hiding the overlay; a failure ends it with the
/// error reported and remembered.
pub proof fn lemma_transcription_outcome(s: OrchestratorView, d: i64, text: String, error: AppError)
    requires
        s.pipeline == Some(StageView::Transcribing { duration_ms: d }),
    ensures
        text@.len() == 0 ==> step_spec(s, Event::Transcribed { text }) == (
            OrchestratorView { recording: RecordingState::Idle, last_error: s.last_error, pipeline: None },
            seq![
                EffectView::EmitTranscriptionComplete {
                    text: Seq::empty(),
                    duration_ms: d,
                    clipboard_only: None,
                },
                EffectView::HideOverlay,
            ],
        ),
        text@.len() > 0 ==> step_spec(s, Event::Transcribed { text }) == (
            OrchestratorView {
                recording: s.recording,
                last_error: s.last_error,
                pipeline: Some(StageView::Pasting { duration_ms: d, text: text@ }),
            },
            seq![EffectView::HideOverlayBeforePaste, EffectView::Paste { text: text@ }],
        ),
        ({
            let m = "Transcription failed: "@ + error_text(error);
            step_spec(s, Event::TranscriptionFailed { error }) == (
                OrchestratorView { recording: RecordingState::Idle, last_error: Some(m), pipeline: None },
                seq![EffectView::EmitTranscriptionError { message: m }, EffectView::HideOverlay],
            )
        }),
{
}

/// An error reported to the user is also remembered as the last error.
pub proof fn lemma_reported_error_is_remembered(s: OrchestratorView, e: Event, i: int)
    requires
        0 <= i < step_spec(s, e).1.len(),
        step_spec(s, e).1[i] is EmitTranscriptionError,
    ensures
        step_spec(s, e).0.last_error == Some(step_spec(s, e).1[i]->message),
{
}

/// A complete push-to-talk cycle from idle: press, start recording, release,
/// collect samples, transcribe to non-empty valid text, paste, save. It ends
/// idle with no error, and the last effects report the text with the
/// recording time and whether the text was only copied, then hide the overlay.
pub proof fn lemma_full_cycle(
    s: OrchestratorView,
    t0: u64,
    t1: u64,
    sample_count: usize,
    text: String,
    outcome: Option<PasteOutcome>,
)
    requires
        s.recording is Idle,
        sample_count > 0,
        text@.len() > 0,
        transcription_valid(text@, elapsed_ms(t0, t1)),
    ensures
        ({
            let events = seq![
                Event::HotkeyPressed,
                Event::RecorderStarted { now_ms: t0 },
                Event::HotkeyReleased { now_ms: t1 },
                Event::SamplesCollected { sample_count },
                Event::Transcribed { text },
                Event::PasteFinished { outcome },
                Event::SaveFinished,
            ];
            let (t, f) = run_spec(s, events);
            &&& t == OrchestratorView {
                recording: RecordingState::Idle,
                last_error: None,
                pipeline: None,
            }
            &&& f.len() == 13
            &&& f[0] == EffectView::PrepareRecorder
            &&& f[3] == EffectView::StartLevelMeter
            &&& f[4] == EffectView::EmitRecordingStopped { duration_ms: elapsed_ms(t0, t1) }
            &&& f[9] == EffectView::Paste { text: text@ }
            &&& f[10] == EffectView::SaveTranscription { text: text@, duration_ms: elapsed_ms(t0, t1) }
            &&& f[11] == EffectView::EmitTranscriptionComplete {
                text: text@,
                duration_ms: elapsed_ms(t0, t1),
                clipboard_only: Some(outcome != Some(PasteOutcome::CopiedAndPasted)),
            }
            &&& f[12] == EffectView::HideOverlay
        }),
{
    let e0 = Event::HotkeyPressed;
    let e1 = Event::RecorderStarted { now_ms: t0 };
    let e2 = Event::HotkeyReleased { now_ms: t1 };
    let e3 = Event::SamplesCollected { sample_count };
    let e4 = Event::Transcribed { text };
    let e5 = Event::PasteFinished { outcome };
    let e6 = Event::SaveFinished;
    let l6 = seq![e6];
    let l5 = seq![e5, e6];
    let l4 = seq![e4, e5, e6];
    let l3 = seq![e3, e4, e5, e6];
    let l2 = seq![e2, e3, e4, e5, e6];
    let l1 = seq![e1, e2, e3, e4, e5, e6];
    let l0 = seq![e0, e1, e2, e3, e4, e5, e6];
    let (s1, f0) = step_spec(s, e0);
    let (s2, f1) = step_spec(s1, e1);
    let (s3, f2) = step_spec(s2, e2);
    let (s4, f3) = step_spec(s3, e3);
    let (s5, f4) = step_spec(s4, e4);
    let (s6, f5) = step_spec(s5, e5);
    let (s7, f6) = step_spec(s6, e6);
    let d = elapsed_ms(t0, t1);
    assert(s2.recording == RecordingState::Recording { started_at_ms: t0 });
    assert(s3.pipeline == Some(StageView::Collecting { duration_ms: d }));
    assert(s4.pipeline == Some(StageView::Transcribing { duration_ms: d }));
    assert(s5.pipeline == Some(StageView::Pasting { duration_ms: d, text: text@ }));
    assert(s6.pipeline == Some(
        StageView::Saving {
            duration_ms: d,
            text: text@,
            clipboard_only: outcome != Some(PasteOutcome::CopiedAndPasted),
        },
    ));
    assert(l6.drop_first() =~= Seq::<Event>::empty());
    assert(l5.drop_first() =~= l6);
    assert(l4.drop_first() =~= l5);
    assert(l3.drop_first() =~= l4);
    assert(l2.drop_first() =~= l3);
    assert(l1.drop_first() =~= l2);
    assert(l0.drop_first() =~= l1);
    assert(run_spec(s7, Seq::<Event>::empty()) == (s7, Seq::<EffectView>::empty()));
    assert(run_spec(s6, l6) == (s7, f6 + Seq::<EffectView>::empty()));
    assert(run_spec(s5, l5) == (s7, f5 + (f6 + Seq::<EffectView>::empty())));
    assert(run_spec(s4, l4) == (s7, f4 + (f5 + (f6 + Seq::<EffectView>::empty()))));
    assert(run_spec(s3, l3) == (s7, f3 + (f4 + (f5 + (f6 + Seq::<EffectView>::empty())))));
    assert(run_spec(s2, l2) == (s7, f2 + (f3 + (f4 + (f5 + (f6 + Seq::<EffectView>::empty()))))));
    assert(run_spec(s1, l1) == (
        s7,
        f1 + (f2 + (f3 + (f4 + (f5 + (f6 + Seq::<EffectView>::empty()))))),
    ));
    assert(run_spec(s, l0) == (
        s7,
        f0 + (f1 + (f2 + (f3 + (f4 + (f5 + (f6 + Seq::<EffectView>::empty())))))),
    ));
    assert(f0 + (f1 + (f2 + (f3 + (f4 + (f5 + (f6 + Seq::<EffectView>::empty())))))) =~= seq![
        EffectView::PrepareRecorder,
        EffectView::EmitRecordingStarted,
        EffectView::ShowOverlay,
        EffectView::StartLevelMeter,
        EffectView::EmitRecordingStopped { duration_ms: d },
        EffectView::StopLevelMeter,
        EffectView::CollectSamples,
        EffectView::Transcribe,
        EffectView::HideOverlayBeforePaste,
        EffectView::Paste { text: text@ },
        EffectView::SaveTranscription { text: text@, duration_ms: d },
        EffectView::EmitTranscriptionComplete {
            text: text@,
            duration_ms: d,
            clipboard_only: Some(outcome != Some(PasteOutcome::CopiedAndPasted)),
        },
        EffectView::HideOverlay,
    ]);
}

/// A recording that yields no samples (too short, or empty) ends the
/// pipeline at once: back to idle, the last error kept, an empty completion
/// reported with the recording time, and the overlay hidden.
pub proof fn lemma_empty_capture_completes(s: OrchestratorView, started_at_ms: u64, now_ms: u64)
    requires
        s.recording == (RecordingState::Recording { started_at_ms }),
    ensures
        ({
            let (s1, f1) = step_spec(s, Event::HotkeyReleased { now_ms });
            let (s2, f2) = step_spec(s1, Event::SamplesCollected { sample_count: 0 });
            &&& s2 == OrchestratorView {
                recording: RecordingState::Idle,
                last_error: s.last_error,
                pipeline: None,
            }
            &&& f2 == seq![
                EffectView::EmitTranscriptionComplete {
                    text: Seq::empty(),
                    duration_ms: elapsed_ms(started_at_ms, now_ms),
                    clipboard_only: None,
                },
                EffectView::HideOverlay,
            ]
        }),
{
}

/// Milliseconds between two monotonic clock readings.
fn elapsed_between(started_at_ms: u64, now_ms: u64) -> (d: i64)
    ensures
        d == elapsed_ms(started_at_ms, now_ms),
{
    if now_ms <= started_at_ms {
        0
    } else if now_ms - started_at_ms > i64::MAX as u64 {
        i64::MAX
    } else {
        (now_ms - started_at_ms) as i64
    }
}

impl Orchestrator {
    /// A fresh orchestrator: idle, no error, no pipeline.
    pub fn new() -> (o: Orchestrator)
        ensures
            o@ == (OrchestratorView {
                recording: RecordingState::Idle,
                last_error: None,
                pipeline: None,
            }),
    {
        Orchestrator { recording: RecordingState::Idle, last_error: None, pipeline: None }
    }

    /// The current recording state.
    pub fn recording(&self) -> (r: RecordingState)
        ensures
            r == self@.recording,
    {
        self.recording
    }

    /// The last error surfaced to the user.
    pub fn last_error(&self) -> (r: Option<String>)
        ensures
            match r {
                Some(m) => self@.last_error == Some(m@),
                None => self@.last_error is None,
            },
    {
        match &self.last_error {
            Some(m) => Some(m.clone()),
            None => None,
        }
    }

    /// Whether a recording is in progress.
    pub fn is_recording(&self) -> (b: bool)
        ensures
            b == (self@.recording is Recording),
    {
        match self.recording {
            RecordingState::Recording { .. } => true,
            _ => false,
        }
    }

    /// Remembers an error to show to the user.
    pub fn set_last_error(&mut self, message: String)
        ensures
            final(self)@ == (OrchestratorView { last_error: Some(message@), ..old(self)@ }),
    {
        self.last_error = Some(message);
    }

    /// Forgets the last error.
    pub fn clear_last_error(&mut self)
        ensures
            final(self)@ == (OrchestratorView { last_error: None, ..old(self)@ }),
    {
        self.last_error = None;
    }

    /// Applies one event; returns the effects to perform, in order.
    pub fn handle(&mut self, event: Event) -> (effects: Vec<Effect>)
        ensures
            final(self)@ == step_spec(old(self)@, event).0,
            effects_view(effects@) == step_spec(old(self)@, event).1,
    {
        let mut cur = Orchestrator::new();
        std::mem::swap(&mut cur, self);
        let (next, effects) = cur.step(event);
        *self = next;
        effects
    }

    fn step(self, event: Event) -> (r: (Orchestrator, Vec<Effect>))
        ensures
            r.0@ == step_spec(self@, event).0,
            effects_view(r.1@) == step_spec(self@, event).1,
    {
        let ghost s = self@;
        match event {
            Event::HotkeyPressed => {
                let mut v = Vec::new();
                if let RecordingState::Idle = self.recording {
                    v.push(Effect::PrepareRecorder);
                }
                assert(effects_view(v@) =~= step_spec(s, event).1);
                (self, v)
            },
            Event::NoInputDevice => self.fail_press(
                String::from_str("No audio input devices available"),
            ),
            Event::RecorderSpawnFailed { error } => {
                let m = error.message();
                self.fail_press(prefixed("Microphone unavailable: ", m.as_str()))
            },
            Event::RecorderStartFailed { error } => {
                let m = error.message();
                self.fail_press(prefixed("Failed to start recording: ", m.as_str()))
            },
            Event::RecorderStarted { now_ms } => {
                let o = Orchestrator {
                    recording: RecordingState::Recording { started_at_ms: now_ms },
                    last_error: None,
                    pipeline: None,
                };
                let mut v = Vec::new();
                v.push(Effect::EmitRecordingStarted);
                v.push(Effect::ShowOverlay);
                v.push(Effect::StartLevelMeter);
                assert(effects_view(v@) =~= step_spec(s, event).1);
                (o, v)
            },
            Event::HotkeyReleased { now_ms } => {
                match self.recording {
                    RecordingState::Recording { started_at_ms } => {
                        let d = elapsed_between(started_at_ms, now_ms);
                        let o = Orchestrator {
                            recording: RecordingState::Processing,
                            last_error: self.last_error,
                            pipeline: Some(PipelineStage::Collecting { duration_ms: d }),
                        };
                        let mut v = Vec::new();
                        v.push(Effect::EmitRecordingStopped { duration_ms: d });
                        v.push(Effect::StopLevelMeter);
                        v.push(Effect::CollectSamples);
                        assert(effects_view(v@) =~= step_spec(s, event).1);
                        (o, v)
                    },
                    _ => {
                        let v = Vec::new();
                        assert(effects_view(v@) =~= step_spec(s, event).1);
                        (self, v)
                    },
                }
            },
            Event::SamplesCollected { sample_count } => {
                match self.pipeline {
                    Some(PipelineStage::Collecting { duration_ms }) => {
                        if sample_count == 0 {
                            let last_error = self.last_error;
                            Self::complete(last_error, String::new(), duration_ms, None)
                        } else {
                            let o = Orchestrator {
                                recording: self.recording,
                                last_error: self.last_error,
                                pipeline: Some(PipelineStage::Transcribing { duration_ms }),
                            };
                            let mut v = Vec::new();
                            v.push(Effect::Transcribe);
                            assert(effects_view(v@) =~= step_spec(s, event).1);
                            (o, v)
                        }
                    },
                    _ => Self::ignore(self),
                }
            },
            Event::CollectFailed { error } => {
                match self.pipeline {
                    Some(PipelineStage::Collecting { .. }) => {
                        let m = error.message();
                        Self::fail_pipeline(prefixed("Recording failed: ", m.as_str()))
                    },
                    _ => Self::ignore(self),
                }
            },
            Event::RecorderMissing => {
                match self.pipeline {
                    Some(PipelineStage::Collecting { .. }) => Self::fail_pipeline(
                        String::from_str("No recorder available"),
                    ),
                    _ => Self::ignore(self),
                }
            },
            Event::Transcribed { text } => {
                match self.pipeline {
                    Some(PipelineStage::Transcribing { duration_ms }) => {
                        if text.as_str().is_empty() {
                            let last_error = self.last_error;
                            Self::complete(last_error, String::new(), duration_ms, None)
                        } else {
                            let o = Orchestrator {
                                recording: self.recording,
                                last_error: self.last_error,
                                pipeline: Some(
                                    PipelineStage::Pasting { duration_ms, text: text.clone() },
                                ),
                            };
                            let mut v = Vec::new();
                            v.push(Effect::HideOverlayBeforePaste);
                            v.push(Effect::Paste { text });
                            assert(effects_view(v@) =~= step_spec(s, event).1);
                            (o, v)
                        }
                    },
                    _ => Self::ignore(self),
                }
            },
            Event::TranscriptionFailed { error } => {
                match self.pipeline {
                    Some(PipelineStage::Transcribing { .. }) => {
                        let m = error.message();
                        Self::fail_pipeline(prefixed("Transcription failed: ", m.as_str()))
                    },
                    _ => Self::ignore(self),
                }
            },
            Event::PasteFinished { outcome } => {
                match self.pipeline {
                    Some(PipelineStage::Pasting { duration_ms, text }) => {
                        let clipboard_only = match outcome {
                            Some(PasteOutcome::CopiedAndPasted) => false,
                            _ => true,
                        };
                        if validate_transcription(text.as_str(), duration_ms).is_ok() {
                            let o = Orchestrator {
                                recording: self.recording,
                                last_error: self.last_error,
                                pipeline: Some(
                                    PipelineStage::Saving {
                                        duration_ms,
                                        text: text.clone(),
                                        clipboard_only,
                                    },
                                ),
                            };
                            let mut v = Vec::new();
                            v.push(Effect::SaveTranscription { text, duration_ms });
                            assert(effects_view(v@) =~= step_spec(s, event).1);
                            (o, v)
                        } else {
                            Self::complete(None, text, duration_ms, None)
                        }
                    },
                    _ => Self::ignore(self),
                }
            },
            Event::SaveFinished => {
                match self.pipeline {
                    Some(PipelineStage::Saving { duration_ms, text, clipboard_only }) => {
                        Self::complete(None, text, duration_ms, Some(clipboard_only))
                    },
                    _ => Self::ignore(self),
                }
            },
        }
    }

    fn ignore(self) -> (r: (Orchestrator, Vec<Effect>))
        ensures
            r.0@ == self@,
            effects_view(r.1@) == Seq::<EffectView>::empty(),
    {
        let v = Vec::new();
        assert(effects_view(v@) =~= Seq::<EffectView>::empty());
        (self, v)
    }

    fn fail_press(self, message: String) -> (r: (Orchestrator, Vec<Effect>))
        ensures
            r.0@ == press_failure(self@, message@).0,
            effects_view(r.1@) == press_failure(self@, message@).1,
    {
        let o = Orchestrator {
            recording: self.recording,
            last_error: Some(message.clone()),
            pipeline: self.pipeline,
        };
        let mut v = Vec::new();
        v.push(Effect::EmitTranscriptionError { message });
        assert(effects_view(v@) =~= press_failure(self@, message@).1);
        (o, v)
    }

    fn fail_pipeline(message: String) -> (r: (Orchestrator, Vec<Effect>))
        ensures
            forall|s: OrchestratorView| r.0@ == #[trigger] pipeline_failure(s, message@).0,
            forall|s: OrchestratorView|
                effects_view(r.1@) == #[trigger] pipeline_failure(s, message@).1,
    {
        let o = Orchestrator {
            recording: RecordingState::Idle,
            last_error: Some(message.clone()),
            pipeline: None,
        };
        let mut v = Vec::new();
        v.push(Effect::EmitTranscriptionError { message });
        v.push(Effect::HideOverlay);
        assert(effects_view(v@) =~= seq![
            EffectView::EmitTranscriptionError { message: message@ },
            EffectView::HideOverlay,
        ]);
        (o, v)
    }

    fn complete(
        last_error: Option<String>,
        text: String,
        duration_ms: i64,
        clipboard_only: Option<bool>,
    ) -> (r: (Orchestrator, Vec<Effect>))
        ensures
            r.0@.recording == RecordingState::Idle,
            r.0@.pipeline is None,
            r.0@.last_error == match last_error {
                Some(m) => Some(m@),
                None => None::<Seq<char>>,
            },
            effects_view(r.1@) == seq![
                EffectView::EmitTranscriptionComplete { text: text@, duration_ms, clipboard_only },
                EffectView::HideOverlay,
            ],
    {
        let o = Orchestrator { recording: RecordingState::Idle, last_error, pipeline: None };
        let mut v = Vec::new();
        v.push(Effect::EmitTranscriptionComplete { text, duration_ms, clipboard_only });
        v.push(Effect::HideOverlay);
        assert(effects_view(v@) =~= seq![
            EffectView::EmitTranscriptionComplete { text: text@, duration_ms, clipboard_only },
            EffectView::HideOverlay,
        ]);
        (o, v)
    }
}

} // verus!
