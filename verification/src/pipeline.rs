//! Decisions of the transcription pipeline and of the frontend commands that
//! drive it: when to give up waiting for the engine, what a stop request's
//! outcome means, when an injection is skipped, and which state follows it.
use vstd::prelude::*;
use vstd::string::*;
use crate::state::{
    AppState, AppStateManager, StateChange, TranscriptionRecord, describes, state_name, opt_view,
    history_after_add, evicted_by_add,
};
use crate::json::{json_str_field, json_string_field};

verus! {

/// How long to wait for the engine to confirm that it is recording, in
/// nanoseconds; waiting ends once strictly more time has passed.
pub const ENGINE_START_TIMEOUT_NANOS: u64 = 5_000_000_000;

/// How often the engine's confirmation is polled, in milliseconds.
pub const ENGINE_POLL_MILLIS: u64 = 50;

/// How long a stop request may take, in seconds.
pub const STOP_TIMEOUT_SECS: u64 = 60;

/// How long an error stays on screen before the pipeline returns to idle, in
/// milliseconds.
pub const ERROR_DISPLAY_MILLIS: u64 = 3000;

/// How long the completed state stays visible after a successful injection,
/// in milliseconds.
pub const COMPLETE_PAUSE_MILLIS: u64 = 800;

/// What to do while waiting for the engine to start recording.
#[derive(Debug, Clone, Copy, PartialEq, Eq, Structural)]
pub enum EngineWait {
    /// The engine is recording: send the stop request.
    Proceed,
    /// Poll again after `ENGINE_POLL_MILLIS`.
    KeepWaiting,
    /// Show the error state, then return to idle.
    GiveUp,
}

/// Proceed once the engine confirmed; give up once the wait exceeded the
/// timeout; keep waiting otherwise.
pub open spec fn engine_wait_spec(engine_recording: bool, elapsed_nanos: u64) -> EngineWait {
    if engine_recording {
        EngineWait::Proceed
    } else if elapsed_nanos > ENGINE_START_TIMEOUT_NANOS {
        EngineWait::GiveUp
    } else {
        EngineWait::KeepWaiting
    }
}

/// Decide the next step of waiting for the engine's confirmation.
pub fn engine_wait(engine_recording: bool, elapsed_nanos: u64) -> (r: EngineWait)
    ensures
        r == engine_wait_spec(engine_recording, elapsed_nanos),
{
    if engine_recording {
        EngineWait::Proceed
    } else if elapsed_nanos > ENGINE_START_TIMEOUT_NANOS {
        EngineWait::GiveUp
    } else {
        EngineWait::KeepWaiting
    }
}

/// The error state shown when the engine never confirmed the recording.
pub fn engine_start_failed() -> (r: AppState)
    ensures
        r matches AppState::Error(m) && m@ == "Recording failed to start"@,
{
    AppState::Error(String::from_str("Recording failed to start"))
}

/// The fields of the engine's reply to a stop request that are strings
/// (`None` for a field that is absent or not a string, or when the reply is
/// not JSON).
#[derive(Debug)]
pub struct EngineReply {
    pub raw_text: Option<String>,
    pub polished_text: Option<String>,
    pub audio_data: Option<String>,
}

/// Read the engine's reply to a stop request: each field is the reply's
/// string field of that name.
pub fn parse_reply(text: &str) -> (r: EngineReply)
    ensures
        opt_view(r.raw_text) == json_string_field(text@, "raw_text"@),
        opt_view(r.polished_text) == json_string_field(text@, "polished_text"@),
        opt_view(r.audio_data) == json_string_field(text@, "audio_data"@),
{
    EngineReply {
        raw_text: json_str_field(text, "raw_text"),
        polished_text: json_str_field(text, "polished_text"),
        audio_data: json_str_field(text, "audio_data"),
    }
}

/// How the stop request ended.
#[derive(Debug)]
pub enum StopOutcome {
    /// No reply within `STOP_TIMEOUT_SECS`.
    TimedOut,
    /// The request failed with this error.
    Failed(String),
    /// The engine replied.
    Replied(EngineReply),
}

/// A transcript ready to be recorded and injected.
#[derive(Debug)]
pub struct Transcript {
    pub raw_text: String,
    pub polished_text: String,
    /// Base64 audio of the recording, when the engine sent it.
    pub audio_data: Option<String>,
}

/// The characters of an optional string, empty when absent.
pub open spec fn text_or_empty(o: Option<String>) -> Seq<char> {
    match o {
        Some(s) => s@,
        None => Seq::<char>::empty(),
    }
}

/// A stop outcome yields a transcript only when the engine replied with a
/// non-empty polished text; otherwise the error message to show.
pub open spec fn transcript_spec(outcome: StopOutcome, r: Result<Transcript, String>) -> bool {
    match outcome {
        StopOutcome::TimedOut => r matches Err(m) && m@ == "Request timed out"@,
        StopOutcome::Failed(e) => r matches Err(m) && m@ == "Pipeline failed: "@ + e@,
        StopOutcome::Replied(reply) => {
            if text_or_empty(reply.polished_text).len() == 0 {
                r matches Err(m) && m@ == "No text transcribed"@
            } else {
                r matches Ok(t) && t.raw_text@ == text_or_empty(reply.raw_text)
                    && t.polished_text@ == text_or_empty(reply.polished_text)
                    && t.audio_data == reply.audio_data
            }
        },
    }
}

fn text_or_default(o: Option<String>) -> (r: String)
    ensures
        r@ == text_or_empty(o),
{
    match o {
        Some(s) => s,
        None => String::new(),
    }
}

/// Interpret the outcome of the stop request.
pub fn transcript_from_outcome(outcome: StopOutcome) -> (r: Result<Transcript, String>)
    ensures
        transcript_spec(outcome, r),
{
    match outcome {
        StopOutcome::TimedOut => Err(String::from_str("Request timed out")),
        StopOutcome::Failed(e) => {
            let mut msg = String::from_str("Pipeline failed: ");
            msg.append(e.as_str());
            Err(msg)
        },
        StopOutcome::Replied(reply) => {
            let raw_text = text_or_default(reply.raw_text);
            let polished_text = text_or_default(reply.polished_text);
            if polished_text.as_str().unicode_len() == 0 {
                Err(String::from_str("No text transcribed"))
            } else {
                Ok(Transcript { raw_text, polished_text, audio_data: reply.audio_data })
            }
        },
    }
}

/// The state that follows an injection attempt: idle when the text was
/// pasted, otherwise the text is offered for copying so it is never lost.
pub open spec fn after_injection_spec(result: Result<(), String>, polished: String) -> AppState {
    match result {
        Ok(()) => AppState::Idle,
        Err(_) => AppState::CopyAvailable(polished),
    }
}

/// Decide the state that follows an injection attempt.
pub fn after_injection(result: Result<(), String>, polished: String) -> (r: AppState)
    ensures
        r == after_injection_spec(result, polished),
{
    match result {
        Ok(()) => AppState::Idle,
        Err(_) => AppState::CopyAvailable(polished),
    }
}

/// A failed injection offers exactly the transcribed text for copying.
pub proof fn law_failed_injection_keeps_text(e: String, polished: String)
    ensures
        after_injection_spec(Err(e), polished) == AppState::CopyAvailable(polished),
        after_injection_spec(Ok(()), polished) == AppState::Idle,
{
}

impl AppStateManager {
    /// Enter the injecting state, unless the request was cancelled in the
    /// meantime (the state went back to `Idle`), in which case nothing changes
    /// and the transcript is not injected.
    pub fn begin_injection(&mut self) -> (r: Option<StateChange>)
        ensures
            old(self).state is Idle ==> r is None && final(self).state == old(self).state,
            !(old(self).state is Idle) ==> (r matches Some(ev) && describes(ev, AppState::Injecting))
                && final(self).state == AppState::Injecting,
            final(self).engine_recording == old(self).engine_recording,
            final(self).mode == old(self).mode,
            final(self).current_shortcut == old(self).current_shortcut,
            final(self).history@ == old(self).history@,
    {
        if self.is_idle() {
            None
        } else {
            Some(self.transition(AppState::Injecting))
        }
    }

    /// The frontend's cancel request: return to idle from recording,
    /// processing, an error or an offered copy; nothing to do when idle;
    /// refused while text is being injected.
    pub fn cancel(&mut self) -> (r: Result<Option<StateChange>, String>)
        ensures
            old(self).state is Injecting ==> (r matches Err(m) && m@ == "Cannot cancel during text injection"@)
                && final(self).state == old(self).state,
            old(self).state is Idle ==> (r matches Ok(None)) && final(self).state == old(self).state,
            !(old(self).state is Idle) && !(old(self).state is Injecting) ==>
                (r matches Ok(Some(ev)) && describes(ev, AppState::Idle)) && final(self).state == AppState::Idle,
            final(self).engine_recording == old(self).engine_recording,
            final(self).mode == old(self).mode,
            final(self).current_shortcut == old(self).current_shortcut,
            final(self).history@ == old(self).history@,
    {
        match self.state {
            AppState::Idle => Ok(None),
            AppState::Injecting => Err(String::from_str("Cannot cancel during text injection")),
            _ => Ok(Some(self.transition(AppState::Idle))),
        }
    }
}

/// The frontend may start a recording only from `Idle`.
pub fn check_can_start_recording(current: &AppState) -> (r: Result<(), String>)
    ensures
        current is Idle ==> r is Ok,
        !(current is Idle) ==> (r matches Err(m) && m@ == "Cannot start recording from state: "@ + state_name(*current)),
{
    match current {
        AppState::Idle => Ok(()),
        _ => {
            let mut msg = String::from_str("Cannot start recording from state: ");
            msg.append(current.as_str());
            Err(msg)
        },
    }
}

/// The frontend may stop a recording only from `Recording`.
pub fn check_can_stop_recording(current: &AppState) -> (r: Result<(), String>)
    ensures
        current is Recording ==> r is Ok,
        !(current is Recording) ==> (r matches Err(m) && m@ == "Cannot stop recording from state: "@ + state_name(*current)),
{
    match current {
        AppState::Recording => Ok(()),
        _ => {
            let mut msg = String::from_str("Cannot stop recording from state: ");
            msg.append(current.as_str());
            Err(msg)
        },
    }
}

/// Where a run of the pipeline stands, between two steps.
#[derive(Debug)]
pub enum PipelineStage {
    /// Waiting for the engine to confirm that it is recording.
    AwaitEngine,
    /// The stop request is in flight.
    AwaitStop,
    /// An error is on screen.
    ShowingError,
    /// The transcript's audio is being saved.
    AwaitRecording { raw_text: String, polished_text: String },
    /// The history is being saved.
    AwaitPersist { polished_text: String },
    /// The text is being pasted.
    AwaitInjection { polished_text: String },
    /// The completed state is on screen.
    Completing,
    /// The run is over.
    Done,
}

/// What happened since the last step.
#[derive(Debug)]
pub enum PipelineEvent {
    /// The engine's confirmation was read after `elapsed_nanos` of waiting.
    Polled { engine_recording: bool, elapsed_nanos: u64 },
    /// The stop request ended.
    StopFinished(StopOutcome),
    /// The recording was saved at `timestamp`, its audio (if any) in `audio_file`.
    Saved { timestamp: String, audio_file: Option<String> },
    /// The history was written to storage.
    Persisted,
    /// The paste ended.
    Injected(Result<(), String>),
    /// The requested pause is over.
    Slept,
    /// The text was put on the clipboard (or that failed).
    Copied,
}

/// What the driver is to do next.
#[derive(Debug)]
pub enum PipelineEffect {
    /// Wait `millis`, then poll the engine's confirmation again.
    PollEngine { millis: u64 },
    /// Send the stop request (with `STOP_TIMEOUT_SECS` as its limit).
    SendStop,
    /// Take the time and save the audio, if any.
    SaveRecording { audio_data: Option<String> },
    /// Delete the audio files of the evicted records and save the history.
    PersistHistory { evicted: Vec<TranscriptionRecord> },
    /// Paste `text` at the cursor.
    Inject { text: String },
    /// Put `text` on the clipboard, since it could not be pasted.
    CopyToClipboard { text: String },
    /// Wait `millis`.
    Sleep { millis: u64 },
    /// Stop.
    Finish,
}

/// One step's result: the next stage, the state change to publish (if the
/// state changed), and what to do next.
#[derive(Debug)]
pub struct PipelineStep {
    pub stage: PipelineStage,
    pub change: Option<StateChange>,
    pub effect: PipelineEffect,
}

/// The step shows the error `m`: the state becomes `Error(m)`, the history is
/// untouched, and the error stays on screen for `ERROR_DISPLAY_MILLIS`.
pub open spec fn shows_error(
    changed: bool, new: AppState, h: Seq<TranscriptionRecord>, h2: Seq<TranscriptionRecord>,
    next: PipelineStage, effect: PipelineEffect, m: Seq<char>,
) -> bool {
    &&& changed
    &&& new matches AppState::Error(e) && e@ == m
    &&& h2 == h
    &&& next is ShowingError
    &&& effect == PipelineEffect::Sleep { millis: ERROR_DISPLAY_MILLIS }
}

/// The step changes nothing and continues in `next` with `effect`.
pub open spec fn quiet(
    changed: bool, old: AppState, new: AppState, h: Seq<TranscriptionRecord>, h2: Seq<TranscriptionRecord>,
) -> bool {
    !changed && new == old && h2 == h
}

/// The step returns to idle and ends the run.
pub open spec fn returns_to_idle(
    changed: bool, new: AppState, h: Seq<TranscriptionRecord>, h2: Seq<TranscriptionRecord>,
    next: PipelineStage, effect: PipelineEffect,
) -> bool {
    changed && new == AppState::Idle && h2 == h && next is Done && effect is Finish
}

/// One step of a pipeline run, from the state `old`, history `h` and `stage`,
/// on `event`, to the state `new` (published when `changed`), history `h2`,
/// stage `next` and `effect`:
/// - waiting for the engine: proceed to the stop request once it confirmed,
///   poll again every `ENGINE_POLL_MILLIS`, and show "Recording failed to
///   start" once the wait exceeded its limit;
/// - after the stop request: show its error, or save the transcript's audio;
/// - once saved: add the record to the history (whatever the state) and save
///   the history;
/// - once the history is saved: stop when the run was cancelled (the state
///   is `Idle`), otherwise enter `Injecting` and paste the polished text;
/// - a paste that worked leaves the completed state on screen for
///   `COMPLETE_PAUSE_MILLIS` and then returns to idle; when it failed (for
///   instance because no text field had focus) the text is put on the
///   clipboard and offered for copying, and the run ends;
/// - an error shown returns to idle after its pause;
/// - any other event ends the run without a change.
pub open spec fn pipeline_step_spec(
    old: AppState, h: Seq<TranscriptionRecord>, stage: PipelineStage, event: PipelineEvent,
    new: AppState, changed: bool, h2: Seq<TranscriptionRecord>, next: PipelineStage, effect: PipelineEffect,
) -> bool {
    let ends = quiet(changed, old, new, h, h2) && next is Done && effect is Finish;
    match stage {
        PipelineStage::AwaitEngine => match event {
            PipelineEvent::Polled { engine_recording, elapsed_nanos } => match engine_wait_spec(engine_recording, elapsed_nanos) {
                EngineWait::Proceed => quiet(changed, old, new, h, h2) && next is AwaitStop && effect is SendStop,
                EngineWait::KeepWaiting => quiet(changed, old, new, h, h2) && next is AwaitEngine
                    && effect == PipelineEffect::PollEngine { millis: ENGINE_POLL_MILLIS },
                EngineWait::GiveUp => shows_error(changed, new, h, h2, next, effect, "Recording failed to start"@),
            },
            _ => ends,
        },
        PipelineStage::AwaitStop => match event {
            PipelineEvent::StopFinished(outcome) => match outcome {
                StopOutcome::TimedOut => shows_error(changed, new, h, h2, next, effect, "Request timed out"@),
                StopOutcome::Failed(e) => shows_error(changed, new, h, h2, next, effect, "Pipeline failed: "@ + e@),
                StopOutcome::Replied(reply) => if text_or_empty(reply.polished_text).len() == 0 {
                    shows_error(changed, new, h, h2, next, effect, "No text transcribed"@)
                } else {
                    &&& quiet(changed, old, new, h, h2)
                    &&& next matches PipelineStage::AwaitRecording { raw_text, polished_text }
                        && raw_text@ == text_or_empty(reply.raw_text)
                        && polished_text@ == text_or_empty(reply.polished_text)
                    &&& effect == PipelineEffect::SaveRecording { audio_data: reply.audio_data }
                },
            },
            _ => ends,
        },
        PipelineStage::ShowingError => match event {
            PipelineEvent::Slept => returns_to_idle(changed, new, h, h2, next, effect),
            _ => ends,
        },
        PipelineStage::AwaitRecording { raw_text, polished_text } => match event {
            PipelineEvent::Saved { timestamp, audio_file } => {
                let record = TranscriptionRecord { raw_text, polished_text, timestamp, audio_file };
                &&& !changed && new == old
                &&& h2 == history_after_add(h, record)
                &&& next == PipelineStage::AwaitPersist { polished_text }
                &&& effect matches PipelineEffect::PersistHistory { evicted } && evicted@ == evicted_by_add(h, record)
            },
            _ => ends,
        },
        PipelineStage::AwaitPersist { polished_text } => match event {
            PipelineEvent::Persisted => if old is Idle {
                ends
            } else {
                &&& changed && new == AppState::Injecting && h2 == h
                &&& next == PipelineStage::AwaitInjection { polished_text }
                &&& effect == PipelineEffect::Inject { text: polished_text }
            },
            _ => ends,
        },
        PipelineStage::AwaitInjection { polished_text } => match event {
            PipelineEvent::Injected(result) => match result {
                Ok(()) => quiet(changed, old, new, h, h2) && next is Completing
                    && effect == PipelineEffect::Sleep { millis: COMPLETE_PAUSE_MILLIS },
                Err(_) => changed && new == AppState::CopyAvailable(polished_text) && h2 == h
                    && next is Done && effect == (PipelineEffect::CopyToClipboard { text: polished_text }),
            },
            _ => ends,
        },
        PipelineStage::Completing => match event {
            PipelineEvent::Slept => returns_to_idle(changed, new, h, h2, next, effect),
            _ => ends,
        },
        PipelineStage::Done => ends,
    }
}

/// Every error a run shows stays on screen for `ERROR_DISPLAY_MILLIS`, and the
/// step after that pause returns to idle and ends the run.
pub proof fn law_errors_return_to_idle(
    old: AppState, h: Seq<TranscriptionRecord>, stage: PipelineStage, event: PipelineEvent,
    new: AppState, changed: bool, h2: Seq<TranscriptionRecord>, next: PipelineStage, effect: PipelineEffect,
)
    requires
        pipeline_step_spec(old, h, stage, event, new, changed, h2, next, effect),
    ensures
        next is ShowingError ==> changed && new is Error && h2 == h
            && effect == (PipelineEffect::Sleep { millis: ERROR_DISPLAY_MILLIS }),
        stage is ShowingError && event is Slept ==> new == AppState::Idle && next is Done && effect is Finish,
{
}

/// A run never pastes after it was cancelled: a paste is only ever asked for
/// from a state other than `Idle`, in the `Injecting` state, with the
/// polished text.
pub proof fn law_no_injection_after_cancel(
    old: AppState, h: Seq<TranscriptionRecord>, stage: PipelineStage, event: PipelineEvent,
    new: AppState, changed: bool, h2: Seq<TranscriptionRecord>, next: PipelineStage, effect: PipelineEffect,
)
    requires
        pipeline_step_spec(old, h, stage, event, new, changed, h2, next, effect),
    ensures
        effect is Inject ==> !(old is Idle) && new == AppState::Injecting
            && (stage matches PipelineStage::AwaitPersist { polished_text } && effect == (PipelineEffect::Inject { text: polished_text })),
{
}

/// The transcript is recorded in the history before the run checks for a
/// cancellation, so a cancelled run still keeps its record; no other step
/// touches the history.
pub proof fn law_record_kept_even_if_cancelled(
    old: AppState, h: Seq<TranscriptionRecord>, stage: PipelineStage, event: PipelineEvent,
    new: AppState, changed: bool, h2: Seq<TranscriptionRecord>, next: PipelineStage, effect: PipelineEffect,
)
    requires
        pipeline_step_spec(old, h, stage, event, new, changed, h2, next, effect),
    ensures
        (stage matches PipelineStage::AwaitRecording { raw_text, polished_text }
            && event matches PipelineEvent::Saved { timestamp, audio_file })
            ==> h2 == history_after_add(h, TranscriptionRecord {
                    raw_text: stage->raw_text, polished_text: stage->AwaitRecording_polished_text,
                    timestamp: event->timestamp, audio_file: event->audio_file }),
        !(stage is AwaitRecording && event is Saved) ==> h2 == h,
{
}

/// The completed state is held on screen only after a paste that worked; a
/// run ends either back in `Idle`, with the text offered for copying, or
/// without a change.
pub proof fn law_pause_only_after_paste(
    old: AppState, h: Seq<TranscriptionRecord>, stage: PipelineStage, event: PipelineEvent,
    new: AppState, changed: bool, h2: Seq<TranscriptionRecord>, next: PipelineStage, effect: PipelineEffect,
)
    requires
        pipeline_step_spec(old, h, stage, event, new, changed, h2, next, effect),
    ensures
        next is Completing ==> stage is AwaitInjection && (event matches PipelineEvent::Injected(r) && r is Ok),
        next is Done && changed ==> new is Idle || new is CopyAvailable,
        next is Done && !changed ==> new == old,
{
}

/// A paste that failed puts exactly the polished text on the clipboard and
/// offers it for copying, so the transcript is never lost.
pub proof fn law_failed_paste_copies_text(
    old: AppState, h: Seq<TranscriptionRecord>, polished_text: String, e: String,
    new: AppState, changed: bool, h2: Seq<TranscriptionRecord>, next: PipelineStage, effect: PipelineEffect,
)
    requires
        pipeline_step_spec(old, h, PipelineStage::AwaitInjection { polished_text }, PipelineEvent::Injected(Err(e)),
            new, changed, h2, next, effect),
    ensures
        effect == (PipelineEffect::CopyToClipboard { text: polished_text }),
        new == AppState::CopyAvailable(polished_text),
        changed,
        h2 == h,
{
}

impl AppStateManager {
    /// Take one step of a pipeline run: apply `event` in `stage` to the state
    /// and history, and say what comes next.
    pub fn pipeline_step(&mut self, stage: PipelineStage, event: PipelineEvent) -> (r: PipelineStep)
        ensures
            pipeline_step_spec(old(self).state, old(self).history@, stage, event,
                final(self).state, r.change is Some, final(self).history@, r.stage, r.effect),
            r.change matches Some(ev) ==> describes(ev, final(self).state),
            final(self).engine_recording == old(self).engine_recording,
            final(self).mode == old(self).mode,
            final(self).current_shortcut == old(self).current_shortcut,
    {
        let finish = PipelineStep { stage: PipelineStage::Done, change: None, effect: PipelineEffect::Finish };
        match stage {
            PipelineStage::AwaitEngine => match event {
                PipelineEvent::Polled { engine_recording, elapsed_nanos } => match engine_wait(engine_recording, elapsed_nanos) {
                    EngineWait::Proceed => PipelineStep { stage: PipelineStage::AwaitStop, change: None, effect: PipelineEffect::SendStop },
                    EngineWait::KeepWaiting => PipelineStep {
                        stage: PipelineStage::AwaitEngine,
                        change: None,
                        effect: PipelineEffect::PollEngine { millis: ENGINE_POLL_MILLIS },
                    },
                    EngineWait::GiveUp => self.show_error(engine_start_failed()),
                },
                _ => finish,
            },
            PipelineStage::AwaitStop => match event {
                PipelineEvent::StopFinished(outcome) => match transcript_from_outcome(outcome) {
                    Err(m) => self.show_error(AppState::Error(m)),
                    Ok(t) => PipelineStep {
                        stage: PipelineStage::AwaitRecording { raw_text: t.raw_text, polished_text: t.polished_text },
                        change: None,
                        effect: PipelineEffect::SaveRecording { audio_data: t.audio_data },
                    },
                },
                _ => finish,
            },
            PipelineStage::ShowingError => match event {
                PipelineEvent::Slept => self.return_to_idle(),
                _ => finish,
            },
            PipelineStage::AwaitRecording { raw_text, polished_text } => match event {
                PipelineEvent::Saved { timestamp, audio_file } => {
                    let kept = polished_text.clone();
                    let record = TranscriptionRecord { raw_text, polished_text, timestamp, audio_file };
                    let evicted = self.add_history(record);
                    PipelineStep {
                        stage: PipelineStage::AwaitPersist { polished_text: kept },
                        change: None,
                        effect: PipelineEffect::PersistHistory { evicted },
                    }
                },
                _ => finish,
            },
            PipelineStage::AwaitPersist { polished_text } => match event {
                PipelineEvent::Persisted => match self.begin_injection() {
                    None => finish,
                    Some(ev) => {
                        let text = polished_text.clone();
                        PipelineStep {
                            stage: PipelineStage::AwaitInjection { polished_text },
                            change: Some(ev),
                            effect: PipelineEffect::Inject { text },
                        }
                    },
                },
                _ => finish,
            },
            PipelineStage::AwaitInjection { polished_text } => match event {
                PipelineEvent::Injected(result) => match result {
                    Ok(()) => PipelineStep {
                        stage: PipelineStage::Completing,
                        change: None,
                        effect: PipelineEffect::Sleep { millis: COMPLETE_PAUSE_MILLIS },
                    },
                    Err(e) => {
                        let text = polished_text.clone();
                        let ev = self.transition(after_injection(Err(e), polished_text));
                        PipelineStep {
                            stage: PipelineStage::Done,
                            change: Some(ev),
                            effect: PipelineEffect::CopyToClipboard { text },
                        }
                    },
                },
                _ => finish,
            },
            PipelineStage::Completing => match event {
                PipelineEvent::Slept => self.return_to_idle(),
                _ => finish,
            },
            PipelineStage::Done => finish,
        }
    }

    fn show_error(&mut self, error: AppState) -> (r: PipelineStep)
        requires
            error is Error,
        ensures
            final(self).state == error,
            final(self).history@ == old(self).history@,
            (r.change matches Some(ev) && describes(ev, error)),
            (r.stage is ShowingError),
            r.effect == (PipelineEffect::Sleep { millis: ERROR_DISPLAY_MILLIS }),
            final(self).engine_recording == old(self).engine_recording,
            final(self).mode == old(self).mode,
            final(self).current_shortcut == old(self).current_shortcut,
    {
        let ev = self.transition(error);
        PipelineStep { stage: PipelineStage::ShowingError, change: Some(ev), effect: PipelineEffect::Sleep { millis: ERROR_DISPLAY_MILLIS } }
    }

    fn return_to_idle(&mut self) -> (r: PipelineStep)
        ensures
            final(self).state == AppState::Idle,
            final(self).history@ == old(self).history@,
            (r.change matches Some(ev) && describes(ev, AppState::Idle)),
            (r.stage is Done),
            (r.effect is Finish),
            final(self).engine_recording == old(self).engine_recording,
            final(self).mode == old(self).mode,
            final(self).current_shortcut == old(self).current_shortcut,
    {
        let ev = self.transition(AppState::Idle);
        PipelineStep { stage: PipelineStage::Done, change: Some(ev), effect: PipelineEffect::Finish }
    }
}

} // verus!
