//! Decisions behind the global hotkeys: what the main hotkey and Escape do
//! in each mode and state, the message shown when recording cannot start,
//! and the bookkeeping of changing the main shortcut.
use vstd::prelude::*;
use vstd::string::*;
use crate::state::{AppState, AppStateManager, HotkeyMode, StateChange, describes};
use crate::shortcut::{Shortcut, parse_shortcut, parse_shortcut_spec, default_shortcut, no_mods, Code, Modifiers};
use crate::text::{to_lowercase, contains_text, contains_seq, unicode_lowercase};
use crate::pipeline::ERROR_DISPLAY_MILLIS;

verus! {

/// Whether a shortcut event is a key press or a key release.
#[derive(Debug, Clone, Copy, PartialEq, Eq, Structural)]
pub enum ShortcutState {
    Pressed,
    Released,
}

/// What the main hotkey asks of the pipeline.
#[derive(Debug, Clone, Copy, PartialEq, Eq, Structural)]
pub enum HotkeyAction {
    StartRecording,
    StopRecording,
    Ignore,
}

/// The main hotkey's meaning: in toggle mode a press starts a recording when
/// idle and stops it when recording; in hold-to-record mode a press starts
/// and a release stops. Every other combination is ignored.
pub open spec fn main_hotkey_spec(mode: HotkeyMode, current: AppState, event: ShortcutState) -> HotkeyAction {
    match mode {
        HotkeyMode::Toggle => {
            if event == ShortcutState::Pressed && current is Idle {
                HotkeyAction::StartRecording
            } else if event == ShortcutState::Pressed && current is Recording {
                HotkeyAction::StopRecording
            } else {
                HotkeyAction::Ignore
            }
        },
        HotkeyMode::HoldToRecord => {
            if event == ShortcutState::Pressed && current is Idle {
                HotkeyAction::StartRecording
            } else if event == ShortcutState::Released && current is Recording {
                HotkeyAction::StopRecording
            } else {
                HotkeyAction::Ignore
            }
        },
    }
}

/// Decide what the main hotkey does, given the configured mode, the current
/// state and whether the key went down or up.
pub fn main_hotkey_action(mode: HotkeyMode, current: &AppState, event: ShortcutState) -> (r: HotkeyAction)
    ensures
        r == main_hotkey_spec(mode, *current, event),
{
    match mode {
        HotkeyMode::Toggle => {
            if event == ShortcutState::Pressed {
                match current {
                    AppState::Idle => HotkeyAction::StartRecording,
                    AppState::Recording => HotkeyAction::StopRecording,
                    _ => HotkeyAction::Ignore,
                }
            } else {
                HotkeyAction::Ignore
            }
        },
        HotkeyMode::HoldToRecord => {
            match event {
                ShortcutState::Pressed => {
                    if let AppState::Idle = current {
                        HotkeyAction::StartRecording
                    } else {
                        HotkeyAction::Ignore
                    }
                },
                ShortcutState::Released => {
                    if let AppState::Recording = current {
                        HotkeyAction::StopRecording
                    } else {
                        HotkeyAction::Ignore
                    }
                },
            }
        },
    }
}

/// The hotkey starts a recording only from `Idle` and stops one only from
/// `Recording`; in toggle mode a key release never does anything.
pub proof fn law_hotkey_acts_only_from_idle_or_recording(mode: HotkeyMode, current: AppState, event: ShortcutState)
    ensures
        main_hotkey_spec(mode, current, event) == HotkeyAction::StartRecording ==> current is Idle,
        main_hotkey_spec(mode, current, event) == HotkeyAction::StopRecording ==> current is Recording,
        mode == HotkeyMode::Toggle && event == ShortcutState::Released ==> main_hotkey_spec(mode, current, event) == HotkeyAction::Ignore,
        !(current is Idle) && !(current is Recording) ==> main_hotkey_spec(mode, current, event) == HotkeyAction::Ignore,
{
}

/// In hold-to-record mode, pressing from `Idle` starts a recording and
/// releasing then stops it.
pub proof fn law_hold_to_record_round_trip(event: ShortcutState)
    ensures
        main_hotkey_spec(HotkeyMode::HoldToRecord, AppState::Idle, ShortcutState::Pressed) == HotkeyAction::StartRecording,
        main_hotkey_spec(HotkeyMode::HoldToRecord, AppState::Recording, ShortcutState::Released) == HotkeyAction::StopRecording,
        main_hotkey_spec(HotkeyMode::Toggle, AppState::Idle, ShortcutState::Pressed) == HotkeyAction::StartRecording,
        main_hotkey_spec(HotkeyMode::Toggle, AppState::Recording, ShortcutState::Pressed) == HotkeyAction::StopRecording,
{
}

/// What the Escape key asks of the pipeline.
#[derive(Debug, Clone, Copy, PartialEq, Eq, Structural)]
pub enum EscapeAction {
    /// Return to idle and tell the engine to discard the recording.
    CancelRecording,
    /// Return to idle; the transcription in flight is ignored when it ends.
    AbandonProcessing,
    Ignore,
}

/// Escape cancels a recording, abandons processing, and is ignored otherwise.
pub open spec fn escape_spec(current: AppState) -> EscapeAction {
    match current {
        AppState::Recording => EscapeAction::CancelRecording,
        AppState::Processing => EscapeAction::AbandonProcessing,
        _ => EscapeAction::Ignore,
    }
}

/// Decide what Escape does in the current state.
pub fn escape_action(current: &AppState) -> (r: EscapeAction)
    ensures
        r == escape_spec(*current),
{
    match current {
        AppState::Recording => EscapeAction::CancelRecording,
        AppState::Processing => EscapeAction::AbandonProcessing,
        _ => EscapeAction::Ignore,
    }
}

impl AppStateManager {
    /// Begin a recording: the engine has not confirmed yet, and the state
    /// becomes `Recording`.
    pub fn start_recording(&mut self) -> (ev: StateChange)
        ensures
            final(self).state == AppState::Recording,
            !final(self).engine_recording,
            describes(ev, AppState::Recording),
            final(self).mode == old(self).mode,
            final(self).current_shortcut == old(self).current_shortcut,
            final(self).history@ == old(self).history@,
    {
        self.engine_recording = false;
        self.transition(AppState::Recording)
    }

    /// Stop recording: the state becomes `Processing` while the transcript is
    /// produced.
    pub fn stop_recording(&mut self) -> (ev: StateChange)
        ensures
            final(self).state == AppState::Processing,
            describes(ev, AppState::Processing),
            final(self).engine_recording == old(self).engine_recording,
            final(self).mode == old(self).mode,
            final(self).current_shortcut == old(self).current_shortcut,
            final(self).history@ == old(self).history@,
    {
        self.transition(AppState::Processing)
    }

    /// Handle a main-hotkey event: decide with the configured mode and
    /// current state, and apply the resulting state change.
    pub fn handle_main_hotkey(&mut self, event: ShortcutState) -> (r: (HotkeyAction, Option<StateChange>))
        ensures
            r.0 == main_hotkey_spec(old(self).mode, old(self).state, event),
            r.0 == HotkeyAction::StartRecording ==> (final(self).state == AppState::Recording
                && !final(self).engine_recording && (r.1 matches Some(ev) && describes(ev, AppState::Recording))),
            r.0 == HotkeyAction::StopRecording ==> (final(self).state == AppState::Processing
                && final(self).engine_recording == old(self).engine_recording
                && (r.1 matches Some(ev) && describes(ev, AppState::Processing))),
            r.0 == HotkeyAction::Ignore ==> final(self).state == old(self).state
                && final(self).engine_recording == old(self).engine_recording && r.1 is None,
            final(self).mode == old(self).mode,
            final(self).current_shortcut == old(self).current_shortcut,
            final(self).history@ == old(self).history@,
    {
        let action = main_hotkey_action(self.mode, &self.state, event);
        match action {
            HotkeyAction::StartRecording => {
                let ev = self.start_recording();
                (action, Some(ev))
            },
            HotkeyAction::StopRecording => {
                let ev = self.stop_recording();
                (action, Some(ev))
            },
            HotkeyAction::Ignore => (action, None),
        }
    }

    /// Handle the Escape key: cancel a recording or abandon processing by
    /// returning to `Idle`; otherwise nothing changes.
    pub fn handle_escape(&mut self) -> (r: (EscapeAction, Option<StateChange>))
        ensures
            r.0 == escape_spec(old(self).state),
            r.0 != EscapeAction::Ignore ==> (final(self).state == AppState::Idle
                && (r.1 matches Some(ev) && describes(ev, AppState::Idle))),
            r.0 == EscapeAction::Ignore ==> final(self).state == old(self).state && r.1 is None,
            final(self).engine_recording == old(self).engine_recording,
            final(self).mode == old(self).mode,
            final(self).current_shortcut == old(self).current_shortcut,
            final(self).history@ == old(self).history@,
    {
        let action = escape_action(&self.state);
        match action {
            EscapeAction::Ignore => (action, None),
            _ => {
                let ev = self.transition(AppState::Idle);
                (action, Some(ev))
            },
        }
    }
}

/// The message shown when the engine refuses to start recording: a missing
/// microphone when the error (in lowercase) mentions audio, the raw error
/// otherwise.
pub open spec fn start_failure_spec(err: Seq<char>) -> Seq<char> {
    let lower = unicode_lowercase(err);
    if contains_seq(lower, "audiodeviceerror"@) || contains_seq(lower, "no default input device"@)
        || contains_seq(lower, "audio"@) {
        "No microphone found"@
    } else {
        "Failed to start recording: "@ + err
    }
}

/// The error message for a failed start of recording.
pub fn start_failure_message(err: &str) -> (r: String)
    ensures
        r@ == start_failure_spec(err@),
{
    let lower = to_lowercase(err);
    if contains_text(lower.as_str(), "audiodeviceerror") || contains_text(lower.as_str(), "no default input device")
        || contains_text(lower.as_str(), "audio") {
        String::from_str("No microphone found")
    } else {
        let mut msg = String::from_str("Failed to start recording: ");
        msg.append(err);
        msg
    }
}

/// What happened to a recording that the hotkey started.
#[derive(Debug)]
pub enum StartEvent {
    /// The engine answered the start request.
    EngineAnswered(Result<(), String>),
    /// The start error has been on screen for `ERROR_DISPLAY_MILLIS`.
    ErrorShown,
}

/// What to do after a start step.
#[derive(Debug, Clone, Copy, PartialEq, Eq, Structural)]
pub enum StartEffect {
    /// Nothing more.
    Done,
    /// Wait `millis`, then report `StartEvent::ErrorShown`.
    Sleep { millis: u64 },
}

impl AppStateManager {
    /// Follow up a recording that the hotkey started: a confirmed start marks
    /// the engine as recording; a refused one shows the start error for
    /// `ERROR_DISPLAY_MILLIS` and then returns to idle.
    pub fn recording_start_step(&mut self, event: StartEvent) -> (r: (Option<StateChange>, StartEffect))
        ensures
            event matches StartEvent::EngineAnswered(Ok(())) ==> (final(self).engine_recording
                && final(self).state == old(self).state && r.0 is None && r.1 == StartEffect::Done),
            event matches StartEvent::EngineAnswered(Err(e)) ==> (final(self).engine_recording == old(self).engine_recording
                && (final(self).state matches AppState::Error(m) && m@ == start_failure_spec(e@))
                && (r.0 matches Some(ev) && describes(ev, final(self).state))
                && r.1 == (StartEffect::Sleep { millis: ERROR_DISPLAY_MILLIS })),
            (event is ErrorShown) ==> (final(self).engine_recording == old(self).engine_recording
                && final(self).state == AppState::Idle
                && (r.0 matches Some(ev) && describes(ev, AppState::Idle)) && r.1 == StartEffect::Done),
            final(self).mode == old(self).mode,
            final(self).current_shortcut == old(self).current_shortcut,
            final(self).history@ == old(self).history@,
    {
        match event {
            StartEvent::EngineAnswered(Ok(())) => {
                self.engine_recording = true;
                (None, StartEffect::Done)
            },
            StartEvent::EngineAnswered(Err(e)) => {
                let msg = start_failure_message(e.as_str());
                let ev = self.transition(AppState::Error(msg));
                (Some(ev), StartEffect::Sleep { millis: ERROR_DISPLAY_MILLIS })
            },
            StartEvent::ErrorShown => {
                let ev = self.transition(AppState::Idle);
                (Some(ev), StartEffect::Done)
            },
        }
    }
}

/// How the main shortcut is to change.
#[derive(Debug)]
pub enum HotkeyUpdate {
    /// The requested shortcut is the one already registered.
    Unchanged,
    /// Unregister `previous` (if any) and register `next`.
    Replace { previous: Option<Shortcut>, next: Shortcut },
}

impl AppStateManager {
    /// Start changing the main shortcut to the one `requested` names. An
    /// unparsable request is refused and changes nothing; a request for the
    /// shortcut already registered changes nothing; otherwise the old shortcut
    /// is taken out for unregistering.
    pub fn begin_hotkey_update(&mut self, requested: &str) -> (r: Result<HotkeyUpdate, String>)
        ensures
            parse_shortcut_spec(requested@) matches Err(e) ==> ((r matches Err(m) && m@ == e)
                && final(self).current_shortcut == old(self).current_shortcut),
            parse_shortcut_spec(requested@) matches Ok(sc) ==> {
                if old(self).current_shortcut == Some(sc) {
                    (r matches Ok(HotkeyUpdate::Unchanged)) && final(self).current_shortcut == old(self).current_shortcut
                } else {
                    (r matches Ok(HotkeyUpdate::Replace { previous, next }) && previous == old(self).current_shortcut
                        && next == sc) && final(self).current_shortcut is None
                }
            },
            final(self).state == old(self).state,
            final(self).engine_recording == old(self).engine_recording,
            final(self).mode == old(self).mode,
            final(self).history@ == old(self).history@,
    {
        let new_shortcut = match parse_shortcut(requested) {
            Ok(sc) => sc,
            Err(e) => {
                return Err(e);
            },
        };
        let same = match self.current_shortcut {
            Some(c) => c == new_shortcut,
            None => false,
        };
        if same {
            return Ok(HotkeyUpdate::Unchanged);
        }
        let previous = self.current_shortcut;
        self.current_shortcut = None;
        Ok(HotkeyUpdate::Replace { previous, next: new_shortcut })
    }

    /// Finish changing the main shortcut: when registering `new` succeeded it
    /// becomes current; when it failed the default shortcut is registered in
    /// its place and the error names the requested shortcut.
    pub fn finish_hotkey_update(&mut self, new: Shortcut, requested: &str, registration: Result<(), String>) -> (r: Result<(), String>)
        ensures
            registration is Ok ==> r is Ok && final(self).current_shortcut == Some(new),
            registration matches Err(e) ==> (final(self).current_shortcut
                == Some(Shortcut { mods: Modifiers { control: true, alt: true, ..no_mods() }, key: Code::Space })
                && (r matches Err(m) && m@ == "Failed to register hotkey '"@ + requested@ + "': "@ + e@)),
            final(self).state == old(self).state,
            final(self).engine_recording == old(self).engine_recording,
            final(self).mode == old(self).mode,
            final(self).history@ == old(self).history@,
    {
        match registration {
            Ok(()) => {
                self.current_shortcut = Some(new);
                Ok(())
            },
            Err(e) => {
                self.current_shortcut = Some(default_shortcut());
                let mut msg = String::from_str("Failed to register hotkey '");
                msg.append(requested);
                msg.append("': ");
                msg.append(e.as_str());
                Err(msg)
            },
        }
    }
}

} // verus!
