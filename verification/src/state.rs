use vstd::prelude::*;
use crate::shortcut::Shortcut;

verus! {

/// Application state machine: the current phase of the voice-to-text pipeline.
#[derive(Debug, PartialEq)]
pub enum AppState {
    Idle,
    Recording,
    Processing,
    Injecting,
    /// Injection failed; the text is available for manual copy.
    CopyAvailable(String),
    Error(String),
}

/// The lowercase identifier of a state, as sent to the frontend.
pub open spec fn state_name(s: AppState) -> Seq<char> {
    match s {
        AppState::Idle => "idle"@,
        AppState::Recording => "recording"@,
        AppState::Processing => "processing"@,
        AppState::Injecting => "injecting"@,
        AppState::CopyAvailable(_) => "copy_available"@,
        AppState::Error(_) => "error"@,
    }
}

/// The message payload carried by a state: the error text or the text to copy.
pub open spec fn state_message(s: AppState) -> Option<Seq<char>> {
    match s {
        AppState::Error(m) => Some(m@),
        AppState::CopyAvailable(t) => Some(t@),
        _ => None,
    }
}

impl AppState {
    /// Returns the state as a lowercase string identifier for frontend events.
    pub fn as_str(&self) -> (r: &'static str)
        ensures
            r@ == state_name(*self),
    {
        match self {
            AppState::Idle => "idle",
            AppState::Recording => "recording",
            AppState::Processing => "processing",
            AppState::Injecting => "injecting",
            AppState::CopyAvailable(_) => "copy_available",
            AppState::Error(_) => "error",
        }
    }

    /// Returns the optional message payload (error message or copy text).
    pub fn message(&self) -> (r: Option<String>)
        ensures
            r matches Some(m) ==> state_message(*self) == Some(m@),
            r is None ==> state_message(*self) is None,
    {
        match self {
            AppState::Error(msg) => Some(msg.clone()),
            AppState::CopyAvailable(text) => Some(text.clone()),
            _ => None,
        }
    }
}

impl Clone for AppState {
    fn clone(&self) -> (r: Self)
        ensures
            r == *self,
    {
        match self {
            AppState::Idle => AppState::Idle,
            AppState::Recording => AppState::Recording,
            AppState::Processing => AppState::Processing,
            AppState::Injecting => AppState::Injecting,
            AppState::CopyAvailable(t) => AppState::CopyAvailable(t.clone()),
            AppState::Error(m) => AppState::Error(m.clone()),
        }
    }
}

/// An optional string taken by its characters.
pub open spec fn opt_view(o: Option<String>) -> Option<Seq<char>> {
    match o {
        Some(s) => Some(s@),
        None => None,
    }
}

/// A single transcription history record.
#[derive(Debug)]
pub struct TranscriptionRecord {
    pub raw_text: String,
    pub polished_text: String,
    pub timestamp: String,
    pub audio_file: Option<String>,
}

impl Clone for TranscriptionRecord {
    fn clone(&self) -> (r: Self)
        ensures
            r == *self,
    {
        TranscriptionRecord {
            raw_text: self.raw_text.clone(),
            polished_text: self.polished_text.clone(),
            timestamp: self.timestamp.clone(),
            audio_file: match &self.audio_file {
                Some(f) => Some(f.clone()),
                None => None,
            },
        }
    }
}

/// Hotkey interaction mode.
#[derive(Debug, Clone, Copy, PartialEq, Eq, Structural)]
pub enum HotkeyMode {
    /// Press to start recording, press again to stop.
    Toggle,
    /// Hold key to record, release to stop.
    HoldToRecord,
}

/// The most records the history keeps; older ones are evicted first.
pub const HISTORY_CAPACITY: usize = 50;

/// How many of the oldest records are evicted when `n` records are held.
pub open spec fn evicted_count(n: nat) -> nat {
    if n > HISTORY_CAPACITY { (n - HISTORY_CAPACITY) as nat } else { 0 }
}

/// The history after adding `r` to `h`: the newest records, at most
/// `HISTORY_CAPACITY` of them, oldest first.
pub open spec fn history_after_add(h: Seq<TranscriptionRecord>, r: TranscriptionRecord) -> Seq<TranscriptionRecord> {
    h.push(r).skip(evicted_count(h.len() + 1) as int)
}

/// The records that adding `r` to `h` evicts, oldest first.
pub open spec fn evicted_by_add(h: Seq<TranscriptionRecord>, r: TranscriptionRecord) -> Seq<TranscriptionRecord> {
    h.push(r).take(evicted_count(h.len() + 1) as int)
}

/// Adding a record never leaves more than `HISTORY_CAPACITY` records, and the
/// record just added is always the newest one kept.
pub proof fn law_history_bounded(h: Seq<TranscriptionRecord>, r: TranscriptionRecord)
    ensures
        history_after_add(h, r).len() <= HISTORY_CAPACITY,
        history_after_add(h, r).len() > 0,
        history_after_add(h, r).last() == r,
{
}

/// Nothing is lost or reordered by an addition: the evicted records followed
/// by the kept ones are the old history followed by the new record; below
/// capacity nothing is evicted.
pub proof fn law_history_eviction_is_oldest_first(h: Seq<TranscriptionRecord>, r: TranscriptionRecord)
    ensures
        evicted_by_add(h, r) + history_after_add(h, r) == h.push(r),
        h.len() < HISTORY_CAPACITY ==> history_after_add(h, r) == h.push(r) && evicted_by_add(h, r).len() == 0,
        h.len() == HISTORY_CAPACITY ==> evicted_by_add(h, r) == seq![h[0]],
{
    assert(evicted_by_add(h, r) + history_after_add(h, r) =~= h.push(r));
    if h.len() < HISTORY_CAPACITY {
        assert(history_after_add(h, r) =~= h.push(r));
    }
    if h.len() == HISTORY_CAPACITY {
        assert(evicted_by_add(h, r) =~= seq![h[0]]);
    }
}

/// What the frontend is told after a state change, and whether the floating
/// status window is shown (every state but `Idle`) or hidden.
#[derive(Debug)]
pub struct StateChange {
    pub state: &'static str,
    pub message: Option<String>,
    pub show_float: bool,
}

/// The change event describes `s`: its name, its message, and whether the
/// floating window is shown.
pub open spec fn describes(ev: StateChange, s: AppState) -> bool {
    &&& ev.state@ == state_name(s)
    &&& opt_view(ev.message) == state_message(s)
    &&& ev.show_float == !(s is Idle)
}

/// The application's mutable state: pipeline phase, hotkey mode, the
/// registered main shortcut, the transcription history and whether the speech
/// engine has confirmed that it is recording.
pub struct AppStateManager {
    pub state: AppState,
    pub mode: HotkeyMode,
    pub current_shortcut: Option<Shortcut>,
    pub history: Vec<TranscriptionRecord>,
    /// `true` once the engine has confirmed the start of a recording.
    pub engine_recording: bool,
}

impl AppStateManager {
    pub fn new() -> (r: Self)
        ensures
            r.state == AppState::Idle,
            r.mode == HotkeyMode::Toggle,
            r.current_shortcut is None,
            r.history@ == Seq::<TranscriptionRecord>::empty(),
            !r.engine_recording,
    {
        AppStateManager {
            state: AppState::Idle,
            mode: HotkeyMode::Toggle,
            current_shortcut: None,
            history: Vec::new(),
            engine_recording: false,
        }
    }

    /// Get a clone of the current state.
    pub fn get(&self) -> (r: AppState)
        ensures
            r == self.state,
    {
        self.state.clone()
    }

    /// Whether the pipeline is idle (nothing recording or in flight).
    pub fn is_idle(&self) -> (r: bool)
        ensures
            r == (self.state is Idle),
    {
        match self.state {
            AppState::Idle => true,
            _ => false,
        }
    }

    /// Add a transcription record to history, evicting the oldest records
    /// beyond the capacity; the evicted records are returned, oldest first,
    /// so that their audio files can be deleted.
    pub fn add_history(&mut self, record: TranscriptionRecord) -> (evicted: Vec<TranscriptionRecord>)
        ensures
            final(self).history@ == history_after_add(old(self).history@, record),
            evicted@ == evicted_by_add(old(self).history@, record),
            final(self).state == old(self).state,
            final(self).mode == old(self).mode,
            final(self).current_shortcut == old(self).current_shortcut,
            final(self).engine_recording == old(self).engine_recording,
    {
        let ghost full = self.history@.push(record);
        self.history.push(record);
        let mut evicted: Vec<TranscriptionRecord> = Vec::new();
        let ghost mut k: int = 0;
        assert(full.skip(0) == full);
        while self.history.len() > HISTORY_CAPACITY
            invariant
                0 <= k <= full.len(),
                self.history@ == full.skip(k),
                evicted@ == full.take(k),
                k <= evicted_count(full.len()),
                self.state == old(self).state,
                self.mode == old(self).mode,
                self.current_shortcut == old(self).current_shortcut,
                self.engine_recording == old(self).engine_recording,
            decreases self.history.len(),
        {
            let e = self.history.remove(0);
            evicted.push(e);
            proof {
                assert(full.take(k + 1) == full.take(k).push(full[k]));
                assert(full.skip(k).remove(0) == full.skip(k + 1));
                k = k + 1;
            }
        }
        evicted
    }

    /// Get all history records, oldest first.
    pub fn get_history(&self) -> (r: Vec<TranscriptionRecord>)
        ensures
            r@ == self.history@,
    {
        let r = self.history.clone();
        assert(r@ =~= self.history@);
        r
    }

    /// Remove all history records and return them, so that their audio files
    /// can be deleted.
    pub fn clear_history(&mut self) -> (removed: Vec<TranscriptionRecord>)
        ensures
            removed@ == old(self).history@,
            final(self).history@ == Seq::<TranscriptionRecord>::empty(),
            final(self).state == old(self).state,
            final(self).mode == old(self).mode,
            final(self).current_shortcut == old(self).current_shortcut,
            final(self).engine_recording == old(self).engine_recording,
    {
        let mut removed: Vec<TranscriptionRecord> = Vec::new();
        std::mem::swap(&mut removed, &mut self.history);
        removed
    }

    /// Replace the history with records loaded from storage.
    pub fn replace_history(&mut self, records: Vec<TranscriptionRecord>)
        ensures
            final(self).history@ == records@,
            final(self).state == old(self).state,
            final(self).mode == old(self).mode,
            final(self).current_shortcut == old(self).current_shortcut,
            final(self).engine_recording == old(self).engine_recording,
    {
        self.history = records;
    }

    /// Transition to a new state; the returned change is what the frontend is
    /// told and whether the floating window is shown.
    pub fn transition(&mut self, new_state: AppState) -> (ev: StateChange)
        ensures
            final(self).state == new_state,
            describes(ev, new_state),
            final(self).mode == old(self).mode,
            final(self).current_shortcut == old(self).current_shortcut,
            final(self).history@ == old(self).history@,
            final(self).engine_recording == old(self).engine_recording,
    {
        let state = new_state.as_str();
        let message = new_state.message();
        let show_float = match new_state {
            AppState::Idle => false,
            _ => true,
        };
        self.state = new_state;
        StateChange { state, message, show_float }
    }
}

} // verus!
