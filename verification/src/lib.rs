//! Verified core of a push-to-talk voice-to-text desktop assistant: the
//! recording state machine, the transcription history, hotkey parsing and
//! dispatch, and the decisions that drive the speech engine and text injection.

pub mod state;
pub mod text;
pub mod shortcut;
pub mod hotkey;
pub mod pipeline;
pub mod settings;
pub mod injection;
pub mod permissions;
pub mod sidecar;
pub mod audio;
pub mod json;
