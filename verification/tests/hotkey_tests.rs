use aurotype::hotkey::{
    StartEffect, StartEvent, escape_action, main_hotkey_action, start_failure_message, EscapeAction, HotkeyAction, HotkeyUpdate,
    ShortcutState,
};
use aurotype::shortcut::{
    default_shortcut, escape_shortcut, key_from_word, modifier_from_word, parse_shortcut, Code, Modifiers,
    Shortcut,
};
use aurotype::state::{AppState, AppStateManager, HotkeyMode};

#[test]
fn parse_ctrl_alt_space() {
    let shortcut = parse_shortcut("Ctrl+Alt+Space").unwrap();
    assert_eq!(shortcut.mods, Modifiers::control().union(Modifiers::alt()));
    assert_eq!(shortcut.key, Code::Space);
}

#[test]
fn parse_ctrl_shift_space() {
    let shortcut = parse_shortcut("Ctrl+Shift+Space").unwrap();
    assert_eq!(shortcut.mods, Modifiers::control().union(Modifiers::shift()));
    assert_eq!(shortcut.key, Code::Space);
}

#[test]
fn parse_cmdorctrl_shift_a() {
    let shortcut = parse_shortcut("CmdOrCtrl+Shift+A").unwrap();
    assert_eq!(shortcut.mods, Modifiers::super_key().union(Modifiers::shift()));
    assert_eq!(shortcut.key, Code::KeyA);
}

#[test]
fn parse_cmdorctrl_shift_r() {
    let shortcut = parse_shortcut("CmdOrCtrl+Shift+R").unwrap();
    assert_eq!(shortcut.mods, Modifiers::super_key().union(Modifiers::shift()));
    assert_eq!(shortcut.key, Code::KeyR);
}

#[test]
fn parse_cmdorctrl_shift_v() {
    let shortcut = parse_shortcut("CmdOrCtrl+Shift+V").unwrap();
    assert_eq!(shortcut.mods, Modifiers::super_key().union(Modifiers::shift()));
    assert_eq!(shortcut.key, Code::KeyV);
}

#[test]
fn parse_cmdorctrl_space() {
    let shortcut = parse_shortcut("CmdOrCtrl+Space").unwrap();
    assert_eq!(shortcut.mods, Modifiers::super_key());
    assert_eq!(shortcut.key, Code::Space);
}

#[test]
fn parse_f9() {
    let shortcut = parse_shortcut("F9").unwrap();
    assert_eq!(shortcut.mods, Modifiers::empty());
    assert_eq!(shortcut.key, Code::F9);
}

#[test]
fn parse_f10() {
    let shortcut = parse_shortcut("F10").unwrap();
    assert_eq!(shortcut.mods, Modifiers::empty());
    assert_eq!(shortcut.key, Code::F10);
}

#[test]
fn parse_empty_string_is_err() {
    let result = parse_shortcut("");
    assert!(result.is_err());
}

#[test]
fn parse_unknown_modifier_is_err() {
    let result = parse_shortcut("UnknownMod+Space");
    assert!(result.is_err());
    assert!(result.unwrap_err().contains("Unknown modifier"));
}

#[test]
fn parse_unknown_key_is_err() {
    let result = parse_shortcut("Ctrl+UnknownKey");
    assert!(result.is_err());
    assert!(result.unwrap_err().contains("Unknown key"));
}

// --- the library's own cases ---

#[test]
fn parse_trims_and_ignores_case() {
    let shortcut = parse_shortcut("  control +  SHIFT+ z ").unwrap();
    assert_eq!(shortcut.mods, Modifiers::control().union(Modifiers::shift()));
    assert_eq!(shortcut.key, Code::KeyZ);
}

#[test]
fn parse_error_messages_are_lowercase_words() {
    assert_eq!(parse_shortcut("Hyper+A").unwrap_err(), "Unknown modifier: hyper");
    assert_eq!(parse_shortcut("Alt+Enter").unwrap_err(), "Unknown key: enter");
    assert_eq!(parse_shortcut("").unwrap_err(), "Unknown key: ");
    assert_eq!(parse_shortcut("Ctrl+").unwrap_err(), "Unknown key: ");
    // The first unknown modifier is reported, before the key is looked at.
    assert_eq!(parse_shortcut("Foo+Bar+Nope").unwrap_err(), "Unknown modifier: foo");
}

#[test]
fn parse_repeated_modifier_is_idempotent() {
    let shortcut = parse_shortcut("Meta+Cmd+F12").unwrap();
    assert_eq!(shortcut.mods, Modifiers::super_key());
    assert_eq!(shortcut.key, Code::F12);
}

#[test]
fn parse_uses_unicode_lowercase() {
    // U+212A KELVIN SIGN lowercases to an ASCII 'k'.
    let shortcut = parse_shortcut("Alt+\u{212A}").unwrap();
    assert_eq!(shortcut.key, Code::KeyK);
}

#[test]
fn word_tables() {
    assert_eq!(modifier_from_word("cmdorctrl"), Some(Modifiers::super_key()));
    assert_eq!(modifier_from_word("Ctrl"), None);
    assert_eq!(key_from_word("f11"), Some(Code::F11));
    assert_eq!(key_from_word("escape"), None);
}

#[test]
fn default_and_escape_shortcuts() {
    assert_eq!(default_shortcut(), Shortcut::new(Some(Modifiers::control().union(Modifiers::alt())), Code::Space));
    assert_eq!(parse_shortcut("Ctrl+Alt+Space").unwrap(), default_shortcut());
    assert_eq!(escape_shortcut().key, Code::Escape);
    assert!(escape_shortcut().mods.is_empty());
}

#[test]
fn toggle_mode_hotkey() {
    let m = HotkeyMode::Toggle;
    assert_eq!(main_hotkey_action(m, &AppState::Idle, ShortcutState::Pressed), HotkeyAction::StartRecording);
    assert_eq!(main_hotkey_action(m, &AppState::Recording, ShortcutState::Pressed), HotkeyAction::StopRecording);
    assert_eq!(main_hotkey_action(m, &AppState::Recording, ShortcutState::Released), HotkeyAction::Ignore);
    assert_eq!(main_hotkey_action(m, &AppState::Processing, ShortcutState::Pressed), HotkeyAction::Ignore);
}

#[test]
fn hold_mode_hotkey() {
    let m = HotkeyMode::HoldToRecord;
    assert_eq!(main_hotkey_action(m, &AppState::Idle, ShortcutState::Pressed), HotkeyAction::StartRecording);
    assert_eq!(main_hotkey_action(m, &AppState::Recording, ShortcutState::Pressed), HotkeyAction::Ignore);
    assert_eq!(main_hotkey_action(m, &AppState::Recording, ShortcutState::Released), HotkeyAction::StopRecording);
    assert_eq!(main_hotkey_action(m, &AppState::Idle, ShortcutState::Released), HotkeyAction::Ignore);
}

#[test]
fn manager_hotkey_round_trip() {
    let mut mgr = AppStateManager::new();
    mgr.engine_recording = true;
    let (action, ev) = mgr.handle_main_hotkey(ShortcutState::Pressed);
    assert_eq!(action, HotkeyAction::StartRecording);
    assert_eq!(ev.unwrap().state, "recording");
    assert!(!mgr.engine_recording);
    let (action, ev) = mgr.handle_main_hotkey(ShortcutState::Released);
    assert_eq!(action, HotkeyAction::Ignore);
    assert!(ev.is_none());
    let (action, _) = mgr.handle_main_hotkey(ShortcutState::Pressed);
    assert_eq!(action, HotkeyAction::StopRecording);
    assert_eq!(mgr.get(), AppState::Processing);
}

#[test]
fn escape_behaviour() {
    assert_eq!(escape_action(&AppState::Recording), EscapeAction::CancelRecording);
    assert_eq!(escape_action(&AppState::Processing), EscapeAction::AbandonProcessing);
    assert_eq!(escape_action(&AppState::Injecting), EscapeAction::Ignore);
    let mut mgr = AppStateManager::new();
    mgr.state = AppState::Processing;
    let (action, ev) = mgr.handle_escape();
    assert_eq!(action, EscapeAction::AbandonProcessing);
    assert_eq!(ev.unwrap().state, "idle");
    assert_eq!(mgr.get(), AppState::Idle);
    mgr.state = AppState::CopyAvailable("x".to_string());
    let (action, ev) = mgr.handle_escape();
    assert_eq!(action, EscapeAction::Ignore);
    assert!(ev.is_none());
}

#[test]
fn start_failure_messages() {
    assert_eq!(start_failure_message("AudioDeviceError: boom"), "No microphone found");
    assert_eq!(start_failure_message("No Default Input Device"), "No microphone found");
    assert_eq!(start_failure_message("sidecar port not initialized"), "Failed to start recording: sidecar port not initialized");
}

#[test]
fn hotkey_update_bookkeeping() {
    let mut mgr = AppStateManager::new();
    mgr.current_shortcut = Some(default_shortcut());
    match mgr.begin_hotkey_update("ctrl + alt + SPACE").unwrap() {
        HotkeyUpdate::Unchanged => {}
        other => panic!("unexpected {other:?}"),
    }
    assert_eq!(mgr.current_shortcut, Some(default_shortcut()));
    assert_eq!(mgr.begin_hotkey_update("Ctrl+Nope").unwrap_err(), "Unknown key: nope");
    assert_eq!(mgr.current_shortcut, Some(default_shortcut()));
    let next = match mgr.begin_hotkey_update("F9").unwrap() {
        HotkeyUpdate::Replace { previous, next } => {
            assert_eq!(previous, Some(default_shortcut()));
            next
        }
        other => panic!("unexpected {other:?}"),
    };
    assert!(mgr.current_shortcut.is_none());
    assert!(mgr.finish_hotkey_update(next, "F9", Ok(())).is_ok());
    assert_eq!(mgr.current_shortcut, Some(Shortcut::new(None, Code::F9)));
    let err = mgr.finish_hotkey_update(next, "F9", Err("taken".to_string())).unwrap_err();
    assert_eq!(err, "Failed to register hotkey 'F9': taken");
    assert_eq!(mgr.current_shortcut, Some(default_shortcut()));
}

#[test]
fn parse_ignores_modifier_order_and_repeats() {
    assert_eq!(parse_shortcut("Shift+Ctrl+Ctrl+A").unwrap(), parse_shortcut("ctrl+shift+a").unwrap());
    assert_eq!(parse_shortcut("Cmd+Alt+Meta+F1").unwrap(), parse_shortcut("Alt+Super+F1").unwrap());
}

#[test]
fn recording_start_outcomes() {
    let mut mgr = AppStateManager::new();
    let _ = mgr.start_recording();
    let (change, effect) = mgr.recording_start_step(StartEvent::EngineAnswered(Ok(())));
    assert!(change.is_none());
    assert_eq!(effect, StartEffect::Done);
    assert!(mgr.engine_recording);
    assert_eq!(mgr.get(), AppState::Recording);

    let mut mgr = AppStateManager::new();
    let _ = mgr.start_recording();
    let (change, effect) =
        mgr.recording_start_step(StartEvent::EngineAnswered(Err("AudioDeviceError: none".to_string())));
    assert_eq!(change.unwrap().message, Some("No microphone found".to_string()));
    assert_eq!(effect, StartEffect::Sleep { millis: 3000 });
    assert!(!mgr.engine_recording);
    let (change, effect) = mgr.recording_start_step(StartEvent::ErrorShown);
    assert_eq!(change.unwrap().state, "idle");
    assert_eq!(effect, StartEffect::Done);
    assert_eq!(mgr.get(), AppState::Idle);
}
