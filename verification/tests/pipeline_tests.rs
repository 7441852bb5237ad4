use aurotype::audio::{audio_data_url, audio_file_name, decode_audio};
use aurotype::injection::{
    capture_foreground_window, check_accessibility, check_text_focus, evaluate_focus, has_text_focus, is_hit,
    is_terminal_window, refocus_captured_window, CapturedState, ElementInfo, FocusCheck,
};
use aurotype::permissions::{is_accessibility_granted, microphone_access, MicrophoneAccess};
use aurotype::pipeline::{
    after_injection, check_can_start_recording, check_can_stop_recording, engine_start_failed, engine_wait,
    transcript_from_outcome, EngineReply, EngineWait, StopOutcome, parse_reply, PipelineEffect, PipelineEvent,
    PipelineStage, PipelineStep,
};
use aurotype::settings::{configure_request, hotkey_mode_setting, hotkey_setting, SettingsConfig};
use aurotype::sidecar::{get_sidecar_port, handshake_port, handshake_port_from_line, health_check_step, sidecar_url, HealthStep};
use aurotype::state::{AppState, AppStateManager, HotkeyMode};
use aurotype::text::{contains_text, split_text, trim_text};

fn reply(raw: Option<&str>, polished: Option<&str>, audio: Option<&str>) -> EngineReply {
    EngineReply {
        raw_text: raw.map(str::to_string),
        polished_text: polished.map(str::to_string),
        audio_data: audio.map(str::to_string),
    }
}

#[test]
fn stop_outcomes() {
    assert_eq!(transcript_from_outcome(StopOutcome::TimedOut).unwrap_err(), "Request timed out");
    assert_eq!(
        transcript_from_outcome(StopOutcome::Failed("503".to_string())).unwrap_err(),
        "Pipeline failed: 503"
    );
    assert_eq!(
        transcript_from_outcome(StopOutcome::Replied(reply(Some("uh hi"), Some(""), None))).unwrap_err(),
        "No text transcribed"
    );
    assert_eq!(
        transcript_from_outcome(StopOutcome::Replied(reply(None, None, None))).unwrap_err(),
        "No text transcribed"
    );
    let t = transcript_from_outcome(StopOutcome::Replied(reply(None, Some("Hi."), Some("AAAA")))).unwrap();
    assert_eq!(t.raw_text, "");
    assert_eq!(t.polished_text, "Hi.");
    assert_eq!(t.audio_data, Some("AAAA".to_string()));
}

#[test]
fn engine_wait_gate() {
    assert_eq!(engine_wait(true, 10_000_000_000), EngineWait::Proceed);
    assert_eq!(engine_wait(false, 5_000_000_000), EngineWait::KeepWaiting);
    assert_eq!(engine_wait(false, 5_000_000_001), EngineWait::GiveUp);
    assert_eq!(engine_start_failed(), AppState::Error("Recording failed to start".to_string()));
}

#[test]
fn injection_steps() {
    let mut mgr = AppStateManager::new();
    assert!(mgr.begin_injection().is_none());
    assert_eq!(mgr.get(), AppState::Idle);
    mgr.state = AppState::Processing;
    assert_eq!(mgr.begin_injection().unwrap().state, "injecting");
    assert_eq!(mgr.cancel().unwrap_err(), "Cannot cancel during text injection");
    assert_eq!(after_injection(Ok(()), "x".to_string()), AppState::Idle);
    assert_eq!(
        after_injection(Err("no clipboard".to_string()), "x".to_string()),
        AppState::CopyAvailable("x".to_string())
    );
}

#[test]
fn cancel_command() {
    let mut mgr = AppStateManager::new();
    assert!(mgr.cancel().unwrap().is_none());
    for s in [AppState::Recording, AppState::Processing, AppState::Error("e".to_string()), AppState::CopyAvailable("c".to_string())] {
        mgr.state = s;
        assert_eq!(mgr.cancel().unwrap().unwrap().state, "idle");
        assert_eq!(mgr.get(), AppState::Idle);
    }
}

#[test]
fn command_state_checks() {
    assert!(check_can_start_recording(&AppState::Idle).is_ok());
    assert_eq!(
        check_can_start_recording(&AppState::Processing).unwrap_err(),
        "Cannot start recording from state: processing"
    );
    assert!(check_can_stop_recording(&AppState::Recording).is_ok());
    assert_eq!(
        check_can_stop_recording(&AppState::CopyAvailable("t".to_string())).unwrap_err(),
        "Cannot stop recording from state: copy_available"
    );
}

fn settings() -> SettingsConfig {
    SettingsConfig {
        stt_provider: None,
        stt_api_key: None,
        llm_provider: None,
        llm_api_key: None,
        language: None,
        llm_base_url: None,
        llm_model: None,
        stt_model: None,
        system_prompt: None,
        hotkey_mode: None,
        hotkey: None,
    }
}

#[test]
fn configure_defaults() {
    let r = configure_request(&settings());
    assert_eq!(r.stt_provider, "aliyun_dashscope");
    assert_eq!(r.llm_provider, "deepseek");
    assert_eq!(r.language, "auto");
    assert_eq!(r.aliyun_dashscope_api_key, None);
    assert_eq!(r.deepseek_api_key, None);
    assert_eq!(r.openai_api_key, None);
    assert_eq!(r.stt_model, None);
    assert_eq!(hotkey_mode_setting(&settings()), HotkeyMode::Toggle);
    assert_eq!(hotkey_setting(&settings()), None);
}

#[test]
fn configure_keys_follow_providers() {
    let mut c = settings();
    c.stt_api_key = Some("stt-key".to_string());
    c.llm_provider = Some("openai".to_string());
    c.llm_api_key = Some("llm-key".to_string());
    c.llm_model = Some("".to_string());
    c.system_prompt = Some("Be brief.".to_string());
    c.hotkey_mode = Some("toggle".to_string());
    c.hotkey = Some("Alt+Space".to_string());
    let r = configure_request(&c);
    assert_eq!(r.aliyun_dashscope_api_key, Some("stt-key".to_string()));
    assert_eq!(r.openai_api_key, Some("llm-key".to_string()));
    assert_eq!(r.deepseek_api_key, None);
    assert_eq!(r.llm_model, None);
    assert_eq!(r.system_prompt, Some("Be brief.".to_string()));
    assert_eq!(hotkey_mode_setting(&c), HotkeyMode::Toggle);
    assert_eq!(hotkey_setting(&c), None);
    c.stt_provider = Some("other".to_string());
    c.llm_provider = Some("ollama".to_string());
    c.hotkey = Some("F10".to_string());
    let r = configure_request(&c);
    assert_eq!(r.aliyun_dashscope_api_key, None);
    assert_eq!(r.openai_api_key, None);
    assert_eq!(r.deepseek_api_key, None);
    assert_eq!(r.llm_provider, "ollama");
    assert_eq!(hotkey_setting(&c), Some("F10".to_string()));
}

#[test]
fn sidecar_addressing() {
    assert_eq!(sidecar_url(8765, "/record/start"), "http://127.0.0.1:8765/record/start");
    assert_eq!(sidecar_url(0, "/health"), "http://127.0.0.1:0/health");
    assert_eq!(sidecar_url(65535, ""), "http://127.0.0.1:65535");
    assert_eq!(get_sidecar_port(Some(9)), Ok(9));
    assert_eq!(get_sidecar_port(None), Err("sidecar port not initialized".to_string()));
    assert_eq!(handshake_port(Some(65535)), Some(65535));
    assert_eq!(handshake_port(Some(65536)), None);
    assert_eq!(handshake_port(None), None);
}

#[test]
fn health_checks_respawn_on_third_failure() {
    let mut failures = 0u8;
    let mut respawns = Vec::new();
    for healthy in [false, false, true, false, false, false, false] {
        let step = health_check_step(failures, healthy);
        if let Some(n) = step.respawn {
            respawns.push(n);
        }
        failures = step.failures;
    }
    assert_eq!(respawns, vec![3]);
    assert_eq!(failures, 1);
    assert_eq!(health_check_step(255, false), HealthStep { failures: 0, respawn: Some(255) });
}

#[test]
fn audio_files() {
    assert_eq!(audio_file_name("2025-01-15 14:30:25"), "2025-01-15_14-30-25.wav");
    assert_eq!(audio_file_name(""), ".wav");
    assert_eq!(decode_audio("aGVsbG8=").unwrap(), b"hello".to_vec());
    assert!(decode_audio("not base64!").unwrap_err().starts_with("base64 decode: "));
    assert_eq!(audio_data_url(b"hello"), "data:audio/wav;base64,aGVsbG8=");
    assert_eq!(audio_data_url(b""), "data:audio/wav;base64,");
}

#[test]
fn focus_strategies() {
    let info = |ct: i32, class: &str, role: u32| ElementInfo {
        control_type: ct,
        class_name: class.to_string(),
        name: String::new(),
        legacy_role: role,
    };
    assert_eq!(evaluate_focus(&info(50004, "", 0), None), FocusCheck::Hit("S1:Edit"));
    assert_eq!(evaluate_focus(&info(1, "TermControl", 0), None), FocusCheck::Hit("S2:Terminal"));
    assert_eq!(evaluate_focus(&info(50030, "", 42), Some(true)), FocusCheck::Hit("S3:DocValue"));
    assert_eq!(evaluate_focus(&info(50030, "", 42), Some(false)), FocusCheck::Miss("Doc"));
    assert_eq!(evaluate_focus(&info(50030, "", 46), None), FocusCheck::Hit("S4:Legacy"));
    assert_eq!(evaluate_focus(&info(1, "Chrome", 9), None), FocusCheck::Miss(""));
    assert!(!is_hit(FocusCheck::Miss("Doc")));
    assert!(is_terminal_window("ConsoleWindowClass"));
    assert!(!is_terminal_window("consolewindowclass"));
}

#[test]
fn captured_window_checks() {
    assert_eq!(capture_foreground_window(None, false), None);
    let c = capture_foreground_window(Some(7), false);
    assert_eq!(c, Some(CapturedState { window: 7, has_text_focus: false }));
    assert_eq!(refocus_captured_window(&c), Some(7));
    assert_eq!(
        check_text_focus(&c).unwrap_err(),
        "No text input field was focused when recording started"
    );
    assert!(check_text_focus(&None).is_ok());
    assert!(check_text_focus(&Some(CapturedState { window: 1, has_text_focus: true })).is_ok());
    assert!(check_accessibility(true).is_ok());
    assert!(check_accessibility(false).unwrap_err().starts_with("Accessibility permission required."));
    assert!(has_text_focus());
    assert!(is_accessibility_granted());
}

#[test]
fn microphone_statuses() {
    assert_eq!(microphone_access(0), MicrophoneAccess::Request);
    assert_eq!(microphone_access(1), MicrophoneAccess::Other(1));
    assert_eq!(microphone_access(2), MicrophoneAccess::Denied);
    assert_eq!(microphone_access(3), MicrophoneAccess::Granted);
}

#[test]
fn text_helpers() {
    let parts = split_text("a++b", '+');
    assert_eq!(parts, vec!["a".to_string(), "".to_string(), "b".to_string()]);
    assert_eq!(split_text("", '+'), vec!["".to_string()]);
    assert_eq!(trim_text("\u{2003} x y\t\n"), "x y");
    assert_eq!(trim_text("   "), "");
    assert!(contains_text("no default input device found", "input"));
    assert!(!contains_text("abc", "abcd"));
    assert!(contains_text("abc", ""));
}

#[test]
fn engine_reply_fields() {
    let r = parse_reply(r#"{"raw_text":"uh hi","polished_text":"Hi.","audio_data":5}"#);
    assert_eq!(r.raw_text, Some("uh hi".to_string()));
    assert_eq!(r.polished_text, Some("Hi.".to_string()));
    assert_eq!(r.audio_data, None);
    let r = parse_reply("not json");
    assert_eq!(r.raw_text, None);
    assert_eq!(r.polished_text, None);
}

#[test]
fn handshake_lines() {
    assert_eq!(handshake_port_from_line(r#"{"port": 51234}"#), Some(51234));
    assert_eq!(handshake_port_from_line(r#"{"port": 70000}"#), None);
    assert_eq!(handshake_port_from_line(r#"{"port": "80"}"#), None);
    assert_eq!(handshake_port_from_line("INFO starting"), None);
}

#[test]
fn hotkey_mode_values() {
    let mut c = settings();
    c.hotkey_mode = Some("hold".to_string());
    assert_eq!(hotkey_mode_setting(&c), HotkeyMode::HoldToRecord);
    c.hotkey_mode = Some("TOGGLE".to_string());
    assert_eq!(hotkey_mode_setting(&c), HotkeyMode::HoldToRecord);
    c.hotkey_mode = Some("toggle".to_string());
    assert_eq!(hotkey_mode_setting(&c), HotkeyMode::Toggle);
}

fn run_step(
    mgr: &mut AppStateManager,
    stage: PipelineStage,
    event: PipelineEvent,
) -> PipelineStep {
    mgr.pipeline_step(stage, event)
}

#[test]
fn pipeline_success_run() {
    let mut mgr = AppStateManager::new();
    mgr.state = AppState::Processing;
    let st = run_step(&mut mgr, PipelineStage::AwaitEngine, PipelineEvent::Polled { engine_recording: false, elapsed_nanos: 10 });
    assert!(matches!(st.effect, PipelineEffect::PollEngine { millis: 50 }));
    let st = run_step(&mut mgr, st.stage, PipelineEvent::Polled { engine_recording: true, elapsed_nanos: 60 });
    assert!(matches!(st.effect, PipelineEffect::SendStop));
    let reply = parse_reply(r#"{"raw_text":"uh hi","polished_text":"Hi.","audio_data":"AAAA"}"#);
    let st = run_step(&mut mgr, st.stage, PipelineEvent::StopFinished(StopOutcome::Replied(reply)));
    match &st.effect {
        PipelineEffect::SaveRecording { audio_data } => assert_eq!(audio_data.as_deref(), Some("AAAA")),
        other => panic!("unexpected {other:?}"),
    }
    let st = run_step(&mut mgr, st.stage, PipelineEvent::Saved { timestamp: "t".to_string(), audio_file: None });
    assert!(matches!(st.effect, PipelineEffect::PersistHistory { .. }));
    assert_eq!(mgr.history.len(), 1);
    assert_eq!(mgr.history[0].raw_text, "uh hi");
    let st = run_step(&mut mgr, st.stage, PipelineEvent::Persisted);
    assert_eq!(st.change.as_ref().unwrap().state, "injecting");
    match &st.effect {
        PipelineEffect::Inject { text } => assert_eq!(text, "Hi."),
        other => panic!("unexpected {other:?}"),
    }
    let st = run_step(&mut mgr, st.stage, PipelineEvent::Injected(Ok(())));
    assert!(matches!(st.effect, PipelineEffect::Sleep { millis: 800 }));
    let st = run_step(&mut mgr, st.stage, PipelineEvent::Slept);
    assert!(matches!(st.effect, PipelineEffect::Finish));
    assert_eq!(mgr.get(), AppState::Idle);
}

#[test]
fn pipeline_error_runs() {
    let mut mgr = AppStateManager::new();
    mgr.state = AppState::Processing;
    let st = run_step(&mut mgr, PipelineStage::AwaitEngine, PipelineEvent::Polled { engine_recording: false, elapsed_nanos: 6_000_000_000 });
    assert_eq!(mgr.get(), AppState::Error("Recording failed to start".to_string()));
    assert!(matches!(st.effect, PipelineEffect::Sleep { millis: 3000 }));
    let st = run_step(&mut mgr, st.stage, PipelineEvent::Slept);
    assert!(matches!(st.effect, PipelineEffect::Finish));
    assert_eq!(mgr.get(), AppState::Idle);

    mgr.state = AppState::Processing;
    let st = run_step(&mut mgr, PipelineStage::AwaitStop, PipelineEvent::StopFinished(StopOutcome::Replied(parse_reply("{}"))));
    assert_eq!(mgr.get(), AppState::Error("No text transcribed".to_string()));
    assert!(matches!(st.stage, PipelineStage::ShowingError));
    assert!(mgr.history.is_empty());
}

#[test]
fn pipeline_cancelled_run_keeps_record() {
    let mut mgr = AppStateManager::new();
    let stage = PipelineStage::AwaitRecording { raw_text: "r".to_string(), polished_text: "P.".to_string() };
    let st = run_step(&mut mgr, stage, PipelineEvent::Saved { timestamp: "t".to_string(), audio_file: Some("/a.wav".to_string()) });
    assert_eq!(mgr.history.len(), 1);
    let st = run_step(&mut mgr, st.stage, PipelineEvent::Persisted);
    assert!(st.change.is_none());
    assert!(matches!(st.effect, PipelineEffect::Finish));
    assert_eq!(mgr.get(), AppState::Idle);
}

#[test]
fn pipeline_failed_paste_offers_copy() {
    let mut mgr = AppStateManager::new();
    mgr.state = AppState::Injecting;
    let st = run_step(&mut mgr, PipelineStage::AwaitInjection { polished_text: "Hi.".to_string() }, PipelineEvent::Injected(Err("no".to_string())));
    match &st.effect {
        PipelineEffect::CopyToClipboard { text } => assert_eq!(text, "Hi."),
        other => panic!("unexpected {other:?}"),
    }
    assert_eq!(mgr.get(), AppState::CopyAvailable("Hi.".to_string()));
    let st = run_step(&mut mgr, st.stage, PipelineEvent::Copied);
    assert!(matches!(st.effect, PipelineEffect::Finish));
    assert!(st.change.is_none());
    // An event that does not belong to the stage ends the run unchanged.
    let st = run_step(&mut mgr, PipelineStage::Completing, PipelineEvent::Persisted);
    assert!(matches!(st.effect, PipelineEffect::Finish));
    assert!(st.change.is_none());
    assert_eq!(mgr.get(), AppState::CopyAvailable("Hi.".to_string()));
}

#[test]
fn whitespace_matches_std() {
    for n in 0u32..=0x10FFFF {
        if let Some(c) = char::from_u32(n) {
            assert_eq!(aurotype::text::is_whitespace(c), c.is_whitespace(), "U+{n:04X}");
        }
    }
}

#[test]
fn decode_error_text_follows_prefix() {
    let err = decode_audio("a").unwrap_err();
    assert!(err.starts_with("base64 decode: "));
    assert!(err.len() > "base64 decode: ".len());
}
