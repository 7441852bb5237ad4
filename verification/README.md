# aurotype

Core of a push-to-talk voice-to-text desktop assistant, written in Verus:
press a hotkey, speak, and the transcribed and polished text is pasted at the
cursor (or offered for copying when no text field has focus).

- `src/` is the verified library: the recording state machine and its
  transcription history (`state`), hotkey decisions (`hotkey`) and shortcut
  parsing (`shortcut`), the transcription pipeline and frontend commands
  (`pipeline`), the engine configuration (`settings`), focus and paste checks
  (`injection`), permissions, the speech-engine address and health check
  (`sidecar`), audio file naming and Base64 handling (`audio`), reading fields
  of the engine's JSON messages (`json`), and the text
  processing they share (`text`).
- `app/` is the Tauri desktop application around it: windows, global hotkey
  registration, the speech-engine process and HTTP calls, clipboard and key
  simulation, and persistence.
- `tests/` exercises the library on concrete values.
