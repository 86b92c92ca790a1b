# transcribe_kit

The core of Transcribe Kit, a desktop transcription app (local Whisper or an
OpenAI-compatible API, live capture or file import, prompt-template
post-processing, notes), written in Verus: the library's own functions are
proved against their contracts, and the calls into outside crates and `std`
go through small trusted wrappers (listed below).

## Layout

- `src/` — the verified library.
  - Text and numbers: `text`, `paths`, `transcript_text`, `display`.
  - Stores and records: `models`, `settings`, `notes`, `templates`, `errors`.
  - Providers and models: `api`, `local_whisper`, `local_llm`, `model_store`,
    `llm_server`, `transcription`, `commands`.
  - Audio and capture: `audio`, `decode`, `mp3`, `capture`, `input_devices`,
    `devices`.
  - Screens and state machines: `live`, `hotkeys`, `transcription_job`,
    `transcription_screen`, `process_screen`, `notes_screen`,
    `settings_screen`, `settings_fields`, `banners`, `recording_manager`.
- `tests/` — tests of the library on concrete values.
- `app/` — the command-line program around the library: the settings,
  template and note files, the system keyring, WAV files, JSON bodies of the
  API, the audio decoders (which produce floating-point samples), and the
  floating-point audio and image arithmetic.

Calls into outside crates (`serde_json`, `uuid`, `getrandom`, `directories`,
`keyring`, `global-hotkey`, `ogg`, `mp3lame-encoder`, and `std` functions without a specification in `vstd`) go
through small trusted wrappers whose contracts say what the crates' documentation and
source promise; everything around them is verified.
