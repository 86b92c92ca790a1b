//! Error types of the library and the messages the app shows for them.
use vstd::prelude::*;

verus! {

/// A `keyring` error: opaque here, carried through unchanged.
#[verifier::external_type_specification]
#[verifier::external_body]
pub struct ExKeyringError(keyring::Error);

/// How reading a key from the system keyring failed: no entry for the
/// account, or another keyring error (carried through unchanged).
#[derive(Debug)]
pub enum KeyringFailure {
    NoEntry,
    Other(keyring::Error),
}

/// Failures of transcription providers.
#[derive(Debug)]
pub enum TranscriptionError {
    ModelLoad(String),
    Inference(String),
    AudioDecode(String),
    Download(String),
    AudioEncode(String),
    ApiRequest(String),
}

/// `prefix` followed by `detail`.
pub fn prefixed(prefix: &str, detail: &str) -> (r: String)
    ensures
        r@ == prefix@ + detail@,
{
    let mut r = prefix.to_owned();
    r.append(detail);
    r
}

/// The message shown for a transcription error.
pub open spec fn transcription_error_message(e: TranscriptionError) -> Seq<char> {
    match e {
        TranscriptionError::ModelLoad(m) => "Failed to load model: "@ + m@,
        TranscriptionError::Inference(m) => "Transcription failed: "@ + m@,
        TranscriptionError::AudioDecode(m) => "Audio decoding error: "@ + m@,
        TranscriptionError::Download(m) => "Model download failed: "@ + m@,
        TranscriptionError::AudioEncode(m) => "Audio encoding error: "@ + m@,
        TranscriptionError::ApiRequest(m) => "API transcription request failed: "@ + m@,
    }
}

impl TranscriptionError {
    /// The message shown for this error.
    pub fn to_string(&self) -> (r: String)
        ensures
            r@ == transcription_error_message(*self),
    {
        match self {
            TranscriptionError::ModelLoad(m) => prefixed("Failed to load model: ", m.as_str()),
            TranscriptionError::Inference(m) => prefixed("Transcription failed: ", m.as_str()),
            TranscriptionError::AudioDecode(m) => prefixed("Audio decoding error: ", m.as_str()),
            TranscriptionError::Download(m) => prefixed("Model download failed: ", m.as_str()),
            TranscriptionError::AudioEncode(m) => prefixed("Audio encoding error: ", m.as_str()),
            TranscriptionError::ApiRequest(m) => prefixed(
                "API transcription request failed: ",
                m.as_str(),
            ),
        }
    }
}

/// Failures of the settings, template and note stores.  Operating-system
/// error details arrive as text.
#[derive(Debug)]
pub enum SettingsError {
    MissingConfigDir,
    CreateDirectory(String),
    ReadFile(String),
    ParseFile(String),
    WriteFile(String),
    SerializeFile(String),
    Validation(String),
    Keyring(keyring::Error),
}

/// Failures of live capture.
#[derive(Debug)]
pub enum LiveRecordingError {
    AlreadyRecording,
    NotRecording,
    NoInputDevice(String),
    NoOutputDevice,
    SelectedDeviceUnavailable,
    HostUnavailable,
    DefaultConfig(String),
    UnsupportedSampleFormat(String),
    CreateWav(String),
    ReadWav(String),
    BuildStream(String),
    PlayStream(String),
    FinalizeWav(String),
    WriterThreadPanicked,
    StreamRuntime(String),
}

/// Failures of the input level monitor.
#[derive(Debug)]
pub enum AudioMonitorError {
    DeviceNotFound,
    DefaultConfig(String),
    UnsupportedFormat(String),
    BuildStream(String),
    PlayStream(String),
}

/// The message shown for an audio monitor error.
pub open spec fn audio_monitor_error_message(e: AudioMonitorError) -> Seq<char> {
    match e {
        AudioMonitorError::DeviceNotFound => "Could not find the selected audio input device."@,
        AudioMonitorError::DefaultConfig(m) => "Could not determine a usable capture format: "@ + m@,
        AudioMonitorError::UnsupportedFormat(m) => "Unsupported sample format: "@ + m@,
        AudioMonitorError::BuildStream(m) => "Could not build the audio monitor stream: "@ + m@,
        AudioMonitorError::PlayStream(m) => "Could not start the audio monitor stream: "@ + m@,
    }
}

impl AudioMonitorError {
    /// The message shown for this error.
    pub fn to_string(&self) -> (r: String)
        ensures
            r@ == audio_monitor_error_message(*self),
    {
        match self {
            AudioMonitorError::DeviceNotFound => "Could not find the selected audio input device.".to_owned(),
            AudioMonitorError::DefaultConfig(m) => prefixed(
                "Could not determine a usable capture format: ",
                m.as_str(),
            ),
            AudioMonitorError::UnsupportedFormat(m) => prefixed("Unsupported sample format: ", m.as_str()),
            AudioMonitorError::BuildStream(m) => prefixed(
                "Could not build the audio monitor stream: ",
                m.as_str(),
            ),
            AudioMonitorError::PlayStream(m) => prefixed(
                "Could not start the audio monitor stream: ",
                m.as_str(),
            ),
        }
    }
}

/// The message shown for a live capture error.
pub open spec fn live_recording_error_message(e: LiveRecordingError) -> Seq<char> {
    match e {
        LiveRecordingError::AlreadyRecording => "A live recording is already in progress. Stop it before starting a new recording."@,
        LiveRecordingError::NotRecording => "No live recording is in progress right now."@,
        LiveRecordingError::NoInputDevice(h) => "Transcribe Kit could not find an audio input to start recording. Connect an audio input or choose a different device in Settings."@ + h@,
        LiveRecordingError::NoOutputDevice => "Transcribe Kit could not find a system audio output to capture the meeting mix. Connect or enable an output device, then try again."@,
        LiveRecordingError::SelectedDeviceUnavailable => "Transcribe Kit could not find the selected audio input anymore. Re-open Settings and choose an available input device."@,
        LiveRecordingError::HostUnavailable => "Transcribe Kit could not reach the audio backend for the selected input device."@,
        LiveRecordingError::DefaultConfig(m) => "Transcribe Kit could not determine a usable capture format for the selected input device: "@ + m@,
        LiveRecordingError::UnsupportedSampleFormat(m) => "Transcribe Kit does not support recording from this input device sample format: \""@ + m@ + "\"."@,
        LiveRecordingError::CreateWav(m) => "Transcribe Kit could not create the temporary WAV recording: "@ + m@,
        LiveRecordingError::ReadWav(m) => "Transcribe Kit could not read the temporary WAV recording data: "@ + m@,
        LiveRecordingError::BuildStream(m) => "Transcribe Kit could not start the audio input stream: "@ + m@,
        LiveRecordingError::PlayStream(m) => "Transcribe Kit could not begin recording from the audio input: "@ + m@,
        LiveRecordingError::FinalizeWav(m) => "Transcribe Kit could not finish writing the temporary WAV recording: "@ + m@,
        LiveRecordingError::WriterThreadPanicked => "The live recording worker stopped unexpectedly."@,
        LiveRecordingError::StreamRuntime(m) => "The live recording stream reported an error: "@ + m@,
    }
}

impl LiveRecordingError {
    /// The message shown for this error.
    pub fn to_string(&self) -> (r: String)
        ensures
            r@ == live_recording_error_message(*self),
    {
        match self {
            LiveRecordingError::AlreadyRecording => String::from_str("A live recording is already in progress. Stop it before starting a new recording."),
            LiveRecordingError::NotRecording => String::from_str("No live recording is in progress right now."),
            LiveRecordingError::NoInputDevice(h) => prefixed("Transcribe Kit could not find an audio input to start recording. Connect an audio input or choose a different device in Settings.", h.as_str()),
            LiveRecordingError::NoOutputDevice => String::from_str("Transcribe Kit could not find a system audio output to capture the meeting mix. Connect or enable an output device, then try again."),
            LiveRecordingError::SelectedDeviceUnavailable => String::from_str("Transcribe Kit could not find the selected audio input anymore. Re-open Settings and choose an available input device."),
            LiveRecordingError::HostUnavailable => String::from_str("Transcribe Kit could not reach the audio backend for the selected input device."),
            LiveRecordingError::DefaultConfig(m) => prefixed("Transcribe Kit could not determine a usable capture format for the selected input device: ", m.as_str()),
            LiveRecordingError::UnsupportedSampleFormat(m) => {
                let mut r = String::from_str("Transcribe Kit does not support recording from this input device sample format: \"");
                r.append(m.as_str());
                r.append("\".");
                r
            },
            LiveRecordingError::CreateWav(m) => prefixed("Transcribe Kit could not create the temporary WAV recording: ", m.as_str()),
            LiveRecordingError::ReadWav(m) => prefixed("Transcribe Kit could not read the temporary WAV recording data: ", m.as_str()),
            LiveRecordingError::BuildStream(m) => prefixed("Transcribe Kit could not start the audio input stream: ", m.as_str()),
            LiveRecordingError::PlayStream(m) => prefixed("Transcribe Kit could not begin recording from the audio input: ", m.as_str()),
            LiveRecordingError::FinalizeWav(m) => prefixed("Transcribe Kit could not finish writing the temporary WAV recording: ", m.as_str()),
            LiveRecordingError::WriterThreadPanicked => String::from_str("The live recording worker stopped unexpectedly."),
            LiveRecordingError::StreamRuntime(m) => prefixed("The live recording stream reported an error: ", m.as_str()),
        }
    }
}

} // verus!
