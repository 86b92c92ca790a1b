//! Plain data shared by the transcription backend and the desktop UI.
use vstd::prelude::*;

verus! {

/// Where transcription runs.
#[derive(Debug, Clone, Copy, PartialEq, Eq, Structural)]
pub enum ProviderMode {
    Local,
    Api,
}

/// How the global recording hotkey behaves.
#[derive(Debug, Clone, Copy, PartialEq, Eq, Structural)]
pub enum HotkeyMode {
    PushToTalk,
    Toggle,
}

/// Which backend post-processes transcripts.
#[derive(Debug, Clone, Copy, PartialEq, Eq, Structural)]
pub enum PostprocessProviderMode {
    Api,
    LocalLlm,
}

/// What a live capture is meant to record.
#[derive(Debug, Clone, Copy, PartialEq, Eq, Structural)]
pub enum LiveCaptureProfile {
    MicrophoneOnly,
    MeetingMix,
}

impl Default for LiveCaptureProfile {
    fn default() -> (r: Self)
        ensures
            r == LiveCaptureProfile::MicrophoneOnly,
    {
        LiveCaptureProfile::MicrophoneOnly
    }
}

/// Whether the hotkey went down or up.
#[derive(Debug, Clone, Copy, PartialEq, Eq, Structural)]
pub enum HotkeyActivityState {
    Pressed,
    Released,
}

/// A hotkey press or release reported to the UI.
#[derive(Debug, Clone, PartialEq, Eq)]
pub struct HotkeyActivityEvent {
    pub shortcut: String,
    pub mode: HotkeyMode,
    pub state: HotkeyActivityState,
    pub triggered_while_background: bool,
}

/// Where a transcript came from.
#[derive(Debug, Clone, Copy, PartialEq, Eq, Structural)]
pub enum InputType {
    File,
    Live,
}

/// Whether live capture is running.
#[derive(Debug, Clone, Copy, PartialEq, Eq, Structural)]
pub enum LiveRecordingState {
    Idle,
    Recording,
}

/// State of a transcription job as the UI shows it.
#[derive(Debug, Clone, Copy, PartialEq, Eq, Structural)]
pub enum TranscriptionJobState {
    Idle,
    Running,
    Succeeded,
    Failed,
}

/// Who created a note.
#[derive(Debug, Clone, Copy, PartialEq, Eq, Structural)]
pub enum NoteSource {
    Manual,
    Transcription,
    PostProcessing,
}

/// The settings the app works with.
#[derive(Debug, Clone, PartialEq, Eq)]
pub struct AppSettings {
    pub provider_mode: ProviderMode,
    pub local_model_id: String,
    pub selected_input_device_id: Option<String>,
    pub live_capture_profile: LiveCaptureProfile,
    pub hotkey_mode: HotkeyMode,
    pub hotkey_shortcut: String,
    pub api_model_id: String,
    pub api_custom_model_name: String,
    pub api_base_url: String,
    pub api_key_present: bool,
    pub api_key_insecure: bool,
    pub hotkey_registration_error: Option<String>,
    pub postprocess_model: String,
    pub postprocess_provider_mode: PostprocessProviderMode,
    pub local_llm_model_id: String,
}

/// A request to save settings, as the settings form sends it.
#[derive(Debug, Clone, PartialEq, Eq)]
pub struct SaveSettingsRequest {
    pub provider_mode: ProviderMode,
    pub local_model_id: String,
    pub selected_input_device_id: Option<String>,
    pub live_capture_profile: LiveCaptureProfile,
    pub hotkey_mode: HotkeyMode,
    pub hotkey_shortcut: String,
    pub api_model_id: String,
    pub api_custom_model_name: String,
    pub api_base_url: String,
    pub api_key: Option<String>,
    pub clear_api_key: bool,
    pub postprocess_model: String,
    pub postprocess_provider_mode: PostprocessProviderMode,
    pub local_llm_model_id: String,
}

/// An audio input that live capture can record from.
#[derive(Debug, Clone, PartialEq, Eq)]
pub struct AudioInputDeviceDescriptor {
    pub id: String,
    pub label: String,
    pub manufacturer: Option<String>,
    pub channels: Option<u16>,
    pub sample_rate_hz: Option<u32>,
    pub is_default: bool,
    pub is_output_loopback: bool,
}

/// A local model and whether it is on disk.
#[derive(Debug, Clone, PartialEq, Eq)]
pub struct LocalModelDescriptor {
    pub id: String,
    pub label: String,
    pub engine: String,
    pub downloaded: bool,
    pub size_label: String,
}

/// Download state of one local model file.
#[derive(Debug, Clone, PartialEq, Eq)]
pub struct ModelStatus {
    pub model_id: String,
    pub downloaded: bool,
    pub size_bytes: Option<u64>,
}

/// Progress of a model download.
#[derive(Debug, Clone, PartialEq, Eq)]
pub struct ModelDownloadProgress {
    pub model_id: String,
    pub downloaded_bytes: u64,
    pub total_bytes: Option<u64>,
    pub done: bool,
}

/// An API transcription model option.
#[derive(Debug, Clone, PartialEq, Eq)]
pub struct ApiModelDescriptor {
    pub id: String,
    pub label: String,
    pub provider: String,
    pub supports_custom_name: bool,
}

/// A named post-processing prompt.
#[derive(Debug, Clone, PartialEq, Eq)]
pub struct PostProcessTemplate {
    pub id: String,
    pub name: String,
    pub prompt: String,
}

/// One timed piece of a transcript.
#[derive(Debug, Clone, PartialEq, Eq)]
pub struct TranscriptSegment {
    pub start_ms: i64,
    pub end_ms: i64,
    pub text: String,
}

/// Live capture status reported by the backend.
#[derive(Debug, Clone, PartialEq, Eq)]
pub struct LiveRecordingStatus {
    pub state: LiveRecordingState,
    pub input_device_id: Option<String>,
    pub input_device_label: Option<String>,
    pub output_file_path: Option<String>,
    pub sample_rate_hz: Option<u32>,
    pub channels: Option<u16>,
    pub duration_ms: Option<u64>,
    pub message: Option<String>,
}

/// The recording a finished live capture left behind.
#[derive(Debug, Clone, PartialEq, Eq)]
pub struct LiveRecordingResult {
    pub file_path: String,
    pub input_device_id: Option<String>,
    pub input_device_label: String,
    pub sample_rate_hz: u32,
    pub channels: u16,
    pub duration_ms: u64,
    pub is_dual_capture: bool,
}

/// A request to transcribe a finished live recording.
#[derive(Debug, Clone, PartialEq, Eq)]
pub struct TranscribeLiveRecordingRequest {
    pub file_path: String,
    pub input_device_id: Option<String>,
    pub input_device_label: String,
    pub live_capture_profile: LiveCaptureProfile,
    pub duration_ms: u64,
}

/// Provenance of a transcript.
#[derive(Debug, Clone, PartialEq, Eq)]
pub struct TranscriptionSource {
    pub provider: String,
    pub model_id: String,
    pub input_type: InputType,
    pub live_capture_profile: Option<LiveCaptureProfile>,
    pub source_name: Option<String>,
    pub duration_ms: Option<u64>,
}

/// A finished transcript.
#[derive(Debug, Clone, PartialEq, Eq)]
pub struct TranscriptResult {
    pub text: String,
    pub segments: Vec<TranscriptSegment>,
    pub source: TranscriptionSource,
    pub post_processed_text: Option<String>,
}

/// An update streamed while a transcription runs.
#[derive(Debug, Clone, PartialEq, Eq)]
pub enum TranscriptionStreamEvent {
    Progress { progress_percent: i32 },
    Segment { segment_index: i32, segment: TranscriptSegment, accumulated_text: String },
}

/// A request to transcribe an audio file.
#[derive(Debug, Clone, PartialEq, Eq)]
pub struct StartFileTranscriptionRequest {
    pub file_path: String,
}

/// Job status shown next to a transcript.
#[derive(Debug, Clone, PartialEq, Eq)]
pub struct TranscriptionJobStatus {
    pub state: TranscriptionJobState,
    pub input_type: InputType,
    pub source_name: Option<String>,
    pub message: Option<String>,
}

/// A stored note.
#[derive(Debug, Clone, PartialEq, Eq)]
pub struct Note {
    pub id: String,
    pub title: String,
    pub content: String,
    pub created_at: String,
    pub updated_at: String,
    pub source: NoteSource,
}

/// A note without its content, for listings.
#[derive(Debug, Clone, PartialEq, Eq)]
pub struct NoteSummary {
    pub id: String,
    pub title: String,
    pub created_at: String,
    pub updated_at: String,
    pub source: NoteSource,
}

/// One message of a chat-completions request.
#[derive(Debug, Clone, PartialEq, Eq)]
pub struct ChatMessage {
    pub role: String,
    pub content: String,
}

} // verus!
