use transcribe_kit::models::{
    ApiModelDescriptor, InputType, LocalModelDescriptor, ProviderMode, TranscriptResult,
    TranscriptSegment, TranscriptionJobState, TranscriptionSource,
};
use transcribe_kit::settings::default_app_settings;
use transcribe_kit::transcription_job::TranscriptionController;
use transcribe_kit::transcription_screen::{
    file_button_disabled, file_button_label, finish_file_transcription, import_hint, job_status_class,
    job_status_label, job_status_text, live_button_disabled, live_button_label, model_heading,
    partial_failure_message, plain_copy_text, progress_chip, provider_label, readiness_heading,
    readiness_label, result_duration_label, segment_time_label, show_postprocess_button,
    timestamp_copy_text, transcript_panel_view, CopyFeedback, CopyTarget, TranscribeScreenState,
    TranscriptPanelView,
};

fn local(id: &str, label: &str, downloaded: bool) -> LocalModelDescriptor {
    LocalModelDescriptor {
        id: id.to_string(),
        label: label.to_string(),
        engine: "whisper".to_string(),
        downloaded,
        size_label: "~142 MB".to_string(),
    }
}

fn api(id: &str, label: &str) -> ApiModelDescriptor {
    ApiModelDescriptor {
        id: id.to_string(),
        label: label.to_string(),
        provider: "openai-compatible".to_string(),
        supports_custom_name: id == "custom",
    }
}

fn result(text: &str, segments: Vec<TranscriptSegment>) -> TranscriptResult {
    TranscriptResult {
        text: text.to_string(),
        segments,
        source: TranscriptionSource {
            provider: "whisper".to_string(),
            model_id: "whisper-base".to_string(),
            input_type: InputType::File,
            live_capture_profile: None,
            source_name: Some("meeting.wav".to_string()),
            duration_ms: Some(61_000),
        },
        post_processed_text: None,
    }
}

fn loaded(provider: ProviderMode, downloaded: bool) -> TranscribeScreenState {
    let mut screen = TranscribeScreenState::new();
    let mut settings = default_app_settings();
    settings.provider_mode = provider;
    screen.finish_load(
        Ok(settings),
        Ok(vec![local("whisper-base", "Whisper Base", downloaded)]),
        Ok(vec![api("gpt-4o-mini-transcribe", "GPT-4o mini Transcribe"), api("custom", "Custom model name")]),
    );
    screen
}

#[test]
fn load_failures_are_joined_and_nothing_is_shown() {
    let mut screen = TranscribeScreenState::new();
    assert!(screen.is_loading);
    screen.finish_load(Err("disk".to_string()), Ok(Vec::new()), Err("offline".to_string()));
    assert!(!screen.is_loading);
    assert_eq!(screen.load_error.as_deref(), Some("settings: disk | api models: offline"));
    assert!(screen.local_models.is_empty());
}

#[test]
fn local_provider_needs_the_downloaded_model() {
    let screen = loaded(ProviderMode::Local, false);
    assert_eq!(screen.model_label(), "Whisper Base");
    assert!(!screen.model_ready());
    assert!(!screen.provider_ready());
    let ready = loaded(ProviderMode::Local, true);
    assert!(ready.provider_ready());
    let mut unknown = loaded(ProviderMode::Local, true);
    unknown.settings.local_model_id = "whisper-huge".to_string();
    assert_eq!(unknown.model_label(), "whisper-huge");
    assert!(!unknown.model_ready());
}

#[test]
fn api_model_label_uses_the_list_or_the_custom_name() {
    let mut screen = loaded(ProviderMode::Api, false);
    assert_eq!(screen.model_label(), "GPT-4o mini Transcribe");
    assert!(!screen.provider_ready());
    screen.settings.api_key_present = true;
    assert!(screen.provider_ready());
    screen.settings.api_model_id = "custom".to_string();
    assert_eq!(screen.model_label(), "Custom model");
    screen.settings.api_custom_model_name = "  whisper-large  ".to_string();
    assert_eq!(screen.model_label(), "whisper-large");
    screen.settings.api_model_id = "other".to_string();
    assert_eq!(screen.model_label(), "other");
}

#[test]
fn file_import_is_checked_before_the_dialog() {
    let screen = loaded(ProviderMode::Local, false);
    let mut controller = TranscriptionController::new();
    assert!(!screen.begin_file_import(false, &mut controller));
    assert_eq!(controller.job_status.state, TranscriptionJobState::Failed);
    assert_eq!(
        controller.job_status.message.as_deref(),
        Some("The selected Whisper model is not downloaded yet. Download it from Settings and try again.")
    );
    let api_screen = loaded(ProviderMode::Api, false);
    assert!(!api_screen.begin_file_import(false, &mut controller));
    assert_eq!(
        controller.job_status.message.as_deref(),
        Some("No API key configured. Add your API key in Settings before importing a file.")
    );
    let ready = loaded(ProviderMode::Local, true);
    assert!(ready.begin_file_import(false, &mut controller));
    assert_eq!(controller.job_status.message, None);
    assert!(!ready.begin_file_import(true, &mut controller));
}

#[test]
fn picking_a_file_starts_its_job() {
    let mut screen = loaded(ProviderMode::Local, true);
    let mut controller = TranscriptionController::new();
    assert_eq!(screen.finish_file_pick(Ok(None), &mut controller), None);
    assert_eq!(screen.selected_file_label(), "No file selected yet");
    let path = screen.finish_file_pick(Ok(Some("/tmp/audio/meeting.wav".to_string())), &mut controller);
    assert_eq!(path.as_deref(), Some("/tmp/audio/meeting.wav"));
    assert_eq!(screen.selected_file_label(), "meeting.wav");
    assert!(controller.is_transcribing);
    assert_eq!(controller.job_status.source_name.as_deref(), Some("meeting.wav"));
    finish_file_transcription(&mut controller, Err("decode failed".to_string()), "meeting.wav".to_string());
    assert_eq!(controller.job_status.state, TranscriptionJobState::Failed);
    assert_eq!(controller.job_status.message.as_deref(), Some("decode failed"));
    screen.finish_file_pick(Err("dialog unavailable".to_string()), &mut controller);
    assert_eq!(controller.job_status.message.as_deref(), Some("dialog unavailable"));
}

#[test]
fn screen_labels_follow_the_provider() {
    assert_eq!(provider_label(ProviderMode::Local), "Local Whisper");
    assert_eq!(provider_label(ProviderMode::Api), "OpenAI-compatible API");
    assert_eq!(model_heading(ProviderMode::Api), "API model");
    assert_eq!(readiness_heading(ProviderMode::Local), "Model status");
    assert_eq!(readiness_label(ProviderMode::Local, false), "Download required");
    assert_eq!(readiness_label(ProviderMode::Api, false), "API key required");
    assert_eq!(readiness_label(ProviderMode::Api, true), "Ready");
    assert!(import_hint(ProviderMode::Api).ends_with("WAV, MP3, M4A, MP4, and WebM."));
    assert_eq!(file_button_label(true), "Transcribing...");
    assert_eq!(live_button_label(false), "Start live capture");
    assert!(live_button_disabled(false, false));
    assert!(!live_button_disabled(false, true));
    assert!(file_button_disabled(true, false));
}

#[test]
fn job_status_card_describes_the_job() {
    assert_eq!(job_status_class(true, TranscriptionJobState::Failed), "job-status-panel running");
    assert_eq!(job_status_class(false, TranscriptionJobState::Failed), "job-status-panel error");
    assert_eq!(job_status_label(false, TranscriptionJobState::Succeeded), "Completed");
    assert_eq!(job_status_label(true, TranscriptionJobState::Idle), "Listening");
    assert_eq!(
        job_status_text(false, "", 0, &None),
        "Choose a file or start live capture to begin a transcription job."
    );
    assert_eq!(
        job_status_text(true, "USB Mic", 65_000, &Some("ignored".to_string())),
        "Recording from USB Mic. Stop recording to generate the transcript. Elapsed: 01:05."
    );
}

#[test]
fn transcript_panel_prefers_result_then_draft() {
    let mut controller = TranscriptionController::new();
    assert_eq!(
        transcript_panel_view(&controller),
        TranscriptPanelView::Message("Your transcript will appear here once audio finishes processing.".to_string())
    );
    controller.fail_job(InputType::File, None, "boom".to_string());
    assert_eq!(transcript_panel_view(&controller), TranscriptPanelView::Message("boom".to_string()));
    assert_eq!(partial_failure_message(&controller).as_deref(), Some("boom"));
    controller.partial_text = "draft".to_string();
    assert_eq!(transcript_panel_view(&controller), TranscriptPanelView::Partial);
    assert_eq!(plain_copy_text(&controller), "draft");
    controller.complete_job(result("final text", Vec::new()));
    assert_eq!(transcript_panel_view(&controller), TranscriptPanelView::Result);
    assert_eq!(partial_failure_message(&controller), None);
    assert_eq!(plain_copy_text(&controller), "final text");
    assert!(show_postprocess_button(false, &controller));
    assert!(!show_postprocess_button(true, &controller));
}

#[test]
fn timestamp_copy_uses_segments() {
    let mut controller = TranscriptionController::new();
    controller.complete_job(result(
        "hello world",
        vec![TranscriptSegment { start_ms: 0, end_ms: 1_500, text: "hello world".to_string() }],
    ));
    let text = timestamp_copy_text(&controller);
    assert!(text.contains("hello world"));
    assert!(text.starts_with('['));
    controller.complete_job(result("  plain  ", Vec::new()));
    assert_eq!(timestamp_copy_text(&controller), "plain");
}

#[test]
fn chips_and_segment_labels() {
    assert_eq!(progress_chip(Some(42)).as_deref(), Some("Progress: 42%"));
    assert_eq!(progress_chip(None), None);
    assert_eq!(result_duration_label(None), "Unknown duration");
    assert_eq!(segment_time_label(0, 61_500), "00:00 - 01:01");
    assert_eq!(result_duration_label(Some(61_000)), "Duration: 01:01");
}

#[test]
fn copy_feedback_marks_the_used_button() {
    let mut feedback = CopyFeedback::new();
    assert_eq!(feedback.label(CopyTarget::Plain), "Copy text");
    assert_eq!(feedback.request(CopyTarget::Plain, "   ".to_string()), None);
    assert_eq!(feedback.label(CopyTarget::Plain), "Copy failed");
    assert_eq!(feedback.class(CopyTarget::Plain), "secondary-button error");
    assert_eq!(feedback.label(CopyTarget::Timestamps), "Copy with timestamps");
    assert_eq!(feedback.request(CopyTarget::Timestamps, "text".to_string()).as_deref(), Some("text"));
    feedback.finish(CopyTarget::Timestamps, true);
    assert_eq!(feedback.label(CopyTarget::Timestamps), "Copied with timestamps");
    assert_eq!(feedback.class(CopyTarget::Timestamps), "secondary-button success");
    feedback.reset();
    assert_eq!(feedback.class(CopyTarget::Timestamps), "secondary-button");
}
