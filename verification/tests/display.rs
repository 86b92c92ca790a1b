use transcribe_kit::display::{
    can_copy_transcript, draft_label, format_short_date, format_shortcut_preview,
    generate_template_id, is_modifier_code, listening_status_message, normalized_source_name,
    note_source_label, primary_source_label, should_focus_live_transcript,
    should_navigate_to_live_transcript, source_name_fallback, supporting_input_label,
    transcription_note_title, CompletionHighlight, Screen,
};
use transcribe_kit::models::{
    InputType, LiveCaptureProfile, NoteSource, TranscriptResult, TranscriptionJobState,
    TranscriptionJobStatus, TranscriptionSource,
};

fn source(input_type: InputType, profile: Option<LiveCaptureProfile>, name: Option<&str>) -> TranscriptionSource {
    TranscriptionSource {
        provider: "whisper".to_string(),
        model_id: "whisper-base".to_string(),
        input_type,
        live_capture_profile: profile,
        source_name: name.map(str::to_string),
        duration_ms: Some(1_000),
    }
}

fn result(src: TranscriptionSource) -> TranscriptResult {
    TranscriptResult { text: "hello".to_string(), segments: Vec::new(), source: src, post_processed_text: None }
}

fn live_status() -> TranscriptionJobStatus {
    TranscriptionJobStatus {
        state: TranscriptionJobState::Succeeded,
        input_type: InputType::Live,
        source_name: Some("Desk Mic".to_string()),
        message: Some("Transcript ready for review.".to_string()),
    }
}

#[test]
fn should_navigate_to_live_transcript_only_once_per_live_completion() {
    let live_result = result(source(InputType::Live, None, Some("Desk Mic")));
    assert!(should_navigate_to_live_transcript(4, Some(3), &live_status(), Some(&live_result)));
    assert!(!should_navigate_to_live_transcript(4, Some(4), &live_status(), Some(&live_result)));
}

#[test]
fn draft_label_matches_active_input_type() {
    assert_eq!(draft_label(TranscriptionJobState::Running, InputType::File), "File draft");
    assert_eq!(draft_label(TranscriptionJobState::Running, InputType::Live), "Live draft");
}

#[test]
fn draft_label_prefers_partial_for_failures() {
    assert_eq!(draft_label(TranscriptionJobState::Failed, InputType::File), "Partial draft");
    assert_eq!(draft_label(TranscriptionJobState::Failed, InputType::Live), "Partial draft");
}

#[test]
fn source_name_fallback_matches_input_type() {
    assert_eq!(source_name_fallback(InputType::File, None), "Imported file");
    assert_eq!(source_name_fallback(InputType::Live, None), "Live recording");
    assert_eq!(
        source_name_fallback(InputType::Live, Some(LiveCaptureProfile::MicrophoneOnly)),
        "Live microphone note"
    );
    assert_eq!(
        source_name_fallback(InputType::Live, Some(LiveCaptureProfile::MeetingMix)),
        "Live meeting capture"
    );
}

#[test]
fn primary_source_label_prefers_capture_label_for_live_results() {
    assert_eq!(
        primary_source_label(&source(InputType::Live, Some(LiveCaptureProfile::MeetingMix), Some("Desk Mic"))),
        "Live meeting capture"
    );
    assert_eq!(primary_source_label(&source(InputType::File, None, Some("note.wav"))), "note.wav");
}

#[test]
fn supporting_input_label_is_only_shown_for_live_results_with_device_names() {
    assert_eq!(
        supporting_input_label(&source(InputType::Live, Some(LiveCaptureProfile::MeetingMix), Some(" Desk Mic "))),
        Some("Input: Desk Mic".to_string())
    );
    assert_eq!(supporting_input_label(&source(InputType::File, None, Some("note.wav"))), None);
    assert_eq!(normalized_source_name(Some("   ")), None);
}

#[test]
fn can_copy_transcript_is_disabled_while_listening() {
    assert!(can_copy_transcript(false, "hello world"));
    assert!(!can_copy_transcript(true, "hello world"));
    assert!(!can_copy_transcript(false, "   "));
}

#[test]
fn listening_status_message_includes_source_and_elapsed_time() {
    assert_eq!(
        listening_status_message("Desk Mic", 5_200),
        "Recording from Desk Mic. Stop recording to generate the transcript. Elapsed: 00:05."
    );
}

#[test]
fn should_focus_live_transcript_only_for_active_live_success() {
    let live_result = result(source(InputType::Live, Some(LiveCaptureProfile::MicrophoneOnly), Some("Desk Mic")));
    let status = live_status();
    assert!(should_focus_live_transcript(true, false, &status, Some(&live_result), 3, Some(2)));
    assert!(!should_focus_live_transcript(false, false, &status, Some(&live_result), 3, Some(2)));
    assert!(!should_focus_live_transcript(true, true, &status, Some(&live_result), 3, Some(2)));
    assert!(!should_focus_live_transcript(true, false, &status, Some(&live_result), 3, Some(3)));
}

#[test]
fn should_focus_live_transcript_rejects_file_input_type_in_result() {
    let mut file_source = source(InputType::File, None, Some("note.wav"));
    file_source.provider = "openai-compatible".to_string();
    let file_result = result(file_source);
    assert!(
        !should_focus_live_transcript(true, false, &live_status(), Some(&file_result), 3, Some(2)),
        "should not focus when result has File input type"
    );
}

#[test]
fn source_name_fallback_api_provider_uses_same_labels() {
    assert_eq!(source_name_fallback(InputType::File, None), "Imported file");
    assert_eq!(
        source_name_fallback(InputType::Live, Some(LiveCaptureProfile::MicrophoneOnly)),
        "Live microphone note"
    );
}

#[test]
fn short_dates_name_the_month() {
    assert_eq!(format_short_date("2026-04-11T14:30:00Z"), "Apr 11, 2026");
    assert_eq!(format_short_date("2026-13-01"), "13 01, 2026");
    assert_eq!(format_short_date("2026"), "2026");
    assert_eq!(format_short_date("20260411T1430"), "20260411T1430");
}

#[test]
fn screens_notes_and_shortcuts_are_labelled() {
    assert_eq!(Screen::PostProcess.label(), "Post-process");
    assert_eq!(Screen::all().map(|s| s.label()), ["Transcribe", "Post-process", "Settings"]);
    assert_eq!(note_source_label(NoteSource::PostProcessing), "Post-processing");
    assert!(is_modifier_code("ShiftLeft"));
    assert!(!is_modifier_code("KeyT"));
    assert_eq!(
        format_shortcut_preview(true, false, true, true, Some("KeyT".to_string())),
        "Ctrl+Shift+Cmd+KeyT"
    );
    assert_eq!(format_shortcut_preview(false, false, false, false, None), "");
    assert_eq!(generate_template_id(1_700_000_000_000, 0xbeef), "tpl-1700000000000-beef");
}

#[test]
fn completion_highlight_clears_only_its_own_completion() {
    let mut highlight = CompletionHighlight { highlighted_completion_nonce: None };
    highlight.trigger(3);
    highlight.trigger(4);
    highlight.expire(3);
    assert_eq!(highlight.highlighted_completion_nonce, Some(4));
    highlight.expire(4);
    assert_eq!(highlight.highlighted_completion_nonce, None);
}

#[test]
fn transcription_note_titles_name_source_and_date() {
    assert_eq!(
        transcription_note_title(Some("clip.wav"), InputType::File, 2026, 4, 9),
        "Transcription - clip.wav - 2026-04-09"
    );
    assert_eq!(
        transcription_note_title(None, InputType::Live, 2026, 12, 31),
        "Transcription - Live recording - 2026-12-31"
    );
}
