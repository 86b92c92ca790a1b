use transcribe_kit::models::{
    InputType, TranscriptResult, TranscriptSegment, TranscriptionJobState, TranscriptionJobStatus,
    TranscriptionSource, TranscriptionStreamEvent,
};
use transcribe_kit::transcription_job::{progress_message, start_message, TranscriptionController};

fn sample_result(
    input_type: InputType,
    source_name: Option<&str>,
    text: &str,
    segments: Vec<TranscriptSegment>,
) -> TranscriptResult {
    TranscriptResult {
        text: text.to_string(),
        segments,
        source: TranscriptionSource {
            provider: "whisper".to_string(),
            model_id: "whisper-base".to_string(),
            input_type,
            live_capture_profile: None,
            source_name: source_name.map(str::to_string),
            duration_ms: Some(1_000),
        },
        post_processed_text: None,
    }
}

fn sample_segment(start_ms: i64, end_ms: i64, text: &str) -> TranscriptSegment {
    TranscriptSegment { start_ms, end_ms, text: text.to_string() }
}

#[test]
fn start_live_job_clears_previous_result_and_enters_running_state() {
    let mut controller = TranscriptionController::new();
    controller.transcript = Some(sample_result(
        InputType::File,
        Some("old-note.wav"),
        "old text",
        vec![sample_segment(0, 800, "old text")],
    ));
    controller.partial_text = "stale partial".to_string();
    controller.partial_segments = vec![sample_segment(0, 400, "stale partial")];
    controller.progress_percent = Some(87);

    controller.start_live_job("Desk Mic".to_string());

    assert_eq!(controller.transcript, None);
    assert_eq!(controller.partial_text, "");
    assert!(controller.partial_segments.is_empty());
    assert_eq!(controller.progress_percent, Some(0));
    assert!(controller.is_transcribing);
    assert_eq!(
        controller.job_status,
        TranscriptionJobStatus {
            state: TranscriptionJobState::Running,
            input_type: InputType::Live,
            source_name: Some("Desk Mic".to_string()),
            message: Some("Transcribing Desk Mic".to_string()),
        }
    );
}

#[test]
fn apply_stream_event_updates_live_progress_and_replaces_segment_by_index() {
    let mut controller = TranscriptionController::new();
    controller.start_live_job("Desk Mic".to_string());

    controller.apply_stream_event(TranscriptionStreamEvent::Progress { progress_percent: 42 });
    assert_eq!(controller.progress_percent, Some(42));
    assert_eq!(controller.job_status.message.as_deref(), Some("Transcribing Desk Mic (42%)"));

    controller.apply_stream_event(TranscriptionStreamEvent::Segment {
        segment_index: 0,
        segment: sample_segment(0, 900, "hello"),
        accumulated_text: "hello".to_string(),
    });
    controller.apply_stream_event(TranscriptionStreamEvent::Segment {
        segment_index: 0,
        segment: sample_segment(0, 1_100, "hello there"),
        accumulated_text: "hello there".to_string(),
    });

    assert_eq!(controller.partial_text, "hello there");
    assert_eq!(controller.partial_segments, vec![sample_segment(0, 1_100, "hello there")]);
    assert_eq!(controller.job_status.message.as_deref(), Some("Receiving transcript segments..."));
    assert_eq!(controller.job_status.input_type, InputType::Live);
}

#[test]
fn apply_stream_event_appends_segments_in_order() {
    let mut controller = TranscriptionController::new();
    controller.start_file_job("clip.wav".to_string());
    controller.apply_stream_event(TranscriptionStreamEvent::Segment {
        segment_index: 0,
        segment: sample_segment(0, 500, "a"),
        accumulated_text: "a".to_string(),
    });
    controller.apply_stream_event(TranscriptionStreamEvent::Segment {
        segment_index: 1,
        segment: sample_segment(500, 900, "b"),
        accumulated_text: "a b".to_string(),
    });
    assert_eq!(
        controller.partial_segments,
        vec![sample_segment(0, 500, "a"), sample_segment(500, 900, "b")]
    );
    assert_eq!(controller.partial_text, "a b");
}

#[test]
fn complete_job_promotes_live_result_into_review_state() {
    let mut controller = TranscriptionController::new();
    controller.start_live_job("Desk Mic".to_string());
    controller.partial_text = "draft".to_string();
    controller.partial_segments = vec![sample_segment(0, 300, "draft")];

    let result = sample_result(
        InputType::Live,
        Some("Desk Mic"),
        "final transcript",
        vec![sample_segment(0, 500, "final"), sample_segment(500, 1_000, "transcript")],
    );

    controller.complete_job(result.clone());

    assert_eq!(controller.transcript, Some(result));
    assert_eq!(controller.partial_text, "final transcript");
    assert_eq!(
        controller.partial_segments,
        vec![sample_segment(0, 500, "final"), sample_segment(500, 1_000, "transcript")]
    );
    assert_eq!(controller.progress_percent, Some(100));
    assert!(!controller.is_transcribing);
    assert_eq!(controller.completion_nonce, 1);
    assert_eq!(
        controller.job_status,
        TranscriptionJobStatus {
            state: TranscriptionJobState::Succeeded,
            input_type: InputType::Live,
            source_name: Some("Desk Mic".to_string()),
            message: Some("Transcript ready for review.".to_string()),
        }
    );
}

#[test]
fn fail_job_clears_stale_transcript_and_preserves_partial_draft() {
    let mut controller = TranscriptionController::new();
    controller.transcript = Some(sample_result(
        InputType::File,
        Some("old-note.wav"),
        "old text",
        vec![sample_segment(0, 800, "old text")],
    ));
    controller.partial_text = "partial live draft".to_string();
    controller.partial_segments = vec![sample_segment(0, 700, "partial live draft")];
    controller.progress_percent = Some(63);
    controller.is_transcribing = true;

    controller.fail_job(InputType::Live, Some("Desk Mic".to_string()), "Whisper failed".to_string());

    assert_eq!(controller.transcript, None);
    assert_eq!(controller.partial_text, "partial live draft");
    assert_eq!(controller.partial_segments, vec![sample_segment(0, 700, "partial live draft")]);
    assert_eq!(controller.progress_percent, None);
    assert!(!controller.is_transcribing);
    assert_eq!(
        controller.job_status,
        TranscriptionJobStatus {
            state: TranscriptionJobState::Failed,
            input_type: InputType::Live,
            source_name: Some("Desk Mic".to_string()),
            message: Some("Whisper failed".to_string()),
        }
    );
}

#[test]
fn set_preflight_failure_clears_partial_state() {
    let mut controller = TranscriptionController::new();
    controller.partial_text = "stale".to_string();
    controller.partial_segments = vec![sample_segment(0, 500, "stale")];
    controller.progress_percent = Some(10);
    controller.is_transcribing = true;

    controller.set_preflight_failure(InputType::Live, "Provider mismatch".to_string());

    assert_eq!(controller.partial_text, "");
    assert!(controller.partial_segments.is_empty());
    assert_eq!(controller.progress_percent, None);
    assert!(!controller.is_transcribing);
    assert_eq!(
        controller.job_status,
        TranscriptionJobStatus {
            state: TranscriptionJobState::Failed,
            input_type: InputType::Live,
            source_name: None,
            message: Some("Provider mismatch".to_string()),
        }
    );
}

#[test]
fn reset_job_feedback_preserves_succeeded_state() {
    let mut controller = TranscriptionController::new();
    controller.job_status = TranscriptionJobStatus {
        state: TranscriptionJobState::Succeeded,
        input_type: InputType::File,
        source_name: Some("note.wav".to_string()),
        message: Some("Transcript ready for review.".to_string()),
    };

    controller.reset_job_feedback();

    assert_eq!(controller.job_status.state, TranscriptionJobState::Succeeded);
    assert_eq!(controller.job_status.message, None);
}

#[test]
fn reset_job_feedback_resets_failed_state_to_idle() {
    let mut controller = TranscriptionController::new();
    controller.job_status = TranscriptionJobStatus {
        state: TranscriptionJobState::Failed,
        input_type: InputType::File,
        source_name: None,
        message: Some("API key missing".to_string()),
    };

    controller.reset_job_feedback();

    assert_eq!(controller.job_status.state, TranscriptionJobState::Idle);
    assert_eq!(controller.job_status.message, None);
}

#[test]
fn completion_nonce_increments_across_successive_jobs() {
    let mut controller = TranscriptionController::new();
    assert_eq!(controller.completion_nonce, 0);

    controller.complete_job(sample_result(InputType::File, Some("a.wav"), "first", vec![]));
    assert_eq!(controller.completion_nonce, 1);

    controller.complete_job(sample_result(InputType::Live, Some("Mic"), "second", vec![]));
    assert_eq!(controller.completion_nonce, 2);
}

#[test]
fn complete_job_sets_api_provider_metadata_correctly() {
    let mut controller = TranscriptionController::new();
    controller.start_file_job("clip.mp3".to_string());

    let result = TranscriptResult {
        text: "api transcript".to_string(),
        segments: vec![],
        source: TranscriptionSource {
            provider: "openai-compatible".to_string(),
            model_id: "gpt-4o-mini-transcribe".to_string(),
            input_type: InputType::File,
            live_capture_profile: None,
            source_name: Some("clip.mp3".to_string()),
            duration_ms: Some(5_000),
        },
        post_processed_text: None,
    };

    controller.complete_job(result);

    let transcript = controller.transcript.clone().expect("should have transcript");
    assert_eq!(transcript.source.provider, "openai-compatible");
    assert_eq!(transcript.source.model_id, "gpt-4o-mini-transcribe");
    assert_eq!(transcript.text, "api transcript");
    assert!(transcript.segments.is_empty());
    assert!(!controller.is_transcribing);
}

#[test]
fn job_messages_name_the_source() {
    assert_eq!(start_message("clip.wav"), "Transcribing clip.wav");
    assert_eq!(progress_message(&Some("clip.wav".to_string()), 7), "Transcribing clip.wav (7%)");
}

#[test]
fn a_repeated_segment_leaves_the_list_unchanged() {
    let mut controller = TranscriptionController::new();
    controller.start_live_job("Desk Mic".to_string());
    let segment = |text: &str| TranscriptSegment { start_ms: 0, end_ms: 900, text: text.to_string() };
    let event = |index: i32, text: &str| TranscriptionStreamEvent::Segment {
        segment_index: index,
        segment: segment(text),
        accumulated_text: text.to_string(),
    };
    controller.apply_stream_event(event(0, "hello"));
    controller.apply_stream_event(event(1, "world"));
    let once = controller.partial_segments.clone();
    controller.apply_stream_event(event(1, "world"));
    assert_eq!(controller.partial_segments, once);
    assert_eq!(controller.partial_segments.len(), 2);
    // A negative index counts as the first segment.
    controller.apply_stream_event(event(-3, "hi"));
    assert_eq!(controller.partial_segments[0].text, "hi");
    assert_eq!(controller.partial_segments.len(), 2);
}
