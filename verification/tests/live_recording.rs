use transcribe_kit::devices::is_armed_for_dual_capture;
use transcribe_kit::live::{
    desired_recording_goal, live_elapsed_duration_ms, live_source_name,
    live_transcription_source_name, stop_ui_transition, LiveRecordingCommand,
    LiveRecordingController, LiveRecordingSummary, TargetOs,
};
use transcribe_kit::models::{
    AppSettings, AudioInputDeviceDescriptor, HotkeyActivityState, HotkeyMode, InputType,
    LiveCaptureProfile, LiveRecordingResult, LiveRecordingState, LiveRecordingStatus,
    TranscriptResult, TranscriptSegment, TranscriptionJobState, TranscriptionJobStatus,
    TranscriptionSource,
};
use transcribe_kit::transcription_job::TranscriptionController;

fn status_with(state: LiveRecordingState, duration_ms: Option<u64>) -> LiveRecordingStatus {
    LiveRecordingStatus {
        state,
        input_device_id: None,
        input_device_label: None,
        output_file_path: None,
        sample_rate_hz: None,
        channels: None,
        duration_ms,
        message: None,
    }
}

fn recording_status(input_device_label: &str) -> LiveRecordingStatus {
    LiveRecordingStatus {
        state: LiveRecordingState::Recording,
        input_device_id: Some("mic-1".to_string()),
        input_device_label: Some(input_device_label.to_string()),
        output_file_path: Some("/tmp/capture.wav".to_string()),
        sample_rate_hz: Some(48_000),
        channels: Some(2),
        duration_ms: Some(5_200),
        message: None,
    }
}

fn capture_result(label: &str, id: Option<&str>) -> LiveRecordingResult {
    LiveRecordingResult {
        file_path: "/tmp/capture.wav".to_string(),
        input_device_id: id.map(|s| s.to_string()),
        input_device_label: label.to_string(),
        sample_rate_hz: 48_000,
        channels: 2,
        duration_ms: 5_200,
        is_dual_capture: false,
    }
}

fn sample_capture_result() -> LiveRecordingResult {
    capture_result("Desk Mic", Some("mic-1"))
}

fn sample_transcript_result(source_name: &str, text: &str) -> TranscriptResult {
    TranscriptResult {
        text: text.to_string(),
        segments: vec![TranscriptSegment { start_ms: 0, end_ms: 1_200, text: text.to_string() }],
        source: TranscriptionSource {
            provider: "whisper".to_string(),
            model_id: "whisper-base".to_string(),
            input_type: InputType::Live,
            live_capture_profile: Some(LiveCaptureProfile::MicrophoneOnly),
            source_name: Some(source_name.to_string()),
            duration_ms: Some(5_200),
        },
        post_processed_text: None,
    }
}

fn summary() -> LiveRecordingSummary {
    LiveRecordingSummary {
        input_device_label: "Desk Mic".to_string(),
        sample_rate_hz: 48_000,
        channels: 2,
        duration_ms: 5_200,
    }
}

fn device(id: &str, label: &str, is_default: bool, is_output_loopback: bool) -> AudioInputDeviceDescriptor {
    AudioInputDeviceDescriptor {
        id: id.to_string(),
        label: label.to_string(),
        manufacturer: None,
        channels: Some(2),
        sample_rate_hz: Some(48_000),
        is_default,
        is_output_loopback,
    }
}

fn meeting_settings(selected: &str) -> AppSettings {
    AppSettings {
        live_capture_profile: LiveCaptureProfile::MeetingMix,
        selected_input_device_id: Some(selected.to_string()),
        ..AppSettings::default()
    }
}

fn check_push_to_talk_press_starts_recording() {
    let goal = desired_recording_goal(HotkeyMode::PushToTalk, HotkeyActivityState::Pressed, false, false);
    assert_eq!(goal, Some(true));
}

fn check_push_to_talk_release_stops_recording() {
    let goal = desired_recording_goal(HotkeyMode::PushToTalk, HotkeyActivityState::Released, true, true);
    assert_eq!(goal, Some(false));
}

fn check_toggle_press_starts_when_idle() {
    let goal = desired_recording_goal(HotkeyMode::Toggle, HotkeyActivityState::Pressed, false, false);
    assert_eq!(goal, Some(true));
}

fn check_toggle_press_stops_when_already_recording() {
    let goal = desired_recording_goal(HotkeyMode::Toggle, HotkeyActivityState::Pressed, true, true);
    assert_eq!(goal, Some(false));
}

fn check_toggle_release_does_not_change_goal() {
    let goal = desired_recording_goal(HotkeyMode::Toggle, HotkeyActivityState::Released, true, true);
    assert_eq!(goal, None);
}

fn check_toggle_press_flips_pending_goal_while_start_is_in_flight() {
    let goal = desired_recording_goal(HotkeyMode::Toggle, HotkeyActivityState::Pressed, false, true);
    assert_eq!(goal, Some(false));
}

fn check_live_elapsed_duration_uses_wall_clock_when_recording() {
    let status = status_with(LiveRecordingState::Recording, Some(1_000));
    let now = 1_000_000u64;
    let elapsed = live_elapsed_duration_ms(&status, Some(now - 3_200), now);
    assert!(elapsed >= 3_000);
}

fn check_live_elapsed_duration_falls_back_to_status_when_idle() {
    let status = status_with(LiveRecordingState::Idle, Some(4_200));
    let now = 1_000_000u64;
    assert_eq!(live_elapsed_duration_ms(&status, Some(now), now), 4_200);
}

fn check_reconcile_recording_goal_rejects_new_start_while_transcribing() {
    let mut transcription = TranscriptionController::new();
    transcription.is_transcribing = true;
    transcription.job_status.input_type = InputType::Live;

    let mut controller = LiveRecordingController::new(transcription);
    controller.desired_recording = true;
    controller.request_in_flight = true;

    let command = controller.reconcile_recording_goal();

    assert_eq!(command, None);
    assert!(!controller.desired_recording);
    assert_eq!(
        controller.feedback_message.as_deref(),
        Some("Wait for the current transcription job to finish before starting another live capture.")
    );
    assert_eq!(controller.error_message, None);
}

fn check_stop_failure_transition_returns_idle_error_state() {
    let transition = stop_ui_transition(Err("writer finalize failed".to_string()), false, TargetOs::Linux);

    assert_eq!(transition.status.state, LiveRecordingState::Idle);
    assert_eq!(
        transition.error_message.as_deref(),
        Some("Live capture did not stop cleanly: writer finalize failed")
    );
    assert_eq!(transition.feedback_message, None);
    assert_eq!(transition.last_result, None);
    assert_eq!(transition.armed_input_label, None);
}

fn check_stop_success_transition_returns_idle_success_state() {
    let transition = stop_ui_transition(Ok(sample_capture_result()), false, TargetOs::Linux);

    assert_eq!(transition.status.state, LiveRecordingState::Idle);
    assert_eq!(transition.error_message, None);
    assert_eq!(transition.armed_input_label.as_deref(), Some("Desk Mic"));
    assert_eq!(
        transition.feedback_message.as_deref(),
        Some("Capture stopped. Temporary WAV saved from Desk Mic (00:05, 48000 Hz, 2 ch).")
    );
    assert_eq!(transition.last_result.as_ref(), Some(&summary()));
}

fn check_stop_success_transition_warns_when_dual_capture_was_expected_but_not_used() {
    let transition = stop_ui_transition(Ok(sample_capture_result()), true, TargetOs::Linux);

    assert_eq!(transition.status.state, LiveRecordingState::Idle);
    assert_eq!(transition.error_message, None);
    assert!(transition
        .feedback_message
        .as_deref()
        .unwrap_or_default()
        .contains("fell back to microphone-only recording"));
}

fn stopped_controller() -> LiveRecordingController {
    let mut controller = LiveRecordingController::new(TranscriptionController::new());
    controller.status = recording_status("Desk Mic");
    controller.recording_started_at_ms = Some(1_000_000 - 2_000);

    let transition = stop_ui_transition(Ok(sample_capture_result()), false, TargetOs::Linux);
    controller.apply_stop_ui_transition(&transition);
    controller.apply_live_transcription_started("Desk Mic");
    controller
}

fn check_recording_to_transcribing_to_done_leaves_live_banner_idle_and_review_state_consistent() {
    let mut controller = stopped_controller();

    assert_eq!(controller.status.state, LiveRecordingState::Idle);
    assert_eq!(controller.recording_started_at_ms, None);
    assert_eq!(controller.feedback_message, None);
    assert_eq!(controller.error_message, None);
    assert!(controller.transcription.is_transcribing);
    assert_eq!(
        controller.transcription.job_status,
        TranscriptionJobStatus {
            state: TranscriptionJobState::Running,
            input_type: InputType::Live,
            source_name: Some("Desk Mic".to_string()),
            message: Some("Transcribing Desk Mic".to_string()),
        }
    );

    let result = sample_transcript_result("Desk Mic", "final transcript");
    controller.apply_live_transcription_succeeded("Desk Mic", result.clone());

    assert_eq!(controller.status.state, LiveRecordingState::Idle);
    assert!(!controller.transcription.is_transcribing);
    assert_eq!(controller.error_message, None);
    assert_eq!(
        controller.feedback_message.as_deref(),
        Some("Live transcript ready for review from Desk Mic.")
    );
    assert_eq!(controller.transcription.transcript, Some(result));
    assert_eq!(
        controller.transcription.job_status,
        TranscriptionJobStatus {
            state: TranscriptionJobState::Succeeded,
            input_type: InputType::Live,
            source_name: Some("Desk Mic".to_string()),
            message: Some("Transcript ready for review.".to_string()),
        }
    );
    assert_eq!(controller.last_result, Some(summary()));
}

fn check_recording_to_transcribing_to_failed_leaves_live_banner_idle_and_not_recording() {
    let mut controller = stopped_controller();
    controller.apply_live_transcription_failed("Desk Mic", "provider mismatch");

    assert_eq!(controller.status.state, LiveRecordingState::Idle);
    assert_eq!(controller.recording_started_at_ms, None);
    assert!(!controller.transcription.is_transcribing);
    assert_eq!(controller.feedback_message, None);
    assert_eq!(
        controller.error_message.as_deref(),
        Some("Live transcription failed: provider mismatch")
    );
    assert_eq!(controller.transcription.transcript, None);
    assert_eq!(
        controller.transcription.job_status,
        TranscriptionJobStatus {
            state: TranscriptionJobState::Failed,
            input_type: InputType::Live,
            source_name: Some("Desk Mic".to_string()),
            message: Some("provider mismatch".to_string()),
        }
    );
    assert_eq!(controller.last_result, Some(summary()));
}

fn check_live_transcription_source_name_prefers_trimmed_device_label() {
    let source_name = live_transcription_source_name(&capture_result("  Desk Mic  ", Some("mic-1")));
    assert_eq!(source_name, "Desk Mic");
}

fn check_live_transcription_source_name_falls_back_to_device_id_then_default() {
    let source_name = live_transcription_source_name(&capture_result("   ", Some(" mic-1 ")));
    assert_eq!(source_name, "mic-1");

    let fallback_name = live_transcription_source_name(&capture_result("", None));
    assert_eq!(fallback_name, "Live recording");
}

#[test]
fn armed_dual_capture_requires_meeting_mix_mic_and_system_audio_support() {
    let devices = vec![
        device("mic", "USB Microphone", true, false),
        device("system-audio", "Built-in Output (System Audio)", false, true),
    ];
    assert!(is_armed_for_dual_capture(&meeting_settings("mic"), &devices));
}

#[test]
fn armed_dual_capture_is_false_when_selected_input_is_system_audio() {
    let devices = vec![
        device("mic", "USB Microphone", false, false),
        device("system-audio", "Built-in Output (System Audio)", true, true),
    ];
    assert!(!is_armed_for_dual_capture(&meeting_settings("system-audio"), &devices));
}

#[test]
fn armed_dual_capture_is_false_without_output_loopback_devices() {
    let devices = vec![device("mic", "USB Microphone", true, false)];
    assert!(!is_armed_for_dual_capture(&meeting_settings("mic"), &devices));
}

#[test]
fn armed_dual_capture_is_false_for_virtual_loopback_inputs() {
    let devices = vec![
        device("loopback", "BlackHole 2ch", true, false),
        device("system-audio", "Built-in Output (System Audio)", false, true),
    ];
    assert!(!is_armed_for_dual_capture(&meeting_settings("loopback"), &devices));
}

#[test]
fn armed_dual_capture_is_false_for_unknown_non_mic_labels() {
    let devices = vec![
        device("line-in", "Line In Port", true, false),
        device("system-audio", "Built-in Output (System Audio)", false, true),
    ];
    assert!(!is_armed_for_dual_capture(&meeting_settings("line-in"), &devices));
}

#[test]
fn live_source_name_prefers_trimmed_device_label() {
    assert_eq!(live_source_name("  Built-in Microphone  ", Some("device-123")), "Built-in Microphone");
}

#[test]
fn live_source_name_falls_back_to_device_id_then_default() {
    assert_eq!(live_source_name("   ", Some(" device-123 ")), "device-123");
    assert_eq!(live_source_name("", None), "Live recording");
}

#[test]
fn toggle_button_starts_then_stops_through_requests() {
    let mut controller = LiveRecordingController::new(TranscriptionController::new());
    assert_eq!(controller.toggle_recording(), Some(LiveRecordingCommand::Start));
    assert!(controller.request_in_flight);
    assert_eq!(controller.toggle_recording(), None);
    controller.finish_start(Ok(recording_status("Desk Mic")), 5_000);
    assert!(!controller.request_in_flight);
    assert_eq!(controller.status.state, LiveRecordingState::Recording);
    assert_eq!(controller.toggle_recording(), Some(LiveRecordingCommand::Stop));
    let handed_over = controller.finish_stop(Ok(sample_capture_result()), TargetOs::Linux);
    assert_eq!(handed_over.map(|r| r.input_device_label), Some("Desk Mic".to_string()));
    assert_eq!(controller.status.state, LiveRecordingState::Idle);
}

#[test]
fn live_recording_push_to_talk_press_starts_recording() {
    check_push_to_talk_press_starts_recording();
}

#[test]
fn tests_push_to_talk_press_starts_recording() {
    check_push_to_talk_press_starts_recording();
}

#[test]
fn live_recording_push_to_talk_release_stops_recording() {
    check_push_to_talk_release_stops_recording();
}

#[test]
fn tests_push_to_talk_release_stops_recording() {
    check_push_to_talk_release_stops_recording();
}

#[test]
fn live_recording_toggle_press_starts_when_idle() {
    check_toggle_press_starts_when_idle();
}

#[test]
fn tests_toggle_press_starts_when_idle() {
    check_toggle_press_starts_when_idle();
}

#[test]
fn live_recording_toggle_press_stops_when_already_recording() {
    check_toggle_press_stops_when_already_recording();
}

#[test]
fn tests_toggle_press_stops_when_already_recording() {
    check_toggle_press_stops_when_already_recording();
}

#[test]
fn live_recording_toggle_release_does_not_change_goal() {
    check_toggle_release_does_not_change_goal();
}

#[test]
fn tests_toggle_release_does_not_change_goal() {
    check_toggle_release_does_not_change_goal();
}

#[test]
fn live_recording_toggle_press_flips_pending_goal_while_start_is_in_flight() {
    check_toggle_press_flips_pending_goal_while_start_is_in_flight();
}

#[test]
fn tests_toggle_press_flips_pending_goal_while_start_is_in_flight() {
    check_toggle_press_flips_pending_goal_while_start_is_in_flight();
}

#[test]
fn live_recording_live_elapsed_duration_uses_wall_clock_when_recording() {
    check_live_elapsed_duration_uses_wall_clock_when_recording();
}

#[test]
fn tests_live_elapsed_duration_uses_wall_clock_when_recording() {
    check_live_elapsed_duration_uses_wall_clock_when_recording();
}

#[test]
fn live_recording_live_elapsed_duration_falls_back_to_status_when_idle() {
    check_live_elapsed_duration_falls_back_to_status_when_idle();
}

#[test]
fn tests_live_elapsed_duration_falls_back_to_status_when_idle() {
    check_live_elapsed_duration_falls_back_to_status_when_idle();
}

#[test]
fn live_recording_reconcile_recording_goal_rejects_new_start_while_transcribing() {
    check_reconcile_recording_goal_rejects_new_start_while_transcribing();
}

#[test]
fn tests_reconcile_recording_goal_rejects_new_start_while_transcribing() {
    check_reconcile_recording_goal_rejects_new_start_while_transcribing();
}

#[test]
fn live_recording_stop_failure_transition_returns_idle_error_state() {
    check_stop_failure_transition_returns_idle_error_state();
}

#[test]
fn tests_stop_failure_transition_returns_idle_error_state() {
    check_stop_failure_transition_returns_idle_error_state();
}

#[test]
fn live_recording_stop_success_transition_returns_idle_success_state() {
    check_stop_success_transition_returns_idle_success_state();
}

#[test]
fn tests_stop_success_transition_returns_idle_success_state() {
    check_stop_success_transition_returns_idle_success_state();
}

#[test]
fn live_recording_recording_to_transcribing_to_done_leaves_live_banner_idle_and_review_state_consistent() {
    check_recording_to_transcribing_to_done_leaves_live_banner_idle_and_review_state_consistent();
}

#[test]
fn tests_recording_to_transcribing_to_done_leaves_live_banner_idle_and_review_state_consistent() {
    check_recording_to_transcribing_to_done_leaves_live_banner_idle_and_review_state_consistent();
}

#[test]
fn live_recording_recording_to_transcribing_to_failed_leaves_live_banner_idle_and_not_recording() {
    check_recording_to_transcribing_to_failed_leaves_live_banner_idle_and_not_recording();
}

#[test]
fn tests_recording_to_transcribing_to_failed_leaves_live_banner_idle_and_not_recording() {
    check_recording_to_transcribing_to_failed_leaves_live_banner_idle_and_not_recording();
}

#[test]
fn live_recording_live_transcription_source_name_prefers_trimmed_device_label() {
    check_live_transcription_source_name_prefers_trimmed_device_label();
}

#[test]
fn tests_live_transcription_source_name_prefers_trimmed_device_label() {
    check_live_transcription_source_name_prefers_trimmed_device_label();
}

#[test]
fn live_recording_live_transcription_source_name_falls_back_to_device_id_then_default() {
    check_live_transcription_source_name_falls_back_to_device_id_then_default();
}

#[test]
fn tests_live_transcription_source_name_falls_back_to_device_id_then_default() {
    check_live_transcription_source_name_falls_back_to_device_id_then_default();
}

#[test]
fn stop_success_transition_warns_when_dual_capture_was_expected_but_not_used() {
    check_stop_success_transition_warns_when_dual_capture_was_expected_but_not_used();
}

#[test]
fn push_to_talk_press_starts_and_release_stops() {
    let mut controller = LiveRecordingController::new(TranscriptionController::new());
    let cmd = controller.apply_hotkey_event(HotkeyMode::PushToTalk, HotkeyActivityState::Pressed);
    assert_eq!(cmd, Some(LiveRecordingCommand::Start));
    assert!(controller.desired_recording);
    assert!(controller.request_in_flight);
    controller.finish_start(Ok(recording_status("Desk Mic")), 1_000);
    assert!(!controller.request_in_flight);
    let cmd = controller.apply_hotkey_event(HotkeyMode::PushToTalk, HotkeyActivityState::Released);
    assert_eq!(cmd, Some(LiveRecordingCommand::Stop));
    assert!(!controller.desired_recording);
}

#[test]
fn toggle_press_flips_the_goal_and_release_is_ignored() {
    let mut controller = LiveRecordingController::new(TranscriptionController::new());
    let cmd = controller.apply_hotkey_event(HotkeyMode::Toggle, HotkeyActivityState::Released);
    assert_eq!(cmd, None);
    assert!(!controller.desired_recording);
    let cmd = controller.apply_hotkey_event(HotkeyMode::Toggle, HotkeyActivityState::Pressed);
    assert_eq!(cmd, Some(LiveRecordingCommand::Start));
    assert!(controller.desired_recording);
    // A second press while the start is still in flight only flips the goal back.
    let cmd = controller.apply_hotkey_event(HotkeyMode::Toggle, HotkeyActivityState::Pressed);
    assert_eq!(cmd, None);
    assert!(!controller.desired_recording);
}

#[test]
fn hotkey_press_is_refused_while_a_transcription_runs() {
    let mut transcription = TranscriptionController::new();
    transcription.start_file_job("meeting.wav".to_string());
    let mut controller = LiveRecordingController::new(transcription);
    let cmd = controller.apply_hotkey_event(HotkeyMode::PushToTalk, HotkeyActivityState::Pressed);
    assert_eq!(cmd, None);
    assert!(!controller.desired_recording);
    assert!(controller.feedback_message.is_some());
}

#[test]
fn initial_status_load_sets_goal_and_readiness() {
    let mut controller = LiveRecordingController::new(TranscriptionController::new());
    controller.finish_initial_status_load(Ok(recording_status("Desk Mic")), 2_000);
    assert!(controller.is_ready);
    assert!(controller.desired_recording);
    assert_eq!(controller.status.state, LiveRecordingState::Recording);

    let mut failed = LiveRecordingController::new(TranscriptionController::new());
    failed.finish_initial_status_load(Err("backend down".to_string()), 2_000);
    assert!(failed.is_ready);
    assert_eq!(
        failed.load_error.as_deref(),
        Some("Live recording status could not be loaded: backend down")
    );
    assert!(!failed.desired_recording);
}

#[test]
fn status_events_move_the_goal_unless_a_request_is_pending() {
    let mut controller = LiveRecordingController::new(TranscriptionController::new());
    controller.apply_status_event(recording_status("Desk Mic"), 500);
    assert!(controller.desired_recording);
    controller.request_in_flight = true;
    controller.apply_status_event(status_with(LiveRecordingState::Idle, None), 600);
    assert!(controller.desired_recording);
    assert_eq!(controller.status.state, LiveRecordingState::Idle);
}

#[test]
fn device_context_errors_are_reported_together() {
    let mut controller = LiveRecordingController::new(TranscriptionController::new());
    controller.apply_device_context(Err("disk".to_string()), Err("no host".to_string()));
    assert_eq!(
        controller.device_context_error.as_deref(),
        Some("Saved recording device context could not be refreshed: settings: disk | input devices: no host")
    );
    assert!(!controller.armed_dual_capture);

    controller.apply_device_context(Ok(meeting_settings("mic")), Ok(vec![device("mic", "USB Mic", true, false)]));
    assert_eq!(controller.device_context_error, None);
    assert_eq!(controller.armed_capture_profile, LiveCaptureProfile::MeetingMix);
}
