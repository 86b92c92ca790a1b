use transcribe_kit::capture::{
    check_can_start, check_can_stop, chunk_frames, device_label, dual_capture_fallback_message,
    dual_capture_failure_looks_like_permission_issue, dual_stop_decision, dual_stream_message,
    mixed_duration_ms, next_recording_path, no_input_device_error, recording_path,
    short_device_label, single_file_result, single_stream_message, wav_is_silent,
    with_platform_hint, DualStopDecision,
};
use transcribe_kit::errors::LiveRecordingError;
use transcribe_kit::live::TargetOs;

#[test]
fn dual_capture_permission_detection_matches_common_error_text() {
    assert!(dual_capture_failure_looks_like_permission_issue(&LiveRecordingError::PlayStream(
        "permission denied by system".to_string()
    )));
    assert!(dual_capture_failure_looks_like_permission_issue(&LiveRecordingError::BuildStream(
        "access not permitted".to_string()
    )));
    assert!(!dual_capture_failure_looks_like_permission_issue(&LiveRecordingError::NoOutputDevice));
}

#[test]
fn permission_detection_ignores_case_and_other_variants() {
    assert!(dual_capture_failure_looks_like_permission_issue(&LiveRecordingError::StreamRuntime(
        "Operation NOT ALLOWED".to_string()
    )));
    assert!(!dual_capture_failure_looks_like_permission_issue(&LiveRecordingError::CreateWav(
        "permission denied".to_string()
    )));
}

#[test]
fn dual_capture_fallback_message_mentions_mic_only_fallback() {
    let message = dual_capture_fallback_message(&LiveRecordingError::NoOutputDevice, TargetOs::Linux);
    assert!(message.contains("microphone-only recording"));
    assert!(message.ends_with("No system audio output device is currently available for loopback capture."));
}

#[test]
fn fallback_message_gives_platform_permission_advice() {
    let error = LiveRecordingError::PlayStream("Access denied".to_string());
    assert!(dual_capture_fallback_message(&error, TargetOs::MacOs)
        .contains("System Settings > Privacy & Security > System Audio Recording"));
    assert!(dual_capture_fallback_message(&error, TargetOs::Windows)
        .contains("your OS privacy settings"));
    assert_eq!(
        dual_capture_fallback_message(&LiveRecordingError::HostUnavailable, TargetOs::Linux),
        "Dual capture could not start, so Transcribe Kit switched to microphone-only recording."
    );
}

#[test]
fn platform_hints_follow_the_message() {
    assert_eq!(with_platform_hint("boom.".to_string(), TargetOs::Other), "boom.");
    assert!(with_platform_hint("boom.".to_string(), TargetOs::Linux)
        .starts_with("boom. If this is Linux"));
    match no_input_device_error(TargetOs::Linux) {
        LiveRecordingError::NoInputDevice(hint) => assert!(hint.contains("PipeWire")),
        other => panic!("unexpected {other:?}"),
    }
    assert!(no_input_device_error(TargetOs::MacOs)
        .to_string()
        .starts_with("Transcribe Kit could not find an audio input to start recording."));
}

#[test]
fn short_device_labels_use_eight_bytes_after_the_last_colon() {
    assert_eq!(short_device_label("coreaudio:0123456789abcdef"), "Audio input 01234567");
    assert_eq!(short_device_label("abc"), "Audio input abc");
    assert_eq!(short_device_label("host:dev:"), "Audio input ");
    assert_eq!(device_label(None, Some("alsa:hw:1,0")), "Audio input 1,0");
    assert_eq!(device_label(Some("USB Mic".to_string()), Some("x")), "USB Mic");
    assert_eq!(device_label(None, None), "System audio input");
}

fn check_next_recording_path_uses_wav_extension() {
    let mut taken = vec![false; 32];
    taken[0] = true;
    let path = next_recording_path("/tmp", 1_700_000_000_000, 42, &taken);
    assert!(path.ends_with(".wav"));
    assert!(path.contains("transcribe-kit-live-"));
    assert_eq!(path, "/tmp/transcribe-kit-live-1700000000000-42-1.wav");
    let all_taken = vec![true; 32];
    assert_eq!(next_recording_path("/tmp", 5, 42, &all_taken), "/tmp/transcribe-kit-live-42.wav");
    assert_eq!(recording_path("/tmp", 5, 6, 7), "/tmp/transcribe-kit-live-5-6-7.wav");
}

#[test]
fn live_recording_next_recording_path_uses_wav_extension() {
    check_next_recording_path_uses_wav_extension();
}

#[test]
fn mod_next_recording_path_uses_wav_extension() {
    check_next_recording_path_uses_wav_extension();
}

#[test]
fn starting_and_stopping_depend_on_an_active_capture() {
    assert!(matches!(check_can_start(true), Err(LiveRecordingError::AlreadyRecording)));
    assert!(check_can_start(false).is_ok());
    assert!(matches!(check_can_stop(false), Err(LiveRecordingError::NotRecording)));
    assert!(check_can_stop(true).is_ok());
    assert_eq!(
        LiveRecordingError::AlreadyRecording.to_string(),
        "A live recording is already in progress. Stop it before starting a new recording."
    );
}

#[test]
fn frames_and_status_messages() {
    assert_eq!(chunk_frames(9, 2), 4);
    assert_eq!(chunk_frames(9, 0), 0);
    assert_eq!(single_stream_message(None, Some("note".to_string())), Some("note".to_string()));
    assert_eq!(
        single_stream_message(Some("err".to_string()), Some("note".to_string())),
        Some("err".to_string())
    );
    assert_eq!(
        dual_stream_message(None, Some("gone".to_string())),
        Some("System audio capture: gone".to_string())
    );
    assert_eq!(dual_stream_message(Some("mic".to_string()), Some("gone".to_string())), Some("mic".to_string()));
}

#[test]
fn dual_stop_keeps_the_microphone_when_system_audio_fails() {
    assert!(matches!(dual_stop_decision(Ok(()), None, true), DualStopDecision::MicrophoneOnly));
    assert!(matches!(dual_stop_decision(Ok(()), None, false), DualStopDecision::Mix));
    assert!(matches!(
        dual_stop_decision(Ok(()), Some("xrun".to_string()), false),
        DualStopDecision::Fail(LiveRecordingError::StreamRuntime(_))
    ));
    assert!(matches!(
        dual_stop_decision(Err(LiveRecordingError::WriterThreadPanicked), None, false),
        DualStopDecision::Fail(LiveRecordingError::WriterThreadPanicked)
    ));
}

#[test]
fn silence_and_durations_of_finished_recordings() {
    assert!(wav_is_silent(false, true, &vec![Some(5)]));
    assert!(!wav_is_silent(true, false, &vec![Some(0)]));
    assert!(wav_is_silent(true, true, &vec![Some(0), None, Some(0)]));
    assert!(!wav_is_silent(true, true, &vec![Some(0), Some(-1)]));
    assert_eq!(mixed_duration_ms(Some(1_234), 1, 2, 16_000), 1_234);
    assert_eq!(mixed_duration_ms(None, 8_000, 16_000, 16_000), 1_000);

    let from_file = single_file_result(
        "/tmp/a.wav".to_string(),
        None,
        "Mic".to_string(),
        48_000,
        2,
        9,
        false,
        Some((16_000, 1, 8_000)),
    );
    assert_eq!((from_file.sample_rate_hz, from_file.channels, from_file.duration_ms), (16_000, 1, 500));
    let fallback = single_file_result("/tmp/a.wav".to_string(), None, "Mic".to_string(), 48_000, 2, 9, true, None);
    assert_eq!((fallback.sample_rate_hz, fallback.channels, fallback.duration_ms), (48_000, 2, 9));
    assert!(fallback.is_dual_capture);
}
