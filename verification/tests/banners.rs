use transcribe_kit::banners::{channels_chip, hotkey_activity_label, sample_rate_chip, HotkeyActivityBanner};
use transcribe_kit::live::{LiveRecordingController, LiveRecordingSummary};
use transcribe_kit::models::{
    HotkeyActivityEvent, HotkeyActivityState, HotkeyMode, LiveRecordingState, LiveRecordingStatus,
};
use transcribe_kit::transcription_job::TranscriptionController;

fn recording() -> LiveRecordingStatus {
    LiveRecordingStatus {
        state: LiveRecordingState::Recording,
        input_device_id: Some("mic".to_string()),
        input_device_label: Some("USB Mic".to_string()),
        output_file_path: None,
        sample_rate_hz: Some(48_000),
        channels: Some(1),
        duration_ms: Some(0),
        message: None,
    }
}

fn event(background: bool) -> HotkeyActivityEvent {
    HotkeyActivityEvent {
        shortcut: "CmdOrCtrl+Shift+T".to_string(),
        mode: HotkeyMode::Toggle,
        state: HotkeyActivityState::Pressed,
        triggered_while_background: background,
    }
}

#[test]
fn idle_banner_invites_the_hotkey() {
    let mut controller = LiveRecordingController::new(TranscriptionController::new());
    assert_eq!(controller.banner_state_label(), "Loading");
    controller.is_ready = true;
    assert_eq!(controller.banner_state_label(), "Armed");
    assert_eq!(controller.banner_class(), "recording-banner");
    assert_eq!(
        controller.banner_detail(0),
        "Ready to capture from System default input when the recording hotkey is pressed."
    );
    assert_eq!(controller.active_device_label(), "System default input");
    assert_eq!(controller.last_capture_chip(), "");
}

#[test]
fn recording_banner_shows_the_format() {
    let mut controller = LiveRecordingController::new(TranscriptionController::new());
    controller.apply_status(recording(), 1_000);
    assert_eq!(controller.banner_state_label(), "Recording");
    assert_eq!(controller.banner_class(), "recording-banner recording-banner-active");
    assert_eq!(controller.banner_detail(75_000), "Recording from USB Mic at 48000 Hz, 1 ch, 01:15 elapsed.");
    assert_eq!(controller.active_device_label(), "USB Mic");
}

#[test]
fn problems_come_first() {
    let mut controller = LiveRecordingController::new(TranscriptionController::new());
    controller.device_context_error = Some("devices".to_string());
    controller.load_error = Some("load".to_string());
    assert_eq!(controller.banner_detail(0), "load");
    assert_eq!(controller.banner_state_label(), "Needs attention");
    assert_eq!(controller.banner_class(), "recording-banner recording-banner-error");
    controller.load_error = None;
    assert_eq!(controller.banner_detail(0), "devices");
}

#[test]
fn live_transcription_shows_the_job() {
    let mut transcription = TranscriptionController::new();
    transcription.start_live_job("USB Mic".to_string());
    let mut controller = LiveRecordingController::new(transcription);
    assert!(controller.is_live_transcribing());
    assert_eq!(controller.banner_state_label(), "Transcribing");
    assert_eq!(controller.banner_detail(0), "Transcribing USB Mic");
    assert_eq!(controller.live_progress_chip(), "Progress: 0%");
    controller.last_result = Some(LiveRecordingSummary {
        input_device_label: "USB Mic".to_string(),
        sample_rate_hz: 16_000,
        channels: 1,
        duration_ms: 3_000,
    });
    assert_eq!(controller.last_capture_chip(), "Last capture: 00:03");
}

#[test]
fn chips_and_hotkey_banner() {
    assert_eq!(sample_rate_chip(Some(16_000)), "16000 Hz");
    assert_eq!(sample_rate_chip(None), "Sample rate pending");
    assert_eq!(channels_chip(Some(2)), "2 ch");
    assert_eq!(channels_chip(None), "Channel count pending");
    assert_eq!(hotkey_activity_label(&event(false)), "Hotkey pressed: CmdOrCtrl+Shift+T (toggle)");
    assert_eq!(
        hotkey_activity_label(&event(true)),
        "Hotkey pressed in background: CmdOrCtrl+Shift+T (toggle)"
    );
    let mut banner = HotkeyActivityBanner::new();
    let first = banner.show(event(true));
    assert!(banner.in_background());
    let second = banner.show(event(false));
    banner.expire(first);
    assert!(banner.activity.is_some());
    banner.expire(second);
    assert!(banner.activity.is_none());
}
