use transcribe_kit::errors::LiveRecordingError;
use transcribe_kit::live::{idle_status, TargetOs};
use transcribe_kit::models::LiveRecordingState;
use transcribe_kit::recording_manager::{CaptureKind, RecordingManager, StartStep};

#[test]
fn a_second_start_is_refused_and_changes_nothing() {
    let mut manager = RecordingManager::new();
    assert!(matches!(manager.begin_start(false), StartStep::StartSingle { startup_message: None }));
    let mut status = idle_status();
    status.state = LiveRecordingState::Recording;
    status.duration_ms = Some(1_500);
    let events = manager.started(CaptureKind::Single, &status);
    assert!(events.tray_recording);
    assert_eq!(events.status_event.state, LiveRecordingState::Recording);
    assert!(matches!(manager.begin_start(true), StartStep::Refuse(LiveRecordingError::AlreadyRecording)));
    assert_eq!(manager.active, Some(CaptureKind::Single));
    assert_eq!(manager.current_status(&status).duration_ms, Some(1_500));
}

#[test]
fn stopping_always_ends_idle() {
    let mut manager = RecordingManager::new();
    assert!(matches!(manager.begin_stop(), Err(LiveRecordingError::NotRecording)));
    assert!(matches!(manager.begin_start(true), StartStep::StartDual));
    match manager.dual_start_failed(&LiveRecordingError::NoOutputDevice, TargetOs::Windows) {
        StartStep::StartSingle { startup_message: Some(m) } => {
            assert!(m.starts_with("Dual capture could not start"))
        }
        other => panic!("unexpected {other:?}"),
    }
    let mut status = idle_status();
    status.state = LiveRecordingState::Recording;
    manager.started(CaptureKind::Dual, &status);
    assert_eq!(manager.begin_stop().unwrap(), CaptureKind::Dual);
    let events = manager.stopped();
    assert!(!events.tray_recording);
    assert_eq!(events.status_event.state, LiveRecordingState::Idle);
    assert_eq!(manager.current_status(&status).state, LiveRecordingState::Idle);
}
