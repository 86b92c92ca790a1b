//! The live-recording manager's decisions: whether a start or stop is
//! allowed, which capture to try, the status it reports, and which events
//! go out.  Opening audio streams and writing files happen in the app, which
//! performs each step and reports back.
use vstd::prelude::*;

use crate::capture::{dual_capture_fallback_message, fallback_message_spec};
use crate::errors::LiveRecordingError;
use crate::live::{copy_status, idle_status, TargetOs};
use crate::models::{LiveRecordingState, LiveRecordingStatus};

verus! {

/// The capture that is running.
#[derive(Debug, Clone, Copy, PartialEq, Eq, Structural)]
pub enum CaptureKind {
    /// One stream: a microphone or a system-audio output.
    Single,
    /// Microphone and system audio at once, mixed when stopped.
    Dual,
}

/// The manager: which capture is active, if any.
#[derive(Debug, Clone, Copy, PartialEq, Eq, Structural)]
pub struct RecordingManager {
    pub active: Option<CaptureKind>,
}

/// What starting asks for next.
#[derive(Debug)]
pub enum StartStep {
    /// The start is refused; nothing changes and nothing is sent.
    Refuse(LiveRecordingError),
    /// Try to open both streams.
    StartDual,
    /// Open one stream, carrying this message into its status.
    StartSingle { startup_message: Option<String> },
}

/// What goes out once a capture has started or stopped.
#[derive(Debug)]
pub struct ManagerEvents {
    /// The status event sent to the window.
    pub status_event: LiveRecordingStatus,
    /// Whether the tray shows a recording (`false`: idle).
    pub tray_recording: bool,
}

/// Whether `s` is the idle status with nothing known.
pub open spec fn is_idle_status(s: LiveRecordingStatus) -> bool {
    &&& s.state == LiveRecordingState::Idle
    &&& s.input_device_id is None
    &&& s.input_device_label is None
    &&& s.output_file_path is None
    &&& s.sample_rate_hz is None
    &&& s.channels is None
    &&& s.duration_ms is None
    &&& s.message is None
}

/// What a start asks for, as a kind.
#[derive(Debug, Clone, Copy, PartialEq, Eq, Structural)]
pub enum StartDecision {
    RefuseAlreadyRecording,
    TryDual,
    Single,
}

/// The start decision for a manager in state `m`.
pub open spec fn start_decision(m: RecordingManager, use_dual_capture: bool) -> StartDecision {
    if m.active is Some {
        StartDecision::RefuseAlreadyRecording
    } else if use_dual_capture {
        StartDecision::TryDual
    } else {
        StartDecision::Single
    }
}

/// The status a manager in state `m` reports while the active capture's
/// own status is `capture_status`.
pub open spec fn reported_status(m: RecordingManager, capture_status: LiveRecordingStatus) -> LiveRecordingStatus {
    if m.active is None {
        LiveRecordingStatus {
            state: LiveRecordingState::Idle,
            input_device_id: None,
            input_device_label: None,
            output_file_path: None,
            sample_rate_hz: None,
            channels: None,
            duration_ms: None,
            message: None,
        }
    } else {
        capture_status
    }
}

/// The manager after a stop request, whether or not one was active.
pub open spec fn after_stop(m: RecordingManager) -> RecordingManager {
    RecordingManager { active: None }
}

impl RecordingManager {
    /// Nothing is recording.
    pub fn new() -> (r: Self)
        ensures
            r.active is None,
    {
        RecordingManager { active: None }
    }

    /// The status to show: the active capture's status (`capture_status`),
    /// or the idle status when nothing records.
    pub fn current_status(&self, capture_status: &LiveRecordingStatus) -> (r: LiveRecordingStatus)
        ensures
            r == reported_status(*self, *capture_status),
    {
        match self.active {
            None => idle_status(),
            Some(_) => copy_status(capture_status),
        }
    }

    /// Starting: refused while a capture is active; otherwise the dual
    /// capture is tried when asked for, else a single stream.
    pub fn begin_start(&self, use_dual_capture: bool) -> (r: StartStep)
        ensures
            match start_decision(*self, use_dual_capture) {
                StartDecision::RefuseAlreadyRecording => r matches StartStep::Refuse(
                    LiveRecordingError::AlreadyRecording,
                ),
                StartDecision::TryDual => r is StartDual,
                StartDecision::Single => r matches StartStep::StartSingle { startup_message: None },
            },
    {
        if self.active.is_some() {
            StartStep::Refuse(LiveRecordingError::AlreadyRecording)
        } else if use_dual_capture {
            StartStep::StartDual
        } else {
            StartStep::StartSingle { startup_message: None }
        }
    }

    /// The dual capture could not start: a single stream is opened instead,
    /// its status carrying why.
    pub fn dual_start_failed(&self, error: &LiveRecordingError, os: TargetOs) -> (r: StartStep)
        ensures
            r matches StartStep::StartSingle { startup_message: Some(m) } && m@ == fallback_message_spec(
                *error,
                os,
            ),
    {
        StartStep::StartSingle { startup_message: Some(dual_capture_fallback_message(error, os)) }
    }

    /// A capture started with `status`: it becomes the active one, and its
    /// status goes to the window and the tray.
    pub fn started(&mut self, kind: CaptureKind, status: &LiveRecordingStatus) -> (r: ManagerEvents)
        requires
            old(self).active is None,
        ensures
            final(self).active == Some(kind),
            r.status_event == *status,
            r.tray_recording,
    {
        self.active = Some(kind);
        ManagerEvents { status_event: copy_status(status), tray_recording: true }
    }

    /// Stopping: refused (and nothing sent) when nothing records; otherwise
    /// the active capture is handed back to be stopped and the manager is
    /// idle from here on, whatever the stop gives.
    pub fn begin_stop(&mut self) -> (r: Result<CaptureKind, LiveRecordingError>)
        ensures
            old(self).active is None ==> (r matches Err(LiveRecordingError::NotRecording)
                && *final(self) == *old(self)),
            old(self).active matches Some(k) ==> r == Ok::<CaptureKind, LiveRecordingError>(k),
            *final(self) == after_stop(*old(self)),
    {
        match self.active {
            None => Err(LiveRecordingError::NotRecording),
            Some(k) => {
                self.active = None;
                Ok(k)
            },
        }
    }

    /// After a stop attempt, successful or not: the idle status goes to the
    /// window and the tray shows idle.
    pub fn stopped(&self) -> (r: ManagerEvents)
        ensures
            is_idle_status(r.status_event),
            !r.tray_recording,
    {
        ManagerEvents { status_event: idle_status(), tray_recording: false }
    }
}

/// Starting while a capture is active is refused, and since a start
/// request changes nothing, the reported status stays what it was.
pub proof fn law_start_while_recording_is_refused(
    m: RecordingManager,
    use_dual_capture: bool,
    capture_status: LiveRecordingStatus,
)
    requires
        m.active is Some,
    ensures
        start_decision(m, use_dual_capture) == StartDecision::RefuseAlreadyRecording,
        reported_status(m, capture_status) == capture_status,
{
}

/// Stopping always ends idle: after a stop request, refused or not, the
/// manager reports the idle status whatever the capture's own status was.
pub proof fn law_stop_ends_idle(m: RecordingManager, capture_status: LiveRecordingStatus)
    ensures
        after_stop(m).active is None,
        is_idle_status(reported_status(after_stop(m), capture_status)),
{
}

} // verus!
