//! Live capture: the recording goal that hotkeys and the record button set,
//! the start/stop requests derived from it, and the messages shown around a
//! capture.  The app performs the requests and reports their outcome back.
use vstd::prelude::*;

use crate::errors::prefixed;
use crate::models::{
    HotkeyActivityState, HotkeyMode, InputType, LiveCaptureProfile, LiveRecordingResult,
    LiveRecordingState, LiveRecordingStatus, TranscriptResult,
};
use crate::text::{decimal, padded_decimal, push_decimal, push_padded, trim, trim_spec};
use crate::devices::{
    armed_for_dual_spec, is_armed_for_dual_capture, resolve_armed_input_label,
};
use crate::models::{AppSettings, AudioInputDeviceDescriptor};
use crate::transcription_job::{duplicate_opt, TranscriptionController};

verus! {

/// The operating system the app runs on (for OS-specific advice).
#[derive(Debug, Clone, Copy, PartialEq, Eq, Structural)]
pub enum TargetOs {
    MacOs,
    Windows,
    Linux,
    Other,
}

/// A request for the backend.
#[derive(Debug, Clone, Copy, PartialEq, Eq, Structural)]
pub enum LiveRecordingCommand {
    Start,
    Stop,
}

/// The recording goal after a hotkey event: push-to-talk records while the
/// key is held; toggle flips the pending goal on each press and ignores
/// releases.
pub fn desired_recording_goal(
    mode: HotkeyMode,
    state: HotkeyActivityState,
    current_recording: bool,
    desired_recording: bool,
) -> (r: Option<bool>)
    ensures
        mode == HotkeyMode::PushToTalk ==> r == Some(state == HotkeyActivityState::Pressed),
        mode == HotkeyMode::Toggle && state == HotkeyActivityState::Pressed ==> r == Some(
            if current_recording == desired_recording {
                !current_recording
            } else {
                !desired_recording
            },
        ),
        mode == HotkeyMode::Toggle && state == HotkeyActivityState::Released ==> r is None,
{
    match mode {
        HotkeyMode::PushToTalk => Some(
            match state {
                HotkeyActivityState::Pressed => true,
                HotkeyActivityState::Released => false,
            },
        ),
        HotkeyMode::Toggle => match state {
            HotkeyActivityState::Pressed => Some(
                if current_recording == desired_recording {
                    !current_recording
                } else {
                    !desired_recording
                },
            ),
            HotkeyActivityState::Released => None,
        },
    }
}

/// A toggle press always inverts the pending goal, whatever the recorder is
/// doing, and two presses restore it.
pub proof fn law_toggle_press_inverts_goal(current_recording: bool, desired_recording: bool)
    ensures
        (if current_recording == desired_recording {
            !current_recording
        } else {
            !desired_recording
        }) == !desired_recording,
{
}

/// What to ask the backend for: start when the goal is to record and nothing
/// records, stop in the opposite case, else nothing.
pub fn next_command_for_goal(is_recording: bool, desired_recording: bool) -> (r: Option<
    LiveRecordingCommand,
>)
    ensures
        r == (if !is_recording && desired_recording {
            Some(LiveRecordingCommand::Start)
        } else if is_recording && !desired_recording {
            Some(LiveRecordingCommand::Stop)
        } else {
            None
        }),
{
    if !is_recording && desired_recording {
        Some(LiveRecordingCommand::Start)
    } else if is_recording && !desired_recording {
        Some(LiveRecordingCommand::Stop)
    } else {
        None
    }
}

/// `MM:SS` for a duration, minutes zero-padded to two digits.
pub open spec fn clock_spec(ms: u64) -> Seq<char> {
    padded_decimal((ms / 1000 / 60) as nat, 2) + seq![':'] + padded_decimal(
        (ms / 1000 % 60) as nat,
        2,
    )
}

/// `MM:SS` for a duration in milliseconds.
pub fn format_duration(duration_ms: u64) -> (r: String)
    ensures
        r@ == clock_spec(duration_ms),
{
    let total_seconds = duration_ms / 1000;
    let mut r = String::new();
    push_padded(&mut r, total_seconds / 60, 2);
    r.push(':');
    push_padded(&mut r, total_seconds % 60, 2);
    r
}

/// An idle status with nothing known.
pub fn idle_status() -> (r: LiveRecordingStatus)
    ensures
        r.state == LiveRecordingState::Idle,
        r.input_device_id is None,
        r.input_device_label is None,
        r.output_file_path is None,
        r.sample_rate_hz is None,
        r.channels is None,
        r.duration_ms is None,
        r.message is None,
{
    LiveRecordingStatus {
        state: LiveRecordingState::Idle,
        input_device_id: None,
        input_device_label: None,
        output_file_path: None,
        sample_rate_hz: None,
        channels: None,
        duration_ms: None,
        message: None,
    }
}

/// Elapsed capture time to show: while recording, the larger of the wall
/// clock since the start and the backend's duration; otherwise the backend's.
pub fn live_elapsed_duration_ms(
    status: &LiveRecordingStatus,
    recording_started_at_ms: Option<u64>,
    now_ms: u64,
) -> (r: u64)
    ensures
        ({
            let reported: int = match status.duration_ms {
                Some(d) => d as int,
                None => 0,
            };
            let wall: int = match recording_started_at_ms {
                Some(s) => if now_ms >= s {
                    now_ms - s
                } else {
                    0
                },
                None => 0,
            };
            r == if status.state != LiveRecordingState::Recording {
                reported
            } else if wall >= reported {
                wall
            } else {
                reported
            }
        }),
{
    let reported = match status.duration_ms {
        Some(d) => d,
        None => 0,
    };
    if status.state != LiveRecordingState::Recording {
        return reported;
    }
    let wall = match recording_started_at_ms {
        Some(s) => if now_ms >= s {
            now_ms - s
        } else {
            0
        },
        None => 0,
    };
    if wall >= reported {
        wall
    } else {
        reported
    }
}

/// The name a live source goes by: the trimmed device label, else the
/// trimmed device id, else `Live recording`.
pub open spec fn source_name_spec(label: Seq<char>, id: Option<Seq<char>>) -> Seq<char> {
    if trim_spec(label).len() > 0 {
        trim_spec(label)
    } else if id matches Some(i) && trim_spec(i).len() > 0 {
        trim_spec(id->0)
    } else {
        "Live recording"@
    }
}

/// Views of an optional string.
pub open spec fn ov(o: Option<String>) -> Option<Seq<char>> {
    match o {
        Some(s) => Some(s@),
        None => None,
    }
}

/// Name for a live recording's source, from its device label and id.
pub fn live_source_name(input_device_label: &str, input_device_id: Option<&str>) -> (r: String)
    ensures
        r@ == source_name_spec(
            input_device_label@,
            match input_device_id {
                Some(i) => Some(i@),
                None => None,
            },
        ),
{
    let label = trim(input_device_label);
    if label.as_str().unicode_len() > 0 {
        return label;
    }
    match input_device_id {
        Some(id) => {
            let t = trim(id);
            if t.as_str().unicode_len() > 0 {
                return t;
            }
        },
        None => {},
    }
    "Live recording".to_owned()
}

/// Name for the source of a finished capture.
pub fn live_transcription_source_name(result: &LiveRecordingResult) -> (r: String)
    ensures
        r@ == source_name_spec(result.input_device_label@, ov(result.input_device_id)),
{
    match &result.input_device_id {
        Some(id) => live_source_name(result.input_device_label.as_str(), Some(id.as_str())),
        None => live_source_name(result.input_device_label.as_str(), None),
    }
}

/// What the live banner shows about the last capture.
#[derive(Debug, Clone, PartialEq, Eq)]
pub struct LiveRecordingSummary {
    pub input_device_label: String,
    pub sample_rate_hz: u32,
    pub channels: u16,
    pub duration_ms: u64,
}

/// Summary of a finished capture.
pub fn live_recording_summary(result: &LiveRecordingResult) -> (r: LiveRecordingSummary)
    ensures
        r.input_device_label@ == source_name_spec(
            result.input_device_label@,
            ov(result.input_device_id),
        ),
        r.sample_rate_hz == result.sample_rate_hz,
        r.channels == result.channels,
        r.duration_ms == result.duration_ms,
{
    LiveRecordingSummary {
        input_device_label: live_transcription_source_name(result),
        sample_rate_hz: result.sample_rate_hz,
        channels: result.channels,
        duration_ms: result.duration_ms,
    }
}

/// `{label} ({MM:SS}, {rate} Hz, {channels} ch)`.
pub open spec fn capture_details(r: LiveRecordingResult) -> Seq<char> {
    r.input_device_label@ + " ("@ + clock_spec(r.duration_ms) + ", "@ + decimal(
        r.sample_rate_hz as nat,
    ) + " Hz, "@ + decimal(r.channels as nat) + " ch)"@
}

/// Feedback after a capture stops.
pub open spec fn stop_feedback_spec(r: LiveRecordingResult, expected_dual: bool, os: TargetOs) -> Seq<
    char,
> {
    if expected_dual && !r.is_dual_capture {
        if os == TargetOs::MacOs {
            "Capture stopped, but system audio was not captured. Transcribe Kit fell back to microphone-only recording from "@
                + capture_details(r)
                + ". Enable System Audio Recording for Transcribe Kit in System Settings > Privacy & Security, then try again."@
        } else {
            "Capture stopped, but system audio was not captured. Transcribe Kit fell back to microphone-only recording from "@
                + capture_details(r) + ". Check system audio capture permissions and try again."@
        }
    } else {
        "Capture stopped. Temporary WAV saved from "@ + capture_details(r) + "."@
    }
}

fn push_capture_details(out: &mut String, r: &LiveRecordingResult)
    ensures
        final(out)@ == old(out)@ + capture_details(*r),
{
    out.append(r.input_device_label.as_str());
    out.append(" (");
    let clock = format_duration(r.duration_ms);
    out.append(clock.as_str());
    out.append(", ");
    push_decimal(out, r.sample_rate_hz as u64);
    out.append(" Hz, ");
    push_decimal(out, r.channels as u64);
    out.append(" ch)");
    assert(final(out)@ =~= old(out)@ + capture_details(*r));
}

/// Feedback after a capture stops; warns when dual capture was expected but
/// only the microphone was recorded.
pub fn stop_capture_feedback_message(
    result: &LiveRecordingResult,
    expected_dual_capture: bool,
    os: TargetOs,
) -> (r: String)
    ensures
        r@ == stop_feedback_spec(*result, expected_dual_capture, os),
{
    if expected_dual_capture && !result.is_dual_capture {
        let mut m =
            "Capture stopped, but system audio was not captured. Transcribe Kit fell back to microphone-only recording from ".to_owned();
        push_capture_details(&mut m, result);
        if os == TargetOs::MacOs {
            m.append(
                ". Enable System Audio Recording for Transcribe Kit in System Settings > Privacy & Security, then try again.",
            );
        } else {
            m.append(". Check system audio capture permissions and try again.");
        }
        return m;
    }
    let mut m = "Capture stopped. Temporary WAV saved from ".to_owned();
    push_capture_details(&mut m, result);
    m.append(".");
    m
}

/// How the live banner changes when a stop request returns.
#[derive(Debug, Clone, PartialEq, Eq)]
pub struct StopUiTransition {
    pub status: LiveRecordingStatus,
    pub armed_input_label: Option<String>,
    pub last_result: Option<LiveRecordingSummary>,
    pub feedback_message: Option<String>,
    pub error_message: Option<String>,
}

/// The banner after a stop request: idle either way; on success the capture
/// summary and feedback, on failure only an error.
pub fn stop_ui_transition(
    result: Result<LiveRecordingResult, String>,
    expected_dual_capture: bool,
    os: TargetOs,
) -> (t: StopUiTransition)
    ensures
        t.status.state == LiveRecordingState::Idle,
        t.status.input_device_label is None,
        t.status.duration_ms is None,
        t.status.message is None,
        match result {
            Ok(r) => {
                &&& t.armed_input_label matches Some(l) && l@ == r.input_device_label@
                &&& t.last_result matches Some(s) && s.input_device_label@ == source_name_spec(
                    r.input_device_label@,
                    ov(r.input_device_id),
                ) && s.sample_rate_hz == r.sample_rate_hz && s.channels == r.channels
                    && s.duration_ms == r.duration_ms
                &&& t.feedback_message matches Some(f) && f@ == stop_feedback_spec(
                    r,
                    expected_dual_capture,
                    os,
                )
                &&& t.error_message is None
            },
            Err(e) => {
                &&& t.armed_input_label is None
                &&& t.last_result is None
                &&& t.feedback_message is None
                &&& t.error_message matches Some(m) && m@ == "Live capture did not stop cleanly: "@
                    + e@
            },
        },
{
    match result {
        Ok(r) => {
            let feedback = stop_capture_feedback_message(&r, expected_dual_capture, os);
            let summary = live_recording_summary(&r);
            StopUiTransition {
                status: idle_status(),
                armed_input_label: Some(r.input_device_label.clone()),
                last_result: Some(summary),
                feedback_message: Some(feedback),
                error_message: None,
            }
        },
        Err(e) => StopUiTransition {
            status: idle_status(),
            armed_input_label: None,
            last_result: None,
            feedback_message: None,
            error_message: Some(prefixed("Live capture did not stop cleanly: ", e.as_str())),
        },
    }
}

/// Message shown when a capture is requested while a transcription runs.
pub open spec fn busy_message() -> Seq<char> {
    "Wait for the current transcription job to finish before starting another live capture."@
}

/// The live banner and the pending recording goal.
pub struct LiveRecordingController {
    pub status: LiveRecordingStatus,
    pub armed_input_label: String,
    pub armed_capture_profile: LiveCaptureProfile,
    pub armed_dual_capture: bool,
    pub recording_started_at_ms: Option<u64>,
    pub feedback_message: Option<String>,
    pub error_message: Option<String>,
    pub load_error: Option<String>,
    pub device_context_error: Option<String>,
    pub last_result: Option<LiveRecordingSummary>,
    pub is_ready: bool,
    pub transcription: TranscriptionController,
    pub desired_recording: bool,
    pub request_in_flight: bool,
}

impl LiveRecordingController {
    /// Idle, not ready, recording from the system default input.
    pub fn new(transcription: TranscriptionController) -> (r: Self)
        ensures
            r.status.state == LiveRecordingState::Idle,
            r.armed_input_label@ == "System default input"@,
            r.armed_capture_profile == LiveCaptureProfile::MicrophoneOnly,
            !r.armed_dual_capture,
            r.recording_started_at_ms is None,
            r.feedback_message is None,
            r.error_message is None,
            r.load_error is None,
            r.device_context_error is None,
            r.last_result is None,
            !r.is_ready,
            r.transcription == transcription,
            !r.desired_recording,
            !r.request_in_flight,
    {
        LiveRecordingController {
            status: idle_status(),
            armed_input_label: "System default input".to_owned(),
            armed_capture_profile: LiveCaptureProfile::MicrophoneOnly,
            armed_dual_capture: false,
            recording_started_at_ms: None,
            feedback_message: None,
            error_message: None,
            load_error: None,
            device_context_error: None,
            last_result: None,
            is_ready: false,
            transcription,
            desired_recording: false,
            request_in_flight: false,
        }
    }

    /// Whether the backend reports an active capture.
    pub open spec fn recording(&self) -> bool {
        self.status.state == LiveRecordingState::Recording
    }

    /// Moves toward the recording goal.  While a transcription runs a new
    /// capture is refused (the goal drops back and the user is told why);
    /// while a request is in flight nothing happens; otherwise a start or
    /// stop request is issued when the goal and the recorder disagree.  The
    /// returned command is for the app to send; it answers with
    /// `finish_start` or `finish_stop`.
    pub fn reconcile_recording_goal(&mut self) -> (cmd: Option<LiveRecordingCommand>)
        ensures
            final(self).status == old(self).status,
            final(self).transcription == old(self).transcription,
            final(self).armed_input_label == old(self).armed_input_label,
            final(self).recording_started_at_ms == old(self).recording_started_at_ms,
            old(self).desired_recording && old(self).transcription.is_transcribing ==> {
                &&& cmd is None
                &&& !final(self).desired_recording
                &&& final(self).error_message is None
                &&& final(self).feedback_message matches Some(m) && m@ == busy_message()
                &&& final(self).request_in_flight == old(self).request_in_flight
                &&& final(self).last_result == old(self).last_result
            },
            !(old(self).desired_recording && old(self).transcription.is_transcribing)
                && old(self).request_in_flight ==> {
                &&& cmd is None
                &&& final(self).desired_recording == old(self).desired_recording
                &&& final(self).request_in_flight
                &&& final(self).error_message == old(self).error_message
                &&& final(self).feedback_message == old(self).feedback_message
                &&& final(self).last_result == old(self).last_result
            },
            !(old(self).desired_recording && old(self).transcription.is_transcribing)
                && !old(self).request_in_flight ==> {
                &&& final(self).desired_recording == old(self).desired_recording
                &&& cmd == (if !old(self).recording() && old(self).desired_recording {
                    Some(LiveRecordingCommand::Start)
                } else if old(self).recording() && !old(self).desired_recording {
                    Some(LiveRecordingCommand::Stop)
                } else {
                    None
                })
                &&& cmd is None ==> final(self).request_in_flight == old(self).request_in_flight
                    && final(self).error_message == old(self).error_message
                    && final(self).feedback_message == old(self).feedback_message
                    && final(self).last_result == old(self).last_result
                &&& cmd == Some(LiveRecordingCommand::Start) ==> final(self).request_in_flight
                    && final(self).error_message is None && final(self).last_result is None
                    && (final(self).feedback_message matches Some(m) && m@
                    == "Starting live capture..."@)
                &&& cmd == Some(LiveRecordingCommand::Stop) ==> final(self).request_in_flight
                    && final(self).error_message is None && final(self).last_result
                    == old(self).last_result && (final(self).feedback_message matches Some(m)
                    && m@ == "Stopping live capture..."@)
            },
    {
        let is_recording = self.status.state == LiveRecordingState::Recording;
        if self.desired_recording && self.transcription.is_transcribing {
            self.desired_recording = false;
            self.error_message = None;
            self.feedback_message = Some(
                "Wait for the current transcription job to finish before starting another live capture.".to_owned(),
            );
            return None;
        }
        if self.request_in_flight {
            return None;
        }
        let command = next_command_for_goal(is_recording, self.desired_recording);
        match command {
            None => None,
            Some(LiveRecordingCommand::Start) => {
                self.request_in_flight = true;
                self.error_message = None;
                self.last_result = None;
                self.feedback_message = Some("Starting live capture...".to_owned());
                Some(LiveRecordingCommand::Start)
            },
            Some(LiveRecordingCommand::Stop) => {
                self.request_in_flight = true;
                self.error_message = None;
                self.feedback_message = Some("Stopping live capture...".to_owned());
                Some(LiveRecordingCommand::Stop)
            },
        }
    }

    /// The record button: aim for the opposite of what the recorder does.
    pub fn toggle_recording(&mut self) -> (cmd: Option<LiveRecordingCommand>)
        ensures
            !(!old(self).recording() && old(self).transcription.is_transcribing) ==> final(self).desired_recording == !old(self).recording(),
            !(!old(self).recording() && old(self).transcription.is_transcribing)
                && !old(self).request_in_flight ==> cmd == (if old(self).recording() {
                Some(LiveRecordingCommand::Stop)
            } else {
                Some(LiveRecordingCommand::Start)
            }),
            !old(self).recording() && old(self).transcription.is_transcribing ==> cmd is None
                && !final(self).desired_recording,
            old(self).request_in_flight ==> cmd is None,
    {
        let is_recording = self.status.state == LiveRecordingState::Recording;
        self.desired_recording = !is_recording;
        self.reconcile_recording_goal()
    }

    /// A hotkey press or release: updates the goal (when the mode gives
    /// one) and moves toward it.
    pub fn apply_hotkey_event(&mut self, mode: HotkeyMode, state: HotkeyActivityState) -> (cmd:
        Option<LiveRecordingCommand>)
        ensures
            mode == HotkeyMode::Toggle && state == HotkeyActivityState::Released ==> cmd is None
                && *final(self) == *old(self),
            old(self).request_in_flight ==> cmd is None,
            mode == HotkeyMode::PushToTalk && state == HotkeyActivityState::Pressed
                && !old(self).transcription.is_transcribing ==> final(self).desired_recording,
            mode == HotkeyMode::PushToTalk && state == HotkeyActivityState::Pressed
                && !old(self).transcription.is_transcribing && !old(self).request_in_flight
                && !old(self).recording() ==> cmd == Some(LiveRecordingCommand::Start)
                && final(self).request_in_flight,
            mode == HotkeyMode::PushToTalk && state == HotkeyActivityState::Released
                ==> !final(self).desired_recording,
            mode == HotkeyMode::PushToTalk && state == HotkeyActivityState::Released
                && !old(self).request_in_flight && old(self).recording() ==> cmd == Some(
                LiveRecordingCommand::Stop,
            ) && final(self).request_in_flight,
            mode == HotkeyMode::Toggle && state == HotkeyActivityState::Pressed && !(
            !old(self).desired_recording && old(self).transcription.is_transcribing)
                ==> final(self).desired_recording == !old(self).desired_recording,
            mode == HotkeyMode::Toggle && state == HotkeyActivityState::Pressed
                && !old(self).desired_recording && old(self).transcription.is_transcribing
                ==> cmd is None && !final(self).desired_recording,
    {
        let is_recording = self.status.state == LiveRecordingState::Recording;
        match desired_recording_goal(mode, state, is_recording, self.desired_recording) {
            None => None,
            Some(goal) => {
                proof {
                    law_toggle_press_inverts_goal(is_recording, self.desired_recording);
                }
                self.desired_recording = goal;
                self.reconcile_recording_goal()
            },
        }
    }

    /// Shows a status reported by the backend; `now_ms` anchors the
    /// elapsed-time display of an active capture.
    pub fn apply_status(&mut self, status: LiveRecordingStatus, now_ms: u64)
        ensures
            final(self).status == status,
            final(self).load_error is None,
            status.input_device_label matches Some(l) ==> final(self).armed_input_label == l
                && final(self).device_context_error is None,
            status.input_device_label is None ==> final(self).armed_input_label == old(self).armed_input_label && final(self).device_context_error == old(self).device_context_error,
            status.state == LiveRecordingState::Recording ==> {
                let baseline: int = match status.duration_ms {
                    Some(d) => d as int,
                    None => 0,
                };
                &&& final(self).recording_started_at_ms == Some(
                    (if now_ms >= baseline {
                        now_ms - baseline
                    } else {
                        0
                    }) as u64,
                )
                &&& final(self).last_result is None
                &&& final(self).feedback_message is None
                &&& status.message is None ==> final(self).error_message is None
            },
            status.state != LiveRecordingState::Recording ==> final(self).recording_started_at_ms
                is None && final(self).last_result == old(self).last_result
                && final(self).feedback_message == old(self).feedback_message && (status.message
                is None ==> final(self).error_message == old(self).error_message),
            status.message matches Some(m) ==> final(self).error_message == Some(m),
            final(self).desired_recording == old(self).desired_recording,
            final(self).request_in_flight == old(self).request_in_flight,
            final(self).transcription == old(self).transcription,
    {
        self.load_error = None;
        match &status.input_device_label {
            Some(label) => {
                self.armed_input_label = label.clone();
                self.device_context_error = None;
            },
            None => {},
        }
        if status.state == LiveRecordingState::Recording {
            let baseline = match status.duration_ms {
                Some(d) => d,
                None => 0,
            };
            let started = if now_ms >= baseline {
                now_ms - baseline
            } else {
                0
            };
            self.recording_started_at_ms = Some(started);
            self.error_message = None;
            self.feedback_message = None;
            self.last_result = None;
        } else {
            self.recording_started_at_ms = None;
        }
        match &status.message {
            Some(m) => {
                self.error_message = Some(m.clone());
            },
            None => {},
        }
        self.status = status;
    }

    /// The status read at start-up: the goal follows it; a failure to read
    /// it is shown.  The banner is ready either way.
    pub fn finish_initial_status_load(&mut self, result: Result<LiveRecordingStatus, String>, now_ms: u64)
        ensures
            final(self).is_ready,
            result is Ok ==> final(self).status == result->Ok_0 && final(self).desired_recording
                == (result->Ok_0.state == LiveRecordingState::Recording),
            result is Err ==> (final(self).load_error matches Some(m) && m@
                == "Live recording status could not be loaded: "@ + result->Err_0@),
            result is Err ==> final(self).status == old(self).status && final(self).desired_recording
                == old(self).desired_recording,
    {
        match result {
            Ok(status) => {
                self.desired_recording = status.state == LiveRecordingState::Recording;
                self.apply_status(status, now_ms);
            },
            Err(e) => {
                self.load_error = Some(prefixed("Live recording status could not be loaded: ", e.as_str()));
            },
        }
        self.is_ready = true;
    }

    /// A status pushed by the backend: unless a request is in flight, the
    /// goal follows what the backend reports.
    pub fn apply_status_event(&mut self, status: LiveRecordingStatus, now_ms: u64)
        ensures
            final(self).status == status,
            !old(self).request_in_flight ==> final(self).desired_recording == (status.state
                == LiveRecordingState::Recording),
            old(self).request_in_flight ==> final(self).desired_recording == old(self).desired_recording,
    {
        if !self.request_in_flight {
            self.desired_recording = status.state == LiveRecordingState::Recording;
        }
        self.apply_status(status, now_ms);
    }

    /// The answer to a start request; the request is no longer in flight.
    pub fn finish_start(&mut self, result: Result<LiveRecordingStatus, String>, now_ms: u64)
        ensures
            !final(self).request_in_flight,
            result matches Ok(st) ==> final(self).status == st && final(self).desired_recording
                == old(self).desired_recording,
            result matches Err(e) ==> {
                &&& !final(self).desired_recording
                &&& final(self).status.state == LiveRecordingState::Idle
                &&& final(self).recording_started_at_ms is None
                &&& final(self).error_message matches Some(m) && m@
                    == "Live capture did not start: "@ + e@
                &&& final(self).feedback_message is None
            },
    {
        match result {
            Ok(status) => {
                self.apply_status(status, now_ms);
            },
            Err(e) => {
                self.desired_recording = false;
                self.status = idle_status();
                self.recording_started_at_ms = None;
                self.error_message = Some(prefixed("Live capture did not start: ", e.as_str()));
                self.feedback_message = None;
            },
        }
        self.request_in_flight = false;
    }

    /// Applies the banner changes of a stop answer.
    pub fn apply_stop_ui_transition(&mut self, transition: &StopUiTransition)
        ensures
            transition.armed_input_label matches Some(l) ==> final(self).armed_input_label == l,
            transition.armed_input_label is None ==> final(self).armed_input_label == old(self).armed_input_label,
            final(self).status == transition.status,
            final(self).recording_started_at_ms is None,
            final(self).last_result == transition.last_result,
            final(self).feedback_message == transition.feedback_message,
            final(self).error_message == transition.error_message,
            final(self).transcription == old(self).transcription,
            final(self).desired_recording == old(self).desired_recording,
            final(self).request_in_flight == old(self).request_in_flight,
    {
        match &transition.armed_input_label {
            Some(label) => {
                self.armed_input_label = label.clone();
            },
            None => {},
        }
        self.status = copy_status(&transition.status);
        self.recording_started_at_ms = None;
        self.last_result = copy_summary(&transition.last_result);
        self.feedback_message = duplicate_opt(&transition.feedback_message);
        self.error_message = duplicate_opt(&transition.error_message);
    }

    /// The answer to a stop request: the banner goes idle and, on success,
    /// the recording is handed over for transcription (returned).  The
    /// request is no longer in flight.
    pub fn finish_stop(&mut self, result: Result<LiveRecordingResult, String>, os: TargetOs) -> (r:
        Option<LiveRecordingResult>)
        ensures
            !final(self).request_in_flight,
            final(self).status.state == LiveRecordingState::Idle,
            final(self).recording_started_at_ms is None,
            r == match result {
                Ok(res) => Some(res),
                Err(_) => None,
            },
            result matches Err(e) ==> final(self).error_message matches Some(m) && m@
                == "Live capture did not stop cleanly: "@ + e@,
            result matches Ok(res) ==> final(self).error_message is None && (final(self).feedback_message matches Some(f) && f@ == stop_feedback_spec(
                res,
                old(self).armed_dual_capture && old(self).armed_capture_profile
                    == LiveCaptureProfile::MeetingMix,
                os,
            )),
    {
        let expected_dual = self.armed_dual_capture && self.armed_capture_profile
            == LiveCaptureProfile::MeetingMix;
        let (transition, out) = match result {
            Ok(res) => {
                let copy = copy_result(&res);
                (stop_ui_transition(Ok(copy), expected_dual, os), Some(res))
            },
            Err(e) => (stop_ui_transition(Err(e), false, os), None),
        };
        self.apply_stop_ui_transition(&transition);
        self.request_in_flight = false;
        out
    }

    /// A live transcription starts for a capture from `source_name`.
    pub fn apply_live_transcription_started(&mut self, source_name: &str)
        ensures
            final(self).error_message is None,
            final(self).feedback_message is None,
            final(self).transcription.is_transcribing,
            final(self).transcription.job_status.input_type == InputType::Live,
            final(self).transcription.job_status.source_name matches Some(n) && n@ == source_name@,
            final(self).status == old(self).status,
            final(self).last_result == old(self).last_result,
    {
        self.error_message = None;
        self.feedback_message = None;
        self.transcription.start_live_job(source_name.to_owned());
    }

    /// A live transcription finished.
    pub fn apply_live_transcription_succeeded(&mut self, source_name: &str, result: TranscriptResult)
        ensures
            final(self).transcription.transcript == Some(result),
            !final(self).transcription.is_transcribing,
            final(self).error_message is None,
            final(self).feedback_message matches Some(m) && m@
                == "Live transcript ready for review from "@ + source_name@ + "."@,
            final(self).status == old(self).status,
            final(self).last_result == old(self).last_result,
    {
        self.transcription.complete_job(result);
        self.error_message = None;
        let mut m = prefixed("Live transcript ready for review from ", source_name);
        m.append(".");
        self.feedback_message = Some(m);
    }

    /// A live transcription failed.
    pub fn apply_live_transcription_failed(&mut self, source_name: &str, error: &str)
        ensures
            final(self).transcription.transcript is None,
            !final(self).transcription.is_transcribing,
            final(self).transcription.job_status.input_type == InputType::Live,
            final(self).transcription.job_status.source_name matches Some(n) && n@ == source_name@,
            final(self).transcription.job_status.message matches Some(m) && m@ == error@,
            final(self).feedback_message is None,
            final(self).error_message matches Some(m) && m@ == "Live transcription failed: "@
                + error@,
            final(self).status == old(self).status,
            final(self).last_result == old(self).last_result,
    {
        self.transcription.fail_job(
            InputType::Live,
            Some(source_name.to_owned()),
            error.to_owned(),
        );
        self.feedback_message = None;
        self.error_message = Some(prefixed("Live transcription failed: ", error));
    }

    /// Refreshes what the next capture will use from saved settings and the
    /// device list (either may have failed to load).
    pub fn apply_device_context(
        &mut self,
        settings: Result<AppSettings, String>,
        devices: Result<Vec<AudioInputDeviceDescriptor>, String>,
    )
        ensures
            (settings is Ok && devices is Ok) ==> {
                &&& final(self).armed_capture_profile == settings->Ok_0.live_capture_profile
                &&& final(self).armed_dual_capture == armed_for_dual_spec(
                    settings->Ok_0,
                    devices->Ok_0@,
                )
                &&& final(self).device_context_error is None
            },
            (settings is Err || devices is Err) ==> !final(self).armed_dual_capture && final(self).device_context_error is Some,
            (settings is Err && devices is Err) ==> (final(self).device_context_error matches Some(
                m,
            ) && m@ == "Saved recording device context could not be refreshed: settings: "@
                + settings->Err_0@ + " | input devices: "@ + devices->Err_0@),
            (settings is Err && devices is Ok) ==> (final(self).device_context_error matches Some(
                m,
            ) && m@ == "Saved recording settings could not be refreshed: "@ + settings->Err_0@),
            (settings is Ok && devices is Err) ==> (final(self).device_context_error matches Some(
                m,
            ) && m@ == "Available audio inputs could not be refreshed: "@ + devices->Err_0@),
    {
        match (settings, devices) {
            (Ok(s), Ok(d)) => {
                self.armed_capture_profile = s.live_capture_profile;
                self.armed_dual_capture = is_armed_for_dual_capture(&s, d.as_slice());
                self.armed_input_label = resolve_armed_input_label(&s, d.as_slice());
                self.device_context_error = None;
            },
            (Err(se), Err(de)) => {
                self.armed_dual_capture = false;
                let mut m = prefixed(
                    "Saved recording device context could not be refreshed: settings: ",
                    se.as_str(),
                );
                m.append(" | input devices: ");
                m.append(de.as_str());
                self.device_context_error = Some(m);
            },
            (Err(se), Ok(_)) => {
                self.armed_dual_capture = false;
                self.device_context_error = Some(
                    prefixed("Saved recording settings could not be refreshed: ", se.as_str()),
                );
            },
            (Ok(_), Err(de)) => {
                self.armed_dual_capture = false;
                self.device_context_error = Some(
                    prefixed("Available audio inputs could not be refreshed: ", de.as_str()),
                );
            },
        }
    }
}

/// An equal copy of a status.
pub fn copy_status(s: &LiveRecordingStatus) -> (r: LiveRecordingStatus)
    ensures
        r == *s,
{
    LiveRecordingStatus {
        state: s.state,
        input_device_id: duplicate_opt(&s.input_device_id),
        input_device_label: duplicate_opt(&s.input_device_label),
        output_file_path: duplicate_opt(&s.output_file_path),
        sample_rate_hz: s.sample_rate_hz,
        channels: s.channels,
        duration_ms: s.duration_ms,
        message: duplicate_opt(&s.message),
    }
}

fn copy_summary(s: &Option<LiveRecordingSummary>) -> (r: Option<LiveRecordingSummary>)
    ensures
        r == *s,
{
    match s {
        Some(x) => Some(
            LiveRecordingSummary {
                input_device_label: x.input_device_label.clone(),
                sample_rate_hz: x.sample_rate_hz,
                channels: x.channels,
                duration_ms: x.duration_ms,
            },
        ),
        None => None,
    }
}

/// An equal copy of a capture result.
pub fn copy_result(r: &LiveRecordingResult) -> (c: LiveRecordingResult)
    ensures
        c == *r,
{
    LiveRecordingResult {
        file_path: r.file_path.clone(),
        input_device_id: duplicate_opt(&r.input_device_id),
        input_device_label: r.input_device_label.clone(),
        sample_rate_hz: r.sample_rate_hz,
        channels: r.channels,
        duration_ms: r.duration_ms,
        is_dual_capture: r.is_dual_capture,
    }
}

} // verus!
