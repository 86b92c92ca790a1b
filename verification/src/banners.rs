//! The two banners above every screen: the live recording banner (state,
//! device, details and chips of the recorder) and the short-lived hotkey
//! activity banner.
use vstd::prelude::*;

use crate::live::{clock_spec, format_duration, LiveRecordingController};
use crate::models::{
    HotkeyActivityEvent, HotkeyActivityState, HotkeyMode, InputType, LiveRecordingState,
};
use crate::text::{decimal, push_decimal};

verus! {

impl LiveRecordingController {
    /// A live recording is being transcribed.
    pub open spec fn live_transcribing(&self) -> bool {
        self.transcription.is_transcribing && self.transcription.job_status.input_type
            == InputType::Live
    }

    /// Some problem is shown: a start or stop error, a status load error,
    /// or a device context error.
    pub open spec fn has_problem(&self) -> bool {
        self.error_message is Some || self.load_error is Some || self.device_context_error is Some
    }

    /// Whether a live recording is being transcribed.
    pub fn is_live_transcribing(&self) -> (r: bool)
        ensures
            r == self.live_transcribing(),
    {
        self.transcription.is_transcribing && self.transcription.job_status.input_type
            == InputType::Live
    }

    /// The banner's style class.
    pub fn banner_class(&self) -> (r: &'static str)
        ensures
            self.recording() ==> r@ == "recording-banner recording-banner-active"@,
            !self.recording() && self.has_problem() ==> r@
                == "recording-banner recording-banner-error"@,
            !self.recording() && !self.has_problem() ==> r@ == "recording-banner"@,
    {
        if self.status.state == LiveRecordingState::Recording {
            "recording-banner recording-banner-active"
        } else if self.error_message.is_some() || self.load_error.is_some()
            || self.device_context_error.is_some() {
            "recording-banner recording-banner-error"
        } else {
            "recording-banner"
        }
    }

    /// The banner's title.
    pub fn banner_state_label(&self) -> (r: &'static str)
        ensures
            r@ == if self.recording() {
                "Recording"@
            } else if self.live_transcribing() {
                "Transcribing"@
            } else if self.has_problem() {
                "Needs attention"@
            } else if self.is_ready {
                "Armed"@
            } else {
                "Loading"@
            },
    {
        if self.status.state == LiveRecordingState::Recording {
            "Recording"
        } else if self.is_live_transcribing() {
            "Transcribing"
        } else if self.error_message.is_some() || self.load_error.is_some()
            || self.device_context_error.is_some() {
            "Needs attention"
        } else if self.is_ready {
            "Armed"
        } else {
            "Loading"
        }
    }

    /// The device the banner names: the one reported by the recorder, else
    /// the armed one.
    pub fn active_device_label(&self) -> (r: String)
        ensures
            r == match self.status.input_device_label {
                Some(l) => l,
                None => self.armed_input_label,
            },
    {
        match &self.status.input_device_label {
            Some(l) => l.clone(),
            None => self.armed_input_label.clone(),
        }
    }

    /// The banner's text: the first problem; while recording the device,
    /// format and elapsed time; while transcribing the job's message; else
    /// the last feedback or what the hotkey will do.
    pub fn banner_detail(&self, elapsed_ms: u64) -> (r: String)
        ensures
            self.error_message matches Some(e) ==> r == e,
            self.error_message is None ==> (self.load_error matches Some(e) ==> r == e),
            self.error_message is None && self.load_error is None ==> (
            self.device_context_error matches Some(e) ==> r == e),
            !self.has_problem() && self.recording() ==> r@ == "Recording from "@ + (match self.status.input_device_label {
                Some(l) => l@,
                None => self.armed_input_label@,
            }) + " at "@ + decimal(
                match self.status.sample_rate_hz {
                    Some(h) => h as nat,
                    None => 0,
                },
            ) + " Hz, "@ + decimal(
                match self.status.channels {
                    Some(c) => c as nat,
                    None => 0,
                },
            ) + " ch, "@ + clock_spec(elapsed_ms) + " elapsed."@,
            !self.has_problem() && !self.recording() && self.live_transcribing() ==> r@
                == match self.transcription.job_status.message {
                Some(m) => m@,
                None => match self.feedback_message {
                    Some(f) => f@,
                    None => "Transcribing live recording..."@,
                },
            },
            !self.has_problem() && !self.recording() && !self.live_transcribing() ==> r@
                == match self.feedback_message {
                Some(f) => f@,
                None => "Ready to capture from "@ + self.armed_input_label@
                    + " when the recording hotkey is pressed."@,
            },
    {
        match &self.error_message {
            Some(e) => {
                return e.clone();
            },
            None => {},
        }
        match &self.load_error {
            Some(e) => {
                return e.clone();
            },
            None => {},
        }
        match &self.device_context_error {
            Some(e) => {
                return e.clone();
            },
            None => {},
        }
        if self.status.state == LiveRecordingState::Recording {
            let mut r = String::from_str("Recording from ");
            let device = self.active_device_label();
            r.append(device.as_str());
            r.append(" at ");
            let hz: u64 = match self.status.sample_rate_hz {
                Some(h) => h as u64,
                None => 0,
            };
            push_decimal(&mut r, hz);
            r.append(" Hz, ");
            let ch: u64 = match self.status.channels {
                Some(c) => c as u64,
                None => 0,
            };
            push_decimal(&mut r, ch);
            r.append(" ch, ");
            let clock = format_duration(elapsed_ms);
            r.append(clock.as_str());
            r.append(" elapsed.");
            proof {
                reveal_strlit("Recording from ");
            }
            return r;
        }
        if self.is_live_transcribing() {
            return match &self.transcription.job_status.message {
                Some(m) => m.clone(),
                None => match &self.feedback_message {
                    Some(f) => f.clone(),
                    None => String::from_str("Transcribing live recording..."),
                },
            };
        }
        match &self.feedback_message {
            Some(f) => f.clone(),
            None => {
                let mut r = String::from_str("Ready to capture from ");
                r.append(self.armed_input_label.as_str());
                r.append(" when the recording hotkey is pressed.");
                proof {
                    reveal_strlit("Ready to capture from ");
                }
                r
            },
        }
    }

    /// The progress chip while a live recording is transcribed.
    pub fn live_progress_chip(&self) -> (r: String)
        ensures
            r@ == match self.transcription.progress_percent {
                Some(p) => "Progress: "@ + (if p < 0 {
                    seq!['-'] + decimal((-p) as nat)
                } else {
                    decimal(p as nat)
                }) + "%"@,
                None => "Progress pending"@,
            },
    {
        match crate::transcription_screen::progress_chip(self.transcription.progress_percent) {
            Some(t) => t,
            None => String::from_str("Progress pending"),
        }
    }

    /// The chip of the last capture's length (empty without one).
    pub fn last_capture_chip(&self) -> (r: String)
        ensures
            r@ == match self.last_result {
                Some(s) => "Last capture: "@ + clock_spec(s.duration_ms),
                None => Seq::<char>::empty(),
            },
    {
        match &self.last_result {
            Some(s) => {
                let mut r = String::from_str("Last capture: ");
                let clock = format_duration(s.duration_ms);
                r.append(clock.as_str());
                proof {
                    reveal_strlit("Last capture: ");
                }
                r
            },
            None => String::new(),
        }
    }
}

/// `N Hz` while recording, else a placeholder.
pub fn sample_rate_chip(sample_rate_hz: Option<u32>) -> (r: String)
    ensures
        r@ == match sample_rate_hz {
            Some(h) => decimal(h as nat) + " Hz"@,
            None => "Sample rate pending"@,
        },
{
    match sample_rate_hz {
        Some(h) => {
            let mut r = String::new();
            push_decimal(&mut r, h as u64);
            r.append(" Hz");
            r
        },
        None => String::from_str("Sample rate pending"),
    }
}

/// `N ch` while recording, else a placeholder.
pub fn channels_chip(channels: Option<u16>) -> (r: String)
    ensures
        r@ == match channels {
            Some(c) => decimal(c as nat) + " ch"@,
            None => "Channel count pending"@,
        },
{
    match channels {
        Some(c) => {
            let mut r = String::new();
            push_decimal(&mut r, c as u64);
            r.append(" ch");
            r
        },
        None => String::from_str("Channel count pending"),
    }
}

/// The line of the hotkey banner for an event.
pub fn hotkey_activity_label(event: &HotkeyActivityEvent) -> (r: String)
    ensures
        r@ == "Hotkey "@ + (match event.state {
            HotkeyActivityState::Pressed => "pressed"@,
            HotkeyActivityState::Released => "released"@,
        }) + (if event.triggered_while_background {
            " in background: "@
        } else {
            ": "@
        }) + event.shortcut@ + " ("@ + (match event.mode {
            HotkeyMode::PushToTalk => "push-to-talk"@,
            HotkeyMode::Toggle => "toggle"@,
        }) + ")"@,
{
    let mut r = String::from_str("Hotkey ");
    match event.state {
        HotkeyActivityState::Pressed => r.append("pressed"),
        HotkeyActivityState::Released => r.append("released"),
    }
    if event.triggered_while_background {
        r.append(" in background: ");
    } else {
        r.append(": ");
    }
    r.append(event.shortcut.as_str());
    r.append(" (");
    match event.mode {
        HotkeyMode::PushToTalk => r.append("push-to-talk"),
        HotkeyMode::Toggle => r.append("toggle"),
    }
    r.append(")");
    proof {
        reveal_strlit("Hotkey ");
    }
    r
}

/// The hotkey banner: the last event, shown until its timer fires, and a
/// counter that tells the timers apart.
#[derive(Debug, Clone)]
pub struct HotkeyActivityBanner {
    pub activity: Option<HotkeyActivityEvent>,
    pub nonce: u64,
}

impl HotkeyActivityBanner {
    /// Nothing shown.
    pub fn new() -> (r: Self)
        ensures
            r.activity is None,
            r.nonce == 0,
    {
        HotkeyActivityBanner { activity: None, nonce: 0 }
    }

    /// Shows an event; returns the nonce its timer carries.
    pub fn show(&mut self, event: HotkeyActivityEvent) -> (r: u64)
        ensures
            final(self).activity == Some(event),
            r == final(self).nonce,
            final(self).nonce == (if old(self).nonce == u64::MAX {
                u64::MAX as int
            } else {
                old(self).nonce + 1
            }),
    {
        self.activity = Some(event);
        if self.nonce < u64::MAX {
            self.nonce = self.nonce + 1;
        }
        self.nonce
    }

    /// The timer of `nonce` fired: the banner hides unless a later event
    /// replaced it.
    pub fn expire(&mut self, nonce: u64)
        ensures
            old(self).nonce == nonce ==> final(self).activity is None,
            old(self).nonce != nonce ==> final(self).activity == old(self).activity,
            final(self).nonce == old(self).nonce,
    {
        if self.nonce == nonce {
            self.activity = None;
        }
    }

    /// The banner is styled apart when the app was in the background.
    pub fn in_background(&self) -> (r: bool)
        ensures
            r == (self.activity matches Some(e) && e.triggered_while_background),
    {
        match &self.activity {
            Some(e) => e.triggered_while_background,
            None => false,
        }
    }
}

} // verus!
