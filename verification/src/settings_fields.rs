//! The fields of the settings screen: the choices of the select boxes, the
//! hints next to the audio input, the summary cards, the model download
//! row, and capturing a hotkey from the keyboard.
use vstd::prelude::*;

use crate::devices::{
    classify_input_device, classify_spec, describe_input_device, effective_input_device,
    first_selected, input_device_kind_summary, kind_summary_spec, InputDeviceKindHint,
};
use crate::display::{format_shortcut_preview, is_modifier_code, is_modifier_code_spec, join_plus, shortcut_parts};
use crate::models::{AudioInputDeviceDescriptor, HotkeyMode, LiveCaptureProfile, LocalModelDescriptor, ProviderMode};
use crate::text::{decimal, is_blank, push_decimal, str_eq, trim_spec};

verus! {

// ---------------------------------------------------------------------------
// Select boxes
// ---------------------------------------------------------------------------

/// The value of a capture profile in its select box.
pub fn capture_profile_value(profile: LiveCaptureProfile) -> (r: &'static str)
    ensures
        r@ == match profile {
            LiveCaptureProfile::MicrophoneOnly => "microphone-only"@,
            LiveCaptureProfile::MeetingMix => "meeting-mix"@,
        },
{
    match profile {
        LiveCaptureProfile::MicrophoneOnly => "microphone-only",
        LiveCaptureProfile::MeetingMix => "meeting-mix",
    }
}

/// The capture profile chosen in the select box; anything but
/// `meeting-mix` means microphone only.
pub fn capture_profile_from_value(value: &str) -> (r: LiveCaptureProfile)
    ensures
        r == (if value@ == "meeting-mix"@ {
            LiveCaptureProfile::MeetingMix
        } else {
            LiveCaptureProfile::MicrophoneOnly
        }),
{
    if str_eq(value, "meeting-mix") {
        LiveCaptureProfile::MeetingMix
    } else {
        LiveCaptureProfile::MicrophoneOnly
    }
}

/// What a capture profile records.
pub fn capture_profile_hint(profile: LiveCaptureProfile) -> (r: &'static str)
    ensures
        r@ == match profile {
            LiveCaptureProfile::MicrophoneOnly => "Records from your selected audio input. Best for voice notes and dictation."@,
            LiveCaptureProfile::MeetingMix => "Records from an input that already contains both your voice and remote call audio, such as a loopback, monitor, or virtual cable input."@,
        },
{
    match profile {
        LiveCaptureProfile::MicrophoneOnly => "Records from your selected audio input. Best for voice notes and dictation.",
        LiveCaptureProfile::MeetingMix => "Records from an input that already contains both your voice and remote call audio, such as a loopback, monitor, or virtual cable input.",
    }
}

/// The value of a provider in its select box.
pub fn provider_mode_value(mode: ProviderMode) -> (r: &'static str)
    ensures
        r@ == match mode {
            ProviderMode::Local => "local"@,
            ProviderMode::Api => "api"@,
        },
{
    match mode {
        ProviderMode::Local => "local",
        ProviderMode::Api => "api",
    }
}

/// The provider chosen in the select box; anything but `api` means local.
pub fn provider_mode_from_value(value: &str) -> (r: ProviderMode)
    ensures
        r == (if value@ == "api"@ {
            ProviderMode::Api
        } else {
            ProviderMode::Local
        }),
{
    if str_eq(value, "api") {
        ProviderMode::Api
    } else {
        ProviderMode::Local
    }
}

/// The value of a hotkey mode in its select box.
pub fn hotkey_mode_value(mode: HotkeyMode) -> (r: &'static str)
    ensures
        r@ == match mode {
            HotkeyMode::PushToTalk => "push-to-talk"@,
            HotkeyMode::Toggle => "toggle"@,
        },
{
    match mode {
        HotkeyMode::PushToTalk => "push-to-talk",
        HotkeyMode::Toggle => "toggle",
    }
}

/// The hotkey mode chosen in the select box; anything but `toggle` means
/// push-to-talk.
pub fn hotkey_mode_from_value(value: &str) -> (r: HotkeyMode)
    ensures
        r == (if value@ == "toggle"@ {
            HotkeyMode::Toggle
        } else {
            HotkeyMode::PushToTalk
        }),
{
    if str_eq(value, "toggle") {
        HotkeyMode::Toggle
    } else {
        HotkeyMode::PushToTalk
    }
}

/// How a hotkey mode behaves.
pub fn hotkey_mode_hint(mode: HotkeyMode) -> (r: &'static str)
    ensures
        r@ == match mode {
            HotkeyMode::PushToTalk => "Hold the shortcut to record, then release to stop when live capture is connected."@,
            HotkeyMode::Toggle => "Press once to start and again to stop when live capture is connected."@,
        },
{
    match mode {
        HotkeyMode::PushToTalk => "Hold the shortcut to record, then release to stop when live capture is connected.",
        HotkeyMode::Toggle => "Press once to start and again to stop when live capture is connected.",
    }
}

/// The audio input chosen in the select box; a blank value means the
/// system default.
pub fn device_choice(value: String) -> (r: Option<String>)
    ensures
        trim_spec(value@).len() == 0 ==> r is None,
        trim_spec(value@).len() > 0 ==> r == Some(value),
{
    if is_blank(value.as_str()) {
        None
    } else {
        Some(value)
    }
}

// ---------------------------------------------------------------------------
// The audio input field
// ---------------------------------------------------------------------------

/// Whether some listed device has id `id`.
pub open spec fn lists_device(devices: Seq<AudioInputDeviceDescriptor>, id: Seq<char>) -> bool {
    exists|i: int| 0 <= i < devices.len() && (#[trigger] devices[i]).id@ == id
}

proof fn lemma_first_selected_by_id(devices: Seq<AudioInputDeviceDescriptor>, id: Seq<char>)
    ensures
        first_selected(devices, Some(id)) is Some <==> lists_device(devices, id),
    decreases devices.len(),
{
    if devices.len() > 0 {
        lemma_first_selected_by_id(devices.drop_first(), id);
        if lists_device(devices.drop_first(), id) {
            let i = choose|i: int| 0 <= i < devices.drop_first().len() && (#[trigger] devices.drop_first()[i]).id@ == id;
            assert(devices[i + 1].id@ == id);
        }
        if lists_device(devices, id) && devices[0].id@ != id {
            let i = choose|i: int| 0 <= i < devices.len() && (#[trigger] devices[i]).id@ == id;
            assert(devices.drop_first()[i - 1].id@ == id);
        }
    }
}

/// The saved input is no longer listed.
pub fn selected_device_missing(selected: Option<&str>, devices: &[AudioInputDeviceDescriptor]) -> (r: bool)
    ensures
        r == (selected matches Some(s) && !lists_device(devices@, s@)),
{
    match selected {
        None => false,
        Some(s) => {
            let found = effective_input_device(Some(s), devices);
            proof {
                lemma_first_selected_by_id(devices@, s@);
            }
            found.is_none()
        },
    }
}

/// The hint under the audio input: the chosen device described, or that
/// it is gone; for the system default, which device that is now.
pub fn selected_device_hint(selected: Option<&str>, devices: &[AudioInputDeviceDescriptor]) -> (r: String)
    ensures
        selected matches Some(s) ==> (first_selected(devices@, Some(s@)) is None ==> r@
            == "The saved audio input is no longer available on this machine."@),
        selected is None ==> r@ == match first_selected(devices@, None) {
            Some(d) => "System default is currently "@ + d.label@ + ". "@ + kind_summary_spec(
                classify_spec(d),
            ),
            None => "System default will follow the OS audio input choice whenever live capture starts."@,
        },
        selected matches Some(s) ==> (first_selected(devices@, Some(s@)) matches Some(d)
            ==> r@ == crate::devices::describe_spec(d)),
{
    match selected {
        Some(s) => match effective_input_device(Some(s), devices) {
            Some(d) => describe_input_device(d),
            None => String::from_str("The saved audio input is no longer available on this machine."),
        },
        None => match effective_input_device(None, devices) {
            Some(d) => {
                let mut r = String::from_str("System default is currently ");
                r.append(d.label.as_str());
                r.append(". ");
                r.append(input_device_kind_summary(classify_input_device(d)));
                proof {
                    reveal_strlit("System default is currently ");
                }
                r
            },
            None => String::from_str(
                "System default will follow the OS audio input choice whenever live capture starts.",
            ),
        },
    }
}

/// Meeting mix on an input that looks like a plain microphone gets a
/// warning.
pub fn meeting_mix_mic_warning(
    profile: LiveCaptureProfile,
    selected: Option<&str>,
    devices: &[AudioInputDeviceDescriptor],
) -> (r: bool)
    ensures
        r == (profile == LiveCaptureProfile::MeetingMix && (first_selected(
            devices@,
            crate::devices::sel_view(selected),
        ) matches Some(d) && classify_spec(d) == InputDeviceKindHint::PhysicalMic)),
{
    if profile != LiveCaptureProfile::MeetingMix {
        return false;
    }
    match effective_input_device(selected, devices) {
        Some(d) => classify_input_device(d) == InputDeviceKindHint::PhysicalMic,
        None => false,
    }
}

/// How many inputs were found.
pub fn device_count_label(count: usize) -> (r: String)
    ensures
        r@ == if count == 0 {
            "No audio inputs detected"@
        } else if count == 1 {
            "1 audio input detected"@
        } else {
            decimal(count as nat) + " audio inputs detected"@
        },
{
    if count == 0 {
        String::from_str("No audio inputs detected")
    } else if count == 1 {
        String::from_str("1 audio input detected")
    } else {
        let mut r = String::new();
        push_decimal(&mut r, count as u64);
        r.append(" audio inputs detected");
        r
    }
}

/// The input named on the summary card: the chosen device, that it is
/// gone, or the system default and which device that is now.
pub fn selected_input_device_label(selected: Option<&str>, devices: &[AudioInputDeviceDescriptor]) -> (r: String)
    ensures
        r@ == match selected {
            Some(id) => match first_selected(devices@, Some(id@)) {
                Some(d) => d.label@,
                None => "Previously selected input unavailable"@,
            },
            None => match first_selected(devices@, None) {
                Some(d) => "System default ("@ + d.label@ + ")"@,
                None => "System default input"@,
            },
        },
{
    match selected {
        Some(id) => match effective_input_device(Some(id), devices) {
            Some(d) => d.label.clone(),
            None => String::from_str("Previously selected input unavailable"),
        },
        None => match effective_input_device(None, devices) {
            Some(d) => {
                let mut r = String::from_str("System default (");
                r.append(d.label.as_str());
                r.append(")");
                proof {
                    reveal_strlit("System default (");
                }
                r
            },
            None => String::from_str("System default input"),
        },
    }
}

// ---------------------------------------------------------------------------
// Summary cards and actions
// ---------------------------------------------------------------------------

/// The hotkey on the summary card: its mode and shortcut.
pub fn selected_hotkey_label(mode: HotkeyMode, shortcut: &str) -> (r: String)
    ensures
        r@ == (match mode {
            HotkeyMode::PushToTalk => "Push-to-talk"@,
            HotkeyMode::Toggle => "Toggle"@,
        }) + " on "@ + shortcut@,
{
    let mut r = match mode {
        HotkeyMode::PushToTalk => String::from_str("Push-to-talk"),
        HotkeyMode::Toggle => String::from_str("Toggle"),
    };
    r.append(" on ");
    r.append(shortcut);
    r
}

/// The API model on the summary card: the custom name (a placeholder when
/// blank) or the selected model's label.
pub fn summary_api_model_label(custom_selected: bool, custom_name: &str, active_label: &str) -> (r: String)
    ensures
        custom_selected && trim_spec(custom_name@).len() == 0 ==> r@ == "Custom model name"@,
        custom_selected && trim_spec(custom_name@).len() > 0 ==> r@ == custom_name@,
        !custom_selected ==> r@ == active_label@,
{
    if custom_selected {
        if is_blank(custom_name) {
            String::from_str("Custom model name")
        } else {
            custom_name.to_owned()
        }
    } else {
        active_label.to_owned()
    }
}

/// The placeholder of the API key field.
pub fn api_key_placeholder(api_key_present: bool) -> (r: &'static str)
    ensures
        r@ == if api_key_present {
            "Leave blank to keep the saved key"@
        } else {
            "Stored in the system credential store"@
        },
{
    if api_key_present {
        "Leave blank to keep the saved key"
    } else {
        "Stored in the system credential store"
    }
}

/// The save button's label.
pub fn save_button_label(is_saving: bool) -> (r: &'static str)
    ensures
        r@ == if is_saving {
            "Saving..."@
        } else {
            "Save settings"@
        },
{
    if is_saving {
        "Saving..."
    } else {
        "Save settings"
    }
}

/// The size of the selected local model (empty when it is not listed).
pub fn selected_size_label(models: &Vec<LocalModelDescriptor>, model_id: &str) -> (r: String)
    ensures
        r@ == match crate::transcription_screen::first_local_model(models@, model_id@) {
            Some(m) => m.size_label@,
            None => Seq::<char>::empty(),
        },
{
    let mut i: usize = 0;
    assert(models@.subrange(0, models@.len() as int) =~= models@);
    while i < models.len()
        invariant
            i <= models@.len(),
            crate::transcription_screen::first_local_model(models@, model_id@)
                == crate::transcription_screen::first_local_model(
                models@.subrange(i as int, models@.len() as int),
                model_id@,
            ),
        decreases models@.len() - i,
    {
        let ghost rest = models@.subrange(i as int, models@.len() as int);
        assert(rest.drop_first() =~= models@.subrange(i + 1, models@.len() as int));
        assert(rest[0] == models@[i as int]);
        if str_eq(models[i].id.as_str(), model_id) {
            return models[i].size_label.clone();
        }
        i = i + 1;
    }
    String::new()
}

/// What the model row shows.
#[derive(Debug, Clone, Copy, PartialEq, Eq, Structural)]
pub enum ModelRow {
    /// A download runs: its progress.
    Downloading,
    /// The model is on disk: it can be deleted.
    Ready,
    /// The model is missing: it can be downloaded.
    NotDownloaded,
}

/// The model row: a running download first, then whether the model is on
/// disk.
pub fn model_row(is_downloading: bool, downloaded: bool) -> (r: ModelRow)
    ensures
        r == (if is_downloading {
            ModelRow::Downloading
        } else if downloaded {
            ModelRow::Ready
        } else {
            ModelRow::NotDownloaded
        }),
{
    if is_downloading {
        ModelRow::Downloading
    } else if downloaded {
        ModelRow::Ready
    } else {
        ModelRow::NotDownloaded
    }
}

// ---------------------------------------------------------------------------
// Capturing a hotkey from the keyboard
// ---------------------------------------------------------------------------

/// A key press while the hotkey control listens.
#[derive(Debug, Clone)]
pub struct KeyPress {
    pub code: String,
    pub repeat: bool,
    pub ctrl: bool,
    pub alt: bool,
    pub shift: bool,
    pub meta: bool,
}

/// The hotkey control: whether it listens, what is being typed, and why a
/// combination was refused.
#[derive(Debug, Clone)]
pub struct HotkeyCapture {
    pub is_capturing: bool,
    pub preview: Option<String>,
    pub feedback: Option<String>,
}

/// How a pressed combination is written.
pub open spec fn key_text(k: KeyPress, with_key: bool) -> Seq<char> {
    join_plus(shortcut_parts(k.ctrl, k.alt, k.shift, k.meta, if with_key {
        Some(k.code@)
    } else {
        None
    }))
}

impl HotkeyCapture {
    /// Not listening.
    pub fn new() -> (r: Self)
        ensures
            !r.is_capturing,
            r.preview is None,
            r.feedback is None,
    {
        HotkeyCapture { is_capturing: false, preview: None, feedback: None }
    }

    /// The control was clicked: listening starts or stops, and the preview
    /// and feedback are cleared.
    pub fn toggle(&mut self)
        ensures
            final(self).is_capturing == !old(self).is_capturing,
            final(self).preview is None,
            final(self).feedback is None,
    {
        self.is_capturing = !self.is_capturing;
        self.preview = None;
        self.feedback = None;
    }

    /// The control's label: while listening the combination typed so far
    /// (or an invitation), else the current shortcut.
    pub fn button_label(&self, shortcut: &str) -> (r: String)
        ensures
            self.is_capturing ==> r@ == match self.preview {
                Some(p) => p@,
                None => "Press the shortcut now"@,
            },
            !self.is_capturing ==> r@ == shortcut@,
    {
        if self.is_capturing {
            match &self.preview {
                Some(p) => p.clone(),
                None => String::from_str("Press the shortcut now"),
            }
        } else {
            shortcut.to_owned()
        }
    }

    /// A key went down.  Ignored unless listening or when repeated; Tab
    /// stops listening, Escape cancels; a modifier alone updates the
    /// preview; another key completes the combination, which is returned
    /// when it holds a modifier and refused otherwise.
    pub fn key_down(&mut self, key: KeyPress) -> (r: Option<String>)
        ensures
            (!old(self).is_capturing || key.repeat) ==> r is None && final(self).is_capturing
                == old(self).is_capturing && final(self).preview == old(self).preview
                && final(self).feedback == old(self).feedback,
            old(self).is_capturing && !key.repeat && key.code@ == "Tab"@ ==> r is None
                && !final(self).is_capturing && final(self).preview is None && final(self).feedback
                == old(self).feedback,
            old(self).is_capturing && !key.repeat && key.code@ == "Escape"@ ==> r is None
                && !final(self).is_capturing && final(self).preview is None && final(self).feedback is None,
            old(self).is_capturing && !key.repeat && key.code@ != "Tab"@ && key.code@ != "Escape"@
                && is_modifier_code_spec(key.code@) ==> r is None && final(self).is_capturing && (final(self).preview matches Some(p) && p@ == key_text(key, false)) && final(self).feedback is None,
            old(self).is_capturing && !key.repeat && key.code@ != "Tab"@ && key.code@ != "Escape"@
                && !is_modifier_code_spec(key.code@) ==> (final(self).preview matches Some(p) && p@
                == key_text(key, true)) && if key.ctrl || key.alt || key.shift || key.meta {
                r matches Some(s) && s@ == key_text(key, true) && !final(self).is_capturing
                    && final(self).feedback is None
            } else {
                r is None && final(self).is_capturing && (final(self).feedback matches Some(m) && m@
                    == "Include at least one modifier key like Cmd, Ctrl, Alt, or Shift."@)
            },
    {
        if !self.is_capturing || key.repeat {
            return None;
        }
        proof {
            reveal_strlit("Tab");
            reveal_strlit("Escape");
        }
        if str_eq(key.code.as_str(), "Tab") {
            assert("Tab"@.len() == 3 && "Escape"@.len() == 6);
            self.is_capturing = false;
            self.preview = None;
            return None;
        }
        if str_eq(key.code.as_str(), "Escape") {
            self.is_capturing = false;
            self.preview = None;
            self.feedback = None;
            return None;
        }
        if is_modifier_code(key.code.as_str()) {
            self.preview = Some(format_shortcut_preview(key.ctrl, key.alt, key.shift, key.meta, None));
            self.feedback = None;
            return None;
        }
        let captured = format_shortcut_preview(
            key.ctrl,
            key.alt,
            key.shift,
            key.meta,
            Some(key.code.clone()),
        );
        self.preview = Some(captured.clone());
        if !(key.ctrl || key.alt || key.shift || key.meta) {
            self.feedback = Some("Include at least one modifier key like Cmd, Ctrl, Alt, or Shift.".to_owned());
            return None;
        }
        self.feedback = None;
        self.is_capturing = false;
        Some(captured)
    }
}

} // verus!
