//! Audio input devices: what kind of source a device looks like (by its
//! name), which device live capture will use, and whether a meeting capture
//! can record both sides.
use vstd::prelude::*;

use crate::models::{AppSettings, AudioInputDeviceDescriptor, LiveCaptureProfile};
use crate::text::{
    chars_of, contains_chars, contains_spec, decimal, push_decimal, to_lowercase, unicode_lowercase,
};

verus! {

/// What an input device looks like from its name.
#[derive(Debug, Clone, Copy, PartialEq, Eq, Structural)]
pub enum InputDeviceKindHint {
    PhysicalMic,
    VirtualLoopback,
    MonitorSource,
    SystemAudio,
    Unknown,
}

impl InputDeviceKindHint {
    /// Short badge text.
    pub fn badge_label(self) -> (r: &'static str)
        ensures
            r@ == match self {
                InputDeviceKindHint::PhysicalMic => "Mic"@,
                InputDeviceKindHint::VirtualLoopback => "Loopback"@,
                InputDeviceKindHint::MonitorSource => "Monitor"@,
                InputDeviceKindHint::SystemAudio => "System Audio"@,
                InputDeviceKindHint::Unknown => "Unknown"@,
            },
    {
        match self {
            InputDeviceKindHint::PhysicalMic => "Mic",
            InputDeviceKindHint::VirtualLoopback => "Loopback",
            InputDeviceKindHint::MonitorSource => "Monitor",
            InputDeviceKindHint::SystemAudio => "System Audio",
            InputDeviceKindHint::Unknown => "Unknown",
        }
    }

    /// CSS class suffix.
    pub fn class_name(self) -> (r: &'static str)
        ensures
            r@ == match self {
                InputDeviceKindHint::PhysicalMic => "mic"@,
                InputDeviceKindHint::VirtualLoopback => "loopback"@,
                InputDeviceKindHint::MonitorSource => "monitor"@,
                InputDeviceKindHint::SystemAudio => "system-audio"@,
                InputDeviceKindHint::Unknown => "unknown"@,
            },
    {
        match self {
            InputDeviceKindHint::PhysicalMic => "mic",
            InputDeviceKindHint::VirtualLoopback => "loopback",
            InputDeviceKindHint::MonitorSource => "monitor",
            InputDeviceKindHint::SystemAudio => "system-audio",
            InputDeviceKindHint::Unknown => "unknown",
        }
    }
}

/// Some pattern of `patterns` occurs in `haystack`.
pub open spec fn contains_any_spec(haystack: Seq<char>, patterns: Seq<Seq<char>>) -> bool {
    exists|i: int| 0 <= i < patterns.len() && contains_spec(haystack, #[trigger] patterns[i])
}

/// Whether any of `patterns` occurs in `haystack`.
pub fn contains_any(haystack: &str, patterns: &[&str]) -> (r: bool)
    ensures
        r == exists|i: int| 0 <= i < patterns@.len() && contains_spec(haystack@, #[trigger] patterns@[i]@),
{
    let h = chars_of(haystack);
    let mut i: usize = 0;
    while i < patterns.len()
        invariant
            h@ == haystack@,
            i <= patterns@.len(),
            forall|k: int| 0 <= k < i ==> !contains_spec(haystack@, #[trigger] patterns@[k]@),
        decreases patterns@.len() - i,
    {
        let p = chars_of(patterns[i]);
        if contains_chars(&h, &p) {
            return true;
        }
        i = i + 1;
    }
    false
}

/// Name fragments of monitor-style inputs.
pub open spec fn monitor_words() -> Seq<Seq<char>> {
    seq!["monitor"@, "what u hear"@, "wave out"@]
}

/// Name fragments of loopback or virtual inputs.
pub open spec fn loopback_words() -> Seq<Seq<char>> {
    seq![
        "loopback"@,
        "stereo mix"@,
        "virtual cable"@,
        "blackhole"@,
        "soundflower"@,
        "vb-audio"@,
        "aggregate"@,
        "rogue amoeba"@,
        "existential audio"@,
    ]
}

/// Name fragments of microphones.
pub open spec fn mic_words() -> Seq<Seq<char>> {
    seq![
        "microphone"@,
        "mic"@,
        "headset"@,
        "airpods"@,
        "webcam"@,
        "built-in"@,
        "array"@,
        "internal mic"@,
    ]
}

/// Lower-cased label, a space, and the lower-cased manufacturer (or nothing).
pub open spec fn combined_name(d: AudioInputDeviceDescriptor) -> Seq<char> {
    unicode_lowercase(d.label@) + " "@ + unicode_lowercase(
        match d.manufacturer {
            Some(m) => m@,
            None => Seq::<char>::empty(),
        },
    )
}

/// How a device is classified: an output loopback is system audio; then
/// monitor names, then loopback/virtual names, then microphone names.
pub open spec fn classify_spec(d: AudioInputDeviceDescriptor) -> InputDeviceKindHint {
    let c = combined_name(d);
    if d.is_output_loopback {
        InputDeviceKindHint::SystemAudio
    } else if contains_any_spec(c, monitor_words()) {
        InputDeviceKindHint::MonitorSource
    } else if contains_any_spec(c, loopback_words()) || (contains_spec(c, "virtual"@)
        && contains_spec(c, "cable"@)) {
        InputDeviceKindHint::VirtualLoopback
    } else if contains_any_spec(c, mic_words()) {
        InputDeviceKindHint::PhysicalMic
    } else {
        InputDeviceKindHint::Unknown
    }
}

fn combined_name_exec(device: &AudioInputDeviceDescriptor) -> (r: String)
    ensures
        r@ == combined_name(*device),
{
    let mut r = to_lowercase(device.label.as_str());
    r.append(" ");
    match &device.manufacturer {
        Some(m) => {
            let lm = to_lowercase(m.as_str());
            r.append(lm.as_str());
        },
        None => {
            let lm = to_lowercase("");
            proof {
                reveal_strlit("");
                assert(""@ =~= Seq::<char>::empty());
            }
            r.append(lm.as_str());
        },
    }
    r
}

/// Whether some word of `words` (given as a list of literals) occurs in `h`.
fn contains_any_words(h: &str, words: &Vec<&str>, ghost_words: Ghost<Seq<Seq<char>>>) -> (r: bool)
    requires
        words@.len() == ghost_words@.len(),
        forall|i: int| 0 <= i < words@.len() ==> (#[trigger] words@[i])@ == ghost_words@[i],
    ensures
        r == contains_any_spec(h@, ghost_words@),
{
    let hv = chars_of(h);
    let mut i: usize = 0;
    while i < words.len()
        invariant
            hv@ == h@,
            i <= words@.len(),
            words@.len() == ghost_words@.len(),
            forall|k: int| 0 <= k < words@.len() ==> (#[trigger] words@[k])@ == ghost_words@[k],
            forall|k: int| 0 <= k < i ==> !contains_spec(h@, #[trigger] ghost_words@[k]),
        decreases words@.len() - i,
    {
        let p = chars_of(words[i]);
        if contains_chars(&hv, &p) {
            assert(contains_spec(h@, ghost_words@[i as int]));
            return true;
        }
        i = i + 1;
    }
    false
}

fn monitor_list() -> (r: Vec<&'static str>)
    ensures
        r@.len() == monitor_words().len(),
        forall|i: int| 0 <= i < r@.len() ==> (#[trigger] r@[i])@ == monitor_words()[i],
{
    let r = vec!["monitor", "what u hear", "wave out"];
    assert(r@.len() == 3);
    r
}

fn loopback_list() -> (r: Vec<&'static str>)
    ensures
        r@.len() == loopback_words().len(),
        forall|i: int| 0 <= i < r@.len() ==> (#[trigger] r@[i])@ == loopback_words()[i],
{
    let r = vec![
        "loopback",
        "stereo mix",
        "virtual cable",
        "blackhole",
        "soundflower",
        "vb-audio",
        "aggregate",
        "rogue amoeba",
        "existential audio",
    ];
    assert(r@.len() == 9);
    r
}

fn mic_list() -> (r: Vec<&'static str>)
    ensures
        r@.len() == mic_words().len(),
        forall|i: int| 0 <= i < r@.len() ==> (#[trigger] r@[i])@ == mic_words()[i],
{
    let r = vec![
        "microphone",
        "mic",
        "headset",
        "airpods",
        "webcam",
        "built-in",
        "array",
        "internal mic",
    ];
    assert(r@.len() == 8);
    r
}

/// Classifies an input device by its flags and name.
pub fn classify_input_device(device: &AudioInputDeviceDescriptor) -> (r: InputDeviceKindHint)
    ensures
        r == classify_spec(*device),
{
    if device.is_output_loopback {
        return InputDeviceKindHint::SystemAudio;
    }
    let combined = combined_name_exec(device);
    let h = combined.as_str();
    if contains_any_words(h, &monitor_list(), Ghost(monitor_words())) {
        return InputDeviceKindHint::MonitorSource;
    }
    if contains_any_words(h, &loopback_list(), Ghost(loopback_words())) || (
    crate::text::contains_str(h, "virtual") && crate::text::contains_str(h, "cable")) {
        return InputDeviceKindHint::VirtualLoopback;
    }
    if contains_any_words(h, &mic_list(), Ghost(mic_words())) {
        return InputDeviceKindHint::PhysicalMic;
    }
    InputDeviceKindHint::Unknown
}

/// A device that is not an output loopback, and whose lower-cased "label
/// manufacturer" text holds none of the monitor words (`monitor`, `what u
/// hear`, `wave out`), is a virtual or loopback input when that text holds
/// any of `loopback`, `stereo mix`, `virtual cable`, `blackhole`,
/// `soundflower`, `vb-audio`, `aggregate`, `rogue amoeba` or
/// `existential audio`.
pub proof fn law_loopback_words_classify_as_virtual_loopback(d: AudioInputDeviceDescriptor)
    ensures
        ({
            let c = combined_name(d);
            (!d.is_output_loopback && !contains_spec(c, "monitor"@) && !contains_spec(c, "what u hear"@)
                && !contains_spec(c, "wave out"@) && (contains_spec(c, "loopback"@) || contains_spec(
                c,
                "stereo mix"@,
            ) || contains_spec(c, "virtual cable"@) || contains_spec(c, "blackhole"@)
                || contains_spec(c, "soundflower"@) || contains_spec(c, "vb-audio"@) || contains_spec(
                c,
                "aggregate"@,
            ) || contains_spec(c, "rogue amoeba"@) || contains_spec(c, "existential audio"@)))
                ==> classify_spec(d) == InputDeviceKindHint::VirtualLoopback
        }),
{
    let c = combined_name(d);
    let m = monitor_words();
    let l = loopback_words();
    if !contains_spec(c, "monitor"@) && !contains_spec(c, "what u hear"@) && !contains_spec(
        c,
        "wave out"@,
    ) {
        assert forall|i: int| 0 <= i < m.len() implies !contains_spec(c, #[trigger] m[i]) by {
            assert(i == 0 || i == 1 || i == 2);
        }
        assert(!contains_any_spec(c, m));
    }
    if contains_spec(c, "loopback"@) {
        assert(contains_spec(c, l[0]));
    } else if contains_spec(c, "stereo mix"@) {
        assert(contains_spec(c, l[1]));
    } else if contains_spec(c, "virtual cable"@) {
        assert(contains_spec(c, l[2]));
    } else if contains_spec(c, "blackhole"@) {
        assert(contains_spec(c, l[3]));
    } else if contains_spec(c, "soundflower"@) {
        assert(contains_spec(c, l[4]));
    } else if contains_spec(c, "vb-audio"@) {
        assert(contains_spec(c, l[5]));
    } else if contains_spec(c, "aggregate"@) {
        assert(contains_spec(c, l[6]));
    } else if contains_spec(c, "rogue amoeba"@) {
        assert(contains_spec(c, l[7]));
    } else if contains_spec(c, "existential audio"@) {
        assert(contains_spec(c, l[8]));
    }
}

/// A device is picked by id when one is selected, else it is the default.
pub open spec fn device_selected(d: AudioInputDeviceDescriptor, selected: Option<Seq<char>>) -> bool {
    match selected {
        Some(id) => d.id@ == id,
        None => d.is_default,
    }
}

/// The first device that `device_selected` picks.
pub open spec fn first_selected(
    devices: Seq<AudioInputDeviceDescriptor>,
    selected: Option<Seq<char>>,
) -> Option<AudioInputDeviceDescriptor>
    decreases devices.len(),
{
    if devices.len() == 0 {
        None
    } else if device_selected(devices[0], selected) {
        Some(devices[0])
    } else {
        first_selected(devices.drop_first(), selected)
    }
}

/// View of an optional string slice.
pub open spec fn sel_view(o: Option<&str>) -> Option<Seq<char>> {
    match o {
        Some(s) => Some(s@),
        None => None,
    }
}

/// The device live capture uses: the selected one by id, or the default.
pub fn effective_input_device<'a>(
    selected_input_device_id: Option<&str>,
    devices: &'a [AudioInputDeviceDescriptor],
) -> (r: Option<&'a AudioInputDeviceDescriptor>)
    ensures
        r matches Some(d) ==> first_selected(devices@, sel_view(selected_input_device_id)) == Some(
            *d,
        ),
        r is None ==> first_selected(devices@, sel_view(selected_input_device_id)) is None,
{
    let ghost sel = sel_view(selected_input_device_id);
    let wanted: Option<Vec<char>> = match selected_input_device_id {
        Some(id) => Some(chars_of(id)),
        None => None,
    };
    let mut i: usize = 0;
    assert(devices@.subrange(0, devices@.len() as int) =~= devices@);
    while i < devices.len()
        invariant
            i <= devices@.len(),
            sel == sel_view(selected_input_device_id),
            match wanted {
                Some(w) => sel == Some(w@),
                None => sel is None,
            },
            first_selected(devices@, sel) == first_selected(
                devices@.subrange(i as int, devices@.len() as int),
                sel,
            ),
        decreases devices@.len() - i,
    {
        let ghost rest = devices@.subrange(i as int, devices@.len() as int);
        assert(rest[0] == devices@[i as int]);
        let hit = match &wanted {
            Some(w) => {
                let id = chars_of(devices[i].id.as_str());
                crate::templates::seq_eq(&id, w)
            },
            None => devices[i].is_default,
        };
        assert(hit == device_selected(devices@[i as int], sel));
        if hit {
            assert(rest.len() > 0);
            assert(first_selected(rest, sel) == Some(rest[0]));
            return Some(&devices[i]);
        }
        assert(rest.drop_first() =~= devices@.subrange(i + 1, devices@.len() as int));
        i = i + 1;
    }
    None
}

/// `[Badge] Label`, with ` (Default)` for the default device.
pub fn format_input_device_option_label(device: &AudioInputDeviceDescriptor) -> (r: String)
    ensures
        r@ == "["@ + badge_spec(classify_spec(*device)) + "] "@ + device.label@ + (if device.is_default {
            " (Default)"@
        } else {
            ""@
        }),
{
    let mut r = "[".to_owned();
    r.append(classify_input_device(device).badge_label());
    r.append("] ");
    r.append(device.label.as_str());
    if device.is_default {
        r.append(" (Default)");
    } else {
        r.append("");
    }
    r
}

/// Badge text of a kind.
pub open spec fn badge_spec(k: InputDeviceKindHint) -> Seq<char> {
    match k {
        InputDeviceKindHint::PhysicalMic => "Mic"@,
        InputDeviceKindHint::VirtualLoopback => "Loopback"@,
        InputDeviceKindHint::MonitorSource => "Monitor"@,
        InputDeviceKindHint::SystemAudio => "System Audio"@,
        InputDeviceKindHint::Unknown => "Unknown"@,
    }
}

/// Label of the `System default` choice, naming the current default device.
pub fn system_default_option_label(devices: &[AudioInputDeviceDescriptor]) -> (r: String)
    ensures
        r@ == match first_selected(devices@, None) {
            Some(d) => "System default input (currently ["@ + badge_spec(classify_spec(d)) + "] "@
                + d.label@ + ")"@,
            None => "System default input"@,
        },
{
    match effective_input_device(None, devices) {
        Some(device) => {
            let mut r = "System default input (currently [".to_owned();
            r.append(classify_input_device(device).badge_label());
            r.append("] ");
            r.append(device.label.as_str());
            r.append(")");
            r
        },
        None => "System default input".to_owned(),
    }
}

/// One-sentence description of a kind.
pub open spec fn kind_summary_spec(k: InputDeviceKindHint) -> Seq<char> {
    match k {
        InputDeviceKindHint::PhysicalMic => "Detected as a mic-style input."@,
        InputDeviceKindHint::VirtualLoopback => "Detected as a loopback or virtual input."@,
        InputDeviceKindHint::MonitorSource => "Detected as a monitor-style input."@,
        InputDeviceKindHint::SystemAudio => "Detected as a system audio output capture."@,
        InputDeviceKindHint::Unknown => "The input type is not obvious from the device name."@,
    }
}

/// One-sentence description of a kind.
pub fn input_device_kind_summary(kind: InputDeviceKindHint) -> (r: &'static str)
    ensures
        r@ == kind_summary_spec(kind),
{
    match kind {
        InputDeviceKindHint::PhysicalMic => "Detected as a mic-style input.",
        InputDeviceKindHint::VirtualLoopback => "Detected as a loopback or virtual input.",
        InputDeviceKindHint::MonitorSource => "Detected as a monitor-style input.",
        InputDeviceKindHint::SystemAudio => "Detected as a system audio output capture.",
        InputDeviceKindHint::Unknown => "The input type is not obvious from the device name.",
    }
}

/// The detail items of a device: manufacturer, `N ch`, `N Hz`, when known.
pub open spec fn device_details(d: AudioInputDeviceDescriptor) -> Seq<Seq<char>> {
    (match d.manufacturer {
        Some(m) => seq![m@],
        None => Seq::<Seq<char>>::empty(),
    }) + (match d.channels {
        Some(c) => seq![decimal(c as nat) + " ch"@],
        None => Seq::<Seq<char>>::empty(),
    }) + (match d.sample_rate_hz {
        Some(r) => seq![decimal(r as nat) + " Hz"@],
        None => Seq::<Seq<char>>::empty(),
    })
}

/// `items` joined by ` • `.
pub open spec fn join_bullets(items: Seq<Seq<char>>) -> Seq<char>
    decreases items.len(),
{
    if items.len() == 0 {
        Seq::empty()
    } else if items.len() == 1 {
        items[0]
    } else {
        join_bullets(items.drop_last()) + " • "@ + items.last()
    }
}

/// A sentence describing a device: its name, its details (maker,
/// channels, rate) when known, and what kind of input it looks like.
pub open spec fn describe_spec(device: AudioInputDeviceDescriptor) -> Seq<char> {
    if device_details(device).len() == 0 {
        device.label@ + " is ready for live recording. "@ + kind_summary_spec(classify_spec(device))
    } else {
        device.label@ + ": "@ + join_bullets(device_details(device)) + ". "@ + kind_summary_spec(
            classify_spec(device),
        )
    }
}

/// A sentence describing a device for the settings screen.
pub fn describe_input_device(device: &AudioInputDeviceDescriptor) -> (r: String)
    ensures
        r@ == describe_spec(*device),
{
    let mut details: Vec<String> = Vec::new();
    match &device.manufacturer {
        Some(m) => details.push(m.clone()),
        None => {},
    }
    match device.channels {
        Some(c) => {
            let mut t = String::new();
            push_decimal(&mut t, c as u64);
            t.append(" ch");
            details.push(t);
        },
        None => {},
    }
    match device.sample_rate_hz {
        Some(rate) => {
            let mut t = String::new();
            push_decimal(&mut t, rate as u64);
            t.append(" Hz");
            details.push(t);
        },
        None => {},
    }
    let ghost dv = details@.map_values(|x: String| x@);
    assert(dv =~= device_details(*device));
    let summary = input_device_kind_summary(classify_input_device(device));
    if details.len() == 0 {
        let mut r = device.label.clone();
        r.append(" is ready for live recording. ");
        r.append(summary);
        return r;
    }
    let mut r = device.label.clone();
    r.append(": ");
    let mut j: usize = 0;
    let ghost head = r@;
    while j < details.len()
        invariant
            j <= details@.len(),
            dv == details@.map_values(|x: String| x@),
            r@ == head + join_bullets(dv.subrange(0, j as int)),
        decreases details@.len() - j,
    {
        if j > 0 {
            r.append(" • ");
        }
        r.append(details[j].as_str());
        proof {
            let post = dv.subrange(0, j + 1);
            assert(post.drop_last() =~= dv.subrange(0, j as int));
            assert(post.last() == details@[j as int]@);
            assert(r@ =~= head + join_bullets(post));
        }
        j = j + 1;
    }
    assert(dv.subrange(0, j as int) =~= dv);
    r.append(". ");
    r.append(summary);
    r
}

/// Some device is a system audio output that can be captured.
pub open spec fn has_output_loopback(devices: Seq<AudioInputDeviceDescriptor>) -> bool {
    exists|i: int| 0 <= i < devices.len() && (#[trigger] devices[i]).is_output_loopback
}

/// Whether some device is a capturable system audio output.
pub fn dual_capture_available(devices: &[AudioInputDeviceDescriptor]) -> (r: bool)
    ensures
        r == has_output_loopback(devices@),
{
    let mut i: usize = 0;
    while i < devices.len()
        invariant
            i <= devices@.len(),
            forall|k: int| 0 <= k < i ==> !(#[trigger] devices@[k]).is_output_loopback,
        decreases devices@.len() - i,
    {
        if devices[i].is_output_loopback {
            return true;
        }
        i = i + 1;
    }
    false
}

/// A device that records a voice: not an output loopback, and named like a mic.
pub open spec fn mic_like_spec(d: AudioInputDeviceDescriptor) -> bool {
    !d.is_output_loopback && contains_any_spec(combined_name(d), mic_words())
}

/// Whether the device looks like a microphone.
pub fn is_mic_like_input(device: &AudioInputDeviceDescriptor) -> (r: bool)
    ensures
        r == mic_like_spec(*device),
{
    if device.is_output_loopback {
        return false;
    }
    let combined = combined_name_exec(device);
    contains_any_words(combined.as_str(), &mic_list(), Ghost(mic_words()))
}

/// View of an optional owned string.
pub open spec fn opt_string_view(o: Option<String>) -> Option<Seq<char>> {
    match o {
        Some(s) => Some(s@),
        None => None,
    }
}

/// Label of the input a capture will use, as the live banner shows it.
pub fn resolve_armed_input_label(
    settings: &AppSettings,
    devices: &[AudioInputDeviceDescriptor],
) -> (r: String)
    ensures
        r@ == match settings.selected_input_device_id {
            Some(id) => match first_selected(devices@, Some(id@)) {
                Some(d) => d.label@,
                None => "Previously selected input unavailable"@,
            },
            None => match first_selected(devices@, None) {
                Some(d) => "System default ("@ + d.label@ + ")"@,
                None => "System default input"@,
            },
        },
{
    let selected: Option<&str> = match &settings.selected_input_device_id {
        Some(id) => Some(id.as_str()),
        None => None,
    };
    crate::settings_fields::selected_input_device_label(selected, devices)
}

/// A meeting capture records both the microphone and system audio when the
/// profile is meeting mix, a system output can be captured, and the chosen
/// input looks like a microphone.
pub open spec fn armed_for_dual_spec(settings: AppSettings, devices: Seq<AudioInputDeviceDescriptor>) -> bool {
    settings.live_capture_profile == LiveCaptureProfile::MeetingMix && has_output_loopback(devices)
        && (first_selected(devices, opt_string_view(settings.selected_input_device_id)) matches Some(
        d,
    ) && mic_like_spec(d))
}

/// Whether the next capture will record both the microphone and system audio.
pub fn is_armed_for_dual_capture(
    settings: &AppSettings,
    devices: &[AudioInputDeviceDescriptor],
) -> (r: bool)
    ensures
        r == armed_for_dual_spec(*settings, devices@),
{
    if settings.live_capture_profile != LiveCaptureProfile::MeetingMix {
        return false;
    }
    if !dual_capture_available(devices) {
        return false;
    }
    let effective = match &settings.selected_input_device_id {
        Some(id) => effective_input_device(Some(id.as_str()), devices),
        None => effective_input_device(None, devices),
    };
    match effective {
        Some(d) => is_mic_like_input(d),
        None => false,
    }
}

/// How good a capture setup looks.
#[derive(Debug, Clone, Copy, PartialEq, Eq, Structural)]
pub enum MeetingReadinessTone {
    Good,
    Caution,
    Warning,
}

impl MeetingReadinessTone {
    /// CSS class suffix.
    pub fn class_name(self) -> (r: &'static str)
        ensures
            r@ == match self {
                MeetingReadinessTone::Good => "good"@,
                MeetingReadinessTone::Caution => "caution"@,
                MeetingReadinessTone::Warning => "warning"@,
            },
    {
        match self {
            MeetingReadinessTone::Good => "good",
            MeetingReadinessTone::Caution => "caution",
            MeetingReadinessTone::Warning => "warning",
        }
    }
}

/// Whether the setup can capture a meeting.
#[derive(Debug, Clone, PartialEq, Eq)]
pub struct MeetingReadinessHint {
    pub title: String,
    pub body: String,
    pub tone: MeetingReadinessTone,
    pub device_kind: Option<InputDeviceKindHint>,
}

/// What the next capture will record.
#[derive(Debug, Clone, PartialEq, Eq)]
pub struct CaptureBehaviorSummary {
    pub title: String,
    pub body: String,
    pub tone: MeetingReadinessTone,
}

/// Some device has the given id.
pub open spec fn has_device_id(devices: Seq<AudioInputDeviceDescriptor>, id: Seq<char>) -> bool {
    exists|i: int| 0 <= i < devices.len() && (#[trigger] devices[i]).id@ == id
}

fn any_device_has_id(devices: &[AudioInputDeviceDescriptor], id: &str) -> (r: bool)
    ensures
        r == has_device_id(devices@, id@),
{
    let w = chars_of(id);
    let mut i: usize = 0;
    while i < devices.len()
        invariant
            w@ == id@,
            i <= devices@.len(),
            forall|k: int| 0 <= k < i ==> (#[trigger] devices@[k]).id@ != id@,
        decreases devices@.len() - i,
    {
        let d = chars_of(devices[i].id.as_str());
        if crate::templates::seq_eq(&d, &w) {
            return true;
        }
        i = i + 1;
    }
    false
}

/// Kind of the device that a capture would use.
pub open spec fn effective_kind(
    devices: Seq<AudioInputDeviceDescriptor>,
    selected: Option<Seq<char>>,
) -> Option<InputDeviceKindHint> {
    match first_selected(devices, selected) {
        Some(d) => Some(classify_spec(d)),
        None => None,
    }
}

fn effective_kind_exec(
    selected_input_device_id: Option<&str>,
    devices: &[AudioInputDeviceDescriptor],
) -> (r: Option<InputDeviceKindHint>)
    ensures
        r == effective_kind(devices@, sel_view(selected_input_device_id)),
{
    match effective_input_device(selected_input_device_id, devices) {
        Some(d) => Some(classify_input_device(d)),
        None => None,
    }
}

/// Which readiness answer applies once a device is known.
pub open spec fn readiness_case(profile: LiveCaptureProfile, kind: Option<InputDeviceKindHint>, dual: bool) -> int {
    if profile == LiveCaptureProfile::MeetingMix && kind == Some(InputDeviceKindHint::SystemAudio) {
        0
    } else if profile == LiveCaptureProfile::MeetingMix && kind == Some(InputDeviceKindHint::VirtualLoopback) {
        1
    } else if profile == LiveCaptureProfile::MeetingMix && kind == Some(InputDeviceKindHint::MonitorSource) {
        2
    } else if profile == LiveCaptureProfile::MeetingMix && kind == Some(InputDeviceKindHint::PhysicalMic) && dual {
        3
    } else if profile == LiveCaptureProfile::MeetingMix && kind == Some(InputDeviceKindHint::PhysicalMic) {
        4
    } else if profile == LiveCaptureProfile::MeetingMix {
        5
    } else if kind == Some(InputDeviceKindHint::PhysicalMic) {
        6
    } else if (kind == Some(InputDeviceKindHint::VirtualLoopback) || kind == Some(InputDeviceKindHint::MonitorSource) || kind == Some(InputDeviceKindHint::SystemAudio)) {
        7
    } else {
        8
    }
}

fn readiness_case_exec(profile: LiveCaptureProfile, kind: Option<InputDeviceKindHint>, dual: bool) -> (r: usize)
    ensures
        r == readiness_case(profile, kind, dual),
{
    if profile == LiveCaptureProfile::MeetingMix && kind == Some(InputDeviceKindHint::SystemAudio) {
        0
    } else if profile == LiveCaptureProfile::MeetingMix && kind == Some(InputDeviceKindHint::VirtualLoopback) {
        1
    } else if profile == LiveCaptureProfile::MeetingMix && kind == Some(InputDeviceKindHint::MonitorSource) {
        2
    } else if profile == LiveCaptureProfile::MeetingMix && kind == Some(InputDeviceKindHint::PhysicalMic) && dual {
        3
    } else if profile == LiveCaptureProfile::MeetingMix && kind == Some(InputDeviceKindHint::PhysicalMic) {
        4
    } else if profile == LiveCaptureProfile::MeetingMix {
        5
    } else if kind == Some(InputDeviceKindHint::PhysicalMic) {
        6
    } else if (kind == Some(InputDeviceKindHint::VirtualLoopback) || kind == Some(InputDeviceKindHint::MonitorSource) || kind == Some(InputDeviceKindHint::SystemAudio)) {
        7
    } else {
        8
    }
}

/// Readiness headline, by case.
pub open spec fn readiness_title(i: int) -> Seq<char> {
    if i == 0 {
        "Partial: this captures remote participants but not your own voice."@
    } else if i == 1 {
        "Yes: this looks like a strong meeting-mix input."@
    } else if i == 2 {
        "Yes: this monitor-style input is a good meeting candidate."@
    } else if i == 3 {
        "Yes: both sides of the meeting will be captured."@
    } else if i == 4 {
        "No: this still looks like a microphone."@
    } else if i == 5 {
        "Maybe: this input might work, but it is not clearly a mixed source."@
    } else if i == 6 {
        "No: this setup is aimed at your voice, not the full meeting."@
    } else if i == 7 {
        "Maybe: the device could capture the meeting, but the profile is still set to microphone only."@
    } else {
        "Maybe: this could capture only part of the meeting."@
    }
}

fn readiness_title_exec(i: usize) -> (r: &'static str)
    requires
        i < 9,
    ensures
        r@ == readiness_title(i as int),
{
    if i == 0 {
        "Partial: this captures remote participants but not your own voice."
    } else if i == 1 {
        "Yes: this looks like a strong meeting-mix input."
    } else if i == 2 {
        "Yes: this monitor-style input is a good meeting candidate."
    } else if i == 3 {
        "Yes: both sides of the meeting will be captured."
    } else if i == 4 {
        "No: this still looks like a microphone."
    } else if i == 5 {
        "Maybe: this input might work, but it is not clearly a mixed source."
    } else if i == 6 {
        "No: this setup is aimed at your voice, not the full meeting."
    } else if i == 7 {
        "Maybe: the device could capture the meeting, but the profile is still set to microphone only."
    } else {
        "Maybe: this could capture only part of the meeting."
    }
}

/// Readiness explanation, by case.
pub open spec fn readiness_body(i: int) -> Seq<char> {
    if i == 0 {
        "System Audio records what plays through the output device — typically the other side of the call. Your own voice goes through your microphone and is not included. For both sides, use a loopback or virtual cable input that mixes mic and speaker audio."@
    } else if i == 1 {
        "Loopback and virtual cable inputs usually contain both local and remote audio before Transcribe Kit starts recording."@
    } else if i == 2 {
        "Monitor sources often expose the mixed output you need for full meeting capture. Run a short test recording if you want to confirm levels."@
    } else if i == 3 {
        "Transcribe Kit will record your microphone and system audio simultaneously, then combine them for transcription."@
    } else if i == 4 {
        "Meeting mix works best with an input that already combines your microphone and the call audio. A plain mic will usually miss remote participants."@
    } else if i == 5 {
        "For full meeting capture, prefer a loopback, monitor, or virtual cable input. If you stay on this source, do a quick test before relying on it."@
    } else if i == 6 {
        "Microphone-only capture is the right choice for dictation or personal notes. Switch to Meeting mix if you want to include remote speakers."@
    } else if i == 7 {
        "Recording will still use this input, but switching the profile to Meeting mix makes the capture intent clearer and keeps future labeling honest."@
    } else {
        "If the goal is full meeting capture, switch to Meeting mix and choose an input that clearly looks like a loopback, monitor, or virtual cable source."@
    }
}

fn readiness_body_exec(i: usize) -> (r: &'static str)
    requires
        i < 9,
    ensures
        r@ == readiness_body(i as int),
{
    if i == 0 {
        "System Audio records what plays through the output device — typically the other side of the call. Your own voice goes through your microphone and is not included. For both sides, use a loopback or virtual cable input that mixes mic and speaker audio."
    } else if i == 1 {
        "Loopback and virtual cable inputs usually contain both local and remote audio before Transcribe Kit starts recording."
    } else if i == 2 {
        "Monitor sources often expose the mixed output you need for full meeting capture. Run a short test recording if you want to confirm levels."
    } else if i == 3 {
        "Transcribe Kit will record your microphone and system audio simultaneously, then combine them for transcription."
    } else if i == 4 {
        "Meeting mix works best with an input that already combines your microphone and the call audio. A plain mic will usually miss remote participants."
    } else if i == 5 {
        "For full meeting capture, prefer a loopback, monitor, or virtual cable input. If you stay on this source, do a quick test before relying on it."
    } else if i == 6 {
        "Microphone-only capture is the right choice for dictation or personal notes. Switch to Meeting mix if you want to include remote speakers."
    } else if i == 7 {
        "Recording will still use this input, but switching the profile to Meeting mix makes the capture intent clearer and keeps future labeling honest."
    } else {
        "If the goal is full meeting capture, switch to Meeting mix and choose an input that clearly looks like a loopback, monitor, or virtual cable source."
    }
}

/// Readiness tone, by case.
pub open spec fn readiness_tone(i: int) -> MeetingReadinessTone {
    if i == 0 {
        MeetingReadinessTone::Caution
    } else if i == 1 {
        MeetingReadinessTone::Good
    } else if i == 2 {
        MeetingReadinessTone::Good
    } else if i == 3 {
        MeetingReadinessTone::Good
    } else if i == 4 {
        MeetingReadinessTone::Warning
    } else if i == 5 {
        MeetingReadinessTone::Caution
    } else if i == 6 {
        MeetingReadinessTone::Warning
    } else if i == 7 {
        MeetingReadinessTone::Caution
    } else {
        MeetingReadinessTone::Caution
    }
}

fn readiness_tone_exec(i: usize) -> (r: MeetingReadinessTone)
    ensures
        r == readiness_tone(i as int),
{
    match i {
        0 => MeetingReadinessTone::Caution,
        1 => MeetingReadinessTone::Good,
        2 => MeetingReadinessTone::Good,
        3 => MeetingReadinessTone::Good,
        4 => MeetingReadinessTone::Warning,
        5 => MeetingReadinessTone::Caution,
        6 => MeetingReadinessTone::Warning,
        7 => MeetingReadinessTone::Caution,
        _ => MeetingReadinessTone::Caution,
    }
}

/// Which capture summary applies once a device is known.
pub open spec fn capture_case(profile: LiveCaptureProfile, kind: Option<InputDeviceKindHint>, dual: bool) -> int {
    if profile == LiveCaptureProfile::MeetingMix && kind == Some(InputDeviceKindHint::SystemAudio) {
        0
    } else if profile == LiveCaptureProfile::MeetingMix && kind == Some(InputDeviceKindHint::VirtualLoopback) {
        1
    } else if profile == LiveCaptureProfile::MeetingMix && kind == Some(InputDeviceKindHint::MonitorSource) {
        2
    } else if profile == LiveCaptureProfile::MeetingMix && kind == Some(InputDeviceKindHint::PhysicalMic) && dual {
        3
    } else if profile == LiveCaptureProfile::MeetingMix && kind == Some(InputDeviceKindHint::PhysicalMic) {
        4
    } else if profile == LiveCaptureProfile::MeetingMix {
        5
    } else if kind == Some(InputDeviceKindHint::PhysicalMic) {
        6
    } else if (kind == Some(InputDeviceKindHint::VirtualLoopback) || kind == Some(InputDeviceKindHint::MonitorSource) || kind == Some(InputDeviceKindHint::SystemAudio)) {
        7
    } else {
        8
    }
}

fn capture_case_exec(profile: LiveCaptureProfile, kind: Option<InputDeviceKindHint>, dual: bool) -> (r: usize)
    ensures
        r == capture_case(profile, kind, dual),
{
    if profile == LiveCaptureProfile::MeetingMix && kind == Some(InputDeviceKindHint::SystemAudio) {
        0
    } else if profile == LiveCaptureProfile::MeetingMix && kind == Some(InputDeviceKindHint::VirtualLoopback) {
        1
    } else if profile == LiveCaptureProfile::MeetingMix && kind == Some(InputDeviceKindHint::MonitorSource) {
        2
    } else if profile == LiveCaptureProfile::MeetingMix && kind == Some(InputDeviceKindHint::PhysicalMic) && dual {
        3
    } else if profile == LiveCaptureProfile::MeetingMix && kind == Some(InputDeviceKindHint::PhysicalMic) {
        4
    } else if profile == LiveCaptureProfile::MeetingMix {
        5
    } else if kind == Some(InputDeviceKindHint::PhysicalMic) {
        6
    } else if (kind == Some(InputDeviceKindHint::VirtualLoopback) || kind == Some(InputDeviceKindHint::MonitorSource) || kind == Some(InputDeviceKindHint::SystemAudio)) {
        7
    } else {
        8
    }
}

/// Text before the device label in the capture headline, by case.
pub open spec fn capture_title_prefix(i: int) -> Seq<char> {
    if i == 0 {
        "Ready to record remote audio from "@
    } else if i == 1 {
        "Ready to record from "@
    } else if i == 2 {
        "Ready to record from "@
    } else if i == 3 {
        "Ready to record both sides from "@
    } else if i == 4 {
        "Ready to record from "@
    } else if i == 5 {
        "Ready to record from "@
    } else if i == 6 {
        "Ready to record from "@
    } else if i == 7 {
        "Ready to record from "@
    } else {
        "Ready to record from "@
    }
}

fn capture_title_prefix_exec(i: usize) -> (r: &'static str)
    requires
        i < 9,
    ensures
        r@ == capture_title_prefix(i as int),
{
    if i == 0 {
        "Ready to record remote audio from "
    } else if i == 1 {
        "Ready to record from "
    } else if i == 2 {
        "Ready to record from "
    } else if i == 3 {
        "Ready to record both sides from "
    } else if i == 4 {
        "Ready to record from "
    } else if i == 5 {
        "Ready to record from "
    } else if i == 6 {
        "Ready to record from "
    } else if i == 7 {
        "Ready to record from "
    } else {
        "Ready to record from "
    }
}

/// Text after the device label in the capture headline, by case.
pub open spec fn capture_title_suffix(i: int) -> Seq<char> {
    if i == 0 {
        "."@
    } else if i == 1 {
        " as a meeting mix."@
    } else if i == 2 {
        " as a meeting mix."@
    } else if i == 3 {
        " + system audio."@
    } else if i == 4 {
        ", but meeting capture may be incomplete."@
    } else if i == 5 {
        ", but test this setup first."@
    } else if i == 6 {
        "."@
    } else if i == 7 {
        "."@
    } else {
        "."@
    }
}

fn capture_title_suffix_exec(i: usize) -> (r: &'static str)
    requires
        i < 9,
    ensures
        r@ == capture_title_suffix(i as int),
{
    if i == 0 {
        "."
    } else if i == 1 {
        " as a meeting mix."
    } else if i == 2 {
        " as a meeting mix."
    } else if i == 3 {
        " + system audio."
    } else if i == 4 {
        ", but meeting capture may be incomplete."
    } else if i == 5 {
        ", but test this setup first."
    } else if i == 6 {
        "."
    } else if i == 7 {
        "."
    } else {
        "."
    }
}

/// Capture explanation, by case.
pub open spec fn capture_body(i: int) -> Seq<char> {
    if i == 0 {
        "System Audio captures what plays through this output — typically the remote side of a call. Your own voice is not included because it goes through your microphone, not your speakers."@
    } else if i == 1 {
        "This input looks like a loopback or virtual source, so it will likely capture both your microphone and remote speakers if your routing is already set up."@
    } else if i == 2 {
        "This monitor-style input often carries the mixed meeting audio Transcribe Kit needs for both sides of the conversation."@
    } else if i == 3 {
        "Your voice will be captured from the selected input, and remote participants will be captured from system audio output. Both are mixed into one transcript."@
    } else if i == 4 {
        "Transcribe Kit will record this microphone exactly as selected, which usually means the transcript will focus on your voice and may miss remote speakers."@
    } else if i == 5 {
        "The chosen source is not clearly a mixed input, so run a short sample recording before relying on it for a real meeting."@
    } else if i == 6 {
        "Microphone-only capture is best for your own voice, dictation, and notes. Transcribe Kit will record this input source directly."@
    } else if i == 7 {
        "Because this input looks mixed, it may include the whole meeting even though the profile is still set to Microphone only. Switch to Meeting mix if that is your intent."@
    } else {
        "Transcribe Kit will record this selected input source as-is. If you want the full meeting instead of mostly your own voice, switch to Meeting mix first."@
    }
}

fn capture_body_exec(i: usize) -> (r: &'static str)
    requires
        i < 9,
    ensures
        r@ == capture_body(i as int),
{
    if i == 0 {
        "System Audio captures what plays through this output — typically the remote side of a call. Your own voice is not included because it goes through your microphone, not your speakers."
    } else if i == 1 {
        "This input looks like a loopback or virtual source, so it will likely capture both your microphone and remote speakers if your routing is already set up."
    } else if i == 2 {
        "This monitor-style input often carries the mixed meeting audio Transcribe Kit needs for both sides of the conversation."
    } else if i == 3 {
        "Your voice will be captured from the selected input, and remote participants will be captured from system audio output. Both are mixed into one transcript."
    } else if i == 4 {
        "Transcribe Kit will record this microphone exactly as selected, which usually means the transcript will focus on your voice and may miss remote speakers."
    } else if i == 5 {
        "The chosen source is not clearly a mixed input, so run a short sample recording before relying on it for a real meeting."
    } else if i == 6 {
        "Microphone-only capture is best for your own voice, dictation, and notes. Transcribe Kit will record this input source directly."
    } else if i == 7 {
        "Because this input looks mixed, it may include the whole meeting even though the profile is still set to Microphone only. Switch to Meeting mix if that is your intent."
    } else {
        "Transcribe Kit will record this selected input source as-is. If you want the full meeting instead of mostly your own voice, switch to Meeting mix first."
    }
}

/// Capture tone, by case.
pub open spec fn capture_tone(i: int) -> MeetingReadinessTone {
    if i == 0 {
        MeetingReadinessTone::Caution
    } else if i == 1 {
        MeetingReadinessTone::Good
    } else if i == 2 {
        MeetingReadinessTone::Good
    } else if i == 3 {
        MeetingReadinessTone::Good
    } else if i == 4 {
        MeetingReadinessTone::Warning
    } else if i == 5 {
        MeetingReadinessTone::Caution
    } else if i == 6 {
        MeetingReadinessTone::Good
    } else if i == 7 {
        MeetingReadinessTone::Caution
    } else {
        MeetingReadinessTone::Caution
    }
}

fn capture_tone_exec(i: usize) -> (r: MeetingReadinessTone)
    ensures
        r == capture_tone(i as int),
{
    match i {
        0 => MeetingReadinessTone::Caution,
        1 => MeetingReadinessTone::Good,
        2 => MeetingReadinessTone::Good,
        3 => MeetingReadinessTone::Good,
        4 => MeetingReadinessTone::Warning,
        5 => MeetingReadinessTone::Caution,
        6 => MeetingReadinessTone::Good,
        7 => MeetingReadinessTone::Caution,
        _ => MeetingReadinessTone::Caution,
    }
}

/// Whether this setup can capture a meeting: no inputs and a vanished
/// selection are warnings; otherwise the answer depends on the profile, the
/// kind of the device in use and whether dual capture is available.
pub fn build_meeting_readiness_hint(
    profile: LiveCaptureProfile,
    selected_input_device_id: Option<&str>,
    devices: &[AudioInputDeviceDescriptor],
    dual_capture_available: bool,
) -> (r: MeetingReadinessHint)
    ensures
        devices@.len() == 0 ==> r.title@ == "No: no audio input is available right now."@ && r.body@
            == "Transcribe Kit cannot capture a meeting until the OS exposes at least one audio input. Reconnect a device or keep System default selected and try again after the input appears."@
            && r.tone == MeetingReadinessTone::Warning && r.device_kind is None,
        devices@.len() > 0 && (selected_input_device_id matches Some(id) && !has_device_id(
            devices@,
            id@,
        )) ==> r.title@ == "No: the selected audio input is no longer available."@ && r.body@
            == "Choose another input or switch back to System default before starting a meeting capture so the app records from a real source."@
            && r.tone == MeetingReadinessTone::Warning && r.device_kind is None,
        devices@.len() > 0 && !(selected_input_device_id matches Some(id) && !has_device_id(
            devices@,
            id@,
        )) ==> ({
            let kind = effective_kind(devices@, sel_view(selected_input_device_id));
            let case = readiness_case(profile, kind, dual_capture_available);
            r.title@ == readiness_title(case) && r.body@ == readiness_body(case) && r.tone
                == readiness_tone(case) && r.device_kind == kind
        }),
{
    if devices.len() == 0 {
        return MeetingReadinessHint {
            title: "No: no audio input is available right now.".to_owned(),
            body: "Transcribe Kit cannot capture a meeting until the OS exposes at least one audio input. Reconnect a device or keep System default selected and try again after the input appears.".to_owned(),
            tone: MeetingReadinessTone::Warning,
            device_kind: None,
        };
    }
    match selected_input_device_id {
        Some(id) => {
            if !any_device_has_id(devices, id) {
                return MeetingReadinessHint {
                    title: "No: the selected audio input is no longer available.".to_owned(),
                    body: "Choose another input or switch back to System default before starting a meeting capture so the app records from a real source.".to_owned(),
                    tone: MeetingReadinessTone::Warning,
                    device_kind: None,
                };
            }
        },
        None => {},
    }
    let kind = effective_kind_exec(selected_input_device_id, devices);
    let case = readiness_case_exec(profile, kind, dual_capture_available);
    MeetingReadinessHint {
        title: readiness_title_exec(case).to_owned(),
        body: readiness_body_exec(case).to_owned(),
        tone: readiness_tone_exec(case),
        device_kind: kind,
    }
}

/// Label of the device a capture would use, or `System default input`.
pub open spec fn effective_label(
    devices: Seq<AudioInputDeviceDescriptor>,
    selected: Option<Seq<char>>,
) -> Seq<char> {
    match first_selected(devices, selected) {
        Some(d) => d.label@,
        None => "System default input"@,
    }
}

/// What the next capture will record, as the settings screen summarizes it.
pub fn build_capture_behavior_summary(
    profile: LiveCaptureProfile,
    selected_input_device_id: Option<&str>,
    devices: &[AudioInputDeviceDescriptor],
    dual_capture_available: bool,
) -> (r: CaptureBehaviorSummary)
    ensures
        devices@.len() == 0 ==> r.title@ == "Not ready: no audio input is available."@ && r.body@
            == "Live capture cannot start until the OS exposes at least one audio input. Once an input appears, Transcribe Kit will record whichever source you choose here."@
            && r.tone == MeetingReadinessTone::Warning,
        devices@.len() > 0 && (selected_input_device_id matches Some(id) && !has_device_id(
            devices@,
            id@,
        )) ==> r.title@ == "Not ready: the saved audio input is unavailable."@ && r.body@
            == "Pick another source or switch back to System default before recording so the app captures from a real audio input."@
            && r.tone == MeetingReadinessTone::Warning,
        devices@.len() > 0 && !(selected_input_device_id matches Some(id) && !has_device_id(
            devices@,
            id@,
        )) ==> ({
            let sel = sel_view(selected_input_device_id);
            let case = capture_case(profile, effective_kind(devices@, sel), dual_capture_available);
            r.title@ == capture_title_prefix(case) + effective_label(devices@, sel)
                + capture_title_suffix(case) && r.body@ == capture_body(case) && r.tone
                == capture_tone(case)
        }),
{
    if devices.len() == 0 {
        return CaptureBehaviorSummary {
            title: "Not ready: no audio input is available.".to_owned(),
            body: "Live capture cannot start until the OS exposes at least one audio input. Once an input appears, Transcribe Kit will record whichever source you choose here.".to_owned(),
            tone: MeetingReadinessTone::Warning,
        };
    }
    match selected_input_device_id {
        Some(id) => {
            if !any_device_has_id(devices, id) {
                return CaptureBehaviorSummary {
                    title: "Not ready: the saved audio input is unavailable.".to_owned(),
                    body: "Pick another source or switch back to System default before recording so the app captures from a real audio input.".to_owned(),
                    tone: MeetingReadinessTone::Warning,
                };
            }
        },
        None => {},
    }
    let effective = effective_input_device(selected_input_device_id, devices);
    let kind = match effective {
        Some(d) => Some(classify_input_device(d)),
        None => None,
    };
    let case = capture_case_exec(profile, kind, dual_capture_available);
    let mut title = capture_title_prefix_exec(case).to_owned();
    match effective {
        Some(d) => title.append(d.label.as_str()),
        None => title.append("System default input"),
    }
    title.append(capture_title_suffix_exec(case));
    CaptureBehaviorSummary {
        title,
        body: capture_body_exec(case).to_owned(),
        tone: capture_tone_exec(case),
    }
}

/// The platform the UI runs on, as the web view reports it.
#[derive(Debug, Clone, Copy, PartialEq, Eq, Structural)]
pub enum RuntimePlatform {
    MacOS,
    Windows,
    Linux,
    Unknown,
}

/// Name fragments of macOS.
pub open spec fn mac_words() -> Seq<Seq<char>> {
    seq!["mac"@, "darwin"@, "os x"@]
}

/// Name fragments of Linux.
pub open spec fn linux_words() -> Seq<Seq<char>> {
    seq!["linux"@, "x11"@]
}

/// Platform from the navigator's platform and user-agent strings:
/// mac/darwin/os x, then win, then linux/x11.
pub open spec fn detect_spec(platform_hint: Seq<char>, user_agent: Seq<char>) -> RuntimePlatform {
    let c = unicode_lowercase(platform_hint) + " "@ + unicode_lowercase(user_agent);
    if contains_any_spec(c, mac_words()) {
        RuntimePlatform::MacOS
    } else if contains_spec(c, "win"@) {
        RuntimePlatform::Windows
    } else if contains_any_spec(c, linux_words()) {
        RuntimePlatform::Linux
    } else {
        RuntimePlatform::Unknown
    }
}

impl RuntimePlatform {
    /// Detects the platform from the navigator's hints.
    pub fn detect(platform_hint: &str, user_agent: &str) -> (r: Self)
        ensures
            r == detect_spec(platform_hint@, user_agent@),
    {
        let mut c = to_lowercase(platform_hint);
        c.append(" ");
        let ua = to_lowercase(user_agent);
        c.append(ua.as_str());
        let h = c.as_str();
        let mac = vec!["mac", "darwin", "os x"];
        let linux = vec!["linux", "x11"];
        assert(mac@.len() == 3 && linux@.len() == 2);
        if contains_any_words(h, &mac, Ghost(mac_words())) {
            return RuntimePlatform::MacOS;
        }
        if crate::text::contains_str(h, "win") {
            return RuntimePlatform::Windows;
        }
        if contains_any_words(h, &linux, Ghost(linux_words())) {
            return RuntimePlatform::Linux;
        }
        RuntimePlatform::Unknown
    }
}

/// Platform detection outside a web view: unknown.
pub fn detect_runtime_platform() -> (r: RuntimePlatform)
    ensures
        r == RuntimePlatform::Unknown,
{
    RuntimePlatform::Unknown
}

/// Meeting capture advice for a platform.
#[derive(Debug, Clone, Copy, PartialEq, Eq)]
pub struct PlatformMeetingGuidance {
    pub platform_label: &'static str,
    pub title: &'static str,
    pub body: &'static str,
}

/// Meeting capture advice for a platform.
pub fn platform_meeting_guidance(platform: RuntimePlatform) -> (r: PlatformMeetingGuidance)
    ensures
        platform == RuntimePlatform::MacOS ==> r.platform_label@ == "macOS"@ && r.title@
            == "Meeting mix on macOS supports automatic dual capture."@ && r.body@
            == "Transcribe Kit automatically captures both your microphone and system audio when Meeting mix is selected with a microphone input. No extra setup is needed on macOS 14.2+."@,
        platform == RuntimePlatform::Windows ==> r.platform_label@ == "Windows"@ && r.title@
            == "Meeting mix on Windows supports automatic dual capture."@ && r.body@
            == "Transcribe Kit automatically captures both your microphone and system audio when Meeting mix is selected with a microphone input."@,
        platform == RuntimePlatform::Linux ==> r.platform_label@ == "Linux"@ && r.title@
            == "Meeting capture on Linux usually relies on monitor sources or virtual inputs."@
            && r.body@
            == "Look for a PipeWire or PulseAudio monitor source, or another mixed input exposed by the OS. Transcribe Kit records that input directly once you select it."@,
        platform == RuntimePlatform::Unknown ==> r.platform_label@ == "This device"@ && r.title@
            == "Meeting capture works best with a mixed input exposed by the operating system."@
            && r.body@
            == "Look for a System Audio source, or a loopback, monitor, Stereo Mix, or virtual cable style input. Transcribe Kit records whichever audio source you select."@,
{
    match platform {
        RuntimePlatform::MacOS => PlatformMeetingGuidance {
            platform_label: "macOS",
            title: "Meeting mix on macOS supports automatic dual capture.",
            body: "Transcribe Kit automatically captures both your microphone and system audio when Meeting mix is selected with a microphone input. No extra setup is needed on macOS 14.2+.",
        },
        RuntimePlatform::Windows => PlatformMeetingGuidance {
            platform_label: "Windows",
            title: "Meeting mix on Windows supports automatic dual capture.",
            body: "Transcribe Kit automatically captures both your microphone and system audio when Meeting mix is selected with a microphone input.",
        },
        RuntimePlatform::Linux => PlatformMeetingGuidance {
            platform_label: "Linux",
            title: "Meeting capture on Linux usually relies on monitor sources or virtual inputs.",
            body: "Look for a PipeWire or PulseAudio monitor source, or another mixed input exposed by the OS. Transcribe Kit records that input directly once you select it.",
        },
        RuntimePlatform::Unknown => PlatformMeetingGuidance {
            platform_label: "This device",
            title: "Meeting capture works best with a mixed input exposed by the operating system.",
            body: "Look for a System Audio source, or a loopback, monitor, Stereo Mix, or virtual cable style input. Transcribe Kit records whichever audio source you select.",
        },
    }
}

/// First troubleshooting step, by profile and device kind.
pub open spec fn first_step_spec(
    profile: LiveCaptureProfile,
    kind: Option<InputDeviceKindHint>,
    dual: bool,
) -> Seq<char> {
    if profile == LiveCaptureProfile::MeetingMix && kind == Some(InputDeviceKindHint::PhysicalMic) {
        if dual {
            "Meeting mix with a microphone uses dual capture automatically. If remote voices are still missing, check system audio capture permissions and run another short test."@
        } else {
            "If the transcript mostly contains your own voice, switch away from a plain microphone and choose a loopback, monitor, or virtual cable input instead."@
        }
    } else if profile == LiveCaptureProfile::MeetingMix && (kind == Some(
        InputDeviceKindHint::Unknown,
    ) || kind is None) {
        "If you are unsure about this source, prefer an input whose name clearly suggests loopback, monitor, Stereo Mix, or virtual cable behavior."@
    } else {
        "Transcribe Kit records one selected audio input at a time, so the input itself needs to contain the audio you want before recording begins."@
    }
}

/// Last troubleshooting step, by platform.
pub open spec fn platform_step_spec(platform: RuntimePlatform) -> Seq<char> {
    match platform {
        RuntimePlatform::MacOS => "On macOS 14.2+, dual capture requires System Audio Recording permission. Grant it in System Settings > Privacy & Security > Screen & System Audio Recording, then restart the app."@,
        RuntimePlatform::Windows => "On Windows, System Audio outputs should appear automatically for loopback capture. If you prefer a different setup, check whether Stereo Mix, a loopback device, or a virtual cable input can be enabled in your audio settings."@,
        RuntimePlatform::Linux => "If no meeting-style input appears on Linux, expose a monitor source or virtual input through PipeWire or PulseAudio, then refresh your device list."@,
        RuntimePlatform::Unknown => "If no meeting-style input appears, enable or create a mixed input in your operating system or audio-routing tool before trying again."@,
    }
}

/// Three troubleshooting steps: one for the setup, a test-recording
/// reminder, and one for the platform.
pub fn build_meeting_troubleshooting_steps(
    platform: RuntimePlatform,
    profile: LiveCaptureProfile,
    selected_input_device_id: Option<&str>,
    devices: &[AudioInputDeviceDescriptor],
    dual_capture_available: bool,
) -> (r: Vec<String>)
    ensures
        r@.len() == 3,
        r@[0]@ == first_step_spec(
            profile,
            effective_kind(devices@, sel_view(selected_input_device_id)),
            dual_capture_available,
        ),
        r@[1]@
            == "Run a 10-second test recording after changing audio routing, default inputs, or meeting-app audio settings."@,
        r@[2]@ == platform_step_spec(platform),
{
    let kind = effective_kind_exec(selected_input_device_id, devices);
    let mut steps: Vec<String> = Vec::new();
    steps.push(
        "Run a 10-second test recording after changing audio routing, default inputs, or meeting-app audio settings.".to_owned(),
    );
    let first = if profile == LiveCaptureProfile::MeetingMix && kind == Some(
        InputDeviceKindHint::PhysicalMic,
    ) {
        if dual_capture_available {
            "Meeting mix with a microphone uses dual capture automatically. If remote voices are still missing, check system audio capture permissions and run another short test.".to_owned()
        } else {
            "If the transcript mostly contains your own voice, switch away from a plain microphone and choose a loopback, monitor, or virtual cable input instead.".to_owned()
        }
    } else if profile == LiveCaptureProfile::MeetingMix && (kind == Some(
        InputDeviceKindHint::Unknown,
    ) || kind == None) {
        "If you are unsure about this source, prefer an input whose name clearly suggests loopback, monitor, Stereo Mix, or virtual cable behavior.".to_owned()
    } else {
        "Transcribe Kit records one selected audio input at a time, so the input itself needs to contain the audio you want before recording begins.".to_owned()
    };
    steps.insert(0, first);
    let last = match platform {
        RuntimePlatform::MacOS => "On macOS 14.2+, dual capture requires System Audio Recording permission. Grant it in System Settings > Privacy & Security > Screen & System Audio Recording, then restart the app.".to_owned(),
        RuntimePlatform::Windows => "On Windows, System Audio outputs should appear automatically for loopback capture. If you prefer a different setup, check whether Stereo Mix, a loopback device, or a virtual cable input can be enabled in your audio settings.".to_owned(),
        RuntimePlatform::Linux => "If no meeting-style input appears on Linux, expose a monitor source or virtual input through PipeWire or PulseAudio, then refresh your device list.".to_owned(),
        RuntimePlatform::Unknown => "If no meeting-style input appears, enable or create a mixed input in your operating system or audio-routing tool before trying again.".to_owned(),
    };
    steps.push(last);
    steps
}

} // verus!
