//! Live capture in the backend: the advice and messages around a capture,
//! how a device is labelled, where recordings go, and what a stopped
//! capture comes to.  Driving the audio devices and files happens in the
//! app.
use vstd::prelude::*;

use crate::audio::{duration_ms_from_frames, duration_ms_spec};
use crate::devices::contains_any;
use crate::errors::LiveRecordingError;
use crate::live::TargetOs;
use crate::models::{LiveRecordingResult, LiveRecordingState, LiveRecordingStatus};
use crate::paths::{path_join, path_join_spec};
use crate::text::{chars_of, contains_spec, decimal, push_decimal, to_lowercase, unicode_lowercase};

verus! {

// ---------------------------------------------------------------------------
// Operating-system advice
// ---------------------------------------------------------------------------

/// What to check when no audio input exists, per operating system.
pub open spec fn no_input_device_hint_spec(os: TargetOs) -> Seq<char> {
    match os {
        TargetOs::Linux => " On Linux, make sure PipeWire, PulseAudio, or ALSA input is available."@,
        TargetOs::MacOs => " On macOS, also confirm microphone access is allowed in System Settings > Privacy & Security > Microphone."@,
        _ => ""@,
    }
}

/// What to check when no audio input exists.
pub fn no_input_device_hint(os: TargetOs) -> (r: &'static str)
    ensures
        r@ == no_input_device_hint_spec(os),
{
    match os {
        TargetOs::Linux => " On Linux, make sure PipeWire, PulseAudio, or ALSA input is available.",
        TargetOs::MacOs => " On macOS, also confirm microphone access is allowed in System Settings > Privacy & Security > Microphone.",
        _ => "",
    }
}

/// The advice added to an audio failure, per operating system.
pub open spec fn platform_hint_spec(os: TargetOs) -> Seq<char> {
    match os {
        TargetOs::Linux => " If this is Linux, also check whether PipeWire or PulseAudio is running and whether another app has locked the audio input."@,
        TargetOs::MacOs => " If this is macOS, verify microphone access in System Settings > Privacy & Security > Microphone."@,
        TargetOs::Windows => " If this is Windows, check whether another app already has the audio input open."@,
        TargetOs::Other => ""@,
    }
}

/// An audio failure followed by the platform's advice.
pub fn with_platform_hint(message: String, os: TargetOs) -> (r: String)
    ensures
        r@ == message@ + platform_hint_spec(os),
{
    let mut r = message;
    match os {
        TargetOs::Linux => r.append(" If this is Linux, also check whether PipeWire or PulseAudio is running and whether another app has locked the audio input."),
        TargetOs::MacOs => r.append(" If this is macOS, verify microphone access in System Settings > Privacy & Security > Microphone."),
        TargetOs::Windows => r.append(" If this is Windows, check whether another app already has the audio input open."),
        TargetOs::Other => {
            proof {
                reveal_strlit("");
                assert(r@ =~= r@ + ""@);
            }
        },
    }
    r
}

/// The error for a system without an audio input.
pub fn no_input_device_error(os: TargetOs) -> (r: LiveRecordingError)
    ensures
        r matches LiveRecordingError::NoInputDevice(h) && h@ == no_input_device_hint_spec(os),
{
    LiveRecordingError::NoInputDevice(no_input_device_hint(os).to_owned())
}

// ---------------------------------------------------------------------------
// Falling back from a meeting mix to the microphone alone
// ---------------------------------------------------------------------------

/// Words that mark a failure as a permission problem.
pub open spec fn permission_words() -> Seq<Seq<char>> {
    seq!["permission"@, "denied"@, "not permitted"@, "not allowed"@, "access"@]
}

/// The detail text of the failures that carry one from the audio backend.
pub open spec fn backend_detail(error: LiveRecordingError) -> Option<Seq<char>> {
    match error {
        LiveRecordingError::DefaultConfig(d) => Some(d@),
        LiveRecordingError::BuildStream(d) => Some(d@),
        LiveRecordingError::PlayStream(d) => Some(d@),
        LiveRecordingError::StreamRuntime(d) => Some(d@),
        _ => None,
    }
}

/// A failure looks like a permission problem when its backend detail,
/// lowercased, mentions one of the permission words.
pub open spec fn looks_like_permission_issue(error: LiveRecordingError) -> bool {
    match backend_detail(error) {
        Some(d) => exists|i: int|
            0 <= i < permission_words().len() && contains_spec(
                unicode_lowercase(d),
                #[trigger] permission_words()[i],
            ),
        None => false,
    }
}

/// Whether a failed meeting-mix start looks like a permission problem.
pub fn dual_capture_failure_looks_like_permission_issue(error: &LiveRecordingError) -> (r: bool)
    ensures
        r == looks_like_permission_issue(*error),
{
    let detail: &String = match error {
        LiveRecordingError::DefaultConfig(d) => d,
        LiveRecordingError::BuildStream(d) => d,
        LiveRecordingError::PlayStream(d) => d,
        LiveRecordingError::StreamRuntime(d) => d,
        _ => {
            return false;
        },
    };
    let normalized = to_lowercase(detail.as_str());
    let words: [&str; 5] = ["permission", "denied", "not permitted", "not allowed", "access"];
    proof {
        assert(words@.map_values(|w: &str| w@) =~= permission_words());
    }
    let r = contains_any(normalized.as_str(), &words);
    proof {
        if r {
            let i = choose|i: int| 0 <= i < words@.len() && contains_spec(normalized@, #[trigger] words@[i]@);
            assert(words@[i]@ == permission_words()[i]);
        } else {
            assert forall|i: int| 0 <= i < permission_words().len() implies !contains_spec(
                unicode_lowercase(detail@),
                #[trigger] permission_words()[i],
            ) by {
                assert(words@[i]@ == permission_words()[i]);
            }
        }
    }
    r
}

/// The start of every fallback message.
pub open spec fn fallback_lead() -> Seq<char> {
    "Dual capture could not start, so Transcribe Kit switched to microphone-only recording."@
}

/// What the user is told when a meeting mix falls back to the microphone:
/// permission advice for a permission problem, a note for a missing output
/// device, else just the fact.
pub open spec fn fallback_message_spec(error: LiveRecordingError, os: TargetOs) -> Seq<char> {
    if looks_like_permission_issue(error) {
        if os == TargetOs::MacOs {
            fallback_lead() + " System audio recording permission appears to be blocked. Enable Transcribe Kit in System Settings > Privacy & Security > System Audio Recording, then start a new meeting capture."@
        } else {
            fallback_lead() + " System audio capture permission appears to be blocked. Enable audio capture permission for Transcribe Kit in your OS privacy settings, then start a new meeting capture."@
        }
    } else if error is NoOutputDevice {
        fallback_lead() + " No system audio output device is currently available for loopback capture."@
    } else {
        fallback_lead()
    }
}

/// The message for a meeting mix that fell back to the microphone.
pub fn dual_capture_fallback_message(error: &LiveRecordingError, os: TargetOs) -> (r: String)
    ensures
        r@ == fallback_message_spec(*error, os),
{
    let mut message = String::from_str(
        "Dual capture could not start, so Transcribe Kit switched to microphone-only recording.",
    );
    if dual_capture_failure_looks_like_permission_issue(error) {
        match os {
            TargetOs::MacOs => message.append(" System audio recording permission appears to be blocked. Enable Transcribe Kit in System Settings > Privacy & Security > System Audio Recording, then start a new meeting capture."),
            _ => message.append(" System audio capture permission appears to be blocked. Enable audio capture permission for Transcribe Kit in your OS privacy settings, then start a new meeting capture."),
        }
    } else {
        match error {
            LiveRecordingError::NoOutputDevice => message.append(
                " No system audio output device is currently available for loopback capture.",
            ),
            _ => {},
        }
    }
    message
}

// ---------------------------------------------------------------------------
// Device labels
// ---------------------------------------------------------------------------

/// Bytes a character takes in UTF-8.
pub open spec fn utf8_width(c: char) -> nat {
    if (c as u32) < 0x80 {
        1
    } else if (c as u32) < 0x800 {
        2
    } else if (c as u32) < 0x10000 {
        3
    } else {
        4
    }
}

/// Bytes a text takes in UTF-8.
pub open spec fn utf8_len(s: Seq<char>) -> nat
    decreases s.len(),
{
    if s.len() == 0 {
        0
    } else {
        utf8_len(s.drop_last()) + utf8_width(s.last())
    }
}

/// The longest prefix of `s` that fits in `n` bytes of UTF-8.
pub open spec fn prefix_within(s: Seq<char>, n: nat) -> Seq<char>
    decreases s.len(),
{
    if s.len() == 0 || utf8_width(s[0]) > n {
        Seq::empty()
    } else {
        seq![s[0]] + prefix_within(s.drop_first(), (n - utf8_width(s[0])) as nat)
    }
}

/// What follows the last `:` of `s` (all of `s` when it has none).
pub open spec fn after_last_colon(s: Seq<char>) -> Seq<char>
    decreases s.len(),
{
    if s.len() == 0 {
        s
    } else if s.last() == ':' {
        Seq::empty()
    } else {
        after_last_colon(s.drop_last()).push(s.last())
    }
}

proof fn lemma_after_last_colon(s: Seq<char>, j: int)
    requires
        0 <= j <= s.len(),
        j == 0 || s[j - 1] == ':',
        forall|k: int| j <= k < s.len() ==> s[k] != ':',
    ensures
        after_last_colon(s) == s.subrange(j, s.len() as int),
    decreases s.len(),
{
    if s.len() == j {
        if j > 0 {
            assert(s.last() == ':');
        }
        assert(s.subrange(j, s.len() as int) =~= Seq::<char>::empty());
    } else {
        lemma_after_last_colon(s.drop_last(), j);
        assert(s.subrange(j, s.len() as int) =~= s.drop_last().subrange(j, s.len() - 1).push(
            s.last(),
        ));
    }
}

proof fn lemma_prefix_within_step(s: Seq<char>, i: int, n: nat)
    requires
        0 <= i < s.len(),
        utf8_width(s[i]) <= n,
    ensures
        prefix_within(s.subrange(i, s.len() as int), n) == seq![s[i]] + prefix_within(
            s.subrange(i + 1, s.len() as int),
            (n - utf8_width(s[i])) as nat,
        ),
{
    let t = s.subrange(i, s.len() as int);
    assert(t[0] == s[i]);
    assert(t.drop_first() =~= s.subrange(i + 1, s.len() as int));
}

/// Whether cutting `s` to 8 bytes lands on a character boundary (or the
/// text is no longer than that).
pub open spec fn cut_on_boundary(s: Seq<char>) -> bool {
    utf8_len(s) <= 8 || utf8_len(prefix_within(s, 8)) == 8
}

/// The first characters of `s` that fit in `n` bytes of UTF-8.
pub fn utf8_prefix(s: &str, n: u32) -> (r: String)
    ensures
        r@ == prefix_within(s@, n as nat),
{
    let v = chars_of(s);
    let mut out = String::new();
    let mut i: usize = 0;
    let mut used: u32 = 0;
    let mut full = false;
    assert(v@.subrange(0, v@.len() as int) =~= v@);
    assert(v@.subrange(0, 0) =~= Seq::<char>::empty());
    while i < v.len() && !full
        invariant
            full ==> prefix_within(v@.subrange(i as int, v@.len() as int), (n - used) as nat)
                =~= Seq::<char>::empty(),
            i <= v@.len(),
            used <= n,
            v@ == s@,
            out@ == v@.subrange(0, i as int),
            prefix_within(s@, n as nat) == v@.subrange(0, i as int) + prefix_within(
                v@.subrange(i as int, v@.len() as int),
                (n - used) as nat,
            ),
        decreases v@.len() - i + (if full {
            0int
        } else {
            1int
        }),
    {
        let c = v[i];
        let code: u32 = c as u32;
        let w: u32 = if code < 0x80 {
            1
        } else if code < 0x800 {
            2
        } else if code < 0x10000 {
            3
        } else {
            4
        };
        assert(w == utf8_width(c));
        if w > n - used {
            proof {
                let t = v@.subrange(i as int, v@.len() as int);
                assert(t[0] == c);
                assert(prefix_within(t, (n - used) as nat) =~= Seq::<char>::empty());
            }
            full = true;
        } else {
            proof {
                lemma_prefix_within_step(v@, i as int, (n - used) as nat);
                assert(v@.subrange(0, i + 1) =~= v@.subrange(0, i as int).push(c));
                assert(v@.subrange(0, i as int) + (seq![c] + prefix_within(
                    v@.subrange(i + 1, v@.len() as int),
                    (n - used - w) as nat,
                )) =~= v@.subrange(0, i + 1) + prefix_within(
                    v@.subrange(i + 1, v@.len() as int),
                    (n - used - w) as nat,
                ));
            }
            out.push(c);
            used = used + w;
            i = i + 1;
        }
    }
    proof {
        if !full {
            assert(v@.subrange(i as int, v@.len() as int) =~= Seq::<char>::empty());
        }
        assert(v@.subrange(0, i as int) + Seq::<char>::empty() =~= v@.subrange(0, i as int));
    }
    out
}

/// The short label of a device without a name: `Audio input` and the
/// first 8 bytes of the part of its id after the last `:`.
pub fn short_device_label(device_id: &str) -> (r: String)
    requires
        cut_on_boundary(after_last_colon(device_id@)),
    ensures
        r@ == "Audio input "@ + prefix_within(after_last_colon(device_id@), 8),
{
    let v = chars_of(device_id);
    let mut j: usize = v.len();
    while j > 0 && v[j - 1] != ':'
        invariant
            j <= v@.len(),
            forall|k: int| j <= k < v@.len() ==> v@[k] != ':',
        decreases j,
    {
        j = j - 1;
    }
    proof {
        lemma_after_last_colon(v@, j as int);
    }
    let mut suffix = String::new();
    let mut k: usize = j;
    while k < v.len()
        invariant
            j <= k <= v@.len(),
            suffix@ == v@.subrange(j as int, k as int),
        decreases v@.len() - k,
    {
        suffix.push(v[k]);
        k = k + 1;
        assert(suffix@ =~= v@.subrange(j as int, k as int));
    }
    let mut out = String::from_str("Audio input ");
    proof {
        reveal_strlit("Audio input ");
    }
    out.append(utf8_prefix(suffix.as_str(), 8).as_str());
    out
}

/// A device's label: its name when the backend gives one, else the short
/// label of its id, else `System audio input`.
pub fn device_label(name: Option<String>, fallback_id: Option<&str>) -> (r: String)
    requires
        fallback_id matches Some(id) ==> cut_on_boundary(after_last_colon(id@)),
    ensures
        name matches Some(n) ==> r == n,
        name is None && fallback_id is Some ==> r@ == "Audio input "@ + prefix_within(
            after_last_colon(fallback_id->Some_0@),
            8,
        ),
        name is None && fallback_id is None ==> r@ == "System audio input"@,
{
    match name {
        Some(n) => n,
        None => match fallback_id {
            Some(id) => short_device_label(id),
            None => String::from_str("System audio input"),
        },
    }
}

// ---------------------------------------------------------------------------
// Where recordings go
// ---------------------------------------------------------------------------

/// How many numbered names are tried for a new recording.
pub const RECORDING_NAME_ATTEMPTS: usize = 32;

/// The numbered name of a recording.
pub open spec fn recording_file_name(timestamp_ms: nat, pid: nat, attempt: nat) -> Seq<char> {
    "transcribe-kit-live-"@ + decimal(timestamp_ms) + "-"@ + decimal(pid) + "-"@ + decimal(
        attempt,
    ) + ".wav"@
}

/// The name used when every numbered name is taken.
pub open spec fn fallback_recording_file_name(pid: nat) -> Seq<char> {
    "transcribe-kit-live-"@ + decimal(pid) + ".wav"@
}

/// The numbered recording file `attempt` in the temporary directory.
pub fn recording_path(temp_dir: &str, timestamp_ms: u64, pid: u32, attempt: u32) -> (r: String)
    ensures
        r@ == path_join_spec(
            temp_dir@,
            recording_file_name(timestamp_ms as nat, pid as nat, attempt as nat),
        ),
{
    let mut name = String::from_str("transcribe-kit-live-");
    push_decimal(&mut name, timestamp_ms);
    name.append("-");
    push_decimal(&mut name, pid as u64);
    name.append("-");
    push_decimal(&mut name, attempt as u64);
    name.append(".wav");
    proof {
        reveal_strlit("transcribe-kit-live-");
        reveal_strlit("-");
        reveal_strlit(".wav");
        assert(name@ =~= recording_file_name(timestamp_ms as nat, pid as nat, attempt as nat));
    }
    path_join(temp_dir, name.as_str())
}

/// The recording file used when every numbered one is taken.
pub fn fallback_recording_path(temp_dir: &str, pid: u32) -> (r: String)
    ensures
        r@ == path_join_spec(temp_dir@, fallback_recording_file_name(pid as nat)),
{
    let mut name = String::from_str("transcribe-kit-live-");
    push_decimal(&mut name, pid as u64);
    name.append(".wav");
    proof {
        reveal_strlit("transcribe-kit-live-");
        reveal_strlit(".wav");
        assert(name@ =~= fallback_recording_file_name(pid as nat));
    }
    path_join(temp_dir, name.as_str())
}

/// The file for a new recording: the first numbered name not already
/// taken (`taken[i]` says whether name `i` exists), else the fallback name.
pub fn next_recording_path(temp_dir: &str, timestamp_ms: u64, pid: u32, taken: &Vec<bool>) -> (r: String)
    requires
        taken@.len() == RECORDING_NAME_ATTEMPTS,
    ensures
        (exists|i: int| 0 <= i < taken@.len() && !taken@[i]) ==> exists|i: int|
            0 <= i < taken@.len() && !taken@[i] && (forall|k: int| 0 <= k < i ==> taken@[k])
                && r@ == path_join_spec(
                temp_dir@,
                recording_file_name(timestamp_ms as nat, pid as nat, i as nat),
            ),
        (forall|i: int| 0 <= i < taken@.len() ==> taken@[i]) ==> r@ == path_join_spec(
            temp_dir@,
            fallback_recording_file_name(pid as nat),
        ),
{
    let mut attempt: usize = 0;
    while attempt < taken.len()
        invariant
            attempt <= taken@.len(),
            taken@.len() == RECORDING_NAME_ATTEMPTS,
            forall|k: int| 0 <= k < attempt ==> taken@[k],
        decreases taken@.len() - attempt,
    {
        if !taken[attempt] {
            return recording_path(temp_dir, timestamp_ms, pid, attempt as u32);
        }
        attempt = attempt + 1;
    }
    fallback_recording_path(temp_dir, pid)
}

// ---------------------------------------------------------------------------
// Capturing and stopping
// ---------------------------------------------------------------------------

/// Starting is refused while a capture is active.
pub fn check_can_start(active: bool) -> (r: Result<(), LiveRecordingError>)
    ensures
        active ==> r matches Err(LiveRecordingError::AlreadyRecording),
        !active ==> r is Ok,
{
    if active {
        Err(LiveRecordingError::AlreadyRecording)
    } else {
        Ok(())
    }
}

/// Stopping is refused when no capture is active.
pub fn check_can_stop(active: bool) -> (r: Result<(), LiveRecordingError>)
    ensures
        !active ==> r matches Err(LiveRecordingError::NotRecording),
        active ==> r is Ok,
{
    if active {
        Ok(())
    } else {
        Err(LiveRecordingError::NotRecording)
    }
}

/// Whole frames in an interleaved chunk of `sample_count` samples.
pub fn chunk_frames(sample_count: usize, channels: usize) -> (r: u64)
    ensures
        r == (if channels == 0 {
            0
        } else {
            sample_count / channels
        }),
{
    if channels == 0 {
        0
    } else {
        (sample_count / channels) as u64
    }
}

/// What a running capture reports: the file it writes, the format, the
/// time captured so far and the first problem seen.
pub fn recording_status(
    input_device_id: Option<String>,
    input_device_label: String,
    output_file_path: String,
    sample_rate_hz: u32,
    channels: u16,
    captured_frames: u64,
    message: Option<String>,
) -> (r: LiveRecordingStatus)
    ensures
        r.state == LiveRecordingState::Recording,
        r.input_device_id == input_device_id,
        r.input_device_label == Some(input_device_label),
        r.output_file_path == Some(output_file_path),
        r.sample_rate_hz == Some(sample_rate_hz),
        r.channels == Some(channels),
        r.duration_ms == Some(duration_ms_spec(captured_frames, sample_rate_hz) as u64),
        r.message == message,
{
    LiveRecordingStatus {
        state: LiveRecordingState::Recording,
        input_device_id,
        input_device_label: Some(input_device_label),
        output_file_path: Some(output_file_path),
        sample_rate_hz: Some(sample_rate_hz),
        channels: Some(channels),
        duration_ms: Some(duration_ms_from_frames(captured_frames, sample_rate_hz)),
        message,
    }
}

/// The message of a single-stream capture: its stream error, else the
/// note it started with.
pub fn single_stream_message(runtime_error: Option<String>, startup_message: Option<String>) -> (r:
    Option<String>)
    ensures
        runtime_error is Some ==> r == runtime_error,
        runtime_error is None ==> r == startup_message,
{
    match runtime_error {
        Some(e) => Some(e),
        None => startup_message,
    }
}

/// The message of a meeting-mix capture: the microphone's stream error,
/// else the system audio's, marked as such.
pub fn dual_stream_message(mic_runtime_error: Option<String>, loopback_runtime_error: Option<
    String,
>) -> (r: Option<String>)
    ensures
        mic_runtime_error is Some ==> r == mic_runtime_error,
        mic_runtime_error is None && loopback_runtime_error is Some ==> (r matches Some(m) && m@
            == "System audio capture: "@ + loopback_runtime_error->Some_0@),
        mic_runtime_error is None && loopback_runtime_error is None ==> r is None,
{
    match mic_runtime_error {
        Some(e) => Some(e),
        None => match loopback_runtime_error {
            Some(e) => {
                let mut m = String::from_str("System audio capture: ");
                m.append(e.as_str());
                proof {
                    reveal_strlit("System audio capture: ");
                }
                Some(m)
            },
            None => None,
        },
    }
}

/// The format of a finished WAV file: sample rate, channels and frames.
pub type WavFacts = (u32, u16, u64);

/// The result of a capture kept as one file: the format read back from the
/// file when it can be read, else the format the capture was started with.
pub fn single_file_result(
    file_path: String,
    input_device_id: Option<String>,
    input_device_label: String,
    fallback_sample_rate_hz: u32,
    fallback_channels: u16,
    fallback_duration_ms: u64,
    is_dual_capture: bool,
    wav: Option<WavFacts>,
) -> (r: LiveRecordingResult)
    ensures
        r.file_path == file_path,
        r.input_device_id == input_device_id,
        r.input_device_label == input_device_label,
        r.is_dual_capture == is_dual_capture,
        wav matches Some(w) ==> r.sample_rate_hz == w.0 && r.channels == w.1 && r.duration_ms
            == duration_ms_spec(w.2, w.0),
        wav is None ==> r.sample_rate_hz == fallback_sample_rate_hz && r.channels
            == fallback_channels && r.duration_ms == fallback_duration_ms,
{
    let (sample_rate_hz, channels, duration_ms) = match wav {
        Some((rate, ch, frames)) => (rate, ch, duration_ms_from_frames(frames, rate)),
        None => (fallback_sample_rate_hz, fallback_channels, fallback_duration_ms),
    };
    LiveRecordingResult {
        file_path,
        input_device_id,
        input_device_label,
        sample_rate_hz,
        channels,
        duration_ms,
        is_dual_capture,
    }
}

/// What stopping a meeting-mix capture comes to once both writers are
/// done.
#[derive(Debug)]
pub enum DualStopDecision {
    /// The capture failed; all its files are removed.
    Fail(LiveRecordingError),
    /// The system audio is unusable; keep the microphone recording alone.
    MicrophoneOnly,
    /// Both recordings are usable: check the system audio for silence and
    /// mix the two.
    Mix,
}

/// A microphone failure fails the capture; a system-audio failure falls
/// back to the microphone recording.
pub fn dual_stop_decision(
    mic_writer: Result<(), LiveRecordingError>,
    mic_runtime_error: Option<String>,
    loopback_failed: bool,
) -> (r: DualStopDecision)
    ensures
        mic_writer is Err ==> (r matches DualStopDecision::Fail(e) && e == mic_writer->Err_0),
        mic_writer is Ok && mic_runtime_error is Some ==> (r matches DualStopDecision::Fail(
            LiveRecordingError::StreamRuntime(m),
        ) && m == mic_runtime_error->Some_0),
        mic_writer is Ok && mic_runtime_error is None && loopback_failed ==> r is MicrophoneOnly,
        mic_writer is Ok && mic_runtime_error is None && !loopback_failed ==> r is Mix,
{
    match mic_writer {
        Err(e) => DualStopDecision::Fail(e),
        Ok(()) => match mic_runtime_error {
            Some(m) => DualStopDecision::Fail(LiveRecordingError::StreamRuntime(m)),
            None => if loopback_failed {
                DualStopDecision::MicrophoneOnly
            } else {
                DualStopDecision::Mix
            },
        },
    }
}

/// A recording is silent when it cannot be opened, or when every sample of
/// a 16-bit integer recording is zero or unreadable; a recording in another
/// format is not judged silent.
pub fn wav_is_silent(opened: bool, int16_format: bool, samples: &Vec<Option<i16>>) -> (r: bool)
    ensures
        !opened ==> r,
        opened && !int16_format ==> !r,
        opened && int16_format ==> (r <==> forall|i: int|
            0 <= i < samples@.len() ==> (#[trigger] samples@[i] matches Some(v) ==> v == 0)),
{
    if !opened {
        return true;
    }
    if !int16_format {
        return false;
    }
    let mut i: usize = 0;
    while i < samples.len()
        invariant
            opened && int16_format,
            i <= samples@.len(),
            forall|k: int| 0 <= k < i ==> (#[trigger] samples@[k] matches Some(v) ==> v == 0),
        decreases samples@.len() - i,
    {
        match samples[i] {
            Some(v) => {
                if v != 0 {
                    return false;
                }
            },
            None => {},
        }
        i = i + 1;
    }
    true
}

/// The length of a mixed recording: read back from the mixed file when
/// possible, else from the longer of the two captures.
pub fn mixed_duration_ms(
    mixed_file_duration_ms: Option<u64>,
    mic_frames: u64,
    loopback_frames: u64,
    mic_sample_rate_hz: u32,
) -> (r: u64)
    ensures
        mixed_file_duration_ms matches Some(d) ==> r == d,
        mixed_file_duration_ms is None ==> r == duration_ms_spec(
            if mic_frames >= loopback_frames {
                mic_frames
            } else {
                loopback_frames
            },
            mic_sample_rate_hz,
        ),
{
    match mixed_file_duration_ms {
        Some(d) => d,
        None => {
            let frames = if mic_frames >= loopback_frames {
                mic_frames
            } else {
                loopback_frames
            };
            duration_ms_from_frames(frames, mic_sample_rate_hz)
        },
    }
}

} // verus!
