use transcribe_kit::devices::{
    build_capture_behavior_summary, build_meeting_readiness_hint, build_meeting_troubleshooting_steps,
    classify_input_device, describe_input_device, dual_capture_available,
    format_input_device_option_label, input_device_kind_summary, is_mic_like_input,
    detect_runtime_platform, platform_meeting_guidance, system_default_option_label,
    InputDeviceKindHint, MeetingReadinessTone, RuntimePlatform,
};
use transcribe_kit::models::{AudioInputDeviceDescriptor, LiveCaptureProfile};

fn sample_device(label: &str) -> AudioInputDeviceDescriptor {
    AudioInputDeviceDescriptor {
        id: label.to_string(),
        label: label.to_string(),
        manufacturer: None,
        channels: Some(2),
        sample_rate_hz: Some(48_000),
        is_default: false,
        is_output_loopback: false,
    }
}

#[test]
fn meeting_mix_hint_recommends_loopback_inputs() {
    let device = sample_device("BlackHole 2ch");
    let selected_id = device.id.clone();
    let hint = build_meeting_readiness_hint(
        LiveCaptureProfile::MeetingMix,
        Some(selected_id.as_str()),
        &[device],
        false,
    );

    assert_eq!(hint.tone, MeetingReadinessTone::Good);
    assert!(hint.title.starts_with("Yes:"));
}

#[test]
fn meeting_mix_hint_warns_for_microphones() {
    let device = sample_device("USB Microphone");
    let selected_id = device.id.clone();
    let hint = build_meeting_readiness_hint(
        LiveCaptureProfile::MeetingMix,
        Some(selected_id.as_str()),
        &[device],
        false,
    );

    assert_eq!(hint.tone, MeetingReadinessTone::Warning);
    assert!(hint.title.starts_with("No:"));
}

#[test]
fn meeting_mix_hint_cautions_system_audio_captures_only_remote() {
    let mut device = sample_device("Built-in Output (System Audio)");
    device.is_output_loopback = true;
    let selected_id = device.id.clone();
    let hint = build_meeting_readiness_hint(
        LiveCaptureProfile::MeetingMix,
        Some(selected_id.as_str()),
        &[device],
        true,
    );

    assert_eq!(hint.tone, MeetingReadinessTone::Caution);
    assert!(hint.title.starts_with("Partial:"));
    assert!(hint.body.contains("not included"));
}

#[test]
fn meeting_readiness_warns_when_selected_device_is_missing() {
    let hint = build_meeting_readiness_hint(
        LiveCaptureProfile::MeetingMix,
        Some("missing-device"),
        &[sample_device("BlackHole 2ch")],
        false,
    );

    assert_eq!(hint.tone, MeetingReadinessTone::Warning);
    assert!(hint.title.contains("no longer available"));
}

#[test]
fn meeting_readiness_warns_when_no_devices_are_available() {
    let hint = build_meeting_readiness_hint(LiveCaptureProfile::MeetingMix, None, &[], false);

    assert_eq!(hint.tone, MeetingReadinessTone::Warning);
    assert!(hint.title.contains("no audio input"));
}

#[test]
fn detects_runtime_platforms_from_platform_and_user_agent_hints() {
    assert_eq!(RuntimePlatform::detect("MacIntel", "Mozilla/5.0"), RuntimePlatform::MacOS);
    assert_eq!(RuntimePlatform::detect("Win32", "Mozilla/5.0"), RuntimePlatform::Windows);
    assert_eq!(
        RuntimePlatform::detect("x86_64", "Mozilla/5.0 (X11; Linux x86_64)"),
        RuntimePlatform::Linux
    );
    assert_eq!(RuntimePlatform::detect("", ""), RuntimePlatform::Unknown);
}

#[test]
fn capture_behavior_summary_warns_for_meeting_mix_on_plain_mic() {
    let device = sample_device("USB Microphone");
    let selected_id = device.id.clone();
    let summary = build_capture_behavior_summary(
        LiveCaptureProfile::MeetingMix,
        Some(selected_id.as_str()),
        &[device],
        false,
    );

    assert_eq!(summary.tone, MeetingReadinessTone::Warning);
    assert!(summary.title.contains("may be incomplete"));
}

#[test]
fn capture_behavior_summary_confirms_loopback_meeting_mix() {
    let device = sample_device("BlackHole 2ch");
    let selected_id = device.id.clone();
    let summary = build_capture_behavior_summary(
        LiveCaptureProfile::MeetingMix,
        Some(selected_id.as_str()),
        &[device],
        false,
    );

    assert_eq!(summary.tone, MeetingReadinessTone::Good);
    assert!(summary.title.contains("meeting mix"));
}

#[test]
fn troubleshooting_steps_call_out_plain_mic_meeting_mix() {
    let device = sample_device("USB Microphone");
    let selected_id = device.id.clone();
    let steps = build_meeting_troubleshooting_steps(
        RuntimePlatform::Windows,
        LiveCaptureProfile::MeetingMix,
        Some(selected_id.as_str()),
        &[device],
        false,
    );

    assert!(steps[0].contains("mostly contains your own voice"));
    assert!(steps[2].contains("Windows"));
}

#[test]
fn dual_capture_available_is_true_when_system_audio_device_exists() {
    let mut system_audio = sample_device("Built-in Output");
    system_audio.is_output_loopback = true;

    assert!(dual_capture_available(&[sample_device("USB Microphone"), system_audio]));
    assert!(!dual_capture_available(&[sample_device("USB Microphone")]));
}

#[test]
fn meeting_mix_hint_confirms_dual_capture_for_microphone_when_available() {
    let mic = sample_device("USB Microphone");
    let selected_id = mic.id.clone();
    let mut system_audio = sample_device("Built-in Output");
    system_audio.is_output_loopback = true;
    let devices = vec![mic, system_audio];
    let hint = build_meeting_readiness_hint(
        LiveCaptureProfile::MeetingMix,
        Some(selected_id.as_str()),
        &devices,
        dual_capture_available(&devices),
    );

    assert_eq!(hint.tone, MeetingReadinessTone::Good);
    assert!(hint.body.contains("microphone and system audio"));
}

#[test]
fn capture_behavior_summary_mentions_mic_and_system_audio_when_dual_capture_ready() {
    let mic = sample_device("USB Microphone");
    let selected_id = mic.id.clone();
    let mut system_audio = sample_device("Built-in Output");
    system_audio.is_output_loopback = true;
    let devices = vec![mic, system_audio];
    let summary = build_capture_behavior_summary(
        LiveCaptureProfile::MeetingMix,
        Some(selected_id.as_str()),
        &devices,
        dual_capture_available(&devices),
    );

    assert_eq!(summary.tone, MeetingReadinessTone::Good);
    assert!(summary.title.contains("+ system audio"));
    assert!(summary.body.contains("selected input"));
}

#[test]
fn classifies_loopback_devices_from_label() {
    let device = sample_device("BlackHole 2ch");
    assert_eq!(classify_input_device(&device), InputDeviceKindHint::VirtualLoopback);
}

#[test]
fn classifies_monitor_devices_from_label() {
    let device = sample_device("Monitor of Built-in Audio");
    assert_eq!(classify_input_device(&device), InputDeviceKindHint::MonitorSource);
}

#[test]
fn classifies_microphones_from_label() {
    let device = sample_device("MacBook Pro Microphone");
    assert_eq!(classify_input_device(&device), InputDeviceKindHint::PhysicalMic);
}

#[test]
fn classifies_output_loopback_devices_as_system_audio() {
    let mut device = sample_device("MacBook Pro Microphone");
    device.is_output_loopback = true;
    assert_eq!(classify_input_device(&device), InputDeviceKindHint::SystemAudio);
    assert_eq!(classify_input_device(&sample_device("Line In")), InputDeviceKindHint::Unknown);
}

#[test]
fn picker_option_labels_include_device_badges() {
    let device = sample_device("BlackHole 2ch");
    assert_eq!(format_input_device_option_label(&device), "[Loopback] BlackHole 2ch");
}

#[test]
fn system_default_option_shows_current_default_device_kind() {
    let mut device = sample_device("BlackHole 2ch");
    device.is_default = true;

    assert_eq!(
        system_default_option_label(&[device]),
        "System default input (currently [Loopback] BlackHole 2ch)"
    );
}

#[test]
fn mic_like_inputs_are_named_like_microphones() {
    assert!(is_mic_like_input(&sample_device("USB Microphone")));
    assert!(!is_mic_like_input(&sample_device("BlackHole 2ch")));
    assert!(!input_device_kind_summary(InputDeviceKindHint::PhysicalMic).is_empty());
    assert!(describe_input_device(&sample_device("USB Microphone")).starts_with("USB Microphone: 2 ch • 48000 Hz. "));
}

#[test]
fn meeting_guidance_names_the_platform() {
    assert_eq!(platform_meeting_guidance(RuntimePlatform::MacOS).platform_label, "macOS");
    assert_eq!(platform_meeting_guidance(RuntimePlatform::Windows).platform_label, "Windows");
    assert_eq!(
        platform_meeting_guidance(RuntimePlatform::Linux).title,
        "Meeting capture on Linux usually relies on monitor sources or virtual inputs."
    );
    assert_eq!(platform_meeting_guidance(RuntimePlatform::Unknown).platform_label, "This device");
    assert_eq!(detect_runtime_platform(), RuntimePlatform::Unknown);
}
