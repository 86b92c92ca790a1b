use transcribe_kit::models::{
    AudioInputDeviceDescriptor, HotkeyMode, LiveCaptureProfile, LocalModelDescriptor, ProviderMode,
};
use transcribe_kit::settings_fields::{
    api_key_placeholder, capture_profile_from_value, capture_profile_hint, capture_profile_value,
    device_choice, device_count_label, hotkey_mode_from_value, hotkey_mode_hint, hotkey_mode_value,
    meeting_mix_mic_warning, model_row, provider_mode_from_value, provider_mode_value,
    save_button_label, selected_device_hint, selected_device_missing, selected_hotkey_label,
    selected_input_device_label, selected_size_label, summary_api_model_label, HotkeyCapture,
    KeyPress, ModelRow,
};

fn device(id: &str, label: &str, is_default: bool) -> AudioInputDeviceDescriptor {
    AudioInputDeviceDescriptor {
        id: id.to_string(),
        label: label.to_string(),
        manufacturer: None,
        channels: None,
        sample_rate_hz: None,
        is_default,
        is_output_loopback: false,
    }
}

fn key(code: &str, ctrl: bool, shift: bool) -> KeyPress {
    KeyPress { code: code.to_string(), repeat: false, ctrl, alt: false, shift, meta: false }
}

#[test]
fn select_values_round_trip() {
    for profile in [LiveCaptureProfile::MicrophoneOnly, LiveCaptureProfile::MeetingMix] {
        assert_eq!(capture_profile_from_value(capture_profile_value(profile)), profile);
    }
    assert_eq!(capture_profile_from_value("bogus"), LiveCaptureProfile::MicrophoneOnly);
    for mode in [ProviderMode::Local, ProviderMode::Api] {
        assert_eq!(provider_mode_from_value(provider_mode_value(mode)), mode);
    }
    for mode in [HotkeyMode::PushToTalk, HotkeyMode::Toggle] {
        assert_eq!(hotkey_mode_from_value(hotkey_mode_value(mode)), mode);
    }
    assert!(capture_profile_hint(LiveCaptureProfile::MicrophoneOnly).starts_with("Records from your selected"));
    assert!(hotkey_mode_hint(HotkeyMode::Toggle).starts_with("Press once"));
    assert_eq!(device_choice("  ".to_string()), None);
    assert_eq!(device_choice("mic".to_string()).as_deref(), Some("mic"));
}

#[test]
fn audio_input_hints() {
    let devices = vec![device("usb", "USB Microphone", true), device("bh", "BlackHole 2ch", false)];
    assert!(!selected_device_missing(None, &devices));
    assert!(!selected_device_missing(Some("bh"), &devices));
    assert!(selected_device_missing(Some("gone"), &devices));
    assert_eq!(
        selected_device_hint(Some("gone"), &devices),
        "The saved audio input is no longer available on this machine."
    );
    assert!(selected_device_hint(None, &devices).starts_with("System default is currently USB Microphone. "));
    assert_eq!(
        selected_device_hint(None, &[]),
        "System default will follow the OS audio input choice whenever live capture starts."
    );
    assert!(selected_device_hint(Some("bh"), &devices).starts_with("BlackHole 2ch is ready for live recording."));
    assert!(meeting_mix_mic_warning(LiveCaptureProfile::MeetingMix, None, &devices));
    assert!(!meeting_mix_mic_warning(LiveCaptureProfile::MeetingMix, Some("bh"), &devices));
    assert!(!meeting_mix_mic_warning(LiveCaptureProfile::MicrophoneOnly, None, &devices));
    assert_eq!(device_count_label(0), "No audio inputs detected");
    assert_eq!(device_count_label(1), "1 audio input detected");
    assert_eq!(device_count_label(3), "3 audio inputs detected");
    assert_eq!(selected_input_device_label(None, &devices), "System default (USB Microphone)");
    assert_eq!(selected_input_device_label(Some("gone"), &devices), "Previously selected input unavailable");
    assert_eq!(selected_input_device_label(None, &[]), "System default input");
}

#[test]
fn summary_and_action_labels() {
    assert_eq!(selected_hotkey_label(HotkeyMode::PushToTalk, "Ctrl+Shift+T"), "Push-to-talk on Ctrl+Shift+T");
    assert_eq!(summary_api_model_label(true, "  ", "GPT"), "Custom model name");
    assert_eq!(summary_api_model_label(true, " mine ", "GPT"), " mine ");
    assert_eq!(summary_api_model_label(false, "mine", "GPT"), "GPT");
    assert_eq!(api_key_placeholder(true), "Leave blank to keep the saved key");
    assert_eq!(save_button_label(true), "Saving...");
    let models = vec![LocalModelDescriptor {
        id: "whisper-base".to_string(),
        label: "Whisper Base".to_string(),
        engine: "whisper".to_string(),
        downloaded: false,
        size_label: "~142 MB".to_string(),
    }];
    assert_eq!(selected_size_label(&models, "whisper-base"), "~142 MB");
    assert_eq!(selected_size_label(&models, "whisper-tiny"), "");
    assert_eq!(model_row(true, true), ModelRow::Downloading);
    assert_eq!(model_row(false, true), ModelRow::Ready);
    assert_eq!(model_row(false, false), ModelRow::NotDownloaded);
}

#[test]
fn hotkey_capture_needs_a_modifier() {
    let mut capture = HotkeyCapture::new();
    assert_eq!(capture.key_down(key("KeyT", true, true)), None);
    assert_eq!(capture.button_label("Ctrl+T"), "Ctrl+T");
    capture.toggle();
    assert_eq!(capture.button_label("Ctrl+T"), "Press the shortcut now");
    assert_eq!(capture.key_down(key("ShiftLeft", false, true)), None);
    assert_eq!(capture.button_label("Ctrl+T"), "Shift");
    assert_eq!(capture.key_down(key("KeyR", false, false)), None);
    assert_eq!(
        capture.feedback.as_deref(),
        Some("Include at least one modifier key like Cmd, Ctrl, Alt, or Shift.")
    );
    assert_eq!(capture.key_down(key("KeyR", true, true)).as_deref(), Some("Ctrl+Shift+KeyR"));
    assert!(!capture.is_capturing);
    capture.toggle();
    assert_eq!(capture.key_down(key("Escape", false, false)), None);
    assert!(!capture.is_capturing);
    capture.toggle();
    let mut repeated = key("KeyA", true, false);
    repeated.repeat = true;
    assert_eq!(capture.key_down(repeated), None);
    assert!(capture.is_capturing);
    assert_eq!(capture.key_down(key("Tab", false, false)), None);
    assert!(!capture.is_capturing);
}
