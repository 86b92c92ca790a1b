use transcribe_kit::input_devices::{
    list_input_devices, macos_version_at_least, parse_macos_version, parse_u32,
    platform_supports_output_loopback, sort_input_devices, InputDeviceError, RawAudioDevice,
};
use transcribe_kit::live::TargetOs;
use transcribe_kit::models::AudioInputDeviceDescriptor;

fn raw(id: Option<&str>, name: Option<&str>) -> RawAudioDevice {
    RawAudioDevice {
        id: id.map(str::to_string),
        name: name.map(str::to_string),
        manufacturer: None,
        channels: Some(2),
        sample_rate_hz: Some(48_000),
    }
}

#[test]
fn devices_are_listed_default_first_then_by_label() {
    let devices = list_input_devices(
        Ok(vec![
            raw(Some("b"), Some("zeta mic")),
            raw(None, Some("broken")),
            raw(Some("a"), Some("Alpha Mic")),
            raw(Some("c"), Some("beta mic")),
            raw(Some("coreaudio:0123456789"), None),
        ]),
        Some(vec![raw(Some("out"), Some("Speakers"))]),
        Some("b".to_string()),
        true,
    )
    .expect("listed");
    let labels: Vec<&str> = devices.iter().map(|d| d.label.as_str()).collect();
    assert_eq!(
        labels,
        vec!["zeta mic", "Alpha Mic", "Audio input coreaudi", "beta mic", "Speakers (System Audio)"]
    );
    assert!(devices[0].is_default);
    assert!(devices[4].is_output_loopback);
}

#[test]
fn outputs_are_left_out_without_loopback_support() {
    let devices = list_input_devices(
        Ok(vec![raw(Some("a"), Some("Mic"))]),
        Some(vec![raw(Some("out"), None)]),
        None,
        false,
    )
    .expect("listed");
    assert_eq!(devices.len(), 1);
    let error = list_input_devices(Err("no host".to_string()), None, None, true).unwrap_err();
    assert_eq!(error, InputDeviceError::EnumerateDevices("no host".to_string()));
    assert_eq!(
        error.to_string(),
        "Transcribe Kit could not enumerate audio input devices: no host"
    );
}

#[test]
fn unnamed_outputs_use_their_id() {
    let devices = list_input_devices(Ok(Vec::new()), Some(vec![raw(Some("wasapi:{abcdef12-3}"), None)]), None, true)
        .expect("listed");
    assert_eq!(devices[0].label, "System Audio wasapi:{");
    assert!(sort_input_devices(Vec::new()).is_empty());
}

#[test]
fn versions_parse_like_sw_vers_output() {
    assert_eq!(parse_macos_version("14.2.1"), Some((14, 2, 1)));
    assert_eq!(parse_macos_version("15"), Some((15, 0, 0)));
    assert_eq!(parse_macos_version(" 13 . 6 "), Some((13, 6, 0)));
    assert_eq!(parse_macos_version("14.x"), None);
    assert_eq!(parse_u32("+7"), Some(7));
    assert_eq!(parse_u32("+"), None);
    assert_eq!(parse_u32("4294967295"), Some(u32::MAX));
    assert_eq!(parse_u32("4294967296"), None);
    assert_eq!(parse_u32(""), None);
}

#[test]
fn output_loopback_needs_windows_or_recent_macos() {
    assert!(macos_version_at_least("14.2\n", 14, 2));
    assert!(!macos_version_at_least("14.1.9", 14, 2));
    assert!(macos_version_at_least("15.0", 14, 2));
    assert!(platform_supports_output_loopback(TargetOs::Windows, None));
    assert!(platform_supports_output_loopback(TargetOs::MacOs, Some("14.4")));
    assert!(!platform_supports_output_loopback(TargetOs::MacOs, None));
    assert!(!platform_supports_output_loopback(TargetOs::Linux, Some("99.0")));
}

#[test]
fn devices_with_the_same_sort_key_keep_their_order() {
    let device = |id: &str, label: &str, channels: u16| AudioInputDeviceDescriptor {
        id: id.to_string(),
        label: label.to_string(),
        manufacturer: None,
        channels: Some(channels),
        sample_rate_hz: None,
        is_default: false,
        is_output_loopback: false,
    };
    let sorted = sort_input_devices(vec![
        device("x", "Mic", 1),
        device("x", "MIC", 2),
        device("a", "Mic", 3),
        device("x", "mic", 4),
    ]);
    let channels: Vec<Option<u16>> = sorted.iter().map(|d| d.channels).collect();
    assert_eq!(channels, vec![Some(3), Some(1), Some(2), Some(4)]);
}
