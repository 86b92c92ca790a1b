use transcribe_kit::commands::{
    can_reuse_engine, file_transcription_metadata, list_api_models, list_local_models,
    live_transcription_metadata, local_model_descriptor, local_model_id, recording_tooltip,
    rollback_failure_message, save_needs_device_list, selected_input_is_output_loopback,
    should_preload_local_model, whisper_label, with_hotkey_error,
};
use transcribe_kit::models::{
    AudioInputDeviceDescriptor, InputType, LiveCaptureProfile, ProviderMode,
    TranscribeLiveRecordingRequest,
};
use transcribe_kit::settings::default_app_settings;
use transcribe_kit::settings_screen::SettingsFormState;

fn device(id: &str, loopback: bool) -> AudioInputDeviceDescriptor {
    AudioInputDeviceDescriptor {
        id: id.to_string(),
        label: id.to_string(),
        manufacturer: None,
        channels: Some(2),
        sample_rate_hz: Some(48_000),
        is_default: false,
        is_output_loopback: loopback,
    }
}

#[test]
fn whisper_labels_name_known_models_and_echo_unknown_ones() {
    assert_eq!(whisper_label("whisper-tiny"), "Whisper Tiny");
    assert_eq!(whisper_label("whisper-large-v3-turbo"), "Whisper Large v3 Turbo");
    assert_eq!(whisper_label("my-model"), "my-model");
}

#[test]
fn local_models_are_listed_in_order_with_download_state() {
    let models = list_local_models(&[true, false, false, true]);
    let ids: Vec<&str> = models.iter().map(|m| m.id.as_str()).collect();
    assert_eq!(
        ids,
        vec!["whisper-tiny", "whisper-base", "whisper-small", "whisper-large-v3-turbo"]
    );
    assert!(models[0].downloaded);
    assert!(!models[1].downloaded);
    assert!(models[3].downloaded);
    assert_eq!(models[1].label, "Whisper Base");
    assert_eq!(models[0].engine, "whisper");
}

#[test]
fn local_model_descriptor_carries_size_label() {
    let d = local_model_descriptor("whisper-small", false);
    assert_eq!(d.label, "Whisper Small");
    assert!(!d.size_label.is_empty());
    assert!(!d.downloaded);
}

#[test]
fn api_models_offer_a_custom_name_last() {
    let models = list_api_models();
    assert_eq!(models.len(), 3);
    assert_eq!(models[0].id, "gpt-4o-mini-transcribe");
    assert_eq!(models[1].id, "gpt-4o-transcribe");
    assert_eq!(models[2].id, "custom");
    assert!(models[2].supports_custom_name);
    assert!(!models[0].supports_custom_name);
}

#[test]
fn local_model_id_requires_local_provider() {
    let mut settings = default_app_settings();
    settings.provider_mode = ProviderMode::Local;
    settings.local_model_id = "whisper-base".to_string();
    assert_eq!(
        local_model_id(Ok(settings.clone()), "File transcription"),
        Ok("whisper-base".to_string())
    );

    settings.provider_mode = ProviderMode::Api;
    assert_eq!(
        local_model_id(Ok(settings), "Live transcription"),
        Err("Live transcription is only wired up for Local Whisper right now. Switch the provider in Settings to continue.".to_string())
    );

    assert_eq!(
        local_model_id(Err("disk error".to_string()), "File transcription"),
        Err("disk error".to_string())
    );
}

#[test]
fn file_metadata_has_no_capture_details() {
    let m = file_transcription_metadata(Some("meeting.wav".to_string()));
    assert_eq!(m.input_type, InputType::File);
    assert_eq!(m.source_name.as_deref(), Some("meeting.wav"));
    assert_eq!(m.duration_ms, None);
    assert_eq!(m.live_capture_profile, None);
}

#[test]
fn live_metadata_names_the_device() {
    let request = TranscribeLiveRecordingRequest {
        file_path: "/tmp/rec.wav".to_string(),
        input_device_id: Some("mic-1".to_string()),
        input_device_label: "  ".to_string(),
        live_capture_profile: LiveCaptureProfile::MeetingMix,
        duration_ms: 4_200,
    };
    let m = live_transcription_metadata(&request);
    assert_eq!(m.input_type, InputType::Live);
    assert_eq!(m.source_name.as_deref(), Some("mic-1"));
    assert_eq!(m.duration_ms, Some(4_200));
    assert_eq!(m.live_capture_profile, Some(LiveCaptureProfile::MeetingMix));
}

#[test]
fn device_list_is_needed_only_for_a_selected_device() {
    let mut request = SettingsFormState::new().build_save_request();
    request.selected_input_device_id = None;
    assert!(!save_needs_device_list(&request));
    request.selected_input_device_id = Some("   ".to_string());
    assert!(!save_needs_device_list(&request));
    request.selected_input_device_id = Some("mic".to_string());
    assert!(save_needs_device_list(&request));
}

#[test]
fn rollback_failure_joins_both_errors() {
    assert_eq!(
        rollback_failure_message("Could not save", "shortcut busy"),
        "Could not save. Transcribe Kit also failed to restore the previous global hotkey: shortcut busy"
    );
}

#[test]
fn hotkey_error_replaces_only_that_field() {
    let settings = default_app_settings();
    let updated = with_hotkey_error(settings.clone(), Some("taken".to_string()));
    assert_eq!(updated.hotkey_registration_error.as_deref(), Some("taken"));
    assert_eq!(updated.local_model_id, settings.local_model_id);
    assert_eq!(updated.hotkey_shortcut, settings.hotkey_shortcut);
}

#[test]
fn loopback_selection_follows_the_device_list() {
    let devices = vec![device("mic", false), device("speakers", true)];
    assert!(selected_input_is_output_loopback(Some("speakers"), Some(devices.clone())));
    assert!(!selected_input_is_output_loopback(Some("mic"), Some(devices.clone())));
    assert!(!selected_input_is_output_loopback(Some("absent"), Some(devices.clone())));
    assert!(!selected_input_is_output_loopback(None, Some(devices)));
    assert!(!selected_input_is_output_loopback(Some("speakers"), None));
}

#[test]
fn loaded_engine_is_reused_only_for_the_same_model() {
    assert!(can_reuse_engine(Some("whisper-base"), "whisper-base"));
    assert!(!can_reuse_engine(Some("whisper-base"), "whisper-small"));
    assert!(!can_reuse_engine(None, "whisper-base"));
}

#[test]
fn local_model_is_preloaded_only_for_local_provider() {
    let mut settings = default_app_settings();
    settings.provider_mode = ProviderMode::Local;
    assert_eq!(should_preload_local_model(&settings), Some(settings.local_model_id.clone()));
    settings.provider_mode = ProviderMode::Api;
    assert_eq!(should_preload_local_model(&settings), None);
}

#[test]
fn recording_tooltip_names_the_device() {
    assert_eq!(recording_tooltip(Some("USB Mic")), "Transcribe Kit: recording from USB Mic");
    assert_eq!(recording_tooltip(None), "Transcribe Kit: recording");
}
