use transcribe_kit::errors::{KeyringFailure, SettingsError};
use transcribe_kit::hotkeys::{check_shortcut, shortcut_verdict, validate_shortcut};
use transcribe_kit::models::{
    AppSettings, HotkeyMode, LiveCaptureProfile, PostprocessProviderMode, ProviderMode,
    SaveSettingsRequest,
};
use transcribe_kit::settings::{
    default_stored_settings, map_retrieved_api_key, normalize_base_url, normalize_input_device_id,
    validate_settings, SettingsStore,
};

fn store() -> SettingsStore {
    SettingsStore::with_path("/tmp/transcribe-kit-tests/settings.json".to_string())
}

fn request() -> SaveSettingsRequest {
    SaveSettingsRequest {
        provider_mode: ProviderMode::Local,
        local_model_id: "whisper-base".to_string(),
        selected_input_device_id: None,
        live_capture_profile: LiveCaptureProfile::default(),
        hotkey_mode: HotkeyMode::PushToTalk,
        hotkey_shortcut: "CmdOrCtrl+Shift+T".to_string(),
        api_model_id: "gpt-4o-mini-transcribe".to_string(),
        api_custom_model_name: String::new(),
        api_base_url: "https://api.openai.com/v1".to_string(),
        api_key: None,
        clear_api_key: false,
        postprocess_model: "gpt-4o-mini".to_string(),
        postprocess_provider_mode: PostprocessProviderMode::Api,
        local_llm_model_id: "llm-qwen-3.5-0.8b".to_string(),
    }
}

const LOCAL: [&str; 1] = ["whisper-base"];
const API: [&str; 2] = ["gpt-4o-mini-transcribe", "custom"];

#[test]
fn load_defaults_when_no_settings_exist() {
    let settings = store().load(default_stored_settings(), false);

    assert_eq!(settings.provider_mode, ProviderMode::Local);
    assert_eq!(settings.local_model_id, "whisper-base");
    assert_eq!(settings.selected_input_device_id, None);
    assert_eq!(settings.live_capture_profile, LiveCaptureProfile::MicrophoneOnly);
    assert_eq!(settings.hotkey_mode, HotkeyMode::PushToTalk);
    assert_eq!(settings.hotkey_shortcut, "CmdOrCtrl+Shift+T");
    assert_eq!(settings.api_model_id, "gpt-4o-mini-transcribe");
    assert_eq!(settings.hotkey_registration_error, None);
}

#[test]
fn app_settings_default_matches_stored_defaults() {
    let defaults = AppSettings::default();
    assert_eq!(defaults.api_base_url, "https://api.openai.com/v1");
    assert!(!defaults.api_key_present);
}

#[test]
fn rejects_unknown_model_ids() {
    let mut req = request();
    req.local_model_id = "unknown".to_string();
    let result = validate_settings(&req, &LOCAL, &API, &[]);
    assert!(matches!(result, Err(SettingsError::Validation(_))));
}

#[test]
fn custom_api_model_requires_name() {
    let mut req = request();
    req.provider_mode = ProviderMode::Api;
    req.api_model_id = "custom".to_string();
    req.api_custom_model_name = "  ".to_string();
    req.api_key = Some("secret".to_string());
    let result = validate_settings(&req, &LOCAL, &API, &[]);
    assert!(matches!(result, Err(SettingsError::Validation(_))));
}

#[test]
fn normalize_base_url_trims_trailing_slash() {
    assert_eq!(normalize_base_url(" https://api.openai.com/v1/ "), "https://api.openai.com/v1");
}

#[test]
fn normalize_input_device_id_treats_blank_as_default() {
    assert_eq!(normalize_input_device_id(Some("  ")), None);
    assert_eq!(normalize_input_device_id(Some(" mic-1 ")), Some("mic-1".to_string()));
    assert_eq!(normalize_input_device_id(None), None);
}

#[test]
fn rejects_unknown_selected_input_device_id() {
    let mut req = request();
    req.selected_input_device_id = Some("missing-device".to_string());
    let result = validate_settings(&req, &LOCAL, &API, &["available-device".to_string()]);
    assert!(matches!(result, Err(SettingsError::Validation(_))));
}

#[test]
fn accepts_a_valid_request() {
    let result = validate_settings(&request(), &LOCAL, &API, &[]);
    assert!(result.is_ok());
}

#[test]
fn rejects_invalid_hotkeys() {
    let mut req = request();
    req.hotkey_shortcut = "T".to_string();
    // "T" parses as a shortcut without modifier keys.
    let result = store().prepare_save(
        req,
        &LOCAL,
        &API,
        &[],
        Ok(default_stored_settings()),
        Ok(false),
        false,
    );
    assert!(matches!(result, Err(SettingsError::Validation(_))));
}

#[test]
fn prepare_save_normalizes_what_is_stored() {
    let mut req = request();
    req.api_base_url = " https://example.com/v1/ ".to_string();
    req.hotkey_shortcut = " CmdOrCtrl+Shift+R ".to_string();
    req.selected_input_device_id = Some("  ".to_string());
    let prepared = store()
        .prepare_save(req, &LOCAL, &API, &[], Ok(default_stored_settings()), Ok(true), false)
        .expect("valid request");
    assert_eq!(prepared.stored.api_base_url, "https://example.com/v1");
    assert_eq!(prepared.stored.hotkey_shortcut, "CmdOrCtrl+Shift+R");
    assert_eq!(prepared.stored.selected_input_device_id, None);
}

#[test]
fn api_mode_without_a_key_is_rejected() {
    let mut req = request();
    req.provider_mode = ProviderMode::Api;
    let result = store().prepare_save(req, &LOCAL, &API, &[], Ok(default_stored_settings()), Ok(true), false);
    match result {
        Err(SettingsError::Validation(message)) => {
            assert_eq!(message, "An API key is required when API transcription is selected.")
        }
        other => panic!("expected a validation error, got {other:?}"),
    }
}

#[test]
fn accepts_cmd_or_ctrl_shortcut() {
    let result = validate_shortcut("CmdOrCtrl+Shift+T");
    assert_eq!(result.as_deref(), Ok("CmdOrCtrl+Shift+T"));
}

#[test]
fn rejects_shortcuts_without_modifiers() {
    let result = validate_shortcut("T");
    assert!(result.expect_err("shortcut should be rejected").contains("modifier"));
}

#[test]
fn rejects_blank_shortcuts() {
    assert!(validate_shortcut("   ").is_err());
}

#[test]
fn unparseable_shortcuts_carry_the_parser_error() {
    let error = check_shortcut("Ctrl+Nope", Err("unknown key".to_string())).unwrap_err();
    assert_eq!(error, "Enter a valid hotkey like CmdOrCtrl+Shift+T. unknown key");
    let parsed = validate_shortcut("Ctrl+Nope").unwrap_err();
    assert!(parsed.starts_with("Enter a valid hotkey like CmdOrCtrl+Shift+T. "));
    assert!(parsed.contains("NOPE") || parsed.contains("Nope"));
}

#[test]
fn shortcut_verdicts_come_from_the_hotkey_parser() {
    assert_eq!(shortcut_verdict("CmdOrCtrl+Shift+T"), Ok(true));
    assert_eq!(shortcut_verdict("Alt+Space"), Ok(true));
    assert_eq!(shortcut_verdict("F5"), Ok(false));
    assert!(shortcut_verdict("Ctrl++T").is_err());
    assert!(shortcut_verdict("Ctrl+T+Shift").is_err());
    assert_eq!(validate_shortcut("  Shift+F5 ").as_deref(), Ok("Shift+F5"));
}

#[test]
fn get_api_key_returns_validation_error_when_missing() {
    let result = store().get_api_key(None, Ok(default_stored_settings()));
    match result {
        Err(SettingsError::Validation(message)) => {
            assert!(message.contains("No API key is stored"));
        }
        other => panic!("expected missing-key validation error, got {other:?}"),
    }
}

#[test]
fn get_api_key_mapping_returns_stored_value() {
    let stored_key = map_retrieved_api_key(Ok("super-secret".to_string())).expect("read stored key");
    assert_eq!(stored_key, "super-secret");
}

#[test]
fn get_api_key_mapping_trims_stored_value() {
    let stored_key = map_retrieved_api_key(Ok("  super-secret  ".to_string())).expect("read stored key");
    assert_eq!(stored_key, "super-secret");
}

#[test]
fn get_api_key_mapping_preserves_keyring_errors() {
    let result = map_retrieved_api_key(Err(KeyringFailure::Other(keyring::Error::Invalid(
        "account".to_string(),
        "invalid".to_string(),
    ))));

    match result {
        Err(SettingsError::Keyring(keyring::Error::Invalid(account, reason))) => {
            assert_eq!(account, "account");
            assert_eq!(reason, "invalid");
        }
        other => panic!("expected keyring invalid error, got {other:?}"),
    }
}

#[test]
fn get_api_key_mapping_treats_a_missing_entry_as_no_key() {
    let result = map_retrieved_api_key(Err(KeyringFailure::NoEntry));
    assert!(matches!(result, Err(SettingsError::Validation(_))));
}

#[test]
fn settings_store_path_is_settings_json_in_the_config_dir() {
    let s = SettingsStore::from_config_dir(Some("/tmp/cfg".to_string()), true).expect("store");
    assert_eq!(s.config_path(), "/tmp/cfg/settings.json");
    assert!(s.keyring_available());
    assert!(matches!(
        SettingsStore::from_config_dir(None, true),
        Err(SettingsError::MissingConfigDir)
    ));
}

#[test]
fn saved_request_loads_back_normalized() {
    let mut req = request();
    req.provider_mode = ProviderMode::Api;
    req.api_base_url = "  https://example.com/v1/ ".to_string();
    req.api_key = Some("  sk-test  ".to_string());
    req.hotkey_mode = HotkeyMode::Toggle;
    let prepared = store()
        .prepare_save(req, &LOCAL, &API, &[], Ok(default_stored_settings()), Ok(true), false)
        .expect("valid request");
    let commit = store().commit_plan(prepared);
    assert_eq!(commit.stored.api_key_plaintext.as_deref(), Some("sk-test"));
    assert!(!commit.delete_keyring_key);
    assert_eq!(commit.keyring_key, None);
    let shown = store().load(commit.stored, true);
    assert_eq!(shown.provider_mode, ProviderMode::Api);
    assert_eq!(shown.api_base_url, "https://example.com/v1");
    assert_eq!(shown.hotkey_mode, HotkeyMode::Toggle);
    assert_eq!(shown.hotkey_shortcut, "CmdOrCtrl+Shift+T");
    assert!(shown.api_key_present);
    assert!(shown.api_key_insecure);
    assert_eq!(shown.hotkey_registration_error, None);
}

#[test]
fn keyring_commit_keeps_the_key_out_of_the_file() {
    let keyring_store = SettingsStore::from_config_dir(Some("/tmp/tk".to_string()), true).unwrap();
    let mut req = request();
    req.api_key = Some("sk-new".to_string());
    let mut existing = default_stored_settings();
    existing.api_key_plaintext = Some("old".to_string());
    let prepared = keyring_store
        .prepare_save(req, &LOCAL, &API, &[], Ok(existing), Ok(true), false)
        .expect("valid request");
    let commit = keyring_store.commit_plan(prepared);
    assert_eq!(commit.stored.api_key_plaintext, None);
    assert_eq!(commit.keyring_key.as_deref(), Some("sk-new"));
    let shown = keyring_store.load(commit.stored, true);
    assert!(!shown.api_key_insecure);
}

#[test]
fn keyring_lookups_map_a_missing_entry_and_other_failures_apart() {
    let s = SettingsStore::from_config_dir(Some("/tmp/cfg".to_string()), true).expect("store");
    let stored = default_stored_settings();
    assert!(matches!(s.has_api_key(&stored, Some(Err(KeyringFailure::NoEntry))), Ok(false)));
    assert!(matches!(
        s.has_api_key(&stored, Some(Err(KeyringFailure::Other(keyring::Error::PlatformFailure("down".into()))))),
        Err(SettingsError::Keyring(keyring::Error::PlatformFailure(_)))
    ));
    assert!(matches!(
        s.get_api_key(Some(Err(KeyringFailure::NoEntry)), Ok(default_stored_settings())),
        Err(SettingsError::Validation(m)) if m == "No API key is stored for the configured API base URL."
    ));
    assert!(matches!(
        s.get_api_key(Some(Err(KeyringFailure::Other(keyring::Error::NoStorageAccess("locked".into())))), Ok(default_stored_settings())),
        Err(SettingsError::Keyring(keyring::Error::NoStorageAccess(_)))
    ));
    assert_eq!(s.get_api_key(Some(Ok(" k ".to_string())), Ok(default_stored_settings())).unwrap(), "k");
}
