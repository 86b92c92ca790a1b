use transcribe_kit::models::{
    ApiModelDescriptor, AppSettings, LocalModelDescriptor, ModelDownloadProgress, ProviderMode,
};
use transcribe_kit::settings_screen::{AutoSaveStatus, DownloadState, SettingsFeatureState, SettingsFormState};

fn local_model(id: &str, downloaded: bool) -> LocalModelDescriptor {
    LocalModelDescriptor {
        id: id.to_string(),
        label: id.to_uppercase(),
        engine: "whisper".to_string(),
        downloaded,
        size_label: "~75 MB".to_string(),
    }
}

#[test]
fn form_sends_no_key_when_the_field_is_blank() {
    let mut form = SettingsFormState::new();
    form.api_key_input = "   ".to_string();
    assert_eq!(form.build_save_request().api_key, None);
    form.api_key_input = " sk-1 ".to_string();
    assert_eq!(form.build_save_request().api_key, Some(" sk-1 ".to_string()));
    let mut settings = AppSettings::default();
    settings.provider_mode = ProviderMode::Api;
    form.apply_settings(settings);
    assert_eq!(form.provider_mode, ProviderMode::Api);
    assert_eq!(form.api_key_input, "");
}

#[test]
fn load_joins_the_failures() {
    let mut state = SettingsFeatureState::new();
    state.begin_load();
    state.finish_load(
        Ok(vec![local_model("whisper-base", true)]),
        Err("no backend".to_string()),
        Ok(Vec::new()),
        Err("gone".to_string()),
        Ok(AppSettings::default()),
    );
    assert!(!state.is_loading);
    assert_eq!(state.load_error.as_deref(), Some("input devices: no backend | LLM models: gone"));
    assert!(state.selected_model_downloaded());
    assert!(state.suppress_auto_save);
    state.release_auto_save();
    assert!(!state.suppress_auto_save);
}

#[test]
fn saving_runs_once_and_reports_the_outcome() {
    let mut state = SettingsFeatureState::new();
    assert!(state.begin_save().is_some());
    assert!(state.begin_save().is_none());
    let generation = state.finish_save(Ok(AppSettings::default()), None).expect("saved");
    assert_eq!(state.auto_save_status, AutoSaveStatus::Saved);
    state.saved_status_expired(generation);
    assert_eq!(state.auto_save_status, AutoSaveStatus::Idle);

    assert!(state.begin_save().is_some());
    assert_eq!(state.finish_save(Err("disk full".to_string()), None), None);
    assert_eq!(state.auto_save_status, AutoSaveStatus::Error);
    assert_eq!(state.auto_save_error.as_deref(), Some("disk full"));
}

#[test]
fn downloads_and_warming_follow_the_selection() {
    let mut state = SettingsFeatureState::new();
    assert_eq!(state.download_selected_model(), Some("whisper-base".to_string()));
    assert_eq!(state.download_selected_model(), None);
    state.download.progress(&ModelDownloadProgress {
        model_id: "whisper-base".to_string(),
        downloaded_bytes: 10,
        total_bytes: Some(20),
        done: false,
    });
    assert_eq!(state.download.downloaded_bytes, 10);
    state.download.finish(Err("offline".to_string()));
    assert!(!state.download.is_downloading);
    assert_eq!(state.download.download_error.as_deref(), Some("offline"));

    assert_eq!(state.maybe_preload_selected_local_model(), None);
    state.models_changed(Some(vec![local_model("whisper-base", true)]), None);
    assert_eq!(state.maybe_preload_selected_local_model(), Some("whisper-base".to_string()));
    assert_eq!(state.maybe_preload_selected_local_model(), None);
    state.finish_preload("whisper-base".to_string(), true);
    assert_eq!(state.warmed_model_id.as_deref(), Some("whisper-base"));
    assert_eq!(state.maybe_preload_selected_local_model(), None);
}

#[test]
fn api_model_label_falls_back_to_unknown() {
    let mut state = SettingsFeatureState::new();
    assert_eq!(state.active_api_model_label(), "Unknown API model");
    state.api_models = vec![ApiModelDescriptor {
        id: "gpt-4o-mini-transcribe".to_string(),
        label: "GPT-4o mini".to_string(),
        provider: "openai".to_string(),
        supports_custom_name: false,
    }];
    assert_eq!(state.active_api_model_label(), "GPT-4o mini");
    assert!(!state.custom_api_selected());
    let mut fresh = DownloadState::new();
    assert!(fresh.begin("x"));
    fresh.reset();
    assert_eq!(fresh, DownloadState::new());
}

#[test]
fn language_model_downloads_follow_the_selection() {
    let mut state = SettingsFeatureState::new();
    state.form.local_llm_model_id = "llm-qwen-3.5-0.8b".to_string();
    state.llm_models_changed(Some(vec![local_model("llm-qwen-3.5-0.8b", false)]), None);
    assert!(!state.selected_llm_model_downloaded());
    assert_eq!(state.download_selected_llm_model(), Some("llm-qwen-3.5-0.8b".to_string()));
    assert!(state.llm_download.is_downloading);
    assert_eq!(state.download_selected_llm_model(), None);
    state.llm_download.finish(Ok(()));
    state.llm_models_changed(Some(vec![local_model("llm-qwen-3.5-0.8b", true)]), None);
    assert!(state.selected_llm_model_downloaded());
    state.llm_models_changed(None, Some("could not delete".to_string()));
    assert_eq!(state.llm_download.download_error.as_deref(), Some("could not delete"));
    assert!(state.selected_llm_model_downloaded());
}
