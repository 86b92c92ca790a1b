//! The settings screen's state: the form, the model downloads, loading and
//! saving with auto-save, and warming the selected local model.  The app
//! makes the backend calls each step asks for and reports their results.
use vstd::prelude::*;

use crate::models::{
    ApiModelDescriptor, AppSettings, AudioInputDeviceDescriptor, HotkeyMode, LiveCaptureProfile,
    LocalModelDescriptor, ModelDownloadProgress, PostprocessProviderMode, ProviderMode,
    SaveSettingsRequest,
};
use crate::text::{is_blank, str_eq, trim_spec};
use crate::transcription_job::duplicate_opt;

verus! {

/// What auto-save is doing.
#[derive(Debug, Clone, Copy, PartialEq, Eq, Structural)]
pub enum AutoSaveStatus {
    Idle,
    Pending,
    Saving,
    Saved,
    Error,
}

/// The settings form as edited.
#[derive(Debug, Clone, PartialEq, Eq)]
pub struct SettingsFormState {
    pub provider_mode: ProviderMode,
    pub local_model_id: String,
    pub selected_input_device_id: Option<String>,
    pub live_capture_profile: LiveCaptureProfile,
    pub hotkey_mode: HotkeyMode,
    pub hotkey_shortcut: String,
    pub api_model_id: String,
    pub api_custom_model_name: String,
    pub api_base_url: String,
    pub api_key_input: String,
    pub clear_api_key: bool,
    pub api_key_present: bool,
    pub api_key_insecure: bool,
    pub postprocess_model: String,
    pub postprocess_provider_mode: PostprocessProviderMode,
    pub local_llm_model_id: String,
}

/// The form as it starts: the default settings, no key typed.
pub open spec fn is_new_form(r: SettingsFormState) -> bool {
    &&& r.provider_mode == ProviderMode::Local
    &&& r.local_model_id@ == "whisper-base"@
    &&& r.selected_input_device_id is None
    &&& r.live_capture_profile == LiveCaptureProfile::MicrophoneOnly
    &&& r.hotkey_mode == HotkeyMode::PushToTalk
    &&& r.hotkey_shortcut@ == "CmdOrCtrl+Shift+T"@
    &&& r.api_model_id@ == "gpt-4o-mini-transcribe"@
    &&& r.api_custom_model_name@.len() == 0
    &&& r.api_base_url@ == "https://api.openai.com/v1"@
    &&& r.api_key_input@.len() == 0
    &&& !r.clear_api_key
    &&& !r.api_key_present
    &&& !r.api_key_insecure
    &&& r.postprocess_model@ == "gpt-4o-mini"@
    &&& r.postprocess_provider_mode == PostprocessProviderMode::Api
    &&& r.local_llm_model_id@ == "llm-qwen-3.5-0.8b"@
}

/// The form shows `settings`, with the key field empty and nothing to clear.
pub open spec fn form_shows(form: SettingsFormState, settings: AppSettings) -> bool {
    &&& form.provider_mode == settings.provider_mode
    &&& form.local_model_id == settings.local_model_id
    &&& form.selected_input_device_id == settings.selected_input_device_id
    &&& form.live_capture_profile == settings.live_capture_profile
    &&& form.hotkey_mode == settings.hotkey_mode
    &&& form.hotkey_shortcut == settings.hotkey_shortcut
    &&& form.api_model_id == settings.api_model_id
    &&& form.api_custom_model_name == settings.api_custom_model_name
    &&& form.api_base_url == settings.api_base_url
    &&& form.api_key_present == settings.api_key_present
    &&& form.api_key_insecure == settings.api_key_insecure
    &&& form.postprocess_model == settings.postprocess_model
    &&& form.postprocess_provider_mode == settings.postprocess_provider_mode
    &&& form.local_llm_model_id == settings.local_llm_model_id
    &&& form.api_key_input@.len() == 0
    &&& !form.clear_api_key
}

impl SettingsFormState {
    /// The form before settings arrive: the default settings.
    pub fn new() -> (r: Self)
        ensures
            is_new_form(r),
    {
        SettingsFormState {
            provider_mode: ProviderMode::Local,
            local_model_id: String::from_str("whisper-base"),
            selected_input_device_id: None,
            live_capture_profile: LiveCaptureProfile::MicrophoneOnly,
            hotkey_mode: HotkeyMode::PushToTalk,
            hotkey_shortcut: String::from_str("CmdOrCtrl+Shift+T"),
            api_model_id: String::from_str("gpt-4o-mini-transcribe"),
            api_custom_model_name: String::new(),
            api_base_url: String::from_str("https://api.openai.com/v1"),
            api_key_input: String::new(),
            clear_api_key: false,
            api_key_present: false,
            api_key_insecure: false,
            postprocess_model: String::from_str("gpt-4o-mini"),
            postprocess_provider_mode: PostprocessProviderMode::Api,
            local_llm_model_id: String::from_str("llm-qwen-3.5-0.8b"),
        }
    }

    /// Shows saved settings; the key field empties.
    pub fn apply_settings(&mut self, settings: AppSettings)
        ensures
            form_shows(*final(self), settings),
    {
        self.provider_mode = settings.provider_mode;
        self.local_model_id = settings.local_model_id;
        self.selected_input_device_id = settings.selected_input_device_id;
        self.live_capture_profile = settings.live_capture_profile;
        self.hotkey_mode = settings.hotkey_mode;
        self.hotkey_shortcut = settings.hotkey_shortcut;
        self.api_model_id = settings.api_model_id;
        self.api_custom_model_name = settings.api_custom_model_name;
        self.api_base_url = settings.api_base_url;
        self.api_key_present = settings.api_key_present;
        self.api_key_insecure = settings.api_key_insecure;
        self.postprocess_model = settings.postprocess_model;
        self.postprocess_provider_mode = settings.postprocess_provider_mode;
        self.local_llm_model_id = settings.local_llm_model_id;
        self.api_key_input = String::new();
        self.clear_api_key = false;
    }

    /// The request that saves the form; a blank key field sends no key.
    pub fn build_save_request(&self) -> (r: SaveSettingsRequest)
        ensures
            r.provider_mode == self.provider_mode,
            r.local_model_id == self.local_model_id,
            r.selected_input_device_id == self.selected_input_device_id,
            r.live_capture_profile == self.live_capture_profile,
            r.hotkey_mode == self.hotkey_mode,
            r.hotkey_shortcut == self.hotkey_shortcut,
            r.api_model_id == self.api_model_id,
            r.api_custom_model_name == self.api_custom_model_name,
            r.api_base_url == self.api_base_url,
            r.api_key == (if trim_spec(self.api_key_input@).len() == 0 {
                None
            } else {
                Some(self.api_key_input)
            }),
            r.clear_api_key == self.clear_api_key,
            r.postprocess_model == self.postprocess_model,
            r.postprocess_provider_mode == self.postprocess_provider_mode,
            r.local_llm_model_id == self.local_llm_model_id,
    {
        SaveSettingsRequest {
            provider_mode: self.provider_mode,
            local_model_id: self.local_model_id.clone(),
            selected_input_device_id: duplicate_opt(&self.selected_input_device_id),
            live_capture_profile: self.live_capture_profile,
            hotkey_mode: self.hotkey_mode,
            hotkey_shortcut: self.hotkey_shortcut.clone(),
            api_model_id: self.api_model_id.clone(),
            api_custom_model_name: self.api_custom_model_name.clone(),
            api_base_url: self.api_base_url.clone(),
            api_key: if is_blank(self.api_key_input.as_str()) {
                None
            } else {
                Some(self.api_key_input.clone())
            },
            clear_api_key: self.clear_api_key,
            postprocess_model: self.postprocess_model.clone(),
            postprocess_provider_mode: self.postprocess_provider_mode,
            local_llm_model_id: self.local_llm_model_id.clone(),
        }
    }
}

/// A model download as the settings screen tracks it.
#[derive(Debug, Clone, PartialEq, Eq)]
pub struct DownloadState {
    pub is_downloading: bool,
    pub download_model_id: Option<String>,
    pub downloaded_bytes: u64,
    pub total_bytes: Option<u64>,
    pub download_error: Option<String>,
}

impl DownloadState {
    /// No download.
    pub fn new() -> (r: Self)
        ensures
            !r.is_downloading,
            r.download_model_id is None,
            r.downloaded_bytes == 0,
            r.total_bytes is None,
            r.download_error is None,
    {
        DownloadState {
            is_downloading: false,
            download_model_id: None,
            downloaded_bytes: 0,
            total_bytes: None,
            download_error: None,
        }
    }

    /// Back to no download.
    pub fn reset(&mut self)
        ensures
            *final(self) == DownloadState::new_spec(),
    {
        self.is_downloading = false;
        self.download_model_id = None;
        self.downloaded_bytes = 0;
        self.total_bytes = None;
        self.download_error = None;
    }

    /// The state of `new`.
    pub open spec fn new_spec() -> DownloadState {
        DownloadState {
            is_downloading: false,
            download_model_id: None,
            downloaded_bytes: 0,
            total_bytes: None,
            download_error: None,
        }
    }

    /// Starts downloading `model_id` unless a download runs; says whether
    /// it started.
    pub fn begin(&mut self, model_id: &str) -> (started: bool)
        ensures
            started == !old(self).is_downloading,
            !started ==> *final(self) == *old(self),
            started ==> final(self).is_downloading && (final(self).download_model_id matches Some(
                m,
            ) && m@ == model_id@) && final(self).downloaded_bytes == 0 && final(self).total_bytes
                is None && final(self).download_error is None,
    {
        if self.is_downloading {
            return false;
        }
        self.reset();
        self.is_downloading = true;
        self.download_model_id = Some(model_id.to_owned());
        true
    }

    /// Shows a progress update.
    pub fn progress(&mut self, update: &ModelDownloadProgress)
        ensures
            final(self).downloaded_bytes == update.downloaded_bytes,
            final(self).total_bytes == update.total_bytes,
            final(self).is_downloading == old(self).is_downloading,
            final(self).download_model_id == old(self).download_model_id,
            final(self).download_error == old(self).download_error,
    {
        self.downloaded_bytes = update.downloaded_bytes;
        self.total_bytes = update.total_bytes;
    }

    /// The download ended; a failure is shown.
    pub fn finish(&mut self, result: Result<(), String>)
        ensures
            !final(self).is_downloading,
            final(self).download_model_id is None,
            final(self).downloaded_bytes == old(self).downloaded_bytes,
            final(self).total_bytes == old(self).total_bytes,
            result is Err ==> final(self).download_error == Some(result->Err_0),
            result is Ok ==> final(self).download_error == old(self).download_error,
    {
        self.is_downloading = false;
        self.download_model_id = None;
        match result {
            Ok(()) => {},
            Err(e) => {
                self.download_error = Some(e);
            },
        }
    }
}

/// Whether the first model listed with id `id` is downloaded (false when
/// none is listed).
pub open spec fn listed_downloaded(models: Seq<LocalModelDescriptor>, id: Seq<char>) -> bool
    decreases models.len(),
{
    if models.len() == 0 {
        false
    } else if models[0].id@ == id {
        models[0].downloaded
    } else {
        listed_downloaded(models.drop_first(), id)
    }
}

/// Whether some model listed with id `id` is downloaded.
pub open spec fn any_downloaded(models: Seq<LocalModelDescriptor>, id: Seq<char>) -> bool {
    exists|i: int| 0 <= i < models.len() && models[i].id@ == id && models[i].downloaded
}

fn listed_downloaded_exec(models: &Vec<LocalModelDescriptor>, id: &str) -> (r: bool)
    ensures
        r == listed_downloaded(models@, id@),
{
    let mut i: usize = 0;
    assert(models@.subrange(0, models@.len() as int) =~= models@);
    while i < models.len()
        invariant
            i <= models@.len(),
            listed_downloaded(models@, id@) == listed_downloaded(
                models@.subrange(i as int, models@.len() as int),
                id@,
            ),
        decreases models@.len() - i,
    {
        let ghost rest = models@.subrange(i as int, models@.len() as int);
        assert(rest.drop_first() =~= models@.subrange(i + 1, models@.len() as int));
        if str_eq(models[i].id.as_str(), id) {
            return models[i].downloaded;
        }
        i = i + 1;
    }
    false
}

fn any_downloaded_exec(models: &Vec<LocalModelDescriptor>, id: &str) -> (r: bool)
    ensures
        r == any_downloaded(models@, id@),
{
    let mut i: usize = 0;
    while i < models.len()
        invariant
            i <= models@.len(),
            forall|k: int| 0 <= k < i ==> !(models@[k].id@ == id@ && models@[k].downloaded),
        decreases models@.len() - i,
    {
        if models[i].downloaded && str_eq(models[i].id.as_str(), id) {
            return true;
        }
        i = i + 1;
    }
    false
}

/// The label of the first API model listed with id `id`, else
/// `Unknown API model`.
pub open spec fn api_label_spec(models: Seq<ApiModelDescriptor>, id: Seq<char>) -> Seq<char>
    decreases models.len(),
{
    if models.len() == 0 {
        "Unknown API model"@
    } else if models[0].id@ == id {
        models[0].label@
    } else {
        api_label_spec(models.drop_first(), id)
    }
}

/// `items` joined by `sep`.
pub open spec fn join_with(items: Seq<Seq<char>>, sep: Seq<char>) -> Seq<char>
    decreases items.len(),
{
    if items.len() == 0 {
        Seq::empty()
    } else if items.len() == 1 {
        items[0]
    } else {
        join_with(items.drop_last(), sep) + sep + items.last()
    }
}

/// The labelled failure of one load step, if it failed.
pub open spec fn problem<T>(label: Seq<char>, result: Result<T, String>) -> Seq<Seq<char>> {
    match result {
        Ok(_) => Seq::empty(),
        Err(e) => seq![label + ": "@ + e@],
    }
}

pub(crate) fn push_problem<T>(problems: &mut Vec<String>, label: &str, result: &Result<T, String>)
    ensures
        final(problems)@.map_values(|s: String| s@) == old(problems)@.map_values(|s: String| s@)
            + problem(label@, *result),
{
    match result {
        Ok(_) => {
            assert(problems@.map_values(|s: String| s@) =~= old(problems)@.map_values(
                |s: String| s@,
            ) + problem(label@, *result));
        },
        Err(e) => {
            let mut m = label.to_owned();
            m.append(": ");
            m.append(e.as_str());
            proof {
                reveal_strlit(": ");
            }
            problems.push(m);
            assert(problems@.map_values(|s: String| s@) =~= old(problems)@.map_values(
                |s: String| s@,
            ) + problem(label@, *result));
        },
    }
}

pub(crate) fn join_problems(problems: &Vec<String>) -> (r: String)
    ensures
        r@ == join_with(problems@.map_values(|s: String| s@), " | "@),
{
    let ghost items = problems@.map_values(|s: String| s@);
    let mut out = String::new();
    let mut i: usize = 0;
    while i < problems.len()
        invariant
            i <= problems@.len(),
            items == problems@.map_values(|s: String| s@),
            out@ == join_with(items.subrange(0, i as int), " | "@),
        decreases problems@.len() - i,
    {
        if i > 0 {
            out.append(" | ");
        }
        out.append(problems[i].as_str());
        proof {
            reveal_strlit(" | ");
            let sub = items.subrange(0, i + 1);
            assert(sub.drop_last() =~= items.subrange(0, i as int));
            assert(sub.last() == problems@[i as int]@);
            if i == 0 {
                assert(out@ =~= join_with(sub, " | "@));
            } else {
                assert(out@ =~= join_with(sub.drop_last(), " | "@) + " | "@ + sub.last());
            }
        }
        i = i + 1;
    }
    assert(items.subrange(0, problems@.len() as int) =~= items);
    out
}

/// Everything the settings screen holds.
#[derive(Debug, Clone)]
pub struct SettingsFeatureState {
    pub form: SettingsFormState,
    pub local_models: Vec<LocalModelDescriptor>,
    pub input_devices: Vec<AudioInputDeviceDescriptor>,
    pub api_models: Vec<ApiModelDescriptor>,
    pub load_error: Option<String>,
    pub hotkey_registration_error: Option<String>,
    pub is_loading: bool,
    pub is_saving: bool,
    pub download: DownloadState,
    pub llm_models: Vec<LocalModelDescriptor>,
    pub llm_download: DownloadState,
    pub warming_model_id: Option<String>,
    pub warmed_model_id: Option<String>,
    pub suppress_auto_save: bool,
    pub auto_save_generation: u64,
    pub auto_save_status: AutoSaveStatus,
    pub auto_save_error: Option<String>,
    pub api_key_save_requested: u64,
}

impl SettingsFeatureState {
    /// Loading, auto-save suppressed, nothing listed yet.
    pub fn new() -> (r: Self)
        ensures
            is_new_form(r.form),
            r.local_models@.len() == 0,
            r.input_devices@.len() == 0,
            r.api_models@.len() == 0,
            r.llm_models@.len() == 0,
            r.load_error is None,
            r.hotkey_registration_error is None,
            r.is_loading,
            !r.is_saving,
            r.download == DownloadState::new_spec(),
            r.llm_download == DownloadState::new_spec(),
            r.warming_model_id is None,
            r.warmed_model_id is None,
            r.suppress_auto_save,
            r.auto_save_generation == 0,
            r.auto_save_status == AutoSaveStatus::Idle,
            r.auto_save_error is None,
            r.api_key_save_requested == 0,
    {
        let form = SettingsFormState::new();
        SettingsFeatureState {
            form,
            local_models: Vec::new(),
            input_devices: Vec::new(),
            api_models: Vec::new(),
            load_error: None,
            hotkey_registration_error: None,
            is_loading: true,
            is_saving: false,
            download: DownloadState::new(),
            llm_models: Vec::new(),
            llm_download: DownloadState::new(),
            warming_model_id: None,
            warmed_model_id: None,
            suppress_auto_save: true,
            auto_save_generation: 0,
            auto_save_status: AutoSaveStatus::Idle,
            auto_save_error: None,
            api_key_save_requested: 0,
        }
    }

    /// Whether the custom API model is selected.
    pub fn custom_api_selected(&self) -> (r: bool)
        ensures
            r == (self.form.api_model_id@ == "custom"@),
    {
        str_eq(self.form.api_model_id.as_str(), "custom")
    }

    /// The label of the selected API model.
    pub fn active_api_model_label(&self) -> (r: String)
        ensures
            r@ == api_label_spec(self.api_models@, self.form.api_model_id@),
    {
        let id = self.form.api_model_id.as_str();
        let mut i: usize = 0;
        assert(self.api_models@.subrange(0, self.api_models@.len() as int) =~= self.api_models@);
        while i < self.api_models.len()
            invariant
                i <= self.api_models@.len(),
                id@ == self.form.api_model_id@,
                api_label_spec(self.api_models@, id@) == api_label_spec(
                    self.api_models@.subrange(i as int, self.api_models@.len() as int),
                    id@,
                ),
            decreases self.api_models@.len() - i,
        {
            let ghost rest = self.api_models@.subrange(i as int, self.api_models@.len() as int);
            assert(rest.drop_first() =~= self.api_models@.subrange(
                i + 1,
                self.api_models@.len() as int,
            ));
            if str_eq(self.api_models[i].id.as_str(), id) {
                return self.api_models[i].label.clone();
            }
            i = i + 1;
        }
        String::from_str("Unknown API model")
    }

    /// A load starts: auto-save is held back and the old error cleared.
    pub fn begin_load(&mut self)
        ensures
            final(self).is_loading,
            final(self).suppress_auto_save,
            final(self).load_error is None,
            final(self).form == old(self).form,
    {
        self.is_loading = true;
        self.suppress_auto_save = true;
        self.load_error = None;
    }

    /// The load results: each list that arrived is shown, the settings fill
    /// the form, and the failures are joined into one error.  Auto-save
    /// stays held back until `release_auto_save`.
    pub fn finish_load(
        &mut self,
        local: Result<Vec<LocalModelDescriptor>, String>,
        input: Result<Vec<AudioInputDeviceDescriptor>, String>,
        api: Result<Vec<ApiModelDescriptor>, String>,
        llm: Result<Vec<LocalModelDescriptor>, String>,
        settings: Result<AppSettings, String>,
    )
        ensures
            !final(self).is_loading,
            final(self).suppress_auto_save == old(self).suppress_auto_save,
            local matches Ok(v) ==> final(self).local_models == v,
            local is Err ==> final(self).local_models == old(self).local_models,
            input matches Ok(v) ==> final(self).input_devices == v,
            input is Err ==> final(self).input_devices == old(self).input_devices,
            api matches Ok(v) ==> final(self).api_models == v,
            api is Err ==> final(self).api_models == old(self).api_models,
            llm matches Ok(v) ==> final(self).llm_models == v,
            llm is Err ==> final(self).llm_models == old(self).llm_models,
            settings matches Ok(s) ==> form_shows(final(self).form, s)
                && final(self).hotkey_registration_error == s.hotkey_registration_error,
            settings is Err ==> final(self).form == old(self).form
                && final(self).hotkey_registration_error == old(self).hotkey_registration_error,
            ({
                let problems = problem("local models"@, local) + problem("input devices"@, input)
                    + problem("API models"@, api) + problem("LLM models"@, llm) + problem(
                    "settings"@,
                    settings,
                );
                if problems.len() == 0 {
                    final(self).load_error == old(self).load_error
                } else {
                    final(self).load_error matches Some(m) && m@ == join_with(problems, " | "@)
                }
            }),
    {
        let mut problems: Vec<String> = Vec::new();
        proof {
            assert(problems@.map_values(|s: String| s@) =~= Seq::<Seq<char>>::empty());
        }
        push_problem(&mut problems, "local models", &local);
        push_problem(&mut problems, "input devices", &input);
        push_problem(&mut problems, "API models", &api);
        push_problem(&mut problems, "LLM models", &llm);
        push_problem(&mut problems, "settings", &settings);
        proof {
            assert(problems@.map_values(|s: String| s@) =~= problem("local models"@, local)
                + problem("input devices"@, input) + problem("API models"@, api) + problem(
                "LLM models"@,
                llm,
            ) + problem("settings"@, settings));
        }
        match local {
            Ok(v) => {
                self.local_models = v;
            },
            Err(_) => {},
        }
        match input {
            Ok(v) => {
                self.input_devices = v;
            },
            Err(_) => {},
        }
        match api {
            Ok(v) => {
                self.api_models = v;
            },
            Err(_) => {},
        }
        match llm {
            Ok(v) => {
                self.llm_models = v;
            },
            Err(_) => {},
        }
        match settings {
            Ok(s) => {
                self.hotkey_registration_error = duplicate_opt(&s.hotkey_registration_error);
                self.form.apply_settings(s);
            },
            Err(_) => {},
        }
        if problems.len() > 0 {
            self.load_error = Some(join_problems(&problems));
        }
        self.is_loading = false;
    }

    /// Lets auto-save run again (after the form settled).
    pub fn release_auto_save(&mut self)
        ensures
            !final(self).suppress_auto_save,
            final(self).form == old(self).form,
    {
        self.suppress_auto_save = false;
    }

    /// A save is requested: unless one runs, the form's request goes out.
    pub fn begin_save(&mut self) -> (r: Option<SaveSettingsRequest>)
        ensures
            old(self).is_saving ==> r is None && *final(self) == *old(self),
            !old(self).is_saving ==> r is Some && final(self).is_saving
                && final(self).auto_save_status == AutoSaveStatus::Saving
                && final(self).auto_save_error is None && final(self).form == old(self).form,
    {
        if self.is_saving {
            return None;
        }
        let request = self.form.build_save_request();
        self.is_saving = true;
        self.auto_save_status = AutoSaveStatus::Saving;
        self.auto_save_error = None;
        Some(request)
    }

    /// The answer to a save: the saved settings fill the form (auto-save
    /// held back meanwhile) and the status turns `Saved`, returning the
    /// auto-save generation that the idle timer compares against; a failure
    /// is shown with the hotkey error read back afterwards (`refreshed`).
    pub fn finish_save(&mut self, result: Result<AppSettings, String>, refreshed: Option<AppSettings>) -> (r:
        Option<u64>)
        ensures
            !final(self).is_saving,
            result matches Ok(s) ==> form_shows(final(self).form, s)
                && final(self).hotkey_registration_error == s.hotkey_registration_error
                && final(self).suppress_auto_save && final(self).auto_save_status
                == AutoSaveStatus::Saved && r == Some(old(self).auto_save_generation),
            result is Err ==> final(self).auto_save_status == AutoSaveStatus::Error
                && final(self).auto_save_error == Some(result->Err_0) && r is None
                && final(self).form == old(self).form && (refreshed matches Some(s)
                ==> final(self).hotkey_registration_error == s.hotkey_registration_error) && (
            refreshed is None ==> final(self).hotkey_registration_error == old(
                self,
            ).hotkey_registration_error),
    {
        let r = match result {
            Ok(s) => {
                self.suppress_auto_save = true;
                self.hotkey_registration_error = duplicate_opt(&s.hotkey_registration_error);
                self.form.apply_settings(s);
                self.auto_save_status = AutoSaveStatus::Saved;
                Some(self.auto_save_generation)
            },
            Err(e) => {
                match refreshed {
                    Some(s) => {
                        self.hotkey_registration_error = s.hotkey_registration_error;
                    },
                    None => {},
                }
                self.auto_save_error = Some(e);
                self.auto_save_status = AutoSaveStatus::Error;
                None
            },
        };
        self.is_saving = false;
        r
    }

    /// The idle timer after a save: the status returns to idle unless
    /// another edit came since.
    pub fn saved_status_expired(&mut self, saved_generation: u64)
        ensures
            old(self).auto_save_generation == saved_generation ==> final(self).auto_save_status
                == AutoSaveStatus::Idle,
            old(self).auto_save_generation != saved_generation ==> final(self).auto_save_status
                == old(self).auto_save_status,
            final(self).auto_save_generation == old(self).auto_save_generation,
    {
        if self.auto_save_generation == saved_generation {
            self.auto_save_status = AutoSaveStatus::Idle;
        }
    }

    /// Whether the selected speech model is downloaded.
    pub fn selected_model_downloaded(&self) -> (r: bool)
        ensures
            r == listed_downloaded(self.local_models@, self.form.local_model_id@),
    {
        listed_downloaded_exec(&self.local_models, self.form.local_model_id.as_str())
    }

    /// Whether the selected language model is downloaded.
    pub fn selected_llm_model_downloaded(&self) -> (r: bool)
        ensures
            r == listed_downloaded(self.llm_models@, self.form.local_llm_model_id@),
    {
        listed_downloaded_exec(&self.llm_models, self.form.local_llm_model_id.as_str())
    }

    /// Starts downloading the selected speech model; the id to download,
    /// or none while a download runs.
    pub fn download_selected_model(&mut self) -> (r: Option<String>)
        ensures
            old(self).download.is_downloading ==> r is None && final(self).download == old(
                self,
            ).download,
            !old(self).download.is_downloading ==> r == Some(old(self).form.local_model_id)
                && final(self).download.is_downloading,
            final(self).form == old(self).form,
    {
        let id = self.form.local_model_id.clone();
        if self.download.begin(id.as_str()) {
            Some(id)
        } else {
            None
        }
    }

    /// Starts downloading the selected language model; the id to download,
    /// or none while a download runs.
    pub fn download_selected_llm_model(&mut self) -> (r: Option<String>)
        ensures
            old(self).llm_download.is_downloading ==> r is None && final(self).llm_download
                == old(self).llm_download,
            !old(self).llm_download.is_downloading ==> r == Some(old(self).form.local_llm_model_id)
                && final(self).llm_download.is_downloading,
            final(self).form == old(self).form,
    {
        let id = self.form.local_llm_model_id.clone();
        if self.llm_download.begin(id.as_str()) {
            Some(id)
        } else {
            None
        }
    }

    /// The speech model list after a download or deletion, when it could be
    /// read again, and the error of a failed deletion.
    pub fn models_changed(&mut self, refreshed: Option<Vec<LocalModelDescriptor>>, error: Option<String>)
        ensures
            refreshed matches Some(v) ==> final(self).local_models == v,
            refreshed is None ==> final(self).local_models == old(self).local_models,
            error is Some ==> final(self).download.download_error == error,
            error is None ==> final(self).download == old(self).download,
    {
        match refreshed {
            Some(v) => {
                self.local_models = v;
            },
            None => {},
        }
        match error {
            Some(e) => {
                self.download.download_error = Some(e);
            },
            None => {},
        }
    }

    /// The language model list after a download or deletion, when it could
    /// be read again, and the error of a failed deletion.
    pub fn llm_models_changed(&mut self, refreshed: Option<Vec<LocalModelDescriptor>>, error: Option<String>)
        ensures
            refreshed matches Some(v) ==> final(self).llm_models == v,
            refreshed is None ==> final(self).llm_models == old(self).llm_models,
            error is Some ==> final(self).llm_download.download_error == error,
            error is None ==> final(self).llm_download == old(self).llm_download,
    {
        match refreshed {
            Some(v) => {
                self.llm_models = v;
            },
            None => {},
        }
        match error {
            Some(e) => {
                self.llm_download.download_error = Some(e);
            },
            None => {},
        }
    }

    /// Whether to warm the selected local model now: in local mode, once it
    /// is downloaded, and unless it is warm or warming.  Returns the model
    /// to load, which is then marked as warming.
    pub fn maybe_preload_selected_local_model(&mut self) -> (r: Option<String>)
        ensures
            ({
                let id = old(self).form.local_model_id;
                let due = old(self).form.provider_mode == ProviderMode::Local && any_downloaded(
                    old(self).local_models@,
                    id@,
                ) && !(old(self).warmed_model_id matches Some(w) && w@ == id@) && !(old(
                    self,
                ).warming_model_id matches Some(w) && w@ == id@);
                &&& due ==> r == Some(id) && final(self).warming_model_id == Some(id)
                &&& !due ==> r is None && final(self).warming_model_id == old(
                    self,
                ).warming_model_id
            }),
            final(self).warmed_model_id == old(self).warmed_model_id,
            final(self).form == old(self).form,
    {
        if self.form.provider_mode != ProviderMode::Local {
            return None;
        }
        let id = self.form.local_model_id.clone();
        if !any_downloaded_exec(&self.local_models, id.as_str()) {
            return None;
        }
        let warm = match &self.warmed_model_id {
            Some(w) => str_eq(w.as_str(), id.as_str()),
            None => false,
        };
        let warming = match &self.warming_model_id {
            Some(w) => str_eq(w.as_str(), id.as_str()),
            None => false,
        };
        if warm || warming {
            return None;
        }
        self.warming_model_id = Some(id.clone());
        Some(id)
    }

    /// Warming `model_id` ended; on success it is warm.
    pub fn finish_preload(&mut self, model_id: String, loaded: bool)
        ensures
            final(self).warming_model_id is None,
            loaded ==> final(self).warmed_model_id == Some(model_id),
            !loaded ==> final(self).warmed_model_id == old(self).warmed_model_id,
    {
        self.warming_model_id = None;
        if loaded {
            self.warmed_model_id = Some(model_id);
        }
    }
}

} // verus!
