//! Settings: defaults, validation of a save request, what is written to the
//! settings file, and where the API key lives (system keyring or, when no
//! keyring is available, the settings file).  Reading and writing the file
//! and talking to the keyring happen in the app.
use vstd::prelude::*;

use crate::api::{credentials_check, ApiCredentials};
use crate::errors::{prefixed, KeyringFailure, SettingsError};
use crate::models::{
    AppSettings, HotkeyMode, LiveCaptureProfile, PostprocessProviderMode, ProviderMode,
    SaveSettingsRequest,
};
use crate::hotkeys::{check_shortcut, parsed_view, shortcut_check};
use crate::paths::{path_join, path_join_spec, app_config_dir};
use crate::text::{chars_of, trim, trim_end_char, trim_end_char_spec, trim_spec};

verus! {

/// Keyring service under which API keys are stored.
pub const KEYCHAIN_SERVICE: &'static str = "dev.transcribekit.desktop";

/// The message for a missing API key.
pub open spec fn no_key_message() -> Seq<char> {
    "No API key is stored for the configured API base URL."@
}

/// The API key read from the keyring, trimmed; a blank or missing entry is
/// a validation error, any other keyring failure is passed on.
pub fn map_retrieved_api_key(result: Result<String, KeyringFailure>) -> (r: Result<
    String,
    SettingsError,
>)
    ensures
        result matches Ok(p) ==> (if trim_spec(p@).len() == 0 {
            r matches Err(SettingsError::Validation(m)) && m@ == no_key_message()
        } else {
            r matches Ok(k) && k@ == trim_spec(p@)
        }),
        result matches Err(KeyringFailure::NoEntry) ==> (r matches Err(SettingsError::Validation(m))
            && m@ == no_key_message()),
        result matches Err(KeyringFailure::Other(e)) ==> r == Err::<String, SettingsError>(
            SettingsError::Keyring(e),
        ),
{
    match result {
        Ok(password) => {
            let t = trim(password.as_str());
            if t.as_str().unicode_len() == 0 {
                Err(SettingsError::Validation(
                    "No API key is stored for the configured API base URL.".to_owned(),
                ))
            } else {
                Ok(t)
            }
        },
        Err(KeyringFailure::NoEntry) => Err(SettingsError::Validation(
            "No API key is stored for the configured API base URL.".to_owned(),
        )),
        Err(KeyringFailure::Other(error)) => Err(SettingsError::Keyring(error)),
    }
}

/// `base_url` trimmed, without trailing slashes.
pub open spec fn normalized_base_url(base_url: Seq<char>) -> Seq<char> {
    trim_end_char_spec(trim_spec(base_url), '/')
}

/// Trims a base URL and removes its trailing slashes.
pub fn normalize_base_url(base_url: &str) -> (r: String)
    ensures
        r@ == normalized_base_url(base_url@),
{
    let t = trim(base_url);
    trim_end_char(t.as_str(), '/')
}

/// A selected device id, trimmed; blank means none.
pub open spec fn normalized_device_id(device_id: Option<Seq<char>>) -> Option<Seq<char>> {
    match device_id {
        Some(d) => if trim_spec(d).len() == 0 {
            None
        } else {
            Some(trim_spec(d))
        },
        None => None,
    }
}

/// View of an optional string.
pub open spec fn ostr(o: Option<String>) -> Option<Seq<char>> {
    match o {
        Some(s) => Some(s@),
        None => None,
    }
}

/// Trims a selected device id; a blank id means the system default.
pub fn normalize_input_device_id(device_id: Option<&str>) -> (r: Option<String>)
    ensures
        ostr(r) == normalized_device_id(
            match device_id {
                Some(d) => Some(d@),
                None => None,
            },
        ),
{
    match device_id {
        Some(d) => {
            let t = trim(d);
            if t.as_str().unicode_len() == 0 {
                None
            } else {
                Some(t)
            }
        },
        None => None,
    }
}

/// Keyring account for a base URL: `openai-compatible::{normalized url}`.
pub fn credential_account(base_url: &str) -> (r: String)
    ensures
        r@ == "openai-compatible::"@ + normalized_base_url(base_url@),
{
    let n = normalize_base_url(base_url);
    prefixed("openai-compatible::", n.as_str())
}

/// The default transcription settings: local Whisper base, the system
/// default input, push-to-talk on CmdOrCtrl+Shift+T, the OpenAI endpoint
/// without a key, and post-processing through the API.
pub open spec fn is_default_app_settings(r: AppSettings) -> bool {
    &&& r.provider_mode == ProviderMode::Local
    &&& r.local_model_id@ == "whisper-base"@
    &&& r.selected_input_device_id is None
    &&& r.live_capture_profile == LiveCaptureProfile::MicrophoneOnly
    &&& r.hotkey_mode == HotkeyMode::PushToTalk
    &&& r.hotkey_shortcut@ == "CmdOrCtrl+Shift+T"@
    &&& r.api_model_id@ == "gpt-4o-mini-transcribe"@
    &&& r.api_custom_model_name@.len() == 0
    &&& r.api_base_url@ == "https://api.openai.com/v1"@
    &&& !r.api_key_present
    &&& !r.api_key_insecure
    &&& r.hotkey_registration_error is None
    &&& r.postprocess_model@ == "gpt-4o-mini"@
    &&& r.postprocess_provider_mode == PostprocessProviderMode::Api
    &&& r.local_llm_model_id@ == "llm-qwen-3.5-0.8b"@
}

/// Default transcription settings.
pub fn default_app_settings() -> (r: AppSettings)
    ensures
        is_default_app_settings(r),
{
    AppSettings {
        provider_mode: ProviderMode::Local,
        local_model_id: "whisper-base".to_owned(),
        selected_input_device_id: None,
        live_capture_profile: LiveCaptureProfile::MicrophoneOnly,
        hotkey_mode: HotkeyMode::PushToTalk,
        hotkey_shortcut: "CmdOrCtrl+Shift+T".to_owned(),
        api_model_id: "gpt-4o-mini-transcribe".to_owned(),
        api_custom_model_name: String::new(),
        api_base_url: "https://api.openai.com/v1".to_owned(),
        api_key_present: false,
        api_key_insecure: false,
        hotkey_registration_error: None,
        postprocess_model: "gpt-4o-mini".to_owned(),
        postprocess_provider_mode: PostprocessProviderMode::Api,
        local_llm_model_id: "llm-qwen-3.5-0.8b".to_owned(),
    }
}

impl Default for AppSettings {
    fn default() -> (r: Self)
        ensures
            r.provider_mode == ProviderMode::Local,
            r.local_model_id@ == "whisper-base"@,
            r.hotkey_shortcut@ == "CmdOrCtrl+Shift+T"@,
            r.api_model_id@ == "gpt-4o-mini-transcribe"@,
            r.api_base_url@ == "https://api.openai.com/v1"@,
            r.postprocess_model@ == "gpt-4o-mini"@,
            r.local_llm_model_id@ == "llm-qwen-3.5-0.8b"@,
    {
        default_app_settings()
    }
}

/// Default post-processing model (`gpt-4o-mini`).
pub fn default_postprocess_model() -> (r: String)
    ensures
        r@ == "gpt-4o-mini"@,
{
    default_app_settings().postprocess_model
}

/// Default hotkey mode (push-to-talk).
pub fn default_hotkey_mode() -> (r: HotkeyMode)
    ensures
        r == HotkeyMode::PushToTalk,
{
    default_app_settings().hotkey_mode
}

/// Default hotkey (`CmdOrCtrl+Shift+T`).
pub fn default_hotkey_shortcut() -> (r: String)
    ensures
        r@ == "CmdOrCtrl+Shift+T"@,
{
    default_app_settings().hotkey_shortcut
}

/// What the settings file holds.
#[derive(Debug, Clone, PartialEq, Eq)]
pub struct StoredSettings {
    pub provider_mode: ProviderMode,
    pub local_model_id: String,
    pub selected_input_device_id: Option<String>,
    pub live_capture_profile: LiveCaptureProfile,
    pub hotkey_mode: HotkeyMode,
    pub hotkey_shortcut: String,
    pub api_model_id: String,
    pub api_custom_model_name: String,
    pub api_base_url: String,
    pub postprocess_model: String,
    pub postprocess_provider_mode: PostprocessProviderMode,
    pub local_llm_model_id: String,
    pub api_key_plaintext: Option<String>,
}

/// The settings file contents when there is no file yet: the default
/// settings, no stored key.
pub fn default_stored_settings() -> (r: StoredSettings)
    ensures
        r.provider_mode == ProviderMode::Local,
        r.local_model_id@ == "whisper-base"@,
        r.selected_input_device_id is None,
        r.live_capture_profile == LiveCaptureProfile::MicrophoneOnly,
        r.hotkey_mode == HotkeyMode::PushToTalk,
        r.hotkey_shortcut@ == "CmdOrCtrl+Shift+T"@,
        r.api_model_id@ == "gpt-4o-mini-transcribe"@,
        r.api_custom_model_name@.len() == 0,
        r.api_base_url@ == "https://api.openai.com/v1"@,
        r.postprocess_model@ == "gpt-4o-mini"@,
        r.postprocess_provider_mode == PostprocessProviderMode::Api,
        r.local_llm_model_id@ == "llm-qwen-3.5-0.8b"@,
        r.api_key_plaintext is None,
{
    let d = default_app_settings();
    StoredSettings {
        provider_mode: d.provider_mode,
        local_model_id: d.local_model_id,
        selected_input_device_id: d.selected_input_device_id,
        live_capture_profile: d.live_capture_profile,
        hotkey_mode: d.hotkey_mode,
        hotkey_shortcut: d.hotkey_shortcut,
        api_model_id: d.api_model_id,
        api_custom_model_name: d.api_custom_model_name,
        api_base_url: d.api_base_url,
        postprocess_model: d.postprocess_model,
        postprocess_provider_mode: d.postprocess_provider_mode,
        local_llm_model_id: d.local_llm_model_id,
        api_key_plaintext: None,
    }
}

/// `id` is one of `ids`.
pub open spec fn listed(ids: Seq<&str>, id: Seq<char>) -> bool {
    exists|i: int| 0 <= i < ids.len() && (#[trigger] ids[i])@ == id
}

/// `id` is one of `ids`.
pub open spec fn listed_owned(ids: Seq<String>, id: Seq<char>) -> bool {
    exists|i: int| 0 <= i < ids.len() && (#[trigger] ids[i])@ == id
}

fn is_listed(ids: &[&str], id: &str) -> (r: bool)
    ensures
        r == listed(ids@, id@),
{
    let w = chars_of(id);
    let mut i: usize = 0;
    while i < ids.len()
        invariant
            w@ == id@,
            i <= ids@.len(),
            forall|k: int| 0 <= k < i ==> (#[trigger] ids@[k])@ != id@,
        decreases ids@.len() - i,
    {
        let c = chars_of(ids[i]);
        if crate::templates::seq_eq(&c, &w) {
            return true;
        }
        i = i + 1;
    }
    false
}

fn is_listed_owned(ids: &[String], id: &str) -> (r: bool)
    ensures
        r == listed_owned(ids@, id@),
{
    let w = chars_of(id);
    let mut i: usize = 0;
    while i < ids.len()
        invariant
            w@ == id@,
            i <= ids@.len(),
            forall|k: int| 0 <= k < i ==> (#[trigger] ids@[k])@ != id@,
        decreases ids@.len() - i,
    {
        let c = chars_of(ids[i].as_str());
        if crate::templates::seq_eq(&c, &w) {
            return true;
        }
        i = i + 1;
    }
    false
}

/// The first problem with a save request, if any.
pub open spec fn settings_problem(
    request: SaveSettingsRequest,
    local_model_ids: Seq<&str>,
    api_model_ids: Seq<&str>,
    input_device_ids: Seq<String>,
) -> Option<Seq<char>> {
    let url = normalized_base_url(request.api_base_url@);
    let key = match request.api_key {
        Some(k) => k@,
        None => "stored-in-keychain"@,
    };
    if !listed(local_model_ids, request.local_model_id@) {
        Some("Select a supported local Whisper model."@)
    } else if !listed(api_model_ids, request.api_model_id@) {
        Some("Select a supported API transcription model option."@)
    } else if request.provider_mode == ProviderMode::Api && credentials_check(key, url) is Some {
        credentials_check(key, url)
    } else if request.provider_mode != ProviderMode::Api && url.len() > 0 && credentials_check(
        "not-used"@,
        url,
    ) is Some {
        credentials_check("not-used"@, url)
    } else if request.api_model_id@ == "custom"@ && trim_spec(request.api_custom_model_name@).len()
        == 0 {
        Some("Enter a model name for the custom API option."@)
    } else if normalized_device_id(ostr(request.selected_input_device_id)) matches Some(id)
        && !listed_owned(input_device_ids, id) {
        Some("Select an available audio input or switch back to System default."@)
    } else {
        None
    }
}

/// The device check accepts any listed device: when the selected device
/// (trimmed) equals some id of `input_device_ids`, the request's problems
/// are those of the same request with no device selected.  And a selected
/// device that no listed id equals is refused when nothing else is wrong.
pub proof fn law_listed_device_is_accepted(
    request: SaveSettingsRequest,
    local_model_ids: Seq<&str>,
    api_model_ids: Seq<&str>,
    input_device_ids: Seq<String>,
    k: int,
)
    ensures
        ({
            let without = SaveSettingsRequest { selected_input_device_id: None, ..request };
            &&& (request.selected_input_device_id matches Some(d) && 0 <= k < input_device_ids.len()
                && trim_spec(d@).len() > 0 && input_device_ids[k]@ == trim_spec(d@)) ==> settings_problem(
                request,
                local_model_ids,
                api_model_ids,
                input_device_ids,
            ) == settings_problem(without, local_model_ids, api_model_ids, input_device_ids)
            &&& (request.selected_input_device_id matches Some(d) && settings_problem(
                without,
                local_model_ids,
                api_model_ids,
                input_device_ids,
            ) is None && trim_spec(d@).len() > 0 && (
            forall|j: int| 0 <= j < input_device_ids.len() ==> (#[trigger] input_device_ids[j])@
                != trim_spec(d@))) ==> settings_problem(
                request,
                local_model_ids,
                api_model_ids,
                input_device_ids,
            ) is Some
        }),
{
    let without = SaveSettingsRequest { selected_input_device_id: None, ..request };
    if 0 <= k < input_device_ids.len() && request.selected_input_device_id is Some {
        let d = request.selected_input_device_id->Some_0;
        if trim_spec(d@).len() > 0 && input_device_ids[k]@ == trim_spec(d@) {
            assert(listed_owned(input_device_ids, trim_spec(d@)));
        }
    }
}

/// Checks a save request: known local and API models, a usable base URL
/// (with a key when API transcription is selected), a custom model name when
/// needed, and an available input device.
pub fn validate_settings(
    request: &SaveSettingsRequest,
    local_model_ids: &[&str],
    api_model_ids: &[&str],
    input_device_ids: &[String],
) -> (r: Result<(), SettingsError>)
    ensures
        r is Ok <==> settings_problem(*request, local_model_ids@, api_model_ids@, input_device_ids@)
            is None,
        r matches Err(e) ==> (e matches SettingsError::Validation(m) && settings_problem(
            *request,
            local_model_ids@,
            api_model_ids@,
            input_device_ids@,
        ) == Some(m@)),
{
    if !is_listed(local_model_ids, request.local_model_id.as_str()) {
        return Err(SettingsError::Validation("Select a supported local Whisper model.".to_owned()));
    }
    if !is_listed(api_model_ids, request.api_model_id.as_str()) {
        return Err(
            SettingsError::Validation(
                "Select a supported API transcription model option.".to_owned(),
            ),
        );
    }
    let url = normalize_base_url(request.api_base_url.as_str());
    if request.provider_mode == ProviderMode::Api {
        let key = match &request.api_key {
            Some(k) => k.clone(),
            None => "stored-in-keychain".to_owned(),
        };
        let creds = ApiCredentials { api_key: key, base_url: url.clone() };
        match creds.validate() {
            Err(m) => return Err(SettingsError::Validation(m.to_owned())),
            Ok(()) => {},
        }
    } else if url.as_str().unicode_len() > 0 {
        let creds = ApiCredentials { api_key: "not-used".to_owned(), base_url: url.clone() };
        match creds.validate() {
            Err(m) => return Err(SettingsError::Validation(m.to_owned())),
            Ok(()) => {},
        }
    }
    let custom_word = "custom".to_owned();
    if request.api_model_id == custom_word && crate::text::is_blank(
        request.api_custom_model_name.as_str(),
    ) {
        return Err(
            SettingsError::Validation("Enter a model name for the custom API option.".to_owned()),
        );
    }
    let device = match &request.selected_input_device_id {
        Some(d) => normalize_input_device_id(Some(d.as_str())),
        None => normalize_input_device_id(None),
    };
    match device {
        Some(id) => {
            if !is_listed_owned(input_device_ids, id.as_str()) {
                return Err(
                    SettingsError::Validation(
                        "Select an available audio input or switch back to System default.".to_owned(),
                    ),
                );
            }
        },
        None => {},
    }
    Ok(())
}

/// A validated save request, ready to be written.
#[derive(Debug, Clone)]
pub struct PreparedSettingsSave {
    pub stored: StoredSettings,
    pub api_key: Option<String>,
    pub clear_api_key: bool,
}

impl PreparedSettingsSave {
    /// The normalized hotkey to register.
    pub fn hotkey_shortcut(&self) -> (r: &str)
        ensures
            r@ == self.stored.hotkey_shortcut@,
    {
        self.stored.hotkey_shortcut.as_str()
    }

    /// The hotkey mode to register.
    pub fn hotkey_mode(&self) -> (r: HotkeyMode)
        ensures
            r == self.stored.hotkey_mode,
    {
        self.stored.hotkey_mode
    }
}

/// What committing a save does: the record to write, and the keyring
/// changes to make first (only when a keyring is available).
#[derive(Debug, Clone)]
pub struct SettingsCommit {
    pub stored: StoredSettings,
    pub delete_keyring_key: bool,
    pub keyring_key: Option<String>,
}

/// The key a request supplies: trimmed, and only when not blank.
pub open spec fn supplied_key(request: SaveSettingsRequest) -> Option<Seq<char>> {
    match request.api_key {
        Some(k) => if trim_spec(k@).len() == 0 {
            None
        } else {
            Some(trim_spec(k@))
        },
        None => None,
    }
}

/// The settings the app shows for a stored record; a key outside the
/// keyring is flagged as insecure.
pub open spec fn loaded_settings(stored: StoredSettings, keyring_available: bool, api_key_present: bool) -> AppSettings {
    AppSettings {
        provider_mode: stored.provider_mode,
        local_model_id: stored.local_model_id,
        selected_input_device_id: stored.selected_input_device_id,
        live_capture_profile: stored.live_capture_profile,
        hotkey_mode: stored.hotkey_mode,
        hotkey_shortcut: stored.hotkey_shortcut,
        api_model_id: stored.api_model_id,
        api_custom_model_name: stored.api_custom_model_name,
        api_base_url: stored.api_base_url,
        api_key_present,
        api_key_insecure: !keyring_available && api_key_present,
        hotkey_registration_error: None,
        postprocess_model: stored.postprocess_model,
        postprocess_provider_mode: stored.postprocess_provider_mode,
        local_llm_model_id: stored.local_llm_model_id,
    }
}

/// What committing a prepared save writes: with a keyring, the key goes
/// there (deleted first when asked) and never into the file; without one,
/// the file keeps the new key, or loses the old one on a clear.
pub open spec fn committed_record(keyring_available: bool, prepared: PreparedSettingsSave) -> SettingsCommit {
    SettingsCommit {
        stored: StoredSettings {
            api_key_plaintext: if keyring_available {
                None
            } else if prepared.api_key is Some {
                prepared.api_key
            } else if prepared.clear_api_key {
                None
            } else {
                prepared.stored.api_key_plaintext
            },
            ..prepared.stored
        },
        delete_keyring_key: keyring_available && prepared.clear_api_key,
        keyring_key: if keyring_available {
            prepared.api_key
        } else {
            None
        },
    }
}

/// How a prepared save records a request: the request's choices, the
/// selected device and base URL normalized, the hotkey as validated, the
/// file's existing key kept until the commit, and the supplied key trimmed.
pub open spec fn records_request(
    request: SaveSettingsRequest,
    existing: StoredSettings,
    hotkey_shortcut: Seq<char>,
    p: PreparedSettingsSave,
) -> bool {
    &&& p.stored.provider_mode == request.provider_mode
    &&& p.stored.local_model_id == request.local_model_id
    &&& ostr(p.stored.selected_input_device_id) == normalized_device_id(
        ostr(request.selected_input_device_id),
    )
    &&& p.stored.live_capture_profile == request.live_capture_profile
    &&& p.stored.hotkey_mode == request.hotkey_mode
    &&& p.stored.hotkey_shortcut@ == hotkey_shortcut
    &&& p.stored.api_model_id == request.api_model_id
    &&& p.stored.api_custom_model_name == request.api_custom_model_name
    &&& p.stored.api_base_url@ == normalized_base_url(request.api_base_url@)
    &&& p.stored.postprocess_model == request.postprocess_model
    &&& p.stored.postprocess_provider_mode == request.postprocess_provider_mode
    &&& p.stored.local_llm_model_id == request.local_llm_model_id
    &&& p.stored.api_key_plaintext == existing.api_key_plaintext
    &&& ostr(p.api_key) == supplied_key(request)
    &&& p.clear_api_key == request.clear_api_key
}

/// A saved request reads back as it was saved: the settings loaded from
/// the record that a save writes show the request's choices (device and
/// base URL normalized, the validated hotkey), no hotkey error, and the
/// key as insecure only when there is no keyring; with a keyring the file
/// never holds a key, and a supplied key is what goes to the keyring.
pub proof fn law_saved_settings_load_back(
    request: SaveSettingsRequest,
    existing: StoredSettings,
    hotkey_shortcut: Seq<char>,
    prepared: PreparedSettingsSave,
    keyring_available: bool,
    api_key_present: bool,
)
    requires
        records_request(request, existing, hotkey_shortcut, prepared),
    ensures
        ({
            let commit = committed_record(keyring_available, prepared);
            let shown = loaded_settings(commit.stored, keyring_available, api_key_present);
            &&& shown.provider_mode == request.provider_mode
            &&& shown.local_model_id == request.local_model_id
            &&& ostr(shown.selected_input_device_id) == normalized_device_id(
                ostr(request.selected_input_device_id),
            )
            &&& shown.live_capture_profile == request.live_capture_profile
            &&& shown.hotkey_mode == request.hotkey_mode
            &&& shown.hotkey_shortcut@ == hotkey_shortcut
            &&& shown.api_model_id == request.api_model_id
            &&& shown.api_custom_model_name == request.api_custom_model_name
            &&& shown.api_base_url@ == normalized_base_url(request.api_base_url@)
            &&& shown.postprocess_model == request.postprocess_model
            &&& shown.postprocess_provider_mode == request.postprocess_provider_mode
            &&& shown.local_llm_model_id == request.local_llm_model_id
            &&& shown.hotkey_registration_error is None
            &&& shown.api_key_insecure == (!keyring_available && api_key_present)
            &&& keyring_available ==> commit.stored.api_key_plaintext is None
                && ostr(commit.keyring_key) == supplied_key(request)
            &&& !keyring_available && supplied_key(request) is Some ==> ostr(
                commit.stored.api_key_plaintext,
            ) == supplied_key(request)
        }),
{
}

/// The settings file and whether the system keyring holds API keys.
#[derive(Debug, Clone)]
pub struct SettingsStore {
    pub config_path: String,
    pub keyring_available: bool,
}

impl SettingsStore {
    /// The store for `settings.json` in the app's configuration directory;
    /// `keyring_available` is what probing the system keyring found.
    pub fn new(keyring_available: bool) -> (r: Result<Self, SettingsError>)
        ensures
            r is Err ==> r matches Err(SettingsError::MissingConfigDir),
            r matches Ok(s) ==> s.keyring_available == keyring_available && exists|dir: Seq<char>|
                s.config_path@ == path_join_spec(dir, "settings.json"@),
    {
        let dir = app_config_dir();
        Self::from_config_dir(dir, keyring_available)
    }

    /// The store for `settings.json` in `config_dir` (none when the system
    /// has no configuration directory).
    pub fn from_config_dir(config_dir: Option<String>, keyring_available: bool) -> (r: Result<
        Self,
        SettingsError,
    >)
        ensures
            config_dir is None ==> r matches Err(SettingsError::MissingConfigDir),
            config_dir matches Some(d) ==> (r matches Ok(s) && s.config_path@ == path_join_spec(
                d@,
                "settings.json"@,
            ) && s.keyring_available == keyring_available),
    {
        match config_dir {
            None => Err(SettingsError::MissingConfigDir),
            Some(d) => Ok(
                SettingsStore {
                    config_path: path_join(d.as_str(), "settings.json"),
                    keyring_available,
                },
            ),
        }
    }

    /// A store for the given file that keeps keys in the file.
    pub fn with_path(path: String) -> (r: Self)
        ensures
            r.config_path == path,
            !r.keyring_available,
    {
        SettingsStore { config_path: path, keyring_available: false }
    }

    /// The settings file.
    pub fn config_path(&self) -> (r: &str)
        ensures
            r@ == self.config_path@,
    {
        self.config_path.as_str()
    }

    /// Whether keys go to the system keyring.
    pub fn keyring_available(&self) -> (r: bool)
        ensures
            r == self.keyring_available,
    {
        self.keyring_available
    }

    /// The settings the app shows for a stored record; a key outside the
    /// keyring is flagged as insecure.
    pub fn load(&self, stored: StoredSettings, api_key_present: bool) -> (r: AppSettings)
        ensures
            r == loaded_settings(stored, self.keyring_available, api_key_present),
    {
        AppSettings {
            provider_mode: stored.provider_mode,
            local_model_id: stored.local_model_id,
            selected_input_device_id: stored.selected_input_device_id,
            live_capture_profile: stored.live_capture_profile,
            hotkey_mode: stored.hotkey_mode,
            hotkey_shortcut: stored.hotkey_shortcut,
            api_model_id: stored.api_model_id,
            api_custom_model_name: stored.api_custom_model_name,
            api_base_url: stored.api_base_url,
            api_key_present,
            api_key_insecure: !self.keyring_available && api_key_present,
            hotkey_registration_error: None,
            postprocess_model: stored.postprocess_model,
            postprocess_provider_mode: stored.postprocess_provider_mode,
            local_llm_model_id: stored.local_llm_model_id,
        }
    }

    /// Whether a key is stored: with a keyring entry (`keyring_lookup`, the
    /// entry's password or error), a non-blank password; without one, a
    /// non-blank key in the file.
    pub fn has_api_key(
        &self,
        stored: &StoredSettings,
        keyring_lookup: Option<Result<String, KeyringFailure>>,
    ) -> (r: Result<bool, SettingsError>)
        ensures
            self.keyring_available ==> (keyring_lookup matches Some(Ok(p)) ==> r == Ok::<
                bool,
                SettingsError,
            >(trim_spec(p@).len() > 0)),
            self.keyring_available ==> (keyring_lookup matches Some(Err(KeyringFailure::NoEntry))
                ==> r == Ok::<bool, SettingsError>(false)),
            self.keyring_available ==> (keyring_lookup matches Some(Err(KeyringFailure::Other(e)))
                ==> r == Err::<bool, SettingsError>(SettingsError::Keyring(e))),
            !(self.keyring_available && keyring_lookup is Some) ==> r == Ok::<bool, SettingsError>(
                stored.api_key_plaintext matches Some(k) && trim_spec(k@).len() > 0,
            ),
    {
        if self.keyring_available {
            match keyring_lookup {
                Some(Ok(p)) => return Ok(!crate::text::is_blank(p.as_str())),
                Some(Err(KeyringFailure::NoEntry)) => return Ok(false),
                Some(Err(KeyringFailure::Other(e))) => return Err(SettingsError::Keyring(e)),
                None => {},
            }
        }
        match &stored.api_key_plaintext {
            Some(k) => Ok(!crate::text::is_blank(k.as_str())),
            None => Ok(false),
        }
    }

    /// The key for a base URL: from the keyring entry when there is one,
    /// else the file's key (`stored`, as read), trimmed and not blank.
    pub fn get_api_key(
        &self,
        keyring_lookup: Option<Result<String, KeyringFailure>>,
        stored: Result<StoredSettings, SettingsError>,
    ) -> (r: Result<String, SettingsError>)
        ensures
            self.keyring_available ==> (keyring_lookup matches Some(Ok(p)) ==> (if trim_spec(
                p@,
            ).len() == 0 {
                r matches Err(SettingsError::Validation(m)) && m@ == no_key_message()
            } else {
                r matches Ok(k) && k@ == trim_spec(p@)
            })),
            self.keyring_available ==> (keyring_lookup matches Some(Err(KeyringFailure::NoEntry))
                ==> (r matches Err(SettingsError::Validation(m)) && m@ == no_key_message())),
            self.keyring_available ==> (keyring_lookup matches Some(Err(KeyringFailure::Other(e)))
                ==> r == Err::<String, SettingsError>(SettingsError::Keyring(e))),
            !(self.keyring_available && keyring_lookup is Some) ==> match stored {
                Err(e) => r == Err::<String, SettingsError>(e),
                Ok(s) => match s.api_key_plaintext {
                    Some(k) => if trim_spec(k@).len() > 0 {
                        r matches Ok(x) && x@ == trim_spec(k@)
                    } else {
                        r matches Err(SettingsError::Validation(m)) && m@ == no_key_message()
                    },
                    None => r matches Err(SettingsError::Validation(m)) && m@ == no_key_message(),
                },
            },
    {
        if self.keyring_available {
            match keyring_lookup {
                Some(result) => return map_retrieved_api_key(result),
                None => {},
            }
        }
        let stored = match stored {
            Ok(s) => s,
            Err(e) => return Err(e),
        };
        match stored.api_key_plaintext {
            Some(key) => {
                let t = trim(key.as_str());
                if t.as_str().unicode_len() > 0 {
                    Ok(t)
                } else {
                    Err(SettingsError::Validation(
                        "No API key is stored for the configured API base URL.".to_owned(),
                    ))
                }
            },
            None => Err(SettingsError::Validation(
                "No API key is stored for the configured API base URL.".to_owned(),
            )),
        }
    }

    /// Validates a save request and builds the record to store.  `existing`
    /// is the current settings file as read (its plaintext key is kept),
    /// `parsed_shortcut` the shortcut parser's verdict on the trimmed
    /// hotkey, and `key_stored` whether a key is already stored for the
    /// request's normalized base URL.  Checks run in this order: the
    /// request's fields, reading the file, the hotkey, then that API mode
    /// has a key.
    pub fn prepare_save(
        &self,
        request: SaveSettingsRequest,
        local_model_ids: &[&str],
        api_model_ids: &[&str],
        input_device_ids: &[String],
        existing: Result<StoredSettings, SettingsError>,
        parsed_shortcut: Result<bool, String>,
        key_stored: bool,
    ) -> (r: Result<PreparedSettingsSave, SettingsError>)
        ensures
            settings_problem(request, local_model_ids@, api_model_ids@, input_device_ids@) matches Some(
                m,
            ) ==> (r matches Err(SettingsError::Validation(x)) && x@ == m),
            settings_problem(request, local_model_ids@, api_model_ids@, input_device_ids@) is None
                && existing is Err ==> r == Err::<PreparedSettingsSave, SettingsError>(
                existing->Err_0,
            ),
            settings_problem(request, local_model_ids@, api_model_ids@, input_device_ids@) is None
                && existing is Ok && shortcut_check(
                request.hotkey_shortcut@,
                parsed_view(parsed_shortcut),
            ) is Err ==> (r matches Err(SettingsError::Validation(x)) && Err::<
                Seq<char>,
                Seq<char>,
            >(x@) == shortcut_check(request.hotkey_shortcut@, parsed_view(parsed_shortcut))),
            settings_problem(request, local_model_ids@, api_model_ids@, input_device_ids@) is None
                && existing is Ok && shortcut_check(
                request.hotkey_shortcut@,
                parsed_view(parsed_shortcut),
            ) is Ok && request.provider_mode == ProviderMode::Api && supplied_key(request) is None
                && (request.clear_api_key || !key_stored) ==> (r matches Err(
                SettingsError::Validation(x),
            ) && x@ == "An API key is required when API transcription is selected."@),
            r matches Ok(p) ==> {
                &&& settings_problem(request, local_model_ids@, api_model_ids@, input_device_ids@)
                    is None
                &&& existing is Ok
                &&& shortcut_check(request.hotkey_shortcut@, parsed_view(parsed_shortcut))
                    == Ok::<Seq<char>, Seq<char>>(p.stored.hotkey_shortcut@)
                &&& !(request.provider_mode == ProviderMode::Api && supplied_key(request) is None
                    && (request.clear_api_key || !key_stored))
                &&& records_request(request, existing->Ok_0, p.stored.hotkey_shortcut@, p)
            },
    {
        match validate_settings(&request, local_model_ids, api_model_ids, input_device_ids) {
            Err(e) => return Err(e),
            Ok(()) => {},
        }
        let existing = match existing {
            Ok(s) => s,
            Err(e) => return Err(e),
        };
        let shortcut = match check_shortcut(request.hotkey_shortcut.as_str(), parsed_shortcut) {
            Ok(s) => s,
            Err(m) => return Err(SettingsError::Validation(m)),
        };
        let device = match &request.selected_input_device_id {
            Some(d) => normalize_input_device_id(Some(d.as_str())),
            None => normalize_input_device_id(None),
        };
        let api_key = match &request.api_key {
            Some(k) => {
                let t = trim(k.as_str());
                if t.as_str().unicode_len() == 0 {
                    None
                } else {
                    Some(t)
                }
            },
            None => None,
        };
        if request.provider_mode == ProviderMode::Api && api_key.is_none() && (
        request.clear_api_key || !key_stored) {
            return Err(
                SettingsError::Validation(
                    "An API key is required when API transcription is selected.".to_owned(),
                ),
            );
        }
        let url = normalize_base_url(request.api_base_url.as_str());
        let stored = StoredSettings {
            provider_mode: request.provider_mode,
            local_model_id: request.local_model_id,
            selected_input_device_id: device,
            live_capture_profile: request.live_capture_profile,
            hotkey_mode: request.hotkey_mode,
            hotkey_shortcut: shortcut,
            api_model_id: request.api_model_id,
            api_custom_model_name: request.api_custom_model_name,
            api_base_url: url,
            postprocess_model: request.postprocess_model,
            postprocess_provider_mode: request.postprocess_provider_mode,
            local_llm_model_id: request.local_llm_model_id,
            api_key_plaintext: existing.api_key_plaintext,
        };
        Ok(PreparedSettingsSave { stored, api_key, clear_api_key: request.clear_api_key })
    }

    /// What committing a prepared save writes: with a keyring, the key goes
    /// there (deleted first when asked) and never into the file; without
    /// one, the file keeps the new key, or loses the old one on a clear.
    pub fn commit_plan(&self, prepared: PreparedSettingsSave) -> (r: SettingsCommit)
        ensures
            r == committed_record(self.keyring_available, prepared),
    {
        let mut stored = prepared.stored;
        if prepared.clear_api_key && !self.keyring_available {
            stored.api_key_plaintext = None;
        }
        match &prepared.api_key {
            Some(k) => {
                if !self.keyring_available {
                    stored.api_key_plaintext = Some(k.clone());
                }
            },
            None => {},
        }
        if self.keyring_available {
            stored.api_key_plaintext = None;
        }
        SettingsCommit {
            stored,
            delete_keyring_key: self.keyring_available && prepared.clear_api_key,
            keyring_key: if self.keyring_available {
                prepared.api_key
            } else {
                None
            },
        }
    }
}

} // verus!
