//! The decisions behind the app's commands: which models are offered, what
//! a transcription request carries, when the device list is needed, which
//! loaded engine can be reused, and the recording tray's texts.  The
//! commands themselves, which reach the stores, devices and engines, are
//! the app's.
use vstd::prelude::*;

use crate::api::PROVIDER_ID;
use crate::local_whisper::{size_label, size_label_spec, ENGINE_ID};
use crate::models::{
    ApiModelDescriptor, AppSettings, AudioInputDeviceDescriptor, InputType,
    LocalModelDescriptor, ProviderMode, SaveSettingsRequest, TranscribeLiveRecordingRequest,
};
use crate::live::{live_source_name, source_name_spec};
use crate::text::{is_blank, str_eq, trim_spec};
use crate::transcription::TranscriptionMetadata;

verus! {

/// The local speech models offered, in order.
pub open spec fn local_model_ids_spec() -> Seq<Seq<char>> {
    seq!["whisper-tiny"@, "whisper-base"@, "whisper-small"@, "whisper-large-v3-turbo"@]
}

/// The local speech models offered, in order.
pub fn local_model_ids() -> (r: [&'static str; 4])
    ensures
        r@.map_values(|s: &str| s@) == local_model_ids_spec(),
{
    let r = ["whisper-tiny", "whisper-base", "whisper-small", "whisper-large-v3-turbo"];
    assert(r@.map_values(|s: &str| s@) =~= local_model_ids_spec());
    r
}

/// The API transcription models offered, in order.
pub open spec fn api_model_ids_spec() -> Seq<Seq<char>> {
    seq!["gpt-4o-mini-transcribe"@, "gpt-4o-transcribe"@, "custom"@]
}

/// The API transcription models offered, in order.
pub fn api_model_ids() -> (r: [&'static str; 3])
    ensures
        r@.map_values(|s: &str| s@) == api_model_ids_spec(),
{
    let r = ["gpt-4o-mini-transcribe", "gpt-4o-transcribe", "custom"];
    assert(r@.map_values(|s: &str| s@) =~= api_model_ids_spec());
    r
}

/// The display name of a local speech model (its id when unknown).
pub open spec fn whisper_label_spec(model_id: Seq<char>) -> Seq<char> {
    if model_id == "whisper-tiny"@ {
        "Whisper Tiny"@
    } else if model_id == "whisper-base"@ {
        "Whisper Base"@
    } else if model_id == "whisper-small"@ {
        "Whisper Small"@
    } else if model_id == "whisper-large-v3-turbo"@ {
        "Whisper Large v3 Turbo"@
    } else {
        model_id
    }
}

/// The display name of a local speech model.
pub fn whisper_label(model_id: &str) -> (r: String)
    ensures
        r@ == whisper_label_spec(model_id@),
{
    if str_eq(model_id, "whisper-tiny") {
        String::from_str("Whisper Tiny")
    } else if str_eq(model_id, "whisper-base") {
        String::from_str("Whisper Base")
    } else if str_eq(model_id, "whisper-small") {
        String::from_str("Whisper Small")
    } else if str_eq(model_id, "whisper-large-v3-turbo") {
        String::from_str("Whisper Large v3 Turbo")
    } else {
        model_id.to_owned()
    }
}

/// How a local speech model is offered, given whether its file exists.
pub fn local_model_descriptor(model_id: &str, downloaded: bool) -> (r: LocalModelDescriptor)
    ensures
        r.id@ == model_id@,
        r.label@ == whisper_label_spec(model_id@),
        r.engine@ == ENGINE_ID@,
        r.downloaded == downloaded,
        r.size_label@ == size_label_spec(model_id@),
{
    LocalModelDescriptor {
        id: model_id.to_owned(),
        label: whisper_label(model_id),
        engine: ENGINE_ID.to_owned(),
        downloaded,
        size_label: size_label(model_id).to_owned(),
    }
}

/// The offered local speech models; `downloaded[i]` says whether the file
/// of the `i`-th one exists.
pub fn list_local_models(downloaded: &[bool; 4]) -> (r: Vec<LocalModelDescriptor>)
    ensures
        r@.len() == 4,
        forall|i: int|
            0 <= i < 4 ==> (#[trigger] r@[i]).id@ == local_model_ids_spec()[i] && r@[i].label@
                == whisper_label_spec(local_model_ids_spec()[i]) && r@[i].downloaded
                == downloaded@[i] && r@[i].size_label@ == size_label_spec(local_model_ids_spec()[i])
                && r@[i].engine@ == ENGINE_ID@,
{
    let ids = local_model_ids();
    let mut r: Vec<LocalModelDescriptor> = Vec::new();
    let mut i: usize = 0;
    while i < 4
        invariant
            i <= 4,
            ids@.map_values(|s: &str| s@) == local_model_ids_spec(),
            r@.len() == i,
            forall|k: int|
                0 <= k < i ==> (#[trigger] r@[k]).id@ == local_model_ids_spec()[k] && r@[k].label@
                    == whisper_label_spec(local_model_ids_spec()[k]) && r@[k].downloaded
                    == downloaded@[k] && r@[k].size_label@ == size_label_spec(
                    local_model_ids_spec()[k],
                ) && r@[k].engine@ == ENGINE_ID@,
        decreases 4 - i,
    {
        proof {
            assert(ids@[i as int]@ == local_model_ids_spec()[i as int]);
        }
        r.push(local_model_descriptor(ids[i], downloaded[i]));
        i = i + 1;
    }
    r
}

fn api_model(id: &str, label: &str, supports_custom_name: bool) -> (r: ApiModelDescriptor)
    ensures
        r.id@ == id@,
        r.label@ == label@,
        r.provider@ == PROVIDER_ID@,
        r.supports_custom_name == supports_custom_name,
{
    ApiModelDescriptor {
        id: id.to_owned(),
        label: label.to_owned(),
        provider: PROVIDER_ID.to_owned(),
        supports_custom_name,
    }
}

/// The API transcription models offered: two named models and a custom
/// model name.
pub fn list_api_models() -> (r: Vec<ApiModelDescriptor>)
    ensures
        r@.len() == 3,
        r@[0].id@ == "gpt-4o-mini-transcribe"@ && r@[0].label@ == "GPT-4o mini Transcribe"@
            && !r@[0].supports_custom_name,
        r@[1].id@ == "gpt-4o-transcribe"@ && r@[1].label@ == "GPT-4o Transcribe"@
            && !r@[1].supports_custom_name,
        r@[2].id@ == "custom"@ && r@[2].label@ == "Custom model name"@ && r@[2].supports_custom_name,
        forall|i: int| 0 <= i < 3 ==> (#[trigger] r@[i]).provider@ == PROVIDER_ID@,
{
    vec![
        api_model("gpt-4o-mini-transcribe", "GPT-4o mini Transcribe", false),
        api_model("gpt-4o-transcribe", "GPT-4o Transcribe", false),
        api_model("custom", "Custom model name", true),
    ]
}

/// The local model to transcribe with: local transcription must be the
/// selected provider.
pub fn local_model_id(settings: Result<AppSettings, String>, transcription_label: &str) -> (r: Result<
    String,
    String,
>)
    ensures
        settings is Err ==> r == Err::<String, String>(settings->Err_0),
        settings is Ok && settings->Ok_0.provider_mode == ProviderMode::Local ==> r == Ok::<
            String,
            String,
        >(settings->Ok_0.local_model_id),
        settings is Ok && settings->Ok_0.provider_mode != ProviderMode::Local ==> (r is Err
            && r->Err_0@ == transcription_label@
            + " is only wired up for Local Whisper right now. Switch the provider in Settings to continue."@),
{
    let settings = match settings {
        Ok(s) => s,
        Err(e) => {
            return Err(e);
        },
    };
    if settings.provider_mode != ProviderMode::Local {
        let mut m = transcription_label.to_owned();
        m.append(
            " is only wired up for Local Whisper right now. Switch the provider in Settings to continue.",
        );
        return Err(m);
    }
    Ok(settings.local_model_id)
}

/// What a file transcription records about its input.
pub fn file_transcription_metadata(source_name: Option<String>) -> (r: TranscriptionMetadata)
    ensures
        r.input_type == InputType::File,
        r.live_capture_profile is None,
        r.source_name == source_name,
        r.duration_ms is None,
{
    TranscriptionMetadata {
        input_type: InputType::File,
        live_capture_profile: None,
        source_name,
        duration_ms: None,
    }
}

/// What a live transcription records about its input: the capture profile,
/// the device's name and the recorded duration.
pub fn live_transcription_metadata(request: &TranscribeLiveRecordingRequest) -> (r: TranscriptionMetadata)
    ensures
        r.input_type == InputType::Live,
        r.live_capture_profile == Some(request.live_capture_profile),
        r.source_name matches Some(n) && n@ == source_name_spec(
            request.input_device_label@,
            match request.input_device_id {
                Some(i) => Some(i@),
                None => None,
            },
        ),
        r.duration_ms == Some(request.duration_ms),
{
    let id: Option<&str> = match &request.input_device_id {
        Some(i) => Some(i.as_str()),
        None => None,
    };
    TranscriptionMetadata {
        input_type: InputType::Live,
        live_capture_profile: Some(request.live_capture_profile),
        source_name: Some(live_source_name(request.input_device_label.as_str(), id)),
        duration_ms: Some(request.duration_ms),
    }
}

/// Saving needs the device list only when a device is selected.
pub fn save_needs_device_list(request: &SaveSettingsRequest) -> (r: bool)
    ensures
        r == (request.selected_input_device_id matches Some(d) && trim_spec(d@).len() > 0),
{
    match &request.selected_input_device_id {
        Some(d) => !is_blank(d.as_str()),
        None => false,
    }
}

/// The error when saving failed and the previous hotkey could not be
/// restored either.
pub fn rollback_failure_message(error: &str, rollback_error: &str) -> (r: String)
    ensures
        r@ == error@ + ". Transcribe Kit also failed to restore the previous global hotkey: "@
            + rollback_error@,
{
    let mut r = error.to_owned();
    r.append(". Transcribe Kit also failed to restore the previous global hotkey: ");
    r.append(rollback_error);
    r
}

/// The settings the app shows, with the current hotkey problem.
pub fn with_hotkey_error(settings: AppSettings, registration_error: Option<String>) -> (r: AppSettings)
    ensures
        r == (AppSettings { hotkey_registration_error: registration_error, ..settings }),
{
    let mut s = settings;
    s.hotkey_registration_error = registration_error;
    s
}

/// Whether the selected input is a system output (captured by loopback):
/// the first listed device with its id says so; unknown devices are not.
pub open spec fn selected_is_loopback(selected: Option<Seq<char>>, devices: Seq<AudioInputDeviceDescriptor>) -> bool
    decreases devices.len(),
{
    match selected {
        None => false,
        Some(id) => if devices.len() == 0 {
            false
        } else if devices[0].id@ == id {
            devices[0].is_output_loopback
        } else {
            selected_is_loopback(selected, devices.drop_first())
        },
    }
}

/// Whether the selected input is a system output, given the device list
/// (none when it could not be read).
pub fn selected_input_is_output_loopback(
    selected_input_device_id: Option<&str>,
    devices: Option<Vec<AudioInputDeviceDescriptor>>,
) -> (r: bool)
    ensures
        r == (devices matches Some(d) && selected_is_loopback(
            match selected_input_device_id {
                Some(s) => Some(s@),
                None => None,
            },
            d@,
        )),
{
    let selected = match selected_input_device_id {
        Some(s) => s,
        None => {
            return false;
        },
    };
    let list = match &devices {
        Some(d) => d,
        None => {
            return false;
        },
    };
    let mut i: usize = 0;
    assert(list@.subrange(0, list@.len() as int) =~= list@);
    while i < list.len()
        invariant
            i <= list@.len(),
            devices == Some(*list),
            selected_input_device_id == Some(selected),
            selected_is_loopback(Some(selected@), list@) == selected_is_loopback(
                Some(selected@),
                list@.subrange(i as int, list@.len() as int),
            ),
        decreases list@.len() - i,
    {
        let ghost rest = list@.subrange(i as int, list@.len() as int);
        assert(rest.drop_first() =~= list@.subrange(i + 1, list@.len() as int));
        assert(rest[0] == list@[i as int]);
        if str_eq(list[i].id.as_str(), selected) {
            return list[i].is_output_loopback;
        }
        i = i + 1;
    }
    false
}

/// A loaded engine is reused when it holds the requested model.
pub fn can_reuse_engine(loaded_model_id: Option<&str>, model_id: &str) -> (r: bool)
    ensures
        r == (loaded_model_id matches Some(m) && m@ == model_id@),
{
    match loaded_model_id {
        Some(m) => str_eq(m, model_id),
        None => false,
    }
}

/// The saved local model is loaded at launch when local transcription is
/// selected.
pub fn should_preload_local_model(settings: &AppSettings) -> (r: Option<String>)
    ensures
        settings.provider_mode == ProviderMode::Local ==> r == Some(settings.local_model_id),
        settings.provider_mode != ProviderMode::Local ==> r is None,
{
    if settings.provider_mode == ProviderMode::Local {
        Some(settings.local_model_id.clone())
    } else {
        None
    }
}

/// The tray tooltip while recording.
pub fn recording_tooltip(input_device_label: Option<&str>) -> (r: String)
    ensures
        r@ == match input_device_label {
            Some(l) => "Transcribe Kit: recording from "@ + l@,
            None => "Transcribe Kit: recording"@,
        },
{
    match input_device_label {
        Some(l) => {
            let mut r = String::from_str("Transcribe Kit: recording from ");
            r.append(l);
            proof {
                reveal_strlit("Transcribe Kit: recording from ");
            }
            r
        },
        None => String::from_str("Transcribe Kit: recording"),
    }
}

} // verus!
