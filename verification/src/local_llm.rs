//! The local language models used for post-processing: their registry and
//! where their files live.  Loading and running them happens in the app.
use vstd::prelude::*;

use crate::errors::TranscriptionError;
use crate::local_whisper::ostr_ref;
use crate::model_store::{
    join3, model_path_in, model_path_spec, path_result_matches, plan_download,
    resolve_expected_path, resolved_path_spec, status_for_path, DownloadPlan,
};
use crate::models::ModelStatus;
use crate::paths::{path_with_extension_spec, app_cache_dir};
use crate::settings::ostr;
use crate::text::str_eq;

verus! {

/// The engine name of the local language models.
pub const ENGINE_ID: &'static str = "local-llm";

/// The known model ids, in the order they are offered.
pub open spec fn llm_model_ids_spec() -> Seq<Seq<char>> {
    seq!["llm-qwen-3.5-0.8b"@, "llm-qwen-3.5-4b"@, "llm-gemma-4-e2b"@, "llm-gemma-4-e4b"@]
}

/// The known model ids, in the order they are offered.
pub fn llm_model_ids() -> (r: [&'static str; 4])
    ensures
        r@.map_values(|s: &str| s@) == llm_model_ids_spec(),
{
    let r = ["llm-qwen-3.5-0.8b", "llm-qwen-3.5-4b", "llm-gemma-4-e2b", "llm-gemma-4-e4b"];
    assert(r@.map_values(|s: &str| s@) =~= llm_model_ids_spec());
    r
}

/// What the registry knows of one model.
#[derive(Debug, Clone, Copy)]
pub struct ModelEntry {
    pub gguf_filename: &'static str,
    pub download_url: &'static str,
    pub size_label: &'static str,
    pub display_label: &'static str,
}

/// The registry: model file, download URL, size label and display label of
/// each known model.
pub open spec fn entry_spec(model_id: Seq<char>) -> Option<(Seq<char>, Seq<char>, Seq<char>, Seq<char>)> {
    if model_id == "llm-qwen-3.5-0.8b"@ {
        Some(
            (
                "Qwen3.5-0.8B-Q4_K_M.gguf"@,
                "https://huggingface.co/bubiche/Qwen3.5-0.8B-GGUF/resolve/main/Qwen3.5-0.8B-Q4_K_M.gguf"@,
                "~0.50 GB"@,
                "Qwen 3.5 0.8B (Default)"@,
            ),
        )
    } else if model_id == "llm-qwen-3.5-4b"@ {
        Some(
            (
                "Qwen3.5-4B-Q4_K_M.gguf"@,
                "https://huggingface.co/bubiche/Qwen3.5-4B-GGUF/resolve/main/Qwen3.5-4B-Q4_K_M.gguf"@,
                "~2.55 GB"@,
                "Qwen 3.5 4B"@,
            ),
        )
    } else if model_id == "llm-gemma-4-e2b"@ {
        Some(
            (
                "gemma-4-E2B-it-Q4_K_M.gguf"@,
                "https://huggingface.co/bubiche/gemma-4-E2B-it-GGUF/resolve/main/gemma-4-E2B-it-Q4_K_M.gguf"@,
                "~2.89 GB"@,
                "Gemma 4 E2B"@,
            ),
        )
    } else if model_id == "llm-gemma-4-e4b"@ {
        Some(
            (
                "gemma-4-E4B-it-Q4_K_M.gguf"@,
                "https://huggingface.co/bubiche/gemma-4-E4B-it-GGUF/resolve/main/gemma-4-E4B-it-Q4_K_M.gguf"@,
                "~4.64 GB"@,
                "Gemma 4 E4B"@,
            ),
        )
    } else {
        None
    }
}

/// View of a registry entry.
pub open spec fn entry_view(e: ModelEntry) -> (Seq<char>, Seq<char>, Seq<char>, Seq<char>) {
    (e.gguf_filename@, e.download_url@, e.size_label@, e.display_label@)
}

/// The registry entry of a model.
pub fn model_entry(model_id: &str) -> (r: Option<ModelEntry>)
    ensures
        r matches Some(e) ==> entry_spec(model_id@) == Some(entry_view(e)),
        r is None ==> entry_spec(model_id@) is None,
{
    if str_eq(model_id, "llm-qwen-3.5-0.8b") {
        Some(
            ModelEntry {
                gguf_filename: "Qwen3.5-0.8B-Q4_K_M.gguf",
                download_url: "https://huggingface.co/bubiche/Qwen3.5-0.8B-GGUF/resolve/main/Qwen3.5-0.8B-Q4_K_M.gguf",
                size_label: "~0.50 GB",
                display_label: "Qwen 3.5 0.8B (Default)",
            },
        )
    } else if str_eq(model_id, "llm-qwen-3.5-4b") {
        Some(
            ModelEntry {
                gguf_filename: "Qwen3.5-4B-Q4_K_M.gguf",
                download_url: "https://huggingface.co/bubiche/Qwen3.5-4B-GGUF/resolve/main/Qwen3.5-4B-Q4_K_M.gguf",
                size_label: "~2.55 GB",
                display_label: "Qwen 3.5 4B",
            },
        )
    } else if str_eq(model_id, "llm-gemma-4-e2b") {
        Some(
            ModelEntry {
                gguf_filename: "gemma-4-E2B-it-Q4_K_M.gguf",
                download_url: "https://huggingface.co/bubiche/gemma-4-E2B-it-GGUF/resolve/main/gemma-4-E2B-it-Q4_K_M.gguf",
                size_label: "~2.89 GB",
                display_label: "Gemma 4 E2B",
            },
        )
    } else if str_eq(model_id, "llm-gemma-4-e4b") {
        Some(
            ModelEntry {
                gguf_filename: "gemma-4-E4B-it-Q4_K_M.gguf",
                download_url: "https://huggingface.co/bubiche/gemma-4-E4B-it-GGUF/resolve/main/gemma-4-E4B-it-Q4_K_M.gguf",
                size_label: "~4.64 GB",
                display_label: "Gemma 4 E4B",
            },
        )
    } else {
        None
    }
}

/// Whether the registry knows the model.
pub fn is_known_model_id(model_id: &str) -> (r: bool)
    ensures
        r == entry_spec(model_id@) is Some,
{
    model_entry(model_id).is_some()
}

/// The display label of a model, `Unknown` for an unknown id.
pub fn display_label(model_id: &str) -> (r: &'static str)
    ensures
        r@ == match entry_spec(model_id@) {
            Some(e) => e.3,
            None => "Unknown"@,
        },
{
    match model_entry(model_id) {
        Some(e) => e.display_label,
        None => "Unknown",
    }
}

/// The approximate download size of a model, `Unknown` for an unknown id.
pub fn size_label(model_id: &str) -> (r: &'static str)
    ensures
        r@ == match entry_spec(model_id@) {
            Some(e) => e.2,
            None => "Unknown"@,
        },
{
    match model_entry(model_id) {
        Some(e) => e.size_label,
        None => "Unknown",
    }
}

/// The model file of a model in the registry.
pub open spec fn gguf_filename_spec(model_id: Seq<char>) -> Option<Seq<char>> {
    match entry_spec(model_id) {
        Some(e) => Some(e.0),
        None => None,
    }
}

/// The load error for a model id without a model file.
pub open spec fn unmapped_message(model_id: Seq<char>) -> Seq<char> {
    "No GGUF model file mapped for '"@ + model_id + "'"@
}

/// Where a model file lives given the cache directory: `llm-models/` and
/// the model's file name.
pub open spec fn model_path(cache_dir: Option<Seq<char>>, model_id: Seq<char>) -> Result<
    Seq<char>,
    Seq<char>,
> {
    model_path_spec(cache_dir, "llm-models"@, gguf_filename_spec(model_id), unmapped_message(model_id))
}

/// The model file in the given cache directory.
pub fn expected_model_path_in(cache_dir: Option<String>, model_id: &str) -> (r: Result<
    String,
    TranscriptionError,
>)
    ensures
        path_result_matches(r, model_path(ostr(cache_dir), model_id@)),
{
    let message = join3("No GGUF model file mapped for '", model_id, "'");
    let file_name = match model_entry(model_id) {
        Some(e) => Some(e.gguf_filename),
        None => None,
    };
    assert(ostr_ref(file_name) == gguf_filename_spec(model_id@));
    model_path_in(cache_dir, "llm-models", file_name, message)
}

/// The model file in the app's cache directory.
pub fn expected_model_path(model_id: &str) -> (r: Result<String, TranscriptionError>)
    ensures
        exists|dir: Option<Seq<char>>| path_result_matches(r, model_path(dir, model_id@)),
{
    let dir = app_cache_dir();
    expected_model_path_in(dir, model_id)
}

/// The model file, once it is known whether it exists: an error for a
/// model that is not downloaded.
pub fn resolve_model_path(model_id: &str, file_exists: bool) -> (r: Result<String, TranscriptionError>)
    ensures
        exists|dir: Option<Seq<char>>|
            path_result_matches(
                r,
                resolved_path_spec(model_path(dir, model_id@), model_id@, file_exists),
            ),
{
    let dir = app_cache_dir();
    let expected = expected_model_path_in(dir, model_id);
    resolve_expected_path(expected, model_id, file_exists)
}

/// The status of a model whose file would be in `cache_dir`, given what
/// the file system says of that file: the path's error when it has no path
/// there, else downloaded exactly when the file exists, with its length.
pub fn model_status_in(cache_dir: Option<String>, model_id: &str, file_exists: bool, file_len: Option<
    u64,
>) -> (r: Result<ModelStatus, TranscriptionError>)
    ensures
        model_path(ostr(cache_dir), model_id@) matches Err(m) ==> (r matches Err(
            TranscriptionError::ModelLoad(x),
        ) && x@ == m),
        model_path(ostr(cache_dir), model_id@) is Ok ==> (r matches Ok(s) && s.model_id@ == model_id@
            && s.downloaded == file_exists && s.size_bytes == (if file_exists {
            file_len
        } else {
            None
        })),
{
    match expected_model_path_in(cache_dir, model_id) {
        Ok(_) => Ok(status_for_path(model_id, file_exists, file_len)),
        Err(e) => Err(e),
    }
}

/// The status of a model given what the file system says of its file, in
/// the app's cache directory (see [`model_status_in`]).
pub fn model_status(model_id: &str, file_exists: bool, file_len: Option<u64>) -> (r: Result<
    ModelStatus,
    TranscriptionError,
>)
    ensures
        gguf_filename_spec(model_id@) is None ==> (r matches Err(TranscriptionError::ModelLoad(m))
            && m@ == unmapped_message(model_id@)),
        exists|dir: Option<Seq<char>>|
            {
                &&& model_path(dir, model_id@) matches Err(m) ==> (r matches Err(
                    TranscriptionError::ModelLoad(x),
                ) && x@ == m)
                &&& model_path(dir, model_id@) is Ok ==> (r matches Ok(s) && s.model_id@ == model_id@
                    && s.downloaded == file_exists && s.size_bytes == (if file_exists {
                    file_len
                } else {
                    None
                }))
            },
{
    let dir = app_cache_dir();
    model_status_in(dir, model_id, file_exists, file_len)
}

/// What downloading a model comes to, given whether its file is already
/// there.
pub fn plan_model_download(model_id: &str, file_exists: bool) -> (r: Result<
    DownloadPlan,
    TranscriptionError,
>)
    ensures
        exists|dir: Option<Seq<char>>|
            #![trigger model_path(dir, model_id@)]
            match model_path(dir, model_id@) {
                Err(m) => r matches Err(TranscriptionError::ModelLoad(rm)) && rm@ == m,
                Ok(p) => if file_exists {
                    r matches Ok(DownloadPlan::Present(rp)) && rp@ == p
                } else {
                    r matches Ok(DownloadPlan::Fetch { url, path, temp_path }) && entry_spec(
                        model_id@,
                    ) matches Some(e) && url@ == e.1 && path@ == p && temp_path@
                        == path_with_extension_spec(p, "gguf.download"@)
                },
            },
{
    proof {
        reveal_strlit("gguf.download");
        assert(!"gguf.download"@.contains('/') && !"gguf.download"@.contains('\\'));
    }
    let dir = app_cache_dir();
    let expected = expected_model_path_in(dir, model_id);
    let url = match model_entry(model_id) {
        Some(e) => Some(e.download_url),
        None => None,
    };
    plan_download(expected, model_id, url, file_exists, "gguf.download")
}

} // verus!
