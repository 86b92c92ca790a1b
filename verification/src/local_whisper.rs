//! The local speech models: the registry of Whisper model files, where they
//! live, and how the engine's segments become a transcript.  Running the
//! engine happens in the app.
use vstd::prelude::*;

use crate::errors::TranscriptionError;
use crate::model_store::{
    join3, model_path_in, model_path_spec, path_result_matches, plan_download,
    resolve_expected_path, resolved_path_spec, status_for_path, DownloadPlan,
};
use crate::models::{InputType, ModelStatus, TranscriptResult, TranscriptSegment, TranscriptionSource};
use crate::paths::{path_with_extension_spec, app_cache_dir};
use crate::settings::ostr;
use crate::text::{str_eq, trim, trim_spec};

verus! {

/// The provider name of local Whisper transcripts.
pub const ENGINE_ID: &'static str = "whisper";

/// The model file of each known Whisper model.
pub open spec fn ggml_filename_spec(model_id: Seq<char>) -> Option<Seq<char>> {
    if model_id == "whisper-tiny"@ {
        Some("ggml-tiny.bin"@)
    } else if model_id == "whisper-base"@ {
        Some("ggml-base.bin"@)
    } else if model_id == "whisper-small"@ {
        Some("ggml-small.bin"@)
    } else if model_id == "whisper-large-v3-turbo"@ {
        Some("ggml-large-v3-turbo.bin"@)
    } else {
        None
    }
}

/// The model file of a known Whisper model.
pub fn ggml_filename(model_id: &str) -> (r: Option<&'static str>)
    ensures
        ostr_ref(r) == ggml_filename_spec(model_id@),
{
    if str_eq(model_id, "whisper-tiny") {
        Some("ggml-tiny.bin")
    } else if str_eq(model_id, "whisper-base") {
        Some("ggml-base.bin")
    } else if str_eq(model_id, "whisper-small") {
        Some("ggml-small.bin")
    } else if str_eq(model_id, "whisper-large-v3-turbo") {
        Some("ggml-large-v3-turbo.bin")
    } else {
        None
    }
}

/// View of an optional string slice.
pub open spec fn ostr_ref(o: Option<&str>) -> Option<Seq<char>> {
    match o {
        Some(s) => Some(s@),
        None => None,
    }
}

/// Where each known Whisper model is downloaded from.
pub open spec fn download_url_spec(model_id: Seq<char>) -> Option<Seq<char>> {
    if model_id == "whisper-tiny"@ {
        Some("https://huggingface.co/bubiche/whisper.cpp/resolve/main/ggml-tiny.bin"@)
    } else if model_id == "whisper-base"@ {
        Some("https://huggingface.co/bubiche/whisper.cpp/resolve/main/ggml-base.bin"@)
    } else if model_id == "whisper-small"@ {
        Some("https://huggingface.co/bubiche/whisper.cpp/resolve/main/ggml-small.bin"@)
    } else if model_id == "whisper-large-v3-turbo"@ {
        Some("https://huggingface.co/bubiche/whisper.cpp/resolve/main/ggml-large-v3-turbo.bin"@)
    } else {
        None
    }
}

/// Where a known Whisper model is downloaded from.
pub fn download_url(model_id: &str) -> (r: Option<&'static str>)
    ensures
        ostr_ref(r) == download_url_spec(model_id@),
{
    if str_eq(model_id, "whisper-tiny") {
        Some("https://huggingface.co/bubiche/whisper.cpp/resolve/main/ggml-tiny.bin")
    } else if str_eq(model_id, "whisper-base") {
        Some("https://huggingface.co/bubiche/whisper.cpp/resolve/main/ggml-base.bin")
    } else if str_eq(model_id, "whisper-small") {
        Some("https://huggingface.co/bubiche/whisper.cpp/resolve/main/ggml-small.bin")
    } else if str_eq(model_id, "whisper-large-v3-turbo") {
        Some("https://huggingface.co/bubiche/whisper.cpp/resolve/main/ggml-large-v3-turbo.bin")
    } else {
        None
    }
}

/// The approximate download size of each Whisper model.
pub open spec fn size_label_spec(model_id: Seq<char>) -> Seq<char> {
    if model_id == "whisper-tiny"@ {
        "~75 MB"@
    } else if model_id == "whisper-base"@ {
        "~148 MB"@
    } else if model_id == "whisper-small"@ {
        "~488 MB"@
    } else if model_id == "whisper-large-v3-turbo"@ {
        "~809 MB"@
    } else {
        "Unknown"@
    }
}

/// The approximate download size of a Whisper model, `Unknown` for an
/// unknown id.
pub fn size_label(model_id: &str) -> (r: &'static str)
    ensures
        r@ == size_label_spec(model_id@),
{
    if str_eq(model_id, "whisper-tiny") {
        "~75 MB"
    } else if str_eq(model_id, "whisper-base") {
        "~148 MB"
    } else if str_eq(model_id, "whisper-small") {
        "~488 MB"
    } else if str_eq(model_id, "whisper-large-v3-turbo") {
        "~809 MB"
    } else {
        "Unknown"
    }
}

/// The load error for a model id without a model file.
pub open spec fn unmapped_message(model_id: Seq<char>) -> Seq<char> {
    "No GGML model file mapped for '"@ + model_id + "'"@
}

/// Where a Whisper model file lives given the cache directory: `models/`
/// and the model's file name.
pub open spec fn model_path(cache_dir: Option<Seq<char>>, model_id: Seq<char>) -> Result<
    Seq<char>,
    Seq<char>,
> {
    model_path_spec(cache_dir, "models"@, ggml_filename_spec(model_id), unmapped_message(model_id))
}

/// The model file in the given cache directory.
pub fn expected_model_path_in(cache_dir: Option<String>, model_id: &str) -> (r: Result<
    String,
    TranscriptionError,
>)
    ensures
        path_result_matches(r, model_path(ostr(cache_dir), model_id@)),
{
    let message = join3("No GGML model file mapped for '", model_id, "'");
    model_path_in(cache_dir, "models", ggml_filename(model_id), message)
}

/// The model file in the app's cache directory.
pub fn expected_model_path(model_id: &str) -> (r: Result<String, TranscriptionError>)
    ensures
        exists|dir: Option<Seq<char>>| path_result_matches(r, model_path(dir, model_id@)),
{
    let dir = app_cache_dir();
    expected_model_path_in(dir, model_id)
}

/// The model file, once it is known whether it exists: an error for a
/// model that is not downloaded.
pub fn resolve_model_path(model_id: &str, file_exists: bool) -> (r: Result<String, TranscriptionError>)
    ensures
        exists|dir: Option<Seq<char>>|
            path_result_matches(
                r,
                resolved_path_spec(model_path(dir, model_id@), model_id@, file_exists),
            ),
{
    let dir = app_cache_dir();
    let expected = expected_model_path_in(dir, model_id);
    resolve_expected_path(expected, model_id, file_exists)
}

/// The status of a model whose file would be in `cache_dir`, given what
/// the file system says of that file: the path's error when it has no path
/// there, else downloaded exactly when the file exists, with its length.
pub fn model_status_in(cache_dir: Option<String>, model_id: &str, file_exists: bool, file_len: Option<
    u64,
>) -> (r: Result<ModelStatus, TranscriptionError>)
    ensures
        model_path(ostr(cache_dir), model_id@) matches Err(m) ==> (r matches Err(
            TranscriptionError::ModelLoad(x),
        ) && x@ == m),
        model_path(ostr(cache_dir), model_id@) is Ok ==> (r matches Ok(s) && s.model_id@ == model_id@
            && s.downloaded == file_exists && s.size_bytes == (if file_exists {
            file_len
        } else {
            None
        })),
{
    match expected_model_path_in(cache_dir, model_id) {
        Ok(_) => Ok(status_for_path(model_id, file_exists, file_len)),
        Err(e) => Err(e),
    }
}

/// The status of a model given what the file system says of its file, in
/// the app's cache directory (see [`model_status_in`]).
pub fn model_status(model_id: &str, file_exists: bool, file_len: Option<u64>) -> (r: Result<
    ModelStatus,
    TranscriptionError,
>)
    ensures
        ggml_filename_spec(model_id@) is None ==> (r matches Err(TranscriptionError::ModelLoad(m))
            && m@ == unmapped_message(model_id@)),
        exists|dir: Option<Seq<char>>|
            {
                &&& model_path(dir, model_id@) matches Err(m) ==> (r matches Err(
                    TranscriptionError::ModelLoad(x),
                ) && x@ == m)
                &&& model_path(dir, model_id@) is Ok ==> (r matches Ok(s) && s.model_id@ == model_id@
                    && s.downloaded == file_exists && s.size_bytes == (if file_exists {
                    file_len
                } else {
                    None
                }))
            },
{
    let dir = app_cache_dir();
    model_status_in(dir, model_id, file_exists, file_len)
}

/// What downloading a Whisper model comes to, given whether its file is
/// already there.
pub fn plan_model_download(model_id: &str, file_exists: bool) -> (r: Result<
    DownloadPlan,
    TranscriptionError,
>)
    ensures
        exists|dir: Option<Seq<char>>|
            #![trigger model_path(dir, model_id@)]
            match model_path(dir, model_id@) {
                Err(m) => r matches Err(TranscriptionError::ModelLoad(rm)) && rm@ == m,
                Ok(p) => if file_exists {
                    r matches Ok(DownloadPlan::Present(rp)) && rp@ == p
                } else if download_url_spec(model_id@) is None {
                    r is Err
                } else {
                    r matches Ok(DownloadPlan::Fetch { url, path, temp_path }) && Some(url@)
                        == download_url_spec(model_id@) && path@ == p && temp_path@
                        == path_with_extension_spec(p, "bin.download"@)
                },
            },
{
    proof {
        reveal_strlit("bin.download");
        assert(!"bin.download"@.contains('/') && !"bin.download"@.contains('\\'));
    }
    let dir = app_cache_dir();
    let expected = expected_model_path_in(dir, model_id);
    plan_download(expected, model_id, download_url(model_id), file_exists, "bin.download")
}

// ---------------------------------------------------------------------------
// Engine output
// ---------------------------------------------------------------------------

/// A segment as the engine reports it: start and end in centiseconds, text.
pub type EngineSegment = (i64, i64, String);

/// Engine timestamps convert to milliseconds without overflow.
pub open spec fn segment_in_range(s: EngineSegment) -> bool {
    -922337203685477580 <= s.0 <= 922337203685477580 && -922337203685477580 <= s.1
        <= 922337203685477580
}

/// The texts of the segments, one after another.
pub open spec fn joined_text(segments: Seq<EngineSegment>) -> Seq<char>
    decreases segments.len(),
{
    if segments.len() == 0 {
        Seq::empty()
    } else {
        joined_text(segments.drop_last()) + segments.last().2@
    }
}

/// The total length of the segments' texts.
pub open spec fn text_length_total(segments: Seq<EngineSegment>) -> nat
    decreases segments.len(),
{
    if segments.len() == 0 {
        0
    } else {
        text_length_total(segments.drop_last()) + segments.last().2@.len()
    }
}

/// The joined text holds every segment's text, in order and nothing else:
/// its length is the sum of the segments' text lengths, and segment `k`'s
/// text stands at the sum of the lengths of the segments before it.
pub proof fn law_joined_text_holds_every_segment(segments: Seq<EngineSegment>, k: int)
    requires
        0 <= k < segments.len(),
    ensures
        joined_text(segments).len() == text_length_total(segments),
        joined_text(segments).subrange(
            text_length_total(segments.take(k)) as int,
            (text_length_total(segments.take(k)) + segments[k].2@.len()) as int,
        ) == segments[k].2@,
    decreases segments.len(),
{
    lemma_joined_text_length(segments);
    let prefix = segments.drop_last();
    let last = segments.last().2@;
    assert(joined_text(segments) == joined_text(prefix) + last);
    lemma_joined_text_length(prefix);
    if k == segments.len() - 1 {
        assert(segments.take(k) =~= prefix);
        assert(segments[k] == segments.last());
        assert((joined_text(prefix) + last).subrange(
            joined_text(prefix).len() as int,
            (joined_text(prefix).len() + last.len()) as int,
        ) =~= last);
    } else {
        law_joined_text_holds_every_segment(prefix, k);
        assert(segments.take(k) =~= prefix.take(k));
        assert(prefix[k] == segments[k]);
        lemma_take_total_bound(prefix, k);
        let a = text_length_total(prefix.take(k)) as int;
        let b = a + segments[k].2@.len();
        assert(b <= joined_text(prefix).len());
        assert((joined_text(prefix) + last).subrange(a, b) =~= joined_text(prefix).subrange(a, b));
    }
}

proof fn lemma_joined_text_length(segments: Seq<EngineSegment>)
    ensures
        joined_text(segments).len() == text_length_total(segments),
    decreases segments.len(),
{
    if segments.len() > 0 {
        lemma_joined_text_length(segments.drop_last());
    }
}

proof fn lemma_take_total_bound(segments: Seq<EngineSegment>, k: int)
    requires
        0 <= k < segments.len(),
    ensures
        text_length_total(segments.take(k)) + segments[k].2@.len() <= text_length_total(segments),
    decreases segments.len(),
{
    if k == segments.len() - 1 {
        assert(segments.take(k) =~= segments.drop_last());
    } else {
        lemma_take_total_bound(segments.drop_last(), k);
        assert(segments.take(k) =~= segments.drop_last().take(k));
        assert(segments.drop_last()[k] == segments[k]);
    }
}

/// A transcript segment from the engine's centisecond timestamps.
pub fn segment_to_model(start_cs: i64, end_cs: i64, text: String) -> (r: TranscriptSegment)
    requires
        segment_in_range((start_cs, end_cs, text)),
    ensures
        r.start_ms == start_cs * 10,
        r.end_ms == end_cs * 10,
        r.text == text,
{
    TranscriptSegment { start_ms: start_cs * 10, end_ms: end_cs * 10, text }
}

/// The transcript of a finished run: the segments in milliseconds and the
/// trimmed concatenation of their texts, from a file.
pub fn transcript_from_segments(model_id: &str, segments: Vec<EngineSegment>) -> (r: TranscriptResult)
    requires
        forall|i: int| 0 <= i < segments@.len() ==> segment_in_range(#[trigger] segments@[i]),
    ensures
        r.text@ == trim_spec(joined_text(segments@)),
        r.segments@.len() == segments@.len(),
        forall|i: int|
            0 <= i < segments@.len() ==> (#[trigger] r.segments@[i]).start_ms == segments@[i].0 * 10
                && r.segments@[i].end_ms == segments@[i].1 * 10 && r.segments@[i].text
                == segments@[i].2,
        r.source.provider@ == ENGINE_ID@,
        r.source.model_id@ == model_id@,
        r.source.input_type == InputType::File,
        r.source.live_capture_profile is None,
        r.source.source_name is None,
        r.source.duration_ms is None,
        r.post_processed_text is None,
{
    let mut out: Vec<TranscriptSegment> = Vec::new();
    let mut full_text = String::new();
    let mut i: usize = 0;
    while i < segments.len()
        invariant
            i <= segments@.len(),
            forall|k: int| 0 <= k < segments@.len() ==> segment_in_range(#[trigger] segments@[k]),
            out@.len() == i,
            forall|k: int|
                0 <= k < i ==> (#[trigger] out@[k]).start_ms == segments@[k].0 * 10
                    && out@[k].end_ms == segments@[k].1 * 10 && out@[k].text == segments@[k].2,
            full_text@ == joined_text(segments@.subrange(0, i as int)),
        decreases segments@.len() - i,
    {
        let (start, end, text) = &segments[i];
        let piece = text.clone();
        full_text.append(piece.as_str());
        out.push(segment_to_model(*start, *end, piece));
        proof {
            assert(segments@.subrange(0, i + 1).drop_last() =~= segments@.subrange(0, i as int));
        }
        i = i + 1;
    }
    assert(segments@.subrange(0, segments@.len() as int) =~= segments@);
    TranscriptResult {
        text: trim(full_text.as_str()),
        segments: out,
        source: TranscriptionSource {
            provider: ENGINE_ID.to_owned(),
            model_id: model_id.to_owned(),
            input_type: InputType::File,
            live_capture_profile: None,
            source_name: None,
            duration_ms: None,
        },
        post_processed_text: None,
    }
}

/// While the engine runs, each new segment's text is added to what came
/// before; the partial transcript shown is that text trimmed.
pub fn accumulate_segment_text(accumulated: &mut String, text: &str) -> (r: String)
    ensures
        final(accumulated)@ == old(accumulated)@ + text@,
        r@ == trim_spec(final(accumulated)@),
{
    accumulated.append(text);
    trim(accumulated.as_str())
}

} // verus!
