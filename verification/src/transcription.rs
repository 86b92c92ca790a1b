//! The steps around a transcription run: naming its source, stamping the
//! result with what the request knew, deciding whether an upload must be
//! compressed first, and reporting a live recording's clean-up.
use vstd::prelude::*;

use crate::models::{InputType, LiveCaptureProfile, TranscriptResult};
use crate::paths::{path_file_name, path_file_name_spec, path_join, path_join_spec};
use crate::text::{decimal, push_decimal};

verus! {

/// Uploads above this size (24 MiB) are compressed to MP3 first.
pub const API_UPLOAD_SIZE_LIMIT: u64 = 25165824;

/// What a transcription request knows of its input.
#[derive(Debug, Clone, PartialEq, Eq)]
pub struct TranscriptionMetadata {
    pub input_type: InputType,
    pub live_capture_profile: Option<LiveCaptureProfile>,
    pub source_name: Option<String>,
    pub duration_ms: Option<u64>,
}

/// The name a file transcript is shown under: the file's name.
pub fn file_source_name(file_path: &str) -> (r: Option<String>)
    ensures
        r matches Some(n) ==> path_file_name_spec(file_path@) == Some(n@),
        r is None ==> path_file_name_spec(file_path@) is None,
{
    path_file_name(file_path)
}

/// The result stamped with the request's input type, capture profile and
/// source name; its duration is the request's, else the decoded audio's.
pub fn apply_transcription_metadata(
    result: TranscriptResult,
    metadata: TranscriptionMetadata,
    decoded_duration_ms: Option<u64>,
) -> (r: TranscriptResult)
    ensures
        r.text == result.text,
        r.segments == result.segments,
        r.post_processed_text == result.post_processed_text,
        r.source.provider == result.source.provider,
        r.source.model_id == result.source.model_id,
        r.source.input_type == metadata.input_type,
        r.source.live_capture_profile == metadata.live_capture_profile,
        r.source.source_name == metadata.source_name,
        r.source.duration_ms == (match metadata.duration_ms {
            Some(d) => Some(d),
            None => decoded_duration_ms,
        }),
{
    let mut result = result;
    result.source.input_type = metadata.input_type;
    result.source.live_capture_profile = metadata.live_capture_profile;
    result.source.source_name = metadata.source_name;
    result.source.duration_ms = match metadata.duration_ms {
        Some(d) => Some(d),
        None => decoded_duration_ms,
    };
    result
}

/// How removing a temporary recording went.
#[derive(Debug, Clone, PartialEq, Eq)]
pub enum CleanupOutcome {
    Removed,
    NotFound,
    Failed(String),
}

/// A missing file counts as cleaned up; any other failure is reported.
pub fn cleanup_result(outcome: CleanupOutcome) -> (r: Result<(), String>)
    ensures
        outcome is Failed ==> r == Err::<(), String>(outcome->Failed_0),
        !(outcome is Failed) ==> r is Ok,
{
    match outcome {
        CleanupOutcome::Removed => Ok(()),
        CleanupOutcome::NotFound => Ok(()),
        CleanupOutcome::Failed(message) => Err(message),
    }
}

/// The text joining a failed transcription with a failed clean-up.
pub open spec fn combined_failure(error: Seq<char>, cleanup_error: Seq<char>) -> Seq<char> {
    error + " Transcribe Kit also could not delete the temporary live recording: "@
        + cleanup_error
}

/// The outcome of a live transcription after its recording was cleaned up:
/// a transcript survives a failed clean-up; a failure mentions one.
pub fn finalize_live_transcription_result(
    result: Result<TranscriptResult, String>,
    cleanup: Result<(), String>,
) -> (r: Result<TranscriptResult, String>)
    ensures
        result is Ok ==> r == result,
        result is Err && cleanup is Ok ==> r == result,
        result is Err && cleanup is Err ==> (r matches Err(m) && m@ == combined_failure(
            result->Err_0@,
            cleanup->Err_0@,
        )),
{
    match (result, cleanup) {
        (Ok(transcript), _) => Ok(transcript),
        (Err(error), Ok(())) => Err(error),
        (Err(error), Err(cleanup_error)) => {
            let mut message = error;
            message.append(" Transcribe Kit also could not delete the temporary live recording: ");
            message.append(cleanup_error.as_str());
            Err(message)
        },
    }
}

/// Whether a file of this size must be compressed before upload.
pub fn upload_needs_compression(file_size: u64) -> (r: bool)
    ensures
        r == (file_size > API_UPLOAD_SIZE_LIMIT),
{
    file_size > API_UPLOAD_SIZE_LIMIT
}

/// The name of the compressed copy of an upload.
pub open spec fn compressed_upload_name(timestamp_ms: nat, pid: nat) -> Seq<char> {
    "transcribe-kit-upload-"@ + decimal(timestamp_ms) + "-"@ + decimal(pid) + ".mp3"@
}

/// The compressed copy of an upload, in the temporary directory, named by
/// the time and the process id.
pub fn compressed_upload_path(temp_dir: &str, timestamp_ms: u64, pid: u32) -> (r: String)
    ensures
        r@ == path_join_spec(temp_dir@, compressed_upload_name(timestamp_ms as nat, pid as nat)),
{
    let mut name = String::from_str("transcribe-kit-upload-");
    push_decimal(&mut name, timestamp_ms);
    name.append("-");
    push_decimal(&mut name, pid as u64);
    name.append(".mp3");
    proof {
        reveal_strlit("transcribe-kit-upload-");
        reveal_strlit("-");
        reveal_strlit(".mp3");
        assert(name@ =~= compressed_upload_name(timestamp_ms as nat, pid as nat));
    }
    path_join(temp_dir, name.as_str())
}

} // verus!
