//! Local model files shared by the speech and language models: where a
//! model file lives in the cache, what its status is, how a download is
//! planned, and when download progress is reported.  Fetching and writing
//! the bytes happens in the app.
use vstd::prelude::*;

use crate::errors::TranscriptionError;
use crate::models::{ModelDownloadProgress, ModelStatus};
use crate::paths::{
    is_plain_extension, path_join, path_join_spec, path_with_extension, path_with_extension_spec,
};

verus! {

/// Progress is reported at least every this many bytes.
pub const PROGRESS_STEP_BYTES: u64 = 262144;

/// `prefix`, `middle` and `suffix` in a row.
pub fn join3(prefix: &str, middle: &str, suffix: &str) -> (r: String)
    ensures
        r@ == prefix@ + middle@ + suffix@,
{
    let mut r = prefix.to_owned();
    r.append(middle);
    r.append(suffix);
    r
}

/// The message for a model that is not downloaded.
pub open spec fn not_downloaded_message(model_id: Seq<char>) -> Seq<char> {
    "Model '"@ + model_id + "' is not downloaded. Please download it first."@
}

/// The message when the system gives no cache directory.
pub open spec fn no_cache_dir_message() -> Seq<char> {
    "Could not determine cache directory"@
}

/// Where a model file goes: `file_name` in `subdir` of the cache directory,
/// or the load-error message when there is no cache directory or no file
/// for the model.
pub open spec fn model_path_spec(
    cache_dir: Option<Seq<char>>,
    subdir: Seq<char>,
    file_name: Option<Seq<char>>,
    unmapped_message: Seq<char>,
) -> Result<Seq<char>, Seq<char>> {
    match file_name {
        None => Err(unmapped_message),
        Some(f) => match cache_dir {
            None => Err(no_cache_dir_message()),
            Some(d) => Ok(path_join_spec(path_join_spec(d, subdir), f)),
        },
    }
}

/// `r` is the model path, or the load error, that `spec` describes.
pub open spec fn path_result_matches(
    r: Result<String, TranscriptionError>,
    spec: Result<Seq<char>, Seq<char>>,
) -> bool {
    match r {
        Ok(p) => spec == Ok::<Seq<char>, Seq<char>>(p@),
        Err(TranscriptionError::ModelLoad(m)) => spec == Err::<Seq<char>, Seq<char>>(m@),
        Err(_) => false,
    }
}

/// The model path of `model_path_spec`.
pub fn model_path_in(
    cache_dir: Option<String>,
    subdir: &str,
    file_name: Option<&str>,
    unmapped_message: String,
) -> (r: Result<String, TranscriptionError>)
    ensures
        path_result_matches(
            r,
            model_path_spec(
                match cache_dir {
                    Some(d) => Some(d@),
                    None => None,
                },
                subdir@,
                match file_name {
                    Some(f) => Some(f@),
                    None => None,
                },
                unmapped_message@,
            ),
        ),
{
    match file_name {
        None => Err(TranscriptionError::ModelLoad(unmapped_message)),
        Some(f) => match cache_dir {
            None => Err(
                TranscriptionError::ModelLoad(String::from_str("Could not determine cache directory")),
            ),
            Some(d) => {
                let dir = path_join(d.as_str(), subdir);
                Ok(path_join(dir.as_str(), f))
            },
        },
    }
}

/// The path of a model file once its existence on disk is known: the path
/// when the file exists, else the not-downloaded error; an earlier error
/// passes through.
pub open spec fn resolved_path_spec(
    expected: Result<Seq<char>, Seq<char>>,
    model_id: Seq<char>,
    file_exists: bool,
) -> Result<Seq<char>, Seq<char>> {
    match expected {
        Ok(p) => if file_exists {
            Ok(p)
        } else {
            Err(not_downloaded_message(model_id))
        },
        Err(m) => Err(m),
    }
}

/// Applies `resolved_path_spec`.
pub fn resolve_expected_path(
    expected: Result<String, TranscriptionError>,
    model_id: &str,
    file_exists: bool,
) -> (r: Result<String, TranscriptionError>)
    ensures
        forall|spec: Result<Seq<char>, Seq<char>>|
            path_result_matches(expected, spec) ==> path_result_matches(
                r,
                resolved_path_spec(spec, model_id@, file_exists),
            ),
{
    match expected {
        Ok(p) => if file_exists {
            Ok(p)
        } else {
            Err(TranscriptionError::ModelLoad(join3(
                "Model '",
                model_id,
                "' is not downloaded. Please download it first.",
            )))
        },
        Err(e) => Err(e),
    }
}

/// The status of a model file: downloaded when it exists, with the size
/// the file system reported for an existing file.
pub fn status_for_path(model_id: &str, file_exists: bool, file_len: Option<u64>) -> (r: ModelStatus)
    ensures
        r.model_id@ == model_id@,
        r.downloaded == file_exists,
        r.size_bytes == (if file_exists {
            file_len
        } else {
            None
        }),
{
    ModelStatus {
        model_id: model_id.to_owned(),
        downloaded: file_exists,
        size_bytes: if file_exists {
            file_len
        } else {
            None
        },
    }
}

/// What a download request comes to.
#[derive(Debug, Clone, PartialEq, Eq)]
pub enum DownloadPlan {
    /// The file is already there.
    Present(String),
    /// Fetch `url` into `temp_path`, then rename it to `path`.
    Fetch { url: String, path: String, temp_path: String },
}

/// The message for a model without a download URL.
pub open spec fn no_download_url_message(model_id: Seq<char>) -> Seq<char> {
    "No download URL for model '"@ + model_id + "'"@
}

/// Plans the download of a model file given its expected path, its URL,
/// whether the file exists and the extension of the partial file.
pub fn plan_download(
    expected: Result<String, TranscriptionError>,
    model_id: &str,
    url: Option<&str>,
    file_exists: bool,
    partial_extension: &str,
) -> (r: Result<DownloadPlan, TranscriptionError>)
    requires
        is_plain_extension(partial_extension@),
    ensures
        expected is Err ==> r == Err::<DownloadPlan, TranscriptionError>(expected->Err_0),
        expected is Ok && file_exists ==> r == Ok::<DownloadPlan, TranscriptionError>(
            DownloadPlan::Present(expected->Ok_0),
        ),
        expected is Ok && !file_exists && url is None ==> (r matches Err(
            TranscriptionError::Download(m),
        ) && m@ == no_download_url_message(model_id@)),
        expected is Ok && !file_exists && url is Some ==> (r matches Ok(
            DownloadPlan::Fetch { url: ru, path: rp, temp_path: rt },
        ) && ru@ == url->Some_0@ && rp == expected->Ok_0 && rt@ == path_with_extension_spec(
            expected->Ok_0@,
            partial_extension@,
        )),
{
    match expected {
        Err(e) => Err(e),
        Ok(p) => {
            if file_exists {
                return Ok(DownloadPlan::Present(p));
            }
            match url {
                None => Err(TranscriptionError::Download(join3(
                    "No download URL for model '",
                    model_id,
                    "'",
                ))),
                Some(u) => {
                    let temp_path = path_with_extension(p.as_str(), partial_extension);
                    Ok(DownloadPlan::Fetch { url: u.to_owned(), path: p, temp_path })
                },
            }
        },
    }
}

/// Byte counts of a running download, and when progress was last reported.
#[derive(Debug, Clone)]
pub struct DownloadProgressTracker {
    pub model_id: String,
    pub downloaded: u64,
    pub last_emit: u64,
    pub total_bytes: Option<u64>,
}

impl DownloadProgressTracker {
    /// Progress is never reported ahead of the bytes received.
    pub open spec fn wf(&self) -> bool {
        self.last_emit <= self.downloaded
    }

    /// A tracker for a download of `total_bytes` (when the server said).
    pub fn new(model_id: &str, total_bytes: Option<u64>) -> (r: Self)
        ensures
            r.wf(),
            r.model_id@ == model_id@,
            r.downloaded == 0,
            r.last_emit == 0,
            r.total_bytes == total_bytes,
    {
        DownloadProgressTracker {
            model_id: model_id.to_owned(),
            downloaded: 0,
            last_emit: 0,
            total_bytes,
        }
    }

    /// Whether progress is reported after receiving up to `downloaded`:
    /// more than a step since the last report, or exactly the announced
    /// total (0 when none was announced).
    pub open spec fn reports_at(&self, downloaded: int) -> bool {
        downloaded - self.last_emit > PROGRESS_STEP_BYTES || downloaded == match self.total_bytes {
            Some(t) => t as int,
            None => 0,
        }
    }

    /// Counts a received chunk and returns the progress update to report,
    /// if one is due.
    pub fn record_chunk(&mut self, chunk_len: u64) -> (r: Option<ModelDownloadProgress>)
        requires
            old(self).wf(),
            old(self).downloaded + chunk_len <= u64::MAX,
        ensures
            final(self).wf(),
            final(self).model_id == old(self).model_id,
            final(self).total_bytes == old(self).total_bytes,
            final(self).downloaded == old(self).downloaded + chunk_len,
            old(self).reports_at(old(self).downloaded + chunk_len) ==> final(self).last_emit
                == final(self).downloaded && (r matches Some(p) && p.model_id@
                == old(self).model_id@ && p.downloaded_bytes == final(self).downloaded
                && p.total_bytes == old(self).total_bytes && !p.done),
            !old(self).reports_at(old(self).downloaded + chunk_len) ==> (final(self).last_emit
                == old(self).last_emit && r is None),
    {
        self.downloaded = self.downloaded + chunk_len;
        let total_or_zero: u64 = match self.total_bytes {
            Some(t) => t,
            None => 0,
        };
        if self.downloaded - self.last_emit > PROGRESS_STEP_BYTES || self.downloaded
            == total_or_zero {
            self.last_emit = self.downloaded;
            Some(
                ModelDownloadProgress {
                    model_id: self.model_id.clone(),
                    downloaded_bytes: self.downloaded,
                    total_bytes: self.total_bytes,
                    done: false,
                },
            )
        } else {
            None
        }
    }

    /// The final update once the file is in place: everything received,
    /// with the received count as the total.
    pub fn finished(&self) -> (r: ModelDownloadProgress)
        ensures
            r.model_id@ == self.model_id@,
            r.downloaded_bytes == self.downloaded,
            r.total_bytes == Some(self.downloaded),
            r.done,
    {
        ModelDownloadProgress {
            model_id: self.model_id.clone(),
            downloaded_bytes: self.downloaded,
            total_bytes: Some(self.downloaded),
            done: true,
        }
    }
}

} // verus!
