//! OpenAI-compatible transcription and chat-completions API: request
//! preparation, endpoint construction and the messages shown for failures.
//! The HTTP exchange itself and JSON decoding happen in the app.
use vstd::prelude::*;

use crate::errors::{prefixed, TranscriptionError};
use crate::paths::{path_extension, path_extension_spec, path_file_name, path_file_name_spec};
use crate::models::{InputType, TranscriptResult, TranscriptionSource};
use crate::text::{
    ascii_lower_spec, ascii_lowercase_chars, chars_of, contains_chars, contains_spec, decimal,
    push_decimal, starts_with_spec, str_eq, starts_with_str, string_of, trim, trim_chars, trim_end_char,
    trim_end_char_spec, trim_spec,
};

verus! {

/// Provider id reported for API transcripts.
pub const PROVIDER_ID: &'static str = "openai-compatible";

/// Key and base URL for an OpenAI-compatible API.
#[derive(Debug, Clone)]
pub struct ApiCredentials {
    pub api_key: String,
    pub base_url: String,
}

/// What `ApiCredentials::validate` answers.
pub open spec fn credentials_check(api_key: Seq<char>, base_url: Seq<char>) -> Option<Seq<char>> {
    if trim_spec(api_key).len() == 0 {
        Some("API key is required."@)
    } else if !(starts_with_spec(base_url, "http://"@) || starts_with_spec(base_url, "https://"@)) {
        Some("Base URL must start with http:// or https://"@)
    } else {
        None
    }
}

impl ApiCredentials {
    /// Rejects a blank key, then a base URL without an http(s) scheme.
    pub fn validate(&self) -> (r: Result<(), &'static str>)
        ensures
            r is Ok <==> credentials_check(self.api_key@, self.base_url@) is None,
            r matches Err(m) ==> credentials_check(self.api_key@, self.base_url@) == Some(m@),
    {
        let key = trim(self.api_key.as_str());
        if key.as_str().unicode_len() == 0 {
            return Err("API key is required.");
        }
        if !(starts_with_str(self.base_url.as_str(), "http://") || starts_with_str(
            self.base_url.as_str(),
            "https://",
        )) {
            return Err("Base URL must start with http:// or https://");
        }
        Ok(())
    }
}

/// What `resolve_effective_model_name` answers.
pub open spec fn effective_model_spec(model_id: Seq<char>, custom: Seq<char>) -> Result<
    Seq<char>,
    Seq<char>,
> {
    let id = trim_spec(model_id);
    if id.len() == 0 {
        Err("API model is required."@)
    } else if id == "custom"@ {
        if trim_spec(custom).len() == 0 {
            Err("Enter a model name for the custom API option."@)
        } else {
            Ok(trim_spec(custom))
        }
    } else {
        Ok(id)
    }
}

/// The model name to send: the trimmed model id, or the trimmed custom name
/// when the id is `custom`.
pub fn resolve_effective_model_name(api_model_id: &str, api_custom_model_name: &str) -> (r: Result<
    String,
    &'static str,
>)
    ensures
        r matches Ok(n) ==> effective_model_spec(api_model_id@, api_custom_model_name@) == Ok::<
            Seq<char>,
            Seq<char>,
        >(n@),
        r matches Err(m) ==> effective_model_spec(api_model_id@, api_custom_model_name@) == Err::<
            Seq<char>,
            Seq<char>,
        >(m@),
{
    let id = trim(api_model_id);
    if id.as_str().unicode_len() == 0 {
        return Err("API model is required.");
    }
    let custom_word = "custom".to_owned();
    if id == custom_word {
        let custom = trim(api_custom_model_name);
        if custom.as_str().unicode_len() == 0 {
            return Err("Enter a model name for the custom API option.");
        }
        return Ok(custom);
    }
    Ok(id)
}

/// The extension of a path, trimmed and lower-cased (ASCII), when not empty.
pub open spec fn normalized_extension_spec(path: Seq<char>) -> Option<Seq<char>> {
    match path_extension_spec(path) {
        Some(e) => if trim_spec(ascii_lower_spec(e)).len() == 0 {
            None
        } else {
            Some(trim_spec(ascii_lower_spec(e)))
        },
        None => None,
    }
}

/// The extension of `path`, trimmed and lower-cased, if it has a non-blank one.
pub fn normalized_audio_extension(path: &str) -> (r: Option<String>)
    ensures
        r matches Some(e) ==> normalized_extension_spec(path@) == Some(e@),
        r is None ==> normalized_extension_spec(path@) is None,
{
    match path_extension(path) {
        Some(e) => {
            let lower = ascii_lowercase_chars(&chars_of(e.as_str()));
            let t = trim_chars(&lower);
            if t.len() == 0 {
                None
            } else {
                Some(string_of(&t))
            }
        },
        None => None,
    }
}

/// Extensions the transcription API accepts.
pub open spec fn is_supported_extension(e: Seq<char>) -> bool {
    e == "mp3"@ || e == "mp4"@ || e == "mpeg"@ || e == "mpga"@ || e == "m4a"@ || e == "wav"@ || e
        == "webm"@
}

fn is_supported_extension_exec(e: &String) -> (r: bool)
    ensures
        r == is_supported_extension(e@),
{
    str_eq(e.as_str(), "mp3") || str_eq(e.as_str(), "mp4") || str_eq(e.as_str(), "mpeg") || str_eq(e.as_str(), "mpga") || str_eq(
        e.as_str(),
        "m4a",
    ) || str_eq(e.as_str(), "wav") || str_eq(e.as_str(), "webm")
}

/// Whether the API accepts the file, judged by its extension.
pub fn is_api_supported_audio_file(path: &str) -> (r: bool)
    ensures
        r == (normalized_extension_spec(path@) matches Some(e) && is_supported_extension(e)),
{
    match normalized_audio_extension(path) {
        Some(e) => is_supported_extension_exec(&e),
        None => false,
    }
}

/// The message for an unsupported file.
pub open spec fn unsupported_format_message(path: Seq<char>) -> Seq<char> {
    "The selected audio format ("@ + match normalized_extension_spec(path) {
        Some(e) => "."@ + e,
        None => "unknown file extension"@,
    } + ") is not supported for API transcription. Use mp3, mp4, mpeg, mpga, m4a, wav, or webm."@
}

/// `Ok` for a supported extension, else an `ApiRequest` error naming it.
pub fn ensure_supported_audio_file_format(path: &str) -> (r: Result<(), TranscriptionError>)
    ensures
        r is Ok <==> (normalized_extension_spec(path@) matches Some(e) && is_supported_extension(
            e,
        )),
        r matches Err(e) ==> (e matches TranscriptionError::ApiRequest(m) && m@
            == unsupported_format_message(path@)),
{
    if is_api_supported_audio_file(path) {
        return Ok(());
    }
    let detail = match normalized_audio_extension(path) {
        Some(e) => prefixed(".", e.as_str()),
        None => "unknown file extension".to_owned(),
    };
    let mut m = "The selected audio format (".to_owned();
    m.append(detail.as_str());
    m.append(
        ") is not supported for API transcription. Use mp3, mp4, mpeg, mpga, m4a, wav, or webm.",
    );
    Err(TranscriptionError::ApiRequest(m))
}

/// MIME type sent for a file, by extension.
pub open spec fn mime_type_spec(path: Seq<char>) -> Seq<char> {
    match normalized_extension_spec(path) {
        Some(e) => if e == "wav"@ {
            "audio/wav"@
        } else if e == "mp3"@ || e == "mpeg"@ || e == "mpga"@ {
            "audio/mpeg"@
        } else if e == "m4a"@ || e == "mp4"@ {
            "audio/mp4"@
        } else if e == "webm"@ {
            "audio/webm"@
        } else {
            "application/octet-stream"@
        },
        None => "application/octet-stream"@,
    }
}

/// The MIME type to upload `path` with.
pub fn infer_audio_mime_type(path: &str) -> (r: &'static str)
    ensures
        r@ == mime_type_spec(path@),
{
    match normalized_audio_extension(path) {
        Some(e) => {
            if str_eq(e.as_str(), "wav") {
                "audio/wav"
            } else if str_eq(e.as_str(), "mp3") || str_eq(e.as_str(), "mpeg") || str_eq(e.as_str(), "mpga") {
                "audio/mpeg"
            } else if str_eq(e.as_str(), "m4a") || str_eq(e.as_str(), "mp4") {
                "audio/mp4"
            } else if str_eq(e.as_str(), "webm") {
                "audio/webm"
            } else {
                "application/octet-stream"
            }
        },
        None => "application/octet-stream",
    }
}

/// `base` without trailing slashes, followed by `path`.
fn endpoint(base_url: &str, path: &str) -> (r: String)
    ensures
        r@ == trim_end_char_spec(base_url@, '/') + path@,
{
    let mut r = trim_end_char(base_url, '/');
    r.append(path);
    r
}

/// `{base_url}/audio/transcriptions`, ignoring trailing slashes of the base.
pub fn transcription_endpoint(base_url: &str) -> (r: String)
    ensures
        r@ == trim_end_char_spec(base_url@, '/') + "/audio/transcriptions"@,
{
    endpoint(base_url, "/audio/transcriptions")
}

/// `{base_url}/chat/completions`, ignoring trailing slashes of the base.
pub fn chat_completions_endpoint(base_url: &str) -> (r: String)
    ensures
        r@ == trim_end_char_spec(base_url@, '/') + "/chat/completions"@,
{
    endpoint(base_url, "/chat/completions")
}

/// The message for a failed network call.
pub open spec fn network_error_spec(is_timeout: bool, is_connect: bool, details: Seq<char>) -> Seq<
    char,
> {
    if is_timeout {
        "The transcription API request timed out. Check your network and try again."@
    } else if is_connect {
        "Transcribe Kit could not connect to the transcription API. Verify your base URL and network connection."@
    } else {
        "Network error while calling the transcription API: "@ + details
    }
}

/// Message for a request that did not reach the API: time-outs first, then
/// connection failures, else the error text.
pub fn network_error_message(is_timeout: bool, is_connect: bool, details: &str) -> (r: String)
    ensures
        r@ == network_error_spec(is_timeout, is_connect, details@),
{
    if is_timeout {
        return "The transcription API request timed out. Check your network and try again.".to_owned();
    }
    if is_connect {
        return "Transcribe Kit could not connect to the transcription API. Verify your base URL and network connection.".to_owned();
    }
    prefixed("Network error while calling the transcription API: ", details)
}

/// HTTP status codes 500 through 599 (`StatusCode::is_server_error`).
pub open spec fn is_server_error(status: u16) -> bool {
    500 <= status < 600
}

/// `base`, then ` Details: {detail}` when there is a detail.
pub open spec fn with_detail(base: Seq<char>, detail: Option<Seq<char>>) -> Seq<char> {
    match detail {
        Some(d) => base + " Details: "@ + d,
        None => base,
    }
}

/// Views of an optional string.
pub open spec fn opt_view(o: Option<String>) -> Option<Seq<char>> {
    match o {
        Some(s) => Some(s@),
        None => None,
    }
}

/// `head`, the decimal status, then `tail`.
pub open spec fn with_status(head: Seq<char>, status: u16, tail: Seq<char>) -> Seq<char> {
    head + decimal(status as nat) + tail
}

fn status_message(head: &str, status: u16, tail: &str) -> (r: String)
    ensures
        r@ == with_status(head@, status, tail@),
{
    let mut r = head.to_owned();
    push_decimal(&mut r, status as u64);
    r.append(tail);
    r
}

fn add_detail(base: String, detail: Option<String>) -> (r: String)
    ensures
        r@ == with_detail(base@, opt_view(detail)),
{
    match detail {
        Some(d) => {
            let mut r = base;
            r.append(" Details: ");
            r.append(d.as_str());
            r
        },
        None => base,
    }
}

/// The detail message of an API error body: the nested `error.message`,
/// else the top-level `message`, trimmed, when not blank.
pub open spec fn api_error_detail_spec(nested: Option<Seq<char>>, top: Option<Seq<char>>) -> Option<
    Seq<char>,
> {
    let chosen = match nested {
        Some(m) => Some(m),
        None => top,
    };
    match chosen {
        Some(m) => if trim_spec(m).len() == 0 {
            None
        } else {
            Some(trim_spec(m))
        },
        None => None,
    }
}

/// Picks the detail message out of an error body's `error.message` and
/// `message` fields (as the app decoded them).
pub fn select_api_error_message(nested: Option<String>, top: Option<String>) -> (r: Option<String>)
    ensures
        opt_view(r) == api_error_detail_spec(opt_view(nested), opt_view(top)),
{
    let chosen = match nested {
        Some(m) => Some(m),
        None => top,
    };
    match chosen {
        Some(m) => {
            let t = trim(m.as_str());
            if t.as_str().unicode_len() == 0 {
                None
            } else {
                Some(t)
            }
        },
        None => None,
    }
}

/// Message for a failed transcription request, by HTTP status.
pub open spec fn http_error_spec(status: u16, detail: Option<Seq<char>>) -> Seq<char> {
    with_detail(
        if status == 401 || status == 403 {
            "Authentication failed. Check that your API key is valid for the configured provider."@
        } else if status == 413 {
            "The selected audio file is too large for the transcription API request."@
        } else if status == 404 {
            "The transcription API endpoint was not found. Verify your API base URL."@
        } else if status == 429 {
            "The transcription API rate limit has been reached. Please wait and try again."@
        } else if is_server_error(status) {
            with_status(
                "The transcription API returned a server error (HTTP "@,
                status,
                "). Please try again soon."@,
            )
        } else {
            with_status("The transcription API request failed with HTTP "@, status, "."@)
        },
        detail,
    )
}

/// The message shown when the transcription API answers with a failure status.
pub fn map_http_error(status: u16, detail: Option<String>) -> (r: String)
    ensures
        r@ == http_error_spec(status, opt_view(detail)),
{
    let base = if status == 401 || status == 403 {
        "Authentication failed. Check that your API key is valid for the configured provider.".to_owned()
    } else if status == 413 {
        "The selected audio file is too large for the transcription API request.".to_owned()
    } else if status == 404 {
        "The transcription API endpoint was not found. Verify your API base URL.".to_owned()
    } else if status == 429 {
        "The transcription API rate limit has been reached. Please wait and try again.".to_owned()
    } else if 500 <= status && status < 600 {
        status_message(
            "The transcription API returned a server error (HTTP ",
            status,
            "). Please try again soon.",
        )
    } else {
        status_message("The transcription API request failed with HTTP ", status, ".")
    };
    add_detail(base, detail)
}

/// Whether an error detail says the request exceeded the model's context.
pub open spec fn mentions_context_limit(detail: Seq<char>) -> bool {
    let lower = ascii_lower_spec(detail);
    contains_spec(lower, "context length"@) || contains_spec(lower, "too many tokens"@)
        || contains_spec(lower, "maximum context"@) || contains_spec(lower, "token limit"@)
}

/// Message for a failed chat-completions request.
pub open spec fn chat_error_spec(status: u16, detail: Option<Seq<char>>) -> Seq<char> {
    if status == 400 && (detail matches Some(d) && mentions_context_limit(d)) {
        "The transcript may be too long for the selected model. Try a shorter transcript or a model with a larger context window. Details: "@
            + detail->0
    } else {
        with_detail(
            if status == 401 || status == 403 {
                "Authentication failed. Check that your API key is valid for the configured provider."@
            } else if status == 404 {
                "The chat completions API endpoint was not found. Verify your API base URL."@
            } else if status == 429 {
                "The API rate limit has been reached. Please wait and try again."@
            } else if status == 400 {
                with_status("The post-processing API request was rejected (HTTP "@, status, ")."@)
            } else if is_server_error(status) {
                with_status(
                    "The post-processing API returned a server error (HTTP "@,
                    status,
                    "). Please try again soon."@,
                )
            } else {
                with_status("The post-processing API request failed with HTTP "@, status, "."@)
            },
            detail,
        )
    }
}

fn contains_lit(hay: &Vec<char>, needle: &str) -> (r: bool)
    ensures
        r == contains_spec(hay@, needle@),
{
    let n = chars_of(needle);
    contains_chars(hay, &n)
}

/// The message shown when the chat-completions API answers with a failure
/// status; a 400 whose detail speaks of the context limit gets its own advice.
pub fn map_chat_completions_error(status: u16, detail: Option<String>) -> (r: String)
    ensures
        r@ == chat_error_spec(status, opt_view(detail)),
{
    if status == 400 {
        if let Some(d) = &detail {
            let lower = ascii_lowercase_chars(&chars_of(d.as_str()));
            if contains_lit(&lower, "context length") || contains_lit(&lower, "too many tokens")
                || contains_lit(&lower, "maximum context") || contains_lit(&lower, "token limit") {
                return prefixed(
                    "The transcript may be too long for the selected model. Try a shorter transcript or a model with a larger context window. Details: ",
                    d.as_str(),
                );
            }
        }
    }
    let base = if status == 401 || status == 403 {
        "Authentication failed. Check that your API key is valid for the configured provider.".to_owned()
    } else if status == 404 {
        "The chat completions API endpoint was not found. Verify your API base URL.".to_owned()
    } else if status == 429 {
        "The API rate limit has been reached. Please wait and try again.".to_owned()
    } else if status == 400 {
        status_message("The post-processing API request was rejected (HTTP ", status, ").")
    } else if 500 <= status && status < 600 {
        status_message(
            "The post-processing API returned a server error (HTTP ",
            status,
            "). Please try again soon.",
        )
    } else {
        status_message("The post-processing API request failed with HTTP ", status, ".")
    };
    add_detail(base, detail)
}

/// The transcript built from the API's `text` field (as the app decoded it).
pub fn api_transcript_result(text: &str, model_name: &str) -> (r: TranscriptResult)
    ensures
        r.text@ == trim_spec(text@),
        r.segments@.len() == 0,
        r.source.provider@ == PROVIDER_ID@,
        r.source.model_id@ == model_name@,
        r.source.input_type == InputType::File,
        r.source.live_capture_profile is None,
        r.source.source_name is None,
        r.source.duration_ms is None,
        r.post_processed_text is None,
{
    TranscriptResult {
        text: trim(text),
        segments: Vec::new(),
        source: TranscriptionSource {
            provider: PROVIDER_ID.to_owned(),
            model_id: model_name.to_owned(),
            input_type: InputType::File,
            live_capture_profile: None,
            source_name: None,
            duration_ms: None,
        },
        post_processed_text: None,
    }
}

/// The post-processed text: the first choice's content, trimmed, or empty.
pub fn chat_completion_text(first_choice_content: Option<String>) -> (r: String)
    ensures
        r@ == match first_choice_content {
            Some(c) => trim_spec(c@),
            None => Seq::<char>::empty(),
        },
{
    match first_choice_content {
        Some(c) => trim(c.as_str()),
        None => String::new(),
    }
}

/// Whether `ensure_supported_audio_file_format` accepts `path`.
pub open spec fn supported_path(path: Seq<char>) -> bool {
    normalized_extension_spec(path) matches Some(e) && is_supported_extension(e)
}

/// What the transcription request check answers: the message of the first
/// failed check, else the trimmed model name.
pub open spec fn transcription_preflight_spec(
    path: Seq<char>,
    model_name: Seq<char>,
    api_key: Seq<char>,
    base_url: Seq<char>,
) -> Result<Seq<char>, Seq<char>> {
    match credentials_check(api_key, base_url) {
        Some(m) => Err(m),
        None => if !supported_path(path) {
            Err(unsupported_format_message(path))
        } else if trim_spec(model_name).len() == 0 {
            Err("API model is required."@)
        } else {
            Ok(trim_spec(model_name))
        },
    }
}

/// The checks made before a file is uploaded for transcription: credentials,
/// file format, then a non-blank model name, which comes back trimmed.
pub fn transcription_preflight(file_path: &str, model_name: &str, credentials: &ApiCredentials) -> (r:
    Result<String, TranscriptionError>)
    ensures
        r matches Ok(m) ==> transcription_preflight_spec(
            file_path@,
            model_name@,
            credentials.api_key@,
            credentials.base_url@,
        ) == Ok::<Seq<char>, Seq<char>>(m@),
        r matches Err(e) ==> (e matches TranscriptionError::ApiRequest(m)
            && transcription_preflight_spec(
            file_path@,
            model_name@,
            credentials.api_key@,
            credentials.base_url@,
        ) == Err::<Seq<char>, Seq<char>>(m@)),
{
    match credentials.validate() {
        Err(m) => return Err(TranscriptionError::ApiRequest(m.to_owned())),
        Ok(()) => {},
    }
    match ensure_supported_audio_file_format(file_path) {
        Err(e) => return Err(e),
        Ok(()) => {},
    }
    let model = trim(model_name);
    if model.as_str().unicode_len() == 0 {
        return Err(TranscriptionError::ApiRequest("API model is required.".to_owned()));
    }
    Ok(model)
}

/// What the chat request check answers.
pub open spec fn chat_preflight_spec(
    message_count: nat,
    model: Seq<char>,
    api_key: Seq<char>,
    base_url: Seq<char>,
) -> Result<Seq<char>, Seq<char>> {
    match credentials_check(api_key, base_url) {
        Some(m) => Err(m),
        None => if trim_spec(model).len() == 0 {
            Err("Post-processing model is required."@)
        } else if message_count == 0 {
            Err("At least one chat message is required."@)
        } else {
            Ok(trim_spec(model))
        },
    }
}

/// The checks made before a chat-completions request: credentials, a
/// non-blank model (returned trimmed), then at least one message.
pub fn chat_preflight(message_count: usize, model: &str, credentials: &ApiCredentials) -> (r: Result<
    String,
    TranscriptionError,
>)
    ensures
        r matches Ok(m) ==> chat_preflight_spec(
            message_count as nat,
            model@,
            credentials.api_key@,
            credentials.base_url@,
        ) == Ok::<Seq<char>, Seq<char>>(m@),
        r matches Err(e) ==> (e matches TranscriptionError::ApiRequest(m) && chat_preflight_spec(
            message_count as nat,
            model@,
            credentials.api_key@,
            credentials.base_url@,
        ) == Err::<Seq<char>, Seq<char>>(m@)),
{
    match credentials.validate() {
        Err(m) => return Err(TranscriptionError::ApiRequest(m.to_owned())),
        Ok(()) => {},
    }
    let m = trim(model);
    if m.as_str().unicode_len() == 0 {
        return Err(TranscriptionError::ApiRequest("Post-processing model is required.".to_owned()));
    }
    if message_count == 0 {
        return Err(
            TranscriptionError::ApiRequest("At least one chat message is required.".to_owned()),
        );
    }
    Ok(m)
}

/// The upload file name: the path's file name, or `audio`.
pub fn upload_file_name(file_path: &str) -> (r: String)
    ensures
        r@ == match path_file_name_spec(file_path@) {
            Some(n) => n,
            None => "audio"@,
        },
{
    match path_file_name(file_path) {
        Some(n) => n,
        None => "audio".to_owned(),
    }
}

} // verus!
