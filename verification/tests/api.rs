use transcribe_kit::api::{
    api_transcript_result, chat_completion_text, chat_completions_endpoint, chat_preflight,
    ensure_supported_audio_file_format, infer_audio_mime_type, is_api_supported_audio_file,
    map_chat_completions_error, map_http_error, network_error_message, resolve_effective_model_name,
    select_api_error_message, transcription_endpoint, transcription_preflight, upload_file_name,
    ApiCredentials,
};
use transcribe_kit::errors::TranscriptionError;

fn detail(text: &str) -> Option<String> {
    Some(text.to_string())
}

fn creds(key: &str, base: &str) -> ApiCredentials {
    ApiCredentials { api_key: key.to_string(), base_url: base.to_string() }
}

#[test]
fn resolve_effective_model_name_returns_selected_id_when_not_custom() {
    let resolved = resolve_effective_model_name("gpt-4o-mini-transcribe", "").expect("resolved model");
    assert_eq!(resolved, "gpt-4o-mini-transcribe");
}

#[test]
fn resolve_effective_model_name_uses_custom_name() {
    let resolved = resolve_effective_model_name("custom", " custom-model-v1 ").expect("resolved model");
    assert_eq!(resolved, "custom-model-v1");
}

#[test]
fn resolve_effective_model_name_rejects_empty_custom_name() {
    let error = resolve_effective_model_name("custom", "   ").expect_err("empty custom name");
    assert_eq!(error, "Enter a model name for the custom API option.");
}

#[test]
fn resolve_effective_model_name_rejects_empty_model_id() {
    let error = resolve_effective_model_name("   ", "ignored").expect_err("empty model id");
    assert_eq!(error, "API model is required.");
}

#[test]
fn infer_audio_mime_type_matches_supported_extensions() {
    assert_eq!(infer_audio_mime_type("note.wav"), "audio/wav");
    assert_eq!(infer_audio_mime_type("note.mp3"), "audio/mpeg");
    assert_eq!(infer_audio_mime_type("note.m4a"), "audio/mp4");
    assert_eq!(infer_audio_mime_type("note.unknown"), "application/octet-stream");
}

#[test]
fn supported_audio_format_checks_accept_and_reject_expected_extensions() {
    assert!(is_api_supported_audio_file("clip.wav"));
    assert!(is_api_supported_audio_file("clip.mp3"));
    assert!(is_api_supported_audio_file("clip.m4a"));
    assert!(is_api_supported_audio_file("clip.mp4"));
    assert!(is_api_supported_audio_file("clip.webm"));
    assert!(!is_api_supported_audio_file("clip.flac"));
    assert!(!is_api_supported_audio_file("clip.ogg"));

    let error = ensure_supported_audio_file_format("clip.ogg")
        .expect_err("unsupported extension should fail")
        .to_string();
    assert!(error.contains("not supported"));
    assert!(error.contains(".ogg"));
}

#[test]
fn map_http_error_uses_clear_messages_for_common_status_codes() {
    // `{"error":{"message":"invalid key"}}` carries the detail `invalid key`.
    let unauthorized = map_http_error(401, detail("invalid key"));
    assert!(unauthorized.contains("API key"));
    assert!(unauthorized.contains("invalid key"));

    let forbidden = map_http_error(403, None);
    assert!(forbidden.contains("Authentication failed"));

    let payload_too_large = map_http_error(413, None);
    assert!(payload_too_large.contains("too large"));

    let not_found = map_http_error(404, None);
    assert!(not_found.contains("endpoint was not found"));

    let rate_limited = map_http_error(429, None);
    assert!(rate_limited.contains("rate limit"));

    let server_error = map_http_error(500, None);
    assert!(server_error.contains("server error"));
}

#[test]
fn map_http_error_formats_other_statuses_with_their_code() {
    assert_eq!(
        map_http_error(418, None),
        "The transcription API request failed with HTTP 418."
    );
    assert_eq!(
        map_http_error(503, detail("down")),
        "The transcription API returned a server error (HTTP 503). Please try again soon. Details: down"
    );
}

#[test]
fn network_error_messages_are_user_friendly() {
    let timeout = network_error_message(true, false, "timeout");
    assert!(timeout.contains("timed out"));

    let connect = network_error_message(false, true, "connect");
    assert!(connect.contains("could not connect"));

    let generic = network_error_message(false, false, "io error");
    assert!(generic.contains("Network error"));
    assert_eq!(generic, "Network error while calling the transcription API: io error");
}

#[test]
fn api_credentials_rejects_empty_key() {
    let creds = creds("   ", "https://api.openai.com/v1");
    assert_eq!(creds.validate(), Err("API key is required."));
}

#[test]
fn api_credentials_rejects_invalid_base_url_scheme() {
    let creds = creds("sk-test", "ftp://api.openai.com/v1");
    assert_eq!(creds.validate(), Err("Base URL must start with http:// or https://"));
}

#[test]
fn api_credentials_accepts_valid_configuration() {
    let https = creds("sk-test-key", "https://api.openai.com/v1");
    assert_eq!(https.validate(), Ok(()));

    let http = creds("key", "http://localhost:8080");
    assert_eq!(http.validate(), Ok(()));
}

#[test]
fn transcription_endpoint_appends_path_to_base_url() {
    assert_eq!(
        transcription_endpoint("https://api.openai.com/v1"),
        "https://api.openai.com/v1/audio/transcriptions"
    );
}

#[test]
fn transcription_endpoint_trims_trailing_slash() {
    assert_eq!(
        transcription_endpoint("https://api.openai.com/v1/"),
        "https://api.openai.com/v1/audio/transcriptions"
    );
}

#[test]
fn transcription_endpoint_works_with_custom_base_url() {
    assert_eq!(
        transcription_endpoint("http://localhost:8080/v1"),
        "http://localhost:8080/v1/audio/transcriptions"
    );
}

#[test]
fn extract_api_error_message_extracts_nested_error_message() {
    // `{"error":{"message":"Invalid API key provided"}}`
    assert_eq!(
        select_api_error_message(detail("Invalid API key provided"), None),
        Some("Invalid API key provided".to_string())
    );
}

#[test]
fn extract_api_error_message_falls_back_to_top_level_message() {
    // `{"message":"Rate limit exceeded"}`
    assert_eq!(
        select_api_error_message(None, detail("Rate limit exceeded")),
        Some("Rate limit exceeded".to_string())
    );
}

#[test]
fn extract_api_error_message_returns_none_for_empty_message_fields() {
    assert_eq!(select_api_error_message(detail(""), None), None);
    assert_eq!(select_api_error_message(None, detail("  ")), None);
}

#[test]
fn select_api_error_message_prefers_a_nested_message_even_when_blank() {
    assert_eq!(select_api_error_message(detail(" "), detail("top")), None);
    assert_eq!(select_api_error_message(detail(" x "), detail("top")), Some("x".to_string()));
}

#[test]
fn parse_json_response_extracts_trimmed_text() {
    // `{ "text": " transcribed text here " }`
    let transcript = api_transcript_result(" transcribed text here ", "gpt-4o-mini-transcribe");

    assert_eq!(transcript.text, "transcribed text here");
    assert!(transcript.segments.is_empty());
    assert_eq!(transcript.source.duration_ms, None);
    assert_eq!(transcript.source.model_id, "gpt-4o-mini-transcribe");
    assert_eq!(transcript.source.provider, "openai-compatible");
}

#[test]
fn parse_json_response_defaults_to_empty_text_when_field_missing() {
    let result = api_transcript_result("", "model");
    assert_eq!(result.text, "");
}

#[test]
fn is_api_supported_audio_file_handles_uppercase_extensions() {
    assert!(is_api_supported_audio_file("clip.WAV"));
    assert!(is_api_supported_audio_file("clip.Mp3"));
    assert!(!is_api_supported_audio_file("clip.FLAC"));
}

#[test]
fn ensure_supported_format_shows_extension_in_flac_error() {
    let error = ensure_supported_audio_file_format("recording.flac")
        .expect_err("flac should fail")
        .to_string();
    assert!(error.contains(".flac"));
    assert!(error.contains("not supported"));
}

#[test]
fn ensure_supported_format_handles_file_without_extension() {
    let error = ensure_supported_audio_file_format("noextension")
        .expect_err("no extension should fail")
        .to_string();
    assert!(error.contains("unknown file extension"));
}

#[test]
fn infer_audio_mime_type_covers_all_supported_formats() {
    assert_eq!(infer_audio_mime_type("a.wav"), "audio/wav");
    assert_eq!(infer_audio_mime_type("a.mp3"), "audio/mpeg");
    assert_eq!(infer_audio_mime_type("a.mpeg"), "audio/mpeg");
    assert_eq!(infer_audio_mime_type("a.mpga"), "audio/mpeg");
    assert_eq!(infer_audio_mime_type("a.m4a"), "audio/mp4");
    assert_eq!(infer_audio_mime_type("a.mp4"), "audio/mp4");
    assert_eq!(infer_audio_mime_type("a.webm"), "audio/webm");
    assert_eq!(infer_audio_mime_type("a.ogg"), "application/octet-stream");
}

#[test]
fn chat_completions_endpoint_appends_path() {
    assert_eq!(
        chat_completions_endpoint("https://api.openai.com/v1"),
        "https://api.openai.com/v1/chat/completions"
    );
}

#[test]
fn chat_completions_endpoint_trims_trailing_slash() {
    assert_eq!(
        chat_completions_endpoint("https://api.openai.com/v1/"),
        "https://api.openai.com/v1/chat/completions"
    );
}

#[test]
fn chat_completions_endpoint_works_with_localhost() {
    assert_eq!(
        chat_completions_endpoint("http://localhost:11434/v1"),
        "http://localhost:11434/v1/chat/completions"
    );
}

#[test]
fn parse_chat_completions_response_extracts_content() {
    let result = chat_completion_text(detail("  Here are the meeting notes.  "));
    assert_eq!(result, "Here are the meeting notes.");
}

#[test]
fn parse_chat_completions_response_handles_empty_choices() {
    assert_eq!(chat_completion_text(None), "");
}

#[test]
fn map_chat_completions_error_detects_context_length() {
    let error = map_chat_completions_error(
        400,
        detail("This model's maximum context length is 128000 tokens"),
    );
    assert!(error.contains("transcript may be too long"));
    assert!(error.contains("128000"));
}

#[test]
fn map_chat_completions_error_detects_too_many_tokens() {
    let error = map_chat_completions_error(400, detail("Too many tokens in the request"));
    assert!(error.contains("transcript may be too long"));
}

#[test]
fn map_chat_completions_error_generic_bad_request() {
    let error = map_chat_completions_error(400, detail("Invalid request format"));
    assert!(error.contains("rejected"));
    assert!(error.contains("Invalid request format"));
}

#[test]
fn map_chat_completions_error_auth_failure() {
    let error = map_chat_completions_error(401, detail("Incorrect API key"));
    assert!(error.contains("API key"));
    assert!(error.contains("Incorrect API key"));
}

#[test]
fn map_chat_completions_error_not_found() {
    let error = map_chat_completions_error(404, None);
    assert!(error.contains("chat completions"));
    assert!(error.contains("not found"));
}

#[test]
fn map_chat_completions_error_rate_limit() {
    let error = map_chat_completions_error(429, None);
    assert!(error.contains("rate limit"));
}

#[test]
fn map_chat_completions_error_server_error() {
    let error = map_chat_completions_error(500, None);
    assert!(error.contains("server error"));
    assert!(error.contains("500"));
}

#[test]
fn post_process_chat_rejects_empty_model() {
    let error = chat_preflight(1, "   ", &creds("sk-test", "https://api.openai.com/v1"))
        .expect_err("empty model should fail");
    assert!(error.to_string().contains("model is required"));
}

#[test]
fn post_process_chat_rejects_empty_api_key() {
    let error = chat_preflight(1, "gpt-4o-mini", &creds("   ", "https://api.openai.com/v1"))
        .expect_err("empty key should fail");
    assert!(error.to_string().contains("API key"));
}

#[test]
fn post_process_chat_rejects_invalid_base_url() {
    let error = chat_preflight(1, "gpt-4o-mini", &creds("sk-test", "ftp://invalid"))
        .expect_err("invalid url should fail");
    assert!(error.to_string().contains("http"));
}

#[test]
fn chat_preflight_returns_the_trimmed_model() {
    let model = chat_preflight(1, " gpt-4o-mini ", &creds("sk", "https://api.openai.com/v1/"))
        .expect("valid request");
    assert_eq!(model, "gpt-4o-mini");
    let error = chat_preflight(0, "gpt-4o-mini", &creds("sk", "https://api.openai.com/v1"))
        .expect_err("no messages");
    assert!(error.to_string().contains("At least one chat message is required."));
}

#[test]
fn transcription_preflight_checks_credentials_then_the_file() {
    let error = transcription_preflight("clip.flac", "whisper-1", &creds("", "https://x"))
        .expect_err("blank key should fail");
    assert!(error.to_string().contains("API key is required."));
    let error = transcription_preflight("clip.flac", "whisper-1", &creds("sk", "https://x"))
        .expect_err("flac should fail");
    assert!(matches!(error, TranscriptionError::ApiRequest(_)));
    assert!(error.to_string().contains(".flac"));
}

#[test]
fn upload_file_name_uses_the_file_name_or_audio() {
    assert_eq!(upload_file_name("/tmp/x/sample.wav"), "sample.wav");
    assert_eq!(upload_file_name("/"), "audio");
}
