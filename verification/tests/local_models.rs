use transcribe_kit::errors::TranscriptionError;
use transcribe_kit::local_llm::{
    display_label, expected_model_path, expected_model_path_in, is_known_model_id, llm_model_ids,
    model_entry, model_status, model_status_in, resolve_model_path, size_label,
};
use transcribe_kit::local_whisper;
use transcribe_kit::model_store::{plan_download, DownloadPlan, DownloadProgressTracker};

#[test]
fn known_model_ids_are_recognized() {
    for id in llm_model_ids() {
        assert!(is_known_model_id(id), "expected '{id}' to be recognized");
    }
}

#[test]
fn unknown_model_id_is_rejected() {
    assert!(!is_known_model_id("not-a-model"));
    assert!(!is_known_model_id(""));
}

#[test]
fn display_labels_are_non_empty() {
    for id in llm_model_ids() {
        let label = display_label(id);
        assert_ne!(label, "Unknown", "missing display label for '{id}'");
        assert!(!label.is_empty());
    }
}

#[test]
fn unknown_model_display_label_is_unknown() {
    assert_eq!(display_label("bogus"), "Unknown");
}

#[test]
fn size_labels_are_non_empty() {
    for id in llm_model_ids() {
        let label = size_label(id);
        assert_ne!(label, "Unknown", "missing size label for '{id}'");
        assert!(label.starts_with('~'), "size label should start with '~'");
    }
}

#[test]
fn expected_model_path_contains_llm_models_dir() {
    for id in llm_model_ids() {
        let path = expected_model_path_in(Some("/tmp/cache".to_string()), id).expect("valid path");
        assert!(path.contains("llm-models"), "path should use llm-models dir, got: {path:?}");
        assert!(path.ends_with(".gguf"), "path should end in .gguf, got: {path:?}");
    }
    if let Ok(path) = expected_model_path("llm-qwen-3.5-0.8b") {
        assert!(path.ends_with("llm-models/Qwen3.5-0.8B-Q4_K_M.gguf"));
    }
}

#[test]
fn expected_model_path_rejects_unknown_id() {
    let result = expected_model_path("not-a-model");
    assert!(result.is_err());
    match result {
        Err(TranscriptionError::ModelLoad(message)) => {
            assert_eq!(message, "No GGUF model file mapped for 'not-a-model'")
        }
        other => panic!("expected a load error, got {other:?}"),
    }
}

#[test]
fn status_for_path_reports_not_downloaded_when_file_missing() {
    for id in llm_model_ids() {
        if let Ok(status) = model_status(id, false, Some(11)) {
            assert_eq!(status.model_id, id);
            assert!(!status.downloaded);
            assert!(status.size_bytes.is_none());
        }
    }
    let status = transcribe_kit::model_store::status_for_path("llm-qwen-3.5-0.8b", false, None);
    assert!(!status.downloaded);
    assert!(status.size_bytes.is_none());
}

#[test]
fn status_for_path_reports_downloaded_with_size_when_file_present() {
    let status = transcribe_kit::model_store::status_for_path("llm-qwen-3.5-0.8b", true, Some(11));
    assert_eq!(status.model_id, "llm-qwen-3.5-0.8b");
    assert!(status.downloaded);
    assert_eq!(status.size_bytes, Some(11));
}

#[test]
fn registry_entries_all_have_gguf_filenames() {
    for id in llm_model_ids() {
        let entry = model_entry(id).expect("registry entry");
        assert!(entry.gguf_filename.ends_with(".gguf"), "filename should end with .gguf: {}", entry.gguf_filename);
    }
}

#[test]
fn registry_entries_all_have_download_urls() {
    for id in llm_model_ids() {
        let entry = model_entry(id).expect("registry entry");
        assert!(entry.download_url.starts_with("https://"), "download URL should be https: {}", entry.download_url);
    }
}

#[test]
fn llm_model_ids_array_matches_registry() {
    for id in llm_model_ids() {
        assert!(model_entry(id).is_some(), "LLM_MODEL_IDS contains '{id}' but registry has no entry");
    }
}

#[test]
fn resolve_model_path_requires_a_downloaded_file() {
    match resolve_model_path("llm-gemma-4-e2b", false) {
        Err(TranscriptionError::ModelLoad(message)) => assert!(
            message == "Model 'llm-gemma-4-e2b' is not downloaded. Please download it first."
                || message == "Could not determine cache directory"
        ),
        other => panic!("expected a load error, got {other:?}"),
    }
}

#[test]
fn whisper_registry_maps_ids_to_files_and_sizes() {
    assert_eq!(local_whisper::ggml_filename("whisper-base"), Some("ggml-base.bin"));
    assert_eq!(local_whisper::ggml_filename("whisper-huge"), None);
    assert_eq!(local_whisper::size_label("whisper-tiny"), "~75 MB");
    assert_eq!(local_whisper::size_label("nope"), "Unknown");
    assert_eq!(
        local_whisper::download_url("whisper-small"),
        Some("https://huggingface.co/bubiche/whisper.cpp/resolve/main/ggml-small.bin")
    );
    assert_eq!(
        local_whisper::expected_model_path_in(Some("/tmp/cache".to_string()), "whisper-base").ok(),
        Some("/tmp/cache/models/ggml-base.bin".to_string())
    );
}

#[test]
fn whisper_paths_fail_without_a_mapping_or_cache_dir() {
    match local_whisper::expected_model_path_in(None, "whisper-base") {
        Err(TranscriptionError::ModelLoad(m)) => assert_eq!(m, "Could not determine cache directory"),
        other => panic!("unexpected {other:?}"),
    }
    match local_whisper::resolve_model_path("whisper-xl", true) {
        Err(TranscriptionError::ModelLoad(m)) => assert_eq!(m, "No GGML model file mapped for 'whisper-xl'"),
        other => panic!("unexpected {other:?}"),
    }
}

#[test]
fn whisper_segments_become_a_file_transcript() {
    let result = local_whisper::transcript_from_segments(
        "whisper-base",
        vec![(0, 120, " Hello".to_string()), (120, 250, " world ".to_string())],
    );
    assert_eq!(result.text, "Hello world");
    assert_eq!(result.segments.len(), 2);
    assert_eq!(result.segments[1].start_ms, 1_200);
    assert_eq!(result.segments[1].end_ms, 2_500);
    assert_eq!(result.source.provider, "whisper");
    let mut acc = String::from(" a");
    assert_eq!(local_whisper::accumulate_segment_text(&mut acc, " b "), "a b");
    assert_eq!(acc, " a b ");
}

#[test]
fn download_plan_uses_the_partial_file_then_renames() {
    let plan = plan_download(
        Ok("/tmp/cache/models/ggml-base.bin".to_string()),
        "whisper-base",
        Some("https://example.com/ggml-base.bin"),
        false,
        "bin.download",
    )
    .expect("plan");
    assert_eq!(
        plan,
        DownloadPlan::Fetch {
            url: "https://example.com/ggml-base.bin".to_string(),
            path: "/tmp/cache/models/ggml-base.bin".to_string(),
            temp_path: "/tmp/cache/models/ggml-base.bin.download".to_string(),
        }
    );
    let present = plan_download(Ok("/x.bin".to_string()), "m", None, true, "bin.download");
    assert_eq!(present.ok(), Some(DownloadPlan::Present("/x.bin".to_string())));
    match plan_download(Ok("/x.bin".to_string()), "m", None, false, "bin.download") {
        Err(TranscriptionError::Download(m)) => assert_eq!(m, "No download URL for model 'm'"),
        other => panic!("unexpected {other:?}"),
    }
}

#[test]
fn download_progress_is_reported_every_step_and_at_the_total() {
    let mut tracker = DownloadProgressTracker::new("whisper-base", Some(600_000));
    assert!(tracker.record_chunk(100_000).is_none());
    let update = tracker.record_chunk(200_000).expect("past a step");
    assert_eq!(update.downloaded_bytes, 300_000);
    assert!(!update.done);
    assert!(tracker.record_chunk(200_000).is_none());
    let last = tracker.record_chunk(100_000).expect("the total");
    assert_eq!(last.downloaded_bytes, 600_000);
    let finished = tracker.finished();
    assert!(finished.done);
    assert_eq!(finished.total_bytes, Some(600_000));
}

#[test]
fn model_status_in_a_cache_dir_reports_the_file() {
    let id = llm_model_ids()[0];
    let status = model_status_in(Some("/tmp/cache".to_string()), id, true, Some(11)).expect("known model");
    assert!(status.downloaded);
    assert_eq!(status.size_bytes, Some(11));
    let missing = model_status_in(Some("/tmp/cache".to_string()), id, false, Some(11)).expect("known model");
    assert!(!missing.downloaded);
    assert_eq!(missing.size_bytes, None);
    assert!(matches!(
        model_status_in(Some("/tmp/cache".to_string()), "nope", true, None),
        Err(TranscriptionError::ModelLoad(_))
    ));
    assert!(model_status_in(None, id, true, None).is_err());
    let whisper = local_whisper::model_status_in(Some("/tmp/cache".to_string()), "whisper-base", true, Some(7))
        .expect("known model");
    assert_eq!(whisper.size_bytes, Some(7));
}
