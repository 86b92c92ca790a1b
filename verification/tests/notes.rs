use transcribe_kit::errors::SettingsError;
use transcribe_kit::models::{Note, NoteSource, NoteSummary};
use transcribe_kit::notes::{
    epoch_days_to_date, format_iso_timestamp, generate_note_id, is_note_file, iso_now, note_id_from,
    sort_newest_first, summaries_newest_first, NoteStore,
};

fn sample_note(id: &str, title: &str, updated_at: &str) -> Note {
    Note {
        id: id.to_string(),
        title: title.to_string(),
        content: "Some content".to_string(),
        created_at: "2026-01-01T00:00:00Z".to_string(),
        updated_at: updated_at.to_string(),
        source: NoteSource::Manual,
    }
}

fn store() -> NoteStore {
    NoteStore::with_dir("/tmp/transcribe-kit-tests/notes".to_string())
}

#[test]
fn iso_now_produces_valid_format() {
    let ts = iso_now();
    assert_eq!(ts.len(), 20);
    assert_eq!(&ts[4..5], "-");
    assert_eq!(&ts[7..8], "-");
    assert_eq!(&ts[10..11], "T");
    assert_eq!(&ts[13..14], ":");
    assert_eq!(&ts[16..17], ":");
    assert_eq!(&ts[19..20], "Z");
}

#[test]
fn format_iso_timestamp_matches_known_instants() {
    assert_eq!(format_iso_timestamp(0), "1970-01-01T00:00:00Z");
    assert_eq!(format_iso_timestamp(951_782_400), "2000-02-29T00:00:00Z");
    assert_eq!(format_iso_timestamp(1_775_917_800), "2026-04-11T14:30:00Z");
    assert_eq!(format_iso_timestamp(4_107_542_399), "2100-02-28T23:59:59Z");
}

#[test]
fn epoch_days_to_date_handles_dates_before_the_epoch() {
    assert_eq!(epoch_days_to_date(0), (1970, 1, 1));
    assert_eq!(epoch_days_to_date(-1), (1969, 12, 31));
    assert_eq!(epoch_days_to_date(-719_468), (0, 3, 1));
    assert_eq!(epoch_days_to_date(11_016), (2000, 2, 29));
    assert_eq!(epoch_days_to_date(11_017), (2000, 3, 1));
}

#[test]
fn to_summary_drops_content() {
    let note = sample_note("note-1", "Title", "2026-01-01T00:00:00Z");
    let summary = note.to_summary();

    assert_eq!(summary.id, note.id);
    assert_eq!(summary.title, note.title);
    assert_eq!(summary.created_at, note.created_at);
    assert_eq!(summary.updated_at, note.updated_at);
}

#[test]
fn generate_note_id_is_unique() {
    let id1 = generate_note_id().expect("random source");
    let id2 = generate_note_id().expect("random source");
    assert_ne!(id1, id2);
    assert!(id1.starts_with("note-"));
    assert_eq!(id1.len(), 41);
}

#[test]
fn list_returns_summaries_sorted_by_updated_at() {
    let notes = vec![
        sample_note("old", "Old", "2026-01-01T00:00:00Z"),
        sample_note("new", "New", "2026-03-01T00:00:00Z"),
        sample_note("mid", "Mid", "2026-02-01T00:00:00Z"),
    ];

    let summaries = summaries_newest_first(notes);

    assert_eq!(summaries.len(), 3);
    assert_eq!(summaries[0].id, "new");
    assert_eq!(summaries[1].id, "mid");
    assert_eq!(summaries[2].id, "old");
}

#[test]
fn list_returns_empty_when_dir_missing() {
    assert!(summaries_newest_first(Vec::new()).is_empty());
}

#[test]
fn sort_newest_first_keeps_every_summary() {
    let summary = |id: &str, at: &str| NoteSummary {
        id: id.to_string(),
        title: id.to_uppercase(),
        created_at: at.to_string(),
        updated_at: at.to_string(),
        source: NoteSource::Transcription,
    };
    let sorted = sort_newest_first(vec![
        summary("b", "2026-01-02T00:00:00Z"),
        summary("a", "2026-01-03T00:00:00Z"),
        summary("c", "2026-01-02T00:00:00Z"),
        summary("d", "2025-12-31T23:59:59Z"),
    ]);
    let ids: Vec<&str> = sorted.iter().map(|s| s.id.as_str()).collect();
    assert_eq!(ids[0], "a");
    assert_eq!(ids[3], "d");
    assert!(ids.contains(&"b") && ids.contains(&"c"));
}

#[test]
fn sort_newest_first_keeps_arrival_order_of_equal_timestamps() {
    let summary = |id: &str, at: &str| NoteSummary {
        id: id.to_string(),
        title: id.to_string(),
        created_at: at.to_string(),
        updated_at: at.to_string(),
        source: NoteSource::Manual,
    };
    let sorted = sort_newest_first(vec![
        summary("first", "2026-01-02T00:00:00Z"),
        summary("older", "2026-01-01T00:00:00Z"),
        summary("second", "2026-01-02T00:00:00Z"),
        summary("third", "2026-01-02T00:00:00Z"),
    ]);
    let ids: Vec<&str> = sorted.iter().map(|s| s.id.as_str()).collect();
    assert_eq!(ids, vec!["first", "second", "third", "older"]);
}

#[test]
fn get_rejects_path_traversal() {
    let store = store();
    assert!(store.get_path("../etc/passwd").is_none());
    assert!(store.get_path("foo/bar").is_none());
    assert!(store.get_path("foo\\bar").is_none());
}

#[test]
fn delete_rejects_path_traversal() {
    let store = store();
    assert!(store.delete_path("../etc/passwd").is_err());
    assert!(store.delete_path("foo/bar").is_err());
    assert!(store.delete_path("foo\\bar").is_err());
}

#[test]
fn save_rejects_path_traversal_with_a_validation_error() {
    let note = sample_note("../escape", "Bad", "2026-01-01T00:00:00Z");
    match store().save_path(&note) {
        Err(SettingsError::Validation(message)) => {
            assert_eq!(message, "Invalid note ID: must not contain path separators or '..'")
        }
        other => panic!("expected a validation error, got {other:?}"),
    }
}

#[test]
fn note_files_are_json_files_in_the_notes_dir() {
    let store = store();
    assert_eq!(
        store.get_path("note-1").as_deref(),
        Some("/tmp/transcribe-kit-tests/notes/note-1.json")
    );
    assert_eq!(
        store.delete_path("note-2").ok().as_deref(),
        Some("/tmp/transcribe-kit-tests/notes/note-2.json")
    );
    assert!(is_note_file("/tmp/notes/note-1.json"));
    assert!(!is_note_file("/tmp/notes/readme.txt"));
    let from_config = NoteStore::from_config_dir(Some("/tmp/cfg".to_string())).expect("store");
    assert_eq!(from_config.notes_dir(), "/tmp/cfg/notes");
    assert!(matches!(NoteStore::from_config_dir(None), Err(SettingsError::MissingConfigDir)));
}

#[test]
fn generated_note_ids_are_accepted_by_the_store() {
    let id = generate_note_id().expect("random source");
    assert!(id[5..].chars().all(|c| c.is_ascii_hexdigit() || c == '-'));
    assert!(id[5..].chars().all(|c| !c.is_ascii_uppercase()));
    let note = sample_note(&id, "Fresh", "2026-01-01T00:00:00Z");
    let path = store().save_path(&note).expect("generated ids are safe");
    assert_eq!(store().get_path(&id), Some(path.clone()));
    assert_eq!(store().delete_path(&id).expect("safe"), path);
}

#[test]
fn every_formatted_date_is_a_calendar_date() {
    for days in [-1_000_000i64, -1, 0, 59, 365, 10_956, 11_016, 47_541, 2_932_896] {
        let (y, m, d) = epoch_days_to_date(days);
        let leap = y % 4 == 0 && (y % 100 != 0 || y % 400 == 0);
        let len = match m {
            2 => if leap { 29 } else { 28 },
            4 | 6 | 9 | 11 => 30,
            _ => 31,
        };
        assert!((1..=12).contains(&m) && d >= 1 && d <= len, "{days}: {y}-{m}-{d}");
    }
    assert_eq!(epoch_days_to_date(11_016), (2000, 2, 29));
    assert_eq!(epoch_days_to_date(11_017), (2000, 3, 1));
    assert_eq!(epoch_days_to_date(47_540), (2100, 2, 28));
    assert_eq!(epoch_days_to_date(47_541), (2100, 3, 1));
}

#[test]
fn note_ids_are_built_from_time_and_random_bytes() {
    let id = note_id_from(0x0123_4567_89ab, &vec![0u8; 10]);
    assert_eq!(id, "note-01234567-89ab-7000-8000-000000000000");
    let later = note_id_from(0x0123_4567_89ac, &vec![0u8; 10]);
    assert!(later > id);
}

#[test]
fn timestamp_texts_sort_as_their_times() {
    let times = [0u64, 59, 60, 3_599, 86_399, 86_400, 951_782_400, 1_700_000_000, 253_402_300_799];
    for pair in times.windows(2) {
        let earlier = format_iso_timestamp(pair[0]);
        let later = format_iso_timestamp(pair[1]);
        assert!(earlier < later, "{earlier} !< {later}");
    }
    assert_eq!(format_iso_timestamp(253_402_300_799), "9999-12-31T23:59:59Z");
}

#[test]
fn note_ids_order_by_their_sub_millisecond_fraction() {
    let mut early = vec![0u8; 10];
    early[0] = 0x01;
    early[1] = 0x00;
    early[9] = 0xFF;
    let mut late = vec![0u8; 10];
    late[0] = 0x01;
    late[1] = 0x01;
    assert!(note_id_from(1_000, &early) < note_id_from(1_000, &late));
}

#[test]
fn delete_is_idempotent() {
    let store = store();
    let first = store.delete_plan("nonexistent-id", true).expect("safe id");
    assert!(first.expect("file to remove").ends_with("nonexistent-id.json"));
    assert_eq!(store.delete_plan("nonexistent-id", false).expect("safe id"), None);
    assert_eq!(store.delete_plan("nonexistent-id", false).expect("safe id"), None);
    assert!(store.delete_plan("../x", false).is_err());
    assert!(transcribe_kit::notes::finish_delete(Ok(())).is_ok());
    assert!(matches!(
        transcribe_kit::notes::finish_delete(Err("busy".to_string())),
        Err(SettingsError::WriteFile(m)) if m == "busy"
    ));
}
