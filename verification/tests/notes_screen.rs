use transcribe_kit::models::{Note, NoteSource, NoteSummary};
use transcribe_kit::notes_screen::{source_filter_from_value, NoteSaveRequest, NotesScreenState};

fn summary(id: &str, title: &str, source: NoteSource) -> NoteSummary {
    NoteSummary {
        id: id.to_string(),
        title: title.to_string(),
        created_at: "2026-01-01T00:00:00Z".to_string(),
        updated_at: "2026-01-02T00:00:00Z".to_string(),
        source,
    }
}

fn note(id: &str, title: &str, content: &str) -> Note {
    Note {
        id: id.to_string(),
        title: title.to_string(),
        content: content.to_string(),
        created_at: "2026-01-01T00:00:00Z".to_string(),
        updated_at: "2026-01-02T00:00:00Z".to_string(),
        source: NoteSource::Manual,
    }
}

#[test]
fn search_and_filter_narrow_the_list() {
    let mut screen = NotesScreenState::new();
    screen.notes_loaded(Ok(vec![
        summary("a", "Weekly Sync", NoteSource::Transcription),
        summary("b", "Shopping list", NoteSource::Manual),
        summary("c", "Sync summary", NoteSource::PostProcessing),
    ]));
    assert_eq!(screen.filtered_notes().len(), 3);
    screen.search_query = "SYNC".to_string();
    let ids: Vec<String> = screen.filtered_notes().into_iter().map(|n| n.id).collect();
    assert_eq!(ids, vec!["a".to_string(), "c".to_string()]);
    screen.source_filter = source_filter_from_value("post-processing");
    let ids: Vec<String> = screen.filtered_notes().into_iter().map(|n| n.id).collect();
    assert_eq!(ids, vec!["c".to_string()]);
    assert_eq!(source_filter_from_value(""), None);
    assert_eq!(source_filter_from_value("manual"), Some(NoteSource::Manual));
    screen.notes_loaded(Err("unreadable".to_string()));
    assert!(screen.notes.is_empty());
}

#[test]
fn selecting_reads_the_note_into_the_editor() {
    let mut screen = NotesScreenState::new();
    assert_eq!(screen.selection_changed(), None);
    screen.select("a".to_string());
    assert!(screen.is_selected("a"));
    assert_eq!(screen.selection_changed().as_deref(), Some("a"));
    screen.note_loaded(Ok(Some(note("a", "Title", "Body"))));
    assert_eq!(screen.editing_title, "Title");
    assert_eq!(screen.editing_content, "Body");
    assert_eq!(screen.delete_request().as_deref(), Some("a"));
    screen.editing_content = "Edited".to_string();
    assert_eq!(
        screen.save_request(),
        Some(NoteSaveRequest::Update {
            id: "a".to_string(),
            title: "Title".to_string(),
            content: "Edited".to_string()
        })
    );
    screen.note_loaded(Err("gone".to_string()));
    assert_eq!(screen.selected_note, None);
    assert_eq!(screen.editing_title, "");
}

#[test]
fn creating_and_deleting_notes() {
    let mut screen = NotesScreenState::new();
    screen.new_note();
    assert_eq!(screen.selection_changed(), None);
    screen.editing_title = "New".to_string();
    assert_eq!(
        screen.save_request(),
        Some(NoteSaveRequest::Create { title: "New".to_string(), content: String::new() })
    );
    screen.note_saved(Err("disk".to_string()));
    assert!(screen.is_new_note);
    screen.note_saved(Ok(note("note-1", "New", "")));
    assert!(!screen.is_new_note);
    assert_eq!(screen.selected_note_id.as_deref(), Some("note-1"));
    assert_eq!(screen.refresh_nonce, 1);
    screen.note_loaded(Ok(Some(note("note-1", "New", ""))));
    screen.note_deleted(false);
    assert_eq!(screen.selected_note_id.as_deref(), Some("note-1"));
    screen.note_deleted(true);
    assert_eq!(screen.selected_note_id, None);
    assert_eq!(screen.selected_note, None);
    assert_eq!(screen.refresh_nonce, 2);
    assert_eq!(screen.save_request(), None);
}
