//! The notes screen: the list (searched and filtered), the selected note,
//! the editor, and what creating, saving and deleting a note do to them.
//! Reading and writing notes belongs to the app, which hands the answers
//! back here.
use vstd::prelude::*;

use crate::models::{Note, NoteSource, NoteSummary};
use crate::text::{contains_spec, contains_str, str_eq, to_lowercase, unicode_lowercase};

verus! {

/// A listed note matches the lowercased search text (an empty one matches
/// every title) and the source filter.
pub open spec fn note_matches(n: NoteSummary, query: Seq<char>, filter: Option<NoteSource>) -> bool {
    (query.len() == 0 || contains_spec(unicode_lowercase(n.title@), query)) && match filter {
        Some(f) => n.source == f,
        None => true,
    }
}

/// The notes that match, in list order.
pub open spec fn matching_notes(notes: Seq<NoteSummary>, query: Seq<char>, filter: Option<NoteSource>) -> Seq<
    NoteSummary,
>
    decreases notes.len(),
{
    if notes.len() == 0 {
        notes
    } else {
        let kept = matching_notes(notes.drop_last(), query, filter);
        if note_matches(notes.last(), query, filter) {
            kept.push(notes.last())
        } else {
            kept
        }
    }
}

/// What filtering keeps: every kept note comes from the list, its
/// lower-cased title contains the query when there is one (whatever the
/// source filter), and it has the filter's source when one is set; and
/// every note of the list meeting both is kept.
pub proof fn law_filtered_notes_match_query_and_source(
    notes: Seq<NoteSummary>,
    query: Seq<char>,
    filter: Option<NoteSource>,
)
    ensures
        forall|i: int|
            0 <= i < matching_notes(notes, query, filter).len() ==> {
                let m = #[trigger] matching_notes(notes, query, filter)[i];
                &&& notes.contains(m)
                &&& query.len() > 0 ==> contains_spec(unicode_lowercase(m.title@), query)
                &&& filter matches Some(f) ==> m.source == f
            },
        forall|j: int|
            0 <= j < notes.len() && (query.len() == 0 || contains_spec(
                unicode_lowercase((#[trigger] notes[j]).title@),
                query,
            )) && (filter matches Some(f) ==> notes[j].source == f) ==> matching_notes(
                notes,
                query,
                filter,
            ).contains(notes[j]),
    decreases notes.len(),
{
    if notes.len() > 0 {
        let rest = notes.drop_last();
        law_filtered_notes_match_query_and_source(rest, query, filter);
        let kept = matching_notes(rest, query, filter);
        let r = matching_notes(notes, query, filter);
        assert forall|i: int| 0 <= i < r.len() implies {
            let m = #[trigger] r[i];
            &&& notes.contains(m)
            &&& query.len() > 0 ==> contains_spec(unicode_lowercase(m.title@), query)
            &&& filter matches Some(f) ==> m.source == f
        } by {
            if i < kept.len() {
                assert(r[i] == kept[i]);
                let m = kept[i];
                let w = choose|x: int| 0 <= x < rest.len() && rest[x] == m;
                assert(notes[w] == m);
            } else {
                assert(r[i] == notes.last());
                assert(notes[notes.len() - 1] == notes.last());
            }
        }
        assert forall|j: int|
            0 <= j < notes.len() && (query.len() == 0 || contains_spec(
                unicode_lowercase((#[trigger] notes[j]).title@),
                query,
            )) && (filter matches Some(f) ==> notes[j].source == f) implies r.contains(notes[j]) by {
            if j < rest.len() {
                assert(rest[j] == notes[j]);
                assert(kept.contains(notes[j]));
                let x = choose|x: int| 0 <= x < kept.len() && kept[x] == notes[j];
                assert(r[x] == kept[x]);
            } else {
                assert(notes[j] == notes.last());
                assert(r[r.len() - 1] == notes.last());
            }
        }
    }
}

/// What saving the editor asks the app to do.
#[derive(Debug, Clone, PartialEq, Eq)]
pub enum NoteSaveRequest {
    /// Create a manual note.
    Create { title: String, content: String },
    /// Update the selected note.
    Update { id: String, title: String, content: String },
}

/// The source filter chosen in the select box; an unknown value means all.
pub fn source_filter_from_value(value: &str) -> (r: Option<NoteSource>)
    ensures
        r == (if value@ == "manual"@ {
            Some(NoteSource::Manual)
        } else if value@ == "transcription"@ {
            Some(NoteSource::Transcription)
        } else if value@ == "post-processing"@ {
            Some(NoteSource::PostProcessing)
        } else {
            None
        }),
{
    if str_eq(value, "manual") {
        Some(NoteSource::Manual)
    } else if str_eq(value, "transcription") {
        Some(NoteSource::Transcription)
    } else if str_eq(value, "post-processing") {
        Some(NoteSource::PostProcessing)
    } else {
        None
    }
}

fn copy_summary(n: &NoteSummary) -> (r: NoteSummary)
    ensures
        r == *n,
{
    NoteSummary {
        id: n.id.clone(),
        title: n.title.clone(),
        created_at: n.created_at.clone(),
        updated_at: n.updated_at.clone(),
        source: n.source,
    }
}

/// Everything the notes screen holds.
#[derive(Debug, Clone)]
pub struct NotesScreenState {
    pub notes: Vec<NoteSummary>,
    pub selected_note_id: Option<String>,
    pub selected_note: Option<Note>,
    pub search_query: String,
    pub source_filter: Option<NoteSource>,
    pub refresh_nonce: u64,
    pub is_new_note: bool,
    pub editing_title: String,
    pub editing_content: String,
}

/// The editor shows the selected note, or empty fields.
pub open spec fn editor_shows(s: NotesScreenState, note: Option<Note>) -> bool {
    match note {
        Some(n) => s.editing_title == n.title && s.editing_content == n.content,
        None => s.editing_title@.len() == 0 && s.editing_content@.len() == 0,
    }
}

/// The counter that asks for the list to be read again, moved on.
pub open spec fn next_nonce(n: u64) -> u64 {
    if n == u64::MAX {
        n
    } else {
        (n + 1) as u64
    }
}

impl NotesScreenState {
    /// Nothing listed or selected.
    pub fn new() -> (r: Self)
        ensures
            r.notes@.len() == 0,
            r.selected_note_id is None,
            r.selected_note is None,
            r.search_query@.len() == 0,
            r.source_filter is None,
            r.refresh_nonce == 0,
            !r.is_new_note,
            editor_shows(r, None),
    {
        NotesScreenState {
            notes: Vec::new(),
            selected_note_id: None,
            selected_note: None,
            search_query: String::new(),
            source_filter: None,
            refresh_nonce: 0,
            is_new_note: false,
            editing_title: String::new(),
            editing_content: String::new(),
        }
    }

    /// The list arrived; a failure shows an empty list.
    pub fn notes_loaded(&mut self, result: Result<Vec<NoteSummary>, String>)
        ensures
            result matches Ok(v) ==> final(self).notes == v,
            result is Err ==> final(self).notes@.len() == 0,
            final(self).selected_note_id == old(self).selected_note_id,
            final(self).selected_note == old(self).selected_note,
    {
        match result {
            Ok(v) => {
                self.notes = v;
            },
            Err(_) => {
                self.notes = Vec::new();
            },
        }
    }

    /// Shows `note` as the selected note and in the editor.
    fn show_note(&mut self, note: Option<Note>)
        ensures
            final(self).selected_note == note,
            editor_shows(*final(self), note),
            final(self).notes == old(self).notes,
            final(self).selected_note_id == old(self).selected_note_id,
            final(self).is_new_note == old(self).is_new_note,
            final(self).refresh_nonce == old(self).refresh_nonce,
            final(self).search_query == old(self).search_query,
            final(self).source_filter == old(self).source_filter,
    {
        match &note {
            Some(n) => {
                self.editing_title = n.title.clone();
                self.editing_content = n.content.clone();
            },
            None => {
                self.editing_title = String::new();
                self.editing_content = String::new();
            },
        }
        self.selected_note = note;
    }

    /// The selection changed: without a selection the editor empties;
    /// returns the id of the note to read, unless a new note is edited.
    pub fn selection_changed(&mut self) -> (r: Option<String>)
        ensures
            old(self).selected_note_id is None ==> r is None && final(self).selected_note is None
                && editor_shows(*final(self), None),
            old(self).selected_note_id is Some && old(self).is_new_note ==> r is None && *final(self)
                == *old(self),
            old(self).selected_note_id is Some && !old(self).is_new_note ==> r
                == old(self).selected_note_id && *final(self) == *old(self),
    {
        match &self.selected_note_id {
            None => {
                self.show_note(None);
                None
            },
            Some(id) => {
                if self.is_new_note {
                    None
                } else {
                    Some(id.clone())
                }
            },
        }
    }

    /// The selected note was read (none when it is missing or unreadable).
    pub fn note_loaded(&mut self, result: Result<Option<Note>, String>)
        ensures
            result matches Ok(n) ==> final(self).selected_note == n && editor_shows(*final(self), n),
            result is Err ==> final(self).selected_note is None && editor_shows(*final(self), None),
            final(self).selected_note_id == old(self).selected_note_id,
    {
        match result {
            Ok(n) => self.show_note(n),
            Err(_) => self.show_note(None),
        }
    }

    /// Starts a new note: nothing selected, an empty editor.
    pub fn new_note(&mut self)
        ensures
            final(self).is_new_note,
            final(self).selected_note_id is None,
            final(self).selected_note is None,
            editor_shows(*final(self), None),
            final(self).notes == old(self).notes,
    {
        self.is_new_note = true;
        self.selected_note_id = None;
        self.show_note(None);
    }

    /// A note was picked in the list.
    pub fn select(&mut self, id: String)
        ensures
            !final(self).is_new_note,
            final(self).selected_note_id == Some(id),
            final(self).notes == old(self).notes,
            final(self).selected_note == old(self).selected_note,
    {
        self.is_new_note = false;
        self.selected_note_id = Some(id);
    }

    /// The save button: a new note is created, a selected one updated;
    /// with neither nothing is asked.
    pub fn save_request(&self) -> (r: Option<NoteSaveRequest>)
        ensures
            self.is_new_note ==> r == Some(
                NoteSaveRequest::Create { title: self.editing_title, content: self.editing_content },
            ),
            !self.is_new_note ==> (self.selected_note_id matches Some(id) ==> r == Some(
                NoteSaveRequest::Update {
                    id,
                    title: self.editing_title,
                    content: self.editing_content,
                },
            )),
            !self.is_new_note && self.selected_note_id is None ==> r is None,
    {
        if self.is_new_note {
            return Some(
                NoteSaveRequest::Create {
                    title: self.editing_title.clone(),
                    content: self.editing_content.clone(),
                },
            );
        }
        match &self.selected_note_id {
            Some(id) => Some(
                NoteSaveRequest::Update {
                    id: id.clone(),
                    title: self.editing_title.clone(),
                    content: self.editing_content.clone(),
                },
            ),
            None => None,
        }
    }

    /// The save answered: a saved note becomes the selection and the list
    /// is read again; a failure changes nothing.
    pub fn note_saved(&mut self, result: Result<Note, String>)
        ensures
            result matches Ok(n) ==> !final(self).is_new_note && final(self).selected_note_id == Some(
                n.id,
            ) && final(self).refresh_nonce == next_nonce(old(self).refresh_nonce),
            result is Err ==> *final(self) == *old(self),
    {
        match result {
            Ok(n) => {
                self.is_new_note = false;
                self.selected_note_id = Some(n.id);
                if self.refresh_nonce < u64::MAX {
                    self.refresh_nonce = self.refresh_nonce + 1;
                }
            },
            Err(_) => {},
        }
    }

    /// The delete button: the id of the note shown, if any.
    pub fn delete_request(&self) -> (r: Option<String>)
        ensures
            r == match self.selected_note {
                Some(n) => Some(n.id),
                None => None,
            },
    {
        match &self.selected_note {
            Some(n) => Some(n.id.clone()),
            None => None,
        }
    }

    /// The deletion answered: on success nothing is selected and the list
    /// is read again.
    pub fn note_deleted(&mut self, deleted: bool)
        ensures
            deleted ==> final(self).selected_note_id is None && final(self).selected_note is None
                && !final(self).is_new_note && editor_shows(*final(self), None)
                && final(self).refresh_nonce == next_nonce(old(self).refresh_nonce),
            !deleted ==> *final(self) == *old(self),
    {
        if deleted {
            self.selected_note_id = None;
            self.show_note(None);
            self.is_new_note = false;
            if self.refresh_nonce < u64::MAX {
                self.refresh_nonce = self.refresh_nonce + 1;
            }
        }
    }

    /// Whether a listed note is the selected one.
    pub fn is_selected(&self, id: &str) -> (r: bool)
        ensures
            r == (self.selected_note_id matches Some(s) && s@ == id@),
    {
        match &self.selected_note_id {
            Some(s) => str_eq(s.as_str(), id),
            None => false,
        }
    }

    /// The listed notes that match the search and the source filter.
    pub fn filtered_notes(&self) -> (r: Vec<NoteSummary>)
        ensures
            r@ == matching_notes(self.notes@, unicode_lowercase(self.search_query@), self.source_filter),
    {
        let query = to_lowercase(self.search_query.as_str());
        let ghost q = query@;
        let mut r: Vec<NoteSummary> = Vec::new();
        let mut i: usize = 0;
        while i < self.notes.len()
            invariant
                i <= self.notes@.len(),
                q == query@,
                q == unicode_lowercase(self.search_query@),
                r@ == matching_notes(self.notes@.subrange(0, i as int), q, self.source_filter),
            decreases self.notes@.len() - i,
        {
            let ghost pre = self.notes@.subrange(0, i + 1);
            assert(pre.drop_last() =~= self.notes@.subrange(0, i as int));
            assert(pre.last() == self.notes@[i as int]);
            let n = &self.notes[i];
            let text_ok = if query.as_str().unicode_len() == 0 {
                true
            } else {
                let title = to_lowercase(n.title.as_str());
                contains_str(title.as_str(), query.as_str())
            };
            let source_ok = match self.source_filter {
                Some(f) => n.source == f,
                None => true,
            };
            if text_ok && source_ok {
                r.push(copy_summary(n));
            }
            i = i + 1;
        }
        assert(self.notes@.subrange(0, self.notes@.len() as int) =~= self.notes@);
        r
    }
}

} // verus!
