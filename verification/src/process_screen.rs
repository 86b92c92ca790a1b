//! The post-processing screen: choosing and editing prompt templates, the
//! notes assigned to a prompt's note slots, running a template on a text,
//! and what the result panel offers.  Reading and writing templates and
//! notes, running the model, the clipboard and the file dialog belong to
//! the app, which hands their answers back here.
use vstd::prelude::*;

use crate::errors::prefixed;
use crate::models::{Note, NoteSummary, PostProcessTemplate, PostprocessProviderMode};
use crate::templates::{extract_note_slots, find_template_by_id, transcript_placeholder};
use crate::text::{contains_spec, contains_str, is_blank, str_eq, trim_spec};

verus! {

// ---------------------------------------------------------------------------
// Template lists and slot assignments
// ---------------------------------------------------------------------------

/// `i` is the first position of a template with id `id`.
pub open spec fn first_with_id(s: Seq<PostProcessTemplate>, id: Seq<char>, i: int) -> bool {
    &&& 0 <= i < s.len()
    &&& s[i].id@ == id
    &&& forall|k: int| 0 <= k < i ==> (#[trigger] s[k]).id@ != id
}

/// The templates without those whose id is `id`.
pub open spec fn without_id(s: Seq<PostProcessTemplate>, id: Seq<char>) -> Seq<PostProcessTemplate>
    decreases s.len(),
{
    if s.len() == 0 {
        s
    } else {
        let kept = without_id(s.drop_last(), id);
        if s.last().id@ == id {
            kept
        } else {
            kept.push(s.last())
        }
    }
}

/// The slot assignments as a map from slot name to note id; a later entry
/// for a slot overrides an earlier one.
pub open spec fn slot_map(v: Seq<(String, String)>) -> Map<Seq<char>, Seq<char>>
    decreases v.len(),
{
    if v.len() == 0 {
        Map::empty()
    } else {
        slot_map(v.drop_last()).insert(v.last().0@, v.last().1@)
    }
}

fn clone_template(t: &PostProcessTemplate) -> (r: PostProcessTemplate)
    ensures
        r == *t,
{
    PostProcessTemplate { id: t.id.clone(), name: t.name.clone(), prompt: t.prompt.clone() }
}

/// A copy of a template list.
fn copy_templates(v: &Vec<PostProcessTemplate>) -> (r: Vec<PostProcessTemplate>)
    ensures
        r@ == v@,
{
    let mut r: Vec<PostProcessTemplate> = Vec::new();
    let mut i: usize = 0;
    while i < v.len()
        invariant
            i <= v@.len(),
            r@ == v@.subrange(0, i as int),
        decreases v@.len() - i,
    {
        r.push(clone_template(&v[i]));
        i = i + 1;
        assert(r@ =~= v@.subrange(0, i as int));
    }
    assert(v@.subrange(0, v@.len() as int) =~= v@);
    r
}

/// A copy of the slot assignments.
fn copy_assignments(v: &Vec<(String, String)>) -> (r: Vec<(String, String)>)
    ensures
        r@ == v@,
{
    let mut r: Vec<(String, String)> = Vec::new();
    let mut i: usize = 0;
    while i < v.len()
        invariant
            i <= v@.len(),
            r@ == v@.subrange(0, i as int),
        decreases v@.len() - i,
    {
        let entry = (v[i].0.clone(), v[i].1.clone());
        r.push(entry);
        i = i + 1;
        assert(r@ =~= v@.subrange(0, i as int));
    }
    assert(v@.subrange(0, v@.len() as int) =~= v@);
    r
}

/// The list after saving `t`: it replaces the first template with its id,
/// or is appended when there is none.
pub open spec fn upserted(s: Seq<PostProcessTemplate>, t: PostProcessTemplate) -> Seq<PostProcessTemplate> {
    if exists|i: int| first_with_id(s, t.id@, i) {
        s.update(choose|i: int| first_with_id(s, t.id@, i), t)
    } else {
        s.push(t)
    }
}

proof fn lemma_first_exists(s: Seq<PostProcessTemplate>, id: Seq<char>, k: int)
    requires
        0 <= k < s.len(),
        s[k].id@ == id,
    ensures
        exists|i: int| first_with_id(s, id, i),
    decreases k,
{
    if exists|m: int| 0 <= m < k && (#[trigger] s[m]).id@ == id {
        let m = choose|m: int| 0 <= m < k && (#[trigger] s[m]).id@ == id;
        lemma_first_exists(s, id, m);
    } else {
        assert(first_with_id(s, id, k));
    }
}

proof fn lemma_selects(n: Seq<PostProcessTemplate>, t: PostProcessTemplate, i: int)
    requires
        first_with_id(n, t.id@, i),
        n[i] == t,
    ensures
        selected_template(n, Some(t.id)) == Some(t),
{
    let c = choose|c: int| first_with_id(n, t.id@, c);
    lemma_first_unique(n, t.id@, i, c);
}

/// A saved template is the one its id selects afterwards.
pub proof fn law_saved_template_is_selected(s: Seq<PostProcessTemplate>, t: PostProcessTemplate)
    ensures
        selected_template(upserted(s, t), Some(t.id)) == Some(t),
{
    let n = upserted(s, t);
    if exists|i: int| first_with_id(s, t.id@, i) {
        let i = choose|i: int| first_with_id(s, t.id@, i);
        assert forall|k: int| 0 <= k < i implies (#[trigger] n[k]).id@ != t.id@ by {
            assert(n[k] == s[k]);
        }
        assert(first_with_id(n, t.id@, i));
        lemma_selects(n, t, i);
    } else {
        let i = s.len() as int;
        assert forall|k: int| 0 <= k < i implies (#[trigger] n[k]).id@ != t.id@ by {
            assert(n[k] == s[k]);
            if s[k].id@ == t.id@ {
                lemma_first_exists(s, t.id@, k);
            }
        }
        assert(first_with_id(n, t.id@, i));
        lemma_selects(n, t, i);
    }
}

/// After deleting the templates with id `id`, none is left.
pub proof fn law_deleted_template_is_gone(s: Seq<PostProcessTemplate>, id: Seq<char>)
    ensures
        forall|k: int| 0 <= k < without_id(s, id).len() ==> (#[trigger] without_id(s, id)[k]).id@ != id,
    decreases s.len(),
{
    if s.len() > 0 {
        law_deleted_template_is_gone(s.drop_last(), id);
        let kept = without_id(s.drop_last(), id);
        if s.last().id@ != id {
            assert forall|k: int| 0 <= k < kept.push(s.last()).len() implies (#[trigger] kept.push(s.last())[k]).id@ != id by {
                if k < kept.len() {
                    assert(kept.push(s.last())[k] == kept[k]);
                }
            }
        }
    }
}

/// `t` saved into the list: it replaces the first template with its id, or
/// is appended when there is none.
pub fn upsert_template(templates: &mut Vec<PostProcessTemplate>, t: PostProcessTemplate)
    ensures
        final(templates)@ == upserted(old(templates)@, t),
{
    let mut i: usize = 0;
    while i < templates.len()
        invariant
            i <= templates@.len(),
            templates@ == old(templates)@,
            forall|k: int| 0 <= k < i ==> (#[trigger] templates@[k]).id@ != t.id@,
        decreases templates@.len() - i,
    {
        if str_eq(templates[i].id.as_str(), t.id.as_str()) {
            proof {
                assert(first_with_id(old(templates)@, t.id@, i as int));
                let c = choose|c: int| first_with_id(old(templates)@, t.id@, c);
                lemma_first_unique(old(templates)@, t.id@, i as int, c);
            }
            templates.set(i, t);
            return;
        }
        i = i + 1;
    }
    assert forall|j: int| !first_with_id(old(templates)@, t.id@, j) by {
        if first_with_id(old(templates)@, t.id@, j) {
            assert(templates@[j].id@ == t.id@);
        }
    }
    templates.push(t);
}

/// The list without the templates whose id is `id`.
pub fn remove_templates_with_id(templates: &Vec<PostProcessTemplate>, id: &str) -> (r: Vec<PostProcessTemplate>)
    ensures
        r@ == without_id(templates@, id@),
{
    let mut r: Vec<PostProcessTemplate> = Vec::new();
    let mut i: usize = 0;
    while i < templates.len()
        invariant
            i <= templates@.len(),
            r@ == without_id(templates@.subrange(0, i as int), id@),
        decreases templates@.len() - i,
    {
        assert(templates@.subrange(0, i + 1).drop_last() =~= templates@.subrange(0, i as int));
        if !str_eq(templates[i].id.as_str(), id) {
            r.push(clone_template(&templates[i]));
        }
        i = i + 1;
    }
    assert(templates@.subrange(0, templates@.len() as int) =~= templates@);
    r
}

/// Whether slot `slot` has a note assigned.
pub fn has_assignment(assignments: &Vec<(String, String)>, slot: &str) -> (r: bool)
    ensures
        r == slot_map(assignments@).dom().contains(slot@),
{
    let mut i: usize = assignments.len();
    assert(assignments@.subrange(0, i as int) =~= assignments@);
    while i > 0
        invariant
            i <= assignments@.len(),
            slot_map(assignments@).dom().contains(slot@) == slot_map(
                assignments@.subrange(0, i as int),
            ).dom().contains(slot@),
        decreases i,
    {
        let ghost pre = assignments@.subrange(0, i as int);
        assert(pre.drop_last() =~= assignments@.subrange(0, i - 1));
        assert(pre.last() == assignments@[i - 1]);
        if str_eq(assignments[i - 1].0.as_str(), slot) {
            return true;
        }
        i = i - 1;
    }
    assert(assignments@.subrange(0, 0) =~= Seq::<(String, String)>::empty());
    false
}

/// The assignments after choosing note `note_id` for `slot`; an empty id
/// clears the slot.
pub fn assign_slot(assignments: &Vec<(String, String)>, slot: &str, note_id: &str) -> (r: Vec<
    (String, String),
>)
    ensures
        note_id@.len() == 0 ==> slot_map(r@) == slot_map(assignments@).remove(slot@),
        note_id@.len() > 0 ==> slot_map(r@) == slot_map(assignments@).insert(slot@, note_id@),
{
    let mut r: Vec<(String, String)> = Vec::new();
    let mut i: usize = 0;
    while i < assignments.len()
        invariant
            i <= assignments@.len(),
            slot_map(r@) == slot_map(assignments@.subrange(0, i as int)).remove(slot@),
        decreases assignments@.len() - i,
    {
        let ghost pre = assignments@.subrange(0, i + 1);
        assert(pre.drop_last() =~= assignments@.subrange(0, i as int));
        assert(pre.last() == assignments@[i as int]);
        if !str_eq(assignments[i].0.as_str(), slot) {
            let entry = (assignments[i].0.clone(), assignments[i].1.clone());
            let ghost before = r@;
            r.push(entry);
            assert(r@.drop_last() =~= before);
            assert(slot_map(r@) =~= slot_map(pre).remove(slot@));
        } else {
            assert(slot_map(r@) =~= slot_map(pre).remove(slot@));
        }
        i = i + 1;
    }
    assert(assignments@.subrange(0, assignments@.len() as int) =~= assignments@);
    if note_id.unicode_len() > 0 {
        let ghost before = r@;
        r.push((slot.to_owned(), note_id.to_owned()));
        assert(r@.drop_last() =~= before);
        assert(slot_map(r@) =~= slot_map(assignments@).insert(slot@, note_id@));
    }
    r
}

// ---------------------------------------------------------------------------
// Result panel feedback
// ---------------------------------------------------------------------------

/// How the last copy, export or save of the result went.
#[derive(Debug, Clone, Copy, PartialEq, Eq, Structural)]
pub enum ActionFeedback {
    Succeeded,
    Failed,
}

/// The copy button's label.
pub fn copy_button_label(feedback: Option<ActionFeedback>) -> (r: &'static str)
    ensures
        r@ == match feedback {
            None => "Copy result"@,
            Some(ActionFeedback::Succeeded) => "Copied"@,
            Some(ActionFeedback::Failed) => "Copy failed"@,
        },
{
    match feedback {
        None => "Copy result",
        Some(ActionFeedback::Succeeded) => "Copied",
        Some(ActionFeedback::Failed) => "Copy failed",
    }
}

/// The export button's label.
pub fn export_button_label(feedback: Option<ActionFeedback>) -> (r: &'static str)
    ensures
        r@ == match feedback {
            None => "Export result"@,
            Some(ActionFeedback::Succeeded) => "Exported"@,
            Some(ActionFeedback::Failed) => "Export failed"@,
        },
{
    match feedback {
        None => "Export result",
        Some(ActionFeedback::Succeeded) => "Exported",
        Some(ActionFeedback::Failed) => "Export failed",
    }
}

/// The save-as-note button's label.
pub fn save_note_button_label(feedback: Option<ActionFeedback>) -> (r: &'static str)
    ensures
        r@ == match feedback {
            None => "Save as note"@,
            Some(ActionFeedback::Succeeded) => "Saved"@,
            Some(ActionFeedback::Failed) => "Save failed"@,
        },
{
    match feedback {
        None => "Save as note",
        Some(ActionFeedback::Succeeded) => "Saved",
        Some(ActionFeedback::Failed) => "Save failed",
    }
}

/// The style class of a result button after an action.
pub fn feedback_button_class(feedback: Option<ActionFeedback>) -> (r: &'static str)
    ensures
        r@ == match feedback {
            None => "secondary-button"@,
            Some(ActionFeedback::Succeeded) => "secondary-button success"@,
            Some(ActionFeedback::Failed) => "secondary-button error"@,
        },
{
    match feedback {
        None => "secondary-button",
        Some(ActionFeedback::Succeeded) => "secondary-button success",
        Some(ActionFeedback::Failed) => "secondary-button error",
    }
}

/// What the panel says while a template runs.
pub fn running_label(mode: PostprocessProviderMode) -> (r: &'static str)
    ensures
        r@ == match mode {
            PostprocessProviderMode::LocalLlm => "Processing with local LLM..."@,
            PostprocessProviderMode::Api => "Sending to API..."@,
        },
{
    match mode {
        PostprocessProviderMode::LocalLlm => "Processing with local LLM...",
        PostprocessProviderMode::Api => "Sending to API...",
    }
}

/// A run of the local model can be cancelled; an API request cannot.
pub fn can_cancel_run(mode: PostprocessProviderMode) -> (r: bool)
    ensures
        r == (mode == PostprocessProviderMode::LocalLlm),
{
    mode == PostprocessProviderMode::LocalLlm
}

// ---------------------------------------------------------------------------
// The screen
// ---------------------------------------------------------------------------

/// What a run sends: the text, the template, whether the model may think
/// first, and the note assigned to each slot.
#[derive(Debug, Clone)]
pub struct PostprocessRun {
    pub text: String,
    pub template_id: String,
    pub enable_thinking: bool,
    pub assignments: Vec<(String, String)>,
}

/// Everything the post-processing screen holds.
#[derive(Debug, Clone)]
pub struct ProcessScreenState {
    pub templates: Vec<PostProcessTemplate>,
    pub selected_template_id: Option<String>,
    pub editing_name: String,
    pub editing_prompt: String,
    pub is_new_template: bool,
    pub save_feedback: Option<String>,
    pub input_text: String,
    pub is_running: bool,
    pub result_text: Option<String>,
    pub error_message: Option<String>,
    pub copy_feedback: Option<ActionFeedback>,
    pub export_feedback: Option<ActionFeedback>,
    pub save_note_feedback: Option<ActionFeedback>,
    pub postprocess_mode: PostprocessProviderMode,
    pub enable_thinking: bool,
    pub note_slot_assignments: Vec<(String, String)>,
    pub available_notes: Vec<NoteSummary>,
}

/// The template with id `id` in `s`, if one is listed (the first one).
pub open spec fn selected_template(s: Seq<PostProcessTemplate>, id: Option<String>) -> Option<
    PostProcessTemplate,
> {
    match id {
        None => None,
        Some(i) => if exists|k: int| first_with_id(s, i@, k) {
            Some(s[choose|k: int| first_with_id(s, i@, k)])
        } else {
            None
        },
    }
}

/// The editor after selecting `id` among `templates`: the template's name
/// and prompt, or empty fields when it is not listed; no slot assignments.
pub open spec fn shows_selection(s: ProcessScreenState, templates: Seq<PostProcessTemplate>, id: Option<String>) -> bool {
    &&& s.selected_template_id == id
    &&& !s.is_new_template
    &&& s.note_slot_assignments@.len() == 0
    &&& match selected_template(templates, id) {
        Some(t) => s.editing_name == t.name && s.editing_prompt == t.prompt,
        None => s.editing_name@.len() == 0 && s.editing_prompt@.len() == 0,
    }
}

proof fn lemma_first_unique(s: Seq<PostProcessTemplate>, id: Seq<char>, i: int, j: int)
    requires
        first_with_id(s, id, i),
        first_with_id(s, id, j),
    ensures
        i == j,
{
    if i < j {
        assert(s[i].id@ != id);
    } else if j < i {
        assert(s[j].id@ != id);
    }
}

impl ProcessScreenState {
    /// Nothing loaded: no templates, no selection, API mode.
    pub fn new() -> (r: Self)
        ensures
            r.templates@.len() == 0,
            r.selected_template_id is None,
            r.editing_name@.len() == 0,
            r.editing_prompt@.len() == 0,
            !r.is_new_template,
            r.save_feedback is None,
            r.input_text@.len() == 0,
            !r.is_running,
            r.result_text is None,
            r.error_message is None,
            r.copy_feedback is None,
            r.export_feedback is None,
            r.save_note_feedback is None,
            r.postprocess_mode == PostprocessProviderMode::Api,
            !r.enable_thinking,
            r.note_slot_assignments@.len() == 0,
            r.available_notes@.len() == 0,
    {
        ProcessScreenState {
            templates: Vec::new(),
            selected_template_id: None,
            editing_name: String::new(),
            editing_prompt: String::new(),
            is_new_template: false,
            save_feedback: None,
            input_text: String::new(),
            is_running: false,
            result_text: None,
            error_message: None,
            copy_feedback: None,
            export_feedback: None,
            save_note_feedback: None,
            postprocess_mode: PostprocessProviderMode::Api,
            enable_thinking: false,
            note_slot_assignments: Vec::new(),
            available_notes: Vec::new(),
        }
    }

    /// Selects template `id` of the listed templates and loads it into the
    /// editor; the slot assignments are cleared.
    pub fn apply_selection(&mut self, id: Option<String>)
        ensures
            shows_selection(*final(self), old(self).templates@, id),
            final(self).templates == old(self).templates,
            final(self).save_feedback == old(self).save_feedback,
            final(self).input_text == old(self).input_text,
            final(self).is_running == old(self).is_running,
            final(self).result_text == old(self).result_text,
            final(self).error_message == old(self).error_message,
            final(self).postprocess_mode == old(self).postprocess_mode,
            final(self).available_notes == old(self).available_notes,
    {
        self.is_new_template = false;
        self.note_slot_assignments = Vec::new();
        let found = match &id {
            Some(i) => find_template_by_id(self.templates.as_slice(), i.as_str()),
            None => None,
        };
        let ghost ts = self.templates@;
        match found {
            Some(t) => {
                proof {
                    let i = id->Some_0;
                    let k = choose|k: int|
                        0 <= k < ts.len() && ts[k] == *t && t.id@ == i@ && forall|m: int|
                            0 <= m < k ==> (#[trigger] ts[m]).id@ != i@;
                    assert(first_with_id(ts, i@, k));
                    let c = choose|c: int| first_with_id(ts, i@, c);
                    lemma_first_unique(ts, i@, k, c);
                }
                self.editing_name = t.name.clone();
                self.editing_prompt = t.prompt.clone();
            },
            None => {
                proof {
                    if id is Some {
                        let i = id->Some_0;
                        assert forall|k: int| !first_with_id(ts, i@, k) by {
                            if first_with_id(ts, i@, k) {
                                assert(ts[k].id@ == i@);
                            }
                        }
                    }
                }
                self.editing_name = String::new();
                self.editing_prompt = String::new();
            },
        }
        self.selected_template_id = id;
    }

    /// The screen was opened: earlier save feedback is cleared.
    pub fn begin_activation(&mut self)
        ensures
            final(self).save_feedback is None,
            final(self).templates == old(self).templates,
            final(self).selected_template_id == old(self).selected_template_id,
            final(self).input_text == old(self).input_text,
    {
        self.save_feedback = None;
    }

    /// The answers to opening the screen: the saved post-processing mode,
    /// the notes, and the templates.  The selection stays when its template
    /// is still listed, else moves to the first template; without templates
    /// nothing is selected.
    pub fn finish_activation(
        &mut self,
        mode: Option<PostprocessProviderMode>,
        notes: Option<Vec<NoteSummary>>,
        loaded: Result<Vec<PostProcessTemplate>, String>,
    )
        ensures
            mode matches Some(m) ==> final(self).postprocess_mode == m,
            mode is None ==> final(self).postprocess_mode == old(self).postprocess_mode,
            notes matches Some(n) ==> final(self).available_notes == n,
            notes is None ==> final(self).available_notes == old(self).available_notes,
            loaded is Err ==> final(self).templates@.len() == 0 && shows_selection(
                *final(self),
                Seq::empty(),
                None,
            ),
            loaded matches Ok(l) ==> final(self).templates@ == l@ && shows_selection(
                *final(self),
                l@,
                if (old(self).selected_template_id matches Some(p) && exists|k: int|
                    0 <= k < l@.len() && (#[trigger] l@[k]).id@ == p@) {
                    old(self).selected_template_id
                } else if l@.len() > 0 {
                    Some(l@[0].id)
                } else {
                    None
                },
            ),
            final(self).input_text == old(self).input_text,
            final(self).save_feedback == old(self).save_feedback,
    {
        match mode {
            Some(m) => {
                self.postprocess_mode = m;
            },
            None => {},
        }
        match notes {
            Some(n) => {
                self.available_notes = n;
            },
            None => {},
        }
        match loaded {
            Ok(l) => {
                let previous = match &self.selected_template_id {
                    Some(p) => Some(p.clone()),
                    None => None,
                };
                let still_exists = match &previous {
                    Some(p) => find_template_by_id(l.as_slice(), p.as_str()).is_some(),
                    None => false,
                };
                proof {
                    if previous is Some {
                        let p = previous->Some_0;
                        if still_exists {
                            assert(exists|k: int| 0 <= k < l@.len() && (#[trigger] l@[k]).id@ == p@);
                        } else {
                            assert(!exists|k: int| 0 <= k < l@.len() && (#[trigger] l@[k]).id@ == p@);
                        }
                    }
                }
                let effective = if still_exists {
                    previous
                } else if l.len() > 0 {
                    Some(l[0].id.clone())
                } else {
                    None
                };
                self.templates = l;
                self.apply_selection(effective);
            },
            Err(_) => {
                self.templates = Vec::new();
                self.apply_selection(None);
            },
        }
    }

    /// A template was picked in the list (an empty value picks none).
    pub fn select_template(&mut self, value: String)
        ensures
            final(self).save_feedback is None,
            shows_selection(
                *final(self),
                old(self).templates@,
                if value@.len() == 0 {
                    None
                } else {
                    Some(value)
                },
            ),
            final(self).templates == old(self).templates,
    {
        self.save_feedback = None;
        let id = if value.as_str().unicode_len() == 0 {
            None
        } else {
            Some(value)
        };
        self.apply_selection(id);
    }

    /// Starts a new, unsaved template with the given id.
    pub fn new_template(&mut self, new_id: String)
        ensures
            final(self).selected_template_id == Some(new_id),
            final(self).editing_name@.len() == 0,
            final(self).editing_prompt@.len() == 0,
            final(self).is_new_template,
            final(self).save_feedback is None,
            final(self).note_slot_assignments@.len() == 0,
            final(self).templates == old(self).templates,
    {
        self.selected_template_id = Some(new_id);
        self.editing_name = String::new();
        self.editing_prompt = String::new();
        self.is_new_template = true;
        self.save_feedback = None;
        self.note_slot_assignments = Vec::new();
    }

    /// Saves the edited template into the list and returns the list to
    /// write; nothing happens without a selection, and a blank name is
    /// refused with a message.
    pub fn save_template(&mut self) -> (r: Option<Vec<PostProcessTemplate>>)
        ensures
            old(self).selected_template_id is None ==> r is None && *final(self) == *old(self),
            old(self).selected_template_id is Some && trim_spec(old(self).editing_name@).len() == 0
                ==> r is None && (final(self).save_feedback matches Some(m) && m@
                == "Template name cannot be empty."@) && final(self).templates == old(self).templates,
            old(self).selected_template_id is Some && trim_spec(old(self).editing_name@).len() > 0
                ==> ({
                let t = PostProcessTemplate {
                    id: old(self).selected_template_id->Some_0,
                    name: old(self).editing_name,
                    prompt: old(self).editing_prompt,
                };
                &&& r matches Some(v) && v@ == final(self).templates@
                &&& final(self).templates@ == upserted(old(self).templates@, t)
                &&& !final(self).is_new_template
                &&& final(self).save_feedback is None
                &&& final(self).selected_template_id == old(self).selected_template_id
            }),
    {
        let id = match &self.selected_template_id {
            Some(i) => i.clone(),
            None => {
                return None;
            },
        };
        if is_blank(self.editing_name.as_str()) {
            self.save_feedback = Some("Template name cannot be empty.".to_owned());
            return None;
        }
        let updated = PostProcessTemplate {
            id,
            name: self.editing_name.clone(),
            prompt: self.editing_prompt.clone(),
        };
        upsert_template(&mut self.templates, updated);
        self.is_new_template = false;
        self.save_feedback = None;
        Some(copy_templates(&self.templates))
    }

    /// Writing the saved template list finished.
    pub fn finish_template_save(&mut self, result: Result<(), String>)
        ensures
            result is Ok ==> (final(self).save_feedback matches Some(m) && m@ == "Template saved."@),
            result matches Err(e) ==> (final(self).save_feedback matches Some(m) && m@
                == "Save failed: "@ + e@),
            final(self).templates == old(self).templates,
    {
        match result {
            Ok(()) => {
                self.save_feedback = Some("Template saved.".to_owned());
            },
            Err(e) => {
                self.save_feedback = Some(prefixed("Save failed: ", e.as_str()));
            },
        }
    }

    /// Deletes the selected template, selects the first remaining one and
    /// returns the list to write; nothing happens without a selection.
    pub fn delete_template(&mut self) -> (r: Option<Vec<PostProcessTemplate>>)
        ensures
            old(self).selected_template_id is None ==> r is None && *final(self) == *old(self),
            old(self).selected_template_id matches Some(id) ==> ({
                let rest = without_id(old(self).templates@, id@);
                &&& r matches Some(v) && v@ == rest
                &&& final(self).templates@ == rest
                &&& final(self).save_feedback is None
                &&& shows_selection(
                    *final(self),
                    rest,
                    if rest.len() > 0 {
                        Some(rest[0].id)
                    } else {
                        None
                    },
                )
            }),
    {
        let id = match &self.selected_template_id {
            Some(i) => i.clone(),
            None => {
                return None;
            },
        };
        let current = remove_templates_with_id(&self.templates, id.as_str());
        let to_save = copy_templates(&current);
        self.templates = current;
        self.save_feedback = None;
        let next = if self.templates.len() > 0 {
            Some(self.templates[0].id.clone())
        } else {
            None
        };
        self.apply_selection(next);
        Some(to_save)
    }

    /// Writing the list after a deletion finished.
    pub fn finish_template_delete(&mut self, result: Result<(), String>)
        ensures
            result matches Err(e) ==> (final(self).save_feedback matches Some(m) && m@
                == "Delete failed to persist: "@ + e@),
            result is Ok ==> *final(self) == *old(self),
    {
        match result {
            Ok(()) => {},
            Err(e) => {
                self.save_feedback = Some(prefixed("Delete failed to persist: ", e.as_str()));
            },
        }
    }

    /// The note slots the edited prompt refers to, sorted.
    pub fn detected_slots(&self) -> (r: Vec<String>)
        ensures
            crate::templates::strictly_sorted(crate::templates::string_views(r@)),
            crate::templates::string_views(r@).to_set() == crate::templates::slot_names(
                self.editing_prompt@,
            ),
    {
        let r = extract_note_slots(self.editing_prompt.as_str());
        r
    }

    /// Whether the edited prompt uses `{{transcript}}`.
    pub fn template_uses_transcript(&self) -> (r: bool)
        ensures
            r == contains_spec(self.editing_prompt@, transcript_placeholder()),
    {
        proof {
            reveal_strlit("{{transcript}}");
            assert("{{transcript}}"@ =~= transcript_placeholder());
        }
        contains_str(self.editing_prompt.as_str(), "{{transcript}}")
    }

    /// A non-empty prompt without `{{transcript}}` and without note slots
    /// gets a warning.
    pub fn prompt_missing_placeholder(&self) -> (r: bool)
        ensures
            r == (self.editing_prompt@.len() > 0 && !contains_spec(
                self.editing_prompt@,
                transcript_placeholder(),
            ) && crate::templates::slot_names(self.editing_prompt@).is_empty()),
    {
        if self.editing_prompt.as_str().unicode_len() == 0 || self.template_uses_transcript() {
            return false;
        }
        let slots = self.detected_slots();
        proof {
            let names = crate::templates::string_views(slots@);
            if slots@.len() > 0 {
                assert(names.to_set().contains(names[0]));
            } else {
                assert(names =~= Seq::<Seq<char>>::empty());
                assert(names.to_set() =~= Set::<Seq<char>>::empty());
            }
        }
        slots.len() == 0
    }

    /// Whether every note slot of the prompt has a note assigned.
    pub fn slots_all_assigned(&self) -> (r: bool)
        ensures
            r == (forall|s: Seq<char>|
                #[trigger] crate::templates::slot_names(self.editing_prompt@).contains(s)
                    ==> slot_map(self.note_slot_assignments@).dom().contains(s)),
    {
        let slots = self.detected_slots();
        let ghost names = crate::templates::string_views(slots@);
        let mut i: usize = 0;
        while i < slots.len()
            invariant
                i <= slots@.len(),
                names == crate::templates::string_views(slots@),
                names.to_set() == crate::templates::slot_names(self.editing_prompt@),
                forall|k: int| 0 <= k < i ==> slot_map(self.note_slot_assignments@).dom().contains(
                    #[trigger] names[k],
                ),
            decreases slots@.len() - i,
        {
            if !has_assignment(&self.note_slot_assignments, slots[i].as_str()) {
                proof {
                    assert(names.to_set().contains(names[i as int]));
                }
                return false;
            }
            i = i + 1;
        }
        proof {
            assert forall|s: Seq<char>|
                #[trigger] crate::templates::slot_names(self.editing_prompt@).contains(s)
                    implies slot_map(self.note_slot_assignments@).dom().contains(s) by {
                assert(names.to_set().contains(s));
                let k = choose|k: int| 0 <= k < names.len() && names[k] == s;
                assert(slot_map(self.note_slot_assignments@).dom().contains(names[k]));
            }
        }
        true
    }

    /// Whether the run button is enabled: a template is selected, nothing
    /// runs, every slot has a note, and there is text when the prompt needs
    /// it.
    pub fn can_run(&self) -> (r: bool)
        ensures
            r == (self.selected_template_id is Some && !self.is_running && (forall|s: Seq<char>|
                #[trigger] crate::templates::slot_names(self.editing_prompt@).contains(s)
                    ==> slot_map(self.note_slot_assignments@).dom().contains(s)) && (!contains_spec(
                self.editing_prompt@,
                transcript_placeholder(),
            ) || trim_spec(self.input_text@).len() > 0)),
    {
        self.selected_template_id.is_some() && !self.is_running && self.slots_all_assigned() && (
        !self.template_uses_transcript() || !is_blank(self.input_text.as_str()))
    }

    /// The run button's label.
    pub fn run_button_label(&self) -> (r: &'static str)
        ensures
            self.is_running ==> r@ == match self.postprocess_mode {
                PostprocessProviderMode::LocalLlm => "Processing with local LLM..."@,
                PostprocessProviderMode::Api => "Sending to API..."@,
            },
            !self.is_running ==> r@ == "Run"@,
    {
        if self.is_running {
            running_label(self.postprocess_mode)
        } else {
            "Run"
        }
    }

    /// Starts a run of the selected template and returns what to send;
    /// nothing starts without a selection, or without text when the prompt
    /// needs it.
    pub fn begin_run(&mut self) -> (r: Option<PostprocessRun>)
        ensures
            (old(self).selected_template_id is None || (contains_spec(
                old(self).editing_prompt@,
                transcript_placeholder(),
            ) && trim_spec(old(self).input_text@).len() == 0)) ==> r is None && *final(self)
                == *old(self),
            !(old(self).selected_template_id is None || (contains_spec(
                old(self).editing_prompt@,
                transcript_placeholder(),
            ) && trim_spec(old(self).input_text@).len() == 0)) ==> {
                &&& r matches Some(run) && Some(run.template_id) == old(self).selected_template_id
                    && run.text == old(self).input_text && run.enable_thinking == old(
                    self,
                ).enable_thinking && run.assignments@ == old(self).note_slot_assignments@
                &&& final(self).is_running
                &&& final(self).error_message is None
                &&& final(self).result_text is None
                &&& final(self).copy_feedback is None
                &&& final(self).export_feedback is None
                &&& final(self).save_note_feedback is None
                &&& final(self).templates == old(self).templates
                &&& final(self).selected_template_id == old(self).selected_template_id
            },
    {
        let template_id = match &self.selected_template_id {
            Some(i) => i.clone(),
            None => {
                return None;
            },
        };
        if self.template_uses_transcript() && is_blank(self.input_text.as_str()) {
            return None;
        }
        self.is_running = true;
        self.error_message = None;
        self.result_text = None;
        self.copy_feedback = None;
        self.export_feedback = None;
        self.save_note_feedback = None;
        Some(
            PostprocessRun {
                text: self.input_text.clone(),
                template_id,
                enable_thinking: self.enable_thinking,
                assignments: copy_assignments(&self.note_slot_assignments),
            },
        )
    }

    /// The run finished: its text becomes the result; a cancelled run
    /// leaves no error; another failure is shown.
    pub fn finish_run(&mut self, result: Result<String, String>)
        ensures
            !final(self).is_running,
            result matches Ok(text) ==> final(self).result_text == Some(text)
                && final(self).export_feedback is None && final(self).save_note_feedback is None
                && final(self).error_message == old(self).error_message,
            result matches Err(e) ==> final(self).result_text == old(self).result_text && (if contains_spec(
                e@,
                "cancelled"@,
            ) {
                final(self).error_message == old(self).error_message
            } else {
                final(self).error_message == Some(e)
            }),
            final(self).templates == old(self).templates,
    {
        match result {
            Ok(text) => {
                self.result_text = Some(text);
                self.export_feedback = None;
                self.save_note_feedback = None;
            },
            Err(e) => {
                if !contains_str(e.as_str(), "cancelled") {
                    self.error_message = Some(e);
                }
            },
        }
        self.is_running = false;
    }

    /// Text handed over from another screen fills the input.
    pub fn accept_pending_text(&mut self, pending: Option<String>)
        ensures
            pending matches Some(t) ==> final(self).input_text == t,
            pending is None ==> *final(self) == *old(self),
            final(self).templates == old(self).templates,
    {
        match pending {
            Some(t) => {
                self.input_text = t;
            },
            None => {},
        }
    }

    /// A note was loaded into the input (none when it could not be read).
    pub fn load_note_into_input(&mut self, note: Option<Note>)
        ensures
            note matches Some(n) ==> final(self).input_text == n.content,
            note is None ==> *final(self) == *old(self),
    {
        match note {
            Some(n) => {
                self.input_text = n.content;
            },
            None => {},
        }
    }

    /// A note was chosen for a slot (an empty id clears the slot).
    pub fn choose_slot_note(&mut self, slot: &str, note_id: &str)
        ensures
            note_id@.len() == 0 ==> slot_map(final(self).note_slot_assignments@) == slot_map(
                old(self).note_slot_assignments@,
            ).remove(slot@),
            note_id@.len() > 0 ==> slot_map(final(self).note_slot_assignments@) == slot_map(
                old(self).note_slot_assignments@,
            ).insert(slot@, note_id@),
            final(self).templates == old(self).templates,
            final(self).editing_prompt == old(self).editing_prompt,
    {
        self.note_slot_assignments = assign_slot(&self.note_slot_assignments, slot, note_id);
    }

    /// The hint shown in the empty result panel.
    pub fn shows_idle_hint(&self) -> (r: bool)
        ensures
            r == (self.result_text is None && self.error_message is None && !self.is_running),
    {
        self.result_text.is_none() && self.error_message.is_none() && !self.is_running
    }

    /// The result to copy; earlier copy feedback is cleared.
    pub fn begin_copy(&mut self) -> (r: Option<String>)
        ensures
            r == old(self).result_text,
            r is Some ==> final(self).copy_feedback is None,
            r is None ==> *final(self) == *old(self),
    {
        match &self.result_text {
            Some(t) => {
                self.copy_feedback = None;
                Some(t.clone())
            },
            None => None,
        }
    }

    /// The clipboard answered.
    pub fn finish_copy(&mut self, copied: bool)
        ensures
            final(self).copy_feedback == Some(
                if copied {
                    ActionFeedback::Succeeded
                } else {
                    ActionFeedback::Failed
                },
            ),
    {
        self.copy_feedback = Some(
            if copied {
                ActionFeedback::Succeeded
            } else {
                ActionFeedback::Failed
            },
        );
    }

    /// The result to export; earlier export feedback is cleared.
    pub fn begin_export(&mut self) -> (r: Option<String>)
        ensures
            r == old(self).result_text,
            r is Some ==> final(self).export_feedback is None,
            r is None ==> *final(self) == *old(self),
    {
        match &self.result_text {
            Some(t) => {
                self.export_feedback = None;
                Some(t.clone())
            },
            None => None,
        }
    }

    /// The export answered: the file dialog's outcome (`None` when
    /// dismissed) and, when a file was picked, the write's.
    pub fn finish_export(&mut self, outcome: Result<Option<Result<(), String>>, String>)
        ensures
            outcome matches Ok(Some(Ok(()))) ==> final(self).export_feedback == Some(
                ActionFeedback::Succeeded,
            ),
            outcome matches Ok(Some(Err(_))) ==> final(self).export_feedback == Some(
                ActionFeedback::Failed,
            ),
            outcome is Err ==> final(self).export_feedback == Some(ActionFeedback::Failed),
            outcome matches Ok(None) ==> *final(self) == *old(self),
    {
        match outcome {
            Ok(Some(Ok(()))) => {
                self.export_feedback = Some(ActionFeedback::Succeeded);
            },
            Ok(Some(Err(_))) => {
                self.export_feedback = Some(ActionFeedback::Failed);
            },
            Ok(None) => {},
            Err(_) => {
                self.export_feedback = Some(ActionFeedback::Failed);
            },
        }
    }

    /// The result and the template name to save as a note; earlier save
    /// feedback is cleared.
    pub fn begin_save_note(&mut self) -> (r: Option<(String, String)>)
        ensures
            old(self).result_text matches Some(t) ==> r == Some((t, old(self).editing_name))
                && final(self).save_note_feedback is None,
            old(self).result_text is None ==> r is None && *final(self) == *old(self),
    {
        match &self.result_text {
            Some(t) => {
                self.save_note_feedback = None;
                Some((t.clone(), self.editing_name.clone()))
            },
            None => None,
        }
    }

    /// Saving the result as a note answered.
    pub fn finish_save_note(&mut self, saved: bool)
        ensures
            final(self).save_note_feedback == Some(
                if saved {
                    ActionFeedback::Succeeded
                } else {
                    ActionFeedback::Failed
                },
            ),
    {
        self.save_note_feedback = Some(
            if saved {
                ActionFeedback::Succeeded
            } else {
                ActionFeedback::Failed
            },
        );
    }
}

/// The title of the note saved for a post-processing result: the template
/// name and the local date.
pub fn postprocess_note_title(template_name: &str, year: u32, month: u32, day: u32) -> (r: String)
    ensures
        r@ == template_name@ + " - "@ + crate::text::decimal(year as nat) + seq!['-']
            + crate::text::padded_decimal(month as nat, 2) + seq!['-'] + crate::text::padded_decimal(
            day as nat,
            2,
        ),
{
    let mut r = template_name.to_owned();
    r.append(" - ");
    crate::text::push_decimal(&mut r, year as u64);
    r.push('-');
    crate::text::push_padded(&mut r, month as u64, 2);
    r.push('-');
    crate::text::push_padded(&mut r, day as u64, 2);
    proof {
        reveal_strlit(" - ");
    }
    r
}

} // verus!
