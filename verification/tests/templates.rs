use transcribe_kit::models::{AppSettings, PostProcessTemplate};
use transcribe_kit::templates::{
    default_templates, extract_note_slots, find_template_by_id, render_template, TemplateStore,
};

fn notes(pairs: &[(&str, &str)]) -> Vec<(String, String)> {
    pairs.iter().map(|(k, v)| (k.to_string(), v.to_string())).collect()
}

fn store() -> TemplateStore {
    TemplateStore::with_path("/tmp/transcribe-kit-tests/templates.json".to_string())
}

#[test]
fn load_returns_defaults_when_file_missing() {
    let templates = store().load(None);

    assert_eq!(templates.len(), 3);
    assert_eq!(templates[0].id, "builtin-cleanup");
    assert_eq!(templates[1].id, "builtin-meeting-notes");
    assert_eq!(templates[2].id, "builtin-summary");
}

#[test]
fn load_returns_defaults_when_file_is_invalid_json() {
    // A file that does not parse reaches `load` as no stored list.
    let templates = store().load(None);

    assert_eq!(templates.len(), 3);
    assert_eq!(templates[0].id, "builtin-cleanup");
}

#[test]
fn load_returns_empty_vec_when_file_contains_empty_array() {
    let templates = store().load(Some(Vec::new()));
    assert!(templates.is_empty());
}

#[test]
fn load_preserves_template_order() {
    let templates = vec![
        PostProcessTemplate {
            id: "c".to_string(),
            name: "Charlie".to_string(),
            prompt: "{{transcript}}".to_string(),
        },
        PostProcessTemplate {
            id: "a".to_string(),
            name: "Alpha".to_string(),
            prompt: "{{transcript}}".to_string(),
        },
        PostProcessTemplate {
            id: "b".to_string(),
            name: "Bravo".to_string(),
            prompt: "{{transcript}}".to_string(),
        },
    ];
    let loaded = store().load(Some(templates));
    assert_eq!(loaded[0].id, "c");
    assert_eq!(loaded[1].id, "a");
    assert_eq!(loaded[2].id, "b");
}

#[test]
fn template_store_keeps_its_file_path() {
    assert_eq!(store().file_path(), "/tmp/transcribe-kit-tests/templates.json");
    let from_dir = TemplateStore::from_config_dir(Some("/tmp/cfg".to_string())).expect("store");
    assert_eq!(from_dir.file_path(), "/tmp/cfg/templates.json");
    assert!(TemplateStore::from_config_dir(None).is_err());
}

#[test]
fn default_templates_all_contain_placeholder() {
    for template in default_templates() {
        assert!(
            template.prompt.contains("{{transcript}}"),
            "template '{}' is missing {{{{transcript}}}} placeholder",
            template.name
        );
    }
}

#[test]
fn postprocess_model_defaults_to_gpt4o_mini() {
    let defaults = AppSettings::default();
    assert_eq!(defaults.postprocess_model, "gpt-4o-mini");
}

#[test]
fn find_template_by_id_returns_matching_template() {
    let templates = default_templates();
    let found = find_template_by_id(&templates, "builtin-cleanup");
    assert!(found.is_some());
    assert_eq!(found.unwrap().name, "Clean up transcript");
}

#[test]
fn find_template_by_id_returns_none_for_missing_id() {
    let templates = default_templates();
    let found = find_template_by_id(&templates, "nonexistent-id");
    assert!(found.is_none());
}

#[test]
fn find_template_by_id_returns_none_for_empty_list() {
    let templates: Vec<PostProcessTemplate> = vec![];
    let found = find_template_by_id(&templates, "any-id");
    assert!(found.is_none());
}

#[test]
fn extract_note_slots_finds_single_slot() {
    let slots = extract_note_slots("Context: {{note1}}");
    assert_eq!(slots, vec!["note1"]);
}

#[test]
fn extract_note_slots_finds_multiple_sorted() {
    let slots = extract_note_slots("{{note2}} then {{note1}}");
    assert_eq!(slots, vec!["note1", "note2"]);
}

#[test]
fn extract_note_slots_deduplicates() {
    let slots = extract_note_slots("{{note1}} and {{note1}} again");
    assert_eq!(slots, vec!["note1"]);
}

#[test]
fn extract_note_slots_ignores_transcript() {
    let slots = extract_note_slots("{{transcript}} only");
    assert!(slots.is_empty());
}

#[test]
fn extract_note_slots_ignores_non_digit_suffix() {
    let slots = extract_note_slots("{{noteABC}}");
    assert!(slots.is_empty());
}

#[test]
fn extract_note_slots_returns_empty_for_no_slots() {
    let slots = extract_note_slots("Just plain text.");
    assert!(slots.is_empty());
}

#[test]
fn extract_note_slots_orders_slots_as_text() {
    let slots = extract_note_slots("{{note10}} {{note2}} {{note1}} {{note}}");
    assert_eq!(slots, vec!["note1", "note10", "note2"]);
}

#[test]
fn render_template_replaces_transcript_only() {
    let result = render_template("Say: {{transcript}}", "hello", &notes(&[]));
    assert_eq!(result.unwrap(), "Say: hello");
}

#[test]
fn render_template_replaces_single_note_slot() {
    let result = render_template("Context: {{note1}}", "", &notes(&[("note1", "Meeting context.")]));
    assert_eq!(result.unwrap(), "Context: Meeting context.");
}

#[test]
fn render_template_replaces_multiple_slots() {
    let result = render_template(
        "A: {{note1}}\nB: {{note2}}",
        "",
        &notes(&[("note1", "First note."), ("note2", "Second note.")]),
    );
    let rendered = result.unwrap();
    assert!(rendered.contains("A: First note."));
    assert!(rendered.contains("B: Second note."));
}

#[test]
fn render_template_replaces_transcript_and_notes() {
    let result = render_template(
        "Transcript: {{transcript}}\nContext: {{note1}}",
        "Hello world",
        &notes(&[("note1", "Prior notes.")]),
    );
    let rendered = result.unwrap();
    assert!(rendered.contains("Transcript: Hello world"));
    assert!(rendered.contains("Context: Prior notes."));
}

#[test]
fn render_template_errors_on_unresolved_slot() {
    let result = render_template("See: {{note1}}", "", &notes(&[]));
    let err = result.unwrap_err();
    assert!(err.contains("note1"));
}

#[test]
fn render_template_no_placeholders() {
    let result = render_template("No placeholders.", "", &notes(&[]));
    assert_eq!(result.unwrap(), "No placeholders.");
}

#[test]
fn render_template_same_note_in_multiple_slots() {
    let result = render_template("A: {{note1}} B: {{note1}}", "", &notes(&[("note1", "Same content.")]));
    assert_eq!(result.unwrap(), "A: Same content. B: Same content.");
}

#[test]
fn render_template_fills_the_transcript_before_the_notes() {
    let result = render_template(
        "{{note1}} / {{transcript}}",
        "{{note1}}",
        &notes(&[("note1", "{{transcript}}")]),
    );
    assert_eq!(result.unwrap(), "{{transcript}} / {{transcript}}");
}
