use note_search::{Configuration, field_to_string, field_to_string_vec, note_from_document};
use tantivy::schema::{STORED, Schema, TEXT, TantivyDocument};

#[test]
fn first_value_or_empty_string() {
    let mut builder = Schema::builder();
    let one = builder.add_text_field("one", TEXT | STORED);
    let other = builder.add_text_field("other", TEXT | STORED);
    let _ = builder.build();

    let mut doc = TantivyDocument::new();
    doc.add_text(one, "first value");
    doc.add_text(one, "second value");

    assert_eq!(field_to_string(&doc, one), "first value");
    assert_eq!(field_to_string(&doc, other), "");
}

#[test]
fn all_values_in_storage_order() {
    let mut builder = Schema::builder();
    let tags = builder.add_text_field("tags", TEXT | STORED);
    let other = builder.add_text_field("other", TEXT | STORED);
    let _ = builder.build();

    let mut doc = TantivyDocument::new();
    doc.add_text(tags, "red");
    doc.add_text(tags, "green");
    doc.add_text(tags, "red");

    assert_eq!(
        field_to_string_vec(&doc, tags),
        vec![String::from("red"), String::from("green"), String::from("red")]
    );
    assert!(field_to_string_vec(&doc, other).is_empty());
}

#[test]
fn non_text_first_value_defaults_to_empty() {
    let mut builder = Schema::builder();
    let mixed = builder.add_text_field("mixed", TEXT | STORED);
    let _ = builder.build();

    let mut doc = TantivyDocument::new();
    doc.add_u64(mixed, 7);
    doc.add_text(mixed, "textual");

    assert_eq!(field_to_string(&doc, mixed), "");
    assert_eq!(
        field_to_string_vec(&doc, mixed),
        vec![String::from(""), String::from("textual")]
    );
}

#[test]
fn note_assembly_reads_stored_fields() {
    let mut builder = Schema::builder();
    let file = builder.add_text_field("file", TEXT | STORED);
    let title = builder.add_text_field("title", TEXT | STORED);
    let tags = builder.add_text_field("tags", TEXT | STORED);
    let _ = builder.build();

    let mut doc = TantivyDocument::new();
    doc.add_text(file, "note.md");
    doc.add_text(title, "a note");
    doc.add_text(tags, "one");
    doc.add_text(tags, "two");

    let note = note_from_document(&doc, file, title, tags, 2.5f32.to_bits());
    assert_eq!(note.file, "note.md");
    assert_eq!(note.title, "a note");
    assert_eq!(note.tags, vec![String::from("one"), String::from("two")]);
    assert_eq!(f32::from_bits(note.score_bits), 2.5);
}

#[test]
fn configuration_keeps_both_paths() {
    let configuration = Configuration::new(
        String::from("/tmp/summary.json"),
        String::from("/tmp/html"),
    );
    assert_eq!(configuration.summary_file_path, "/tmp/summary.json");
    assert_eq!(configuration.html_dir_path, "/tmp/html");
}
