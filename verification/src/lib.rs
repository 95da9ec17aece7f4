//! A small full-text search engine for a note-serving application.
//!
//! A batch of documents, each with a file identifier, a title, free-form
//! tags and a body, is indexed once into an on-disk inverted index; ranked
//! keyword queries, optionally scoped to single fields, are answered from
//! that index for the rest of the process lifetime.

mod configuration;
mod engine;
mod fields;
mod laws;
mod model;
mod tantivy_api;

pub use configuration::Configuration;
pub use engine::{BuildError, NoteData, RetrievedNote, SearchEngine, batch_entries, batch_view, field_to_string, field_to_string_vec, note_from_document};
pub use fields::SchemaField;
pub use laws::{lemma_entries_for_concat, lemma_entries_for_tagged, lemma_hit_restores_note, lemma_note_entries_by_field, lemma_note_round_trip};
pub use model::{DocEntries, NoteView, RetrievedNoteView, entries_for, first_text_or_empty, note_entries, opt_text_view, opt_texts_view, some_texts, strings_view, tagged_entries, texts_or_empty};
pub use tantivy_api::{NoteWriter, builder_len, builder_names, builder_stored, doc_entries, field_key, field_keys, index_stored, opts_stored, parser_conjunctive, parser_fields, parses, schema_stored, writer_docs};
