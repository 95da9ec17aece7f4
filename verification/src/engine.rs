use vstd::prelude::*;

use crate::fields::SchemaField;
use crate::model::{
    DocEntries, NoteView, RetrievedNoteView, entries_for, first_text_or_empty, note_entries,
    texts_or_empty,
};
use crate::tantivy_api::{
    acquire_searcher, add_document, add_text_field, build_schema, builder_stored, commit_writer,
    create_index, create_writer, doc_add_text, doc_all_texts, doc_entries, doc_first_text,
    fetch_doc, field_key, field_keys, index_stored, new_document, new_schema_builder, open_reader,
    opts_stored, parse_and_search, parser_conjunctive, parser_fields, parser_for_index,
    plain_text_options, schema_stored, set_conjunction, stored_text_options, writer_docs,
};

verus! {

/// One document of the input batch: a unique file identifier, a title, any
/// number of tags (order kept, duplicates allowed) and the body text.
pub struct NoteData {
    pub file: String,
    pub title: String,
    pub tags: Vec<String>,
    pub content: String,
}

impl View for NoteData {
    type V = NoteView;

    open spec fn view(&self) -> NoteView {
        NoteView {
            file: self.file@,
            title: self.title@,
            tags: crate::model::strings_view(self.tags@),
            content: self.content@,
        }
    }
}

/// One search hit: the stored `file`, `title` and `tags` texts read back
/// from the matched document, and its relevance score, carried as the bit
/// representation of an IEEE 754 single-precision value (higher scores
/// compare higher; the caller turns the bits back into a number).
pub struct RetrievedNote {
    pub file: String,
    pub title: String,
    pub tags: Vec<String>,
    pub score_bits: u32,
}

impl View for RetrievedNote {
    type V = RetrievedNoteView;

    open spec fn view(&self) -> RetrievedNoteView {
        RetrievedNoteView {
            file: self.file@,
            title: self.title@,
            tags: crate::model::strings_view(self.tags@),
            score_bits: self.score_bits,
        }
    }
}

/// Why a build failed. Every variant is fatal to the whole build: no usable
/// engine is returned and the caller must treat the index directory as
/// garbage.
#[derive(Clone, Copy, PartialEq, Eq, Structural, Debug)]
pub enum BuildError {
    /// The index directory could not be opened, or a fresh index could not
    /// be created in it.
    IndexCreation,
    /// The index writer could not be acquired.
    WriterCreation,
    /// Writing one of the documents failed.
    DocumentWrite,
    /// The final atomic commit failed.
    Commit,
    /// The reader over the committed index could not be opened.
    ReaderOpen,
}

/// The models of a batch of notes, in input order.
pub open spec fn batch_view(notes: Seq<NoteData>) -> Seq<NoteView> {
    notes.map_values(|n: NoteData| n@)
}

/// Reads back the first value stored under `field`, or the empty string
/// when the field is absent from the document or its first value is not
/// text.
pub fn field_to_string(doc: &tantivy::schema::TantivyDocument, field: tantivy::schema::Field) -> (r:
    String)
    ensures
        r@ == first_text_or_empty(entries_for(doc_entries(*doc), field_key(field))),
{
    match doc_first_text(doc, field) {
        Some(s) => s.to_owned(),
        None => String::new(),
    }
}

/// Reads back every value stored under `field`, in storage order, a
/// non-text value defaulting to the empty string.
pub fn field_to_string_vec(
    doc: &tantivy::schema::TantivyDocument,
    field: tantivy::schema::Field,
) -> (r: Vec<String>)
    ensures
        crate::model::strings_view(r@) == texts_or_empty(
            entries_for(doc_entries(*doc), field_key(field)),
        ),
{
    let ghost values = entries_for(doc_entries(*doc), field_key(field));
    let texts = doc_all_texts(doc, field);
    let mut out: Vec<String> = Vec::new();
    let mut i: usize = 0;
    while i < texts.len()
        invariant
            i <= texts.len(),
            crate::model::opt_texts_view(texts@) == values,
            crate::model::strings_view(out@) =~= texts_or_empty(values).take(i as int),
        decreases texts.len() - i,
    {
        proof {
            assert(crate::model::opt_texts_view(texts@)[i as int] == crate::model::opt_text_view(
                texts@[i as int],
            ));
            assert(texts_or_empty(values)[i as int] == match values[i as int] {
                Some(t) => t,
                None => Seq::<char>::empty(),
            });
        }
        let ghost out_before = out@;
        let text = match texts[i] {
            Some(s) => s.to_owned(),
            None => String::new(),
        };
        assert(text@ == texts_or_empty(values)[i as int]);
        out.push(text);
        i = i + 1;
        proof {
            assert forall|k: int| 0 <= k < out@.len() implies crate::model::strings_view(out@)[k]
                == texts_or_empty(values).take(i as int)[k] by {
                assert(crate::model::strings_view(out_before).len() == i - 1);
                if k < i - 1 {
                    assert(crate::model::strings_view(out_before)[k] == texts_or_empty(
                        values,
                    ).take(i - 1)[k]);
                    assert(out@[k] == out_before[k]);
                }
            }
            assert(values.len() == texts@.len());
            assert(crate::model::strings_view(out_before).len() == out_before.len());
            assert(out@.len() == i);
            assert(crate::model::strings_view(out@) =~= texts_or_empty(values).take(i as int));
        }
    }
    proof {
        assert(texts_or_empty(values).take(texts@.len() as int) =~= texts_or_empty(values));
    }
    out
}

/// Assembles one search hit from a document read back from the index: the
/// first stored value under the file and title fields (empty when absent),
/// every stored value under the tags field in storage order, and the given
/// relevance score bits.
pub fn note_from_document(
    doc: &tantivy::schema::TantivyDocument,
    file_field: tantivy::schema::Field,
    title_field: tantivy::schema::Field,
    tags_field: tantivy::schema::Field,
    score_bits: u32,
) -> (r: RetrievedNote)
    ensures
        r@.file == first_text_or_empty(entries_for(doc_entries(*doc), field_key(file_field))),
        r@.title == first_text_or_empty(entries_for(doc_entries(*doc), field_key(title_field))),
        r@.tags == texts_or_empty(entries_for(doc_entries(*doc), field_key(tags_field))),
        r@.score_bits == score_bits,
{
    RetrievedNote {
        file: field_to_string(doc, file_field),
        title: field_to_string(doc, title_field),
        tags: field_to_string_vec(doc, tags_field),
        score_bits,
    }
}

/// Builds the index document for one note: the file identifier, title and
/// content as one text value each, then one value per tag.
fn make_document(
    note: &NoteData,
    file_field: tantivy::schema::Field,
    title_field: tantivy::schema::Field,
    tags_field: tantivy::schema::Field,
    content_field: tantivy::schema::Field,
) -> (d: tantivy::schema::TantivyDocument)
    requires
        field_key(file_field) <= u16::MAX,
        field_key(title_field) <= u16::MAX,
        field_key(tags_field) <= u16::MAX,
        field_key(content_field) <= u16::MAX,
    ensures
        doc_entries(d) == note_entries(
            note@,
            field_key(file_field),
            field_key(title_field),
            field_key(tags_field),
            field_key(content_field),
        ),
{
    let ghost fk = field_key(file_field);
    let ghost tk = field_key(title_field);
    let ghost gk = field_key(tags_field);
    let ghost ck = field_key(content_field);
    let mut d = new_document();
    doc_add_text(&mut d, file_field, self_str(&note.file));
    doc_add_text(&mut d, title_field, self_str(&note.title));
    doc_add_text(&mut d, content_field, self_str(&note.content));
    let ghost prefix: DocEntries = seq![
        (fk, Some(note@.file)),
        (tk, Some(note@.title)),
        (ck, Some(note@.content)),
    ];
    assert(doc_entries(d) =~= prefix);
    let mut j: usize = 0;
    while j < note.tags.len()
        invariant
            j <= note.tags.len(),
            field_key(tags_field) == gk,
            gk <= u16::MAX,
            doc_entries(d) =~= prefix + crate::model::tagged_entries(
                note@.tags.take(j as int),
                gk,
            ),
        decreases note.tags.len() - j,
    {
        doc_add_text(&mut d, tags_field, self_str(&note.tags[j]));
        j = j + 1;
        proof {
            assert(doc_entries(d) =~= prefix + crate::model::tagged_entries(
                note@.tags.take(j as int),
                gk,
            ));
        }
    }
    proof {
        assert(note@.tags.take(note.tags@.len() as int) =~= note@.tags);
        assert(doc_entries(d) =~= note_entries(note@, fk, tk, gk, ck));
    }
    d
}

/// Borrows a string's text.
fn self_str(s: &String) -> (r: &str)
    ensures
        r@ == s@,
{
    s.as_str()
}

/// Memory budget handed to the index writer, in bytes.
pub const WRITER_MEMORY_BUDGET_BYTES: usize = 50_000_000;

/// The index documents written for a batch of notes, in input order.
pub open spec fn batch_entries(
    notes: Seq<NoteData>,
    file_key: int,
    title_key: int,
    tags_key: int,
    content_key: int,
) -> Seq<DocEntries> {
    notes.map_values(|n: NoteData| note_entries(n@, file_key, title_key, tags_key, content_key))
}

/// A handle to one committed, immutable on-disk index, with a reader bound
/// to it. Built once; then shared read-only for the life of the process.
pub struct SearchEngine {
    index: tantivy::Index,
    file_field: tantivy::schema::Field,
    title_field: tantivy::schema::Field,
    tags_field: tantivy::schema::Field,
    content_field: tantivy::schema::Field,
    reader: tantivy::IndexReader,
    indexed: Ghost<Seq<NoteView>>,
}

impl SearchEngine {
    /// The engine's field handles are the four schema fields in definition
    /// order — so they are pairwise distinct and small enough for
    /// tantivy's compact document encoding — and the index was created
    /// under the required storedness mapping: `file`, `title` and `tags`
    /// stored, `content` not.
    #[verifier::type_invariant]
    pub closed spec fn wf(self) -> bool {
        &&& field_key(self.file_field) == 0
        &&& field_key(self.title_field) == 1
        &&& field_key(self.tags_field) == 2
        &&& field_key(self.content_field) == 3
        &&& index_stored(self.index) == seq![
            SchemaField::File.spec_is_stored(),
            SchemaField::Title.spec_is_stored(),
            SchemaField::Tags.spec_is_stored(),
            SchemaField::Content.spec_is_stored(),
        ]
    }

    /// The models of the notes this engine indexed, in input order.
    pub closed spec fn indexed_notes(self) -> Seq<NoteView> {
        self.indexed@
    }

    /// Builds a fresh index at `index_path` from the given batch.
    ///
    /// Any index a previous build left at the same path is erased first:
    /// after a rebuild only the new batch is represented, with no residue
    /// of the old one. Every document of the batch is written, in input
    /// order, and the whole batch is committed atomically before the
    /// reader is opened; on any failure the build returns an error and no
    /// usable engine. `index_path` must name a directory that already
    /// exists; the caller creates it when missing (directory creation is
    /// I/O this library does not perform), and a path that cannot be
    /// opened fails the build with [`BuildError::IndexCreation`].
    pub fn build(note_data_vec: Vec<NoteData>, index_path: &str) -> (r: Result<
        SearchEngine,
        BuildError,
    >)
        ensures
            r matches Ok(engine) ==> {
                &&& engine.wf()
                &&& engine.indexed_notes() == batch_view(note_data_vec@)
            },
    {
        let mut builder = new_schema_builder();
        proof {
            reveal_strlit("file");
            reveal_strlit("title");
            reveal_strlit("tags");
            reveal_strlit("content");
            assert("file"@[0] != "tags"@[0]);
            assert("file"@ != "tags"@);
            assert("file"@.len() != "title"@.len() && "file"@ != "title"@);
            assert("title"@.len() != "tags"@.len() && "title"@ != "tags"@);
            assert("content"@.len() != "file"@.len() && "content"@ != "file"@);
            assert("content"@.len() != "title"@.len() && "content"@ != "title"@);
            assert("content"@.len() != "tags"@.len() && "content"@ != "tags"@);
        }
        let file_field = add_text_field(
            &mut builder,
            SchemaField::File.name(),
            options_for(SchemaField::File),
        );
        let title_field = add_text_field(
            &mut builder,
            SchemaField::Title.name(),
            options_for(SchemaField::Title),
        );
        let tags_field = add_text_field(
            &mut builder,
            SchemaField::Tags.name(),
            options_for(SchemaField::Tags),
        );
        let content_field = add_text_field(
            &mut builder,
            SchemaField::Content.name(),
            options_for(SchemaField::Content),
        );
        let ghost fk = field_key(file_field);
        let ghost tk = field_key(title_field);
        let ghost gk = field_key(tags_field);
        let ghost ck = field_key(content_field);
        proof {
            assert(builder_stored(builder) =~= seq![
                SchemaField::File.spec_is_stored(),
                SchemaField::Title.spec_is_stored(),
                SchemaField::Tags.spec_is_stored(),
                SchemaField::Content.spec_is_stored(),
            ]);
        }
        let ghost stored_model = builder_stored(builder);
        let schema = build_schema(builder);
        let ghost schema_model = schema_stored(schema);
        proof {
            assert(schema_model == stored_model);
        }

        let index = match create_index(index_path, schema) {
            Ok(index) => index,
            Err(_) => return Err(BuildError::IndexCreation),
        };
        proof {
            assert(index_stored(index) == schema_model);
        }
        let mut writer = match create_writer(&index, WRITER_MEMORY_BUDGET_BYTES) {
            Ok(writer) => writer,
            Err(_) => return Err(BuildError::WriterCreation),
        };

        let mut i: usize = 0;
        while i < note_data_vec.len()
            invariant
                i <= note_data_vec.len(),
                field_key(file_field) == fk,
                field_key(title_field) == tk,
                field_key(tags_field) == gk,
                field_key(content_field) == ck,
                0 <= fk <= u16::MAX,
                0 <= tk <= u16::MAX,
                0 <= gk <= u16::MAX,
                0 <= ck <= u16::MAX,
                writer_docs(writer) =~= batch_entries(
                    note_data_vec@.take(i as int),
                    fk,
                    tk,
                    gk,
                    ck,
                ),
            decreases note_data_vec.len() - i,
        {
            let document = make_document(
                &note_data_vec[i],
                file_field,
                title_field,
                tags_field,
                content_field,
            );
            match add_document(&mut writer, document) {
                Ok(_) => {},
                Err(_) => return Err(BuildError::DocumentWrite),
            }
            i = i + 1;
            proof {
                assert(note_data_vec@.take(i as int) =~= note_data_vec@.take(i - 1).push(
                    note_data_vec@[i - 1],
                ));
                assert(writer_docs(writer) =~= batch_entries(
                    note_data_vec@.take(i as int),
                    fk,
                    tk,
                    gk,
                    ck,
                ));
            }
        }

        match commit_writer(&mut writer) {
            Ok(_) => {},
            Err(_) => return Err(BuildError::Commit),
        }
        let reader = match open_reader(&index) {
            Ok(reader) => reader,
            Err(_) => return Err(BuildError::ReaderOpen),
        };

        Ok(
            SearchEngine {
                index,
                file_field,
                title_field,
                tags_field,
                content_field,
                reader,
                indexed: Ghost(batch_view(note_data_vec@)),
            },
        )
    }

    /// Answers one ranked query against the committed index.
    ///
    /// A bare term is matched in any of the four fields; `field:term`
    /// syntax restricts a term to one field; separate terms are combined
    /// by conjunction. At most `limit` hits come back, ranked by the
    /// index's relevance score in descending order, and each is read back
    /// through [`field_to_string`] and [`field_to_string_vec`]: first
    /// stored `file` and `title` value (empty when absent), all stored
    /// `tags` values in storage order. A hit whose document cannot be
    /// read back is skipped silently. A query the parser rejects, or a
    /// failed execution, yields `None`; a well-formed query with no
    /// matches yields `Some` of the empty list.
    pub fn search(&self, search_term: &str, limit: usize) -> (r: Option<Vec<RetrievedNote>>)
        requires
            limit >= 1,
        ensures
            r matches Some(results) ==> {
                &&& results@.len() <= limit
                &&& forall|a: int, b: int|
                    0 <= a < b < results@.len() ==> #[trigger] results@[a]@.score_bits
                        >= #[trigger] results@[b]@.score_bits
            },
    {
        proof {
            use_type_invariant(self);
        }
        let searcher = acquire_searcher(&self.reader);
        let mut default_fields: Vec<tantivy::schema::Field> = Vec::new();
        default_fields.push(self.file_field);
        default_fields.push(self.title_field);
        default_fields.push(self.tags_field);
        default_fields.push(self.content_field);
        proof {
            assert(field_keys(default_fields@) =~= seq![0int, 1int, 2int, 3int]);
        }
        let mut parser = parser_for_index(&self.index, default_fields);
        set_conjunction(&mut parser);
        proof {
            // The parser is configured as the query contract demands: a
            // bare term goes against the four schema fields, and separate
            // terms are combined by conjunction.
            assert(parser_fields(parser) == seq![0int, 1int, 2int, 3int]);
            assert(parser_conjunctive(parser));
        }

        let hits = match parse_and_search(&parser, &searcher, search_term, limit) {
            Ok(hits) => hits,
            Err(_) => return None,
        };

        let mut responses: Vec<RetrievedNote> = Vec::new();
        let mut i: usize = 0;
        while i < hits.len()
            invariant
                i <= hits.len(),
                hits@.len() <= limit,
                responses@.len() <= i,
                forall|x: int, y: int|
                    0 <= x < y < hits@.len() ==> #[trigger] hits@[x].0 >= #[trigger] hits@[y].0,
                forall|a: int, b: int|
                    0 <= a < b < responses@.len() ==> #[trigger] responses@[a]@.score_bits
                        >= #[trigger] responses@[b]@.score_bits,
                forall|a: int, j: int|
                    0 <= a < responses@.len() && i <= j < hits@.len()
                        ==> #[trigger] responses@[a]@.score_bits >= #[trigger] hits@[j].0,
            decreases hits.len() - i,
        {
            let hit = &hits[i];
            match fetch_doc(&searcher, &hit.1) {
                Ok(document) => {
                    let note = note_from_document(
                        &document,
                        self.file_field,
                        self.title_field,
                        self.tags_field,
                        hit.0,
                    );
                    responses.push(note);
                },
                Err(_) => {},
            }
            i = i + 1;
        }
        Some(responses)
    }
}

/// The text options for one schema field: every field is indexed and
/// tokenized; a stored field additionally keeps its original text for
/// retrieval.
fn options_for(field: SchemaField) -> (r: tantivy::schema::TextOptions)
    ensures
        opts_stored(r) == field.spec_is_stored(),
{
    if field.is_stored() {
        stored_text_options()
    } else {
        plain_text_options()
    }
}

} // verus!
