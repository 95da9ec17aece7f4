//! The trusted boundary to the tantivy search library.
//!
//! Everything the engine needs from tantivy is reached through the items in
//! this module: type declarations for tantivy's opaque handles, uninterpreted
//! names for what those handles contain, and thin wrappers whose contracts
//! state what tantivy's own source shows about each call.

use vstd::prelude::*;

use tantivy::schema::Value;

use crate::model::DocEntries;

verus! {

// ---------------------------------------------------------------------------
// Declarations of tantivy's types. Verus treats each as opaque; what the
// contracts need to say about their contents is said through the
// uninterpreted names below.
// ---------------------------------------------------------------------------

#[verifier::external_type_specification]
#[verifier::external_body]
pub struct ExTantivyError(tantivy::TantivyError);

#[verifier::external_type_specification]
#[verifier::external_body]
pub struct ExField(tantivy::schema::Field);

#[verifier::external_type_specification]
#[verifier::external_body]
pub struct ExSchemaBuilder(tantivy::schema::SchemaBuilder);

#[verifier::external_type_specification]
#[verifier::external_body]
pub struct ExSchema(tantivy::schema::Schema);

#[verifier::external_type_specification]
#[verifier::external_body]
pub struct ExTextOptions(tantivy::schema::TextOptions);

#[verifier::external_type_specification]
#[verifier::external_body]
pub struct ExIndex(tantivy::Index);

// ---------------------------------------------------------------------------
// Names for what the declared types hold.
// ---------------------------------------------------------------------------

/// The field identifier held by a `Field` handle (tantivy represents a field
/// as an unsigned 32-bit index into the schema's field list).
pub uninterp spec fn field_key(f: tantivy::schema::Field) -> int;

/// How many fields have been added to a schema builder.
pub uninterp spec fn builder_len(b: tantivy::schema::SchemaBuilder) -> int;

/// The names of the fields added to a schema builder so far.
pub uninterp spec fn builder_names(b: tantivy::schema::SchemaBuilder) -> Set<Seq<char>>;

/// Whether a set of text options marks the field as stored: a stored
/// field's original text can be read back verbatim from a matched
/// document.
pub uninterp spec fn opts_stored(o: tantivy::schema::TextOptions) -> bool;

/// Whether each field added to a schema builder so far is stored, in the
/// order the fields were added.
pub uninterp spec fn builder_stored(b: tantivy::schema::SchemaBuilder) -> Seq<bool>;

/// Whether each field of a finished schema is stored, in field-identifier
/// order.
pub uninterp spec fn schema_stored(s: tantivy::schema::Schema) -> Seq<bool>;

/// Whether each field of the schema an index was created with is stored,
/// in field-identifier order.
pub uninterp spec fn index_stored(i: tantivy::Index) -> Seq<bool>;

// ---------------------------------------------------------------------------
// Wrappers around the schema-building calls.
// ---------------------------------------------------------------------------

/// Relies on `Schema::builder`: a fresh builder holds no fields.
#[verifier::external_body]
pub(crate) fn new_schema_builder() -> (b: tantivy::schema::SchemaBuilder)
    ensures
        builder_len(b) == 0,
        builder_names(b) == Set::<Seq<char>>::empty(),
        builder_stored(b) == Seq::<bool>::empty(),
{
    tantivy::schema::Schema::builder()
}

/// Relies on tantivy's `TEXT | STORED` option constants: a tokenized,
/// indexed field whose original text is also stored for retrieval.
#[verifier::external_body]
pub(crate) fn stored_text_options() -> (r: tantivy::schema::TextOptions)
    ensures
        opts_stored(r),
{
    tantivy::schema::TEXT | tantivy::schema::STORED
}

/// Relies on tantivy's `TEXT` option constant: a tokenized, indexed field
/// that is not stored.
#[verifier::external_body]
pub(crate) fn plain_text_options() -> (r: tantivy::schema::TextOptions)
    ensures
        !opts_stored(r),
{
    tantivy::schema::TEXT
}

/// Relies on `SchemaBuilder::add_text_field`: the new field's identifier is
/// the number of fields added before it, so successively added fields get
/// distinct identifiers, and the field keeps the storedness of the options
/// it was added with. Adding a name twice panics, hence the precondition.
#[verifier::external_body]
pub(crate) fn add_text_field(
    b: &mut tantivy::schema::SchemaBuilder,
    name: &str,
    options: tantivy::schema::TextOptions,
) -> (f: tantivy::schema::Field)
    requires
        !builder_names(*old(b)).contains(name@),
        builder_len(*old(b)) < u32::MAX,
    ensures
        field_key(f) == builder_len(*old(b)),
        builder_len(*final(b)) == builder_len(*old(b)) + 1,
        builder_names(*final(b)) == builder_names(*old(b)).insert(name@),
        builder_stored(*final(b)) == builder_stored(*old(b)).push(opts_stored(options)),
{
    b.add_text_field(name, options)
}

/// Relies on `SchemaBuilder::build`, which finalizes the schema with the
/// fields added so far, in order.
#[verifier::external_body]
pub(crate) fn build_schema(b: tantivy::schema::SchemaBuilder) -> (s: tantivy::schema::Schema)
    ensures
        schema_stored(s) == builder_stored(b),
{
    b.build()
}

/// Relies on `MmapDirectory::open` and `Index::create`: opens the existing
/// directory at `path` and creates a fresh, empty index there under the
/// given schema, erasing any index a previous build left behind. Fails if
/// the directory cannot be opened or the fresh index metadata cannot be
/// written.
#[verifier::external_body]
pub(crate) fn create_index(path: &str, schema: tantivy::schema::Schema) -> (r: Result<
    tantivy::Index,
    tantivy::TantivyError,
>)
    ensures
        r matches Ok(i) ==> index_stored(i) == schema_stored(schema),
{
    let dir = tantivy::directory::MmapDirectory::open(path)?;
    tantivy::Index::create(dir, schema, tantivy::IndexSettings::default())
}

// ---------------------------------------------------------------------------
// Declarations and names for documents and the index writer.
// ---------------------------------------------------------------------------

#[verifier::external_type_specification]
#[verifier::external_body]
pub struct ExTantivyDocument(tantivy::schema::TantivyDocument);

/// Holds tantivy's `IndexWriter`, whose declaration Verus refuses (its type
/// parameter is bounded by an outside trait). The writer is reached only
/// through the wrappers below; [`writer_docs`] names what it holds.
#[verifier::external_body]
pub struct NoteWriter {
    writer: tantivy::IndexWriter<tantivy::schema::TantivyDocument>,
}

/// The field/value pairs held by a document, in the order they were added.
pub uninterp spec fn doc_entries(d: tantivy::schema::TantivyDocument) -> DocEntries;

/// The documents added through a writer since it was created, in order.
pub uninterp spec fn writer_docs(w: NoteWriter) -> Seq<DocEntries>;

/// Relies on `TantivyDocument::new`: a fresh document holds no values.
#[verifier::external_body]
pub(crate) fn new_document() -> (d: tantivy::schema::TantivyDocument)
    ensures
        doc_entries(d) == Seq::<(int, Option<Seq<char>>)>::empty(),
{
    tantivy::schema::TantivyDocument::new()
}

/// Relies on `TantivyDocument::add_text`: appends one text value under the
/// given field. Field identifiers above `u16::MAX` panic in tantivy's
/// compact document encoding, hence the precondition.
#[verifier::external_body]
pub(crate) fn doc_add_text(
    d: &mut tantivy::schema::TantivyDocument,
    field: tantivy::schema::Field,
    text: &str,
)
    requires
        field_key(field) <= u16::MAX,
    ensures
        doc_entries(*final(d)) == doc_entries(*old(d)).push((field_key(field), Some(text@))),
{
    d.add_text(field, text)
}

/// Relies on `Index::writer`: a newly acquired writer has had no documents
/// added through it. Fails when the memory budget is out of tantivy's
/// accepted range or the writer's threads cannot be started.
#[verifier::external_body]
pub(crate) fn create_writer(index: &tantivy::Index, memory_budget_bytes: usize) -> (r: Result<
    NoteWriter,
    tantivy::TantivyError,
>)
    ensures
        r matches Ok(w) ==> writer_docs(w) == Seq::<DocEntries>::empty(),
{
    Ok(NoteWriter { writer: index.writer(memory_budget_bytes)? })
}

/// Relies on `IndexWriter::add_document`: queues one more document, after
/// the ones already added.
#[verifier::external_body]
pub(crate) fn add_document(
    w: &mut NoteWriter,
    d: tantivy::schema::TantivyDocument,
) -> (r: Result<u64, tantivy::TantivyError>)
    ensures
        r matches Ok(_) ==> writer_docs(*final(w)) == writer_docs(*old(w)).push(doc_entries(d)),
{
    w.writer.add_document(d)
}

/// Relies on `IndexWriter::commit`: publishes every document added so far
/// as one atomic batch; on failure no part of the batch becomes visible.
#[verifier::external_body]
pub(crate) fn commit_writer(w: &mut NoteWriter) -> (r: Result<u64, tantivy::TantivyError>)
    ensures
        r matches Ok(_) ==> writer_docs(*final(w)) == writer_docs(*old(w)),
{
    w.writer.commit()
}

// ---------------------------------------------------------------------------
// Declarations and wrappers for the read side.
// ---------------------------------------------------------------------------

#[verifier::external_type_specification]
#[verifier::external_body]
pub struct ExIndexReader(tantivy::IndexReader);

#[verifier::external_type_specification]
#[verifier::external_body]
pub struct ExSearcher(tantivy::Searcher);

#[verifier::external_type_specification]
#[verifier::external_body]
pub struct ExQueryParser(tantivy::query::QueryParser);

#[verifier::external_type_specification]
#[verifier::external_body]
pub struct ExDocAddress(tantivy::DocAddress);

/// The identifiers of a query parser's default fields, in the order they
/// were given: the fields a bare, unscoped term is matched against.
pub uninterp spec fn parser_fields(p: tantivy::query::QueryParser) -> Seq<int>;

/// Whether the parser combines separate query terms by conjunction (AND)
/// rather than the disjunction (OR) it starts with.
pub uninterp spec fn parser_conjunctive(p: tantivy::query::QueryParser) -> bool;

/// Whether this parser accepts the query text as well-formed. Parsing
/// reads nothing but the parser value (its schema and tokenizers) and the
/// text, so the outcome is a function of the two.
pub uninterp spec fn parses(p: tantivy::query::QueryParser, query: Seq<char>) -> bool;

/// The identifiers of a sequence of field handles, in order.
pub open spec fn field_keys(fields: Seq<tantivy::schema::Field>) -> Seq<int> {
    fields.map_values(|f: tantivy::schema::Field| field_key(f))
}

/// Relies on `Index::reader_builder` with the on-commit reload policy: the
/// reader observes the index as of the latest commit at open time.
#[verifier::external_body]
pub(crate) fn open_reader(index: &tantivy::Index) -> Result<
    tantivy::IndexReader,
    tantivy::TantivyError,
> {
    index.reader_builder().reload_policy(tantivy::ReloadPolicy::OnCommitWithDelay).try_into()
}

/// Relies on `IndexReader::searcher`: hands out an independent, consistent
/// read snapshot of the committed index.
#[verifier::external_body]
pub(crate) fn acquire_searcher(reader: &tantivy::IndexReader) -> tantivy::Searcher {
    reader.searcher()
}

/// Relies on `QueryParser::for_index`: a parser whose default fields —
/// those a bare, unscoped term is matched against — are exactly the given
/// ones, and which starts out combining separate terms by disjunction.
#[verifier::external_body]
pub(crate) fn parser_for_index(
    index: &tantivy::Index,
    default_fields: Vec<tantivy::schema::Field>,
) -> (p: tantivy::query::QueryParser)
    ensures
        parser_fields(p) == field_keys(default_fields@),
        !parser_conjunctive(p),
{
    tantivy::query::QueryParser::for_index(index, default_fields)
}

/// Relies on `QueryParser::set_conjunction_by_default`: separate query
/// terms are thereafter combined with AND instead of OR; the default
/// fields are untouched.
#[verifier::external_body]
pub(crate) fn set_conjunction(parser: &mut tantivy::query::QueryParser)
    ensures
        parser_conjunctive(*final(parser)),
        parser_fields(*final(parser)) == parser_fields(*old(parser)),
{
    parser.set_conjunction_by_default()
}

/// Relies on `QueryParser::parse_query` and `Searcher::search` with a
/// `TopDocs` collector ordered by score: on success, at most `limit` hits
/// come back, each a relevance score (as its bit representation) with the
/// address of the matching document, in descending score order — the
/// collector sorts by decreasing BM25 score, those scores are never
/// negative, and on non-negative single-precision values the bit order is
/// the numeric order. A query this parser rejects is answered with an
/// error, as is a failed execution. The two calls share one wrapper
/// because the parsed query between them is a boxed trait object that
/// cannot be held in verified code. `TopDocs::with_limit` panics on a
/// limit of zero, hence the precondition.
#[verifier::external_body]
pub(crate) fn parse_and_search(
    parser: &tantivy::query::QueryParser,
    searcher: &tantivy::Searcher,
    query_text: &str,
    limit: usize,
) -> (r: Result<Vec<(u32, tantivy::DocAddress)>, tantivy::TantivyError>)
    requires
        limit >= 1,
    ensures
        r matches Ok(hits) ==> {
            &&& hits@.len() <= limit
            &&& parses(*parser, query_text@)
            &&& forall|x: int, y: int|
                0 <= x < y < hits@.len() ==> #[trigger] hits@[x].0 >= #[trigger] hits@[y].0
        },
        !parses(*parser, query_text@) ==> r is Err,
{
    let query = parser.parse_query(query_text)?;
    let collector = tantivy::collector::TopDocs::with_limit(limit).order_by_score();
    let hits = searcher.search(&query, &collector)?;
    Ok(hits.into_iter().map(|(score, address)| (score.to_bits(), address)).collect())
}

/// Relies on `Searcher::doc`: reads the stored fields of one document back
/// from the committed index. `Searcher::doc` indexes its per-segment store
/// readers by the address's segment ordinal unchecked, so an address from
/// beyond this searcher's segments is answered with an error here instead
/// of being handed to tantivy.
#[verifier::external_body]
pub(crate) fn fetch_doc(searcher: &tantivy::Searcher, address: &tantivy::DocAddress) -> Result<
    tantivy::schema::TantivyDocument,
    tantivy::TantivyError,
> {
    if (address.segment_ord as usize) < searcher.segment_readers().len() {
        searcher.doc::<tantivy::schema::TantivyDocument>(*address)
    } else {
        Err(tantivy::TantivyError::InvalidArgument(String::from("segment ordinal out of range")))
    }
}

/// Relies on `TantivyDocument::get_first` and `Value::as_str`: the first
/// value stored under the field, as text when it is a text value.
#[verifier::external_body]
pub(crate) fn doc_first_text<'a>(
    doc: &'a tantivy::schema::TantivyDocument,
    field: tantivy::schema::Field,
) -> (r: Option<&'a str>)
    ensures
        ({
            let values = crate::model::entries_for(doc_entries(*doc), field_key(field));
            match r {
                Some(s) => values.len() > 0 && values[0] == Some(s@),
                None => values.len() == 0 || values[0] is None,
            }
        }),
{
    doc.get_first(field).and_then(|v| v.as_str())
}

/// Relies on `TantivyDocument::get_all` and `Value::as_str`: every value
/// stored under the field, in storage order, each as text when it is a text
/// value.
#[verifier::external_body]
pub(crate) fn doc_all_texts<'a>(
    doc: &'a tantivy::schema::TantivyDocument,
    field: tantivy::schema::Field,
) -> (r: Vec<Option<&'a str>>)
    ensures
        crate::model::opt_texts_view(r@) == crate::model::entries_for(
            doc_entries(*doc),
            field_key(field),
        ),
{
    doc.get_all(field).map(|v| v.as_str()).collect()
}

} // verus!
