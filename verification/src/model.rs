use vstd::prelude::*;

verus! {

/// Mathematical model of one document in a batch: the four field texts as
/// plain character sequences. `tags` keeps input order and may repeat.
pub struct NoteView {
    pub file: Seq<char>,
    pub title: Seq<char>,
    pub tags: Seq<Seq<char>>,
    pub content: Seq<char>,
}

/// Mathematical model of one search result: the stored texts read back for
/// a matching document, and the relevance score as its bit representation.
pub struct RetrievedNoteView {
    pub file: Seq<char>,
    pub title: Seq<char>,
    pub tags: Seq<Seq<char>>,
    pub score_bits: u32,
}

/// Model of the field/value pairs held by one index document, in the order
/// they were written. The key identifies the schema field; the value is
/// `Some(text)` for a text entry and `None` for an entry of any other kind.
pub type DocEntries = Seq<(int, Option<Seq<char>>)>;

/// The values stored under `key`, in storage order.
pub open spec fn entries_for(entries: DocEntries, key: int) -> Seq<Option<Seq<char>>>
    decreases entries.len(),
{
    if entries.len() == 0 {
        Seq::empty()
    } else if entries[0].0 == key {
        seq![entries[0].1] + entries_for(entries.drop_first(), key)
    } else {
        entries_for(entries.drop_first(), key)
    }
}

/// The first stored value as text, or the empty string when the field is
/// absent or its first value is not text.
pub open spec fn first_text_or_empty(values: Seq<Option<Seq<char>>>) -> Seq<char> {
    if values.len() == 0 {
        Seq::empty()
    } else {
        match values[0] {
            Some(t) => t,
            None => Seq::empty(),
        }
    }
}

/// Every stored value as text, a non-text value defaulting to the empty
/// string, in storage order.
pub open spec fn texts_or_empty(values: Seq<Option<Seq<char>>>) -> Seq<Seq<char>> {
    values.map_values(
        |v: Option<Seq<char>>| match v {
            Some(t) => t,
            None => Seq::<char>::empty(),
        },
    )
}

/// The text a borrowed optional string holds, as a plain value.
pub open spec fn opt_text_view(o: Option<&str>) -> Option<Seq<char>> {
    match o {
        Some(s) => Some(s@),
        None => None,
    }
}

/// The texts a sequence of borrowed optional strings holds.
pub open spec fn opt_texts_view(os: Seq<Option<&str>>) -> Seq<Option<Seq<char>>> {
    os.map_values(|o: Option<&str>| opt_text_view(o))
}

/// The texts a sequence of owned strings holds.
pub open spec fn strings_view(ss: Seq<String>) -> Seq<Seq<char>> {
    ss.map_values(|s: String| s@)
}

/// One entry per tag, all under the tags key, in input order.
pub open spec fn tagged_entries(tags: Seq<Seq<char>>, tags_key: int) -> DocEntries {
    tags.map_values(|t: Seq<char>| (tags_key, Some(t)))
}

/// Each text as a present value.
pub open spec fn some_texts(texts: Seq<Seq<char>>) -> Seq<Option<Seq<char>>> {
    texts.map_values(|t: Seq<char>| Some(t))
}

/// The entries written for one note: its file identifier, title and content
/// as one text value each, then one separate text value per tag. A note with
/// n tags thus contributes n independently stored and matchable tag entries.
pub open spec fn note_entries(
    note: NoteView,
    file_key: int,
    title_key: int,
    tags_key: int,
    content_key: int,
) -> DocEntries {
    seq![
        (file_key, Some(note.file)),
        (title_key, Some(note.title)),
        (content_key, Some(note.content)),
    ] + tagged_entries(note.tags, tags_key)
}

} // verus!
