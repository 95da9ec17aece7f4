use vstd::prelude::*;

use crate::model::{
    DocEntries, NoteView, RetrievedNoteView, entries_for, first_text_or_empty, note_entries,
    some_texts, tagged_entries, texts_or_empty,
};

verus! {

/// Splitting a document in two splits the values found under any key.
pub proof fn lemma_entries_for_concat(a: DocEntries, b: DocEntries, key: int)
    ensures
        entries_for(a + b, key) == entries_for(a, key) + entries_for(b, key),
    decreases a.len(),
{
    if a.len() == 0 {
        assert(a + b =~= b);
        assert(entries_for(a, key) + entries_for(b, key) =~= entries_for(b, key));
    } else {
        lemma_entries_for_concat(a.drop_first(), b, key);
        assert((a + b).drop_first() =~= a.drop_first() + b);
        if a[0].0 == key {
            assert(entries_for(a, key) + entries_for(b, key) =~= seq![a[0].1] + (entries_for(
                a.drop_first(),
                key,
            ) + entries_for(b, key)));
        }
    }
}

/// Entries written all under the tags key are found in full, and in input
/// order, under that key, and not at all under any other.
pub proof fn lemma_entries_for_tagged(tags: Seq<Seq<char>>, tags_key: int, key: int)
    ensures
        key == tags_key ==> entries_for(tagged_entries(tags, tags_key), key) == some_texts(tags),
        key != tags_key ==> entries_for(tagged_entries(tags, tags_key), key) == Seq::<
            Option<Seq<char>>,
        >::empty(),
    decreases tags.len(),
{
    let tagged = tagged_entries(tags, tags_key);
    if tags.len() == 0 {
        assert(tagged =~= Seq::empty());
        assert(some_texts(tags) =~= Seq::<Option<Seq<char>>>::empty());
    } else {
        let rest = tags.drop_first();
        lemma_entries_for_tagged(rest, tags_key, key);
        assert(tagged.drop_first() =~= tagged_entries(rest, tags_key));
        assert(tagged[0] == (tags_key, Some(tags[0])));
        if key == tags_key {
            assert(entries_for(tagged, key) == seq![Some(tags[0])] + entries_for(
                tagged_entries(rest, tags_key),
                key,
            ));
            assert(seq![Some(tags[0])] + some_texts(rest) =~= some_texts(tags));
        }
    }
}

/// Field scoping of one indexed note.
///
/// Under each of the four (distinct) field keys, the document written for a
/// note holds exactly the texts belonging to that field: the file
/// identifier, the title and the content each as the single value of their
/// own field, and every tag — in input order, duplicates kept — under the
/// tags key. In particular a note with several tags carries one
/// independently matchable entry per tag, and reading the tags field back
/// yields the complete tag list.
pub proof fn lemma_note_entries_by_field(
    note: NoteView,
    file_key: int,
    title_key: int,
    tags_key: int,
    content_key: int,
)
    requires
        file_key != title_key,
        file_key != tags_key,
        file_key != content_key,
        title_key != tags_key,
        title_key != content_key,
        tags_key != content_key,
    ensures
        entries_for(note_entries(note, file_key, title_key, tags_key, content_key), file_key)
            == seq![Some(note.file)],
        entries_for(note_entries(note, file_key, title_key, tags_key, content_key), title_key)
            == seq![Some(note.title)],
        entries_for(note_entries(note, file_key, title_key, tags_key, content_key), content_key)
            == seq![Some(note.content)],
        entries_for(note_entries(note, file_key, title_key, tags_key, content_key), tags_key)
            == some_texts(note.tags),
{
    let prefix: DocEntries = seq![
        (file_key, Some(note.file)),
        (title_key, Some(note.title)),
        (content_key, Some(note.content)),
    ];
    let tagged = tagged_entries(note.tags, tags_key);
    assert(note_entries(note, file_key, title_key, tags_key, content_key) == prefix + tagged);

    let p1: DocEntries = seq![(title_key, Some(note.title)), (content_key, Some(note.content))];
    let p2: DocEntries = seq![(content_key, Some(note.content))];
    assert(prefix.drop_first() =~= p1);
    assert(p1.drop_first() =~= p2);
    assert(p2.drop_first() =~= Seq::empty());

    assert forall|k: int| true implies #[trigger] entries_for(prefix, k) == {
        if k == file_key {
            seq![Some(note.file)]
        } else if k == title_key {
            seq![Some(note.title)]
        } else if k == content_key {
            seq![Some(note.content)]
        } else {
            Seq::<Option<Seq<char>>>::empty()
        }
    } by {
        reveal_with_fuel(entries_for, 5);
        assert(entries_for(p2.drop_first(), k) == Seq::<Option<Seq<char>>>::empty());
        if k == file_key {
            assert(entries_for(prefix, k) =~= seq![Some(note.file)]);
        } else if k == title_key {
            assert(entries_for(prefix, k) =~= seq![Some(note.title)]);
        } else if k == content_key {
            assert(entries_for(prefix, k) =~= seq![Some(note.content)]);
        } else {
            assert(entries_for(prefix, k) =~= Seq::<Option<Seq<char>>>::empty());
        }
    }

    lemma_entries_for_concat(prefix, tagged, file_key);
    lemma_entries_for_concat(prefix, tagged, title_key);
    lemma_entries_for_concat(prefix, tagged, content_key);
    lemma_entries_for_concat(prefix, tagged, tags_key);
    lemma_entries_for_tagged(note.tags, tags_key, file_key);
    lemma_entries_for_tagged(note.tags, tags_key, title_key);
    lemma_entries_for_tagged(note.tags, tags_key, content_key);
    lemma_entries_for_tagged(note.tags, tags_key, tags_key);

    assert(entries_for(note_entries(note, file_key, title_key, tags_key, content_key), file_key)
        =~= seq![Some(note.file)]);
    assert(entries_for(note_entries(note, file_key, title_key, tags_key, content_key), title_key)
        =~= seq![Some(note.title)]);
    assert(entries_for(note_entries(note, file_key, title_key, tags_key, content_key), content_key)
        =~= seq![Some(note.content)]);
    assert(entries_for(note_entries(note, file_key, title_key, tags_key, content_key), tags_key)
        =~= some_texts(note.tags));
}

/// Reading a note's fields back from its own index entries restores the
/// note: the first stored value under the file and title keys is the file
/// identifier and the title, and the values under the tags key are exactly
/// the tags, in input order.
pub proof fn lemma_note_round_trip(
    note: NoteView,
    file_key: int,
    title_key: int,
    tags_key: int,
    content_key: int,
)
    requires
        file_key != title_key,
        file_key != tags_key,
        file_key != content_key,
        title_key != tags_key,
        title_key != content_key,
        tags_key != content_key,
    ensures
        first_text_or_empty(
            entries_for(note_entries(note, file_key, title_key, tags_key, content_key), file_key),
        ) == note.file,
        first_text_or_empty(
            entries_for(note_entries(note, file_key, title_key, tags_key, content_key), title_key),
        ) == note.title,
        texts_or_empty(
            entries_for(note_entries(note, file_key, title_key, tags_key, content_key), tags_key),
        ) == note.tags,
{
    lemma_note_entries_by_field(note, file_key, title_key, tags_key, content_key);
    assert(texts_or_empty(some_texts(note.tags)) =~= note.tags);
}

/// A search hit assembled from a document that holds exactly the entries
/// written for a note restores that note: its file identifier, its title,
/// and its complete tag list in input order. This is the library's half of
/// the build-then-search round trip; which documents a query matches, and
/// that a fetched document holds the entries that were committed for it,
/// are the index's part.
pub proof fn lemma_hit_restores_note(
    note: NoteView,
    hit: RetrievedNoteView,
    file_key: int,
    title_key: int,
    tags_key: int,
    content_key: int,
)
    requires
        file_key != title_key,
        file_key != tags_key,
        file_key != content_key,
        title_key != tags_key,
        title_key != content_key,
        tags_key != content_key,
        hit.file == first_text_or_empty(
            entries_for(note_entries(note, file_key, title_key, tags_key, content_key), file_key),
        ),
        hit.title == first_text_or_empty(
            entries_for(note_entries(note, file_key, title_key, tags_key, content_key), title_key),
        ),
        hit.tags == texts_or_empty(
            entries_for(note_entries(note, file_key, title_key, tags_key, content_key), tags_key),
        ),
    ensures
        hit.file == note.file,
        hit.title == note.title,
        hit.tags == note.tags,
{
    lemma_note_round_trip(note, file_key, title_key, tags_key, content_key);
}

} // verus!
