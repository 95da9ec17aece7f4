use note_search::{NoteData, SearchEngine};

fn note(file: &str, title: &str, tags: &[&str], content: &str) -> NoteData {
    NoteData {
        file: String::from(file),
        title: String::from(title),
        tags: tags.iter().map(|t| String::from(*t)).collect(),
        content: String::from(content),
    }
}

#[test]
fn round_trip_unique_content_token() {
    let index_dir = tempfile::tempdir().unwrap();
    let batch = vec![
        note("a.md", "first note", &[], "a quixotic experiment in indexing"),
        note("b.md", "second note", &[], "plain text with nothing unusual"),
    ];
    let engine = SearchEngine::build(batch, index_dir.path().to_str().unwrap()).unwrap();

    let results = engine.search("quixotic", 10).unwrap();
    assert_eq!(results.len(), 1);
    assert_eq!(results.get(0).unwrap().file, "a.md");
    assert_eq!(results.get(0).unwrap().title, "first note");
}

#[test]
fn tag_fan_out_and_full_tag_list() {
    let index_dir = tempfile::tempdir().unwrap();
    let batch = vec![
        note("tagged.md", "tagged", &["alpha_tag", "beta_tag"], "body"),
        note("plain.md", "plain", &[], "body"),
    ];
    let engine = SearchEngine::build(batch, index_dir.path().to_str().unwrap()).unwrap();

    let by_first = engine.search("tags:alpha_tag", 10).unwrap();
    assert_eq!(by_first.len(), 1);
    assert_eq!(by_first.get(0).unwrap().file, "tagged.md");

    let by_second = engine.search("tags:beta_tag", 10).unwrap();
    assert_eq!(by_second.len(), 1);
    assert_eq!(by_second.get(0).unwrap().file, "tagged.md");

    assert_eq!(
        by_first.get(0).unwrap().tags,
        vec![String::from("alpha_tag"), String::from("beta_tag")]
    );
    assert_eq!(
        by_second.get(0).unwrap().tags,
        vec![String::from("alpha_tag"), String::from("beta_tag")]
    );
}

#[test]
fn conjunction_requires_every_term() {
    let index_dir = tempfile::tempdir().unwrap();
    let batch = vec![
        note("a.md", "doc a", &[], "alpha only in this one"),
        note("b.md", "doc b", &[], "alpha and beta in this one"),
    ];
    let engine = SearchEngine::build(batch, index_dir.path().to_str().unwrap()).unwrap();

    let results = engine.search("alpha beta", 10).unwrap();
    assert_eq!(results.len(), 1);
    assert_eq!(results.get(0).unwrap().file, "b.md");
}

#[test]
fn bare_term_matches_in_title_alone() {
    let index_dir = tempfile::tempdir().unwrap();
    let batch = vec![
        note("z.md", "zephyr chronicle", &[], "an ordinary body"),
        note("other.md", "other", &[], "another ordinary body"),
    ];
    let engine = SearchEngine::build(batch, index_dir.path().to_str().unwrap()).unwrap();

    let results = engine.search("zephyr", 10).unwrap();
    assert_eq!(results.len(), 1);
    assert_eq!(results.get(0).unwrap().file, "z.md");
}

#[test]
fn malformed_query_yields_none() {
    let index_dir = tempfile::tempdir().unwrap();
    let batch = vec![note("a.md", "a", &[], "some body text")];
    let engine = SearchEngine::build(batch, index_dir.path().to_str().unwrap()).unwrap();

    assert!(engine.search("\"unterminated", 10).is_none());
}

#[test]
fn zero_matches_is_some_empty() {
    let index_dir = tempfile::tempdir().unwrap();
    let batch = vec![note("a.md", "a", &[], "some body text")];
    let engine = SearchEngine::build(batch, index_dir.path().to_str().unwrap()).unwrap();

    let results = engine.search("nonexistentterm", 10).unwrap();
    assert!(results.is_empty());
}

#[test]
fn rebuild_replaces_previous_batch() {
    let index_dir = tempfile::tempdir().unwrap();
    let path = index_dir.path().to_str().unwrap().to_string();

    let first = vec![note("old.md", "old", &[], "obsolete narwhal content")];
    let engine = SearchEngine::build(first, &path).unwrap();
    assert_eq!(engine.search("narwhal", 10).unwrap().len(), 1);
    drop(engine);

    let second = vec![note("new.md", "new", &[], "fresh pangolin content")];
    let engine = SearchEngine::build(second, &path).unwrap();

    let stale = engine.search("narwhal", 10).unwrap();
    assert!(stale.is_empty());

    let fresh = engine.search("pangolin", 10).unwrap();
    assert_eq!(fresh.len(), 1);
    assert_eq!(fresh.get(0).unwrap().file, "new.md");
}

#[test]
fn limit_caps_and_orders_results() {
    let index_dir = tempfile::tempdir().unwrap();
    let batch = vec![
        note("one.md", "one", &[], "shared token here"),
        note("two.md", "two", &[], "shared token here as well"),
        note("three.md", "three", &[], "shared token here too"),
    ];
    let engine = SearchEngine::build(batch, index_dir.path().to_str().unwrap()).unwrap();

    let capped = engine.search("shared", 2).unwrap();
    assert_eq!(capped.len(), 2);

    let all = engine.search("shared", 10).unwrap();
    assert_eq!(all.len(), 3);
    for pair in all.windows(2) {
        let earlier = f32::from_bits(pair[0].score_bits);
        let later = f32::from_bits(pair[1].score_bits);
        assert!(earlier >= later);
    }
}

#[test]
fn empty_batch_builds_and_answers() {
    let index_dir = tempfile::tempdir().unwrap();
    let engine = SearchEngine::build(Vec::new(), index_dir.path().to_str().unwrap()).unwrap();

    let results = engine.search("anything", 10).unwrap();
    assert!(results.is_empty());
}

#[test]
fn missing_tags_read_back_empty() {
    let index_dir = tempfile::tempdir().unwrap();
    let batch = vec![note("bare.md", "bare note", &[], "tagless content")];
    let engine = SearchEngine::build(batch, index_dir.path().to_str().unwrap()).unwrap();

    let results = engine.search("tagless", 10).unwrap();
    assert_eq!(results.len(), 1);
    assert_eq!(results.get(0).unwrap().file, "bare.md");
    assert_eq!(results.get(0).unwrap().title, "bare note");
    assert!(results.get(0).unwrap().tags.is_empty());
}
