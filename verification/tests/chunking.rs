use cuc::chunking::{
    create_chunk, split_into_sentences, split_text_into_chunks, PARAGRAPH_TARGET_CHARS,
    SENTENCE_TARGET_CHARS,
};
use cuc::local_document_indexer::LocalDocumentIndexer;
use cuc::reference_sources::split_paragraphs;
use cuc::string_map::StringMap;

fn md5_hex(s: &str) -> String {
    format!("{:x}", md5::compute(s.as_bytes()))
}

#[test]
fn local_document_indexer_test_document_indexer_creation() {
    let indexer = LocalDocumentIndexer::new();
    assert_eq!(indexer.sources.len(), 0);
}

#[test]
fn local_document_indexer_test_text_chunking() {
    let indexer = LocalDocumentIndexer::new();

    let long_text = "This is a very long text. ".repeat(50);
    let metadata = StringMap::new();
    let chunks = indexer.split_text_into_chunks(&long_text, "test_source", &metadata);

    assert!(chunks.len() > 1);
    for chunk in &chunks {
        assert!(chunk.content.len() <= 1000);
        assert!(!chunk.content.is_empty());
    }
}

#[test]
fn document_indexer_test_text_chunking() {
    let content = "This is paragraph one.\n\nThis is paragraph two with more content.\n\nShort.\n\nThis is a longer paragraph with sufficient content for indexing.";

    let paragraphs: Vec<&str> = content.split("\n\n").collect();
    let valid_paragraphs: Vec<&str> =
        paragraphs.into_iter().filter(|p| p.trim().len() > 50).collect();
    // Only the last paragraph is longer than fifty characters: the second
    // has forty, so one paragraph is left, not two.
    assert_eq!(valid_paragraphs.len(), 1);

    let chunks = split_paragraphs(content);
    assert_eq!(
        chunks,
        vec!["This is a longer paragraph with sufficient content for indexing."]
    );
}

#[test]
fn plain_paragraphs_longer_than_fifty_characters_are_kept() {
    let fifty = "a".repeat(50);
    let fifty_one = "b".repeat(51);
    let text = format!("{}\n\n  {}  \n\n\n\n{}", fifty, fifty_one, "c".repeat(60));
    let chunks = split_paragraphs(&text);
    assert_eq!(chunks, vec![fifty_one, "c".repeat(60)]);
}

#[test]
fn long_text_is_packed_up_to_the_sentence_target() {
    let long_text = "This is a very long text. ".repeat(50);
    let chunks = split_text_into_chunks(&long_text, "test_source", &StringMap::new());
    // every sentence has 25 characters; 11 of them with 10 spaces make 285,
    // and a twelfth would make 285 + 25 + 2 > 300
    assert_eq!(chunks.len(), 5);
    let eleven = vec!["This is a very long text."; 11].join(" ");
    let six = vec!["This is a very long text."; 6].join(" ");
    for chunk in &chunks[..4] {
        assert_eq!(chunk.content, eleven);
    }
    assert_eq!(chunks[4].content, six);
    for (i, chunk) in chunks.iter().enumerate() {
        assert!(chunk.content.chars().count() <= SENTENCE_TARGET_CHARS);
        assert_eq!(chunk.id, format!("{}-{}", md5_hex("test_source"), i));
        assert_eq!(chunk.source, "test_source");
        assert_eq!(chunk.metadata.get("chunk_index"), Some(&i.to_string()));
        assert_eq!(
            chunk.metadata.get("chunk_size"),
            Some(&chunk.content.chars().count().to_string())
        );
        assert!(chunk.embedding.is_empty());
    }
}

#[test]
fn paragraphs_are_dropped_kept_or_cut() {
    let short = "too short";
    let exactly_29 = "x".repeat(29);
    let exactly_30 = "y".repeat(30);
    let exactly_400 = "z".repeat(400);
    let text = format!("{}\n\n{}\n\n  {}  \n\n{}", short, exactly_29, exactly_30, exactly_400);
    let chunks = split_text_into_chunks(&text, "s", &StringMap::new());
    assert_eq!(chunks.len(), 2);
    assert_eq!(chunks[0].content, exactly_30);
    assert_eq!(chunks[1].content, exactly_400);
    assert_eq!(chunks[1].metadata.get("chunk_index"), Some(&"1".to_string()));
    assert_eq!(chunks[1].metadata.get("chunk_size"), Some(&"400".to_string()));
}

#[test]
fn a_single_sentence_longer_than_the_target_is_kept_whole() {
    let giant = format!("{}.", "w".repeat(450));
    let text = format!("Here is a first sentence of the text. {} And then a last sentence ends it.", giant);
    let chunks = split_text_into_chunks(&text, "s", &StringMap::new());
    let contents: Vec<&str> = chunks.iter().map(|c| c.content.as_str()).collect();
    assert_eq!(
        contents,
        vec![
            "Here is a first sentence of the text.",
            giant.as_str(),
            "And then a last sentence ends it."
        ]
    );
    for chunk in &chunks {
        let n = chunk.content.chars().count();
        assert!(n <= PARAGRAPH_TARGET_CHARS || chunk.content == giant);
    }
}

#[test]
fn chunk_size_bound_holds_on_mixed_text() {
    let mut text = String::new();
    for i in 0..40 {
        text.push_str(&format!("Sentence number {} talks about version 1.{} of e.g. the tool! ", i, i));
        if i % 7 == 6 {
            text.push_str("\n\n");
        }
    }
    let chunks = split_text_into_chunks(&text, "mixed", &StringMap::new());
    assert!(!chunks.is_empty());
    for chunk in &chunks {
        assert!(chunk.content.chars().count() <= PARAGRAPH_TARGET_CHARS);
        assert!(!chunk.content.is_empty());
    }
}

#[test]
fn sentences_end_at_terminators_not_followed_by_lower_case_or_digits() {
    assert_eq!(
        split_into_sentences("Version 1.5 is out now. It works well! Does it really? yes it does."),
        vec!["Version 1.5 is out now.", "It works well!", "Does it really?", "yes it does."]
    );
    // a terminator followed by a lower-case letter does not end the sentence
    assert_eq!(
        split_into_sentences("Use e.g.this form of it. Next one is here."),
        vec!["Use e.g.this form of it.", "Next one is here."]
    );
    // a sentence is closed only once it has more than ten characters
    assert_eq!(
        split_into_sentences("Hi. Ho. This one is long enough."),
        vec!["Hi. Ho. This one is long enough."]
    );
    assert_eq!(split_into_sentences("No terminator at all"), vec!["No terminator at all"]);
    assert_eq!(split_into_sentences("   "), Vec::<String>::new());
    assert_eq!(split_into_sentences(""), Vec::<String>::new());
    assert_eq!(
        split_into_sentences("Eleven ch's. More text here."),
        vec!["Eleven ch's.", "More text here."]
    );
    assert_eq!(
        split_into_sentences("Ten chars. More text here."),
        vec!["Ten chars. More text here."]
    );
}

#[test]
fn chunks_carry_the_base_metadata_first() {
    let mut base = StringMap::new();
    base.set("category", "guide");
    base.set("chunk_index", "stale");
    let chunk = create_chunk("  Some body text  ", "my source", &base, 12);
    assert_eq!(chunk.content, "Some body text");
    assert_eq!(chunk.id, format!("{}-12", md5_hex("my source")));
    assert_eq!(chunk.metadata.len(), 3);
    assert_eq!(chunk.metadata.key_at(0), "category");
    assert_eq!(chunk.metadata.key_at(1), "chunk_index");
    assert_eq!(chunk.metadata.value_at(1), "12");
    assert_eq!(chunk.metadata.key_at(2), "chunk_size");
    assert_eq!(chunk.metadata.value_at(2), "18");
    assert_eq!(base.get("chunk_index"), Some(&"stale".to_string()));
}

#[test]
fn chunk_ids_use_the_digest_of_the_utf8_source() {
    let chunk = create_chunk("body", "quelle-äöü", &StringMap::new(), 0);
    assert_eq!(chunk.id, format!("{}-0", md5_hex("quelle-äöü")));
    assert_eq!(chunk.id.len(), 34);
    let empty = create_chunk("body", "", &StringMap::new(), 7);
    assert_eq!(empty.id, "d41d8cd98f00b204e9800998ecf8427e-7");
}
