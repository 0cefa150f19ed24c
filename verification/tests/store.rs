use cuc::document::DocumentChunk;
use cuc::html::parse_html_to_chunks;
use cuc::local_document_indexer::LocalDocumentIndexer;
use cuc::ratio::Ratio;
use cuc::search::SearchConfig;
use cuc::store::{LocalVectorStore, EMBEDDING_DIMENSION};
use cuc::string_map::StringMap;

fn chunk(id: &str, content: &str) -> DocumentChunk {
    DocumentChunk::new(id, content, "test")
}

fn ids(store: &LocalVectorStore) -> Vec<String> {
    store.all().iter().map(|d| d.id.clone()).collect()
}

#[test]
fn test_local_vector_store_creation() {
    let store = LocalVectorStore::new();
    assert_eq!(EMBEDDING_DIMENSION, 384);
    assert_eq!(store.all().len(), 0);
}

#[test]
fn test_local_vector_store() {
    let mut store = LocalVectorStore::new();
    let mut doc = chunk("test1", "IBM Cloud CLI is a command-line tool");
    doc.metadata.set("type", "test");
    store.put(doc);
    assert_eq!(store.count(), 1);
    let retrieved = store.get("test1");
    assert!(retrieved.is_some());
    assert_eq!(retrieved.unwrap().content, "IBM Cloud CLI is a command-line tool");
    assert_eq!(retrieved.unwrap().metadata.get("type"), Some(&"test".to_string()));
    assert!(store.get("test2").is_none());
}

#[test]
fn test_search() {
    let mut store = LocalVectorStore::new();
    store.put(chunk("doc1", "IBM Cloud CLI commands for resource management"));
    store.put(chunk("doc2", "Kubernetes cluster management with IBM Cloud"));

    let config = SearchConfig { top_k: 2, score_threshold: Some(Ratio::new(1, 10)) };
    let results = store.search("IBM Cloud CLI", &config);
    assert!(!results.is_empty());
    assert_eq!(results.len(), 2);
    assert_eq!(results[0].chunk.id, "doc1");
    assert_eq!(results[0].score, Ratio::new(3, 3));
    assert_eq!(results[1].chunk.id, "doc2");
    assert_eq!(results[1].score, Ratio::new(2, 3));
}

#[test]
fn local_vector_store_test_html_parsing() {
    let html = r#"
        <html>
            <body>
                <h1>Test Title</h1>
                <p>This is a test paragraph with enough content to be indexed.</p>
                <div>Another content block that should be captured.</div>
            </body>
        </html>
    "#;

    let chunks = parse_html_to_chunks(html, "http://test.com");
    assert!(chunks.len() > 0);

    for chunk in &chunks {
        assert!(!chunk.content.is_empty());
        assert_eq!(chunk.source, "http://test.com");
    }
}

#[test]
fn html_chunks_come_kind_by_kind_with_digest_ids() {
    let paragraph = "This is a test paragraph with enough content to be indexed.";
    let item = "A list item that is also long enough to be taken as a chunk here.";
    let html = format!(
        "<html><body><ul><li>{}</li></ul><h1>Short title</h1><p>  {} </p><p>tiny</p></body></html>",
        item, paragraph
    );
    let chunks = parse_html_to_chunks(&html, "http://test.com/page");
    let contents: Vec<&str> = chunks.iter().map(|c| c.content.as_str()).collect();
    // paragraphs are taken before list items
    assert_eq!(contents, vec![paragraph, item]);
    let url_digest = format!("{:x}", md5::compute("http://test.com/page".as_bytes()));
    assert_eq!(
        chunks[0].id,
        format!("{}-{:x}", url_digest, md5::compute(paragraph.as_bytes()))
    );
    assert_eq!(chunks[0].metadata.get("element_type"), Some(&"p".to_string()));
    assert_eq!(chunks[1].metadata.get("element_type"), Some(&"li".to_string()));
    assert_eq!(chunks[1].metadata.get("url"), Some(&"http://test.com/page".to_string()));
    assert_eq!(chunks[0].metadata.key_at(0), "element_type");
    assert_eq!(chunks[0].metadata.key_at(1), "url");
}

#[test]
fn html_text_nodes_are_joined_by_spaces() {
    let html = "<p>The first part of the paragraph<b>and a bold part</b>and the closing part.</p>";
    let chunks = parse_html_to_chunks(html, "u");
    assert_eq!(chunks.len(), 1);
    assert_eq!(
        chunks[0].content,
        "The first part of the paragraph and a bold part and the closing part."
    );
    let exactly_fifty = format!("<p>{}</p>", "x".repeat(50));
    assert!(parse_html_to_chunks(&exactly_fifty, "u").is_empty());
    let fifty_one = format!("<p>{}</p>", "x".repeat(51));
    assert_eq!(parse_html_to_chunks(&fifty_one, "u").len(), 1);
}

#[test]
fn put_overwrites_by_id_and_moves_to_the_end() {
    let mut store = LocalVectorStore::new();
    store.put(chunk("a", "first"));
    store.put(chunk("b", "second"));
    store.put(chunk("c", "third"));
    store.put(chunk("a", "again"));
    assert_eq!(store.count(), 3);
    assert_eq!(ids(&store), vec!["b", "c", "a"]);
    assert_eq!(store.get("a").unwrap().content, "again");
}

#[test]
fn delete_and_clear() {
    let mut store = LocalVectorStore::new();
    store.put(chunk("a", "first"));
    store.put(chunk("b", "second"));
    assert!(store.delete("a"));
    assert!(!store.delete("a"));
    assert_eq!(ids(&store), vec!["b"]);
    assert!(store.get("a").is_none());
    store.clear();
    assert_eq!(store.count(), 0);
    assert!(!store.delete("b"));
}

#[test]
fn a_snapshot_loads_back_to_the_same_store() {
    let mut store = LocalVectorStore::new();
    for i in 0..5 {
        let mut c = chunk(&format!("id{}", i), &format!("content {}", i));
        c.metadata.set("n", &i.to_string());
        c.embedding = vec![i as u32; 3];
        store.put(c);
    }
    let snapshot: Vec<DocumentChunk> = store.all().iter().map(|d| d.clone()).collect();
    let loaded = LocalVectorStore::from_documents(snapshot);
    assert_eq!(loaded.count(), 5);
    for (a, b) in store.all().iter().zip(loaded.all().iter()) {
        assert_eq!(a.id, b.id);
        assert_eq!(a.content, b.content);
        assert_eq!(a.source, b.source);
        assert_eq!(a.embedding, b.embedding);
        assert_eq!(a.metadata.get("n"), b.metadata.get("n"));
        assert_eq!(a.metadata.len(), b.metadata.len());
    }
}

#[test]
fn a_snapshot_with_a_repeated_id_keeps_the_last() {
    let loaded =
        LocalVectorStore::from_documents(vec![chunk("a", "1"), chunk("b", "2"), chunk("a", "3")]);
    assert_eq!(ids(&loaded), vec!["b", "a"]);
    assert_eq!(loaded.get("a").unwrap().content, "3");
}

#[test]
fn reindexing_the_same_text_keeps_the_count() {
    let text = "IBM Cloud CLI supports login via SSO.\n\nUse resource groups to organize services.";
    let mut indexer = LocalDocumentIndexer::new();
    let first = indexer.index_text_document(text, "doc1", StringMap::new());
    assert_eq!(first, 2);
    assert_eq!(indexer.vector_store.count(), 2);
    let before = ids(&indexer.vector_store);
    let second = indexer.index_text_document(text, "doc1", StringMap::new());
    assert_eq!(second, 2);
    assert_eq!(indexer.vector_store.count(), 2);
    assert_eq!(ids(&indexer.vector_store), before);
    // another source gives other identifiers
    indexer.index_text_document(text, "doc2", StringMap::new());
    assert_eq!(indexer.vector_store.count(), 4);
}

#[test]
fn end_to_end_indexing_and_retrieval() {
    let mut indexer = LocalDocumentIndexer::new();
    indexer.index_text_document(
        "IBM Cloud CLI supports login via SSO.\n\nUse resource groups to organize services.",
        "doc1",
        StringMap::new(),
    );
    let found = indexer.search_context("how do I login", 5);
    assert_eq!(found.len(), 2);
    assert!(found[0].content.contains("login"));
    assert!(found[0].content.contains("SSO"));
    assert_eq!(found[1].content, "Use resource groups to organize services.");

    let scored = indexer
        .vector_store
        .search("how do I login", &SearchConfig { top_k: 5, score_threshold: None });
    assert_eq!(scored[0].score, Ratio::new(2, 4));
    assert_eq!(scored[1].score, Ratio::new(1, 4));
    assert_eq!(scored[0].position, 0);
}

#[test]
fn a_document_with_all_query_words_ranks_above_one_with_none() {
    let mut store = LocalVectorStore::new();
    store.put(chunk("none", "nothing relevant here"));
    store.put(chunk("some", "deploy things"));
    store.put(chunk("all", "how to deploy an application to code engine"));
    let results =
        store.search("Deploy Application", &SearchConfig { top_k: 10, score_threshold: None });
    let order: Vec<&str> = results.iter().map(|r| r.chunk.id.as_str()).collect();
    assert_eq!(order, vec!["all", "some", "none"]);
    let all_pos = order.iter().position(|id| *id == "all").unwrap();
    let none_pos = order.iter().position(|id| *id == "none").unwrap();
    assert!(all_pos < none_pos);
}

#[test]
fn search_filters_by_threshold_keeps_ties_in_order_and_truncates() {
    let mut store = LocalVectorStore::new();
    store.put(chunk("d1", "alpha beta"));
    store.put(chunk("d2", "alpha"));
    store.put(chunk("d3", "beta"));
    store.put(chunk("d4", "gamma"));
    store.put(chunk("d5", "ALPHA BETA GAMMA"));
    let run = |top_k: usize, threshold: Option<Ratio>| -> Vec<String> {
        store
            .search("alpha beta", &SearchConfig { top_k, score_threshold: threshold })
            .iter()
            .map(|r| r.chunk.id.clone())
            .collect()
    };
    assert_eq!(run(10, None), vec!["d1", "d5", "d2", "d3", "d4"]);
    assert_eq!(run(10, Some(Ratio::new(1, 2))), vec!["d1", "d5", "d2", "d3"]);
    assert_eq!(run(10, Some(Ratio::new(51, 100))), vec!["d1", "d5"]);
    assert_eq!(run(3, Some(Ratio::new(1, 2))), vec!["d1", "d5", "d2"]);
    assert_eq!(run(0, None), Vec::<String>::new());
    assert_eq!(run(10, Some(Ratio::new(11, 10))), Vec::<String>::new());
}

#[test]
fn search_on_an_empty_store_or_with_an_empty_query() {
    let store = LocalVectorStore::new();
    assert!(store.search("anything", &SearchConfig::default()).is_empty());
    let mut store = LocalVectorStore::new();
    store.put(chunk("a", "text"));
    let config = SearchConfig { top_k: 5, score_threshold: Some(Ratio::new(1, 10)) };
    assert!(store.search("   ", &config).is_empty());
    let all = store.search("", &SearchConfig { top_k: 5, score_threshold: None });
    assert_eq!(all.len(), 1);
    assert_eq!(all[0].score, Ratio::new(0, 1));
}

#[test]
fn search_config_defaults() {
    let config = SearchConfig::default();
    assert_eq!(config.top_k, 5);
    assert_eq!(config.score_threshold, Some(Ratio::new(7, 10)));
}

#[test]
fn ranking_by_outside_keys() {
    let mut store = LocalVectorStore::new();
    for id in ["a", "b", "c", "d"] {
        store.put(chunk(id, "x"));
    }
    let keys: Vec<u128> = vec![5, 9, 9, 1];
    let keep = vec![true, true, true, false];
    let ranked = store.search_ranked(&keys, &keep, 2);
    let order: Vec<&str> = ranked.iter().map(|r| r.chunk.id.as_str()).collect();
    assert_eq!(order, vec!["b", "c"]);
    let ranked = store.search_ranked(&keys, &keep, 10);
    let order: Vec<usize> = ranked.iter().map(|r| r.position).collect();
    assert_eq!(order, vec![1, 2, 0]);
}

#[test]
fn embeddings_are_attached_only_with_the_right_length() {
    let mut store = LocalVectorStore::new();
    store.put(chunk("a", "x"));
    assert!(!store.attach_embedding("a", vec![1; 3]));
    assert!(!store.attach_embedding("b", vec![1; EMBEDDING_DIMENSION]));
    assert!(store.get("a").unwrap().embedding.is_empty());
    assert!(store.attach_embedding("a", vec![7; EMBEDDING_DIMENSION]));
    assert_eq!(store.get("a").unwrap().embedding, vec![7; EMBEDDING_DIMENSION]);
    assert_eq!(store.get("a").unwrap().content, "x");
}

#[test]
fn vector_store_test_html_parsing() {
    let html = r#"
            <html>
                <body>
                    <h1>IBM Cloud CLI Commands</h1>
                    <p>This is a guide for IBM Cloud CLI commands.</p>
                    <code>ibmcloud login</code>
                </body>
            </html>
        "#;
    // Every fragment of this page is shorter than the shortest that is kept.
    let chunks = parse_html_to_chunks(html, "https://example.com");
    assert!(chunks.is_empty());
}

#[test]
fn a_batch_is_stored_in_order_and_gives_its_identifiers() {
    let mut store = LocalVectorStore::new();
    store.put(DocumentChunk::new("b", "old", "s"));
    let batch = vec![
        DocumentChunk::new("a", "first", "s"),
        DocumentChunk::new("b", "second", "s"),
        DocumentChunk::new("a", "third", "s"),
    ];
    assert_eq!(store.store_batch(&batch), vec!["a", "b", "a"]);
    let kept: Vec<(String, String)> =
        store.all().iter().map(|c| (c.id.clone(), c.content.clone())).collect();
    assert_eq!(
        kept,
        vec![("b".to_string(), "second".to_string()), ("a".to_string(), "third".to_string())]
    );
    assert!(store.store_batch(&Vec::new()).is_empty());
    assert_eq!(store.count(), 2);
}

#[test]
fn the_store_tells_of_itself() {
    let mut store = LocalVectorStore::new();
    store.put(DocumentChunk::new("a", "first", "s"));
    assert_eq!(
        store.get_collection_info("vector_store.json"),
        vec![
            "📊 Local Vector Store Info:",
            "   Documents count: 1",
            "   Embedding dimension: 384",
            "   Data file: vector_store.json",
        ]
    );
}
