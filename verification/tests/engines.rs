use cuc::document::DocumentChunk;
use cuc::document_indexer::{Document, LocalDocumentIndexer as PieceIndexer};
use cuc::error::Error;
use cuc::knowledge::{build_context, LocalRAGEngine, RAGQuery};
use cuc::rag::RAGEngine;
use cuc::ratio::Ratio;
use cuc::reference_sources::{default_reference_sources, SourceType};
use cuc::search::SearchConfig;
use cuc::store::LocalVectorStore;
use cuc::string_map::StringMap;
use cuc::watsonx::WatsonxConfig;

fn titled(id: &str, content: &str, title: &str) -> DocumentChunk {
    let mut chunk = DocumentChunk::new(id, content, "test");
    chunk.metadata.set("title", title);
    chunk
}

#[test]
fn test_vector_store_operations_snapshot() {
    let mut store = LocalVectorStore::new();
    let mut doc = DocumentChunk::new(
        "test_doc_1",
        "IBM Cloud CLI is a powerful command-line tool",
        "test",
    );
    doc.metadata.set("type", "documentation");
    doc.metadata.set("category", "cli");
    store.put(doc);

    let config = SearchConfig { top_k: 5, score_threshold: Some(Ratio::new(1, 10)) };
    let results = store.search("IBM Cloud CLI", &config);
    assert_eq!(results.len(), 1);
    assert_eq!(results[0].chunk.id, "test_doc_1");
    assert_eq!(results[0].chunk.content, "IBM Cloud CLI is a powerful command-line tool");
    assert_eq!(results[0].score, Ratio::new(3, 3));
    assert_eq!(results[0].chunk.metadata.get_text("category"), Some(&"cli".to_string()));
}

#[test]
fn test_document_indexing_snapshot() {
    let mut store = LocalVectorStore::new();
    let indexer = PieceIndexer::new();
    let mut metadata = StringMap::new();
    metadata.set("type", "guide");
    metadata.set("version", "1.0");
    let document = Document {
        id: "doc_1".to_string(),
        title: "IBM Cloud CLI Guide".to_string(),
        content: "This is a comprehensive guide to using IBM Cloud CLI. It covers installation, configuration, and basic commands.".to_string(),
        url: Some("https://cloud.ibm.com/docs/cli".to_string()),
        metadata,
    };
    let result = indexer.index_document(&mut store, &document);
    assert_eq!(result.documents_indexed, 1);
    assert_eq!(result.documents_failed, 0);
    assert!(result.errors.is_empty());
    assert_eq!(store.count(), 1);
    assert_eq!(store.all()[0].id, "doc_1_0");
    assert_eq!(store.all()[0].content, document.content);
}

#[test]
fn test_rag_engine() {
    let mut engine = LocalRAGEngine::new();
    engine.initialize();
    assert!(engine.is_ready());

    let query = RAGQuery {
        query: "IBM Cloud CLI commands".to_string(),
        top_k: 3,
        score_threshold: Some(Ratio::new(1, 10)),
        filters: None,
    };
    let result = engine.retrieve(&query).unwrap();
    assert!(!result.documents.is_empty());
    assert!(result.documents.len() <= 3);
    assert!(!result.context.is_empty());
    assert!(result.context.starts_with("Relevant IBM Cloud CLI documentation:\n\n1. "));
    assert!(engine.prompt_for("IBM Cloud CLI commands").contains("--- Relevant Context ---"));
}

#[test]
fn retrieval_needs_a_filled_knowledge_base() {
    let mut engine = LocalRAGEngine::new();
    let query = RAGQuery::default();
    assert_eq!(query.query, "");
    assert_eq!(query.top_k, 5);
    assert_eq!(query.score_threshold, Some(Ratio::new(7, 10)));
    assert!(query.filters.is_none());
    assert!(!engine.is_ready());
    match engine.retrieve(&query) {
        Err(Error::RAGEngine(m)) => assert_eq!(m, "RAG engine not initialized"),
        other => panic!("expected an error, got {:?}", other),
    }
    match engine.enhance_prompt("prompt", &query) {
        Err(Error::RAGEngine(m)) => assert_eq!(m, "RAG engine not initialized"),
        other => panic!("expected an error, got {:?}", other),
    }
    engine.initialized = true;
    let nothing = engine.retrieve(&query).unwrap();
    assert!(nothing.documents.is_empty());
    assert_eq!(nothing.context, "");
    assert_eq!(
        engine.enhance_prompt("prompt", &query).unwrap(),
        "prompt"
    );
}

#[test]
fn an_enhanced_prompt_starts_with_the_documentation() {
    let mut engine = LocalRAGEngine::new();
    engine.document_indexer.vector_store.put(titled("1", "Use ibmcloud login first", "Login"));
    engine.document_indexer.vector_store.put(titled("2", "Nothing of use", "Other"));
    engine.initialized = true;
    let query = RAGQuery {
        query: "login".to_string(),
        top_k: 5,
        score_threshold: Some(Ratio::new(1, 2)),
        filters: None,
    };
    assert_eq!(
        engine.enhance_prompt("How do I log in?", &query).unwrap(),
        "Relevant IBM Cloud CLI documentation:\n\n1. [Login] Use ibmcloud login first\n\n\n---\n\nBased on the above documentation, How do I log in?"
    );
}

#[test]
fn test_rag_engine_snapshot() {
    let mut engine = LocalRAGEngine::new();
    let stored = engine.initialize();
    assert_eq!(stored, engine.document_indexer.vector_store.count());
    let found = engine.search_docs("How to use IBM Cloud CLI", 3);
    assert_eq!(found.len(), 3);
    for shown in &found {
        assert!(shown.starts_with("From "), "{shown}");
        assert!(shown.contains("IBM Cloud CLI"), "{shown}");
    }
}

#[test]
fn test_rag_context_building() {
    let docs = vec![
        titled("1", "IBM Cloud CLI commands", "Commands"),
        titled("2", "Installation guide", "Installation"),
    ];
    assert_eq!(
        build_context(&docs),
        "Relevant IBM Cloud CLI documentation:\n\n1. [Commands] IBM Cloud CLI commands\n\n2. [Installation] Installation guide\n\n"
    );
}

#[test]
fn test_rag_engine_creation() {
    let rag = RAGEngine::new(LocalVectorStore::new());
    assert_eq!(rag.config.max_context_chunks, 5);
}

#[test]
fn test_local_rag_creation() {
    let engine = LocalRAGEngine::new();
    assert!(!engine.is_initialized());
    assert_eq!(engine.document_indexer.vector_store.count(), 0);
    assert_eq!(engine.learning_engine.get_all_corrections().len(), 0);
}

#[test]
fn test_vector_store_creation() {
    let store = LocalVectorStore::new();
    assert_eq!(store.count(), 0);
    assert!(store.all().is_empty());
}

#[test]
fn document_indexer_test_document_indexer_creation() {
    let sources = default_reference_sources();
    assert!(!sources.is_empty());
    assert!(sources.iter().any(|s| matches!(s.source_type, SourceType::IBMCloudCLI)));
}

#[test]
fn test_watsonx_creation() {
    let config = WatsonxConfig::from_settings(
        None,
        Some("test_key".to_string()),
        None,
        Some("test_project".to_string()),
        None,
        None,
    );
    assert!(config.is_ok());
}

#[test]
fn engines_and_indexers_tell_their_numbers() {
    let mut store = LocalVectorStore::new();
    store.put(DocumentChunk::new("1", "first", "s"));
    store.put(DocumentChunk::new("2", "second", "s"));
    assert_eq!(PieceIndexer::new().stats(&store), (2, 1000, 200));
    assert_eq!(RAGEngine::new(store).get_stats(), (2, 5, 2000));

    let mut engine = LocalRAGEngine::new();
    assert_eq!(engine.stats(), (false, 0, 0));
    let stored = engine.initialize();
    assert_eq!(engine.stats(), (true, stored, 0));
}

#[test]
fn knowledge_reports_how_many_chunks_it_gave() {
    let mut indexer = cuc::local_document_indexer::LocalDocumentIndexer::new();
    let text = "IBM Cloud CLI supports login via SSO.\n\nUse resource groups to organize services.";
    assert_eq!(indexer.add_custom_knowledge(text, "notes", "tips"), 2);
    assert_eq!(indexer.add_custom_knowledge("too short", "notes", "tips"), 0);
    assert_eq!(indexer.vector_store.count(), 2);
    let basic = indexer.initialize_knowledge_base();
    assert_eq!(indexer.vector_store.count(), 2 + basic);
    assert_eq!(basic, cuc::knowledge::basic_knowledge().len());
}
