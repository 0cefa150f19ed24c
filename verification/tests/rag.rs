use cuc::document::DocumentChunk;
use cuc::rag::{
    build_enhanced_prompt, calculate_confidence_score, create_context_summary, expand_query,
    extract_source_name, get_source_priority, sources_of, RAGConfig, RAGEngine,
};
use cuc::ratio::Ratio;
use cuc::store::LocalVectorStore;

fn chunk(id: &str, content: &str, source: &str) -> DocumentChunk {
    DocumentChunk::new(id, content, source)
}

#[test]
fn test_query_expansion() {
    let expanded = expand_query("ibmcloud login");
    assert!(expanded.contains("CLI"));
    assert!(expanded.contains("authentication"));
    assert_eq!(
        expanded,
        "ibmcloud login CLI command line interface authentication credentials API key"
    );
}

#[test]
fn query_expansion_rules_apply_in_order() {
    assert_eq!(expand_query("list buckets"), "list buckets");
    assert_eq!(
        expand_query("deploy a serverless function on k8s"),
        "deploy a serverless function on k8s deployment application service OpenWhisk Cloud Functions container cluster IKS"
    );
    // the keyword `ic` occurs inside other words, and keywords are matched with regard to case
    assert_eq!(expand_query("services"), "services CLI command line interface");
    assert_eq!(expand_query("LOGIN"), "LOGIN");
}

#[test]
fn test_source_priority() {
    assert_eq!(get_source_priority("https://cloud.ibm.com/docs/cli"), 10);
    assert_eq!(get_source_priority("https://watsonx.ai/docs"), 8);
    assert_eq!(get_source_priority("https://example.com"), 3);
    assert_eq!(get_source_priority("https://cloud.ibm.com/docs/containers"), 7);
    assert_eq!(get_source_priority("https://carbondesignsystem.com/"), 5);
    assert_eq!(get_source_priority("https://cloud.ibm.com/docs/cli?watsonx"), 10);
}

#[test]
fn test_confidence_calculation() {
    let chunks =
        vec![chunk("test1", "ibmcloud login with API key", "https://cloud.ibm.com/docs/cli")];
    let score = calculate_confidence_score(&chunks, "ibmcloud login");
    assert!(score.num > 0);
    assert!(score.num <= score.den);
    // both words are found, in a source of the highest priority
    assert_eq!(score, Ratio::new(20, 20));
}

#[test]
fn confidence_is_the_mean_of_overlap_times_priority() {
    let chunks = vec![
        chunk("a", "ibmcloud login with API key", "https://cloud.ibm.com/docs/cli"),
        chunk("b", "login screen", "https://example.com"),
        chunk("c", "nothing", "https://watsonx.ai"),
    ];
    // (2 * 10 + 1 * 3 + 0 * 8) / (10 * 2 words * 3 chunks)
    assert_eq!(calculate_confidence_score(&chunks, "IBMCloud Login"), Ratio::new(23, 60));
    assert_eq!(calculate_confidence_score(&Vec::new(), "ibmcloud login"), Ratio::new(0, 1));
    assert_eq!(calculate_confidence_score(&chunks, "   "), Ratio::new(0, 1));
    // whole words count, parts of words do not
    assert_eq!(calculate_confidence_score(&chunks, "log"), Ratio::new(0, 30));
}

#[test]
fn test_context_enhancement() {
    let user_input = "list my apps";
    let context = "Use 'ibmcloud cf apps' to list Cloud Foundry applications";

    let enhanced_prompt = format!(
        "You are an IBM Cloud CLI assistant. Use the following documentation context to help translate the natural language request into the appropriate IBM Cloud CLI command(s):\n\n{}\n\nUser Request: {}\n\nProvide the most accurate IBM Cloud CLI command(s) based on the context above.",
        context,
        user_input
    );

    assert!(enhanced_prompt.contains(user_input));
    assert!(enhanced_prompt.contains(context));

    let mut store = LocalVectorStore::new();
    store.put(chunk("c1", context, "docs"));
    let engine = RAGEngine::with_config(
        store,
        RAGConfig {
            max_context_chunks: 3,
            similarity_threshold: Ratio::new(1, 3),
            context_window_size: 2000,
            enable_query_expansion: false,
            prioritize_recent: false,
        },
    );
    let enhanced = engine.enhance_prompt("translate the request", user_input);
    assert!(enhanced.contains(context));
    assert!(enhanced.contains("translate the request"));
}

#[test]
fn source_names() {
    assert_eq!(extract_source_name("https://cloud.ibm.com/docs/cli?topic=x#y"), "cloud.ibm.com/docs/cli");
    assert_eq!(extract_source_name("https://example.com"), "example.com/");
    assert_eq!(extract_source_name("/var/data/guide.md"), "guide.md");
    assert_eq!(extract_source_name("guide.md"), "guide.md");
    assert_eq!(extract_source_name("docs/"), "");
    assert_eq!(extract_source_name("http not a url/last"), "last");
    assert_eq!(extract_source_name("HTTPS://Example.COM/Path"), "Path");
}

#[test]
fn context_summary_lists_chunks_between_heading_and_closing() {
    let chunks = vec![
        chunk("a", "First content", "https://cloud.ibm.com/docs/cli"),
        chunk("b", "Second content", "notes/local.txt"),
    ];
    assert_eq!(
        create_context_summary(&chunks, "my query", 2000),
        "\n=== RELEVANT CONTEXT FOR: my query ===\n\n[1] Source: cloud.ibm.com/docs/cli\nFirst content\n---\n\n[2] Source: local.txt\nSecond content\n=== END CONTEXT ===\n"
    );
    assert_eq!(create_context_summary(&Vec::new(), "my query", 2000), "");
}

#[test]
fn context_summary_is_cut_where_the_window_is_full() {
    let chunks = vec![
        chunk("a", &"a".repeat(30), "s1"),
        chunk("b", &"b".repeat(30), "s2"),
        chunk("c", &"c".repeat(30), "s3"),
    ];
    // every block has 16 characters of frame and 30 of content; a window of
    // 92 holds two blocks, and one of 137 would not hold the third
    let block = |n: usize, s: &str, c: char| format!("\n[{}] Source: {}\n{}", n, s, c.to_string().repeat(30));
    assert_eq!(block(1, "s1", 'a').chars().count(), 46);
    let summary = create_context_summary(&chunks, "q", 92);
    assert_eq!(
        summary,
        format!(
            "\n=== RELEVANT CONTEXT FOR: q ===\n{}\n---\n{}\n---\n\n[...] (Additional context truncated to fit window)\n\n=== END CONTEXT ===\n",
            block(1, "s1", 'a'),
            block(2, "s2", 'b')
        )
    );
    let none = create_context_summary(&chunks, "q", 45);
    assert_eq!(
        none,
        "\n=== RELEVANT CONTEXT FOR: q ===\n\n[...] (Additional context truncated to fit window)\n\n=== END CONTEXT ===\n"
    );
    assert!(create_context_summary(&chunks, "q", 137).contains("truncated"));
    let all = create_context_summary(&chunks, "q", 138);
    assert!(!all.contains("truncated"));
    assert!(all.contains(&block(3, "s3", 'c')));
}

#[test]
fn sources_are_listed_once_in_order() {
    let chunks = vec![chunk("a", "x", "s2"), chunk("b", "x", "s1"), chunk("c", "x", "s2")];
    assert_eq!(sources_of(&chunks), vec!["s2", "s1"]);
}

#[test]
fn prompt_without_chunks_is_unchanged() {
    let engine = RAGEngine::new(LocalVectorStore::new());
    assert_eq!(engine.config.max_context_chunks, 5);
    assert_eq!(engine.config.similarity_threshold, Ratio::new(7, 10));
    assert_eq!(engine.config.context_window_size, 2000);
    assert_eq!(engine.enhance_prompt("base prompt", "any query"), "base prompt");
    let context = engine.retrieve_context("any query");
    assert!(context.relevant_chunks.is_empty());
    assert_eq!(context.context_summary, "");
    assert_eq!(context.confidence_score, Ratio::new(0, 1));
    assert!(context.sources_used.is_empty());
    assert_eq!(build_enhanced_prompt(&context, "p"), "p");
}

#[test]
fn retrieval_orders_by_similarity_then_by_source_priority() {
    let mut store = LocalVectorStore::new();
    store.put(chunk("generic", "target a region", "https://example.com/a"));
    store.put(chunk("official", "target a region", "https://cloud.ibm.com/docs/cli"));
    store.put(chunk("best", "target a region and a resource group", "https://example.com/b"));
    store.put(chunk("off", "unrelated text", "https://cloud.ibm.com/docs/cli"));
    let engine = RAGEngine::with_config(
        store,
        RAGConfig {
            max_context_chunks: 3,
            similarity_threshold: Ratio::new(1, 2),
            context_window_size: 2000,
            enable_query_expansion: false,
            prioritize_recent: false,
        },
    );
    let context = engine.retrieve_context("target region group");
    let ids: Vec<&str> = context.relevant_chunks.iter().map(|c| c.id.as_str()).collect();
    assert_eq!(ids, vec!["best", "official", "generic"]);
    assert_eq!(
        context.sources_used,
        vec!["https://example.com/b", "https://cloud.ibm.com/docs/cli", "https://example.com/a"]
    );
    // (3 * 3 + 2 * 10 + 2 * 3) / (10 * 3 words * 3 chunks)
    assert_eq!(context.confidence_score, Ratio::new(35, 90));
    let prompt = engine.enhance_prompt("translate this", "target region group");
    assert!(prompt.starts_with("\n=== RELEVANT CONTEXT FOR: target region group ===\n"));
    assert!(prompt.ends_with(
        "\n\nBased on the above documentation context, please translate this\n\nEnsure your response is accurate and references the provided documentation when relevant."
    ));
}

#[test]
fn retrieval_widens_the_query_where_configured() {
    let mut store = LocalVectorStore::new();
    store.put(chunk("a", "authentication credentials api key login", "s"));
    let mut engine = RAGEngine::new(store);
    // widened: login, authentication, credentials, api, key are all found
    assert_eq!(engine.retrieve_chunks("login").len(), 1);
    let mut config = RAGConfig::default();
    config.enable_query_expansion = false;
    config.similarity_threshold = Ratio::new(11, 10);
    engine.update_config(config);
    assert_eq!(engine.retrieve_chunks("login").len(), 0);
}
