use cuc::document::DocumentChunk;
use cuc::error::Error;
use cuc::knowledge::{context_prompt, describe_documents, LocalRAGEngine};
use cuc::learning::{CorrectionType, RetryStrategyType};
use cuc::rag::RAGEngine;
use cuc::ratio::Ratio;
use cuc::store::LocalVectorStore;
use cuc::text::push_joined;
use cuc::translator::{
    build_prompt, describe_failures, describe_suggestions, extract_answered_command,
    relevant_documentation, suggest_recovery_prompt, translation_request, troubleshooting_query,
    CommandTranslator, TranslationStep,
};

fn list(items: &[&str]) -> Vec<String> {
    items.iter().map(|s| s.to_string()).collect()
}

fn joined(parts: &[&str], sep: &str) -> String {
    let mut out: Vec<char> = vec!['>'];
    push_joined(&mut out, &list(parts), sep);
    out.iter().collect()
}

fn query_of(step: TranslationStep) -> String {
    match step {
        TranslationStep::Translate(q) => q,
        other => panic!("expected a query, got {:?}", other),
    }
}

fn store_with(content: &str, source: &str) -> LocalVectorStore {
    let mut store = LocalVectorStore::new();
    store.put(DocumentChunk::new("1", content, source));
    store
}

#[test]
fn parts_are_joined_with_the_separator_between_them() {
    assert_eq!(joined(&[], ", "), ">");
    assert_eq!(joined(&["a"], ", "), ">a");
    assert_eq!(joined(&["a", "b", "c"], ", "), ">a, b, c");
    assert_eq!(joined(&["", ""], "\n"), ">\n");
    assert_eq!(joined(&["a", "b"], ""), ">ab");
}

#[test]
fn the_expert_prompt_holds_the_query() {
    assert_eq!(
        build_prompt("list my apps"),
        "You are an IBM Cloud CLI expert. Translate the following natural language query into a valid IBM Cloud CLI command.\nOnly output the command itself, nothing else.\n\nQuery: list my apps\nCommand:"
    );
}

#[test]
fn the_plain_translation_request_repeats_the_query() {
    let request = translation_request("PROMPT", "show apps");
    assert!(request.starts_with("PROMPT\n\nRules: Return only the IBM Cloud CLI command"));
    assert!(request.ends_with(
        "- login → ibmcloud login --sso\n\nNow translate this query to an IBM Cloud CLI command:\nshow apps"
    ));
}

#[test]
fn recovery_prompts_quote_at_most_two_documents() {
    assert_eq!(troubleshooting_query("boom"), "troubleshooting error: boom");
    assert_eq!(relevant_documentation(&Vec::new()), "");
    let one = vec![DocumentChunk::new("1", "first", "s")];
    assert_eq!(relevant_documentation(&one), "\n\nRELEVANT DOCUMENTATION:\n- first\n");
    let three = vec![
        DocumentChunk::new("1", "first", "s"),
        DocumentChunk::new("2", "second", "s"),
        DocumentChunk::new("3", "third", "s"),
    ];
    assert_eq!(
        relevant_documentation(&three),
        "\n\nRELEVANT DOCUMENTATION:\n- first\n- second\n"
    );
}

#[test]
fn the_recovery_prompt_describes_the_failure_before_the_task() {
    let prompt = suggest_recovery_prompt("list apps", "ibmcloud apps", "not found", "\n\nDOCS\n");
    assert!(prompt.starts_with(
        "You are a cloud CLI expert. A command failed and you must provide the EXACT fix.\n\nUSER WANTED: list apps\nCOMMAND THAT FAILED: ibmcloud apps\nERROR MESSAGE:\nnot found\n\n\nDOCS\n\nYOUR TASK: Provide a clear, actionable solution.\n\nANALYZE THE ERROR:\n- If it says \"Not logged in\" → tell user to run: ibmcloud login\n"
    ));
    assert!(prompt.ends_with("$ ibmcloud login\n\nThen retry your original command."));
    let bare = suggest_recovery_prompt("q", "c", "e", "");
    assert!(bare.contains("USER WANTED: q\nCOMMAND THAT FAILED: c\nERROR MESSAGE:\ne\n\nYOUR TASK:"));
    assert_eq!(prompt.len(), bare.len() + "list apps".len() + "ibmcloud apps".len()
        + "not found".len() + "\n\nDOCS\n".len() - 3);
}

#[test]
fn failures_are_told_under_their_headings() {
    assert_eq!(describe_failures(&list(&[]), &list(&[])), "");
    assert_eq!(
        describe_failures(&list(&["e1", "e2"]), &list(&[])),
        "\n\nPrevious generation attempts failed:\nAttempt 1: e1\nAttempt 2: e2"
    );
    assert_eq!(
        describe_failures(&list(&[]), &list(&["h1", "h2"])),
        "\n\nPrevious command execution feedback:\nh1\nh2"
    );
    assert_eq!(
        describe_failures(&list(&["e1"]), &list(&["h1"])),
        "\n\nPrevious generation attempts failed:\nAttempt 1: e1\n\nPrevious command execution feedback:\nh1"
    );
    let many: Vec<String> = (0..11).map(|i| format!("e{i}")).collect();
    assert!(describe_failures(&many, &list(&[])).ends_with("Attempt 10: e9\nAttempt 11: e10"));
}

#[test]
fn suggestions_are_told_under_a_heading() {
    assert_eq!(describe_suggestions(&list(&[])), "");
    assert_eq!(
        describe_suggestions(&list(&["a", "b"])),
        "\n\nSuggestions based on similar patterns:\na\nb"
    );
    assert_eq!(describe_suggestions(&list(&[""])), "\n\nSuggestions based on similar patterns:\n");
}

#[test]
fn answers_with_documentation_give_a_plain_command() {
    assert_eq!(
        extract_answered_command("Sure:\n  ibmcloud login  \nbye", "q").unwrap(),
        "ibmcloud login"
    );
    assert_eq!(
        extract_answered_command("# note\n// more\nNote: this\n\n  az login\nibm", "q").unwrap(),
        "az login"
    );
    for nothing in ["", "\n \n", "# a\n// b", "Answer: none\nkey: value"] {
        match extract_answered_command(nothing, "list apps") {
            Err(Error::Other(m)) => {
                assert_eq!(m, "Unable to generate a valid IBM Cloud command for: list apps")
            },
            other => panic!("expected an error, got {:?}", other),
        }
    }
}

#[test]
fn the_assistant_prompt_depends_on_the_documentation() {
    assert_eq!(
        context_prompt("", "\nLearned corrections:\nx\n", "list apps"),
        "You are an IBM Cloud CLI assistant. Translate the following natural language request into the appropriate IBM Cloud CLI command.\nLearned corrections:\nx\n\n\nRules:\n- Return ONLY the IBM Cloud CLI command, no explanations\n- Start with 'ibmcloud' if it's an IBM Cloud command\n- Be concise and accurate\n\nUser Request: list apps\n\nCommand:"
    );
    assert_eq!(
        context_prompt("CONTEXT", "", "list apps"),
        "You are an IBM Cloud CLI assistant. Use the following documentation context to translate the natural language request into the appropriate IBM Cloud CLI command.\n\nContext:\nCONTEXT\n\nRules:\n- Return ONLY the IBM Cloud CLI command, no explanations\n- Start with 'ibmcloud' if it's an IBM Cloud command\n- Be concise and accurate\n- Use the context to ensure accuracy\n\nUser Request: list apps\n\nCommand:"
    );
}

#[test]
fn documents_are_shown_with_their_sources() {
    let documents =
        vec![DocumentChunk::new("1", "first", "a.md"), DocumentChunk::new("2", "", "")];
    assert_eq!(describe_documents(&documents), vec!["From a.md: first", "From : "]);
    assert!(describe_documents(&Vec::new()).is_empty());
}

#[test]
fn the_local_engine_quotes_documentation_once_it_is_initialized() {
    let mut engine = LocalRAGEngine::new();
    assert!(!engine.is_initialized());
    engine.document_indexer.vector_store.put(DocumentChunk::new(
        "1",
        "Use ibmcloud login to log in",
        "doc",
    ));
    let before = engine.prompt_for("login");
    assert!(before.starts_with("You are an IBM Cloud CLI assistant. Translate the following"));
    assert!(!before.contains("Context:"));
    assert_eq!(engine.search_docs("login", 5), vec!["From doc: Use ibmcloud login to log in"]);
    assert_eq!(engine.search_docs("zebra", 5).len(), 1);
    assert!(engine.search_docs("login", 0).is_empty());

    let added = engine.initialize();
    assert!(engine.is_initialized());
    assert!(added > 0);
    assert_eq!(engine.document_indexer.vector_store.count(), added + 1);
    let after = engine.prompt_for("login");
    assert!(after.contains("\n\nContext:\n\n--- Relevant Context ---\n"));
    assert!(after.ends_with("User Request: login\n\nCommand:"));
}

#[test]
fn the_local_engine_tells_what_it_has_learned() {
    let mut engine = LocalRAGEngine::new();
    assert!(!engine.has_learned_corrections("list databases"));
    assert!(engine.get_command_suggestions("list databases", "e").is_empty());
    engine.learning_engine.add_correction(
        "list databases",
        "ibmcloud db",
        "ibmcloud resource service-instances",
        None,
        CorrectionType::InvalidSyntax,
    );
    assert!(engine.has_learned_corrections("list databases"));
    assert!(!engine.has_learned_corrections("zebra"));
    assert_eq!(
        engine.get_command_suggestions("list databases", "e"),
        vec!["ibmcloud resource service-instances"]
    );
    assert!(engine.prompt_for("list databases").contains("Learned corrections:"));
}

#[test]
fn retrieval_takes_part_only_where_it_is_switched_on_and_there_is_an_engine() {
    let mut plain = CommandTranslator::new();
    assert!(!plain.rag_enabled);
    plain.set_rag_enabled(true);
    assert!(!plain.rag_enabled);
    assert_eq!(
        plain.prepare_base_prompt("login"),
        cuc::translator::with_rules(&cuc::translator::base_prompt("login"))
    );
    assert_eq!(
        plain.translation_prompt_for("login"),
        translation_request(&cuc::translator::base_prompt("login"), "login")
    );

    let store = store_with("login login login", "https://cloud.ibm.com/docs/cli");
    let mut config = cuc::rag::RAGConfig::default();
    config.similarity_threshold = Ratio::new(1, 2);
    config.enable_query_expansion = false;
    let mut with = CommandTranslator::with_rag(RAGEngine::with_config(store, config));
    assert!(with.rag_enabled);
    let base = cuc::translator::base_prompt("login");
    let enhanced = with.rag_engine.as_ref().unwrap().enhance_prompt(&base, "login");
    assert_ne!(enhanced, base);
    assert_eq!(with.prepare_base_prompt("login"), enhanced);
    assert_eq!(with.translation_prompt_for("login"), translation_request(&enhanced, "login"));
    // Without a match the prompt stays as it is, and gets no rules.
    assert_eq!(with.prepare_base_prompt("zebra"), cuc::translator::base_prompt("zebra"));
    with.set_rag_enabled(false);
    assert_eq!(with.prepare_base_prompt("login"), cuc::translator::with_rules(&base));
    with.set_rag_enabled(true);
    assert!(with.rag_enabled);
}

#[test]
fn the_translator_hands_on_to_the_learning_engine() {
    let mut translator = CommandTranslator::new();
    assert_eq!(translator.get_command_success_rate("cmd"), Ratio::percent(50));
    translator.update_command_success("cmd", true);
    translator.update_command_success("cmd", true);
    assert_eq!(translator.get_command_success_rate("cmd"), Ratio::percent(70));
    translator.update_command_success("other", false);
    assert_eq!(translator.get_command_success_rate("other"), Ratio::percent(40));
    assert_eq!(
        translator.get_intelligent_retry_suggestions("x", "bad parameter", 1),
        vec!["Check parameter syntax and required values", "Use --help to see valid parameters"]
    );
    let strategy = translator.analyze_command_failure("x", "command not found").unwrap();
    assert_eq!(strategy.strategy_type, RetryStrategyType::ImmediateRetry);
    let mut config = cuc::generation::RetryConfig::default();
    config.max_attempts = 7;
    translator.set_retry_config(config);
    assert_eq!(translator.retry_config.max_attempts, 7);
}

#[test]
fn a_learning_translation_ends_with_the_first_command() {
    let mut translator = CommandTranslator::new();
    let (mut state, step) = translator.start_learning_translation("list apps", 3);
    assert_eq!(query_of(step), "list apps");
    let step = translator.advance_learning_translation(&mut state, Ok("ibmcloud cf apps".into()));
    assert!(matches!(step, TranslationStep::Done(c) if c == "ibmcloud cf apps"));
    assert_eq!(translator.learning_engine.get_all_corrections().len(), 0);
    let again = translator.advance_learning_translation(&mut state, Ok("x".into()));
    assert!(matches!(again, TranslationStep::Failed(m) if m == "Max attempts reached"));
}

#[test]
fn a_learning_translation_tells_later_attempts_of_the_errors() {
    let mut translator = CommandTranslator::new();
    translator.add_execution_feedback("ibmcloud x", "exit 1", "earlier");
    let (mut state, step) = translator.start_learning_translation("list apps", 2);
    assert_eq!(
        query_of(step),
        "list apps\n\nPrevious command execution feedback:\nexit 1"
    );
    let step = translator.advance_learning_translation(&mut state, Err("no command".into()));
    // The failure is recorded without commands, so the one suggestion is empty.
    assert_eq!(
        query_of(step),
        "list apps\n\nPrevious generation attempts failed:\nAttempt 1: no command\n\nPrevious command execution feedback:\nexit 1\n\nSuggestions based on similar patterns:\n"
    );
    let records = translator.learning_engine.get_all_corrections();
    assert_eq!(records.len(), 2);
    assert_eq!(records[1].original_query, "list apps");
    assert_eq!(records[1].incorrect_command, "");
    assert_eq!(records[1].correct_command, "");
    assert_eq!(records[1].error_message.as_deref(), Some("no command"));
    assert!(matches!(&records[1].correction_type, CorrectionType::Other(k) if k == "TranslationError"));
    let step = translator.advance_learning_translation(&mut state, Err("still none".into()));
    assert!(matches!(step, TranslationStep::Failed(m) if m == "still none"));
    assert_eq!(translator.learning_engine.get_all_corrections().len(), 3);
    assert_eq!(translator.failure_history, vec!["exit 1"]);
}

#[test]
fn a_learning_translation_without_attempts_fails_at_once() {
    let mut translator = CommandTranslator::new();
    let (mut state, step) = translator.start_learning_translation("q", 0);
    assert!(matches!(step, TranslationStep::Failed(m) if m == "Max attempts reached"));
    let step = translator.advance_learning_translation(&mut state, Err("e".into()));
    assert!(matches!(step, TranslationStep::Failed(m) if m == "Max attempts reached"));
    assert_eq!(translator.learning_engine.get_all_corrections().len(), 0);
}

#[test]
fn a_new_translator_starts_from_a_fresh_learning_engine() {
    for translator in [
        CommandTranslator::new(),
        CommandTranslator::with_rag(RAGEngine::new(LocalVectorStore::new())),
    ] {
        let (corrections, keys, _) = translator.learning_engine.get_stats();
        assert_eq!((corrections, keys), (0, 0));
        assert!(translator.learning_engine.success_rates().is_empty());
        assert_eq!(translator.get_command_success_rate("anything"), Ratio::percent(50));
        assert_eq!(translator.retry_config.max_attempts, 3);
        assert_eq!(translator.retry_config.base_timeout_secs, 30);
        let strategy = translator.analyze_command_failure("x", "usage: x").unwrap();
        assert_eq!(strategy.strategy_type, RetryStrategyType::ContextualRetry);
    }
}
