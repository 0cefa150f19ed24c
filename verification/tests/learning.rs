use cuc::learning::{
    analyze_error, extract_failed_command, extract_plugin_name, get_default_retry_strategy,
    is_correctable_error, problem_token, CommandLearningEngine, CorrectionType, RetryStrategyType,
};
use cuc::ratio::Ratio;

fn queries(found: &[cuc::learning::SimilarCorrection]) -> Vec<String> {
    found.iter().map(|s| s.correction.original_query.clone()).collect()
}

#[test]
fn test_command_learning_creation() {
    let engine = CommandLearningEngine::new();
    let (corrections, patterns, _) = engine.get_stats();
    assert_eq!(corrections, 0);
    assert_eq!(patterns, 0);
}

#[test]
fn test_error_analysis() {
    let error_type = analyze_error("'services' is not a registered command");
    assert!(matches!(error_type, CorrectionType::CommandNotFound));
}

#[test]
fn test_extract_failed_command() {
    let error = "'services' is not a registered command";
    let extracted = extract_failed_command(error);
    assert_eq!(extracted, Some("services".to_string()));
}

#[test]
fn extract_failed_command_needs_two_quotes() {
    assert_eq!(extract_failed_command("no quotes here"), None);
    assert_eq!(extract_failed_command("only 'one quote"), None);
    assert_eq!(extract_failed_command("''"), Some(String::new()));
    assert_eq!(extract_failed_command("a 'b' c 'd'"), Some("b".to_string()));
}

#[test]
fn test_command_learning() {
    let mut engine = CommandLearningEngine::new();
    engine.add_correction(
        "list databases",
        "ibmcloud databases",
        "ibmcloud resource service-instances",
        None,
        CorrectionType::CommandNotFound,
    );
    let learned = engine.get_learned_command("list databases");
    assert!(learned.is_some());
    assert_eq!(learned.unwrap(), "ibmcloud resource service-instances");
    assert_eq!(engine.get_learned_command("list database"), None);
}

#[test]
fn test_command_learning_similarity() {
    let mut engine = CommandLearningEngine::new();
    engine.add_correction(
        "list all databases",
        "",
        "ibmcloud resource service-instances",
        None,
        CorrectionType::Other("".to_string()),
    );
    engine.add_correction(
        "show my databases",
        "",
        "ibmcloud resource service-instances --service-name databases",
        None,
        CorrectionType::Other("".to_string()),
    );

    let similar = engine.find_similar("list databases", &Ratio::new(3, 10));
    assert_eq!(queries(&similar), vec!["list all databases", "show my databases"]);
    assert_eq!(similar[0].score, Ratio::new(2, 2));
    assert_eq!(similar[1].score, Ratio::new(1, 2));
    assert_eq!(similar[0].position, 0);
    assert_eq!(similar[1].position, 1);
}

#[test]
fn find_similar_applies_the_threshold_and_keeps_ties_in_order() {
    let mut engine = CommandLearningEngine::new();
    for q in ["show my databases", "list all databases", "list every database", "target region"] {
        engine.add_correction(q, "x", "y", None, CorrectionType::InvalidSyntax);
    }
    let similar = engine.find_similar("list databases", &Ratio::new(1, 2));
    assert_eq!(
        queries(&similar),
        vec!["list all databases", "show my databases", "list every database"]
    );
    let strict = engine.find_similar("list databases", &Ratio::new(6, 10));
    assert_eq!(queries(&strict), vec!["list all databases"]);
    let any = engine.find_similar("", &Ratio::zero());
    assert_eq!(any.len(), 4);
    assert!(engine.find_similar("", &Ratio::new(1, 10)).is_empty());
}

#[test]
fn find_similar_sees_only_the_current_correction_of_a_query() {
    let mut engine = CommandLearningEngine::new();
    engine.add_correction("list databases", "a", "first", None, CorrectionType::InvalidSyntax);
    engine.add_correction("list databases", "a", "second", None, CorrectionType::InvalidSyntax);
    let similar = engine.find_similar("list databases", &Ratio::new(1, 2));
    assert_eq!(similar.len(), 1);
    assert_eq!(similar[0].correction.correct_command, "second");
    assert_eq!(similar[0].position, 1);
}

#[test]
fn correction_overwrite_returns_the_second_value() {
    let mut engine = CommandLearningEngine::new();
    engine.add_correction("q", "wrong", "first", None, CorrectionType::InvalidSyntax);
    engine.add_correction("other", "wrong", "else", None, CorrectionType::InvalidSyntax);
    engine.add_correction("q", "wrong", "second", Some("boom"), CorrectionType::InvalidSyntax);
    assert_eq!(engine.get_learned_command("q").unwrap(), "second");
    assert_eq!(engine.get_learned_command("other").unwrap(), "else");
    assert_eq!(engine.get_all_corrections().len(), 3);
    let last = &engine.get_all_corrections()[2];
    assert_eq!(last.error_message, Some("boom".to_string()));
    assert_eq!(last.confidence_score, Ratio::one());
    assert_eq!(last.success_rate, Ratio::one());
    assert_eq!(last.usage_count, 1);
    assert!(last.timestamp > 1_500_000_000);
}

#[test]
fn error_classification_examples() {
    assert!(matches!(
        analyze_error("'services' is not a registered command"),
        CorrectionType::CommandNotFound
    ));
    assert!(matches!(
        analyze_error("Missing required parameter: name"),
        CorrectionType::ParameterError
    ));
    match analyze_error("xyz") {
        CorrectionType::Other(m) => assert_eq!(m, "xyz"),
        _ => panic!("expected Other"),
    }
}

#[test]
fn error_classification_follows_the_order_of_the_rules() {
    assert!(matches!(analyze_error("bash: foo: COMMAND NOT FOUND"), CorrectionType::CommandNotFound));
    assert!(matches!(analyze_error("Usage: ibmcloud target"), CorrectionType::InvalidSyntax));
    assert!(matches!(
        analyze_error("Invalid syntax: command not found"),
        CorrectionType::CommandNotFound
    ));
    assert!(matches!(
        analyze_error("Plugin 'ce' is not installed"),
        CorrectionType::MissingPlugin
    ));
    assert!(matches!(analyze_error("the plugin failed"), CorrectionType::Other(_)));
    assert!(matches!(
        analyze_error("unknown subcommand for plugin"),
        CorrectionType::WrongSubcommand
    ));
    assert!(matches!(analyze_error("bad ARGUMENT"), CorrectionType::ParameterError));
    match analyze_error("Weird Failure") {
        CorrectionType::Other(m) => assert_eq!(m, "Weird Failure"),
        _ => panic!("expected Other"),
    }
}

#[test]
fn correctable_errors() {
    assert!(is_correctable_error("'x' is Not a Registered Command"));
    assert!(is_correctable_error("a plugin is missing"));
    assert!(is_correctable_error("wrong subcommand"));
    assert!(is_correctable_error("invalid syntax near"));
    assert!(!is_correctable_error("network unreachable"));
}

#[test]
fn pattern_keys() {
    assert_eq!(
        problem_token(&CorrectionType::CommandNotFound, "ibmcloud services list"),
        "services"
    );
    assert_eq!(problem_token(&CorrectionType::CommandNotFound, "ibmcloud   db  x"), "db");
    assert_eq!(problem_token(&CorrectionType::CommandNotFound, "ibmcloud "), "unknown");
    assert_eq!(problem_token(&CorrectionType::CommandNotFound, "aws s3 ls"), "unknown");
    assert_eq!(problem_token(&CorrectionType::InvalidSyntax, "ibmcloud services"), "general");
}

#[test]
fn suggestions_are_sorted_unique_and_at_most_three() {
    let mut engine = CommandLearningEngine::new();
    engine.add_correction(
        "show services",
        "ibmcloud services",
        "ibmcloud resource service-instances",
        None,
        CorrectionType::CommandNotFound,
    );
    engine.add_correction(
        "unrelated",
        "ibmcloud services",
        "ibmcloud catalog service-marketplace",
        None,
        CorrectionType::CommandNotFound,
    );
    engine.add_correction("zzz", "ibmcloud other", "b-command", None, CorrectionType::InvalidSyntax);
    engine.add_correction("yyy", "ibmcloud other", "a-command", None, CorrectionType::InvalidSyntax);

    // neither query holds this command or is held by it; both commands are
    // filed under the key `services`, which is part of it
    let suggestions = engine.get_suggestions("ibmcloud services", None);
    assert_eq!(
        suggestions,
        vec!["ibmcloud catalog service-marketplace", "ibmcloud resource service-instances"]
    );

    // the key `general` is part of this command; the query `zzz` holds it too
    let general = engine.get_suggestions("zzz general", None);
    assert_eq!(general, vec!["a-command", "b-command"]);

    // a query that holds the failed command, without regard to case
    let by_query = engine.get_suggestions("SHOW", None);
    assert_eq!(by_query, vec!["ibmcloud resource service-instances"]);

    let mut many = CommandLearningEngine::new();
    for c in ["d", "b", "a", "c", "b"] {
        many.add_correction("q", "cmd", c, None, CorrectionType::InvalidSyntax);
    }
    assert_eq!(many.get_suggestions("q", None), vec!["a", "b", "c"]);
    assert_eq!(many.get_suggestions("the Q of it", None), vec!["a", "b", "c"]);
    assert!(many.get_suggestions("nothing like it", None).is_empty());
}

#[test]
fn the_corrected_command_alone_brings_no_suggestion() {
    let mut engine = CommandLearningEngine::new();
    engine.add_correction("show apps", "cmd", "right", None, CorrectionType::InvalidSyntax);
    // `cmd` is the command that the record corrects, but the query does not
    // hold it, it does not hold the query, and the key `general` is no part of it
    assert!(engine.get_suggestions("cmd", None).is_empty());
    assert_eq!(engine.get_suggestions("apps", None), vec!["right"]);
    assert_eq!(engine.get_suggestions("please show apps now", None), vec!["right"]);
    assert_eq!(engine.get_suggestions("a general failure", None), vec!["right"]);
}

#[test]
fn suggestions_compare_by_code_point() {
    let mut engine = CommandLearningEngine::new();
    for c in ["b", "B", "ab", "a", "é"] {
        engine.add_correction("q", "cmd", c, None, CorrectionType::InvalidSyntax);
    }
    let mut expected = vec!["b", "B", "ab", "a", "é"];
    expected.sort();
    expected.truncate(3);
    assert_eq!(engine.get_suggestions("q", None), expected);
    assert_eq!(engine.get_suggestions("q", None), vec!["B", "a", "ab"]);
}

#[test]
fn success_metrics_move_by_a_tenth_and_stay_in_range() {
    let mut engine = CommandLearningEngine::new();
    assert_eq!(engine.get_success_rate("ibmcloud login"), Ratio::percent(50));
    engine.update_success_metrics("ibmcloud login", true);
    assert_eq!(engine.get_success_rate("ibmcloud login"), Ratio::percent(60));
    engine.update_success_metrics("ibmcloud login", false);
    engine.update_success_metrics("ibmcloud login", false);
    assert_eq!(engine.get_success_rate("ibmcloud login"), Ratio::percent(40));
    for _ in 0..10 {
        engine.update_success_metrics("ibmcloud login", false);
    }
    assert_eq!(engine.get_success_rate("ibmcloud login"), Ratio::percent(0));
    for _ in 0..12 {
        engine.update_success_metrics("ibmcloud login", true);
    }
    assert_eq!(engine.get_success_rate("ibmcloud login"), Ratio::percent(100));
    assert_eq!(engine.get_success_rate("another"), Ratio::percent(50));
}

#[test]
fn retry_strategies_come_from_the_table_the_patterns_or_the_default() {
    let engine = CommandLearningEngine::new();

    let s = engine.analyze_failure_pattern("'x' is not a registered command", "x").unwrap();
    assert_eq!(s.strategy_type, RetryStrategyType::ImmediateRetry);
    assert_eq!((s.max_attempts, s.delay_ms, s.success_rate), (2, 0, Ratio::percent(60)));

    let s = engine.analyze_failure_pattern("usage: ibmcloud", "x").unwrap();
    assert_eq!(s.strategy_type, RetryStrategyType::ContextualRetry);
    assert_eq!((s.max_attempts, s.delay_ms, s.success_rate), (2, 500, Ratio::percent(80)));

    let s = engine.analyze_failure_pattern("Missing required parameter: name", "x").unwrap();
    assert_eq!(s.strategy_type, RetryStrategyType::LinearBackoff);
    assert_eq!((s.max_attempts, s.delay_ms, s.success_rate), (2, 500, Ratio::percent(75)));

    // no entry for this kind, but the pattern for refused connections matches
    let s = engine.analyze_failure_pattern("Connection refused", "x").unwrap();
    assert_eq!(s.strategy_type, RetryStrategyType::LinearBackoff);
    assert_eq!((s.max_attempts, s.delay_ms, s.success_rate), (2, 500, Ratio::percent(60)));

    // the patterns are matched with regard to case
    let s = engine.analyze_failure_pattern("connection refused", "x").unwrap();
    assert_eq!((s.max_attempts, s.delay_ms, s.success_rate), (2, 1000, Ratio::percent(50)));

    let s = engine.analyze_failure_pattern("something odd", "x").unwrap();
    assert_eq!(s.strategy_type, RetryStrategyType::LinearBackoff);
    assert_eq!((s.max_attempts, s.delay_ms, s.success_rate), (2, 1000, Ratio::percent(50)));
}

#[test]
fn default_retry_strategies() {
    let s = get_default_retry_strategy(&CorrectionType::NetworkError);
    assert_eq!(s.strategy_type, RetryStrategyType::ExponentialBackoff);
    assert_eq!((s.max_attempts, s.delay_ms, s.success_rate), (3, 1000, Ratio::percent(70)));
    let s = get_default_retry_strategy(&CorrectionType::AuthenticationError);
    assert_eq!(s.strategy_type, RetryStrategyType::NoRetry);
    assert_eq!((s.max_attempts, s.delay_ms, s.success_rate), (1, 0, Ratio::percent(10)));
    let s = get_default_retry_strategy(&CorrectionType::MissingPlugin);
    assert_eq!(s.strategy_type, RetryStrategyType::LinearBackoff);
}

#[test]
fn plugin_names_are_taken_from_the_message() {
    assert_eq!(
        extract_plugin_name("plugin 'code-engine' not installed"),
        Some("code-engine".to_string())
    );
    assert_eq!(extract_plugin_name("Plugin 'x' not installed"), None);
    assert_eq!(extract_plugin_name("no quotes: plugin x"), None);
}

#[test]
fn retry_suggestions_add_what_the_kind_of_error_calls_for() {
    let mut engine = CommandLearningEngine::new();
    engine.add_correction("ce", "ibmcloud ce", "zz-learned", None, CorrectionType::InvalidSyntax);

    let s = engine.get_retry_suggestions("ibmcloud ce", "the plugin 'code-engine' is not installed", 1);
    assert_eq!(s, vec!["Install the plugin: ibmcloud plugin install code-engine", "zz-learned"]);

    let s = engine.get_retry_suggestions("none", "Missing required parameter: name", 1);
    assert_eq!(
        s,
        vec!["Check parameter syntax and required values", "Use --help to see valid parameters"]
    );

    let s = engine.get_retry_suggestions("none", "all fine", 1);
    assert!(s.is_empty());
}

#[test]
fn learning_context_quotes_at_most_three_corrections() {
    let mut engine = CommandLearningEngine::new();
    assert_eq!(engine.get_learning_context("list databases"), "");
    assert_eq!(
        engine.get_learning_context("list services"),
        "\nNote: 'ibmcloud services' is not valid. Use 'ibmcloud resource service-instances' instead.\n"
    );
    engine.add_correction("List Databases", "w", "c1", None, CorrectionType::InvalidSyntax);
    engine.add_correction("unrelated", "w", "c2", None, CorrectionType::InvalidSyntax);
    engine.add_correction("databases", "w", "c3", None, CorrectionType::InvalidSyntax);
    engine.add_correction("please list databases now", "w", "c4", None, CorrectionType::InvalidSyntax);
    engine.add_correction("list databases", "w", "c5", None, CorrectionType::InvalidSyntax);
    assert_eq!(
        engine.get_learning_context("list databases"),
        "\nLearned corrections:\n- Query: 'List Databases' -> Correct command: 'c1'\n- Query: 'databases' -> Correct command: 'c3'\n- Query: 'please list databases now' -> Correct command: 'c4'\n"
    );
}

#[test]
fn stats_count_corrections_and_pattern_keys() {
    let mut engine = CommandLearningEngine::new();
    engine.add_correction("a", "ibmcloud services", "x", None, CorrectionType::CommandNotFound);
    engine.add_correction("b", "ibmcloud services", "y", None, CorrectionType::CommandNotFound);
    engine.add_correction("c", "ibmcloud dbs", "z", None, CorrectionType::InvalidSyntax);
    let (corrections, patterns, updated) = engine.get_stats();
    assert_eq!(corrections, 3);
    assert_eq!(patterns, 2);
    assert!(updated > 1_500_000_000);
}

#[test]
fn test_command_learning_snapshot() {
    let mut engine = CommandLearningEngine::new();
    engine.add_correction(
        "list databases",
        "",
        "ibmcloud resource service-instances --service-name databases-for-postgresql",
        Some("Plugin missing error"),
        CorrectionType::MissingPlugin,
    );
    engine.add_correction("show clusters", "", "ibmcloud ks clusters", None, CorrectionType::WrongSubcommand);

    let all = engine.get_all_corrections();
    assert_eq!(all.len(), 2);
    assert_eq!(all[0].original_query, "list databases");
    assert_eq!(
        all[0].correct_command,
        "ibmcloud resource service-instances --service-name databases-for-postgresql"
    );
    assert_eq!(all[0].error_message.as_deref(), Some("Plugin missing error"));
    assert_eq!(all[0].confidence_score, Ratio::new(1, 1));
    assert_eq!(all[0].usage_count, 1);
    assert_eq!(all[1].original_query, "show clusters");
    assert_eq!(all[1].correct_command, "ibmcloud ks clusters");
    assert_eq!(all[1].error_message, None);
    assert!(all[0].timestamp <= all[1].timestamp);
}

#[test]
fn success_rates_list_every_rated_command_in_the_order_it_first_came() {
    let mut engine = CommandLearningEngine::new();
    assert!(engine.success_rates().is_empty());
    engine.update_success_metrics("second", false);
    engine.update_success_metrics("first", true);
    engine.update_success_metrics("second", false);
    engine.set_success_rate("third", 250);
    engine.set_success_rate("first", 5);
    assert_eq!(
        engine.success_rates(),
        vec![("second".to_string(), 30), ("first".to_string(), 5), ("third".to_string(), 100)]
    );
    engine.add_correction("q", "bad", "good", None, CorrectionType::InvalidSyntax);
    assert_eq!(engine.success_rates().len(), 3);
}
