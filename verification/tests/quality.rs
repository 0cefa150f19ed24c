use cuc::intent::{IntentDetector, QueryIntent};
use cuc::quality::QualityAnalyzer;
use cuc::ratio::Ratio;
use cuc::watsonx::{assess_quality, enhance_prompt_with_feedback, WatsonxConfig};

fn deployment(detector: &IntentDetector, query: &str) -> (Option<String>, Option<String>) {
    match detector.detect(query) {
        QueryIntent::DeployToCodeEngine { app_name, project_name } => (app_name, project_name),
        _ => panic!("expected a deployment"),
    }
}

#[test]
fn test_quality_analysis() {
    let analyzer = QualityAnalyzer::new();

    let good_command = "ibmcloud resource groups";
    let analysis = analyzer.analyze(good_command);
    assert!(analysis.score.exceeds(&Ratio::new(6, 10)));

    let bad_command = "error: invalid";
    let analysis = analyzer.analyze(bad_command);
    assert!(!analysis.score.at_least(&Ratio::new(6, 10)));
}

#[test]
fn test_is_valid() {
    let analyzer = QualityAnalyzer::new();

    assert!(analyzer.is_valid("ibmcloud resource groups"));
    assert!(!analyzer.is_valid("error"));
}

#[test]
fn test_quality_analyzer_validation() {
    let analyzer = QualityAnalyzer::new();
    assert!(analyzer.is_valid("ibmcloud resource groups"));
    assert!(analyzer.is_valid("ibmcloud login"));
    assert!(!analyzer.is_valid("error"));
    assert!(!analyzer.is_valid(""));
}

#[test]
fn quality_points_issues_and_suggestions() {
    let analyzer = QualityAnalyzer::new();

    let a = analyzer.analyze("ibmcloud resource groups");
    assert_eq!(a.score, Ratio::percent(100));
    assert!(a.issues.is_empty());
    assert!(a.suggestions.is_empty());

    let a = analyzer.analyze("");
    assert_eq!(a.score, Ratio::percent(15));
    assert_eq!(
        a.issues,
        vec![
            "Command does not start with 'ibmcloud'",
            "Command is empty",
            "Command spans multiple lines"
        ]
    );
    assert_eq!(
        a.suggestions,
        vec![
            "Ensure the command starts with 'ibmcloud'",
            "Command may not follow common IBM Cloud CLI patterns",
            "Use a single-line command"
        ]
    );

    let a = analyzer.analyze("ibmcloud");
    assert_eq!(a.score, Ratio::percent(60));
    assert_eq!(a.issues, vec!["Command is too short"]);
    assert!(analyzer.is_valid("ibmcloud"));

    let a = analyzer.analyze("error: command not found");
    assert_eq!(a.score, Ratio::percent(35));
    assert_eq!(
        a.issues,
        vec!["Command does not start with 'ibmcloud'", "Command contains error indicators"]
    );

    let long = format!("ibmcloud resource {}", "x".repeat(300));
    let a = analyzer.analyze(&long);
    assert_eq!(a.score, Ratio::percent(80));
    assert_eq!(a.issues, vec!["Command is too long"]);
    assert_eq!(a.suggestions, vec!["Consider breaking down into multiple commands"]);

    let a = analyzer.analyze("  ibmcloud target -r us-south\n\nibmcloud login\n");
    assert_eq!(a.score, Ratio::percent(85));
    assert_eq!(a.issues, vec!["Command spans multiple lines"]);
    assert_eq!(a.suggestions, vec!["Use a single-line command"]);

    let a = analyzer.analyze("ibmcloud target -r us-south\r\n   \n");
    assert_eq!(a.score, Ratio::percent(100));
}

#[test]
fn test_quality_assessment() {
    let good_command = "ibmcloud resource groups";
    let score = assess_quality(good_command, "list resource groups");
    assert!(score.exceeds(&Ratio::new(5, 10)));
    assert_eq!(score, Ratio::percent(100));

    let bad_command = "error: invalid command";
    let score = assess_quality(bad_command, "list resource groups");
    assert!(!score.at_least(&Ratio::new(5, 10)));
    assert_eq!(score, Ratio::percent(35));

    assert_eq!(assess_quality("aws s3 ls", ""), Ratio::percent(80));
    assert_eq!(assess_quality("gcloud compute instances list", ""), Ratio::percent(100));
    assert_eq!(assess_quality("", ""), Ratio::percent(15));
}

#[test]
fn test_config_snapshot() {
    let config = WatsonxConfig::new("test_api_key_redacted".to_string(), "test_project_id".to_string());
    assert_eq!(config.api_key, "test_api_key_redacted");
    assert_eq!(config.project_id, "test_project_id");
    assert_eq!(config.iam_url, "iam.cloud.ibm.com");
    assert_eq!(config.api_url, "https://us-south.ml.cloud.ibm.com");
}

#[test]
fn feedback_prompts() {
    assert_eq!(enhance_prompt_with_feedback("base", &Vec::new(), 3), "base");
    let failures = vec!["first error".to_string(), "second error".to_string()];
    assert_eq!(
        enhance_prompt_with_feedback("base", &failures, 1),
        "base\n\nPREVIOUS ATTEMPTS FAILED WITH THESE ERRORS:\n1. first error\n2. second error\n\nPlease generate a more specific and accurate cloud CLI command."
    );
    assert_eq!(
        enhance_prompt_with_feedback("base", &failures[..1].to_vec(), 2),
        "base\n\nPREVIOUS ATTEMPTS FAILED WITH THESE ERRORS:\n1. first error\n\nIMPORTANT: The previous command failed. Please:\n- Check command syntax carefully\n- Verify subcommand names\n- Ensure proper parameter format\n- Consider if plugins are required\n"
    );
    for attempt in [0, 3, 7] {
        assert!(enhance_prompt_with_feedback("base", &failures, attempt).ends_with(
            "\nCRITICAL: Multiple attempts failed. Please:\n- Use only well-established CLI commands\n- Avoid deprecated or experimental features\n- Consider alternative approaches\n- Focus on core cloud services\n"
        ));
    }
    let many: Vec<String> = (0..12).map(|i| format!("e{}", i)).collect();
    assert!(enhance_prompt_with_feedback("b", &many, 1).contains("\n12. e11\n"));
}

#[test]
fn test_deploy_intent_detection() {
    let detector = IntentDetector::new();

    assert_eq!(deployment(&detector, "deploy to code engine"), (None, None));

    // "my" is filtered out as a stop word
    assert_eq!(deployment(&detector, "deploy my app to code engine"), (None, None));

    assert_eq!(
        deployment(&detector, "deploy myapp to code engine"),
        (Some("myapp".to_string()), None)
    );

    assert_eq!(
        deployment(&detector, "deploy app named myapp to project myproject"),
        (Some("myapp".to_string()), Some("myproject".to_string()))
    );

    assert!(matches!(detector.detect("list my resources"), QueryIntent::CommandTranslation));
}

#[test]
fn intent_detection_ignores_case_and_keeps_the_names_as_written() {
    let detector = IntentDetector::default();
    assert_eq!(
        deployment(&detector, "DEPLOY Shop-Api to Code Engine in project Prod1"),
        (Some("Shop-Api".to_string()), Some("Prod1".to_string()))
    );
    assert_eq!(
        deployment(&detector, "publish the application"),
        (None, None)
    );
    assert!(matches!(detector.detect("deployment status"), QueryIntent::CommandTranslation));
}

fn set(value: &str) -> Option<String> {
    Some(value.to_string())
}

#[test]
fn the_configuration_takes_the_first_setting_that_is_set() {
    let config =
        WatsonxConfig::from_settings(set("first-key"), set("second-key"), None, set("second-project"), None, None).unwrap();
    assert_eq!(config.api_key, "first-key");
    assert_eq!(config.project_id, "second-project");
    assert_eq!(config.iam_url, "iam.cloud.ibm.com");
    assert_eq!(config.api_url, "https://us-south.ml.cloud.ibm.com");
    let config = WatsonxConfig::from_settings(
        None,
        set("second-key"),
        set("first-project"),
        None,
        set("iam.test"),
        set("https://api.test"),
    )
    .unwrap();
    assert_eq!(config.api_key, "second-key");
    assert_eq!(config.project_id, "first-project");
    assert_eq!(config.iam_url, "iam.test");
    assert_eq!(config.api_url, "https://api.test");
}

#[test]
fn a_configuration_without_key_or_project_is_an_error() {
    match WatsonxConfig::from_settings(None, None, None, None, None, None) {
        Err(cuc::error::Error::Configuration(m)) => {
            assert_eq!(m, "WATSONX_API_KEY or API_KEY environment variable not found")
        },
        other => panic!("expected a configuration error, got {:?}", other),
    }
    match WatsonxConfig::from_settings(set("k"), None, None, None, set("x"), None) {
        Err(cuc::error::Error::Configuration(m)) => {
            assert_eq!(m, "WATSONX_PROJECT_ID or PROJECT_ID environment variable not found")
        },
        other => panic!("expected a configuration error, got {:?}", other),
    }
}

#[test]
fn test_quality_assessment_snapshot() {
    let test_cases = vec![
        ("ibmcloud resource groups", Ratio::percent(100)),
        ("ibmcloud login --sso", Ratio::percent(100)),
        ("ibmcloud target -r us-south", Ratio::percent(100)),
        ("error: invalid command", Ratio::percent(35)),
        ("", Ratio::percent(15)),
    ];
    for (command, expected) in test_cases {
        assert_eq!(assess_quality(command, "test prompt"), expected, "{command}");
    }
}

#[test]
fn test_model_constants() {
    assert_eq!(cuc::watsonx::GRANITE_4_H_SMALL, "ibm/granite-4-h-small");
    assert_eq!(cuc::watsonx::GRANITE_3_3_8B_INSTRUCT, "ibm/granite-3-3-8b-instruct");
}

#[test]
fn test_quality_analyzer_snapshots() {
    let analyzer = QualityAnalyzer::new();
    let short = "Command is too short";
    let start = "Command does not start with 'ibmcloud'";
    let start_advice = "Ensure the command starts with 'ibmcloud'";
    let pattern_advice = "Command may not follow common IBM Cloud CLI patterns";
    let single_advice = "Use a single-line command";
    let test_commands: Vec<(&str, u64, Vec<&str>, Vec<&str>)> = vec![
        ("ibmcloud resource groups", 100, vec![], vec![]),
        ("ibmcloud login --sso", 100, vec![], vec![]),
        ("ibmcloud target -r us-south -g default", 100, vec![], vec![]),
        ("ibmcloud cf apps", 100, vec![], vec![]),
        ("ibmcloud plugin list", 100, vec![], vec![]),
        (
            "error: command not found",
            35,
            vec![start, "Command contains error indicators"],
            vec![start_advice, pattern_advice],
        ),
        (
            "",
            15,
            vec![start, "Command is empty", "Command spans multiple lines"],
            vec![start_advice, pattern_advice, single_advice],
        ),
        ("ibmcloud", 60, vec![short], vec![pattern_advice]),
        (
            "ibmcloud resource service-instances --service-name databases-for-postgresql",
            100,
            vec![],
            vec![],
        ),
    ];
    for (command, points, issues, suggestions) in test_commands {
        let analysis = analyzer.analyze(command);
        assert_eq!(analysis.score, Ratio::percent(points), "{command}");
        assert_eq!(analysis.issues, issues, "{command}");
        assert_eq!(analysis.suggestions, suggestions, "{command}");
    }
}

#[test]
fn requests_are_addressed_and_authorized() {
    assert_eq!(cuc::watsonx::token_url("iam.cloud.ibm.com"), "https://iam.cloud.ibm.com/identity/token");
    assert_eq!(
        cuc::watsonx::generation_url("https://us-south.ml.cloud.ibm.com"),
        "https://us-south.ml.cloud.ibm.com/ml/v1/text/generation_stream?version=2023-05-29"
    );
    assert_eq!(cuc::watsonx::bearer("abc"), "Bearer abc");
    assert_eq!(cuc::watsonx::stop_sequences(), vec!["Human:", "Assistant:", "Query:"]);
    match cuc::watsonx::request_failed("503 Service Unavailable", "try later") {
        cuc::error::Error::LLMProvider(m) => assert_eq!(
            m,
            "WatsonX API request failed with status 503 Service Unavailable: try later"
        ),
        other => panic!("expected a provider error, got {:?}", other),
    }
}

#[test]
fn blank_pieces_of_an_answer_are_left_out() {
    let pieces = |items: &[&str]| -> Vec<String> { items.iter().map(|s| s.to_string()).collect() };
    assert_eq!(cuc::watsonx::collect_answer(&pieces(&[])), "");
    assert_eq!(cuc::watsonx::collect_answer(&pieces(&["ibmcloud", " ", " login", "\n", ""])), "ibmcloud login");
    assert_eq!(cuc::watsonx::collect_answer(&pieces(&[" a ", "\t", "b\n"])), " a b\n");
    assert_eq!(cuc::watsonx::collect_answer(&pieces(&["  ", "\n"])), "");
}
