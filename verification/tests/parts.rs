use cuc::cloud_provider::{detect_provider_in_lowered, CloudProviderType};
use cuc::document::DocumentChunk;
use cuc::embedding::{pair_feature, push_word_features, Feature, FeatureKind};
use cuc::html::push_element_chunks;
use cuc::learning::{advise_retry, classify_lowered, is_correctable_lowered, CorrectionType};
use cuc::quality::holds_error_indicator_lowered;
use cuc::rag::name_source;
use cuc::text::is_whitespace;

fn v(s: &str) -> Vec<char> {
    s.chars().collect()
}

fn lines(found: Vec<Vec<char>>) -> Vec<String> {
    found.iter().map(|l| l.iter().collect()).collect()
}

#[test]
fn whitespace_is_what_the_standard_library_calls_whitespace() {
    let mut code: u32 = 0;
    let mut count = 0;
    while code <= 0x10FFFF {
        if let Some(c) = char::from_u32(code) {
            assert_eq!(is_whitespace(c), c.is_whitespace(), "U+{:04X}", code);
            if is_whitespace(c) {
                count += 1;
            }
        }
        code += 1;
    }
    assert_eq!(count, 25);
}

#[test]
fn classification_reads_the_lowered_message_and_keeps_the_raw_one() {
    assert_eq!(
        classify_lowered(&v("'services' is not a registered command"), "IGNORED"),
        CorrectionType::CommandNotFound
    );
    assert_eq!(classify_lowered(&v("usage: ibmcloud"), ""), CorrectionType::InvalidSyntax);
    assert_eq!(
        classify_lowered(&v("plugin code-engine is not installed"), ""),
        CorrectionType::MissingPlugin
    );
    assert_eq!(classify_lowered(&v("plugin missing"), "x"), CorrectionType::Other("x".to_string()));
    assert_eq!(classify_lowered(&v("unknown subcommand"), ""), CorrectionType::WrongSubcommand);
    assert_eq!(classify_lowered(&v("bad argument"), ""), CorrectionType::ParameterError);
    // The rules look at the first argument as it is: nothing is put in lower case here.
    assert_eq!(
        classify_lowered(&v("COMMAND NOT FOUND"), "COMMAND NOT FOUND"),
        CorrectionType::Other("COMMAND NOT FOUND".to_string())
    );
    assert_eq!(classify_lowered(&v(""), "Raw"), CorrectionType::Other("Raw".to_string()));
}

#[test]
fn correctable_errors_are_told_from_the_lowered_message() {
    assert!(is_correctable_lowered(&v("command not found")));
    assert!(is_correctable_lowered(&v("x is not a registered command")));
    assert!(is_correctable_lowered(&v("invalid syntax near y")));
    assert!(is_correctable_lowered(&v("a plugin")));
    assert!(is_correctable_lowered(&v("no such subcommand")));
    assert!(!is_correctable_lowered(&v("missing parameter")));
    assert!(!is_correctable_lowered(&v("Command Not Found")));
    assert!(!is_correctable_lowered(&v("")));
}

#[test]
fn provider_names_are_matched_whole() {
    let cases = [
        ("ibmcloud", Some(CloudProviderType::IBMCloud)),
        ("ibm", Some(CloudProviderType::IBMCloud)),
        ("aws", Some(CloudProviderType::AWS)),
        ("amazon", Some(CloudProviderType::AWS)),
        ("gcp", Some(CloudProviderType::GCP)),
        ("gcloud", Some(CloudProviderType::GCP)),
        ("google", Some(CloudProviderType::GCP)),
        ("azure", Some(CloudProviderType::Azure)),
        ("az", Some(CloudProviderType::Azure)),
        ("microsoft", Some(CloudProviderType::Azure)),
        ("vmware", Some(CloudProviderType::VMware)),
        ("vsphere", Some(CloudProviderType::VMware)),
        ("govc", Some(CloudProviderType::VMware)),
        ("vmc", Some(CloudProviderType::VMware)),
        ("AWS", None),
        ("aws ", None),
        ("", None),
        ("oracle", None),
    ];
    for (name, expected) in cases {
        assert_eq!(CloudProviderType::from_lowered(&v(name)), expected, "{name}");
    }
}

#[test]
fn provider_detection_takes_the_first_provider_with_a_keyword() {
    let found = |q: &str| detect_provider_in_lowered(&v(q)).map(|d| d.provider);
    assert_eq!(found("list my ec2 instances"), Some(CloudProviderType::AWS));
    assert_eq!(found("watson on aws"), Some(CloudProviderType::IBMCloud));
    assert_eq!(found("gke clusters in azure"), Some(CloudProviderType::GCP));
    assert_eq!(found("az vm list"), Some(CloudProviderType::Azure));
    assert_eq!(found("esxi hosts"), Some(CloudProviderType::VMware));
    assert_eq!(found("EC2"), None);
    assert_eq!(found("list everything"), None);
    let d = detect_provider_in_lowered(&v("code engine apps")).unwrap();
    assert_eq!(d.confidence, cuc::ratio::Ratio::new(9, 10));
    assert_eq!(d.reason, "Query contains IBM Cloud specific keywords");
}

#[test]
fn error_indicators_are_looked_for_in_the_lowered_text() {
    for sign in ["error", "failed", "invalid", "unknown", "not found"] {
        assert!(holds_error_indicator_lowered(&v(&format!("x {sign} y"))), "{sign}");
    }
    assert!(!holds_error_indicator_lowered(&v("ERROR")));
    assert!(!holds_error_indicator_lowered(&v("ibmcloud resource groups")));
    assert!(!holds_error_indicator_lowered(&v("")));
}

#[test]
fn a_word_gives_three_places_from_three_parts_of_its_hash() {
    let h: u64 = (5 << 32) | (7 << 16) | 9;
    let mut features: Vec<Feature> = Vec::new();
    push_word_features(&mut features, h, 4);
    assert_eq!(
        features,
        vec![
            Feature { index: (h % 384) as usize, position: 4, kind: FeatureKind::Primary },
            Feature { index: ((h >> 16) % 384) as usize, position: 4, kind: FeatureKind::Secondary },
            Feature { index: 5, position: 4, kind: FeatureKind::Tertiary },
        ]
    );
    push_word_features(&mut features, 385, 0);
    assert_eq!(features.len(), 6);
    assert_eq!(features[3], Feature { index: 1, position: 0, kind: FeatureKind::Primary });
    assert_eq!(features[4], Feature { index: 0, position: 0, kind: FeatureKind::Secondary });
    assert_eq!(features[5], Feature { index: 0, position: 0, kind: FeatureKind::Tertiary });
    assert_eq!(
        pair_feature(u64::MAX, 2),
        Feature { index: (u64::MAX % 384) as usize, position: 2, kind: FeatureKind::Bigram }
    );
    assert_eq!(pair_feature(384, 0).index, 0);
}

#[test]
fn elements_give_chunks_where_their_text_is_long_enough() {
    let long = "a".repeat(30);
    let elements = vec![
        vec![format!("  {long}"), format!("{long}  ")],
        vec!["short".to_string()],
        vec![],
        vec!["b".repeat(51)],
        vec!["c".repeat(50)],
    ];
    let mut chunks: Vec<DocumentChunk> = vec![DocumentChunk::new("first", "kept", "s")];
    push_element_chunks(&mut chunks, &elements, "http://u", "p");
    assert_eq!(chunks.len(), 3);
    assert_eq!(chunks[0].id, "first");
    assert_eq!(chunks[1].content, format!("{long} {long}"));
    assert_eq!(chunks[1].source, "http://u");
    assert_eq!(chunks[1].metadata.get_text("element_type"), Some(&"p".to_string()));
    assert_eq!(chunks[1].metadata.get_text("url"), Some(&"http://u".to_string()));
    assert_eq!(
        chunks[1].id,
        format!("{:x}-{:x}", md5::compute("http://u"), md5::compute(&chunks[1].content))
    );
    assert_eq!(chunks[2].content, "b".repeat(51));
    assert!(chunks[1].embedding.is_empty());
}

#[test]
fn a_source_is_named_by_host_and_path_or_by_its_last_segment() {
    let parsed = Some(("example.com".to_string(), "/docs/cli".to_string()));
    assert_eq!(name_source("https://example.com/docs/cli?x=1", &parsed), "example.com/docs/cli");
    assert_eq!(name_source("https://example.com/docs/cli", &None), "cli");
    assert_eq!(name_source("docs/guide.md", &parsed), "guide.md");
    assert_eq!(name_source("guide.md", &None), "guide.md");
    assert_eq!(name_source("dir/", &None), "");
    assert_eq!(name_source("", &None), "");
}

#[test]
fn retry_advice_depends_on_the_kind_the_plugin_and_the_attempt() {
    let none: Option<String> = None;
    let plugin = Some("code-engine".to_string());
    assert_eq!(
        lines(advise_retry(&CorrectionType::AuthenticationError, &none, 1)),
        vec!["Try running 'ibmcloud login' first", "Check your API key or credentials"]
    );
    assert_eq!(
        lines(advise_retry(&CorrectionType::NetworkError, &none, 1)),
        vec!["Retry the command (network issue detected)", "Check your internet connection"]
    );
    assert_eq!(
        lines(advise_retry(&CorrectionType::NetworkError, &none, 2)),
        vec!["Check your internet connection"]
    );
    assert_eq!(
        lines(advise_retry(&CorrectionType::MissingPlugin, &plugin, 1)),
        vec!["Install the plugin: ibmcloud plugin install code-engine"]
    );
    assert!(advise_retry(&CorrectionType::MissingPlugin, &none, 1).is_empty());
    assert_eq!(
        lines(advise_retry(&CorrectionType::ResourceNotFound, &plugin, 1)),
        vec!["Verify the resource name and region", "List available resources first"]
    );
    assert_eq!(
        lines(advise_retry(&CorrectionType::ParameterError, &none, 9)),
        vec!["Check parameter syntax and required values", "Use --help to see valid parameters"]
    );
    assert!(advise_retry(&CorrectionType::CommandNotFound, &plugin, 1).is_empty());
    assert!(advise_retry(&CorrectionType::Other("x".to_string()), &plugin, 1).is_empty());
}
