use cuc::cloud_provider::CloudProviderType;
use cuc::execution::{
    confirms, is_agreement, needs_login_check, not_logged_in_message, output_to_show,
    wants_json_repair,
};
use cuc::json_output::{
    extract_json_section, nesting_of, place_repair, repair_aws_json_output, splice_repaired,
    MAX_JSON_NESTING,
};

fn section(output: &str) -> Option<String> {
    extract_json_section(output)
}

fn is_json(text: &str) -> bool {
    serde_json::from_str::<serde_json::Value>(text).is_ok()
}

#[test]
fn the_json_of_an_output_runs_from_the_opening_to_the_closing_line() {
    assert_eq!(section("{\"a\": 1}"), Some("{\"a\": 1}".to_string()));
    assert_eq!(
        section("Listing:\n  {\n  \"a\": 1\n  }  \ndone\n}"),
        Some("  {\n  \"a\": 1\n  }  ".to_string())
    );
    assert_eq!(section("x\n[1,\n2]\n[3]"), Some("[1,\n2]".to_string()));
    assert_eq!(section("a\n{\n\"b\": 1\nc"), Some("{\n\"b\": 1\nc".to_string()));
    assert_eq!(section("a\r\n[\r\n]\r\n"), Some("[\n]".to_string()));
    assert_eq!(section("{"), Some("{".to_string()));
    // A line that closes before any line opens does not count.
    assert_eq!(section("}\n[\n1\n]"), Some("[\n1\n]".to_string()));
}

#[test]
fn an_output_without_an_opening_line_holds_no_json() {
    assert_eq!(section(""), None);
    assert_eq!(section("no json here\nname: {x}\n"), None);
    assert_eq!(section("a {\n}"), None);
}

#[test]
fn the_repaired_form_goes_between_the_first_and_the_last_brace() {
    assert_eq!(splice_repaired("pre {bad} post", "GOOD"), "pre GOOD post");
    assert_eq!(splice_repaired("{a}{b}", "X"), "X");
    assert_eq!(splice_repaired("a{b{c}d}e", ""), "ae");
    assert_eq!(splice_repaired("ä{ö}ü", "é"), "äéü");
    assert_eq!(splice_repaired("} {", "X"), "} X {");
}

#[test]
fn an_output_without_both_braces_is_not_spliced() {
    assert_eq!(splice_repaired("[1, 2", "X"), "[1, 2");
    assert_eq!(splice_repaired("{ open", "X"), "{ open");
    assert_eq!(splice_repaired("close }", "X"), "close }");
    assert_eq!(splice_repaired("", "X"), "");
}

#[test]
fn a_repair_is_placed_only_where_it_was_needed_and_worked() {
    let repaired = Some("{}".to_string());
    assert_eq!(place_repair("a {x} b", false, &repaired, true), "a {} b");
    assert_eq!(place_repair("a {x} b", true, &repaired, true), "a {x} b");
    assert_eq!(place_repair("a {x} b", false, &repaired, false), "a {x} b");
    assert_eq!(place_repair("a {x} b", false, &None, true), "a {x} b");
    assert_eq!(place_repair("a {x} b", false, &None, false), "a {x} b");
}

#[test]
fn valid_json_and_plain_text_stay_as_they_are() {
    for output in ["", "plain text", "{\"a\": [1, 2]}", "Result:\n{\n  \"a\": 1\n}\nbye"] {
        assert_eq!(repair_aws_json_output(output), output);
    }
}

#[test]
fn broken_json_is_repaired_in_place() {
    let output = "{\"Buckets\": [{\"Name\": \"a\",}],}";
    assert!(!is_json(output));
    let repaired = repair_aws_json_output(output);
    assert_ne!(repaired, output);
    assert!(is_json(&repaired), "{repaired}");
    let value: serde_json::Value = serde_json::from_str(&repaired).unwrap();
    assert_eq!(value["Buckets"][0]["Name"], "a");
}

#[test]
fn the_login_is_checked_before_other_ibm_cloud_commands() {
    let ibm = Some(CloudProviderType::IBMCloud);
    assert!(needs_login_check(ibm, "ibmcloud resource groups"));
    assert!(!needs_login_check(ibm, "ibmcloud login --sso"));
    assert!(!needs_login_check(ibm, "ibmcloud plugin install login-helper"));
    assert!(!needs_login_check(ibm, " ibmcloud target"));
    assert!(!needs_login_check(ibm, "aws s3 ls"));
    assert!(!needs_login_check(Some(CloudProviderType::AWS), "ibmcloud target"));
    assert!(!needs_login_check(None, "ibmcloud target"));
    assert_eq!(not_logged_in_message("expired"), "Not logged in to IBM Cloud: expired");
}

#[test]
fn only_json_output_of_aws_commands_is_repaired() {
    let aws = Some(CloudProviderType::AWS);
    assert!(wants_json_repair(aws, "aws s3api list-buckets --output json", "{"));
    assert!(!wants_json_repair(aws, "aws s3api list-buckets --output json", ""));
    assert!(!wants_json_repair(aws, "aws s3api list-buckets --output  json", "{"));
    assert!(!wants_json_repair(aws, "aws s3 ls", "{"));
    assert!(!wants_json_repair(Some(CloudProviderType::GCP), "x --output json", "{"));
    assert!(!wants_json_repair(None, "x --output json", "{"));

    let broken = "{\"a\": 1,}";
    let shown = output_to_show(aws, "aws x --output json", broken);
    assert_ne!(shown, broken);
    assert!(is_json(&shown));
    assert_eq!(output_to_show(aws, "aws x", broken), broken);
    assert_eq!(output_to_show(None, "aws x --output json", broken), broken);
}

#[test]
fn an_empty_answer_and_yes_agree() {
    for answer in ["", "y", "yes", "Y", "YES", " Yes \n", "\n"] {
        assert!(confirms(answer), "{answer:?}");
    }
    for answer in ["n", "no", "yes please", "yy", "ja"] {
        assert!(!confirms(answer), "{answer:?}");
    }
    assert!(is_agreement(&"yes".chars().collect()));
    assert!(!is_agreement(&"Yes".chars().collect()));
    assert!(!is_agreement(&" y".chars().collect()));
}

#[test]
fn nesting_counts_the_brackets_that_are_open_at_once_outside_strings() {
    assert_eq!(nesting_of(""), 0);
    assert_eq!(nesting_of("plain text"), 0);
    assert_eq!(nesting_of("{\"a\": [1, {\"b\": []}]}"), 4);
    assert_eq!(nesting_of("[][][]"), 1);
    assert_eq!(nesting_of("]]][["), 2);
    assert_eq!(nesting_of("[\"]\", [\"]\", [\"]\"]]]"), 3);
    assert_eq!(nesting_of("\"[[[[\""), 0);
    assert_eq!(nesting_of("[\"a\\\"[[\", [1]]"), 2);
    assert_eq!(nesting_of("[\"a\\\\\", [1]]"), 2);
    assert_eq!(nesting_of("\"open [[["), 0);
    assert_eq!(nesting_of(&"[".repeat(300)), 300);
    assert_eq!(nesting_of(&"{\"a\":".repeat(7)), 7);
}

#[test]
fn json_that_nests_too_deep_is_not_handed_on_for_repair() {
    assert_eq!(MAX_JSON_NESTING, 128);
    let deep = "[".repeat(10_000);
    assert_eq!(repair_aws_json_output(&deep), deep);
    let with_text = format!("Result:\n{}\nbye", "[".repeat(129));
    assert_eq!(repair_aws_json_output(&with_text), with_text);
    let just_over = format!("{}1,{}", "[".repeat(129), "]".repeat(129));
    assert_eq!(repair_aws_json_output(&just_over), just_over);

    // At the bound the text is still handed on.
    let at_bound = format!("{}1,{}", "[".repeat(128), "]".repeat(128));
    assert!(!is_json(&at_bound));
    let repaired = repair_aws_json_output(&at_bound);
    assert_eq!(nesting_of(&at_bound), 128);
    assert!(repaired == at_bound || is_json(&repaired));
}
