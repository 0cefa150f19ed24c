//! What a query in natural language asks for.

use vstd::prelude::*;
use crate::patterns::{any_matches, first_group, matches_any, regex_first_group};
use crate::text::{chars_of, lowercase, strings, to_lower};

verus! {

/// The intent found in a query.
#[derive(Debug)]
pub enum QueryIntent {
    /// The query is to be translated into a command.
    CommandTranslation,
    /// An application is to be deployed to Code Engine.
    DeployToCodeEngine { app_name: Option<String>, project_name: Option<String> },
    /// The intent is not known.
    Unknown,
}

/// An intent, as mathematical values.
pub enum IntentModel {
    CommandTranslation,
    DeployToCodeEngine { app_name: Option<Seq<char>>, project_name: Option<Seq<char>> },
    Unknown,
}

/// The text of an optional string.
pub open spec fn text_of(s: Option<String>) -> Option<Seq<char>> {
    match s {
        Some(t) => Some(t@),
        None => None,
    }
}

impl View for QueryIntent {
    type V = IntentModel;

    open spec fn view(&self) -> IntentModel {
        match self {
            QueryIntent::CommandTranslation => IntentModel::CommandTranslation,
            QueryIntent::DeployToCodeEngine { app_name, project_name } => {
                IntentModel::DeployToCodeEngine {
                    app_name: text_of(*app_name),
                    project_name: text_of(*project_name),
                }
            },
            QueryIntent::Unknown => IntentModel::Unknown,
        }
    }
}

/// The patterns that tell of a deployment, as regular expressions.
pub open spec fn deploy_patterns() -> Seq<Seq<char>> {
    seq![
        "(?i)\\bdeploy\\b.*\\b(code\\s*engine|codeengine|ce)\\b"@,
        "(?i)\\bdeploy\\b.*\\b(app|application)\\b"@,
        "(?i)\\bdeploy\\b.*\\bto\\b.*\\b(cloud|ibm)\\b"@,
        "(?i)\\bpublish\\b.*\\b(app|application)\\b"@,
        "(?i)\\bpush\\b.*\\b(code\\s*engine|codeengine)\\b"@,
    ]
}

/// The patterns whose first group holds the name of an application.
pub open spec fn app_name_patterns() -> Seq<Seq<char>> {
    seq![
        "(?i)deploy\\s+(?:app\\s+)?(?:named\\s+)?([a-z0-9-]+)"@,
        "(?i)deploy\\s+(?:the\\s+)?([a-z0-9-]+)\\s+(?:app|application)"@,
        "(?i)app\\s+(?:named\\s+)?([a-z0-9-]+)"@,
    ]
}

/// The patterns whose first group holds the name of a project.
pub open spec fn project_name_patterns() -> Seq<Seq<char>> {
    seq!["(?i)(?:to|in)\\s+project\\s+(\\w+)"@, "(?i)project\\s+(?:named\\s+)?(\\w+)"@]
}

/// A word that is no name of an application.
pub open spec fn is_stop_word(w: Seq<char>) -> bool {
    w == "app"@ || w == "application"@ || w == "to"@ || w == "the"@ || w == "my"@ || w == "this"@
        || w == "code"@ || w == "engine"@ || w == "ce"@
}

/// A name of an application is no stop word and has more than two characters.
pub open spec fn acceptable_app_name(w: Seq<char>) -> bool {
    !is_stop_word(w) && w.len() > 2
}

/// The first group that one of the patterns from `k` on finds in `query`
/// and that `accept` admits.
pub open spec fn first_accepted(
    patterns: Seq<Seq<char>>,
    query: Seq<char>,
    accept: spec_fn(Seq<char>) -> bool,
    k: int,
) -> Option<Seq<char>>
    decreases patterns.len() - k,
{
    if k < 0 || k >= patterns.len() {
        None
    } else {
        match regex_first_group(patterns[k], query) {
            Some(name) => if accept(name) {
                Some(name)
            } else {
                first_accepted(patterns, query, accept, k + 1)
            },
            None => first_accepted(patterns, query, accept, k + 1),
        }
    }
}

/// The name of the application that a query names.
pub open spec fn app_name_in(query: Seq<char>) -> Option<Seq<char>> {
    first_accepted(app_name_patterns(), query, |w: Seq<char>| acceptable_app_name(w), 0)
}

/// The name of the project that a query names.
pub open spec fn project_name_in(query: Seq<char>) -> Option<Seq<char>> {
    first_accepted(project_name_patterns(), query, |w: Seq<char>| true, 0)
}

/// The intent of a query: a deployment where a deploy pattern matches the
/// query in lower case, with the names found in the query as it came; else
/// the translation of a command.
pub open spec fn intent_of(patterns: Seq<Seq<char>>, query: Seq<char>) -> IntentModel {
    if any_matches(patterns, lowercase(query), patterns.len() as int) {
        IntentModel::DeployToCodeEngine {
            app_name: app_name_in(query),
            project_name: project_name_in(query),
        }
    } else {
        IntentModel::CommandTranslation
    }
}

/// Whether the characters are those of the string.
fn is_word(v: &Vec<char>, s: &str) -> (r: bool)
    ensures
        r == (v@ == s@),
{
    let t = chars_of(s);
    crate::text::chars_eq(v, &t)
}

/// Whether `name` may be the name of an application.
pub fn is_acceptable_app_name(name: &str) -> (r: bool)
    ensures
        r == acceptable_app_name(name@),
{
    let w = chars_of(name);
    let stop = is_word(&w, "app") || is_word(&w, "application") || is_word(&w, "to") || is_word(
        &w,
        "the",
    ) || is_word(&w, "my") || is_word(&w, "this") || is_word(&w, "code") || is_word(&w, "engine")
        || is_word(&w, "ce");
    !stop && w.len() > 2
}

/// Detects the intent of queries.
pub struct IntentDetector {
    deploy_patterns: Vec<String>,
}

impl IntentDetector {
    /// The patterns that tell of a deployment.
    pub closed spec fn patterns(&self) -> Seq<Seq<char>> {
        strings(self.deploy_patterns@)
    }

    /// A detector with the default patterns.
    pub fn new() -> (d: Self)
        ensures
            d.patterns() == deploy_patterns(),
    {
        let mut p: Vec<String> = Vec::new();
        p.push("(?i)\\bdeploy\\b.*\\b(code\\s*engine|codeengine|ce)\\b".to_owned());
        p.push("(?i)\\bdeploy\\b.*\\b(app|application)\\b".to_owned());
        p.push("(?i)\\bdeploy\\b.*\\bto\\b.*\\b(cloud|ibm)\\b".to_owned());
        p.push("(?i)\\bpublish\\b.*\\b(app|application)\\b".to_owned());
        p.push("(?i)\\bpush\\b.*\\b(code\\s*engine|codeengine)\\b".to_owned());
        IntentDetector { deploy_patterns: p }
    }

    /// The intent of `query`.
    pub fn detect(&self, query: &str) -> (r: QueryIntent)
        ensures
            r@ == intent_of(self.patterns(), query@),
    {
        let lower = to_lower(query);
        if matches_any(&self.deploy_patterns, lower.as_str()) {
            let app_name = self.extract_app_name(query);
            let project_name = self.extract_project_name(query);
            QueryIntent::DeployToCodeEngine { app_name, project_name }
        } else {
            QueryIntent::CommandTranslation
        }
    }

    /// The name of the application that `query` names.
    pub fn extract_app_name(&self, query: &str) -> (r: Option<String>)
        ensures
            text_of(r) == app_name_in(query@),
    {
        let mut patterns: Vec<String> = Vec::new();
        patterns.push("(?i)deploy\\s+(?:app\\s+)?(?:named\\s+)?([a-z0-9-]+)".to_owned());
        patterns.push("(?i)deploy\\s+(?:the\\s+)?([a-z0-9-]+)\\s+(?:app|application)".to_owned());
        patterns.push("(?i)app\\s+(?:named\\s+)?([a-z0-9-]+)".to_owned());
        let ghost accept = |w: Seq<char>| acceptable_app_name(w);
        let mut k: usize = 0;
        while k < patterns.len()
            invariant
                k <= patterns.len(),
                strings(patterns@) == app_name_patterns(),
                accept == (|w: Seq<char>| acceptable_app_name(w)),
                first_accepted(app_name_patterns(), query@, accept, k as int) == first_accepted(
                    app_name_patterns(),
                    query@,
                    accept,
                    0,
                ),
            decreases patterns.len() - k,
        {
            match first_group(patterns[k].as_str(), query) {
                Some(name) => {
                    if is_acceptable_app_name(name.as_str()) {
                        return Some(name);
                    }
                },
                None => {},
            }
            k = k + 1;
        }
        None
    }

    /// The name of the project that `query` names.
    pub fn extract_project_name(&self, query: &str) -> (r: Option<String>)
        ensures
            text_of(r) == project_name_in(query@),
    {
        let mut patterns: Vec<String> = Vec::new();
        patterns.push("(?i)(?:to|in)\\s+project\\s+(\\w+)".to_owned());
        patterns.push("(?i)project\\s+(?:named\\s+)?(\\w+)".to_owned());
        let ghost accept = |w: Seq<char>| true;
        let mut k: usize = 0;
        while k < patterns.len()
            invariant
                k <= patterns.len(),
                strings(patterns@) == project_name_patterns(),
                accept == (|w: Seq<char>| true),
                first_accepted(project_name_patterns(), query@, accept, k as int)
                    == first_accepted(project_name_patterns(), query@, accept, 0),
            decreases patterns.len() - k,
        {
            match first_group(patterns[k].as_str(), query) {
                Some(name) => {
                    return Some(name);
                },
                None => {},
            }
            k = k + 1;
        }
        None
    }
}

impl Default for IntentDetector {
    fn default() -> (d: Self)
        ensures
            d.patterns() == deploy_patterns(),
    {
        IntentDetector::new()
    }
}

} // verus!
