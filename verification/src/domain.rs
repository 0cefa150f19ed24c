//! Domain entities and value objects.

use vstd::prelude::*;
use crate::cloud_provider::{cli_name, shown_name, CloudProviderType};
use crate::ratio::Ratio;

verus! {

/// The cloud provider that a command targets.
#[derive(Clone, Copy, Debug, PartialEq, Eq, Hash, Structural)]
pub enum CloudProvider {
    IBMCloud,
    AWS,
    GCP,
    Azure,
    VMware,
}

/// The provider type that a provider stands for.
pub open spec fn as_provider_type(p: CloudProvider) -> CloudProviderType {
    match p {
        CloudProvider::IBMCloud => CloudProviderType::IBMCloud,
        CloudProvider::AWS => CloudProviderType::AWS,
        CloudProvider::GCP => CloudProviderType::GCP,
        CloudProvider::Azure => CloudProviderType::Azure,
        CloudProvider::VMware => CloudProviderType::VMware,
    }
}

/// The provider that stands for a provider type.
pub open spec fn as_provider(t: CloudProviderType) -> CloudProvider {
    match t {
        CloudProviderType::IBMCloud => CloudProvider::IBMCloud,
        CloudProviderType::AWS => CloudProvider::AWS,
        CloudProviderType::GCP => CloudProvider::GCP,
        CloudProviderType::Azure => CloudProvider::Azure,
        CloudProviderType::VMware => CloudProvider::VMware,
    }
}

impl CloudProvider {
    /// The name of the command-line program of the provider.
    pub fn cli_command(&self) -> (r: &'static str)
        ensures
            r@ == cli_name(as_provider_type(*self)),
    {
        match self {
            CloudProvider::IBMCloud => "ibmcloud",
            CloudProvider::AWS => "aws",
            CloudProvider::GCP => "gcloud",
            CloudProvider::Azure => "az",
            CloudProvider::VMware => "govc",
        }
    }

    /// The name under which the provider is shown.
    pub fn display_name(&self) -> (r: &'static str)
        ensures
            r@ == shown_name(as_provider_type(*self)),
    {
        match self {
            CloudProvider::IBMCloud => "IBM Cloud",
            CloudProvider::AWS => "AWS",
            CloudProvider::GCP => "Google Cloud Platform",
            CloudProvider::Azure => "Microsoft Azure",
            CloudProvider::VMware => "VMware vSphere",
        }
    }

    /// The provider that stands for the provider type `t`.
    pub fn from_provider_type(t: CloudProviderType) -> (p: CloudProvider)
        ensures
            p == as_provider(t),
            as_provider_type(p) == t,
    {
        match t {
            CloudProviderType::IBMCloud => CloudProvider::IBMCloud,
            CloudProviderType::AWS => CloudProvider::AWS,
            CloudProviderType::GCP => CloudProvider::GCP,
            CloudProviderType::Azure => CloudProvider::Azure,
            CloudProviderType::VMware => CloudProvider::VMware,
        }
    }

    /// The provider type that the provider stands for.
    pub fn to_provider_type(&self) -> (t: CloudProviderType)
        ensures
            t == as_provider_type(*self),
            as_provider(t) == *self,
    {
        match self {
            CloudProvider::IBMCloud => CloudProviderType::IBMCloud,
            CloudProvider::AWS => CloudProviderType::AWS,
            CloudProvider::GCP => CloudProviderType::GCP,
            CloudProvider::Azure => CloudProviderType::Azure,
            CloudProvider::VMware => CloudProviderType::VMware,
        }
    }
}

impl From<CloudProviderType> for CloudProvider {
    fn from(t: CloudProviderType) -> (p: CloudProvider) {
        CloudProvider::from_provider_type(t)
    }
}

impl vstd::std_specs::convert::FromSpecImpl<CloudProviderType> for CloudProvider {
    open spec fn obeys_from_spec() -> bool {
        true
    }

    open spec fn from_spec(t: CloudProviderType) -> CloudProvider {
        as_provider(t)
    }
}

impl From<CloudProvider> for CloudProviderType {
    fn from(p: CloudProvider) -> (t: CloudProviderType) {
        p.to_provider_type()
    }
}

impl vstd::std_specs::convert::FromSpecImpl<CloudProvider> for CloudProviderType {
    open spec fn obeys_from_spec() -> bool {
        true
    }

    open spec fn from_spec(p: CloudProvider) -> CloudProviderType {
        as_provider_type(p)
    }
}

/// The least quality score of a valid command: six tenths.
pub open spec fn quality_bar() -> Ratio {
    Ratio { num: 6, den: 10 }
}

/// A command-line command with what is known of its quality.
#[derive(Debug)]
pub struct Command {
    /// The command as text.
    pub value: String,
    /// The provider that the command targets.
    pub provider: CloudProvider,
    /// The quality of the command, between zero and one.
    pub quality_score: Ratio,
    /// What was found wrong with the command.
    pub issues: Vec<String>,
}

impl Command {
    /// A command of which nothing is known yet: no quality, no issues.
    pub fn new(value: String, provider: CloudProvider) -> (c: Self)
        ensures
            c.value == value,
            c.provider == provider,
            c.quality_score == (Ratio { num: 0, den: 1 }),
            c.issues@.len() == 0,
    {
        Command { value, provider, quality_score: Ratio { num: 0, den: 1 }, issues: Vec::new() }
    }

    /// Whether the command is good enough to run: its quality reaches six
    /// tenths and it has no issues.
    pub fn is_valid(&self) -> (r: bool)
        ensures
            r == (self.quality_score.ge(quality_bar()) && self.issues@.len() == 0),
    {
        self.quality_score.at_least(&Ratio { num: 6, den: 10 }) && self.issues.len() == 0
    }

    /// Sets what is known of the command's quality.
    pub fn update_quality(&mut self, score: Ratio, issues: Vec<String>)
        ensures
            final(self).quality_score == score,
            final(self).issues == issues,
            final(self).value == old(self).value,
            final(self).provider == old(self).provider,
    {
        self.quality_score = score;
        self.issues = issues;
    }
}

/// The result of a quality analysis.
#[derive(Debug)]
pub struct QualityAnalysis {
    /// The quality, between zero and one.
    pub score: Ratio,
    /// What was found wrong.
    pub issues: Vec<String>,
    /// What would make it better.
    pub suggestions: Vec<String>,
}

impl QualityAnalysis {
    /// An analysis with the given score, issues and suggestions.
    pub fn new(score: Ratio, issues: Vec<String>, suggestions: Vec<String>) -> (a: Self)
        ensures
            a.score == score,
            a.issues == issues,
            a.suggestions == suggestions,
    {
        QualityAnalysis { score, issues, suggestions }
    }

    /// Whether the quality is acceptable: the score reaches six tenths and
    /// there are no issues.
    pub fn is_acceptable(&self) -> (r: bool)
        ensures
            r == (self.score.ge(quality_bar()) && self.issues@.len() == 0),
    {
        self.score.at_least(&Ratio { num: 6, den: 10 }) && self.issues.len() == 0
    }
}

/// A learned correction: the command that is right for a query.
#[derive(Debug)]
pub struct CommandLearning {
    /// The query in natural language.
    pub query: String,
    /// The command that is right for the query.
    pub correct_command: String,
    /// The error pattern that led to the correction, if any.
    pub error_pattern: Option<String>,
    /// When this was learned, in seconds since the Unix epoch.
    pub timestamp: i64,
}

impl CommandLearning {
    /// A correction learned now.
    pub fn new(query: String, correct_command: String, error_pattern: Option<String>) -> (l: Self)
        ensures
            l.query == query,
            l.correct_command == correct_command,
            l.error_pattern == error_pattern,
    {
        CommandLearning {
            query,
            correct_command,
            error_pattern,
            timestamp: crate::clock::now_timestamp(),
        }
    }

    /// A correction learned at the time `timestamp`.
    pub fn at(
        query: String,
        correct_command: String,
        error_pattern: Option<String>,
        timestamp: i64,
    ) -> (l: Self)
        ensures
            l.query == query,
            l.correct_command == correct_command,
            l.error_pattern == error_pattern,
            l.timestamp == timestamp,
    {
        CommandLearning { query, correct_command, error_pattern, timestamp }
    }

    /// A copy that holds the same values.
    pub fn duplicate(&self) -> (l: Self)
        ensures
            l == *self,
    {
        CommandLearning {
            query: self.query.clone(),
            correct_command: self.correct_command.clone(),
            error_pattern: match &self.error_pattern {
                Some(p) => Some(p.clone()),
                None => None,
            },
            timestamp: self.timestamp,
        }
    }
}

impl Clone for CommandLearning {
    fn clone(&self) -> (l: Self)
        ensures
            l == *self,
    {
        self.duplicate()
    }
}

/// A query in natural language.
#[derive(Debug)]
pub struct NaturalLanguageQuery {
    /// The text of the query.
    pub text: String,
}

impl NaturalLanguageQuery {
    /// The query with the text `text`.
    pub fn new(text: String) -> (q: Self)
        ensures
            q.text == text,
    {
        NaturalLanguageQuery { text }
    }

    /// The text of the query.
    pub fn as_str(&self) -> (s: &str)
        ensures
            s@ == self.text@,
    {
        self.text.as_str()
    }

    /// The query with the text of `text`.
    pub fn from_text(text: &str) -> (q: Self)
        ensures
            q.text@ == text@,
    {
        NaturalLanguageQuery { text: text.to_owned() }
    }
}

impl From<String> for NaturalLanguageQuery {
    fn from(text: String) -> (q: NaturalLanguageQuery) {
        NaturalLanguageQuery::new(text)
    }
}

impl vstd::std_specs::convert::FromSpecImpl<String> for NaturalLanguageQuery {
    open spec fn obeys_from_spec() -> bool {
        true
    }

    open spec fn from_spec(text: String) -> NaturalLanguageQuery {
        NaturalLanguageQuery { text }
    }
}

} // verus!
