//! The reference sources of the remote-store indexer and its plain chunking.

use vstd::prelude::*;
use crate::text::{
    chars_of, split_chars, split_on, string_of, strings, texts, trim_chars, trimmed,
};

verus! {

/// What kind of material a reference source holds.
#[derive(Clone, Copy, Debug, PartialEq, Eq, Structural)]
pub enum SourceType {
    IBMCloudDocs,
    WatsonXDocs,
    CarbonDesignSystem,
    IBMCloudCLI,
    Custom,
}

/// A source of reference material.
#[derive(Debug)]
pub struct ReferenceSource {
    pub name: String,
    pub url: String,
    pub source_type: SourceType,
    /// From one to ten; higher means more important.
    pub priority: u8,
}

/// A reference source, as mathematical values.
pub struct SourceModel {
    pub name: Seq<char>,
    pub url: Seq<char>,
    pub source_type: SourceType,
    pub priority: u8,
}

impl View for ReferenceSource {
    type V = SourceModel;

    open spec fn view(&self) -> SourceModel {
        SourceModel {
            name: self.name@,
            url: self.url@,
            source_type: self.source_type,
            priority: self.priority,
        }
    }
}

/// The models of the sources of `v`, in order.
pub open spec fn source_models(v: Seq<ReferenceSource>) -> Seq<SourceModel> {
    Seq::new(v.len(), |i: int| v[i]@)
}

/// The reference sources that every indexer starts with.
pub open spec fn default_sources() -> Seq<SourceModel> {
    seq![
        SourceModel {
            name: "IBM Cloud CLI Reference"@,
            url: "https://cloud.ibm.com/docs/cli"@,
            source_type: SourceType::IBMCloudCLI,
            priority: 10,
        },
        SourceModel {
            name: "IBM Cloud CLI Commands"@,
            url: "https://cloud.ibm.com/docs/cli?topic=cli-ibmcloud_cli"@,
            source_type: SourceType::IBMCloudCLI,
            priority: 9,
        },
        SourceModel {
            name: "WatsonX API Documentation"@,
            url: "https://www.ibm.com/docs/en/watsonx/saas?topic=tutorials-watsonx-apis-sdks"@,
            source_type: SourceType::WatsonXDocs,
            priority: 8,
        },
        SourceModel {
            name: "IBM Cloud Code Engine CLI"@,
            url: "https://cloud.ibm.com/docs/codeengine?topic=codeengine-cli"@,
            source_type: SourceType::IBMCloudDocs,
            priority: 8,
        },
        SourceModel {
            name: "IBM Cloud Functions CLI"@,
            url: "https://cloud.ibm.com/docs/openwhisk?topic=openwhisk-functions-cli"@,
            source_type: SourceType::IBMCloudDocs,
            priority: 7,
        },
        SourceModel {
            name: "IBM Cloud Kubernetes Service CLI"@,
            url: "https://cloud.ibm.com/docs/containers?topic=containers-kubernetes-service-cli"@,
            source_type: SourceType::IBMCloudDocs,
            priority: 7,
        },
        SourceModel {
            name: "Carbon Design System"@,
            url: "https://carbondesignsystem.com/"@,
            source_type: SourceType::CarbonDesignSystem,
            priority: 5,
        },
    ]
}

/// A reference source with the given values.
fn source(name: &str, url: &str, source_type: SourceType, priority: u8) -> (r: ReferenceSource)
    ensures
        r@ == (SourceModel { name: name@, url: url@, source_type, priority }),
{
    ReferenceSource { name: name.to_owned(), url: url.to_owned(), source_type, priority }
}

/// The reference sources that every indexer starts with.
pub fn default_reference_sources() -> (r: Vec<ReferenceSource>)
    ensures
        source_models(r@) == default_sources(),
{
    let mut r: Vec<ReferenceSource> = Vec::new();
    r.push(
        source("IBM Cloud CLI Reference", "https://cloud.ibm.com/docs/cli", SourceType::IBMCloudCLI, 10),
    );
    r.push(
        source(
            "IBM Cloud CLI Commands",
            "https://cloud.ibm.com/docs/cli?topic=cli-ibmcloud_cli",
            SourceType::IBMCloudCLI,
            9,
        ),
    );
    r.push(
        source(
            "WatsonX API Documentation",
            "https://www.ibm.com/docs/en/watsonx/saas?topic=tutorials-watsonx-apis-sdks",
            SourceType::WatsonXDocs,
            8,
        ),
    );
    r.push(
        source(
            "IBM Cloud Code Engine CLI",
            "https://cloud.ibm.com/docs/codeengine?topic=codeengine-cli",
            SourceType::IBMCloudDocs,
            8,
        ),
    );
    r.push(
        source(
            "IBM Cloud Functions CLI",
            "https://cloud.ibm.com/docs/openwhisk?topic=openwhisk-functions-cli",
            SourceType::IBMCloudDocs,
            7,
        ),
    );
    r.push(
        source(
            "IBM Cloud Kubernetes Service CLI",
            "https://cloud.ibm.com/docs/containers?topic=containers-kubernetes-service-cli",
            SourceType::IBMCloudDocs,
            7,
        ),
    );
    r.push(
        source("Carbon Design System", "https://carbondesignsystem.com/", SourceType::CarbonDesignSystem, 5),
    );
    r
}

/// A paragraph is indexed only where it is longer than this.
pub const MIN_PLAIN_PARAGRAPH_CHARS: usize = 50;

/// The paragraphs among the first `n` that are long enough to be indexed,
/// each without surrounding whitespace.
pub open spec fn indexable_paragraphs(pars: Seq<Seq<char>>, n: int) -> Seq<Seq<char>>
    decreases n,
{
    if n <= 0 {
        Seq::empty()
    } else if trimmed(pars[n - 1]).len() > MIN_PLAIN_PARAGRAPH_CHARS {
        indexable_paragraphs(pars, n - 1).push(trimmed(pars[n - 1]))
    } else {
        indexable_paragraphs(pars, n - 1)
    }
}

/// The paragraphs of `content` that are long enough to be indexed.
pub open spec fn plain_chunks(content: Seq<char>) -> Seq<Seq<char>> {
    let pars = split_on(content, seq!['\n', '\n']);
    indexable_paragraphs(pars, pars.len() as int)
}

/// The paragraphs of `content` that are long enough to be indexed, each
/// without surrounding whitespace.
pub fn split_paragraphs(content: &str) -> (r: Vec<String>)
    ensures
        strings(r@) == plain_chunks(content@),
{
    let text = chars_of(content);
    let mut sep: Vec<char> = Vec::new();
    sep.push('\n');
    sep.push('\n');
    assert(sep@ == seq!['\n', '\n']);
    let pars = split_chars(&text, &sep);
    let mut r: Vec<String> = Vec::new();
    let mut i: usize = 0;
    while i < pars.len()
        invariant
            i <= pars.len(),
            strings(r@) == indexable_paragraphs(texts(pars@), i as int),
        decreases pars.len() - i,
    {
        let t = trim_chars(&pars[i]);
        if t.len() > MIN_PLAIN_PARAGRAPH_CHARS {
            r.push(string_of(&t));
        }
        i = i + 1;
    }
    r
}

} // verus!
