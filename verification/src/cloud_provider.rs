//! Cloud providers and what tells them apart.

use vstd::prelude::*;
use crate::error::Error;
use crate::ratio::Ratio;
use crate::string_map::{keys_with, StringMap};
use crate::text::{chars_contain, chars_eq, chars_of, contains, lower_chars, lowercase};

verus! {

/// The cloud providers that are supported.
#[derive(Clone, Copy, Debug, PartialEq, Eq, Hash, Structural)]
pub enum CloudProviderType {
    /// IBM Cloud
    IBMCloud,
    /// Amazon Web Services
    AWS,
    /// Google Cloud Platform
    GCP,
    /// Microsoft Azure
    Azure,
    /// VMware vSphere
    VMware,
}

/// The name of the command-line program of a provider.
pub open spec fn cli_name(p: CloudProviderType) -> Seq<char> {
    match p {
        CloudProviderType::IBMCloud => "ibmcloud"@,
        CloudProviderType::AWS => "aws"@,
        CloudProviderType::GCP => "gcloud"@,
        CloudProviderType::Azure => "az"@,
        CloudProviderType::VMware => "govc"@,
    }
}

/// The name under which a provider is shown.
pub open spec fn shown_name(p: CloudProviderType) -> Seq<char> {
    match p {
        CloudProviderType::IBMCloud => "IBM Cloud"@,
        CloudProviderType::AWS => "AWS"@,
        CloudProviderType::GCP => "Google Cloud Platform"@,
        CloudProviderType::Azure => "Microsoft Azure"@,
        CloudProviderType::VMware => "VMware vSphere"@,
    }
}

/// The provider that a name in lower case stands for.
pub open spec fn provider_named(name: Seq<char>) -> Option<CloudProviderType> {
    if name == "ibmcloud"@ || name == "ibm"@ {
        Some(CloudProviderType::IBMCloud)
    } else if name == "aws"@ || name == "amazon"@ {
        Some(CloudProviderType::AWS)
    } else if name == "gcp"@ || name == "gcloud"@ || name == "google"@ {
        Some(CloudProviderType::GCP)
    } else if name == "azure"@ || name == "az"@ || name == "microsoft"@ {
        Some(CloudProviderType::Azure)
    } else if name == "vmware"@ || name == "vsphere"@ || name == "govc"@ || name == "vmc"@ {
        Some(CloudProviderType::VMware)
    } else {
        None
    }
}

/// Whether the characters are those of the string.
fn is_text(v: &Vec<char>, s: &str) -> (r: bool)
    ensures
        r == (v@ == s@),
{
    let t = chars_of(s);
    chars_eq(v, &t)
}

impl CloudProviderType {
    /// The name of the command-line program of the provider.
    pub fn cli_command(&self) -> (r: &'static str)
        ensures
            r@ == cli_name(*self),
    {
        match self {
            CloudProviderType::IBMCloud => "ibmcloud",
            CloudProviderType::AWS => "aws",
            CloudProviderType::GCP => "gcloud",
            CloudProviderType::Azure => "az",
            CloudProviderType::VMware => "govc",
        }
    }

    /// The name under which the provider is shown.
    pub fn display_name(&self) -> (r: &'static str)
        ensures
            r@ == shown_name(*self),
    {
        match self {
            CloudProviderType::IBMCloud => "IBM Cloud",
            CloudProviderType::AWS => "AWS",
            CloudProviderType::GCP => "Google Cloud Platform",
            CloudProviderType::Azure => "Microsoft Azure",
            CloudProviderType::VMware => "VMware vSphere",
        }
    }

    /// The name under which the provider is shown, as an owned string.
    pub fn to_string(&self) -> (r: String)
        ensures
            r@ == shown_name(*self),
    {
        self.display_name().to_owned()
    }

    /// All supported providers.
    pub fn all() -> (r: Vec<CloudProviderType>)
        ensures
            r@ == seq![
                CloudProviderType::IBMCloud,
                CloudProviderType::AWS,
                CloudProviderType::GCP,
                CloudProviderType::Azure,
                CloudProviderType::VMware,
            ],
    {
        let mut r: Vec<CloudProviderType> = Vec::new();
        r.push(CloudProviderType::IBMCloud);
        r.push(CloudProviderType::AWS);
        r.push(CloudProviderType::GCP);
        r.push(CloudProviderType::Azure);
        r.push(CloudProviderType::VMware);
        r
    }

    /// The provider that `s` names, without regard to case.
    pub fn from_str(s: &str) -> (r: Option<CloudProviderType>)
        ensures
            r == provider_named(lowercase(s@)),
    {
        let name = lower_chars(s);
        CloudProviderType::from_lowered(&name)
    }

    /// The provider that the lower-case name `name` stands for.
    pub fn from_lowered(name: &Vec<char>) -> (r: Option<CloudProviderType>)
        ensures
            r == provider_named(name@),
    {
        if is_text(name, "ibmcloud") || is_text(name, "ibm") {
            Some(CloudProviderType::IBMCloud)
        } else if is_text(name, "aws") || is_text(name, "amazon") {
            Some(CloudProviderType::AWS)
        } else if is_text(name, "gcp") || is_text(name, "gcloud") || is_text(name, "google") {
            Some(CloudProviderType::GCP)
        } else if is_text(name, "azure") || is_text(name, "az") || is_text(name, "microsoft") {
            Some(CloudProviderType::Azure)
        } else if is_text(name, "vmware") || is_text(name, "vsphere") || is_text(name, "govc")
            || is_text(name, "vmc") {
            Some(CloudProviderType::VMware)
        } else {
            None
        }
    }
}

/// The configuration of a cloud provider.
#[derive(Debug)]
pub struct CloudProviderConfig {
    /// Which provider this is.
    pub provider: CloudProviderType,
    /// Whether the provider is enabled.
    pub enabled: bool,
    /// The default region, if any.
    pub default_region: Option<String>,
    /// More settings, specific to the provider.
    pub extra_config: StringMap<String>,
}

impl CloudProviderConfig {
    /// The configuration is valid where no extra setting occurs twice.
    pub open spec fn valid(&self) -> bool {
        self.extra_config.well_formed()
    }

    /// The region as a text, if there is one.
    pub open spec fn region(&self) -> Option<Seq<char>> {
        match self.default_region {
            Some(r) => Some(r@),
            None => None,
        }
    }

    /// An enabled configuration of `provider` without a region or extra settings.
    pub fn new(provider: CloudProviderType) -> (c: Self)
        ensures
            c.valid(),
            c.provider == provider,
            c.enabled,
            c.default_region is None,
            c.extra_config.keys() == Seq::<Seq<char>>::empty(),
            c.extra_config.text_map() == Map::<Seq<char>, Seq<char>>::empty(),
    {
        let c = CloudProviderConfig {
            provider,
            enabled: true,
            default_region: None,
            extra_config: StringMap::new(),
        };
        c
    }

    /// The configuration with `region` as the default region.
    pub fn with_region(self, region: String) -> (c: Self)
        ensures
            c.region() == Some(region@),
            c.provider == self.provider,
            c.enabled == self.enabled,
            c.extra_config == self.extra_config,
    {
        let mut c = self;
        c.default_region = Some(region);
        c
    }

    /// The configuration with the extra setting `key` set to `value`.
    pub fn with_config(self, key: String, value: String) -> (c: Self)
        requires
            self.valid(),
        ensures
            c.valid(),
            c.extra_config.text_map() == self.extra_config.text_map().insert(key@, value@),
            c.extra_config.keys() == keys_with(self.extra_config.keys(), key@),
            c.provider == self.provider,
            c.enabled == self.enabled,
            c.default_region == self.default_region,
    {
        let mut c = self;
        c.extra_config.set(key.as_str(), value.as_str());
        c
    }
}

/// What a cloud provider can tell and check without running its program.
pub trait CloudProvider {
    /// Which provider this is.
    fn provider_type(&self) -> CloudProviderType;

    /// A summary of the provider's commands, for use as retrieval context.
    fn get_rag_context(&self) -> String;

    /// Checks that `command` is a command of this provider's program.
    fn validate_command(&self, command: &str) -> Result<(), Error>;

    /// Common commands of this provider.
    fn get_command_patterns(&self) -> Vec<String>;
}

/// A provider found in a query.
#[derive(Debug)]
pub struct ProviderDetectionResult {
    /// The provider that was found.
    pub provider: CloudProviderType,
    /// How sure the detection is, between zero and one.
    pub confidence: Ratio,
    /// Why the provider was chosen.
    pub reason: String,
}

/// The query in lower case holds a keyword of IBM Cloud.
pub open spec fn names_ibmcloud(q: Seq<char>) -> bool {
    contains(q, "ibmcloud"@) || contains(q, "ibm cloud"@) || contains(q, "watson"@) || contains(
        q,
        "code engine"@,
    )
}

/// The query in lower case holds a keyword of AWS.
pub open spec fn names_aws(q: Seq<char>) -> bool {
    contains(q, "ec2"@) || contains(q, "s3"@) || contains(q, "lambda"@) || contains(q, "eks"@)
        || contains(q, "aws"@)
}

/// The query in lower case holds a keyword of GCP.
pub open spec fn names_gcp(q: Seq<char>) -> bool {
    contains(q, "gcloud"@) || contains(q, "gcp"@) || contains(q, "compute engine"@) || contains(
        q,
        "gke"@,
    ) || contains(q, "cloud storage"@)
}

/// The query in lower case holds a keyword of Azure.
pub open spec fn names_azure(q: Seq<char>) -> bool {
    contains(q, "azure"@) || contains(q, "az "@) || contains(q, "aks"@) || contains(
        q,
        "virtual machine"@,
    )
}

/// The query in lower case holds a keyword of VMware.
pub open spec fn names_vmware(q: Seq<char>) -> bool {
    contains(q, "vmware"@) || contains(q, "vsphere"@) || contains(q, "govc"@) || contains(
        q,
        "esxi"@,
    ) || contains(q, "vcenter"@) || contains(q, "vmc"@)
}

/// The provider whose keywords the lower-case query `q` holds. The
/// providers are tried in the order IBM Cloud, AWS, GCP, Azure, VMware, and
/// the first one decides.
pub open spec fn provider_in(q: Seq<char>) -> Option<CloudProviderType> {
    if names_ibmcloud(q) {
        Some(CloudProviderType::IBMCloud)
    } else if names_aws(q) {
        Some(CloudProviderType::AWS)
    } else if names_gcp(q) {
        Some(CloudProviderType::GCP)
    } else if names_azure(q) {
        Some(CloudProviderType::Azure)
    } else if names_vmware(q) {
        Some(CloudProviderType::VMware)
    } else {
        None
    }
}

/// The provider whose keywords a query holds, without regard to case.
pub open spec fn detected_provider(query: Seq<char>) -> Option<CloudProviderType> {
    provider_in(lowercase(query))
}

/// The reason given for the detection of a provider.
pub open spec fn detection_reason(p: CloudProviderType) -> Seq<char> {
    match p {
        CloudProviderType::IBMCloud => "Query contains IBM Cloud specific keywords"@,
        CloudProviderType::AWS => "Query contains AWS specific keywords"@,
        CloudProviderType::GCP => "Query contains GCP specific keywords"@,
        CloudProviderType::Azure => "Query contains Azure specific keywords"@,
        CloudProviderType::VMware => "Query contains VMware specific keywords"@,
    }
}

/// The detection of `provider`, with a confidence of nine tenths.
fn detection(provider: CloudProviderType, reason: &str) -> (r: ProviderDetectionResult)
    ensures
        r.provider == provider,
        r.confidence == (Ratio { num: 9, den: 10 }),
        r.reason@ == reason@,
{
    ProviderDetectionResult {
        provider,
        confidence: Ratio { num: 9, den: 10 },
        reason: reason.to_owned(),
    }
}

/// The provider that a query is about, judged by its keywords.
pub fn detect_provider_from_query(query: &str) -> (r: Option<ProviderDetectionResult>)
    ensures
        match r {
            Some(d) => detected_provider(query@) == Some(d.provider) && d.confidence == (Ratio {
                num: 9,
                den: 10,
            }) && d.reason@ == detection_reason(d.provider),
            None => detected_provider(query@) is None,
        },
{
    let q = lower_chars(query);
    detect_provider_in_lowered(&q)
}

/// The provider that the lower-case query `q` is about, judged by its keywords.
pub fn detect_provider_in_lowered(q: &Vec<char>) -> (r: Option<ProviderDetectionResult>)
    ensures
        match r {
            Some(d) => provider_in(q@) == Some(d.provider) && d.confidence == (Ratio {
                num: 9,
                den: 10,
            }) && d.reason@ == detection_reason(d.provider),
            None => provider_in(q@) is None,
        },
{
    if chars_contain(q, "ibmcloud") || chars_contain(q, "ibm cloud") || chars_contain(
        q,
        "watson",
    ) || chars_contain(q, "code engine") {
        return Some(
            detection(CloudProviderType::IBMCloud, "Query contains IBM Cloud specific keywords"),
        );
    }
    if chars_contain(q, "ec2") || chars_contain(q, "s3") || chars_contain(q, "lambda")
        || chars_contain(q, "eks") || chars_contain(q, "aws") {
        return Some(detection(CloudProviderType::AWS, "Query contains AWS specific keywords"));
    }
    if chars_contain(q, "gcloud") || chars_contain(q, "gcp") || chars_contain(
        q,
        "compute engine",
    ) || chars_contain(q, "gke") || chars_contain(q, "cloud storage") {
        return Some(detection(CloudProviderType::GCP, "Query contains GCP specific keywords"));
    }
    if chars_contain(q, "azure") || chars_contain(q, "az ") || chars_contain(q, "aks")
        || chars_contain(q, "virtual machine") {
        return Some(detection(CloudProviderType::Azure, "Query contains Azure specific keywords"));
    }
    if chars_contain(q, "vmware") || chars_contain(q, "vsphere") || chars_contain(q, "govc")
        || chars_contain(q, "esxi") || chars_contain(q, "vcenter") || chars_contain(q, "vmc") {
        return Some(
            detection(CloudProviderType::VMware, "Query contains VMware specific keywords"),
        );
    }
    None
}

} // verus!
