//! The GCP provider.

use vstd::prelude::*;
use crate::cloud_provider::{CloudProvider, CloudProviderType};
use crate::error::Error;
use crate::text::{chars_of, matches_at, starts_with, strings};

verus! {

/// The configuration of the GCP provider.
#[derive(Debug)]
pub struct GCPConfig {
    /// The GCP project, if any.
    pub project: Option<String>,
    /// The GCP region, if any.
    pub region: Option<String>,
}

impl Default for GCPConfig {
    fn default() -> (c: Self)
        ensures
            c.project is None,
            c.region is None,
    {
        GCPConfig { project: None, region: None }
    }
}

impl Clone for GCPConfig {
    fn clone(&self) -> (c: Self)
        ensures
            c == *self,
    {
        GCPConfig {
            project: match &self.project {
                Some(s) => Some(s.clone()),
                None => None,
            },
            region: match &self.region {
                Some(s) => Some(s.clone()),
                None => None,
            },
        }
    }
}

/// The GCP provider.
pub struct GCPProvider {
    config: GCPConfig,
}

/// The summary of the provider's commands.
pub open spec fn rag_context() -> Seq<char> {
    "GCP gcloud CLI Commands:\n- gcloud auth login: Authenticate to GCP\n- gcloud config set project: Set active project\n- gcloud compute: Compute Engine operations\n- gcloud storage: Cloud Storage operations\n- gcloud container: GKE cluster management\n- gcloud functions: Cloud Functions management\n- gcloud iam: Identity and Access Management\n- gcloud sql: Cloud SQL operations\n\nCommon patterns:\n- List compute instances: gcloud compute instances list\n- List storage buckets: gcloud storage buckets list\n- List GKE clusters: gcloud container clusters list\n- List Cloud Functions: gcloud functions list\n- Create compute instance: gcloud compute instances create\n"@
}

/// A command is valid for the provider where it begins with `gcloud`.
pub open spec fn valid_command(command: Seq<char>) -> bool {
    starts_with(command, "gcloud"@)
}

/// What is said of a command that is not valid.
pub open spec fn invalid_command_message() -> Seq<char> {
    "Invalid GCP command: must start with 'gcloud'"@
}

/// Common commands of the provider.
pub open spec fn command_patterns() -> Seq<Seq<char>> {
    seq![
        "gcloud compute instances list"@,
        "gcloud storage buckets list"@,
        "gcloud container clusters list"@,
        "gcloud functions list"@,
        "gcloud iam service-accounts list"@,
    ]
}

impl GCPProvider {
    /// The configuration the provider was made with.
    pub closed spec fn settings(&self) -> GCPConfig {
        self.config
    }

    /// A provider with the default configuration.
    pub fn new() -> (p: Self)
        ensures
            p.settings().project is None,
            p.settings().region is None,
    {
        GCPProvider { config: GCPConfig::default() }
    }

    /// A provider with the configuration `config`.
    pub fn with_config(config: GCPConfig) -> (p: Self)
        ensures
            p.settings() == config,
    {
        GCPProvider { config }
    }

    /// The configuration the provider was made with.
    pub fn config(&self) -> (c: &GCPConfig)
        ensures
            *c == self.settings(),
    {
        &self.config
    }
}

impl Default for GCPProvider {
    fn default() -> (p: Self)
        ensures
            p.settings().project is None,
            p.settings().region is None,
    {
        GCPProvider::new()
    }
}

impl CloudProvider for GCPProvider {
    fn provider_type(&self) -> (t: CloudProviderType)
        ensures
            t == CloudProviderType::GCP,
    {
        CloudProviderType::GCP
    }

    fn get_rag_context(&self) -> (r: String)
        ensures
            r@ == rag_context(),
    {
        "GCP gcloud CLI Commands:\n- gcloud auth login: Authenticate to GCP\n- gcloud config set project: Set active project\n- gcloud compute: Compute Engine operations\n- gcloud storage: Cloud Storage operations\n- gcloud container: GKE cluster management\n- gcloud functions: Cloud Functions management\n- gcloud iam: Identity and Access Management\n- gcloud sql: Cloud SQL operations\n\nCommon patterns:\n- List compute instances: gcloud compute instances list\n- List storage buckets: gcloud storage buckets list\n- List GKE clusters: gcloud container clusters list\n- List Cloud Functions: gcloud functions list\n- Create compute instance: gcloud compute instances create\n".to_owned()
    }

    fn validate_command(&self, command: &str) -> (r: Result<(), Error>)
        ensures
            r is Ok <==> valid_command(command@),
            r matches Err(e) ==> e matches Error::Other(m) && m@ == invalid_command_message(),
    {
        let c = chars_of(command);
        let prefix = chars_of("gcloud");
        let ok = matches_at(&c, &prefix, 0);
        if ok {
            Ok(())
        } else {
            Err(Error::Other("Invalid GCP command: must start with 'gcloud'".to_owned()))
        }
    }

    fn get_command_patterns(&self) -> (r: Vec<String>)
        ensures
            strings(r@) == command_patterns(),
    {
        let mut r: Vec<String> = Vec::new();
        r.push("gcloud compute instances list".to_owned());
        r.push("gcloud storage buckets list".to_owned());
        r.push("gcloud container clusters list".to_owned());
        r.push("gcloud functions list".to_owned());
        r.push("gcloud iam service-accounts list".to_owned());
        r
    }
}

} // verus!
