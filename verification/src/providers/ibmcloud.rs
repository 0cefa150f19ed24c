//! The IBM Cloud provider.

use vstd::prelude::*;
use crate::cloud_provider::{CloudProvider, CloudProviderType};
use crate::error::Error;
use crate::text::{chars_of, matches_at, starts_with, strings};

verus! {

/// The configuration of the IBM Cloud provider.
#[derive(Debug)]
pub struct IBMCloudConfig {
    /// The API endpoint, if any.
    pub api_endpoint: Option<String>,
    /// The region, if any.
    pub region: Option<String>,
}

impl Default for IBMCloudConfig {
    fn default() -> (c: Self)
        ensures
            c.api_endpoint is None,
            c.region is None,
    {
        IBMCloudConfig { api_endpoint: None, region: None }
    }
}

impl Clone for IBMCloudConfig {
    fn clone(&self) -> (c: Self)
        ensures
            c == *self,
    {
        IBMCloudConfig {
            api_endpoint: match &self.api_endpoint {
                Some(s) => Some(s.clone()),
                None => None,
            },
            region: match &self.region {
                Some(s) => Some(s.clone()),
                None => None,
            },
        }
    }
}

/// The IBM Cloud provider.
pub struct IBMCloudProvider {
    config: IBMCloudConfig,
}

/// The summary of the provider's commands.
pub open spec fn rag_context() -> Seq<char> {
    "IBM Cloud CLI Commands:\n- ibmcloud login: Authenticate to IBM Cloud\n- ibmcloud target: Set or view target account, region, resource group\n- ibmcloud resource: Manage resources (service-instances, groups, etc.)\n- ibmcloud ks: Kubernetes Service commands\n- ibmcloud ce: Code Engine commands\n- ibmcloud cf: Cloud Foundry commands\n- ibmcloud iam: Identity and Access Management commands\n- ibmcloud plugin: Manage CLI plugins\n\nCommon patterns:\n- List resources: ibmcloud resource service-instances\n- Target resource group: ibmcloud target -g <group>\n- List clusters: ibmcloud ks clusters\n- Code Engine apps: ibmcloud ce application list\n"@
}

/// A command is valid for the provider where it begins with `ibmcloud`.
pub open spec fn valid_command(command: Seq<char>) -> bool {
    starts_with(command, "ibmcloud"@)
}

/// What is said of a command that is not valid.
pub open spec fn invalid_command_message() -> Seq<char> {
    "Invalid IBM Cloud command: must start with 'ibmcloud'"@
}

/// Common commands of the provider.
pub open spec fn command_patterns() -> Seq<Seq<char>> {
    seq![
        "ibmcloud login"@,
        "ibmcloud target"@,
        "ibmcloud resource service-instances"@,
        "ibmcloud ks clusters"@,
        "ibmcloud ce application list"@,
        "ibmcloud cf apps"@,
        "ibmcloud iam users"@,
    ]
}

impl IBMCloudProvider {
    /// The configuration the provider was made with.
    pub closed spec fn settings(&self) -> IBMCloudConfig {
        self.config
    }

    /// A provider with the default configuration.
    pub fn new() -> (p: Self)
        ensures
            p.settings().api_endpoint is None,
            p.settings().region is None,
    {
        IBMCloudProvider { config: IBMCloudConfig::default() }
    }

    /// A provider with the configuration `config`.
    pub fn with_config(config: IBMCloudConfig) -> (p: Self)
        ensures
            p.settings() == config,
    {
        IBMCloudProvider { config }
    }

    /// The configuration the provider was made with.
    pub fn config(&self) -> (c: &IBMCloudConfig)
        ensures
            *c == self.settings(),
    {
        &self.config
    }
}

impl Default for IBMCloudProvider {
    fn default() -> (p: Self)
        ensures
            p.settings().api_endpoint is None,
            p.settings().region is None,
    {
        IBMCloudProvider::new()
    }
}

impl CloudProvider for IBMCloudProvider {
    fn provider_type(&self) -> (t: CloudProviderType)
        ensures
            t == CloudProviderType::IBMCloud,
    {
        CloudProviderType::IBMCloud
    }

    fn get_rag_context(&self) -> (r: String)
        ensures
            r@ == rag_context(),
    {
        "IBM Cloud CLI Commands:\n- ibmcloud login: Authenticate to IBM Cloud\n- ibmcloud target: Set or view target account, region, resource group\n- ibmcloud resource: Manage resources (service-instances, groups, etc.)\n- ibmcloud ks: Kubernetes Service commands\n- ibmcloud ce: Code Engine commands\n- ibmcloud cf: Cloud Foundry commands\n- ibmcloud iam: Identity and Access Management commands\n- ibmcloud plugin: Manage CLI plugins\n\nCommon patterns:\n- List resources: ibmcloud resource service-instances\n- Target resource group: ibmcloud target -g <group>\n- List clusters: ibmcloud ks clusters\n- Code Engine apps: ibmcloud ce application list\n".to_owned()
    }

    fn validate_command(&self, command: &str) -> (r: Result<(), Error>)
        ensures
            r is Ok <==> valid_command(command@),
            r matches Err(e) ==> e matches Error::Other(m) && m@ == invalid_command_message(),
    {
        let c = chars_of(command);
        let prefix = chars_of("ibmcloud");
        let ok = matches_at(&c, &prefix, 0);
        if ok {
            Ok(())
        } else {
            Err(Error::Other("Invalid IBM Cloud command: must start with 'ibmcloud'".to_owned()))
        }
    }

    fn get_command_patterns(&self) -> (r: Vec<String>)
        ensures
            strings(r@) == command_patterns(),
    {
        let mut r: Vec<String> = Vec::new();
        r.push("ibmcloud login".to_owned());
        r.push("ibmcloud target".to_owned());
        r.push("ibmcloud resource service-instances".to_owned());
        r.push("ibmcloud ks clusters".to_owned());
        r.push("ibmcloud ce application list".to_owned());
        r.push("ibmcloud cf apps".to_owned());
        r.push("ibmcloud iam users".to_owned());
        r
    }
}

} // verus!
