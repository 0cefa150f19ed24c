//! The Azure provider.

use vstd::prelude::*;
use crate::cloud_provider::{CloudProvider, CloudProviderType};
use crate::error::Error;
use crate::text::{chars_eq, chars_of, matches_at, starts_with, strings};

verus! {

/// The configuration of the Azure provider.
#[derive(Debug)]
pub struct AzureConfig {
    /// The Azure subscription, if any.
    pub subscription: Option<String>,
    /// The Azure resource group, if any.
    pub resource_group: Option<String>,
}

impl Default for AzureConfig {
    fn default() -> (c: Self)
        ensures
            c.subscription is None,
            c.resource_group is None,
    {
        AzureConfig { subscription: None, resource_group: None }
    }
}

impl Clone for AzureConfig {
    fn clone(&self) -> (c: Self)
        ensures
            c == *self,
    {
        AzureConfig {
            subscription: match &self.subscription {
                Some(s) => Some(s.clone()),
                None => None,
            },
            resource_group: match &self.resource_group {
                Some(s) => Some(s.clone()),
                None => None,
            },
        }
    }
}

/// The Azure provider.
pub struct AzureProvider {
    config: AzureConfig,
}

/// The summary of the provider's commands.
pub open spec fn rag_context() -> Seq<char> {
    "Azure CLI Commands:\n- az login: Authenticate to Azure\n- az account: Manage subscriptions\n- az vm: Virtual machine management\n- az storage: Storage account operations\n- az aks: Azure Kubernetes Service\n- az functionapp: Azure Functions management\n- az group: Resource group management\n- az network: Network operations\n\nCommon patterns:\n- List VMs: az vm list\n- List storage accounts: az storage account list\n- List AKS clusters: az aks list\n- List resource groups: az group list\n- Create VM: az vm create\n- Create storage account: az storage account create\n"@
}

/// A command is valid for the provider where it is `az` alone or begins with `az` and a space.
pub open spec fn valid_command(command: Seq<char>) -> bool {
    starts_with(command, "az "@) || command == "az"@
}

/// What is said of a command that is not valid.
pub open spec fn invalid_command_message() -> Seq<char> {
    "Invalid Azure command: must start with 'az'"@
}

/// Common commands of the provider.
pub open spec fn command_patterns() -> Seq<Seq<char>> {
    seq![
        "az vm list"@,
        "az storage account list"@,
        "az aks list"@,
        "az group list"@,
        "az functionapp list"@,
    ]
}

impl AzureProvider {
    /// The configuration the provider was made with.
    pub closed spec fn settings(&self) -> AzureConfig {
        self.config
    }

    /// A provider with the default configuration.
    pub fn new() -> (p: Self)
        ensures
            p.settings().subscription is None,
            p.settings().resource_group is None,
    {
        AzureProvider { config: AzureConfig::default() }
    }

    /// A provider with the configuration `config`.
    pub fn with_config(config: AzureConfig) -> (p: Self)
        ensures
            p.settings() == config,
    {
        AzureProvider { config }
    }

    /// The configuration the provider was made with.
    pub fn config(&self) -> (c: &AzureConfig)
        ensures
            *c == self.settings(),
    {
        &self.config
    }
}

impl Default for AzureProvider {
    fn default() -> (p: Self)
        ensures
            p.settings().subscription is None,
            p.settings().resource_group is None,
    {
        AzureProvider::new()
    }
}

impl CloudProvider for AzureProvider {
    fn provider_type(&self) -> (t: CloudProviderType)
        ensures
            t == CloudProviderType::Azure,
    {
        CloudProviderType::Azure
    }

    fn get_rag_context(&self) -> (r: String)
        ensures
            r@ == rag_context(),
    {
        "Azure CLI Commands:\n- az login: Authenticate to Azure\n- az account: Manage subscriptions\n- az vm: Virtual machine management\n- az storage: Storage account operations\n- az aks: Azure Kubernetes Service\n- az functionapp: Azure Functions management\n- az group: Resource group management\n- az network: Network operations\n\nCommon patterns:\n- List VMs: az vm list\n- List storage accounts: az storage account list\n- List AKS clusters: az aks list\n- List resource groups: az group list\n- Create VM: az vm create\n- Create storage account: az storage account create\n".to_owned()
    }

    fn validate_command(&self, command: &str) -> (r: Result<(), Error>)
        ensures
            r is Ok <==> valid_command(command@),
            r matches Err(e) ==> e matches Error::Other(m) && m@ == invalid_command_message(),
    {
        let c = chars_of(command);
        let with_space = chars_of("az ");
        let alone = chars_of("az");
        let ok = matches_at(&c, &with_space, 0) || chars_eq(&c, &alone);
        if ok {
            Ok(())
        } else {
            Err(Error::Other("Invalid Azure command: must start with 'az'".to_owned()))
        }
    }

    fn get_command_patterns(&self) -> (r: Vec<String>)
        ensures
            strings(r@) == command_patterns(),
    {
        let mut r: Vec<String> = Vec::new();
        r.push("az vm list".to_owned());
        r.push("az storage account list".to_owned());
        r.push("az aks list".to_owned());
        r.push("az group list".to_owned());
        r.push("az functionapp list".to_owned());
        r
    }
}

} // verus!
