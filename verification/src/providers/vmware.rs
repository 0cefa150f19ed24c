//! The VMware vSphere provider.

use vstd::prelude::*;
use crate::cloud_provider::{CloudProvider, CloudProviderType};
use crate::error::Error;
use crate::text::{chars_of, matches_at, starts_with, strings};

verus! {

/// The configuration of the VMware vSphere provider.
#[derive(Debug)]
pub struct VMwareConfig {
    /// The vCenter URL, if any.
    pub vcenter_url: Option<String>,
    /// The user name, if any.
    pub username: Option<String>,
}

impl Default for VMwareConfig {
    fn default() -> (c: Self)
        ensures
            c.vcenter_url is None,
            c.username is None,
    {
        VMwareConfig { vcenter_url: None, username: None }
    }
}

impl Clone for VMwareConfig {
    fn clone(&self) -> (c: Self)
        ensures
            c == *self,
    {
        VMwareConfig {
            vcenter_url: match &self.vcenter_url {
                Some(s) => Some(s.clone()),
                None => None,
            },
            username: match &self.username {
                Some(s) => Some(s.clone()),
                None => None,
            },
        }
    }
}

/// The VMware vSphere provider.
pub struct VMwareProvider {
    config: VMwareConfig,
}

/// The summary of the provider's commands.
pub open spec fn rag_context() -> Seq<char> {
    "VMware govc CLI Commands:\n- govc about: Display vCenter information\n- govc vm.info: Get VM information\n- govc vm.power: Control VM power state\n- govc host.info: Get ESXi host information\n- govc datastore.info: Get datastore information\n- govc ls: List inventory objects\n- govc find: Search for inventory objects\n- govc vm.create: Create a new VM\n\nCommon patterns:\n- List VMs: govc ls /*/vm\n- List hosts: govc ls /*/host\n- Get VM info: govc vm.info <vm-name>\n- Power on VM: govc vm.power -on <vm-name>\n- Power off VM: govc vm.power -off <vm-name>\n- List datastores: govc ls /*/datastore\n"@
}

/// A command is valid for the provider where it begins with `govc`.
pub open spec fn valid_command(command: Seq<char>) -> bool {
    starts_with(command, "govc"@)
}

/// What is said of a command that is not valid.
pub open spec fn invalid_command_message() -> Seq<char> {
    "Invalid VMware command: must start with 'govc'"@
}

/// Common commands of the provider.
pub open spec fn command_patterns() -> Seq<Seq<char>> {
    seq![
        "govc ls /*/vm"@,
        "govc vm.info"@,
        "govc vm.power -on"@,
        "govc host.info"@,
        "govc datastore.info"@,
    ]
}

impl VMwareProvider {
    /// The configuration the provider was made with.
    pub closed spec fn settings(&self) -> VMwareConfig {
        self.config
    }

    /// A provider with the default configuration.
    pub fn new() -> (p: Self)
        ensures
            p.settings().vcenter_url is None,
            p.settings().username is None,
    {
        VMwareProvider { config: VMwareConfig::default() }
    }

    /// A provider with the configuration `config`.
    pub fn with_config(config: VMwareConfig) -> (p: Self)
        ensures
            p.settings() == config,
    {
        VMwareProvider { config }
    }

    /// The configuration the provider was made with.
    pub fn config(&self) -> (c: &VMwareConfig)
        ensures
            *c == self.settings(),
    {
        &self.config
    }
}

impl Default for VMwareProvider {
    fn default() -> (p: Self)
        ensures
            p.settings().vcenter_url is None,
            p.settings().username is None,
    {
        VMwareProvider::new()
    }
}

impl CloudProvider for VMwareProvider {
    fn provider_type(&self) -> (t: CloudProviderType)
        ensures
            t == CloudProviderType::VMware,
    {
        CloudProviderType::VMware
    }

    fn get_rag_context(&self) -> (r: String)
        ensures
            r@ == rag_context(),
    {
        "VMware govc CLI Commands:\n- govc about: Display vCenter information\n- govc vm.info: Get VM information\n- govc vm.power: Control VM power state\n- govc host.info: Get ESXi host information\n- govc datastore.info: Get datastore information\n- govc ls: List inventory objects\n- govc find: Search for inventory objects\n- govc vm.create: Create a new VM\n\nCommon patterns:\n- List VMs: govc ls /*/vm\n- List hosts: govc ls /*/host\n- Get VM info: govc vm.info <vm-name>\n- Power on VM: govc vm.power -on <vm-name>\n- Power off VM: govc vm.power -off <vm-name>\n- List datastores: govc ls /*/datastore\n".to_owned()
    }

    fn validate_command(&self, command: &str) -> (r: Result<(), Error>)
        ensures
            r is Ok <==> valid_command(command@),
            r matches Err(e) ==> e matches Error::Other(m) && m@ == invalid_command_message(),
    {
        let c = chars_of(command);
        let prefix = chars_of("govc");
        let ok = matches_at(&c, &prefix, 0);
        if ok {
            Ok(())
        } else {
            Err(Error::Other("Invalid VMware command: must start with 'govc'".to_owned()))
        }
    }

    fn get_command_patterns(&self) -> (r: Vec<String>)
        ensures
            strings(r@) == command_patterns(),
    {
        let mut r: Vec<String> = Vec::new();
        r.push("govc ls /*/vm".to_owned());
        r.push("govc vm.info".to_owned());
        r.push("govc vm.power -on".to_owned());
        r.push("govc host.info".to_owned());
        r.push("govc datastore.info".to_owned());
        r
    }
}

} // verus!
