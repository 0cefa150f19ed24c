//! The supported cloud providers.

pub mod aws;
pub mod azure;
pub mod gcp;
pub mod ibmcloud;
pub mod vmware;
