use cuc::cloud_provider::{CloudProvider, CloudProviderType};
use cuc::providers::aws::{AWSConfig, AWSProvider};
use cuc::providers::azure::{AzureConfig, AzureProvider};
use cuc::providers::gcp::{GCPConfig, GCPProvider};
use cuc::providers::ibmcloud::{IBMCloudConfig, IBMCloudProvider};
use cuc::providers::vmware::{VMwareConfig, VMwareProvider};

#[test]
fn lib_test_provider_type() {
    assert_eq!(AWSProvider::new().provider_type(), CloudProviderType::AWS);
    assert_eq!(AzureProvider::new().provider_type(), CloudProviderType::Azure);
}

#[test]
fn test_provider_type() {
    assert_eq!(IBMCloudProvider::new().provider_type(), CloudProviderType::IBMCloud);
    assert_eq!(VMwareProvider::new().provider_type(), CloudProviderType::VMware);
}

#[test]
fn gcp_test_provider_type() {
    let provider = GCPProvider::new();
    assert_eq!(provider.provider_type(), CloudProviderType::GCP);
}

#[test]
fn lib_test_validate_command() {
    let provider = AWSProvider::new();
    assert!(provider.validate_command("aws s3 ls").is_ok());
    assert!(provider.validate_command("gcloud compute instances list").is_err());

    let provider = AzureProvider::new();
    assert!(provider.validate_command("az vm list").is_ok());
    assert!(provider.validate_command("aws s3 ls").is_err());
}

#[test]
fn test_validate_command() {
    let provider = IBMCloudProvider::new();
    assert!(provider.validate_command("ibmcloud login").is_ok());
    assert!(provider.validate_command("aws s3 ls").is_err());

    let provider = VMwareProvider::new();
    assert!(provider.validate_command("govc vm.info").is_ok());
    assert!(provider.validate_command("aws s3 ls").is_err());
}

#[test]
fn gcp_test_validate_command() {
    let provider = GCPProvider::new();
    assert!(provider.validate_command("gcloud compute instances list").is_ok());
    assert!(provider.validate_command("az vm list").is_err());
}

#[test]
fn lib_test_get_rag_context() {
    let context = AWSProvider::new().get_rag_context();
    assert!(context.contains("aws"));
    assert!(context.contains("ec2"));

    let context = AzureProvider::new().get_rag_context();
    assert!(context.contains("az"));
    assert!(context.contains("vm"));
}

#[test]
fn test_get_rag_context() {
    let context = IBMCloudProvider::new().get_rag_context();
    assert!(context.contains("ibmcloud"));
    assert!(context.contains("resource"));

    let context = VMwareProvider::new().get_rag_context();
    assert!(context.contains("govc"));
    assert!(context.contains("vm"));
}

#[test]
fn gcp_test_get_rag_context() {
    let provider = GCPProvider::new();
    let context = provider.get_rag_context();
    assert!(context.contains("gcloud"));
    assert!(context.contains("compute"));
}

#[test]
fn lib_test_default_provider() {
    let provider = AWSProvider::default();
    assert_eq!(provider.provider_type(), CloudProviderType::AWS);
}

#[test]
fn test_default_provider() {
    let provider = IBMCloudProvider::default();
    assert_eq!(provider.provider_type(), CloudProviderType::IBMCloud);
}

#[test]
fn lib_test_with_config() {
    let config = AWSConfig {
        region: Some("us-west-2".to_string()),
        profile: Some("production".to_string()),
    };
    let provider = AWSProvider::with_config(config.clone());
    assert_eq!(provider.config().region, config.region);
    assert_eq!(provider.config().profile, config.profile);

    let config = AzureConfig {
        subscription: Some("sub-123".to_string()),
        resource_group: Some("rg-prod".to_string()),
    };
    let provider = AzureProvider::with_config(config.clone());
    assert_eq!(provider.config().subscription, config.subscription);
}

#[test]
fn test_with_config() {
    let config = IBMCloudConfig {
        api_endpoint: Some("https://cloud.ibm.com".to_string()),
        region: Some("us-south".to_string()),
    };
    let provider = IBMCloudProvider::with_config(config.clone());
    assert_eq!(provider.config().region, config.region);

    let config = VMwareConfig {
        vcenter_url: Some("https://vcenter.example.com".to_string()),
        username: Some("admin".to_string()),
    };
    let provider = VMwareProvider::with_config(config.clone());
    assert_eq!(provider.config().vcenter_url, config.vcenter_url);
}

#[test]
fn gcp_test_with_config() {
    let config = GCPConfig {
        project: Some("my-project".to_string()),
        region: Some("us-central1".to_string()),
    };
    let provider = GCPProvider::with_config(config.clone());
    assert_eq!(provider.config().project, config.project);
}

#[test]
fn lib_test_command_patterns() {
    let patterns = AWSProvider::new().get_command_patterns();
    assert!(!patterns.is_empty());
    assert!(patterns.iter().any(|p| p.contains("ec2")));
    assert!(patterns.iter().any(|p| p.contains("s3")));

    let patterns = AzureProvider::new().get_command_patterns();
    assert!(patterns.iter().any(|p| p.contains("vm")));
    assert!(patterns.iter().any(|p| p.contains("storage")));
}

#[test]
fn test_command_patterns() {
    let patterns = IBMCloudProvider::new().get_command_patterns();
    assert!(!patterns.is_empty());
    assert!(patterns.iter().any(|p| p.contains("ibmcloud")));

    let patterns = VMwareProvider::new().get_command_patterns();
    assert!(patterns.iter().any(|p| p.contains("vm")));
    assert!(patterns.iter().any(|p| p.contains("host")));
}

#[test]
fn gcp_test_command_patterns() {
    let provider = GCPProvider::new();
    let patterns = provider.get_command_patterns();
    assert!(patterns.iter().any(|p| p.contains("compute")));
    assert!(patterns.iter().any(|p| p.contains("storage")));
}

#[test]
fn lib_test_rag_context_keywords() {
    let context = AWSProvider::new().get_rag_context();
    assert!(context.contains("Lambda"));
    assert!(context.contains("S3"));
    assert!(context.contains("EKS"));
}

#[test]
fn test_rag_context_keywords() {
    let context = VMwareProvider::new().get_rag_context();
    assert!(context.contains("ESXi"));
    assert!(context.contains("datastore"));
    assert!(context.contains("vCenter"));
}

#[test]
fn test_validate_az_command() {
    let provider = AzureProvider::new();
    assert!(provider.validate_command("az").is_ok());
    assert!(provider.validate_command("az vm list").is_ok());
}

#[test]
fn azure_rejects_a_longer_program_name() {
    let provider = AzureProvider::new();
    assert!(provider.validate_command("azure vm list").is_err());
    let message = provider.validate_command("azure").unwrap_err().to_string();
    assert_eq!(message, "Other error: Invalid Azure command: must start with 'az'");
}

#[test]
fn test_validate_invalid_command() {
    let provider = IBMCloudProvider::new();
    assert!(provider.validate_command("aws s3 ls").is_err());
    assert!(provider.validate_command("gcloud compute instances list").is_err());
}

#[test]
fn test_rag_context_contains_keywords() {
    let provider = IBMCloudProvider::new();
    let context = provider.get_rag_context();
    assert!(context.contains("login"));
    assert!(context.contains("target"));
    assert!(context.contains("Kubernetes") || context.contains("ks"));
    assert!(context.contains("Code Engine"));
}

#[test]
fn command_patterns_are_the_listed_ones() {
    assert_eq!(
        AWSProvider::new().get_command_patterns(),
        vec![
            "aws ec2 describe-instances",
            "aws s3 ls",
            "aws lambda list-functions",
            "aws eks list-clusters",
            "aws iam list-users",
        ]
    );
    assert_eq!(IBMCloudProvider::new().get_command_patterns().len(), 7);
}
