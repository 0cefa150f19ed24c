use cuc::cloud_provider::{detect_provider_from_query, CloudProviderConfig, CloudProviderType};
use cuc::domain::CloudProvider;

#[test]
fn test_provider_type_cli_command() {
    assert_eq!(CloudProviderType::IBMCloud.cli_command(), "ibmcloud");
    assert_eq!(CloudProviderType::AWS.cli_command(), "aws");
    assert_eq!(CloudProviderType::GCP.cli_command(), "gcloud");
    assert_eq!(CloudProviderType::Azure.cli_command(), "az");
    assert_eq!(CloudProviderType::VMware.cli_command(), "govc");
}

#[test]
fn test_provider_type_from_str() {
    assert_eq!(CloudProviderType::from_str("ibmcloud"), Some(CloudProviderType::IBMCloud));
    assert_eq!(CloudProviderType::from_str("aws"), Some(CloudProviderType::AWS));
    assert_eq!(CloudProviderType::from_str("gcp"), Some(CloudProviderType::GCP));
    assert_eq!(CloudProviderType::from_str("azure"), Some(CloudProviderType::Azure));
    assert_eq!(CloudProviderType::from_str("vmware"), Some(CloudProviderType::VMware));
    assert_eq!(CloudProviderType::from_str("vsphere"), Some(CloudProviderType::VMware));
    assert_eq!(CloudProviderType::from_str("unknown"), None);
}

#[test]
fn test_detect_provider_from_query() {
    let result = detect_provider_from_query("list my ec2 instances");
    assert!(result.is_some());
    assert_eq!(result.unwrap().provider, CloudProviderType::AWS);

    let result = detect_provider_from_query("show gke clusters");
    assert!(result.is_some());
    assert_eq!(result.unwrap().provider, CloudProviderType::GCP);

    let result = detect_provider_from_query("list azure virtual machines");
    assert!(result.is_some());
    assert_eq!(result.unwrap().provider, CloudProviderType::Azure);

    let result = detect_provider_from_query("show watson services");
    assert!(result.is_some());
    assert_eq!(result.unwrap().provider, CloudProviderType::IBMCloud);

    let result = detect_provider_from_query("list vsphere vms");
    assert!(result.is_some());
    assert_eq!(result.unwrap().provider, CloudProviderType::VMware);

    let result = detect_provider_from_query("show vcenter hosts");
    assert!(result.is_some());
    assert_eq!(result.unwrap().provider, CloudProviderType::VMware);
}

#[test]
fn test_cloud_provider_config() {
    let config = CloudProviderConfig::new(CloudProviderType::AWS)
        .with_region("us-east-1".to_string())
        .with_config("profile".to_string(), "default".to_string());

    assert_eq!(config.provider, CloudProviderType::AWS);
    assert_eq!(config.default_region, Some("us-east-1".to_string()));
    assert_eq!(config.extra_config.get("profile"), Some(&"default".to_string()));
}

#[test]
fn test_provider_type_display() {
    assert_eq!(CloudProviderType::IBMCloud.to_string(), "IBM Cloud");
    assert_eq!(CloudProviderType::AWS.to_string(), "AWS");
    assert_eq!(CloudProviderType::GCP.to_string(), "Google Cloud Platform");
    assert_eq!(CloudProviderType::Azure.to_string(), "Microsoft Azure");
    assert_eq!(CloudProviderType::VMware.to_string(), "VMware vSphere");
}

#[test]
fn test_provider_type_all() {
    let all = CloudProviderType::all();
    assert_eq!(all.len(), 5);
    assert!(all.contains(&CloudProviderType::IBMCloud));
    assert!(all.contains(&CloudProviderType::AWS));
    assert!(all.contains(&CloudProviderType::GCP));
    assert!(all.contains(&CloudProviderType::Azure));
    assert!(all.contains(&CloudProviderType::VMware));
}

#[test]
fn test_provider_from_str_case_insensitive() {
    assert_eq!(CloudProviderType::from_str("IBM"), Some(CloudProviderType::IBMCloud));
    assert_eq!(CloudProviderType::from_str("AMAZON"), Some(CloudProviderType::AWS));
    assert_eq!(CloudProviderType::from_str("GOOGLE"), Some(CloudProviderType::GCP));
    assert_eq!(CloudProviderType::from_str("MICROSOFT"), Some(CloudProviderType::Azure));
    assert_eq!(CloudProviderType::from_str("VSPHERE"), Some(CloudProviderType::VMware));
}

#[test]
fn test_detect_provider_no_match() {
    let result = detect_provider_from_query("some random text");
    assert!(result.is_none());
}

#[test]
fn test_detection_result_confidence() {
    let result = detect_provider_from_query("list ec2 instances").unwrap();
    assert_eq!(result.confidence.num as f32 / result.confidence.den as f32, 0.9);
    assert!(!result.reason.is_empty());
}

#[test]
fn test_cloud_provider_config_default() {
    let config = CloudProviderConfig::new(CloudProviderType::GCP);
    assert_eq!(config.provider, CloudProviderType::GCP);
    assert_eq!(config.default_region, None);
    assert!(config.extra_config.is_empty());
    assert!(config.enabled);
}

#[test]
fn test_cloud_provider_config_chaining() {
    let config = CloudProviderConfig::new(CloudProviderType::Azure)
        .with_region("eastus".to_string())
        .with_config("subscription".to_string(), "sub-123".to_string())
        .with_config("resource_group".to_string(), "rg-prod".to_string());

    assert_eq!(config.default_region, Some("eastus".to_string()));
    assert_eq!(config.extra_config.len(), 2);
}

#[test]
fn extra_settings_keep_their_order_and_overwrite_in_place() {
    let config = CloudProviderConfig::new(CloudProviderType::AWS)
        .with_config("a".to_string(), "1".to_string())
        .with_config("b".to_string(), "2".to_string())
        .with_config("a".to_string(), "3".to_string());
    assert_eq!(config.extra_config.len(), 2);
    assert_eq!(config.extra_config.key_at(0), "a");
    assert_eq!(config.extra_config.value_at(0), "3");
    assert_eq!(config.extra_config.key_at(1), "b");
    assert_eq!(config.extra_config.get("c"), None);
}

#[test]
fn detection_takes_the_first_provider_whose_keyword_occurs() {
    let result = detect_provider_from_query("move from AWS to IBM Cloud").unwrap();
    assert_eq!(result.provider, CloudProviderType::IBMCloud);
    assert_eq!(result.reason, "Query contains IBM Cloud specific keywords");
}

#[test]
fn domain_provider_mirrors_provider_type() {
    for t in CloudProviderType::all() {
        let p = CloudProvider::from_provider_type(t);
        assert_eq!(p.to_provider_type(), t);
        assert_eq!(p.cli_command(), t.cli_command());
        assert_eq!(p.display_name(), t.display_name());
    }
    assert_eq!(CloudProvider::GCP.cli_command(), "gcloud");
    assert_eq!(CloudProvider::VMware.display_name(), "VMware vSphere");
}
