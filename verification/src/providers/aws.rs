//! The AWS provider.

use vstd::prelude::*;
use crate::cloud_provider::{CloudProvider, CloudProviderType};
use crate::error::Error;
use crate::text::{chars_of, matches_at, starts_with, strings};

verus! {

/// The configuration of the AWS provider.
#[derive(Debug)]
pub struct AWSConfig {
    /// The AWS region, if any.
    pub region: Option<String>,
    /// The AWS profile, if any.
    pub profile: Option<String>,
}

impl Default for AWSConfig {
    fn default() -> (c: Self)
        ensures
            c.region is None,
            c.profile is None,
    {
        AWSConfig { region: None, profile: None }
    }
}

impl Clone for AWSConfig {
    fn clone(&self) -> (c: Self)
        ensures
            c == *self,
    {
        AWSConfig {
            region: match &self.region {
                Some(s) => Some(s.clone()),
                None => None,
            },
            profile: match &self.profile {
                Some(s) => Some(s.clone()),
                None => None,
            },
        }
    }
}

/// The AWS provider.
pub struct AWSProvider {
    config: AWSConfig,
}

/// The summary of the provider's commands.
pub open spec fn rag_context() -> Seq<char> {
    "AWS CLI Commands:\n- aws configure: Configure AWS CLI credentials\n- aws sts get-caller-identity: Get current user identity\n- aws ec2: EC2 instance management\n- aws s3: S3 storage operations\n- aws lambda: Lambda function management\n- aws eks: Elastic Kubernetes Service\n- aws iam: Identity and Access Management\n- aws cloudformation: Infrastructure as code\n\nCommon patterns:\n- List EC2 instances: aws ec2 describe-instances\n- List S3 buckets: aws s3 ls\n- List Lambda functions: aws lambda list-functions\n- List EKS clusters: aws eks list-clusters\n- Create S3 bucket: aws s3 mb s3://bucket-name\n"@
}

/// A command is valid for the provider where it begins with `aws`.
pub open spec fn valid_command(command: Seq<char>) -> bool {
    starts_with(command, "aws"@)
}

/// What is said of a command that is not valid.
pub open spec fn invalid_command_message() -> Seq<char> {
    "Invalid AWS command: must start with 'aws'"@
}

/// Common commands of the provider.
pub open spec fn command_patterns() -> Seq<Seq<char>> {
    seq![
        "aws ec2 describe-instances"@,
        "aws s3 ls"@,
        "aws lambda list-functions"@,
        "aws eks list-clusters"@,
        "aws iam list-users"@,
    ]
}

impl AWSProvider {
    /// The configuration the provider was made with.
    pub closed spec fn settings(&self) -> AWSConfig {
        self.config
    }

    /// A provider with the default configuration.
    pub fn new() -> (p: Self)
        ensures
            p.settings().region is None,
            p.settings().profile is None,
    {
        AWSProvider { config: AWSConfig::default() }
    }

    /// A provider with the configuration `config`.
    pub fn with_config(config: AWSConfig) -> (p: Self)
        ensures
            p.settings() == config,
    {
        AWSProvider { config }
    }

    /// The configuration the provider was made with.
    pub fn config(&self) -> (c: &AWSConfig)
        ensures
            *c == self.settings(),
    {
        &self.config
    }
}

impl Default for AWSProvider {
    fn default() -> (p: Self)
        ensures
            p.settings().region is None,
            p.settings().profile is None,
    {
        AWSProvider::new()
    }
}

impl CloudProvider for AWSProvider {
    fn provider_type(&self) -> (t: CloudProviderType)
        ensures
            t == CloudProviderType::AWS,
    {
        CloudProviderType::AWS
    }

    fn get_rag_context(&self) -> (r: String)
        ensures
            r@ == rag_context(),
    {
        "AWS CLI Commands:\n- aws configure: Configure AWS CLI credentials\n- aws sts get-caller-identity: Get current user identity\n- aws ec2: EC2 instance management\n- aws s3: S3 storage operations\n- aws lambda: Lambda function management\n- aws eks: Elastic Kubernetes Service\n- aws iam: Identity and Access Management\n- aws cloudformation: Infrastructure as code\n\nCommon patterns:\n- List EC2 instances: aws ec2 describe-instances\n- List S3 buckets: aws s3 ls\n- List Lambda functions: aws lambda list-functions\n- List EKS clusters: aws eks list-clusters\n- Create S3 bucket: aws s3 mb s3://bucket-name\n".to_owned()
    }

    fn validate_command(&self, command: &str) -> (r: Result<(), Error>)
        ensures
            r is Ok <==> valid_command(command@),
            r matches Err(e) ==> e matches Error::Other(m) && m@ == invalid_command_message(),
    {
        let c = chars_of(command);
        let prefix = chars_of("aws");
        let ok = matches_at(&c, &prefix, 0);
        if ok {
            Ok(())
        } else {
            Err(Error::Other("Invalid AWS command: must start with 'aws'".to_owned()))
        }
    }

    fn get_command_patterns(&self) -> (r: Vec<String>)
        ensures
            strings(r@) == command_patterns(),
    {
        let mut r: Vec<String> = Vec::new();
        r.push("aws ec2 describe-instances".to_owned());
        r.push("aws s3 ls".to_owned());
        r.push("aws lambda list-functions".to_owned());
        r.push("aws eks list-clusters".to_owned());
        r.push("aws iam list-users".to_owned());
        r
    }
}

} // verus!
