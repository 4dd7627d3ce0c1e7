use smed::cloud_provider::{
    auth_commands, auth_succeeded, CloudProvider, CloudProviderAuthParams, CloudProviderRegion,
};
use smed::config::Config;
use smed::deploy::HostIdentity;
use smed::remote::{expand_tilde, ssh_arguments};

#[test]
fn provider_names() {
    assert_eq!(CloudProvider::from_str("AWS"), Ok(CloudProvider::AWS));
    assert_eq!(CloudProvider::from_str("gcp"), Ok(CloudProvider::GCP));
    assert_eq!(CloudProvider::from_str("Azure"), Ok(CloudProvider::AZURE));
    assert_eq!(CloudProvider::from_str("ibm"), Err("Unknown cloud provider: ibm".to_string()));
    assert_eq!(CloudProvider::from_folded("aws", "AWS"), Ok(CloudProvider::AWS));
    assert_eq!(CloudProvider::from_folded("AWS", "AWS"), Err("Unknown cloud provider: AWS".to_string()));
    assert_eq!(CloudProvider::AZURE.to_text(), "Azure");
}

#[test]
fn region_names() {
    assert_eq!(CloudProviderRegion::from_str("US-EAST-2"), Ok(CloudProviderRegion::UsEast2));
    assert_eq!(CloudProviderRegion::from_str("us-east-1"), Ok(CloudProviderRegion::UsEast1));
    assert_eq!(CloudProviderRegion::from_str("eu-west-1"), Err("Unknown region: eu-west-1".to_string()));
    assert_eq!(CloudProviderRegion::UsEast1.to_text(), "us-east-1");
}

#[test]
fn aws_auth_sets_region_and_keys() {
    let p = CloudProviderAuthParams::new(CloudProvider::AWS, CloudProviderRegion::UsEast1);
    let c = Config { aws_access_key: "test".to_string(), aws_secret_key: "secret".to_string() };
    let cmds = auth_commands(&p, &c);
    assert_eq!(cmds.len(), 3);
    assert_eq!(cmds[0], vec!["configure", "set", "region", "us-east-1", "--"]);
    assert_eq!(cmds[1], vec!["configure", "set", "aws_access_key_id", "test", "--"]);
    assert_eq!(cmds[2], vec!["configure", "set", "aws_secret_access_key", "secret", "--"]);
}

#[test]
fn other_providers_need_no_calls() {
    let c = Config { aws_access_key: "x".to_string(), aws_secret_key: "y".to_string() };
    let p = CloudProviderAuthParams { provider: CloudProvider::GCP, region: CloudProviderRegion::UsEast2 };
    assert!(auth_commands(&p, &c).is_empty());
}

#[test]
fn auth_outcome() {
    assert!(auth_succeeded(&vec![true, true, true]));
    assert!(!auth_succeeded(&vec![true, false, true]));
    assert!(auth_succeeded(&vec![]));
}

#[test]
fn tilde_expansion() {
    assert_eq!(expand_tilde("~/.ssh/id_rsa", "/home/u"), "/home/u/.ssh/id_rsa");
    assert_eq!(expand_tilde("/etc/key", "/home/u"), "/etc/key");
    assert_eq!(expand_tilde("", "/home/u"), "");
}

#[test]
fn ssh_argument_list() {
    let h = HostIdentity::for_address("10.0.0.1");
    let a = ssh_arguments(&h, "/k", "echo hi");
    assert_eq!(a, vec!["-i", "/k", "-o", "StrictHostKeyChecking=no", "ubuntu@10.0.0.1", "echo hi"]);
}
