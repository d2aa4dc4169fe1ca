use floci_ui::commands::catalog_snapshot;
use floci_ui::config::AppConfig;
use floci_ui::service_management::actions::now_rfc3339;
use floci_ui::service_management::adapters::compute_build::ec2;
use floci_ui::service_management::adapters::data_storage::{backup, dynamodb};
use floci_ui::service_management::adapters::messaging_events::sns;
use floci_ui::service_management::adapters::network_observability::cloudwatchlogs;
use floci_ui::service_management::adapters::security_config::{iam, sts};
use floci_ui::service_management::models::{ResourceSummary, ServiceSupportLevel};

fn ops(inventory_ops: &[String]) -> Vec<&str> {
    inventory_ops.iter().map(String::as_str).collect()
}

#[test]
fn ec2_inventory_lists_its_unsupported_operations() {
    let resources = vec![ec2::key_pair_summary("deploy", None, None)];
    let inventory = ec2::inventory(resources, "2026-05-15T00:00:00Z".to_owned());
    assert_eq!(inventory.service_key, "ec2");
    assert_eq!(inventory.service_label, "EC2");
    assert_eq!(inventory.support_level, ServiceSupportLevel::Managed);
    assert_eq!(inventory.refreshed_at, "2026-05-15T00:00:00Z");
    assert_eq!(inventory.resources.len(), 1);
    assert_eq!(inventory.resources[0].name, "deploy");
    assert_eq!(inventory.tabs.len(), ec2::tabs().len());
    assert_eq!(inventory.tabs[0].key, "instances");
    assert_eq!(
        ops(&inventory.unsupported_operations),
        vec!["create_instance", "modify_instance", "delete_security_group"]
    );
}

#[test]
fn dynamodb_and_sns_inventories_are_managed() {
    let dynamo = dynamodb::inventory(Vec::new(), "t".to_owned());
    assert_eq!(dynamo.service_label, "DynamoDB");
    assert_eq!(dynamo.support_level, ServiceSupportLevel::Managed);
    assert_eq!(ops(&dynamo.unsupported_operations), vec!["toggle_ttl"]);
    assert!(dynamo.resources.is_empty());

    let topics = sns::inventory(Vec::new(), "t".to_owned());
    assert_eq!(topics.service_key, "sns");
    assert!(topics.unsupported_operations.is_empty());
}

#[test]
fn read_only_inventories_list_create_update_delete() {
    let vaults = backup::inventory(Vec::new(), "t".to_owned());
    assert_eq!(vaults.service_key, "backup");
    assert_eq!(vaults.service_label, "AWS Backup");
    assert_eq!(vaults.support_level, ServiceSupportLevel::ReadOnly);
    assert_eq!(ops(&vaults.unsupported_operations), vec!["create", "update", "delete"]);

    let config = AppConfig {
        endpoint_url: "http://localhost:4566".to_owned(),
        region: "us-east-1".to_owned(),
        access_key_id: "test".to_owned(),
        secret_access_key: "test".to_owned(),
    };
    let resources: Vec<ResourceSummary> =
        sts::identity_resources(&config, Some("000000000000".to_owned()), None, None);
    let identity = sts::inventory(resources, "t".to_owned());
    assert_eq!(identity.service_label, "STS");
    assert_eq!(identity.resources.len(), 2);
    assert_eq!(ops(&identity.unsupported_operations), vec!["create", "update", "delete"]);
}

#[test]
fn now_is_an_rfc3339_utc_timestamp() {
    let now: Vec<char> = now_rfc3339().chars().collect();
    assert!(now.len() >= 20);
    assert!(now[0..4].iter().all(|c| c.is_ascii_digit()));
    assert_eq!(now[4], '-');
    assert_eq!(now[7], '-');
    assert_eq!(now[10], 'T');
    assert_eq!(now[13], ':');
    assert_eq!(now[16], ':');
    assert_eq!(*now.last().unwrap(), 'Z');
    if now.len() > 20 {
        assert_eq!(now[19], '.');
        assert!(now.len() <= 30);
    }
}

#[test]
fn previewable_messages_cut_on_a_character_boundary() {
    assert!(cloudwatchlogs::is_previewable("short"));
    assert!(cloudwatchlogs::is_previewable(&"a".repeat(200)));
    let split = format!("{}é{}", "a".repeat(119), "b".repeat(10));
    assert!(!cloudwatchlogs::is_previewable(&split));
    let whole = format!("{}é{}", "a".repeat(118), "b".repeat(10));
    assert!(cloudwatchlogs::is_previewable(&whole));
    assert_eq!(
        cloudwatchlogs::redact_log_message(&whole),
        format!("{}é...", "a".repeat(118))
    );
}

#[test]
fn every_iam_kind_has_a_tab() {
    let kinds: Vec<String> = iam::tabs().into_iter().flat_map(|tab| tab.kinds).collect();
    let listed = vec![
        iam::user_summary("u", "arn:u", "U1", "/", None, None).kind,
        iam::access_key_summary("u", "AKIA1", None, None).kind,
        iam::role_summary("r", "arn:r", "R1", "/", None, None, None, false).kind,
        iam::group_summary("g", "arn:g", "G1", "/", None).kind,
        iam::instance_profile_summary("p", "arn:p", "P1", "/", &Vec::new(), None).kind,
        iam::policy_summary("arn:aws:iam::1:policy/P", None, None, None, None, None, None, true, None).kind,
    ];
    for kind in listed {
        assert!(kinds.contains(&kind), "{kind} has no tab");
    }
}

#[test]
fn the_secret_does_not_change_the_snapshot() {
    let config = |secret: &str| AppConfig {
        endpoint_url: "http://localhost:4566".to_owned(),
        region: "eu-west-1".to_owned(),
        access_key_id: "test".to_owned(),
        secret_access_key: secret.to_owned(),
    };
    let a = catalog_snapshot(&config("alpha-secret-1"), "t".to_owned()).expect("snapshot");
    let b = catalog_snapshot(&config("beta-secret-2"), "t".to_owned()).expect("snapshot");
    assert_eq!(format!("{a:?}"), format!("{b:?}"));
    assert!(!format!("{a:?}").contains("alpha-secret-1"));
}
