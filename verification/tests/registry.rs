use std::collections::BTreeSet;

use floci_ui::service_management::registry::{
    descriptor, service_descriptors, services, title_case_kind, unsupported_inventory_at,
};
use floci_ui::service_management::models::ServiceSupportLevel;

#[test]
fn registry_contains_45_unique_services() {
    let descriptors = service_descriptors();
    let keys = descriptors
        .iter()
        .map(|service| service.key)
        .collect::<BTreeSet<_>>();

    assert_eq!(descriptors.len(), 45);
    assert_eq!(keys.len(), 45);
}

#[test]
fn registry_has_no_duplicate_labels_within_category() {
    let mut seen = BTreeSet::new();

    for service in service_descriptors() {
        let inserted = seen.insert((format!("{:?}", service.category), service.label));
        assert!(
            inserted,
            "duplicate label `{}` in category {:?}",
            service.label, service.category
        );
    }
}

#[test]
fn services_list_the_catalog_in_order() {
    let listed = services();
    let catalog = service_descriptors();
    assert_eq!(listed.len(), catalog.len());
    for (service, entry) in listed.iter().zip(catalog.iter()) {
        assert_eq!(service.key, entry.key);
        assert_eq!(service.label, entry.label);
        assert_eq!(service.primary_resource_kinds.len(), entry.primary_resource_kinds.len());
    }
    assert_eq!(listed[0].key, "s3");
    assert_eq!(listed[44].key, "cloudwatch");
}

#[test]
fn descriptor_finds_catalogued_services_only() {
    let sqs = descriptor("sqs").expect("sqs is catalogued");
    assert_eq!(sqs.label, "SQS");
    assert!(descriptor("notarealservice").is_none());
    assert!(descriptor("SQS").is_none());
}

#[test]
fn title_case_kind_capitalises_each_word() {
    assert_eq!(title_case_kind("object-prefix"), "Object Prefix");
    assert_eq!(title_case_kind("db-instance"), "Db Instance");
    assert_eq!(title_case_kind("stream"), "Stream");
    assert_eq!(title_case_kind(""), "");
    assert_eq!(title_case_kind("a--b"), "A  B");
}

#[test]
fn unsupported_inventory_lists_one_tab_per_kind() {
    let inventory =
        unsupported_inventory_at("route53", "2026-05-15T00:00:00Z".to_owned()).expect("catalogued");
    assert_eq!(inventory.service_key, "route53");
    assert_eq!(inventory.service_label, "Route 53");
    assert_eq!(inventory.support_level, ServiceSupportLevel::Unsupported);
    assert_eq!(inventory.refreshed_at, "2026-05-15T00:00:00Z");
    assert!(inventory.resources.is_empty());
    assert_eq!(inventory.tabs.len(), 4);
    assert_eq!(inventory.tabs[0].key, "hosted-zone");
    assert_eq!(inventory.tabs[0].label, "Hosted Zone");
    assert_eq!(
        inventory.tabs[0].empty_message,
        "Route 53 `hosted-zone` inventory is not available until an adapter is implemented."
    );
    assert_eq!(
        inventory.unsupported_operations,
        vec!["list", "inspect", "create", "update", "delete"]
    );
}

#[test]
fn unsupported_inventory_rejects_unknown_services() {
    let error = unsupported_inventory_at("nope", String::new()).expect_err("unknown");
    assert_eq!(error.code, "unsupported_service");
    assert_eq!(
        error.message,
        "No service-management adapter is registered for `nope`."
    );
}
