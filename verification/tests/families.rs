use floci_ui::service_management::adapters::{
    data_storage, find_resource, network_observability, security_config, ActionRoute,
};
use floci_ui::service_management::models::{
    Payload, ResourceDetailRequest, ResourceSummary, ServiceActionRequest,
};
use floci_ui::service_management::text_map::TextMap;

fn action_request(service_key: &str, action: &str) -> ServiceActionRequest {
    ServiceActionRequest {
        service_key: service_key.to_owned(),
        action: action.to_owned(),
        resource_id: None,
        resource_name: None,
        confirmation: None,
        payload: Payload::new(),
    }
}

fn selected(service_key: &str, action: &str, id: &str, name: &str) -> ServiceActionRequest {
    let mut request = action_request(service_key, action);
    request.resource_id = Some(id.to_owned());
    request.resource_name = Some(name.to_owned());
    request.confirmation = Some(name.to_owned());
    request
}

#[test]
fn read_only_services_allow_inventory_refresh_action() {
    let request = action_request("rds", "refresh_inventory");

    let Ok(ActionRoute::Done(result)) = data_storage::route_action(&request) else {
        panic!("read-only service refresh should be a no-op success");
    };

    assert!(!result.changed);
    assert_eq!(result.message, "Refreshed `rds` inventory.");
}

#[test]
fn read_only_services_still_reject_mutating_actions() {
    let request = selected("rds", "delete_instance", "db-instance/local", "local");

    let error = data_storage::route_action(&request)
        .err()
        .expect("mutating action should remain unsupported");

    assert_eq!(error.code, "unsupported_operation");
}

#[test]
fn managed_data_services_reach_their_adapter() {
    let request = action_request("s3", "refresh_inventory");
    assert!(matches!(
        data_storage::route_action(&request),
        Ok(ActionRoute::Adapter)
    ));
}

#[test]
fn network_observability_services_allow_inventory_refresh_action() {
    let request = action_request("cloudwatchlogs", "refresh_inventory");

    let Ok(ActionRoute::Done(result)) = network_observability::route_action(&request) else {
        panic!("refresh should be a no-op success");
    };

    assert!(!result.changed);
    assert_eq!(result.message, "Refreshed `cloudwatchlogs` inventory.");
}

#[test]
fn network_observability_services_reject_unknown_actions() {
    let request = selected("cloudwatchlogs", "delete_everything", "log-group/example", "example");

    assert!(matches!(
        network_observability::route_action(&request),
        Ok(ActionRoute::Adapter)
    ));
    let error = floci_ui::service_management::adapters::network_observability::cloudwatchlogs::plan_action(&request)
        .err()
        .expect("unknown action should remain unsupported");

    assert_eq!(error.code, "unsupported_operation");
}

#[test]
fn read_only_security_services_allow_inventory_refresh_action() {
    let request = action_request("sts", "refresh_inventory");

    let Ok(ActionRoute::Done(result)) = security_config::route_action(&request) else {
        panic!("read-only service refresh should be a no-op success");
    };

    assert!(!result.changed);
    assert_eq!(result.message, "Refreshed `sts` inventory.");
}

#[test]
fn read_only_security_services_still_reject_mutating_actions() {
    let request = selected("sts", "delete_session", "session/current", "current");

    let error = security_config::route_action(&request)
        .err()
        .expect("mutating action should remain unsupported");

    assert_eq!(error.code, "unsupported_operation");
    assert_eq!(
        error.message,
        "`delete_session` is not enabled for `sts` until Floci reports successful local API support."
    );
}

#[test]
fn unknown_services_are_rejected_by_families() {
    let error = security_config::route_action(&action_request("s3", "list"))
        .err()
        .expect("not a security service");
    assert_eq!(error.code, "unsupported_service");
}

fn summary(id: &str) -> ResourceSummary {
    ResourceSummary {
        id: id.to_owned(),
        name: id.to_owned(),
        kind: "bucket".to_owned(),
        status: "available".to_owned(),
        created_at: None,
        updated_at: None,
        tags: TextMap::new(),
        attributes: TextMap::new(),
    }
}

#[test]
fn detail_lookup_finds_the_named_resource() {
    let resources = vec![summary("bucket/a"), summary("bucket/b")];
    let request = ResourceDetailRequest {
        service_key: "s3".to_owned(),
        resource_id: "bucket/b".to_owned(),
    };
    assert_eq!(find_resource(resources.clone(), &request).expect("present").id, "bucket/b");

    let request = ResourceDetailRequest {
        service_key: "s3".to_owned(),
        resource_id: "bucket/c".to_owned(),
    };
    let error = find_resource(resources, &request).expect_err("absent");
    assert_eq!(error.code, "not_found");
    assert_eq!(error.message, "Resource `bucket/c` was not found.");
    assert_eq!(error.operation.as_deref(), Some("resource_detail"));
}
