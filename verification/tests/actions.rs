use floci_ui::service_management::actions::{
    family_of, normalize_service_key, require_name_payload, require_typed_confirmation,
    route_inventory, route_resource_detail, route_service_action, InventoryRoute, ServiceFamily,
};
use floci_ui::service_management::models::{
    Payload, PayloadValue, ResourceDetailRequest, ServiceActionRequest, ServiceSupportLevel,
};

fn action_request(service_key: &str, action: &str) -> ServiceActionRequest {
    ServiceActionRequest {
        service_key: service_key.to_owned(),
        action: action.to_owned(),
        resource_id: None,
        resource_name: None,
        confirmation: None,
        payload: Payload::new(),
    }
}

#[test]
fn requires_create_name_payload() {
    let request = action_request("s3", "create_bucket");

    let error = require_name_payload(&request, "bucket_name").expect_err("name is required");

    assert_eq!(error.code, "invalid_input");
}

#[test]
fn name_payload_is_trimmed_and_must_not_be_blank() {
    let mut request = action_request("s3", "create_bucket");
    request
        .payload
        .insert("bucket_name".to_owned(), PayloadValue::Text("  photos ".to_owned()));
    assert_eq!(require_name_payload(&request, "bucket_name").expect("present"), "photos");

    request
        .payload
        .insert("bucket_name".to_owned(), PayloadValue::Text("   ".to_owned()));
    let error = require_name_payload(&request, "bucket_name").expect_err("blank");
    assert_eq!(error.message, "`bucket_name` cannot be empty.");

    request
        .payload
        .insert("bucket_name".to_owned(), PayloadValue::Integer(7));
    let error = require_name_payload(&request, "bucket_name").expect_err("not text");
    assert_eq!(error.message, "`bucket_name` is required.");
    assert_eq!(error.service_key.as_deref(), Some("s3"));
    assert_eq!(error.operation.as_deref(), Some("create_bucket"));
}

#[test]
fn requires_typed_delete_confirmation() {
    let mut request = action_request("dynamodb", "delete_table");
    request.resource_id = Some("table/orders".to_owned());
    request.resource_name = Some("orders".to_owned());
    request.confirmation = Some("wrong".to_owned());

    let error = require_typed_confirmation(&request).expect_err("confirmation should match");

    assert_eq!(error.code, "invalid_input");
}

#[test]
fn typed_confirmation_accepts_the_name_and_falls_back_to_the_id() {
    let mut request = action_request("dynamodb", "delete_table");
    request.resource_id = Some("table/orders".to_owned());
    request.resource_name = Some("orders".to_owned());
    request.confirmation = Some(" orders ".to_owned());
    assert_eq!(require_typed_confirmation(&request).expect("matches"), "orders");

    request.resource_name = None;
    request.confirmation = Some("orders".to_owned());
    let error = require_typed_confirmation(&request).expect_err("id is expected now");
    assert_eq!(error.message, "Type `table/orders` to confirm this action.");

    request.resource_id = None;
    let error = require_typed_confirmation(&request).expect_err("nothing selected");
    assert_eq!(
        error.message,
        "A resource name is required for typed confirmation."
    );
}

#[test]
fn service_keys_are_trimmed_and_checked() {
    assert_eq!(normalize_service_key("  sqs ", "list_resources").expect("valid"), "sqs");
    let error = normalize_service_key("   ", "list_resources").expect_err("blank");
    assert_eq!(error.message, "Service key cannot be empty.");
    assert_eq!(error.service_key.as_deref(), Some("   "));
    let error = normalize_service_key(" S3! ", "list_resources").expect_err("invalid");
    assert_eq!(
        error.message,
        "Service key must use lowercase ASCII letters and digits."
    );
    assert_eq!(error.service_key.as_deref(), Some("S3!"));
}

#[test]
fn returns_unsupported_service_for_unknown_inventory_key() {
    let error = route_inventory("notarealservice", "2026-05-15T00:00:00Z".to_owned())
        .err()
        .expect("unknown service should be rejected");

    assert_eq!(error.code, "unsupported_service");
}

#[test]
fn returns_unsupported_inventory_for_known_service_without_adapter() {
    let route = route_inventory("apigateway", "2026-05-15T00:00:00Z".to_owned())
        .ok()
        .expect("known service without adapter should answer with an inventory");

    let InventoryRoute::Unsupported(inventory) = route else {
        panic!("apigateway has no inventory adapter");
    };
    assert_eq!(inventory.service_key, "apigateway");
    assert_eq!(inventory.support_level, ServiceSupportLevel::Unsupported);
    assert!(inventory.resources.is_empty());
    assert!(!inventory.tabs.is_empty());
}

#[test]
fn inventory_requests_reach_their_family() {
    match route_inventory(" sqs ", String::new()) {
        Ok(InventoryRoute::Family(family, key)) => {
            assert_eq!(family, ServiceFamily::MessagingEvents);
            assert_eq!(key, "sqs");
        }
        _ => panic!("sqs has an adapter"),
    }
    assert_eq!(family_of("lambda"), Some(ServiceFamily::ComputeBuild));
    assert_eq!(family_of("kms"), Some(ServiceFamily::SecurityConfig));
    assert_eq!(family_of("s3"), Some(ServiceFamily::DataStorage));
    assert_eq!(family_of("route53"), None);
}

#[test]
fn returns_unsupported_operation_for_known_service_without_adapter() {
    let request = action_request("apigateway", "create_function");

    let error = route_service_action(request)
        .err()
        .expect("known service should reject unsupported operation");

    assert_eq!(error.code, "unsupported_operation");
}

#[test]
fn empty_actions_are_rejected() {
    let error = route_service_action(action_request("sqs", "  "))
        .err()
        .expect("empty action");
    assert_eq!(error.code, "invalid_input");
    assert_eq!(error.message, "Action cannot be empty.");
    assert_eq!(error.operation.as_deref(), Some("execute_action"));
}

#[test]
fn actions_are_passed_on_trimmed() {
    let (family, request) = route_service_action(action_request(" sqs", " create_queue "))
        .ok()
        .expect("sqs has an adapter");
    assert_eq!(family, ServiceFamily::MessagingEvents);
    assert_eq!(request.service_key, "sqs");
    assert_eq!(request.action, "create_queue");
}

#[test]
fn rejects_invalid_service_key_before_detail_lookup() {
    let request = ResourceDetailRequest {
        service_key: "S3!".to_owned(),
        resource_id: "bucket/example".to_owned(),
    };

    let error = route_resource_detail(request)
        .err()
        .expect("invalid service key should fail validation");

    assert_eq!(error.code, "invalid_input");
}

#[test]
fn detail_of_service_without_adapter_is_unsupported() {
    let request = ResourceDetailRequest {
        service_key: "elbv2".to_owned(),
        resource_id: "load-balancer/web".to_owned(),
    };
    let error = route_resource_detail(request).err().expect("no adapter");
    assert_eq!(error.code, "unsupported_operation");
    assert_eq!(error.operation.as_deref(), Some("resource_detail"));
}

#[test]
fn normalized_keys_normalize_to_themselves() {
    let key = normalize_service_key("  s3 ", "list_resources").expect("valid key");
    assert_eq!(key, "s3");
    assert_eq!(normalize_service_key(&key, "list_resources").expect("still valid"), "s3");
}
