use floci_ui::floci::{endpoint_path, health_from_response, health_unavailable, HealthBody};
use floci_ui::service_management::text_map::TextMap;

fn body(fields: &[(&str, &str)]) -> HealthBody {
    let mut text_fields = TextMap::new();
    for (key, value) in fields {
        text_fields.insert((*key).to_owned(), (*value).to_owned());
    }
    HealthBody { text_fields, floci_version: None, floci_status: None }
}

#[test]
fn health_reads_floci_health_endpoint() {
    let health = health_from_response(200, Ok(body(&[("status", "running"), ("version", "test")])));

    assert!(health.ok);
    assert_eq!(health.status, Some(200));
    assert_eq!(health.floci_version.as_deref(), Some("test"));
    assert_eq!(health.health_status, "running");
}

#[test]
fn health_prefers_explicit_fields_then_nested_ones() {
    let mut nested = body(&[]);
    nested.floci_version = Some("1.2.3".to_owned());
    nested.floci_status = Some("degraded".to_owned());
    let health = health_from_response(200, Ok(nested));
    assert_eq!(health.floci_version.as_deref(), Some("1.2.3"));
    assert_eq!(health.health_status, "degraded");

    let health = health_from_response(
        200,
        Ok(body(&[("health_status", "ok"), ("status", "running"), ("floci_version", "2"), ("version", "1")])),
    );
    assert_eq!(health.health_status, "ok");
    assert_eq!(health.floci_version.as_deref(), Some("2"));
}

#[test]
fn health_status_defaults_follow_the_http_status() {
    let health = health_from_response(204, Ok(body(&[])));
    assert!(health.ok);
    assert_eq!(health.health_status, "healthy");

    let health = health_from_response(500, Ok(body(&[])));
    assert!(!health.ok);
    assert_eq!(health.health_status, "unavailable");
}

#[test]
fn health_rejects_bodies_that_are_not_json() {
    let health = health_from_response(200, Err("expected value at line 1".to_owned()));
    assert!(!health.ok);
    assert_eq!(health.status, Some(200));
    assert_eq!(health.health_status, "invalid-json");
    assert_eq!(health.error.as_deref(), Some("health response was not JSON: expected value at line 1"));
}

#[test]
fn unreachable_endpoints_are_unavailable() {
    let health = health_unavailable("connection refused".to_owned());
    assert!(!health.ok);
    assert_eq!(health.status, Some(503));
    assert_eq!(health.health_status, "unavailable");
    assert_eq!(health.error.as_deref(), Some("connection refused"));
}

#[test]
fn health_path_replaces_the_endpoint_path() {
    assert_eq!(
        endpoint_path("http://localhost:4566/base?x=1#f", "/_floci/health").as_deref(),
        Some("http://localhost:4566/_floci/health")
    );
    assert_eq!(endpoint_path("not a url", "/_floci/health"), None);
}
