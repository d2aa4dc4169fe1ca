use floci_ui::commands::catalog_snapshot;
use floci_ui::config::AppConfig;
use floci_ui::models::DashboardSnapshot;

#[test]
fn dashboard_snapshot_serialization_excludes_secret_access_key() {
    let snapshot = DashboardSnapshot {
        endpoint_url: "http://localhost:4566".to_owned(),
        region: "us-east-1".to_owned(),
        access_key_id: "test".to_owned(),
        credentials_status: "Configured".to_owned(),
        last_refreshed_at: "2026-05-15T00:00:00Z".to_owned(),
        services: Vec::new(),
    };

    let serialized = format!("{snapshot:?}");

    assert!(!serialized.contains("secret_access_key"));
    assert!(!serialized.contains("super-secret"));
}

#[test]
fn catalog_snapshot_copies_everything_but_the_secret() {
    let config = AppConfig {
        endpoint_url: "http://localhost:4566".to_owned(),
        region: "us-east-1".to_owned(),
        access_key_id: "test".to_owned(),
        secret_access_key: "super-secret".to_owned(),
    };
    let snapshot = catalog_snapshot(&config, "2026-05-15T00:00:00Z".to_owned()).expect("snapshot");
    assert_eq!(snapshot.endpoint_url, "http://localhost:4566");
    assert_eq!(snapshot.region, "us-east-1");
    assert_eq!(snapshot.access_key_id, "test");
    assert_eq!(snapshot.credentials_status, "Configured");
    assert_eq!(snapshot.last_refreshed_at, "2026-05-15T00:00:00Z");
    assert_eq!(snapshot.services.len(), 45);
    assert!(!format!("{snapshot:?}").contains("super-secret"));
}

#[test]
fn catalog_snapshot_needs_an_endpoint() {
    let config = AppConfig {
        endpoint_url: String::new(),
        region: "us-east-1".to_owned(),
        access_key_id: String::new(),
        secret_access_key: String::new(),
    };
    let error = catalog_snapshot(&config, "now".to_owned()).expect_err("empty endpoint");
    assert_eq!(error.code, "invalid_endpoint");
    assert_eq!(error.message, "Floci endpoint URL cannot be empty.");
}
