use floci_ui::config::{
    is_allowed_domain, local_endpoint, AppConfig, ConfigError,
};

#[test]
fn allows_local_floci_endpoint_aliases() {
    let endpoints = [
        "http://localhost:4566",
        "http://127.0.0.1:4566",
        "http://[::1]:4566",
        "http://floci:4566",
        "http://host.docker.internal:4566",
        "http://localhost.floci.io:4566",
        "http://s3.localhost.floci.io:4566",
        "http://s3.localhost.localstack.cloud:4566",
    ];

    for endpoint in endpoints {
        assert!(local_endpoint(endpoint).is_ok(), "{endpoint} should be accepted");
    }
}

#[test]
fn rejects_remote_endpoint() {
    assert!(matches!(
        local_endpoint("https://example.com"),
        Err(ConfigError::RemoteEndpoint(host)) if host == "example.com"
    ));
}

#[test]
fn rejects_remote_ip_addresses_with_their_written_form() {
    assert!(matches!(
        local_endpoint("http://10.0.0.5:4566"),
        Err(ConfigError::RemoteEndpoint(host)) if host == "10.0.0.5"
    ));

    assert!(matches!(
        local_endpoint("http://[2001:db8::1]:4566"),
        Err(ConfigError::RemoteEndpoint(host)) if host == "[2001:db8::1]"
    ));
}

#[test]
fn accepts_the_whole_ipv4_loopback_range() {
    assert!(local_endpoint("http://127.8.9.10:4566").is_ok());
}

#[test]
fn domain_names_compare_without_ascii_case() {
    assert!(is_allowed_domain("LocalHost"));
    assert!(is_allowed_domain("FLOCI"));
    assert!(is_allowed_domain("sqs.localhost.localstack.cloud"));
    assert!(!is_allowed_domain("localhost.evil.com"));
    assert!(!is_allowed_domain("localhost.floci.io.evil.com"));
    assert!(!is_allowed_domain("S3.LOCALHOST.FLOCI.IO"));
}

#[test]
fn rejects_unparsable_endpoint() {
    assert!(matches!(
        local_endpoint("not a url"),
        Err(ConfigError::InvalidEndpointUrl(_))
    ));
}

#[test]
fn rejects_endpoint_without_host() {
    assert!(matches!(
        local_endpoint("unix:/tmp/floci.sock"),
        Err(ConfigError::MissingEndpointHost)
    ));
}

#[test]
fn local_endpoint_keeps_the_written_url() {
    let endpoint = local_endpoint("http://localhost:4566").expect("local endpoint is accepted");
    assert_eq!(endpoint.url, "http://localhost:4566/");
}

#[test]
fn config_error_messages() {
    assert_eq!(
        ConfigError::RemoteEndpoint("example.com".to_owned()).to_display_string(),
        "refusing to connect to non-local Floci endpoint: example.com"
    );
    assert_eq!(
        ConfigError::MissingEndpointHost.to_display_string(),
        "FLOCI_AWS_ENDPOINT_URL must include a host"
    );
}

#[test]
fn credentials_status_reports_missing_keys() {
    let mut config = AppConfig {
        endpoint_url: "http://localhost:4566/".to_owned(),
        region: "us-east-1".to_owned(),
        access_key_id: "test".to_owned(),
        secret_access_key: "test".to_owned(),
    };
    assert_eq!(config.credentials_status(), "Configured");
    config.secret_access_key = String::new();
    assert_eq!(config.credentials_status(), "Missing");
}
