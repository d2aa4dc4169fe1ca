use floci_ui::config::AppConfig;
use floci_ui::service_management::adapters::compute_build::{
    autoscaling, bedrockruntime, codebuild, codedeploy, ec2, ecr, ecs, eks, lambda, msk,
};
use floci_ui::service_management::adapters::data_storage::{
    athena, backup, dynamodbstreams, elasticache, firehose, glue, opensearch, rds,
};
use floci_ui::service_management::adapters::messaging_events::{
    cloudformation, eventbridge, kinesis, scheduler, ses, sesv2, stepfunctions,
};
use floci_ui::service_management::adapters::network_observability::{
    self, apigateway, apigatewayv2, cloudwatch, cloudwatchlogs, elbv2, route53, transfer,
};
use floci_ui::service_management::adapters::security_config::{
    acm, appconfig, appconfigdata, cognito, iam, kms, secretsmanager, ssm, sts,
};
use floci_ui::service_management::models::{Payload, ResourceSummary, ServiceActionRequest};

fn attr<'a>(resource: &'a ResourceSummary, key: &str) -> Option<&'a str> {
    resource.attributes.get(key).map(String::as_str)
}

fn tag<'a>(resource: &'a ResourceSummary, key: &str) -> Option<&'a str> {
    resource.tags.get(key).map(String::as_str)
}

fn some(text: &str) -> Option<String> {
    Some(text.to_owned())
}

#[test]
fn ec2_instance_is_named_by_its_name_tag_and_keeps_complete_tags() {
    let tags = vec![
        (some("team"), some("core")),
        (some("Name"), None),
        (some("Name"), some("web-1")),
        (None, some("orphan")),
    ];
    let listed = ec2::instance_summary(
        "i-123",
        &tags,
        None,
        some("2024-01-01T00:00:00Z"),
        some("t3.micro"),
        some("10.0.0.5"),
        None,
        some("vpc-1"),
        None,
    );
    assert_eq!(listed.id, "instance/i-123");
    assert_eq!(listed.name, "web-1");
    assert_eq!(listed.kind, "instance");
    assert_eq!(listed.status, "unknown");
    assert_eq!(listed.created_at.as_deref(), Some("2024-01-01T00:00:00Z"));
    assert_eq!(listed.updated_at, None);
    assert_eq!(tag(&listed, "team"), Some("core"));
    assert_eq!(tag(&listed, "Name"), Some("web-1"));
    assert_eq!(listed.tags.len(), 2);
    assert_eq!(attr(&listed, "instance_type"), Some("t3.micro"));
    assert_eq!(attr(&listed, "private_ip"), Some("10.0.0.5"));
    assert_eq!(attr(&listed, "public_ip"), None);
    assert_eq!(attr(&listed, "vpc_id"), Some("vpc-1"));
    assert_eq!(listed.attributes.len(), 3);
}

#[test]
fn ec2_vpc_subnet_and_security_group_defaults() {
    let vpc = ec2::vpc_summary("vpc-1", &Vec::new(), None, None);
    assert_eq!(vpc.status, "available");
    assert_eq!(attr(&vpc, "cidr_block"), Some("n/a"));

    let subnet = ec2::subnet_summary("subnet-1", &Vec::new(), some("pending"), None, None, some("us-east-1a"), Some(251));
    assert_eq!(subnet.id, "subnet/subnet-1");
    assert_eq!(subnet.status, "pending");
    assert_eq!(attr(&subnet, "available_ip_count"), Some("251"));

    let group = ec2::security_group_summary("sg-1", &Vec::new(), None, some("default group"), None, 3);
    assert_eq!(group.name, "sg-1");
    assert_eq!(attr(&group, "inbound_rules"), Some("3"));
    assert_eq!(attr(&group, "group_name"), None);

    let named = ec2::security_group_summary("sg-2", &Vec::new(), some("web"), None, None, 0);
    assert_eq!(named.name, "web");
    assert_eq!(attr(&named, "group_name"), Some("web"));
    assert_eq!(attr(&named, "inbound_rules"), Some("0"));
}

#[test]
fn ec2_key_pair_image_and_volume() {
    let key = ec2::key_pair_summary("deploy", some("key-1"), None);
    assert_eq!(key.id, "key-pair/deploy");
    assert_eq!(key.status, "available");
    assert_eq!(attr(&key, "key_pair_id"), Some("key-1"));
    assert!(key.tags.len() == 0);

    let image = ec2::image_summary("ami-1", &Vec::new(), None, None, some("2024"), some("x86_64"), None, None);
    assert_eq!(image.name, "ami-1");
    assert_eq!(image.created_at.as_deref(), Some("2024"));
    assert_eq!(attr(&image, "architecture"), Some("x86_64"));

    let volume = ec2::volume_summary("vol-1", &Vec::new(), some("in-use"), None, Some(-8), some("gp3"), None);
    assert_eq!(volume.status, "in-use");
    assert_eq!(attr(&volume, "size_gib"), Some("-8"));
    assert_eq!(attr(&volume, "volume_type"), Some("gp3"));
}

#[test]
fn elbv2_listener_rule_and_target_group_names() {
    let listener = elbv2::listener_summary("arn:l", some("arn:lb"), some("HTTP"), Some(80));
    assert_eq!(listener.name, "HTTP:80");
    assert_eq!(listener.status, "HTTP");
    assert_eq!(attr(&listener, "port"), Some("80"));

    let bare = elbv2::listener_summary("arn:l2", None, None, None);
    assert_eq!(bare.name, "listener:0");
    assert_eq!(bare.status, "active");
    assert_eq!(attr(&bare, "port"), None);

    let rule = elbv2::listener_rule_summary("arn:r", "arn:l", None, Some(true));
    assert_eq!(rule.name, "priority default");
    assert_eq!(rule.status, "default");
    assert_eq!(attr(&rule, "is_default"), Some("true"));
    let other = elbv2::listener_rule_summary("arn:r2", "arn:l", some("10"), Some(false));
    assert_eq!(other.name, "priority 10");
    assert_eq!(other.status, "active");

    let arns = vec!["arn:lb/a".to_owned(), "arn:lb/b".to_owned()];
    let group = elbv2::target_group_summary(
        "arn:aws:elasticloadbalancing:us-east-1:1:targetgroup/web/abc",
        None,
        None,
        Some(8080),
        None,
        None,
        &arns,
        some("HTTP"),
        None,
    );
    assert_eq!(group.name, "abc");
    assert_eq!(group.status, "available");
    assert_eq!(attr(&group, "load_balancer_arns"), Some("arn:lb/a, arn:lb/b"));
    assert_eq!(attr(&group, "port"), Some("8080"));

    let balancer = elbv2::load_balancer_summary("arn:aws:lb/app/front", None, None, None, None, some("internet-facing"), some("application"), some("active"));
    assert_eq!(balancer.name, "front");
    assert_eq!(balancer.status, "active");
    assert_eq!(attr(&balancer, "type"), Some("application"));
}

#[test]
fn cloudwatch_metric_alarm_and_dashboard() {
    let dims = vec![("QueueName".to_owned(), "jobs".to_owned()), ("Env".to_owned(), "dev".to_owned())];
    let metric = cloudwatch::metric_summary("AWS/SQS", "Depth", &dims);
    assert_eq!(metric.id, "metric/AWS/SQS||Depth||QueueName=jobs,Env=dev");
    assert_eq!(attr(&metric, "dimension_count"), Some("2"));
    assert_eq!(attr(&metric, "dimensions"), Some("QueueName=jobs,Env=dev"));

    let plain = cloudwatch::metric_summary("Custom", "Hits", &Vec::new());
    assert_eq!(plain.id, "metric/Custom||Hits||");
    assert_eq!(attr(&plain, "dimensions"), None);
    assert_eq!(attr(&plain, "dimension_count"), Some("0"));

    let reason = "x".repeat(170);
    let alarm = cloudwatch::alarm_summary("high", None, None, some("later"), None, None, some("5"), None, 1, Some(reason));
    assert_eq!(alarm.status, "unknown");
    assert_eq!(alarm.updated_at.as_deref(), Some("later"));
    assert_eq!(attr(&alarm, "threshold"), Some("5"));
    assert_eq!(attr(&alarm, "state_reason").map(|r| r.chars().count()), Some(163));
    assert!(attr(&alarm, "state_reason").unwrap().ends_with("..."));

    let dashboard = cloudwatch::dashboard_summary("ops", None, Some(2048), some("t"));
    assert_eq!(dashboard.id, "dashboard/ops");
    assert_eq!(attr(&dashboard, "size_bytes"), Some("2048"));
    assert_eq!(dashboard.updated_at.as_deref(), Some("t"));
}

#[test]
fn cloudwatch_listed_metric_is_selected_again() {
    let dims = vec![("QueueName".to_owned(), "jobs".to_owned())];
    let metric = cloudwatch::metric_summary("AWS/SQS", "Depth", &dims);
    let body = metric.id.strip_prefix("metric/").unwrap();
    let request = ServiceActionRequest {
        service_key: "cloudwatch".to_owned(),
        action: "get_metric_data".to_owned(),
        resource_id: Some(metric.id.clone()),
        resource_name: None,
        confirmation: None,
        payload: Payload::new(),
    };
    let parts = cloudwatch::selected_metric(&request, body).unwrap();
    assert_eq!(parts, ("AWS/SQS".to_owned(), "Depth".to_owned(), "QueueName=jobs".to_owned()));
}

#[test]
fn cloudwatch_logs_group_and_filters() {
    let group = cloudwatchlogs::log_group_summary("app", None, None, Some(14), Some(1024), Some(1700));
    assert_eq!(group.status, "14d retention");
    assert_eq!(group.created_at.as_deref(), Some("1700 ms"));
    assert_eq!(attr(&group, "retention_in_days"), Some("14"));
    assert_eq!(attr(&group, "stored_bytes"), Some("1024"));
    let forever = cloudwatchlogs::log_group_summary("app", None, None, None, None, None);
    assert_eq!(forever.status, "never expire");

    let metric = cloudwatchlogs::metric_filter_summary("app", "errors", some("app"), some("ERROR"), 2, None);
    assert_eq!(metric.id, "metric-filter/app/errors");
    assert_eq!(attr(&metric, "metric_transformations"), Some("2"));

    let sub = cloudwatchlogs::subscription_filter_summary("app", "ship", None, None, some("arn:dest"), true, None);
    assert_eq!(attr(&sub, "role_arn"), Some("Sensitive role ARN redacted from inventory."));
    let no_role = cloudwatchlogs::subscription_filter_summary("app", "ship", None, None, None, false, None);
    assert_eq!(attr(&no_role, "role_arn"), None);
}

#[test]
fn api_gateway_listings_redact_identity_sources() {
    let api = apigateway::rest_api_summary(
        "a1",
        None,
        None,
        None,
        None,
        some("v1"),
        some("root"),
        false,
        &vec![("team".to_owned(), "core".to_owned())],
    );
    assert_eq!(api.name, "a1");
    assert_eq!(api.status, "available");
    assert_eq!(attr(&api, "disable_execute_api_endpoint"), Some("false"));
    assert_eq!(tag(&api, "team"), Some("core"));

    let stage = apigateway::stage_summary("a1", "prod", some("d1"), None, some("t"));
    assert_eq!(stage.id, "stage/a1/prod");
    assert_eq!(stage.status, "deployed");

    let deployment = network_observability::deployment_summary("a1", "d1", some("first"), None);
    assert_eq!(deployment.id, "deployment/a1/d1");
    assert_eq!(attr(&deployment, "description"), Some("first"));

    let route = apigatewayv2::route_summary("h1", "r1", some("GET /items"), None, None, None);
    assert_eq!(route.name, "GET /items");
    assert_eq!(route.status, "NONE");

    let v2_stage = apigatewayv2::stage_summary("h1", "$default", None, Some(true), None);
    assert_eq!(v2_stage.status, "auto-deploy");
    assert_eq!(attr(&v2_stage, "auto_deploy"), Some("true"));

    let authorizer = apigatewayv2::authorizer_summary("h1", "au1", None, some("JWT"));
    assert_eq!(authorizer.name, "au1");
    assert_eq!(
        attr(&authorizer, "identity_sources"),
        Some("Sensitive identity details are redacted from inventory.")
    );
}

#[test]
fn eventbridge_rule_target_archive_and_replay() {
    let rule = eventbridge::rule_summary("default", "nightly", None, None, some("rate(1 day)"), None);
    assert_eq!(rule.id, "rule/default/nightly");
    assert_eq!(rule.status, "unknown");
    assert_eq!(attr(&rule, "event_bus_name"), Some("default"));

    let target = eventbridge::rule_target_summary("default", "nightly", "t1", "arn:fn", None, None);
    assert_eq!(target.id, "target/default/nightly/t1");
    assert_eq!(target.status, "attached");

    let archive = eventbridge::archive_summary("keep", some("ENABLED"), None, None, None, Some(7), 100, 4);
    assert_eq!(attr(&archive, "size_bytes"), Some("100"));
    assert_eq!(attr(&archive, "event_count"), Some("4"));
    assert_eq!(attr(&archive, "retention_days"), Some("7"));

    let replay = eventbridge::replay_summary("arn:aws:events:replay/again", None, None, None, None, None, None);
    assert_eq!(replay.name, "again");
    assert_eq!(replay.status, "unknown");
}

#[test]
fn transfer_listings_redact_secrets() {
    let server = transfer::server_summary("s-1", "arn:s", None, None, some("PUBLIC"), None, true);
    assert_eq!(server.status, "available");
    assert_eq!(attr(&server, "logging_role"), Some("Sensitive identity details are redacted from inventory."));

    let user = transfer::user_summary("s-1", "alice", "arn:u", true, false, some("PATH"));
    assert_eq!(user.id, "user/s-1/alice");
    assert!(attr(&user, "role").is_some());
    assert_eq!(attr(&user, "home_directory"), None);

    let key = transfer::host_key_summary("s-1", "hk-1", "arn:k", None, None);
    assert_eq!(attr(&key, "public_key"), Some("Sensitive identity details are redacted from inventory."));
    assert_eq!(key.status, "imported");
}

#[test]
fn route53_hosted_zone_status_follows_its_configuration() {
    let private = route53::hosted_zone_summary("/hostedzone/Z1", "a.", "ref", Some(3), Some((some("internal"), true)));
    assert_eq!(private.status, "private");
    assert_eq!(attr(&private, "private_zone"), Some("true"));
    assert_eq!(attr(&private, "resource_record_set_count"), Some("3"));
    let public = route53::hosted_zone_summary("Z2", "b.", "ref", None, Some((None, false)));
    assert_eq!(public.status, "public");
    let bare = route53::hosted_zone_summary("Z3", "c.", "ref", None, None);
    assert_eq!(bare.status, "available");
    assert_eq!(attr(&bare, "private_zone"), None);

    let check = route53::health_check_summary("hc-1", "ref");
    assert_eq!(check.id, "health-check/hc-1");
    assert_eq!(check.status, "configured");
}

#[test]
fn lambda_listing_skips_latest_version() {
    let attributes = lambda::function_attributes("fn", None, some("python3.12"), None, None, 512, Some(128), None);
    assert_eq!(attributes.get("function_arn").map(String::as_str), Some("fn"));
    assert_eq!(attributes.get("code_size").map(String::as_str), Some("512"));
    let function = lambda::function_summary("fn", None, some("t"), attributes);
    assert_eq!(function.status, "available");
    assert_eq!(function.updated_at.as_deref(), Some("t"));
    let configuration = lambda::configuration_summary(
        "fn",
        None,
        lambda::function_attributes("fn", some("arn:fn"), None, None, None, 0, None, None),
    );
    assert_eq!(configuration.name, "fn configuration");
    assert_eq!(attr(&configuration, "function_arn"), Some("arn:fn"));

    assert!(lambda::version_summary("fn", "arn:fn", "$LATEST", None, None).is_none());
    let version = lambda::version_summary("fn", "arn:fn", "3", None, None).unwrap();
    assert_eq!(version.id, "version/fn/3");

    let mapping = lambda::event_source_mapping_summary("u-1", None, None, None, None, Some(10));
    assert_eq!(mapping.status, "enabled");
    assert_eq!(attr(&mapping, "batch_size"), Some("10"));
}

#[test]
fn kms_key_grant_and_alias() {
    let bare = kms::key_summary("k1", None, None);
    assert_eq!(bare.status, "available");
    assert_eq!(attr(&bare, "key_arn"), Some("k1"));
    assert_eq!(attr(&bare, "key_material"), Some("not-exportable"));
    assert_eq!(attr(&bare, "enabled"), None);

    let described = kms::key_summary(
        "k1",
        some("arn:k1"),
        Some(kms::KeyMetadata {
            state: some("Enabled"),
            created_at: some("t"),
            description: None,
            key_usage: some("ENCRYPT_DECRYPT"),
            key_manager: None,
            enabled: true,
        }),
    );
    assert_eq!(described.status, "Enabled");
    assert_eq!(described.created_at.as_deref(), Some("t"));
    assert_eq!(attr(&described, "enabled"), Some("true"));

    let ops = vec!["Encrypt".to_owned(), "Decrypt".to_owned()];
    let grant = kms::grant_summary("k1", "g1", None, None, &ops, None);
    assert_eq!(grant.name, "g1");
    assert_eq!(attr(&grant, "grantee_principal"), Some("unknown"));
    assert_eq!(attr(&grant, "operations"), Some("Encrypt, Decrypt"));

    let unbound = kms::key_alias_summary("alias/x", None, None, None, None);
    assert_eq!(unbound.status, "unbound");
    let bound = kms::key_alias_summary("alias/y", None, some("k1"), None, None);
    assert_eq!(bound.status, "active");
}

#[test]
fn iam_group_policy_and_instance_profile() {
    let group = iam::group_summary("admins", "arn:g", "G1", "/", None);
    assert_eq!(group.id, "group/admins");
    let policy = iam::policy_summary("arn:aws:iam::1:policy/ReadOnly", None, None, None, None, None, Some(2), true, None);
    assert_eq!(policy.name, "ReadOnly");
    assert_eq!(attr(&policy, "attachment_count"), Some("2"));
    assert_eq!(attr(&policy, "is_attachable"), Some("true"));
    let roles = vec!["a".to_owned(), "b".to_owned()];
    let profile = iam::instance_profile_summary("web", "arn:p", "P1", "/", &roles, None);
    assert_eq!(attr(&profile, "roles"), Some("a, b"));
}

#[test]
fn appconfig_deployments_and_versions_are_numbered() {
    let deployment = appconfig::deployment_summary("app", "env", 3, None, None, None, None);
    assert_eq!(deployment.id, "deployment/app/env/3");
    assert_eq!(deployment.name, "#3");
    assert_eq!(deployment.status, "unknown");
    assert_eq!(attr(&deployment, "configuration_version"), Some("unknown"));

    let version = appconfig::hosted_version_summary("app", "prof", 2, None);
    assert_eq!(version.name, "v2");
    assert_eq!(attr(&version, "content_type"), Some("application/json"));
    assert_eq!(attr(&version, "content"), Some("metadata only"));

    let environment = appconfig::environment_summary("app", "e1", None, None, None);
    assert_eq!(environment.name, "e1");
    assert_eq!(environment.status, "available");
}

#[test]
fn secrets_are_never_listed_with_their_values() {
    let secret = secretsmanager::secret_summary("db", None, false, None, None, None, None, Some(true), None, None);
    assert_eq!(secret.id, "secret/db");
    assert_eq!(secret.status, "rotation-enabled");
    assert_eq!(
        attr(&secret, "secret_value"),
        Some("Hidden until explicit reveal; value is never included in inventory.")
    );
    let deleting = secretsmanager::secret_summary("db", some("arn:s"), true, None, None, None, None, Some(true), None, None);
    assert_eq!(deleting.status, "deleting");
    assert_eq!(deleting.id, "secret/arn:s");

    let stages = vec!["AWSPREVIOUS".to_owned(), "AWSCURRENT".to_owned()];
    let current = secretsmanager::secret_version_summary("arn:s", "v1", &stages, None, None);
    assert_eq!(current.status, "current");
    assert_eq!(attr(&current, "version_stages"), Some("AWSPREVIOUS, AWSCURRENT"));
    let old = secretsmanager::secret_version_summary("arn:s", "v0", &vec!["AWSPREVIOUS".to_owned()], None, None);
    assert_eq!(old.status, "versioned");

    let rotation = secretsmanager::rotation_summary("db", "arn:s", None, None, None, None);
    assert_eq!(rotation.name, "db rotation");
    assert_eq!(rotation.status, "disabled");
    assert_eq!(attr(&rotation, "rotation_lambda_arn"), Some("not configured"));
}

#[test]
fn ssm_parameter_values_are_hidden() {
    let secure = ssm::parameter_summary("/db/pass", some("SecureString"), None, None, None, None, 3, None, None);
    assert_eq!(secure.status, "SecureString");
    assert_eq!(attr(&secure, "version"), Some("3"));
    assert_eq!(
        attr(&secure, "value"),
        Some("Hidden until explicit reveal; value is never included in inventory.")
    );
    let plain = ssm::parameter_summary("/app/name", None, None, None, None, None, 1, None, None);
    assert_eq!(plain.status, "Unknown");
    assert_eq!(attr(&plain, "value"), Some("Hidden by default; fetch through explicit action only."));

    let command = ssm::command_invocation_summary("c1", None, None, None, None, None);
    assert_eq!(command.id, "command/c1/unknown");
    assert_eq!(attr(&command, "document_name"), Some("unknown"));
}

#[test]
fn acm_certificate_prefers_what_its_description_reports() {
    let names = vec!["a.example".to_owned(), "b.example".to_owned()];
    let listed = acm::certificate_summary("arn:c", some("a.example"), some("PENDING_VALIDATION"), some("c0"), some("i0"), None, None, Some(false), None, &names, None);
    assert_eq!(listed.status, "PENDING_VALIDATION");
    assert_eq!(listed.created_at.as_deref(), Some("c0"));
    assert_eq!(listed.updated_at.as_deref(), Some("i0"));
    assert_eq!(attr(&listed, "subject_alternative_names"), Some("a.example, b.example"));
    assert_eq!(attr(&listed, "private_key_material"), Some("not loaded"));
    assert_eq!(attr(&listed, "in_use"), Some("false"));

    let detail = acm::CertificateDetail {
        status: some("ISSUED"),
        created_at: some("c1"),
        issued_at: None,
        imported_at: some("m1"),
        subject: some("CN=a.example"),
        issuer: None,
        serial: None,
        signature_algorithm: None,
        not_before: None,
        not_after: None,
    };
    let described = acm::certificate_summary("arn:c", None, None, some("c0"), some("i0"), None, None, None, None, &Vec::new(), Some(detail));
    assert_eq!(described.name, "arn:c");
    assert_eq!(described.status, "ISSUED");
    assert_eq!(described.created_at.as_deref(), Some("c1"));
    assert_eq!(described.updated_at.as_deref(), Some("m1"));
    assert_eq!(attr(&described, "subject"), Some("CN=a.example"));
    assert_eq!(attr(&described, "subject_alternative_names"), None);

    let validation = acm::validation_summary("arn:c", "a.example", None, None, some("DNS"), Some(("_x".to_owned(), "CNAME".to_owned(), "_y".to_owned())));
    assert_eq!(validation.status, "unknown");
    assert_eq!(attr(&validation, "record_type"), Some("CNAME"));

    let domain = acm::domain_summary("arn:c", None);
    assert_eq!(domain.id, "domain/arn:c/arn:c");
    assert_eq!(domain.status, "covered");
}

#[test]
fn fixed_inventories_of_runtime_services() {
    let config = AppConfig {
        endpoint_url: "http://localhost:4566/".to_owned(),
        region: "us-east-1".to_owned(),
        access_key_id: "test".to_owned(),
        secret_access_key: "test".to_owned(),
    };
    let identity = sts::identity_resources(&config, None, None, None);
    assert_eq!(identity.len(), 2);
    assert_eq!(identity[0].name, "000000000000");
    assert_eq!(attr(&identity[0], "user_id"), Some("local"));
    assert_eq!(attr(&identity[0], "credentials"), Some("redacted"));
    assert_eq!(attr(&identity[1], "secret_access_key"), Some("redacted"));
    assert_eq!(attr(&identity[1], "endpoint"), Some("http://localhost:4566/"));

    let previews = appconfigdata::preview_resources(&config);
    assert_eq!(previews[0].id, "session-preview/local");
    assert_eq!(attr(&previews[0], "region"), Some("us-east-1"));
    assert_eq!(previews[1].status, "redacted");

    let runtime = bedrockruntime::runtime_resources();
    assert_eq!(runtime.len(), 3);
    assert_eq!(attr(&runtime[1], "template"), Some(r#"{"prompt":"hello from floci-ui"}"#));
    assert_eq!(runtime[2].status, "empty");
}

#[test]
fn compute_listings_defaults() {
    let instance = autoscaling::scaling_instance_summary("asg", "i-1", None, Some("Healthy".to_owned()), None);
    assert_eq!(instance.status, "healthy");
    let unknown = autoscaling::scaling_instance_summary("asg", "i-2", None, None, None);
    assert_eq!(unknown.status, "unknown");

    let build = codebuild::build_summary("proj:1", Some(7), None, None, None, None, None, None);
    assert_eq!(build.name, "#7");
    assert_eq!(build.status, "unknown");
    let unnumbered = codebuild::build_summary("proj:2", None, some("SUCCEEDED"), None, None, None, None, None);
    assert_eq!(unnumbered.name, "proj:2");
    let report = codebuild::report_group_summary("arn:aws:codebuild:r:1:report-group/tests");
    assert_eq!(report.name, "tests");

    let image = ecr::image_summary("repo", None, None, None, Some(100), None);
    assert_eq!(image.id, "image/repo/untagged");
    assert_eq!(image.name, "untagged");

    let task = ecs::task_summary("arn:cluster", "arn:aws:ecs:r:1:task/c/abc", None, None, None, None, None);
    assert_eq!(task.name, "abc");
    assert_eq!(task.status, "unknown");

    let cluster = eks::cluster_summary("dev", None, None, None, None, None, None, &Vec::new());
    assert_eq!(cluster.status, "active");

    let broker = msk::broker_summary("arn:m", None, None, None);
    assert_eq!(broker.id, "broker/arn:m/broker");
    let msk_cluster = msk::cluster_summary("events", None, None, None);
    assert_eq!(msk_cluster.id, "cluster/events");
    assert_eq!(attr(&msk_cluster, "cluster_arn"), Some("events"));
}

#[test]
fn data_listings_defaults() {
    let instance = rds::db_instance_summary("db1", None, None, some("postgres"), None, None, Some(20));
    assert_eq!(instance.status, "unknown");
    assert_eq!(attr(&instance, "allocated_storage"), Some("20"));
    let group = rds::db_subnet_group_summary("sg", None, None, None, 2);
    assert_eq!(attr(&group, "subnet_count"), Some("2"));

    let query = athena::named_query_summary("daily", None, None, "analytics", None);
    assert_eq!(query.id, "named-query/daily");
    assert_eq!(query.status, "saved");

    let vault = backup::vault_summary("main", None, None, None, 5, Some(false));
    assert_eq!(attr(&vault, "recovery_points"), Some("5"));
    assert_eq!(attr(&vault, "locked"), Some("false"));

    let stream = dynamodbstreams::stream_summary("arn:st", some("label-1"), some("orders"), None);
    assert_eq!(stream.name, "label-1");
    assert_eq!(stream.status, "listed");
    assert_eq!(attr(&stream, "table"), Some("orders"));
    let described = dynamodbstreams::stream_summary(
        "arn:st",
        None,
        None,
        Some(dynamodbstreams::StreamDescription { label: None, status: None, created_at: some("t") }),
    );
    assert_eq!(described.name, "arn:st");
    assert_eq!(described.status, "unknown");
    assert_eq!(described.created_at.as_deref(), Some("t"));

    let replication = elasticache::replication_group_summary("rg", None, None, None, None, 3, 1);
    assert_eq!(attr(&replication, "member_cluster_count"), Some("3"));

    let delivery = firehose::delivery_stream_summary("fh", "ACTIVE", None, None, "arn:fh", "DirectPut", "1", 1, false);
    assert_eq!(delivery.status, "ACTIVE");
    assert_eq!(attr(&delivery, "has_more_destinations"), Some("false"));

    let table = glue::table_summary("events", None, None, None, None, None, None);
    assert_eq!(table.id, "table/unknown/events");
    assert_eq!(attr(&table, "database"), Some("unknown"));

    let domain = opensearch::domain_summary("search", "d1", "arn:d", Some(true), None, Some(true), None, None, None, Some(2));
    assert_eq!(domain.status, "processing");
    assert_eq!(attr(&domain, "endpoint_count"), Some("2"));
}

#[test]
fn messaging_listings_defaults() {
    let stack = cloudformation::stack_summary("s", None, None, None, None, None);
    assert_eq!(stack.status, "unknown");
    let resource = cloudformation::stack_resource_summary("s", None, None, None, None, None, None);
    assert_eq!(resource.id, "stack-resource/s/resource");
    let event = cloudformation::stack_event_summary("s", None, None, None, None, None, None);
    assert_eq!(event.id, "stack-event/s/event");
    assert_eq!(event.name, "s");

    let metrics = kinesis::stream_metrics_summary("orders", 2, 24);
    assert_eq!(metrics.name, "orders metrics");
    assert_eq!(attr(&metrics, "retention_hours"), Some("24"));

    let schedule = scheduler::schedule_summary("nightly", None, None, None, None, None, some("arn:t"));
    assert_eq!(schedule.id, "schedule/default/nightly");
    assert_eq!(attr(&schedule, "group"), Some("default"));

    let statistic = ses::send_statistic_summary(4, None, 10, 1, 0, 2);
    assert_eq!(statistic.id, "send-statistic/4");
    assert_eq!(statistic.name, "send-statistic-4");

    let account = sesv2::account_summary(false, true, false, None, None);
    assert_eq!(account.status, "sending-disabled");
    assert_eq!(attr(&account, "production_access_enabled"), Some("true"));

    let definition = stepfunctions::definition_summary("arn:sm", "flow", None, None, "arn:role", "{}");
    assert_eq!(definition.name, "flow definition");
    assert_eq!(definition.status, "available");
    let alias = stepfunctions::state_machine_alias_summary("arn:sm", "arn:aws:states:r:1:stateMachine:flow:live", None);
    assert_eq!(alias.name, "live");

    let client = cognito::app_client_summary("pool", "c1", None);
    assert_eq!(attr(&client, "client_secret"), Some("redacted"));
    let pool = cognito::user_pool_summary("pool", None, true, None, None);
    assert_eq!(attr(&pool, "lambda_config"), Some("present"));
}

#[test]
fn listed_deployment_group_and_hosted_version_are_selected_again() {
    let group = codedeploy::deployment_group_summary("web", "blue", None, None);
    let request = ServiceActionRequest {
        service_key: "codedeploy".to_owned(),
        action: "create_deployment".to_owned(),
        resource_id: Some(group.id.clone()),
        resource_name: None,
        confirmation: None,
        payload: Payload::new(),
    };
    assert_eq!(codedeploy::selected_deployment_group(&request).unwrap(), ("web".to_owned(), "blue".to_owned()));

    let version = appconfig::hosted_version_summary("app1", "prof1", 4, None);
    let body = version.id.strip_prefix("hosted-version/").unwrap();
    assert_eq!(
        appconfig::split_version_path(body),
        ("app1".to_owned(), "prof1".to_owned(), "4".to_owned())
    );
}
