use floci_ui::service_management::adapters::compute_build::{self, autoscaling, bedrockruntime, ecr, ecs, lambda};
use floci_ui::service_management::adapters::data_storage::{self, dynamodb, opensearch, s3};
use floci_ui::service_management::adapters::messaging_events::{eventbridge, sns, sqs, stepfunctions};
use floci_ui::service_management::adapters::network_observability::{
    self, apigateway, cloudwatch, cloudwatchlogs, elbv2, route53, transfer,
};
use floci_ui::service_management::adapters::security_config::{self, acm, appconfig, iam, kms, secretsmanager};
use floci_ui::service_management::adapters::payload::{parse_i32_text, parse_i64_text, resource_name_from_arn};
use floci_ui::service_management::adapters::{CallReply, Planned};
use floci_ui::service_management::models::{Payload, PayloadValue, ServiceActionRequest};

fn request(service_key: &str, action: &str) -> ServiceActionRequest {
    ServiceActionRequest {
        service_key: service_key.to_owned(),
        action: action.to_owned(),
        resource_id: None,
        resource_name: None,
        confirmation: None,
        payload: Payload::new(),
    }
}

fn with_text(mut request: ServiceActionRequest, field: &str, value: &str) -> ServiceActionRequest {
    request.payload.insert(field.to_owned(), PayloadValue::Text(value.to_owned()));
    request
}

fn with_number(mut request: ServiceActionRequest, field: &str, value: i64) -> ServiceActionRequest {
    request.payload.insert(field.to_owned(), PayloadValue::Integer(value));
    request
}

fn selecting(mut request: ServiceActionRequest, id: &str, name: &str) -> ServiceActionRequest {
    request.resource_id = Some(id.to_owned());
    request.resource_name = Some(name.to_owned());
    request
}

fn confirming(mut request: ServiceActionRequest, name: &str) -> ServiceActionRequest {
    request.confirmation = Some(name.to_owned());
    request
}

fn reply(value: Option<&str>) -> CallReply {
    CallReply {
        value: value.map(str::to_owned),
        detail: None,
        count: 0,
        code: 0,
        messages: Vec::new(),
    }
}

#[test]
fn s3_create_bucket_plans_the_trimmed_name() {
    let req = with_text(request("s3", "create_bucket"), "bucket_name", "  photos  ");
    let Ok(Planned::Call(call)) = s3::plan_action(&req) else {
        panic!("create_bucket should plan a call");
    };
    let result = s3::completed(&call, &reply(None));
    assert!(result.changed);
    assert_eq!(result.message, "Created S3 bucket `photos`.");
    assert_eq!(result.resource_id.as_deref(), Some("bucket/photos"));
}

#[test]
fn s3_blocks_empty_bucket_and_names_unknown_actions() {
    let error = s3::plan_action(&request("s3", "empty_bucket")).err().expect("blocked");
    assert_eq!(error.code, "unsupported_operation");
    assert_eq!(
        error.message,
        "Empty bucket is intentionally blocked until object listing and typed object deletion are implemented."
    );
    let error = s3::plan_action(&request("s3", "rename_bucket")).err().expect("unknown");
    assert_eq!(error.message, "S3 action `rename_bucket` is not supported.");
    assert_eq!(error.operation.as_deref(), Some("rename_bucket"));
}

#[test]
fn dynamodb_refresh_keeps_the_selected_resource() {
    let req = selecting(request("dynamodb", "refresh_table_metadata"), "table/orders", "orders");
    let Ok(Planned::Done(result)) = dynamodb::plan_action(&req) else {
        panic!("refresh needs no call");
    };
    assert!(!result.changed);
    assert_eq!(result.message, "Table metadata refresh completed.");
    assert_eq!(result.resource_id.as_deref(), Some("table/orders"));
}

#[test]
fn dynamodb_delete_requires_matching_confirmation() {
    let req = confirming(selecting(request("dynamodb", "delete_table"), "table/orders", "orders"), "wrong");
    let error = dynamodb::plan_action(&req).err().expect("confirmation should match");
    assert_eq!(error.code, "invalid_input");

    let req = confirming(selecting(request("dynamodb", "delete_table"), "table/orders", "orders"), "orders");
    let Ok(Planned::Call(call)) = dynamodb::plan_action(&req) else {
        panic!("matching confirmation should plan the delete");
    };
    let result = dynamodb::completed(&call, &reply(None));
    assert_eq!(result.message, "Deleted DynamoDB table `orders`.");
    assert_eq!(result.resource_id.as_deref(), Some("table/orders"));
}

#[test]
fn dynamodb_partition_key_defaults_to_id() {
    let req = with_text(request("dynamodb", "create_table"), "table_name", "orders");
    let Ok(Planned::Call(dynamodb::Call::CreateTable { table_name, partition_key })) =
        dynamodb::plan_action(&req)
    else {
        panic!("create_table should plan a call");
    };
    assert_eq!(table_name, "orders");
    assert_eq!(partition_key, "id");
}

#[test]
fn family_plans_dispatch_to_the_adapter() {
    let req = with_text(request("s3", "create_bucket"), "bucket_name", "logs");
    let Ok(Planned::Call(call)) = data_storage::plan_action(&req) else {
        panic!("s3 action should reach its adapter");
    };
    assert!(matches!(call, data_storage::Call::S3(s3::Call::CreateBucket { .. })));
    let result = data_storage::completed(&call, &reply(None));
    assert_eq!(result.message, "Created S3 bucket `logs`.");

    let Ok(Planned::Done(result)) = data_storage::plan_action(&request("rds", "refresh_inventory")) else {
        panic!("read-only refresh is answered at once");
    };
    assert_eq!(result.message, "Refreshed `rds` inventory.");
    assert_eq!(result.resource_id, None);
}

#[test]
fn eventbridge_rule_ids_need_bus_and_rule() {
    let req = confirming(selecting(request("eventbridge", "delete_rule"), "rule/default", "orders"), "orders");
    let error = eventbridge::plan_action(&req).err().expect("no rule part");
    assert_eq!(error.message, "Rule resources must include both event bus and rule name.");

    let req = confirming(selecting(request("eventbridge", "delete_rule"), "rule/default/orders", "orders"), "orders");
    let Ok(Planned::Call(call)) = eventbridge::plan_action(&req) else {
        panic!("rule id should split");
    };
    let result = eventbridge::completed(&call, &reply(None));
    assert_eq!(result.resource_id.as_deref(), Some("rule/default/orders"));
}

#[test]
fn eventbridge_rejects_invalid_event_json() {
    let req = with_text(
        with_text(selecting(request("eventbridge", "put_event"), "event-bus/default", "default"), "source", "app"),
        "detail_type",
        "Ping",
    );
    let req = with_text(req, "detail", "{not json");
    let error = eventbridge::plan_action(&req).err().expect("invalid JSON");
    assert_eq!(error.code, "invalid_input");
    assert!(error.message.starts_with("`detail` must be valid JSON: "));
}

#[test]
fn eventbridge_put_event_reports_failed_entries() {
    let req = with_text(
        with_text(selecting(request("eventbridge", "put_event"), "event-bus/default", "default"), "source", "app"),
        "detail_type",
        "Ping",
    );
    let Ok(Planned::Call(call)) = eventbridge::plan_action(&req) else {
        panic!("put_event should plan a call");
    };
    let mut answer = reply(None);
    answer.count = 2;
    let result = eventbridge::completed(&call, &answer);
    assert_eq!(result.message, "Put EventBridge event with 2 failed entries.");
    assert_eq!(result.resource_id.as_deref(), Some("event-bus/default"));
}

#[test]
fn sns_reply_values_fill_messages_and_ids() {
    let req = with_text(request("sns", "create_topic"), "topic_name", "alerts");
    let Ok(Planned::Call(call)) = sns::plan_action(&req) else {
        panic!("create_topic should plan a call");
    };
    let result = sns::completed(&call, &reply(Some("arn:aws:sns:us-east-1:000000000000:alerts")));
    assert_eq!(result.resource_id.as_deref(), Some("topic/arn:aws:sns:us-east-1:000000000000:alerts"));
    assert_eq!(sns::completed(&call, &reply(None)).resource_id, None);

    let req = with_text(selecting(request("sns", "publish_message"), "topic/arn:t", "t"), "message", "hi");
    let Ok(Planned::Call(call)) = sns::plan_action(&req) else {
        panic!("publish should plan a call");
    };
    assert_eq!(sns::completed(&call, &reply(None)).message, "Published SNS message `local-message`.");
    assert_eq!(sns::completed(&call, &reply(Some("m-1"))).message, "Published SNS message `m-1`.");
}

#[test]
fn sqs_queue_urls_come_from_the_selection_or_a_lookup() {
    let req = confirming(selecting(request("sqs", "delete_queue"), "queue/http://localhost:4566/000000000000/jobs", "jobs"), "jobs");
    let Ok(Planned::Call(sqs::Call::DeleteQueue { queue_url, .. })) = sqs::plan_action(&req) else {
        panic!("delete_queue should plan a call");
    };
    assert_eq!(queue_url.as_deref(), Some("http://localhost:4566/000000000000/jobs"));

    let req = confirming(selecting(request("sqs", "delete_queue"), "queue/jobs", "jobs"), "jobs");
    let Ok(Planned::Call(sqs::Call::DeleteQueue { queue_url, .. })) = sqs::plan_action(&req) else {
        panic!("delete_queue should plan a call");
    };
    assert_eq!(queue_url, None);
    let error = sqs::looked_up_queue_url("jobs", None).err().expect("missing queue");
    assert_eq!(error.code, "not_found");
    assert_eq!(error.message, "Queue `jobs` was not found.");
}

#[test]
fn stepfunctions_names_executions_by_their_arn() {
    let req = selecting(request("stepfunctions", "start_execution"), "state-machine/arn:sm", "sm");
    let Ok(Planned::Call(call)) = stepfunctions::plan_action(&req) else {
        panic!("start_execution should plan a call");
    };
    let result = stepfunctions::completed(&call, &reply(Some("arn:aws:states:us-east-1:0:execution:sm:run-1")));
    assert_eq!(result.message, "Started Step Functions execution `run-1`.");
    assert_eq!(result.resource_id.as_deref(), Some("execution/arn:aws:states:us-east-1:0:execution:sm:run-1"));
}

#[test]
fn apigateway_method_selection_needs_three_parts() {
    let req = with_text(selecting(request("apigateway", "put_integration"), "method/api/res", "m"), "integration_uri", "http://x");
    let error = apigateway::plan_action(&req).err().expect("method part missing");
    assert_eq!(error.message, "Select a REST API method before running this action.");

    let req = with_text(selecting(request("apigateway", "put_integration"), "method/api/res/get", "m"), "integration_uri", "http://x");
    let Ok(Planned::Call(call)) = apigateway::plan_action(&req) else {
        panic!("put_integration should plan a call");
    };
    let result = apigateway::completed(&call, &reply(None));
    assert_eq!(result.message, "Added `POST` integration.");
    assert_eq!(result.resource_id.as_deref(), Some("integration/api/res/get"));
}

#[test]
fn apigateway_http_methods_are_upper_cased() {
    let req = with_text(selecting(request("apigateway", "put_method"), "resource/api/res", "r"), "http_method", " patch ");
    let Ok(Planned::Call(call)) = apigateway::plan_action(&req) else {
        panic!("put_method should plan a call");
    };
    let result = apigateway::completed(&call, &reply(None));
    assert_eq!(result.message, "Added `PATCH` method.");
    assert_eq!(result.resource_id.as_deref(), Some("method/api/res/PATCH"));
}

#[test]
fn elbv2_targets_are_split_at_the_separator() {
    let req = confirming(selecting(request("elbv2", "deregister_target"), "target/arn:tg||i-1", "i-1"), "i-1");
    let req = with_number(req, "port", 8080);
    let Ok(Planned::Call(elbv2::Call::DeregisterTarget { target_group_arn, target_id, port, .. })) =
        elbv2::plan_action(&req)
    else {
        panic!("deregister_target should plan a call");
    };
    assert_eq!(target_group_arn, "arn:tg");
    assert_eq!(target_id, "i-1");
    assert_eq!(port, Some(8080));
}

#[test]
fn route53_records_are_read_from_their_id() {
    let req = confirming(
        selecting(request("route53", "delete_record"), "record-set//hostedzone/Z1||www.example.com.||A||60||1.2.3.4", "www"),
        "www",
    );
    let Ok(Planned::Call(route53::Call::DeleteRecord { zone_id, encoded_name, encoded_type, value, ttl, .. })) =
        route53::plan_action(&req)
    else {
        panic!("delete_record should plan a call");
    };
    assert_eq!(zone_id, "Z1");
    assert_eq!(encoded_name, "www.example.com.");
    assert_eq!(encoded_type, "A");
    assert_eq!(value, "1.2.3.4");
    assert_eq!(ttl, 60);

    let req = confirming(selecting(request("route53", "delete_record"), "record-set/Z1||www||A||soon||1.2.3.4", "www"), "www");
    let Ok(Planned::Call(route53::Call::DeleteRecord { ttl, .. })) = route53::plan_action(&req) else {
        panic!("an unreadable TTL falls back");
    };
    assert_eq!(ttl, 300);
    assert_eq!(route53::clean_zone_id("hostedzone/Z2"), "Z2");
    assert_eq!(route53::clean_zone_id("Z3"), "Z3");
}

#[test]
fn route53_upsert_reports_the_change_status() {
    let req = with_text(with_text(selecting(request("route53", "upsert_record"), "hosted-zone/Z1", "z"), "record_name", "api"), "record_value", "1.2.3.4");
    let Ok(Planned::Call(call)) = route53::plan_action(&req) else {
        panic!("upsert should plan a call");
    };
    let mut answer = reply(Some("C1"));
    answer.detail = Some("Some(Pending)".to_owned());
    let result = route53::completed(&call, &answer);
    assert_eq!(result.message, "Submitted Route 53 record upsert `api` (Some(Pending)).");
    assert_eq!(result.resource_id.as_deref(), Some("change-batch/C1"));
}

#[test]
fn transfer_users_need_server_and_name() {
    let req = confirming(selecting(request("transfer", "delete_user"), "user/s-1/", "alice"), "alice");
    let error = transfer::plan_action(&req).err().expect("user name missing");
    assert_eq!(error.message, "Select a Transfer user before running this action.");
}

#[test]
fn cloudwatch_metric_queries_clamp_their_window() {
    let req = with_number(selecting(request("cloudwatch", "query_metric_data"), "metric/AWS/Lambda||Errors||FunctionName=f", "m"), "period", 300);
    let req = with_number(req, "window_seconds", 10);
    let Ok(Planned::Call(call)) = cloudwatch::plan_action(&req) else {
        panic!("query should plan a call");
    };
    let cloudwatch::Call::QueryMetricData { namespace, metric_name, dimensions, period, window_seconds, .. } = &call else {
        panic!("query call");
    };
    assert_eq!(namespace, "AWS/Lambda");
    assert_eq!(metric_name, "Errors");
    assert_eq!(dimensions, "FunctionName=f");
    assert_eq!(*period, 300);
    assert_eq!(*window_seconds, 300);
    let mut answer = reply(None);
    answer.count = 0;
    let result = cloudwatch::completed(&call, &answer);
    assert_eq!(
        result.message,
        "Queried `Errors` over 300 second(s): 0 datapoint(s), latest no datapoints returned."
    );
}

#[test]
fn cloudwatch_dimensions_skip_incomplete_pairs() {
    let dims = cloudwatch::parse_dimensions(" A = 1 ,broken, =2,B=3");
    assert_eq!(dims, vec![("A".to_owned(), "1".to_owned()), ("B".to_owned(), "3".to_owned())]);
    assert_eq!(cloudwatch::dimension_key(&dims), "A=1,B=3");
    assert!(cloudwatch::parse_dimensions("").is_empty());
    assert_eq!(cloudwatch::trim_preview("abcdef", 3), "abc...");
    assert_eq!(cloudwatch::trim_preview("abc", 3), "abc");
}

#[test]
fn cloudwatch_logs_redacts_secrets_and_shortens_previews() {
    assert_eq!(cloudwatchlogs::redact_log_message("Authorization: Bearer x"), "[redacted log event]");
    assert_eq!(cloudwatchlogs::redact_log_message("all good"), "all good");
    let long = "a".repeat(130);
    assert_eq!(cloudwatchlogs::redact_log_message(&long), format!("{}...", "a".repeat(120)));
}

#[test]
fn cloudwatch_logs_tail_reports_the_latest_message() {
    let req = with_number(selecting(request("cloudwatchlogs", "tail_recent_events"), "log-group/app", "app"), "limit", 500);
    let Ok(Planned::Call(call)) = cloudwatchlogs::plan_action(&req) else {
        panic!("tail should plan a call");
    };
    assert!(matches!(call, cloudwatchlogs::Call::TailRecentEvents { limit: 100, .. }));
    let mut answer = reply(None);
    answer.messages = vec![Some("first".to_owned()), Some("second".to_owned()), None];
    let result = cloudwatchlogs::completed(&call, &answer);
    assert_eq!(result.message, "Loaded 3 recent log event(s). Latest: second");
    answer.messages = Vec::new();
    let result = cloudwatchlogs::completed(&call, &answer);
    assert_eq!(result.message, "Loaded 0 recent log event(s). Latest: No recent log events were returned.");
}

#[test]
fn network_family_answers_refresh_before_adapters() {
    let Ok(Planned::Done(result)) = network_observability::plan_action(&request("route53", "refresh_inventory")) else {
        panic!("refresh is answered at once");
    };
    assert_eq!(result.message, "Refreshed `route53` inventory.");
}

#[test]
fn iam_access_keys_fall_back_to_the_selected_user() {
    let req = selecting(request("iam", "create_access_key"), "user/alice", "alice");
    let Ok(Planned::Call(call)) = iam::plan_action(&req) else {
        panic!("create_access_key should plan a call");
    };
    let result = iam::completed(&call, &reply(Some("AKIA1")));
    assert_eq!(
        result.message,
        "Created IAM access key `AKIA1` for `alice`. Secret access key was received from the local emulator and immediately discarded."
    );
    assert_eq!(result.resource_id.as_deref(), Some("access-key/alice/AKIA1"));
    let error = iam::plan_action(&request("iam", "create_access_key")).err().expect("no user");
    assert_eq!(error.message, "Select a user or provide `user_name`.");
}

#[test]
fn iam_policies_without_an_arn_get_a_local_id() {
    let req = with_text(request("iam", "create_policy"), "policy_name", "readers");
    let Ok(Planned::Call(call)) = iam::plan_action(&req) else {
        panic!("create_policy should plan a call");
    };
    assert_eq!(iam::completed(&call, &reply(None)).resource_id.as_deref(), Some("policy/local/readers"));
}

#[test]
fn kms_deletion_window_defaults_to_seven_days() {
    let req = confirming(selecting(request("kms", "schedule_key_deletion"), "key/k-1", "k-1"), "k-1");
    let Ok(Planned::Call(call)) = kms::plan_action(&req) else {
        panic!("schedule_key_deletion should plan a call");
    };
    assert_eq!(kms::completed(&call, &reply(None)).message, "Scheduled KMS key `k-1` for deletion in 7 days.");
}

#[test]
fn secrets_are_described_without_their_value() {
    let req = selecting(request("secretsmanager", "reveal_secret_value"), "secret/db", "db");
    let Ok(Planned::Call(call)) = secretsmanager::plan_action(&req) else {
        panic!("reveal should plan a call");
    };
    let mut answer = reply(None);
    answer.detail = Some("string".to_owned());
    answer.count = 12;
    assert_eq!(
        secretsmanager::completed(&call, &answer).message,
        "Secret value was fetched for `db` and immediately cleared from the UI action state. Type: string; length: 12 bytes. The value is not stored in inventory, logs, or screenshots."
    );
}

#[test]
fn appconfig_deployments_need_an_environment() {
    let req = selecting(request("appconfig", "start_deployment"), "hosted-version/app/profile/3", "v3");
    let error = appconfig::plan_action(&req).err().expect("environment missing");
    assert_eq!(error.message, "`environment_id` is required.");
    let req = with_text(req, "environment_id", "env");
    let Ok(Planned::Call(appconfig::Call::StartDeployment { application_id, profile_id, version, strategy_id, .. })) =
        appconfig::plan_action(&req)
    else {
        panic!("start_deployment should plan a call");
    };
    assert_eq!((application_id.as_str(), profile_id.as_str(), version.as_str()), ("app", "profile", "3"));
    assert_eq!(strategy_id, "AppConfig.AllAtOnce");
    assert_eq!(appconfig::split_version_path("app/profile").2, "1");
}

#[test]
fn acm_refuses_certificate_import() {
    let error = acm::refuse_action(&request("acm", "import_certificate"));
    assert_eq!(error.code, "unsupported_operation");
    let Err(error) = security_config::plan_action(&request("acm", "renew")) else {
        panic!("acm has no actions");
    };
    assert_eq!(error.code, "unsupported_operation");
}

#[test]
fn autoscaling_requires_a_desired_capacity() {
    let req = selecting(request("autoscaling", "update_desired_capacity"), "auto-scaling-group/web", "web");
    let error = autoscaling::plan_action(&req).err().expect("capacity missing");
    assert_eq!(error.message, "`desired_capacity` is required.");
    let req = with_text(req, "desired_capacity", " 4 ");
    let Ok(Planned::Call(call)) = autoscaling::plan_action(&req) else {
        panic!("text numbers are accepted");
    };
    assert_eq!(
        autoscaling::completed(&call, &reply(None)).message,
        "Updated Auto Scaling group `web` desired capacity to 4."
    );
}

#[test]
fn bedrock_template_size_is_counted_in_bytes() {
    let req = with_text(request("bedrockruntime", "validate_request_template"), "body", "{\"é\":1}");
    let Ok(Planned::Done(result)) = bedrockruntime::plan_action(&req) else {
        panic!("validation needs no call");
    };
    assert_eq!(result.message, "Validated Bedrock Runtime request template (8 bytes).");
}

#[test]
fn bedrock_accept_defaults_to_the_content_type() {
    let req = with_text(request("bedrockruntime", "invoke_model"), "model_id", "m");
    let req = with_text(req, "content_type", "text/plain");
    let Ok(Planned::Call(bedrockruntime::Call::InvokeModel { accept, .. })) = bedrockruntime::plan_action(&req) else {
        panic!("invoke should plan a call");
    };
    assert_eq!(accept, "text/plain");
}

#[test]
fn ecr_images_need_repository_and_digest() {
    let req = selecting(request("ecr", "delete_image"), "image/sha256:abc", "img");
    let error = ecr::plan_action(&req).err().expect("no repository");
    assert_eq!(error.message, "Image resource id must include repository and digest.");
}

#[test]
fn ecs_service_names_come_from_their_arn() {
    let req = with_text(
        with_number(selecting(request("ecs", "update_service_desired_count"), "service/arn:aws:ecs:r:0:service/c/web", "web"), "desired_count", 2),
        "cluster_arn",
        "c",
    );
    let Ok(Planned::Call(call)) = ecs::plan_action(&req) else {
        panic!("update should plan a call");
    };
    assert_eq!(ecs::completed(&call, &reply(None)).message, "Updated ECS service `web` desired count to 2.");
    let req = selecting(request("ecs", "stop_task"), "task/t-1", "cluster-a");
    let Ok(Planned::Call(ecs::Call::StopTask { cluster_arn, .. })) = ecs::plan_action(&req) else {
        panic!("stop should plan a call");
    };
    assert_eq!(cluster_arn, "cluster-a");
}

#[test]
fn lambda_invocations_preview_the_response() {
    let req = selecting(request("lambda", "invoke_function"), "function/arn:aws:lambda:r:0:function:hello", "hello");
    let Ok(Planned::Call(call)) = lambda::plan_action(&req) else {
        panic!("invoke should plan a call");
    };
    let mut answer = reply(Some(""));
    answer.code = 200;
    assert_eq!(
        lambda::completed(&call, &answer).message,
        "Invoked Lambda `hello` with status 200 and function error `none`. Response preview: {}"
    );
    let Ok(Planned::Call(call)) = compute_build::plan_action(&req) else {
        panic!("the family reaches the lambda adapter");
    };
    assert!(matches!(call, compute_build::Call::Lambda(_)));
}

#[test]
fn numbers_parse_like_std() {
    assert_eq!(parse_i32_text("-2147483648"), Some(i32::MIN));
    assert_eq!(parse_i32_text("2147483648"), None);
    assert_eq!(parse_i32_text("+7"), Some(7));
    assert_eq!(parse_i32_text("7a"), None);
    assert_eq!(parse_i64_text("9223372036854775807"), Some(i64::MAX));
    assert_eq!(parse_i64_text("-9223372036854775809"), None);
    assert_eq!(resource_name_from_arn("arn:aws:iam::0:role/app"), "app");
}

#[test]
fn listed_record_sets_are_selected_again() {
    let id = route53::record_set_id("Z9", "api.example.com.", "CNAME", -5, "target||with||bars");
    assert_eq!(id, "record-set/Z9||api.example.com.||CNAME||-5||target||with||bars");
    let req = confirming(selecting(request("route53", "delete_record"), &id, "api"), "api");
    let Ok(Planned::Call(route53::Call::DeleteRecord { zone_id, encoded_name, encoded_type, value, ttl, .. })) =
        route53::plan_action(&req)
    else {
        panic!("listed record should be selectable");
    };
    assert_eq!((zone_id.as_str(), encoded_name.as_str(), encoded_type.as_str()), ("Z9", "api.example.com.", "CNAME"));
    assert_eq!((value.as_str(), ttl), ("target||with||bars", -5));
}

#[test]
fn listed_targets_and_methods_are_selected_again() {
    let id = elbv2::target_resource_id("arn:aws:elasticloadbalancing:tg/web", "i-9");
    let req = confirming(selecting(request("elbv2", "deregister_target"), &id, "i-9"), "i-9");
    let Ok(Planned::Call(elbv2::Call::DeregisterTarget { target_group_arn, target_id, .. })) = elbv2::plan_action(&req) else {
        panic!("listed target should be selectable");
    };
    assert_eq!((target_group_arn.as_str(), target_id.as_str()), ("arn:aws:elasticloadbalancing:tg/web", "i-9"));
}

#[test]
fn sqs_queues_list_attributes_and_dead_letter_policy() {
    let attributes = vec![
        ("DelaySeconds".to_owned(), "0".to_owned()),
        ("RedrivePolicy".to_owned(), "{\"maxReceiveCount\":3}".to_owned()),
    ];
    let listed = sqs::queue_resources("http://localhost:4566/000000000000/jobs", &attributes);
    assert_eq!(listed.len(), 4);
    assert_eq!(listed[0].id, "queue/http://localhost:4566/000000000000/jobs");
    assert_eq!(listed[0].name, "jobs");
    assert_eq!(listed[0].attributes.get("DelaySeconds").map(String::as_str), Some("0"));
    assert_eq!(listed[1].id, "queue-attribute/jobs/DelaySeconds");
    assert_eq!(listed[1].attributes.get("value").map(String::as_str), Some("0"));
    assert_eq!(listed[3].id, "dead-letter-queue/jobs");
    assert_eq!(listed[3].name, "jobs DLQ policy");
    assert_eq!(listed[3].status, "configured");
    assert_eq!(sqs::queue_resources("http://q/plain", &Vec::new()).len(), 1);
}

#[test]
fn sns_topics_list_their_policies() {
    let attributes = vec![("DeliveryPolicy".to_owned(), "{}".to_owned())];
    let listed = sns::topic_resources("arn:aws:sns:us-east-1:0:alerts", &attributes);
    assert_eq!(listed.len(), 2);
    assert_eq!(listed[0].name, "alerts");
    assert_eq!(listed[1].id, "delivery-policy/arn:aws:sns:us-east-1:0:alerts");
    assert_eq!(listed[1].name, "alerts delivery");
    let subscription = sns::subscription_summary("arn:aws:sns:r:0:alerts:abc", None, Some("sqs".to_owned()), None);
    assert_eq!(subscription.name, "abc");
    assert_eq!(subscription.attributes.len(), 1);
}

#[test]
fn dynamodb_tables_list_their_indexes() {
    let gsis = vec![("by-user".to_owned(), Some("ACTIVE".to_owned())), ("by-date".to_owned(), None)];
    let lsis = vec!["by-time".to_owned()];
    let listed = dynamodb::table_resources("orders", None, None, 12, 2048, &gsis, &lsis);
    assert_eq!(listed.len(), 4);
    assert_eq!(listed[0].status, "unknown");
    assert_eq!(listed[0].attributes.get("item_count").map(String::as_str), Some("12"));
    assert_eq!(listed[0].attributes.get("table_size_bytes").map(String::as_str), Some("2048"));
    assert_eq!(listed[1].id, "gsi/orders/by-user");
    assert_eq!(listed[2].status, "unknown");
    assert_eq!(listed[3].id, "lsi/orders/by-time");
    assert_eq!(listed[3].status, "attached");
    let bucket = s3::bucket_summary("logs".to_owned(), None);
    assert_eq!(bucket.id, "bucket/logs");
    assert_eq!(
        bucket.attributes.get("preview").map(String::as_str),
        Some("Object body preview is metadata-only by default.")
    );
}

#[test]
fn instance_tags_give_names_and_maps() {
    let tags = vec![
        (Some("Name".to_owned()), None),
        (Some("env".to_owned()), Some("dev".to_owned())),
        (None, Some("orphan".to_owned())),
        (Some("Name".to_owned()), Some("web-1".to_owned())),
    ];
    assert_eq!(floci_ui::service_management::adapters::compute_build::ec2::instance_name("i-1", &tags), "web-1");
    assert_eq!(floci_ui::service_management::adapters::compute_build::ec2::instance_name("i-1", &Vec::new()), "i-1");
    let map = compute_build::tags_to_map(&tags);
    assert_eq!(map.len(), 2);
    assert_eq!(map.get("env").map(String::as_str), Some("dev"));
}

#[test]
fn opensearch_domains_report_their_state() {
    assert_eq!(opensearch::domain_status(Some(true), Some(true), None), "deleted");
    assert_eq!(opensearch::domain_status(Some(true), None, Some(true)), "processing");
    assert_eq!(opensearch::domain_status(Some(true), None, None), "active");
    assert_eq!(opensearch::domain_status(None, Some(false), None), "listed");
    let endpoint = opensearch::endpoint_resource("search", "vpc", "vpc-search.local");
    assert_eq!(endpoint.id, "endpoint/search/vpc");
    assert_eq!(endpoint.name, "vpc-search.local");
}

#[test]
fn typed_confirmation_guards_destructive_actions() {
    let req = selecting(request("iam", "delete_role"), "role/app", "app");
    let error = security_config::plan_action(&req).err().expect("no confirmation given");
    assert_eq!(error.code, "invalid_input");
    let req = confirming(req, "app");
    assert!(security_config::plan_action(&req).is_ok());
}

#[test]
fn integrations_never_show_credentials() {
    let listed = apigateway::integration_summary("api", "res", "/orders", "GET", None, Some("POST".to_owned()), Some("http://backend".to_owned()), true);
    assert_eq!(listed.id, "integration/api/res/GET");
    assert_eq!(listed.name, "GET /orders integration");
    assert_eq!(listed.status, "configured");
    assert_eq!(
        listed.attributes.get("credentials").map(String::as_str),
        Some("Sensitive identity details are redacted from inventory.")
    );
    let v2 = floci_ui::service_management::adapters::network_observability::apigatewayv2::integration_summary(
        "api", "int-1", None, None, Some("HTTP_PROXY".to_owned()), false,
    );
    assert_eq!(v2.name, "int-1");
    assert_eq!(v2.status, "HTTP_PROXY");
    assert!(v2.attributes.get("credentials_arn").is_none());
}

#[test]
fn listed_methods_carry_their_authorization() {
    let method = apigateway::method_summary("api", "res", "/orders", "GET", None, Some(true));
    assert_eq!(method.id, "method/api/res/GET");
    assert_eq!(method.name, "GET /orders");
    assert_eq!(method.status, "NONE");
    assert_eq!(method.attributes.get("api_key_required").map(String::as_str), Some("true"));
    let resource = apigateway::rest_resource_summary("api", "res", None, None, None);
    assert_eq!(resource.name, "res");
}

#[test]
fn listed_record_sets_summarize_their_values() {
    let values = vec!["1.2.3.4".to_owned(), "5.6.7.8".to_owned()];
    let listed = route53::record_set_summary("Z1", "www.", "A", None, None, None, &values);
    assert_eq!(listed.id, "record-set/Z1||www.||A||0||1.2.3.4");
    assert_eq!(listed.name, "www. A");
    assert_eq!(listed.attributes.get("values").map(String::as_str), Some("1.2.3.4, 5.6.7.8"));
    assert!(listed.attributes.get("ttl").is_none());
}

#[test]
fn listed_targets_report_their_health() {
    let listed = elbv2::target_summary("arn:tg", "i-1", Some(80), None, None, None, None);
    assert_eq!(listed.id, "target/arn:tg||i-1");
    assert_eq!(listed.status, "registered");
    assert_eq!(listed.attributes.get("port").map(String::as_str), Some("80"));
}

#[test]
fn listed_streams_and_services_fill_their_defaults() {
    let stream = cloudwatchlogs::stream_summary("app", "s-1", Some(5), None, None);
    assert_eq!(stream.id, "log-stream/app/s-1");
    assert_eq!(stream.status, "idle");
    assert_eq!(stream.created_at.as_deref(), Some("5 ms"));
    let service = ecs::service_summary("c", "arn:aws:ecs:r:0:service/c/web", None, None, None, 2, 1, 0, None);
    assert_eq!(service.name, "web");
    assert_eq!(service.status, "active");
    assert_eq!(service.attributes.get("desired_count").map(String::as_str), Some("2"));
    let instance = ecs::container_instance_summary("c", "arn:aws:ecs:r:0:container-instance/c/abc", None, 3, 0, Some("DRAINING".to_owned()));
    assert_eq!(instance.name, "abc");
    assert_eq!(instance.status, "DRAINING");
}
