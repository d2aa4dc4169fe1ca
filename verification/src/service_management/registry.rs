//! The catalog of the services the desktop shell knows about.
use vstd::prelude::*;
use vstd::string::*;

use crate::models::{descriptor_views, texts, DescriptorView, ServiceCategory, ServiceDescriptor};
use crate::service_management::errors::{
    unsupported_service_error, ErrorView, ServiceManagementError,
};
use crate::service_management::models::{
    tab_views, InventoryView, ResourceTab, ServiceInventory, ServiceSupportLevel, TabView,
};
use crate::text::{ascii_upper, ascii_upper_char, concat4, push_char};
use crate::service_management::actions::rfc3339_utc_text;

verus! {

/// A catalog entry, written with text literals.
#[derive(Debug, Clone)]
pub struct StaticServiceDescriptor {
    pub key: &'static str,
    pub label: &'static str,
    pub category: ServiceCategory,
    pub description: &'static str,
    pub domain_epic: &'static str,
    pub support_level: ServiceSupportLevel,
    pub primary_resource_kinds: Vec<&'static str>,
    pub safe_operations: Vec<&'static str>,
}

impl View for StaticServiceDescriptor {
    type V = DescriptorView;

    open spec fn view(&self) -> DescriptorView {
        DescriptorView {
            key: self.key@,
            label: self.label@,
            category: self.category,
            description: self.description@,
            domain_epic: self.domain_epic@,
            support_level: self.support_level,
            primary_resource_kinds: texts(self.primary_resource_kinds@),
            safe_operations: texts(self.safe_operations@),
        }
    }
}

/// The views of a list of catalog entries.
pub open spec fn static_views(v: Seq<StaticServiceDescriptor>) -> Seq<DescriptorView> {
    v.map_values(|d: StaticServiceDescriptor| d@)
}

/// A catalog entry's view.
pub open spec fn entry_view(
    key: &str,
    label: &str,
    category: ServiceCategory,
    description: &str,
    domain_epic: &str,
    support_level: ServiceSupportLevel,
    primary_resource_kinds: Seq<&str>,
    safe_operations: Seq<&str>,
) -> DescriptorView {
    DescriptorView {
        key: key@,
        label: label@,
        category,
        description: description@,
        domain_epic: domain_epic@,
        support_level,
        primary_resource_kinds: texts(primary_resource_kinds),
        safe_operations: texts(safe_operations),
    }
}
/// Catalog entries of the "Data and storage" group.
pub open spec fn data_and_storage_entries() -> Seq<DescriptorView> {
    seq![
        entry_view(
            "s3",
            "S3",
            ServiceCategory::Data,
            "Buckets, objects, policies, and object-lock state.",
            "Data and storage",
            ServiceSupportLevel::Managed,
            seq!["bucket", "object-prefix", "bucket-policy", "lifecycle-rule", "tag-set"],
            seq!["list", "inspect", "create_bucket", "delete_bucket"],
        ),
        entry_view(
            "dynamodb",
            "DynamoDB",
            ServiceCategory::Data,
            "Tables, streams, item counts, indexes, and TTL state.",
            "Data and storage",
            ServiceSupportLevel::Managed,
            seq!["table", "global-secondary-index", "local-secondary-index", "stream", "ttl", "backup"],
            seq!["list", "inspect", "create_table", "delete_table"],
        ),
        entry_view(
            "dynamodbstreams",
            "DynamoDB Streams",
            ServiceCategory::Data,
            "Table stream shards, sequence ranges, and stream status.",
            "Data and storage",
            ServiceSupportLevel::ReadOnly,
            seq!["stream", "shard"],
            seq!["list", "inspect"],
        ),
        entry_view(
            "rds",
            "RDS",
            ServiceCategory::Data,
            "Instances, clusters, subnet groups, and snapshots.",
            "Data and storage",
            ServiceSupportLevel::ReadOnly,
            seq!["db-instance", "db-cluster", "snapshot", "subnet-group", "parameter-group"],
            seq!["list", "inspect"],
        ),
        entry_view(
            "elasticache",
            "ElastiCache",
            ServiceCategory::Data,
            "Redis/Valkey clusters, users, and auth settings.",
            "Data and storage",
            ServiceSupportLevel::ReadOnly,
            seq!["cache-cluster", "replication-group", "user", "subnet-group"],
            seq!["list", "inspect"],
        ),
        entry_view(
            "opensearch",
            "OpenSearch",
            ServiceCategory::Data,
            "Domains, endpoints, and backing container state.",
            "Data and storage",
            ServiceSupportLevel::ReadOnly,
            seq!["domain", "endpoint", "index-hint", "access-policy"],
            seq!["list", "inspect"],
        ),
        entry_view(
            "glue",
            "Glue",
            ServiceCategory::Data,
            "Catalog databases, tables, crawlers, jobs, and connections.",
            "Data and storage",
            ServiceSupportLevel::ReadOnly,
            seq!["database", "table", "connection", "job", "crawler"],
            seq!["list", "inspect"],
        ),
        entry_view(
            "athena",
            "Athena",
            ServiceCategory::Data,
            "Workgroups, data catalogs, named queries, and result metadata.",
            "Data and storage",
            ServiceSupportLevel::ReadOnly,
            seq!["workgroup", "named-query", "result-metadata", "data-catalog"],
            seq!["list", "inspect"],
        ),
        entry_view(
            "firehose",
            "Data Firehose",
            ServiceCategory::Data,
            "Delivery streams, destinations, and buffering state.",
            "Data and storage",
            ServiceSupportLevel::ReadOnly,
            seq!["delivery-stream", "destination"],
            seq!["list", "inspect"],
        ),
        entry_view(
            "backup",
            "AWS Backup",
            ServiceCategory::Data,
            "Backup vaults, plans, jobs, and recovery points.",
            "Data and storage",
            ServiceSupportLevel::ReadOnly,
            seq!["backup-vault", "backup-plan", "backup-job", "recovery-point"],
            seq!["list", "inspect"],
        ),
    ]
}

fn data_and_storage_descriptors() -> (v: Vec<StaticServiceDescriptor>)
    ensures
        static_views(v@) == data_and_storage_entries(),
{
    let mut v: Vec<StaticServiceDescriptor> = Vec::new();
    v.push(
        StaticServiceDescriptor {
            key: "s3",
            label: "S3",
            category: ServiceCategory::Data,
            description: "Buckets, objects, policies, and object-lock state.",
            domain_epic: "Data and storage",
            support_level: ServiceSupportLevel::Managed,
            primary_resource_kinds: vec!["bucket", "object-prefix", "bucket-policy", "lifecycle-rule", "tag-set"],
            safe_operations: vec!["list", "inspect", "create_bucket", "delete_bucket"],
        },
    );
    v.push(
        StaticServiceDescriptor {
            key: "dynamodb",
            label: "DynamoDB",
            category: ServiceCategory::Data,
            description: "Tables, streams, item counts, indexes, and TTL state.",
            domain_epic: "Data and storage",
            support_level: ServiceSupportLevel::Managed,
            primary_resource_kinds: vec!["table", "global-secondary-index", "local-secondary-index", "stream", "ttl", "backup"],
            safe_operations: vec!["list", "inspect", "create_table", "delete_table"],
        },
    );
    v.push(
        StaticServiceDescriptor {
            key: "dynamodbstreams",
            label: "DynamoDB Streams",
            category: ServiceCategory::Data,
            description: "Table stream shards, sequence ranges, and stream status.",
            domain_epic: "Data and storage",
            support_level: ServiceSupportLevel::ReadOnly,
            primary_resource_kinds: vec!["stream", "shard"],
            safe_operations: vec!["list", "inspect"],
        },
    );
    v.push(
        StaticServiceDescriptor {
            key: "rds",
            label: "RDS",
            category: ServiceCategory::Data,
            description: "Instances, clusters, subnet groups, and snapshots.",
            domain_epic: "Data and storage",
            support_level: ServiceSupportLevel::ReadOnly,
            primary_resource_kinds: vec!["db-instance", "db-cluster", "snapshot", "subnet-group", "parameter-group"],
            safe_operations: vec!["list", "inspect"],
        },
    );
    v.push(
        StaticServiceDescriptor {
            key: "elasticache",
            label: "ElastiCache",
            category: ServiceCategory::Data,
            description: "Redis/Valkey clusters, users, and auth settings.",
            domain_epic: "Data and storage",
            support_level: ServiceSupportLevel::ReadOnly,
            primary_resource_kinds: vec!["cache-cluster", "replication-group", "user", "subnet-group"],
            safe_operations: vec!["list", "inspect"],
        },
    );
    v.push(
        StaticServiceDescriptor {
            key: "opensearch",
            label: "OpenSearch",
            category: ServiceCategory::Data,
            description: "Domains, endpoints, and backing container state.",
            domain_epic: "Data and storage",
            support_level: ServiceSupportLevel::ReadOnly,
            primary_resource_kinds: vec!["domain", "endpoint", "index-hint", "access-policy"],
            safe_operations: vec!["list", "inspect"],
        },
    );
    v.push(
        StaticServiceDescriptor {
            key: "glue",
            label: "Glue",
            category: ServiceCategory::Data,
            description: "Catalog databases, tables, crawlers, jobs, and connections.",
            domain_epic: "Data and storage",
            support_level: ServiceSupportLevel::ReadOnly,
            primary_resource_kinds: vec!["database", "table", "connection", "job", "crawler"],
            safe_operations: vec!["list", "inspect"],
        },
    );
    v.push(
        StaticServiceDescriptor {
            key: "athena",
            label: "Athena",
            category: ServiceCategory::Data,
            description: "Workgroups, data catalogs, named queries, and result metadata.",
            domain_epic: "Data and storage",
            support_level: ServiceSupportLevel::ReadOnly,
            primary_resource_kinds: vec!["workgroup", "named-query", "result-metadata", "data-catalog"],
            safe_operations: vec!["list", "inspect"],
        },
    );
    v.push(
        StaticServiceDescriptor {
            key: "firehose",
            label: "Data Firehose",
            category: ServiceCategory::Data,
            description: "Delivery streams, destinations, and buffering state.",
            domain_epic: "Data and storage",
            support_level: ServiceSupportLevel::ReadOnly,
            primary_resource_kinds: vec!["delivery-stream", "destination"],
            safe_operations: vec!["list", "inspect"],
        },
    );
    v.push(
        StaticServiceDescriptor {
            key: "backup",
            label: "AWS Backup",
            category: ServiceCategory::Data,
            description: "Backup vaults, plans, jobs, and recovery points.",
            domain_epic: "Data and storage",
            support_level: ServiceSupportLevel::ReadOnly,
            primary_resource_kinds: vec!["backup-vault", "backup-plan", "backup-job", "recovery-point"],
            safe_operations: vec!["list", "inspect"],
        },
    );
    assert(static_views(v@) =~= data_and_storage_entries());
    v
}
/// Catalog entries of the "Messaging, events, and workflows" group.
pub open spec fn messaging_and_events_entries() -> Seq<DescriptorView> {
    seq![
        entry_view(
            "sqs",
            "SQS",
            ServiceCategory::Messaging,
            "Queues, attributes, redrive policy, and queue depth.",
            "Messaging, events, and workflows",
            ServiceSupportLevel::Managed,
            seq!["queue", "dead-letter-queue", "queue-attribute", "message"],
            seq!["list", "inspect", "create_queue", "send_message", "purge_queue", "delete_queue"],
        ),
        entry_view(
            "sns",
            "SNS",
            ServiceCategory::Messaging,
            "Topics, subscriptions, and delivery policies.",
            "Messaging, events, and workflows",
            ServiceSupportLevel::Managed,
            seq!["topic", "subscription", "policy", "delivery-policy"],
            seq!["list", "inspect", "create_topic", "publish_message", "subscribe_endpoint", "delete_topic", "delete_subscription"],
        ),
        entry_view(
            "ses",
            "SES",
            ServiceCategory::Messaging,
            "Identities, templates, suppression lists, and send state.",
            "Messaging, events, and workflows",
            ServiceSupportLevel::ReadOnly,
            seq!["identity", "template", "configuration-set", "suppression", "send-statistic"],
            seq!["list", "inspect"],
        ),
        entry_view(
            "sesv2",
            "SES v2",
            ServiceCategory::Messaging,
            "Email identities, configuration sets, and contact lists.",
            "Messaging, events, and workflows",
            ServiceSupportLevel::ReadOnly,
            seq!["email-identity", "template", "configuration-set", "contact-list", "account-setting", "suppression"],
            seq!["list", "inspect"],
        ),
        entry_view(
            "kinesis",
            "Kinesis",
            ServiceCategory::Messaging,
            "Streams, shards, consumers, and retention settings.",
            "Messaging, events, and workflows",
            ServiceSupportLevel::Managed,
            seq!["stream", "shard", "consumer", "metric"],
            seq!["list", "inspect", "create_stream", "put_record", "delete_stream"],
        ),
        entry_view(
            "eventbridge",
            "EventBridge",
            ServiceCategory::Messaging,
            "Event buses, rules, targets, and archives.",
            "Messaging, events, and workflows",
            ServiceSupportLevel::Managed,
            seq!["event-bus", "rule", "target", "archive", "replay"],
            seq!["list", "inspect", "create_event_bus", "put_event", "create_rule", "delete_event_bus", "delete_rule"],
        ),
        entry_view(
            "scheduler",
            "EventBridge Scheduler",
            ServiceCategory::Messaging,
            "Schedules, schedule groups, targets, and flexible windows.",
            "Messaging, events, and workflows",
            ServiceSupportLevel::ReadOnly,
            seq!["schedule", "schedule-group", "target"],
            seq!["list", "inspect"],
        ),
        entry_view(
            "stepfunctions",
            "Step Functions",
            ServiceCategory::Messaging,
            "State machines, executions, activities, and aliases.",
            "Messaging, events, and workflows",
            ServiceSupportLevel::Managed,
            seq!["state-machine", "execution", "activity", "definition", "alias"],
            seq!["list", "inspect", "create_state_machine", "start_execution", "stop_execution", "delete_state_machine"],
        ),
        entry_view(
            "cloudformation",
            "CloudFormation",
            ServiceCategory::Messaging,
            "Stacks, change sets, templates, and stack events.",
            "Messaging, events, and workflows",
            ServiceSupportLevel::Managed,
            seq!["stack", "stack-resource", "stack-event", "change-set", "parameter"],
            seq!["list", "inspect", "create_stack", "view_stack_events", "delete_stack"],
        ),
    ]
}

fn messaging_and_events_descriptors() -> (v: Vec<StaticServiceDescriptor>)
    ensures
        static_views(v@) == messaging_and_events_entries(),
{
    let mut v: Vec<StaticServiceDescriptor> = Vec::new();
    v.push(
        StaticServiceDescriptor {
            key: "sqs",
            label: "SQS",
            category: ServiceCategory::Messaging,
            description: "Queues, attributes, redrive policy, and queue depth.",
            domain_epic: "Messaging, events, and workflows",
            support_level: ServiceSupportLevel::Managed,
            primary_resource_kinds: vec!["queue", "dead-letter-queue", "queue-attribute", "message"],
            safe_operations: vec!["list", "inspect", "create_queue", "send_message", "purge_queue", "delete_queue"],
        },
    );
    v.push(
        StaticServiceDescriptor {
            key: "sns",
            label: "SNS",
            category: ServiceCategory::Messaging,
            description: "Topics, subscriptions, and delivery policies.",
            domain_epic: "Messaging, events, and workflows",
            support_level: ServiceSupportLevel::Managed,
            primary_resource_kinds: vec!["topic", "subscription", "policy", "delivery-policy"],
            safe_operations: vec!["list", "inspect", "create_topic", "publish_message", "subscribe_endpoint", "delete_topic", "delete_subscription"],
        },
    );
    v.push(
        StaticServiceDescriptor {
            key: "ses",
            label: "SES",
            category: ServiceCategory::Messaging,
            description: "Identities, templates, suppression lists, and send state.",
            domain_epic: "Messaging, events, and workflows",
            support_level: ServiceSupportLevel::ReadOnly,
            primary_resource_kinds: vec!["identity", "template", "configuration-set", "suppression", "send-statistic"],
            safe_operations: vec!["list", "inspect"],
        },
    );
    v.push(
        StaticServiceDescriptor {
            key: "sesv2",
            label: "SES v2",
            category: ServiceCategory::Messaging,
            description: "Email identities, configuration sets, and contact lists.",
            domain_epic: "Messaging, events, and workflows",
            support_level: ServiceSupportLevel::ReadOnly,
            primary_resource_kinds: vec!["email-identity", "template", "configuration-set", "contact-list", "account-setting", "suppression"],
            safe_operations: vec!["list", "inspect"],
        },
    );
    v.push(
        StaticServiceDescriptor {
            key: "kinesis",
            label: "Kinesis",
            category: ServiceCategory::Messaging,
            description: "Streams, shards, consumers, and retention settings.",
            domain_epic: "Messaging, events, and workflows",
            support_level: ServiceSupportLevel::Managed,
            primary_resource_kinds: vec!["stream", "shard", "consumer", "metric"],
            safe_operations: vec!["list", "inspect", "create_stream", "put_record", "delete_stream"],
        },
    );
    v.push(
        StaticServiceDescriptor {
            key: "eventbridge",
            label: "EventBridge",
            category: ServiceCategory::Messaging,
            description: "Event buses, rules, targets, and archives.",
            domain_epic: "Messaging, events, and workflows",
            support_level: ServiceSupportLevel::Managed,
            primary_resource_kinds: vec!["event-bus", "rule", "target", "archive", "replay"],
            safe_operations: vec!["list", "inspect", "create_event_bus", "put_event", "create_rule", "delete_event_bus", "delete_rule"],
        },
    );
    v.push(
        StaticServiceDescriptor {
            key: "scheduler",
            label: "EventBridge Scheduler",
            category: ServiceCategory::Messaging,
            description: "Schedules, schedule groups, targets, and flexible windows.",
            domain_epic: "Messaging, events, and workflows",
            support_level: ServiceSupportLevel::ReadOnly,
            primary_resource_kinds: vec!["schedule", "schedule-group", "target"],
            safe_operations: vec!["list", "inspect"],
        },
    );
    v.push(
        StaticServiceDescriptor {
            key: "stepfunctions",
            label: "Step Functions",
            category: ServiceCategory::Messaging,
            description: "State machines, executions, activities, and aliases.",
            domain_epic: "Messaging, events, and workflows",
            support_level: ServiceSupportLevel::Managed,
            primary_resource_kinds: vec!["state-machine", "execution", "activity", "definition", "alias"],
            safe_operations: vec!["list", "inspect", "create_state_machine", "start_execution", "stop_execution", "delete_state_machine"],
        },
    );
    v.push(
        StaticServiceDescriptor {
            key: "cloudformation",
            label: "CloudFormation",
            category: ServiceCategory::Messaging,
            description: "Stacks, change sets, templates, and stack events.",
            domain_epic: "Messaging, events, and workflows",
            support_level: ServiceSupportLevel::Managed,
            primary_resource_kinds: vec!["stack", "stack-resource", "stack-event", "change-set", "parameter"],
            safe_operations: vec!["list", "inspect", "create_stack", "view_stack_events", "delete_stack"],
        },
    );
    assert(static_views(v@) =~= messaging_and_events_entries());
    v
}
/// Catalog entries of the "Compute, container, and build" group.
pub open spec fn compute_and_build_entries() -> Seq<DescriptorView> {
    seq![
        entry_view(
            "lambda",
            "Lambda",
            ServiceCategory::Compute,
            "Functions, versions, aliases, event sources, and runtime metadata.",
            "Compute, container, and build",
            ServiceSupportLevel::Managed,
            seq!["function", "version", "alias", "event-source-mapping", "configuration"],
            seq!["list", "inspect", "create_function", "invoke_function", "delete_function"],
        ),
        entry_view(
            "ec2",
            "EC2",
            ServiceCategory::Compute,
            "Instances, VPCs, security groups, key pairs, subnets, and volumes.",
            "Compute, container, and build",
            ServiceSupportLevel::Managed,
            seq!["instance", "vpc", "subnet", "security-group", "key-pair", "image", "volume"],
            seq!["list", "inspect", "start_instance", "stop_instance"],
        ),
        entry_view(
            "ecs",
            "ECS",
            ServiceCategory::Compute,
            "Clusters, services, tasks, and task definitions.",
            "Compute, container, and build",
            ServiceSupportLevel::Managed,
            seq!["cluster", "service", "task", "task-definition", "container-instance"],
            seq!["list", "inspect", "run_task", "stop_task", "update_service_desired_count"],
        ),
        entry_view(
            "eks",
            "EKS",
            ServiceCategory::Compute,
            "Clusters, node groups, add-ons, and Kubernetes endpoint metadata.",
            "Compute, container, and build",
            ServiceSupportLevel::ReadOnly,
            seq!["cluster", "node-group", "addon"],
            seq!["list", "inspect"],
        ),
        entry_view(
            "ecr",
            "ECR",
            ServiceCategory::Compute,
            "Repositories, images, lifecycle policies, and scan findings.",
            "Compute, container, and build",
            ServiceSupportLevel::Managed,
            seq!["repository", "image", "tag"],
            seq!["list", "inspect", "create_repository", "delete_repository", "delete_image"],
        ),
        entry_view(
            "msk",
            "MSK",
            ServiceCategory::Compute,
            "Kafka clusters, configurations, brokers, and topic hints.",
            "Compute, container, and build",
            ServiceSupportLevel::ReadOnly,
            seq!["cluster", "broker", "configuration"],
            seq!["list", "inspect"],
        ),
        entry_view(
            "codebuild",
            "CodeBuild",
            ServiceCategory::Compute,
            "Projects, builds, build batches, and report groups.",
            "Compute, container, and build",
            ServiceSupportLevel::Managed,
            seq!["project", "build", "report"],
            seq!["list", "inspect", "start_build"],
        ),
        entry_view(
            "codedeploy",
            "CodeDeploy",
            ServiceCategory::Compute,
            "Applications, deployments, deployment groups, and revisions.",
            "Compute, container, and build",
            ServiceSupportLevel::Managed,
            seq!["application", "deployment-group", "deployment"],
            seq!["list", "inspect", "create_deployment"],
        ),
        entry_view(
            "autoscaling",
            "Auto Scaling",
            ServiceCategory::Compute,
            "Auto Scaling groups, launch configurations, and scaling policies.",
            "Compute, container, and build",
            ServiceSupportLevel::Managed,
            seq!["auto-scaling-group", "scaling-instance", "launch-configuration", "scaling-policy", "lifecycle-hook"],
            seq!["list", "inspect", "update_desired_capacity"],
        ),
        entry_view(
            "bedrockruntime",
            "Bedrock Runtime",
            ServiceCategory::Compute,
            "Model invocations, jobs, and local runtime request traces.",
            "Compute, container, and build",
            ServiceSupportLevel::Managed,
            seq!["model", "invocation", "request-template", "response-preview"],
            seq!["list", "inspect", "invoke_model"],
        ),
    ]
}

fn compute_and_build_descriptors() -> (v: Vec<StaticServiceDescriptor>)
    ensures
        static_views(v@) == compute_and_build_entries(),
{
    let mut v: Vec<StaticServiceDescriptor> = Vec::new();
    v.push(
        StaticServiceDescriptor {
            key: "lambda",
            label: "Lambda",
            category: ServiceCategory::Compute,
            description: "Functions, versions, aliases, event sources, and runtime metadata.",
            domain_epic: "Compute, container, and build",
            support_level: ServiceSupportLevel::Managed,
            primary_resource_kinds: vec!["function", "version", "alias", "event-source-mapping", "configuration"],
            safe_operations: vec!["list", "inspect", "create_function", "invoke_function", "delete_function"],
        },
    );
    v.push(
        StaticServiceDescriptor {
            key: "ec2",
            label: "EC2",
            category: ServiceCategory::Compute,
            description: "Instances, VPCs, security groups, key pairs, subnets, and volumes.",
            domain_epic: "Compute, container, and build",
            support_level: ServiceSupportLevel::Managed,
            primary_resource_kinds: vec!["instance", "vpc", "subnet", "security-group", "key-pair", "image", "volume"],
            safe_operations: vec!["list", "inspect", "start_instance", "stop_instance"],
        },
    );
    v.push(
        StaticServiceDescriptor {
            key: "ecs",
            label: "ECS",
            category: ServiceCategory::Compute,
            description: "Clusters, services, tasks, and task definitions.",
            domain_epic: "Compute, container, and build",
            support_level: ServiceSupportLevel::Managed,
            primary_resource_kinds: vec!["cluster", "service", "task", "task-definition", "container-instance"],
            safe_operations: vec!["list", "inspect", "run_task", "stop_task", "update_service_desired_count"],
        },
    );
    v.push(
        StaticServiceDescriptor {
            key: "eks",
            label: "EKS",
            category: ServiceCategory::Compute,
            description: "Clusters, node groups, add-ons, and Kubernetes endpoint metadata.",
            domain_epic: "Compute, container, and build",
            support_level: ServiceSupportLevel::ReadOnly,
            primary_resource_kinds: vec!["cluster", "node-group", "addon"],
            safe_operations: vec!["list", "inspect"],
        },
    );
    v.push(
        StaticServiceDescriptor {
            key: "ecr",
            label: "ECR",
            category: ServiceCategory::Compute,
            description: "Repositories, images, lifecycle policies, and scan findings.",
            domain_epic: "Compute, container, and build",
            support_level: ServiceSupportLevel::Managed,
            primary_resource_kinds: vec!["repository", "image", "tag"],
            safe_operations: vec!["list", "inspect", "create_repository", "delete_repository", "delete_image"],
        },
    );
    v.push(
        StaticServiceDescriptor {
            key: "msk",
            label: "MSK",
            category: ServiceCategory::Compute,
            description: "Kafka clusters, configurations, brokers, and topic hints.",
            domain_epic: "Compute, container, and build",
            support_level: ServiceSupportLevel::ReadOnly,
            primary_resource_kinds: vec!["cluster", "broker", "configuration"],
            safe_operations: vec!["list", "inspect"],
        },
    );
    v.push(
        StaticServiceDescriptor {
            key: "codebuild",
            label: "CodeBuild",
            category: ServiceCategory::Compute,
            description: "Projects, builds, build batches, and report groups.",
            domain_epic: "Compute, container, and build",
            support_level: ServiceSupportLevel::Managed,
            primary_resource_kinds: vec!["project", "build", "report"],
            safe_operations: vec!["list", "inspect", "start_build"],
        },
    );
    v.push(
        StaticServiceDescriptor {
            key: "codedeploy",
            label: "CodeDeploy",
            category: ServiceCategory::Compute,
            description: "Applications, deployments, deployment groups, and revisions.",
            domain_epic: "Compute, container, and build",
            support_level: ServiceSupportLevel::Managed,
            primary_resource_kinds: vec!["application", "deployment-group", "deployment"],
            safe_operations: vec!["list", "inspect", "create_deployment"],
        },
    );
    v.push(
        StaticServiceDescriptor {
            key: "autoscaling",
            label: "Auto Scaling",
            category: ServiceCategory::Compute,
            description: "Auto Scaling groups, launch configurations, and scaling policies.",
            domain_epic: "Compute, container, and build",
            support_level: ServiceSupportLevel::Managed,
            primary_resource_kinds: vec!["auto-scaling-group", "scaling-instance", "launch-configuration", "scaling-policy", "lifecycle-hook"],
            safe_operations: vec!["list", "inspect", "update_desired_capacity"],
        },
    );
    v.push(
        StaticServiceDescriptor {
            key: "bedrockruntime",
            label: "Bedrock Runtime",
            category: ServiceCategory::Compute,
            description: "Model invocations, jobs, and local runtime request traces.",
            domain_epic: "Compute, container, and build",
            support_level: ServiceSupportLevel::Managed,
            primary_resource_kinds: vec!["model", "invocation", "request-template", "response-preview"],
            safe_operations: vec!["list", "inspect", "invoke_model"],
        },
    );
    assert(static_views(v@) =~= compute_and_build_entries());
    v
}
/// Catalog entries of the "Security and configuration" group.
pub open spec fn security_and_config_entries() -> Seq<DescriptorView> {
    seq![
        entry_view(
            "iam",
            "IAM",
            ServiceCategory::Security,
            "Users, roles, groups, policies, and access keys.",
            "Security and configuration",
            ServiceSupportLevel::Managed,
            seq!["user", "role", "group", "policy", "access-key", "instance-profile"],
            seq!["list", "inspect", "create_user", "delete_user", "create_role", "delete_role", "create_policy", "delete_policy", "create_access_key", "delete_access_key"],
        ),
        entry_view(
            "sts",
            "STS",
            ServiceCategory::Security,
            "Caller identity, sessions, and token metadata.",
            "Security and configuration",
            ServiceSupportLevel::ReadOnly,
            seq!["caller-identity", "session"],
            seq!["list", "inspect"],
        ),
        entry_view(
            "cognito",
            "Cognito",
            ServiceCategory::Security,
            "User pools, app clients, identity providers, and groups.",
            "Security and configuration",
            ServiceSupportLevel::Managed,
            seq!["user-pool", "app-client", "user", "group", "identity-provider"],
            seq!["list", "inspect", "create_user_pool", "delete_user_pool", "create_user_pool_client", "delete_user_pool_client"],
        ),
        entry_view(
            "kms",
            "KMS",
            ServiceCategory::Security,
            "Keys, aliases, grants, and key policy metadata.",
            "Security and configuration",
            ServiceSupportLevel::Managed,
            seq!["key", "alias", "grant", "key-policy"],
            seq!["list", "inspect", "create_key", "create_alias", "disable_key", "schedule_key_deletion"],
        ),
        entry_view(
            "secretsmanager",
            "Secrets Manager",
            ServiceCategory::Security,
            "Secrets, versions, rotation settings, and tags.",
            "Security and configuration",
            ServiceSupportLevel::Managed,
            seq!["secret", "secret-version", "rotation", "tag-set"],
            seq!["list", "inspect", "reveal_secret_value", "rotate_secret"],
        ),
        entry_view(
            "ssm",
            "SSM",
            ServiceCategory::Core,
            "Parameters, run command state, documents, and managed instances.",
            "Security and configuration",
            ServiceSupportLevel::Managed,
            seq!["parameter", "command", "managed-instance", "document"],
            seq!["list", "inspect", "reveal_parameter_value"],
        ),
        entry_view(
            "appconfig",
            "AppConfig",
            ServiceCategory::Core,
            "Applications, environments, configuration profiles, and deployments.",
            "Security and configuration",
            ServiceSupportLevel::Managed,
            seq!["application", "environment", "configuration-profile", "hosted-version", "deployment"],
            seq!["list", "inspect", "create_application", "create_environment", "create_configuration_profile", "create_hosted_version", "start_deployment"],
        ),
        entry_view(
            "appconfigdata",
            "AppConfig Data",
            ServiceCategory::Core,
            "Configuration sessions, tokens, and fetched configuration payload metadata.",
            "Security and configuration",
            ServiceSupportLevel::ReadOnly,
            seq!["session-preview", "configuration-preview"],
            seq!["list", "inspect"],
        ),
        entry_view(
            "acm",
            "ACM",
            ServiceCategory::Security,
            "Certificates, domain validation records, and renewal metadata.",
            "Security and configuration",
            ServiceSupportLevel::Managed,
            seq!["certificate", "domain", "validation", "tag-set"],
            seq!["list", "inspect"],
        ),
    ]
}

fn security_and_config_descriptors() -> (v: Vec<StaticServiceDescriptor>)
    ensures
        static_views(v@) == security_and_config_entries(),
{
    let mut v: Vec<StaticServiceDescriptor> = Vec::new();
    v.push(
        StaticServiceDescriptor {
            key: "iam",
            label: "IAM",
            category: ServiceCategory::Security,
            description: "Users, roles, groups, policies, and access keys.",
            domain_epic: "Security and configuration",
            support_level: ServiceSupportLevel::Managed,
            primary_resource_kinds: vec!["user", "role", "group", "policy", "access-key", "instance-profile"],
            safe_operations: vec!["list", "inspect", "create_user", "delete_user", "create_role", "delete_role", "create_policy", "delete_policy", "create_access_key", "delete_access_key"],
        },
    );
    v.push(
        StaticServiceDescriptor {
            key: "sts",
            label: "STS",
            category: ServiceCategory::Security,
            description: "Caller identity, sessions, and token metadata.",
            domain_epic: "Security and configuration",
            support_level: ServiceSupportLevel::ReadOnly,
            primary_resource_kinds: vec!["caller-identity", "session"],
            safe_operations: vec!["list", "inspect"],
        },
    );
    v.push(
        StaticServiceDescriptor {
            key: "cognito",
            label: "Cognito",
            category: ServiceCategory::Security,
            description: "User pools, app clients, identity providers, and groups.",
            domain_epic: "Security and configuration",
            support_level: ServiceSupportLevel::Managed,
            primary_resource_kinds: vec!["user-pool", "app-client", "user", "group", "identity-provider"],
            safe_operations: vec!["list", "inspect", "create_user_pool", "delete_user_pool", "create_user_pool_client", "delete_user_pool_client"],
        },
    );
    v.push(
        StaticServiceDescriptor {
            key: "kms",
            label: "KMS",
            category: ServiceCategory::Security,
            description: "Keys, aliases, grants, and key policy metadata.",
            domain_epic: "Security and configuration",
            support_level: ServiceSupportLevel::Managed,
            primary_resource_kinds: vec!["key", "alias", "grant", "key-policy"],
            safe_operations: vec!["list", "inspect", "create_key", "create_alias", "disable_key", "schedule_key_deletion"],
        },
    );
    v.push(
        StaticServiceDescriptor {
            key: "secretsmanager",
            label: "Secrets Manager",
            category: ServiceCategory::Security,
            description: "Secrets, versions, rotation settings, and tags.",
            domain_epic: "Security and configuration",
            support_level: ServiceSupportLevel::Managed,
            primary_resource_kinds: vec!["secret", "secret-version", "rotation", "tag-set"],
            safe_operations: vec!["list", "inspect", "reveal_secret_value", "rotate_secret"],
        },
    );
    v.push(
        StaticServiceDescriptor {
            key: "ssm",
            label: "SSM",
            category: ServiceCategory::Core,
            description: "Parameters, run command state, documents, and managed instances.",
            domain_epic: "Security and configuration",
            support_level: ServiceSupportLevel::Managed,
            primary_resource_kinds: vec!["parameter", "command", "managed-instance", "document"],
            safe_operations: vec!["list", "inspect", "reveal_parameter_value"],
        },
    );
    v.push(
        StaticServiceDescriptor {
            key: "appconfig",
            label: "AppConfig",
            category: ServiceCategory::Core,
            description: "Applications, environments, configuration profiles, and deployments.",
            domain_epic: "Security and configuration",
            support_level: ServiceSupportLevel::Managed,
            primary_resource_kinds: vec!["application", "environment", "configuration-profile", "hosted-version", "deployment"],
            safe_operations: vec!["list", "inspect", "create_application", "create_environment", "create_configuration_profile", "create_hosted_version", "start_deployment"],
        },
    );
    v.push(
        StaticServiceDescriptor {
            key: "appconfigdata",
            label: "AppConfig Data",
            category: ServiceCategory::Core,
            description: "Configuration sessions, tokens, and fetched configuration payload metadata.",
            domain_epic: "Security and configuration",
            support_level: ServiceSupportLevel::ReadOnly,
            primary_resource_kinds: vec!["session-preview", "configuration-preview"],
            safe_operations: vec!["list", "inspect"],
        },
    );
    v.push(
        StaticServiceDescriptor {
            key: "acm",
            label: "ACM",
            category: ServiceCategory::Security,
            description: "Certificates, domain validation records, and renewal metadata.",
            domain_epic: "Security and configuration",
            support_level: ServiceSupportLevel::Managed,
            primary_resource_kinds: vec!["certificate", "domain", "validation", "tag-set"],
            safe_operations: vec!["list", "inspect"],
        },
    );
    assert(static_views(v@) =~= security_and_config_entries());
    v
}
/// Catalog entries of the "Network, observability, and edge" group.
pub open spec fn network_and_observability_entries() -> Seq<DescriptorView> {
    seq![
        entry_view(
            "apigateway",
            "API Gateway",
            ServiceCategory::Networking,
            "REST APIs, resources, methods, integrations, and stages.",
            "Network, observability, and edge",
            ServiceSupportLevel::Managed,
            seq!["rest-api", "resource", "method", "integration", "deployment", "stage"],
            seq!["list", "inspect", "create_rest_api", "create_resource", "put_method", "put_integration", "create_deployment", "delete_rest_api"],
        ),
        entry_view(
            "apigatewayv2",
            "API Gateway v2",
            ServiceCategory::Networking,
            "HTTP/WebSocket APIs, routes, integrations, deployments, and stages.",
            "Network, observability, and edge",
            ServiceSupportLevel::Managed,
            seq!["api", "route", "integration", "deployment", "stage", "authorizer"],
            seq!["list", "inspect", "create_api", "create_route", "create_integration", "create_deployment", "delete_api"],
        ),
        entry_view(
            "elbv2",
            "Elastic Load Balancing v2",
            ServiceCategory::Networking,
            "Load balancers, listeners, target groups, and target health.",
            "Network, observability, and edge",
            ServiceSupportLevel::Managed,
            seq!["load-balancer", "listener", "listener-rule", "target-group", "target"],
            seq!["list", "inspect", "create_target_group", "register_target", "deregister_target", "delete_listener", "delete_load_balancer"],
        ),
        entry_view(
            "route53",
            "Route 53",
            ServiceCategory::Networking,
            "Hosted zones, record sets, reusable delegation sets, and health checks.",
            "Network, observability, and edge",
            ServiceSupportLevel::Managed,
            seq!["hosted-zone", "record-set", "health-check", "change-batch"],
            seq!["list", "inspect", "create_hosted_zone", "upsert_record", "delete_record"],
        ),
        entry_view(
            "transfer",
            "Transfer Family",
            ServiceCategory::Networking,
            "Servers, users, workflows, host keys, and identity provider state.",
            "Network, observability, and edge",
            ServiceSupportLevel::Managed,
            seq!["server", "user", "workflow", "host-key"],
            seq!["list", "inspect", "create_server", "create_user", "delete_user", "delete_server"],
        ),
        entry_view(
            "cloudwatchlogs",
            "CloudWatch Logs",
            ServiceCategory::Observability,
            "Log groups, log streams, metric filters, and query metadata.",
            "Network, observability, and edge",
            ServiceSupportLevel::Managed,
            seq!["log-group", "log-stream", "log-event", "metric-filter", "subscription-filter"],
            seq!["list", "inspect", "create_log_group", "tail_recent_events", "delete_log_group"],
        ),
        entry_view(
            "cloudwatch",
            "CloudWatch",
            ServiceCategory::Observability,
            "Metrics, alarms, dashboards, and alarm history.",
            "Network, observability, and edge",
            ServiceSupportLevel::Managed,
            seq!["metric", "alarm", "dashboard", "query-result"],
            seq!["list", "inspect", "query_metric_data", "create_alarm", "delete_alarm"],
        ),
    ]
}

fn network_and_observability_descriptors() -> (v: Vec<StaticServiceDescriptor>)
    ensures
        static_views(v@) == network_and_observability_entries(),
{
    let mut v: Vec<StaticServiceDescriptor> = Vec::new();
    v.push(
        StaticServiceDescriptor {
            key: "apigateway",
            label: "API Gateway",
            category: ServiceCategory::Networking,
            description: "REST APIs, resources, methods, integrations, and stages.",
            domain_epic: "Network, observability, and edge",
            support_level: ServiceSupportLevel::Managed,
            primary_resource_kinds: vec!["rest-api", "resource", "method", "integration", "deployment", "stage"],
            safe_operations: vec!["list", "inspect", "create_rest_api", "create_resource", "put_method", "put_integration", "create_deployment", "delete_rest_api"],
        },
    );
    v.push(
        StaticServiceDescriptor {
            key: "apigatewayv2",
            label: "API Gateway v2",
            category: ServiceCategory::Networking,
            description: "HTTP/WebSocket APIs, routes, integrations, deployments, and stages.",
            domain_epic: "Network, observability, and edge",
            support_level: ServiceSupportLevel::Managed,
            primary_resource_kinds: vec!["api", "route", "integration", "deployment", "stage", "authorizer"],
            safe_operations: vec!["list", "inspect", "create_api", "create_route", "create_integration", "create_deployment", "delete_api"],
        },
    );
    v.push(
        StaticServiceDescriptor {
            key: "elbv2",
            label: "Elastic Load Balancing v2",
            category: ServiceCategory::Networking,
            description: "Load balancers, listeners, target groups, and target health.",
            domain_epic: "Network, observability, and edge",
            support_level: ServiceSupportLevel::Managed,
            primary_resource_kinds: vec!["load-balancer", "listener", "listener-rule", "target-group", "target"],
            safe_operations: vec!["list", "inspect", "create_target_group", "register_target", "deregister_target", "delete_listener", "delete_load_balancer"],
        },
    );
    v.push(
        StaticServiceDescriptor {
            key: "route53",
            label: "Route 53",
            category: ServiceCategory::Networking,
            description: "Hosted zones, record sets, reusable delegation sets, and health checks.",
            domain_epic: "Network, observability, and edge",
            support_level: ServiceSupportLevel::Managed,
            primary_resource_kinds: vec!["hosted-zone", "record-set", "health-check", "change-batch"],
            safe_operations: vec!["list", "inspect", "create_hosted_zone", "upsert_record", "delete_record"],
        },
    );
    v.push(
        StaticServiceDescriptor {
            key: "transfer",
            label: "Transfer Family",
            category: ServiceCategory::Networking,
            description: "Servers, users, workflows, host keys, and identity provider state.",
            domain_epic: "Network, observability, and edge",
            support_level: ServiceSupportLevel::Managed,
            primary_resource_kinds: vec!["server", "user", "workflow", "host-key"],
            safe_operations: vec!["list", "inspect", "create_server", "create_user", "delete_user", "delete_server"],
        },
    );
    v.push(
        StaticServiceDescriptor {
            key: "cloudwatchlogs",
            label: "CloudWatch Logs",
            category: ServiceCategory::Observability,
            description: "Log groups, log streams, metric filters, and query metadata.",
            domain_epic: "Network, observability, and edge",
            support_level: ServiceSupportLevel::Managed,
            primary_resource_kinds: vec!["log-group", "log-stream", "log-event", "metric-filter", "subscription-filter"],
            safe_operations: vec!["list", "inspect", "create_log_group", "tail_recent_events", "delete_log_group"],
        },
    );
    v.push(
        StaticServiceDescriptor {
            key: "cloudwatch",
            label: "CloudWatch",
            category: ServiceCategory::Observability,
            description: "Metrics, alarms, dashboards, and alarm history.",
            domain_epic: "Network, observability, and edge",
            support_level: ServiceSupportLevel::Managed,
            primary_resource_kinds: vec!["metric", "alarm", "dashboard", "query-result"],
            safe_operations: vec!["list", "inspect", "query_metric_data", "create_alarm", "delete_alarm"],
        },
    );
    assert(static_views(v@) =~= network_and_observability_entries());
    v
}
/// The whole catalog, in display order.
pub open spec fn registry() -> Seq<DescriptorView> {
data_and_storage_entries() + messaging_and_events_entries() + compute_and_build_entries() + security_and_config_entries() + network_and_observability_entries()
}

/// The whole catalog, in display order.
pub fn service_descriptors() -> (v: Vec<StaticServiceDescriptor>)
    ensures
        static_views(v@) == registry(),
{
    let mut v = data_and_storage_descriptors();
    let mut more = messaging_and_events_descriptors();
    v.append(&mut more);
    let mut more = compute_and_build_descriptors();
    v.append(&mut more);
    let mut more = security_and_config_descriptors();
    v.append(&mut more);
    let mut more = network_and_observability_descriptors();
    v.append(&mut more);
    assert(static_views(v@) =~= registry());
    v
}

/// The views of the texts of `v`.
fn strings_of(v: &Vec<&'static str>) -> (r: Vec<String>)
    ensures
        r.deep_view() == texts(v@),
{
    let mut r: Vec<String> = Vec::new();
    let mut i: usize = 0;
    while i < v.len()
        invariant
            0 <= i <= v@.len(),
            r.deep_view() =~= texts(v@).subrange(0, i as int),
        decreases v@.len() - i,
    {
        let ghost prev = r.deep_view();
        r.push(String::from_str(v[i]));
        assert(r.deep_view() =~= prev.push(v@[i as int]@));
        assert(texts(v@).subrange(0, i + 1) =~= texts(v@).subrange(0, i as int).push(v@[i as int]@));
        i = i + 1;
    }
    r
}

/// The catalog entry as the dashboard lists it.
fn to_service_descriptor(d: &StaticServiceDescriptor) -> (r: ServiceDescriptor)
    ensures
        r@ == d@,
{
    ServiceDescriptor {
        key: String::from_str(d.key),
        label: String::from_str(d.label),
        category: d.category,
        description: String::from_str(d.description),
        domain_epic: String::from_str(d.domain_epic),
        support_level: d.support_level,
        primary_resource_kinds: strings_of(&d.primary_resource_kinds),
        safe_operations: strings_of(&d.safe_operations),
    }
}

/// Every service of the catalog, in display order.
pub fn services() -> (v: Vec<ServiceDescriptor>)
    ensures
        descriptor_views(v@) == registry(),
{
    let all = service_descriptors();
    let mut v: Vec<ServiceDescriptor> = Vec::new();
    let mut i: usize = 0;
    while i < all.len()
        invariant
            0 <= i <= all@.len(),
            static_views(all@) == registry(),
            descriptor_views(v@) =~= static_views(all@).subrange(0, i as int),
        decreases all@.len() - i,
    {
        let ghost prev = descriptor_views(v@);
        v.push(to_service_descriptor(&all[i]));
        assert(descriptor_views(v@) =~= prev.push(all@[i as int]@));
        assert(static_views(all@).subrange(0, i + 1) =~= static_views(all@).subrange(0, i as int).push(all@[i as int]@));
        i = i + 1;
    }
    v
}

/// The first entry at or after position `i` of `reg` whose key is `key`.
pub open spec fn find_entry_from(reg: Seq<DescriptorView>, key: Seq<char>, i: int) -> Option<
    DescriptorView,
>
    decreases reg.len() - i,
{
    if i < 0 || i >= reg.len() {
        None
    } else if reg[i].key == key {
        Some(reg[i])
    } else {
        find_entry_from(reg, key, i + 1)
    }
}

/// The catalog entry of the service `key`.
pub open spec fn find_descriptor(key: Seq<char>) -> Option<DescriptorView> {
    find_entry_from(registry(), key, 0)
}

/// The catalog entry of the service `service_key`, if the catalog has one.
pub fn descriptor(service_key: &str) -> (r: Option<StaticServiceDescriptor>)
    ensures
        r matches Some(d) ==> find_descriptor(service_key@) == Some(d@),
        r is None ==> find_descriptor(service_key@) is None,
{
    let mut all = service_descriptors();
    let mut i: usize = 0;
    while i < all.len()
        invariant
            0 <= i <= all@.len(),
            static_views(all@) == registry(),
            find_entry_from(registry(), service_key@, i as int) == find_descriptor(service_key@),
        decreases all@.len() - i,
    {
        if crate::text::text_eq(all[i].key, service_key) {
            let d = all.remove(i);
            return Some(d);
        }
        i = i + 1;
    }
    None
}

/// One character of a kind written as a title: hyphens become spaces and
/// every word starts with an upper-case letter.
pub open spec fn title_char(s: Seq<char>, i: int) -> char {
    if s[i] == '-' {
        ' '
    } else if i == 0 || s[i - 1] == '-' {
        ascii_upper(s[i])
    } else {
        s[i]
    }
}

/// A hyphenated kind written as a title, such as `Object Prefix` for `object-prefix`.
pub open spec fn title_case(s: Seq<char>) -> Seq<char> {
    Seq::new(s.len(), |i: int| title_char(s, i))
}

/// Writes a hyphenated resource kind as a title.
pub fn title_case_kind(kind: &str) -> (r: String)
    ensures
        r@ == title_case(kind@),
{
    let n = kind.unicode_len();
    let mut out = String::new();
    let mut i: usize = 0;
    while i < n
        invariant
            n == kind@.len(),
            0 <= i <= n,
            out@ =~= title_case(kind@).subrange(0, i as int),
        decreases n - i,
    {
        let c = kind.get_char(i);
        let t = if c == '-' {
            ' '
        } else if i == 0 || kind.get_char(i - 1) == '-' {
            ascii_upper_char(c)
        } else {
            c
        };
        push_char(&mut out, t);
        i = i + 1;
    }
    out
}

/// The tab shown for kind `kind` of a service that has no adapter yet.
pub open spec fn unsupported_tab(label: Seq<char>, kind: Seq<char>) -> TabView {
    TabView {
        key: kind,
        label: title_case(kind),
        kinds: seq![kind],
        empty_message: label + " `"@ + kind + "` inventory is not available until an adapter is implemented."@,
    }
}

/// Operations listed as unavailable for a service that has no adapter yet.
pub open spec fn all_operations() -> Seq<Seq<char>> {
    seq!["list"@, "inspect"@, "create"@, "update"@, "delete"@]
}

/// The inventory of a catalogued service that has no adapter yet.
pub open spec fn unsupported_inventory_view(d: DescriptorView, refreshed_at: Seq<char>) -> InventoryView {
    InventoryView {
        service_key: d.key,
        service_label: d.label,
        support_level: ServiceSupportLevel::Unsupported,
        refreshed_at,
        tabs: d.primary_resource_kinds.map_values(|k: Seq<char>| unsupported_tab(d.label, k)),
        resources: Seq::empty(),
        unsupported_operations: all_operations(),
    }
}

/// The view of an inventory-or-error outcome.
pub open spec fn inventory_outcome(r: Result<ServiceInventory, ServiceManagementError>) -> Result<
    InventoryView,
    ErrorView,
> {
    match r {
        Ok(inv) => Ok(inv@),
        Err(e) => Err(e@),
    }
}

/// The outcome of asking for the inventory of a service without an adapter.
pub open spec fn unsupported_inventory_outcome(service_key: Seq<char>, refreshed_at: Seq<char>) -> Result<
    InventoryView,
    ErrorView,
> {
    match find_descriptor(service_key) {
        None => Err(unsupported_service_error(service_key)),
        Some(d) => Ok(unsupported_inventory_view(d, refreshed_at)),
    }
}

fn operation_names() -> (v: Vec<String>)
    ensures
        v.deep_view() == all_operations(),
{
    let mut v: Vec<String> = Vec::new();
    v.push(String::from_str("list"));
    v.push(String::from_str("inspect"));
    v.push(String::from_str("create"));
    v.push(String::from_str("update"));
    v.push(String::from_str("delete"));
    assert(v.deep_view() =~= all_operations());
    v
}

/// The inventory of a catalogued service that has no adapter yet, refreshed at `refreshed_at`.
pub fn unsupported_inventory_at(service_key: &str, refreshed_at: String) -> (r: Result<
    ServiceInventory,
    ServiceManagementError,
>)
    ensures
        inventory_outcome(r) == unsupported_inventory_outcome(service_key@, refreshed_at@),
{
    let Some(d) = descriptor(service_key) else {
        return Err(ServiceManagementError::unsupported_service(service_key));
    };
    let kinds = &d.primary_resource_kinds;
    let ghost label = d.label@;
    let ghost kind_views = texts(kinds@);
    let mut tabs: Vec<ResourceTab> = Vec::new();
    let mut i: usize = 0;
    while i < kinds.len()
        invariant
            0 <= i <= kinds@.len(),
            label == d.label@,
            kind_views == texts(kinds@),
            tab_views(tabs@) =~= kind_views.subrange(0, i as int).map_values(
                |k: Seq<char>| unsupported_tab(label, k),
            ),
        decreases kinds@.len() - i,
    {
        let kind = kinds[i];
        let mut kind_list: Vec<String> = Vec::new();
        kind_list.push(String::from_str(kind));
        let t = ResourceTab {
            key: String::from_str(kind),
            label: title_case_kind(kind),
            kinds: kind_list,
            empty_message: concat4(
                d.label,
                " `",
                kind,
                "` inventory is not available until an adapter is implemented.",
            ),
        };
        assert(t.kinds.deep_view() =~= seq![kind@]);
        let ghost prev = tab_views(tabs@);
        tabs.push(t);
        assert(tab_views(tabs@) =~= prev.push(unsupported_tab(label, kind_views[i as int])));
        assert(kind_views.subrange(0, i + 1).map_values(|k: Seq<char>| unsupported_tab(label, k)) =~= kind_views.subrange(0, i as int).map_values(|k: Seq<char>| unsupported_tab(label, k)).push(unsupported_tab(label, kind_views[i as int])));
        i = i + 1;
    }
    let inv = ServiceInventory {
        service_key: String::from_str(d.key),
        service_label: String::from_str(d.label),
        support_level: ServiceSupportLevel::Unsupported,
        refreshed_at,
        tabs,
        resources: Vec::new(),
        unsupported_operations: operation_names(),
    };
    assert(inv@.resources =~= Seq::empty());
    assert(inv@.tabs =~= d@.primary_resource_kinds.map_values(|k: Seq<char>| unsupported_tab(label, k)));
    Ok(inv)
}

/// The inventory of a catalogued service that has no adapter yet, refreshed now.
pub fn unsupported_inventory(service_key: &str) -> (r: Result<
    ServiceInventory,
    ServiceManagementError,
>)
    ensures
        r matches Ok(inv) ==> inventory_outcome(r) == unsupported_inventory_outcome(
            service_key@,
            inv.refreshed_at@,
        ),
        r matches Ok(inv) ==> rfc3339_utc_text(inv.refreshed_at@),
        r is Err ==> inventory_outcome(r) == unsupported_inventory_outcome(
            service_key@,
            Seq::empty(),
        ),
{
    unsupported_inventory_at(service_key, crate::service_management::actions::now_rfc3339())
}

/// The keys of the catalog, in display order.
pub open spec fn catalog_keys() -> Seq<Seq<char>> {
    seq!["s3"@, "dynamodb"@, "dynamodbstreams"@, "rds"@, "elasticache"@, "opensearch"@, "glue"@, "athena"@, "firehose"@, "backup"@, "sqs"@, "sns"@, "ses"@, "sesv2"@, "kinesis"@, "eventbridge"@, "scheduler"@, "stepfunctions"@, "cloudformation"@, "lambda"@, "ec2"@, "ecs"@, "eks"@, "ecr"@, "msk"@, "codebuild"@, "codedeploy"@, "autoscaling"@, "bedrockruntime"@, "iam"@, "sts"@, "cognito"@, "kms"@, "secretsmanager"@, "ssm"@, "appconfig"@, "appconfigdata"@, "acm"@, "apigateway"@, "apigatewayv2"@, "elbv2"@, "route53"@, "transfer"@, "cloudwatchlogs"@, "cloudwatch"@]
}

/// Position of the catalog entry whose key is `s`, or -1.
pub open spec fn key_rank(s: Seq<char>) -> int {
    if s == "s3"@ {
        0
    } else if s == "dynamodb"@ {
        1
    } else if s == "dynamodbstreams"@ {
        2
    } else if s == "rds"@ {
        3
    } else if s == "elasticache"@ {
        4
    } else if s == "opensearch"@ {
        5
    } else if s == "glue"@ {
        6
    } else if s == "athena"@ {
        7
    } else if s == "firehose"@ {
        8
    } else if s == "backup"@ {
        9
    } else if s == "sqs"@ {
        10
    } else if s == "sns"@ {
        11
    } else if s == "ses"@ {
        12
    } else if s == "sesv2"@ {
        13
    } else if s == "kinesis"@ {
        14
    } else if s == "eventbridge"@ {
        15
    } else if s == "scheduler"@ {
        16
    } else if s == "stepfunctions"@ {
        17
    } else if s == "cloudformation"@ {
        18
    } else if s == "lambda"@ {
        19
    } else if s == "ec2"@ {
        20
    } else if s == "ecs"@ {
        21
    } else if s == "eks"@ {
        22
    } else if s == "ecr"@ {
        23
    } else if s == "msk"@ {
        24
    } else if s == "codebuild"@ {
        25
    } else if s == "codedeploy"@ {
        26
    } else if s == "autoscaling"@ {
        27
    } else if s == "bedrockruntime"@ {
        28
    } else if s == "iam"@ {
        29
    } else if s == "sts"@ {
        30
    } else if s == "cognito"@ {
        31
    } else if s == "kms"@ {
        32
    } else if s == "secretsmanager"@ {
        33
    } else if s == "ssm"@ {
        34
    } else if s == "appconfig"@ {
        35
    } else if s == "appconfigdata"@ {
        36
    } else if s == "acm"@ {
        37
    } else if s == "apigateway"@ {
        38
    } else if s == "apigatewayv2"@ {
        39
    } else if s == "elbv2"@ {
        40
    } else if s == "route53"@ {
        41
    } else if s == "transfer"@ {
        42
    } else if s == "cloudwatchlogs"@ {
        43
    } else if s == "cloudwatch"@ {
        44
    } else {
        -1
    }
}

proof fn lemma_key_rank_0()
    ensures
        key_rank(catalog_keys()[0]) == 0,
{
    broadcast use vstd::string::group_string_axioms;
    reveal_strlit("s3");
    assert("s3"@.len() == 2);
    assert(catalog_keys()[0] == "s3"@);
}

proof fn lemma_key_rank_1()
    ensures
        key_rank(catalog_keys()[1]) == 1,
{
    broadcast use vstd::string::group_string_axioms;
    reveal_strlit("s3");
    assert("s3"@.len() == 2);
    reveal_strlit("dynamodb");
    assert("dynamodb"@.len() == 8);
    assert(catalog_keys()[1] == "dynamodb"@);
}

proof fn lemma_key_rank_2()
    ensures
        key_rank(catalog_keys()[2]) == 2,
{
    broadcast use vstd::string::group_string_axioms;
    reveal_strlit("s3");
    assert("s3"@.len() == 2);
    reveal_strlit("dynamodb");
    assert("dynamodb"@.len() == 8);
    reveal_strlit("dynamodbstreams");
    assert("dynamodbstreams"@.len() == 15);
    assert(catalog_keys()[2] == "dynamodbstreams"@);
}

proof fn lemma_key_rank_3()
    ensures
        key_rank(catalog_keys()[3]) == 3,
{
    broadcast use vstd::string::group_string_axioms;
    reveal_strlit("s3");
    assert("s3"@.len() == 2);
    reveal_strlit("dynamodb");
    assert("dynamodb"@.len() == 8);
    reveal_strlit("dynamodbstreams");
    assert("dynamodbstreams"@.len() == 15);
    reveal_strlit("rds");
    assert("rds"@.len() == 3);
    assert(catalog_keys()[3] == "rds"@);
}

proof fn lemma_key_rank_4()
    ensures
        key_rank(catalog_keys()[4]) == 4,
{
    broadcast use vstd::string::group_string_axioms;
    reveal_strlit("s3");
    assert("s3"@.len() == 2);
    reveal_strlit("dynamodb");
    assert("dynamodb"@.len() == 8);
    reveal_strlit("dynamodbstreams");
    assert("dynamodbstreams"@.len() == 15);
    reveal_strlit("rds");
    assert("rds"@.len() == 3);
    reveal_strlit("elasticache");
    assert("elasticache"@.len() == 11);
    assert(catalog_keys()[4] == "elasticache"@);
}

proof fn lemma_key_rank_5()
    ensures
        key_rank(catalog_keys()[5]) == 5,
{
    broadcast use vstd::string::group_string_axioms;
    reveal_strlit("s3");
    assert("s3"@.len() == 2);
    reveal_strlit("dynamodb");
    assert("dynamodb"@.len() == 8);
    reveal_strlit("dynamodbstreams");
    assert("dynamodbstreams"@.len() == 15);
    reveal_strlit("rds");
    assert("rds"@.len() == 3);
    reveal_strlit("elasticache");
    assert("elasticache"@.len() == 11);
    reveal_strlit("opensearch");
    assert("opensearch"@.len() == 10);
    assert(catalog_keys()[5] == "opensearch"@);
}

proof fn lemma_key_rank_6()
    ensures
        key_rank(catalog_keys()[6]) == 6,
{
    broadcast use vstd::string::group_string_axioms;
    reveal_strlit("s3");
    assert("s3"@.len() == 2);
    reveal_strlit("dynamodb");
    assert("dynamodb"@.len() == 8);
    reveal_strlit("dynamodbstreams");
    assert("dynamodbstreams"@.len() == 15);
    reveal_strlit("rds");
    assert("rds"@.len() == 3);
    reveal_strlit("elasticache");
    assert("elasticache"@.len() == 11);
    reveal_strlit("opensearch");
    assert("opensearch"@.len() == 10);
    reveal_strlit("glue");
    assert("glue"@.len() == 4);
    assert(catalog_keys()[6] == "glue"@);
}

proof fn lemma_key_rank_7()
    ensures
        key_rank(catalog_keys()[7]) == 7,
{
    broadcast use vstd::string::group_string_axioms;
    reveal_strlit("s3");
    assert("s3"@.len() == 2);
    reveal_strlit("dynamodb");
    assert("dynamodb"@.len() == 8);
    reveal_strlit("dynamodbstreams");
    assert("dynamodbstreams"@.len() == 15);
    reveal_strlit("rds");
    assert("rds"@.len() == 3);
    reveal_strlit("elasticache");
    assert("elasticache"@.len() == 11);
    reveal_strlit("opensearch");
    assert("opensearch"@.len() == 10);
    reveal_strlit("glue");
    assert("glue"@.len() == 4);
    reveal_strlit("athena");
    assert("athena"@.len() == 6);
    assert(catalog_keys()[7] == "athena"@);
}

proof fn lemma_key_rank_8()
    ensures
        key_rank(catalog_keys()[8]) == 8,
{
    broadcast use vstd::string::group_string_axioms;
    reveal_strlit("s3");
    assert("s3"@.len() == 2);
    reveal_strlit("dynamodb");
    assert("dynamodb"@.len() == 8);
    reveal_strlit("dynamodbstreams");
    assert("dynamodbstreams"@.len() == 15);
    reveal_strlit("rds");
    assert("rds"@.len() == 3);
    reveal_strlit("elasticache");
    assert("elasticache"@.len() == 11);
    reveal_strlit("opensearch");
    assert("opensearch"@.len() == 10);
    reveal_strlit("glue");
    assert("glue"@.len() == 4);
    reveal_strlit("athena");
    assert("athena"@.len() == 6);
    reveal_strlit("firehose");
    assert("firehose"@.len() == 8);
    assert("firehose"@[0] != "dynamodb"@[0]);
    assert(catalog_keys()[8] == "firehose"@);
}

proof fn lemma_key_rank_9()
    ensures
        key_rank(catalog_keys()[9]) == 9,
{
    broadcast use vstd::string::group_string_axioms;
    reveal_strlit("s3");
    assert("s3"@.len() == 2);
    reveal_strlit("dynamodb");
    assert("dynamodb"@.len() == 8);
    reveal_strlit("dynamodbstreams");
    assert("dynamodbstreams"@.len() == 15);
    reveal_strlit("rds");
    assert("rds"@.len() == 3);
    reveal_strlit("elasticache");
    assert("elasticache"@.len() == 11);
    reveal_strlit("opensearch");
    assert("opensearch"@.len() == 10);
    reveal_strlit("glue");
    assert("glue"@.len() == 4);
    reveal_strlit("athena");
    assert("athena"@.len() == 6);
    reveal_strlit("firehose");
    assert("firehose"@.len() == 8);
    reveal_strlit("backup");
    assert("backup"@.len() == 6);
    assert("backup"@[0] != "athena"@[0]);
    assert(catalog_keys()[9] == "backup"@);
}

proof fn lemma_key_rank_10()
    ensures
        key_rank(catalog_keys()[10]) == 10,
{
    broadcast use vstd::string::group_string_axioms;
    reveal_strlit("s3");
    assert("s3"@.len() == 2);
    reveal_strlit("dynamodb");
    assert("dynamodb"@.len() == 8);
    reveal_strlit("dynamodbstreams");
    assert("dynamodbstreams"@.len() == 15);
    reveal_strlit("rds");
    assert("rds"@.len() == 3);
    reveal_strlit("elasticache");
    assert("elasticache"@.len() == 11);
    reveal_strlit("opensearch");
    assert("opensearch"@.len() == 10);
    reveal_strlit("glue");
    assert("glue"@.len() == 4);
    reveal_strlit("athena");
    assert("athena"@.len() == 6);
    reveal_strlit("firehose");
    assert("firehose"@.len() == 8);
    reveal_strlit("backup");
    assert("backup"@.len() == 6);
    reveal_strlit("sqs");
    assert("sqs"@.len() == 3);
    assert("sqs"@[0] != "rds"@[0]);
    assert(catalog_keys()[10] == "sqs"@);
}

proof fn lemma_key_rank_11()
    ensures
        key_rank(catalog_keys()[11]) == 11,
{
    broadcast use vstd::string::group_string_axioms;
    reveal_strlit("s3");
    assert("s3"@.len() == 2);
    reveal_strlit("dynamodb");
    assert("dynamodb"@.len() == 8);
    reveal_strlit("dynamodbstreams");
    assert("dynamodbstreams"@.len() == 15);
    reveal_strlit("rds");
    assert("rds"@.len() == 3);
    reveal_strlit("elasticache");
    assert("elasticache"@.len() == 11);
    reveal_strlit("opensearch");
    assert("opensearch"@.len() == 10);
    reveal_strlit("glue");
    assert("glue"@.len() == 4);
    reveal_strlit("athena");
    assert("athena"@.len() == 6);
    reveal_strlit("firehose");
    assert("firehose"@.len() == 8);
    reveal_strlit("backup");
    assert("backup"@.len() == 6);
    reveal_strlit("sqs");
    assert("sqs"@.len() == 3);
    reveal_strlit("sns");
    assert("sns"@.len() == 3);
    assert("sns"@[0] != "rds"@[0]);
    assert("sns"@[1] != "sqs"@[1]);
    assert(catalog_keys()[11] == "sns"@);
}

proof fn lemma_key_rank_12()
    ensures
        key_rank(catalog_keys()[12]) == 12,
{
    broadcast use vstd::string::group_string_axioms;
    reveal_strlit("s3");
    assert("s3"@.len() == 2);
    reveal_strlit("dynamodb");
    assert("dynamodb"@.len() == 8);
    reveal_strlit("dynamodbstreams");
    assert("dynamodbstreams"@.len() == 15);
    reveal_strlit("rds");
    assert("rds"@.len() == 3);
    reveal_strlit("elasticache");
    assert("elasticache"@.len() == 11);
    reveal_strlit("opensearch");
    assert("opensearch"@.len() == 10);
    reveal_strlit("glue");
    assert("glue"@.len() == 4);
    reveal_strlit("athena");
    assert("athena"@.len() == 6);
    reveal_strlit("firehose");
    assert("firehose"@.len() == 8);
    reveal_strlit("backup");
    assert("backup"@.len() == 6);
    reveal_strlit("sqs");
    assert("sqs"@.len() == 3);
    reveal_strlit("sns");
    assert("sns"@.len() == 3);
    reveal_strlit("ses");
    assert("ses"@.len() == 3);
    assert("ses"@[0] != "rds"@[0]);
    assert("ses"@[1] != "sqs"@[1]);
    assert("ses"@[1] != "sns"@[1]);
    assert(catalog_keys()[12] == "ses"@);
}

proof fn lemma_key_rank_13()
    ensures
        key_rank(catalog_keys()[13]) == 13,
{
    broadcast use vstd::string::group_string_axioms;
    reveal_strlit("s3");
    assert("s3"@.len() == 2);
    reveal_strlit("dynamodb");
    assert("dynamodb"@.len() == 8);
    reveal_strlit("dynamodbstreams");
    assert("dynamodbstreams"@.len() == 15);
    reveal_strlit("rds");
    assert("rds"@.len() == 3);
    reveal_strlit("elasticache");
    assert("elasticache"@.len() == 11);
    reveal_strlit("opensearch");
    assert("opensearch"@.len() == 10);
    reveal_strlit("glue");
    assert("glue"@.len() == 4);
    reveal_strlit("athena");
    assert("athena"@.len() == 6);
    reveal_strlit("firehose");
    assert("firehose"@.len() == 8);
    reveal_strlit("backup");
    assert("backup"@.len() == 6);
    reveal_strlit("sqs");
    assert("sqs"@.len() == 3);
    reveal_strlit("sns");
    assert("sns"@.len() == 3);
    reveal_strlit("ses");
    assert("ses"@.len() == 3);
    reveal_strlit("sesv2");
    assert("sesv2"@.len() == 5);
    assert(catalog_keys()[13] == "sesv2"@);
}

proof fn lemma_key_rank_14()
    ensures
        key_rank(catalog_keys()[14]) == 14,
{
    broadcast use vstd::string::group_string_axioms;
    reveal_strlit("s3");
    assert("s3"@.len() == 2);
    reveal_strlit("dynamodb");
    assert("dynamodb"@.len() == 8);
    reveal_strlit("dynamodbstreams");
    assert("dynamodbstreams"@.len() == 15);
    reveal_strlit("rds");
    assert("rds"@.len() == 3);
    reveal_strlit("elasticache");
    assert("elasticache"@.len() == 11);
    reveal_strlit("opensearch");
    assert("opensearch"@.len() == 10);
    reveal_strlit("glue");
    assert("glue"@.len() == 4);
    reveal_strlit("athena");
    assert("athena"@.len() == 6);
    reveal_strlit("firehose");
    assert("firehose"@.len() == 8);
    reveal_strlit("backup");
    assert("backup"@.len() == 6);
    reveal_strlit("sqs");
    assert("sqs"@.len() == 3);
    reveal_strlit("sns");
    assert("sns"@.len() == 3);
    reveal_strlit("ses");
    assert("ses"@.len() == 3);
    reveal_strlit("sesv2");
    assert("sesv2"@.len() == 5);
    reveal_strlit("kinesis");
    assert("kinesis"@.len() == 7);
    assert(catalog_keys()[14] == "kinesis"@);
}

proof fn lemma_key_rank_15()
    ensures
        key_rank(catalog_keys()[15]) == 15,
{
    broadcast use vstd::string::group_string_axioms;
    reveal_strlit("s3");
    assert("s3"@.len() == 2);
    reveal_strlit("dynamodb");
    assert("dynamodb"@.len() == 8);
    reveal_strlit("dynamodbstreams");
    assert("dynamodbstreams"@.len() == 15);
    reveal_strlit("rds");
    assert("rds"@.len() == 3);
    reveal_strlit("elasticache");
    assert("elasticache"@.len() == 11);
    reveal_strlit("opensearch");
    assert("opensearch"@.len() == 10);
    reveal_strlit("glue");
    assert("glue"@.len() == 4);
    reveal_strlit("athena");
    assert("athena"@.len() == 6);
    reveal_strlit("firehose");
    assert("firehose"@.len() == 8);
    reveal_strlit("backup");
    assert("backup"@.len() == 6);
    reveal_strlit("sqs");
    assert("sqs"@.len() == 3);
    reveal_strlit("sns");
    assert("sns"@.len() == 3);
    reveal_strlit("ses");
    assert("ses"@.len() == 3);
    reveal_strlit("sesv2");
    assert("sesv2"@.len() == 5);
    reveal_strlit("kinesis");
    assert("kinesis"@.len() == 7);
    reveal_strlit("eventbridge");
    assert("eventbridge"@.len() == 11);
    assert("eventbridge"@[1] != "elasticache"@[1]);
    assert(catalog_keys()[15] == "eventbridge"@);
}

proof fn lemma_key_rank_16()
    ensures
        key_rank(catalog_keys()[16]) == 16,
{
    broadcast use vstd::string::group_string_axioms;
    reveal_strlit("s3");
    assert("s3"@.len() == 2);
    reveal_strlit("dynamodb");
    assert("dynamodb"@.len() == 8);
    reveal_strlit("dynamodbstreams");
    assert("dynamodbstreams"@.len() == 15);
    reveal_strlit("rds");
    assert("rds"@.len() == 3);
    reveal_strlit("elasticache");
    assert("elasticache"@.len() == 11);
    reveal_strlit("opensearch");
    assert("opensearch"@.len() == 10);
    reveal_strlit("glue");
    assert("glue"@.len() == 4);
    reveal_strlit("athena");
    assert("athena"@.len() == 6);
    reveal_strlit("firehose");
    assert("firehose"@.len() == 8);
    reveal_strlit("backup");
    assert("backup"@.len() == 6);
    reveal_strlit("sqs");
    assert("sqs"@.len() == 3);
    reveal_strlit("sns");
    assert("sns"@.len() == 3);
    reveal_strlit("ses");
    assert("ses"@.len() == 3);
    reveal_strlit("sesv2");
    assert("sesv2"@.len() == 5);
    reveal_strlit("kinesis");
    assert("kinesis"@.len() == 7);
    reveal_strlit("eventbridge");
    assert("eventbridge"@.len() == 11);
    reveal_strlit("scheduler");
    assert("scheduler"@.len() == 9);
    assert(catalog_keys()[16] == "scheduler"@);
}

proof fn lemma_key_rank_17()
    ensures
        key_rank(catalog_keys()[17]) == 17,
{
    broadcast use vstd::string::group_string_axioms;
    reveal_strlit("s3");
    assert("s3"@.len() == 2);
    reveal_strlit("dynamodb");
    assert("dynamodb"@.len() == 8);
    reveal_strlit("dynamodbstreams");
    assert("dynamodbstreams"@.len() == 15);
    reveal_strlit("rds");
    assert("rds"@.len() == 3);
    reveal_strlit("elasticache");
    assert("elasticache"@.len() == 11);
    reveal_strlit("opensearch");
    assert("opensearch"@.len() == 10);
    reveal_strlit("glue");
    assert("glue"@.len() == 4);
    reveal_strlit("athena");
    assert("athena"@.len() == 6);
    reveal_strlit("firehose");
    assert("firehose"@.len() == 8);
    reveal_strlit("backup");
    assert("backup"@.len() == 6);
    reveal_strlit("sqs");
    assert("sqs"@.len() == 3);
    reveal_strlit("sns");
    assert("sns"@.len() == 3);
    reveal_strlit("ses");
    assert("ses"@.len() == 3);
    reveal_strlit("sesv2");
    assert("sesv2"@.len() == 5);
    reveal_strlit("kinesis");
    assert("kinesis"@.len() == 7);
    reveal_strlit("eventbridge");
    assert("eventbridge"@.len() == 11);
    reveal_strlit("scheduler");
    assert("scheduler"@.len() == 9);
    reveal_strlit("stepfunctions");
    assert("stepfunctions"@.len() == 13);
    assert(catalog_keys()[17] == "stepfunctions"@);
}

proof fn lemma_key_rank_18()
    ensures
        key_rank(catalog_keys()[18]) == 18,
{
    broadcast use vstd::string::group_string_axioms;
    reveal_strlit("s3");
    assert("s3"@.len() == 2);
    reveal_strlit("dynamodb");
    assert("dynamodb"@.len() == 8);
    reveal_strlit("dynamodbstreams");
    assert("dynamodbstreams"@.len() == 15);
    reveal_strlit("rds");
    assert("rds"@.len() == 3);
    reveal_strlit("elasticache");
    assert("elasticache"@.len() == 11);
    reveal_strlit("opensearch");
    assert("opensearch"@.len() == 10);
    reveal_strlit("glue");
    assert("glue"@.len() == 4);
    reveal_strlit("athena");
    assert("athena"@.len() == 6);
    reveal_strlit("firehose");
    assert("firehose"@.len() == 8);
    reveal_strlit("backup");
    assert("backup"@.len() == 6);
    reveal_strlit("sqs");
    assert("sqs"@.len() == 3);
    reveal_strlit("sns");
    assert("sns"@.len() == 3);
    reveal_strlit("ses");
    assert("ses"@.len() == 3);
    reveal_strlit("sesv2");
    assert("sesv2"@.len() == 5);
    reveal_strlit("kinesis");
    assert("kinesis"@.len() == 7);
    reveal_strlit("eventbridge");
    assert("eventbridge"@.len() == 11);
    reveal_strlit("scheduler");
    assert("scheduler"@.len() == 9);
    reveal_strlit("stepfunctions");
    assert("stepfunctions"@.len() == 13);
    reveal_strlit("cloudformation");
    assert("cloudformation"@.len() == 14);
    assert(catalog_keys()[18] == "cloudformation"@);
}

proof fn lemma_key_rank_19()
    ensures
        key_rank(catalog_keys()[19]) == 19,
{
    broadcast use vstd::string::group_string_axioms;
    reveal_strlit("s3");
    assert("s3"@.len() == 2);
    reveal_strlit("dynamodb");
    assert("dynamodb"@.len() == 8);
    reveal_strlit("dynamodbstreams");
    assert("dynamodbstreams"@.len() == 15);
    reveal_strlit("rds");
    assert("rds"@.len() == 3);
    reveal_strlit("elasticache");
    assert("elasticache"@.len() == 11);
    reveal_strlit("opensearch");
    assert("opensearch"@.len() == 10);
    reveal_strlit("glue");
    assert("glue"@.len() == 4);
    reveal_strlit("athena");
    assert("athena"@.len() == 6);
    reveal_strlit("firehose");
    assert("firehose"@.len() == 8);
    reveal_strlit("backup");
    assert("backup"@.len() == 6);
    reveal_strlit("sqs");
    assert("sqs"@.len() == 3);
    reveal_strlit("sns");
    assert("sns"@.len() == 3);
    reveal_strlit("ses");
    assert("ses"@.len() == 3);
    reveal_strlit("sesv2");
    assert("sesv2"@.len() == 5);
    reveal_strlit("kinesis");
    assert("kinesis"@.len() == 7);
    reveal_strlit("eventbridge");
    assert("eventbridge"@.len() == 11);
    reveal_strlit("scheduler");
    assert("scheduler"@.len() == 9);
    reveal_strlit("stepfunctions");
    assert("stepfunctions"@.len() == 13);
    reveal_strlit("cloudformation");
    assert("cloudformation"@.len() == 14);
    reveal_strlit("lambda");
    assert("lambda"@.len() == 6);
    assert("lambda"@[0] != "athena"@[0]);
    assert("lambda"@[0] != "backup"@[0]);
    assert(catalog_keys()[19] == "lambda"@);
}

proof fn lemma_key_rank_20()
    ensures
        key_rank(catalog_keys()[20]) == 20,
{
    broadcast use vstd::string::group_string_axioms;
    reveal_strlit("s3");
    assert("s3"@.len() == 2);
    reveal_strlit("dynamodb");
    assert("dynamodb"@.len() == 8);
    reveal_strlit("dynamodbstreams");
    assert("dynamodbstreams"@.len() == 15);
    reveal_strlit("rds");
    assert("rds"@.len() == 3);
    reveal_strlit("elasticache");
    assert("elasticache"@.len() == 11);
    reveal_strlit("opensearch");
    assert("opensearch"@.len() == 10);
    reveal_strlit("glue");
    assert("glue"@.len() == 4);
    reveal_strlit("athena");
    assert("athena"@.len() == 6);
    reveal_strlit("firehose");
    assert("firehose"@.len() == 8);
    reveal_strlit("backup");
    assert("backup"@.len() == 6);
    reveal_strlit("sqs");
    assert("sqs"@.len() == 3);
    reveal_strlit("sns");
    assert("sns"@.len() == 3);
    reveal_strlit("ses");
    assert("ses"@.len() == 3);
    reveal_strlit("sesv2");
    assert("sesv2"@.len() == 5);
    reveal_strlit("kinesis");
    assert("kinesis"@.len() == 7);
    reveal_strlit("eventbridge");
    assert("eventbridge"@.len() == 11);
    reveal_strlit("scheduler");
    assert("scheduler"@.len() == 9);
    reveal_strlit("stepfunctions");
    assert("stepfunctions"@.len() == 13);
    reveal_strlit("cloudformation");
    assert("cloudformation"@.len() == 14);
    reveal_strlit("lambda");
    assert("lambda"@.len() == 6);
    reveal_strlit("ec2");
    assert("ec2"@.len() == 3);
    assert("ec2"@[0] != "rds"@[0]);
    assert("ec2"@[0] != "sqs"@[0]);
    assert("ec2"@[0] != "sns"@[0]);
    assert("ec2"@[0] != "ses"@[0]);
    assert(catalog_keys()[20] == "ec2"@);
}

proof fn lemma_key_rank_21()
    ensures
        key_rank(catalog_keys()[21]) == 21,
{
    broadcast use vstd::string::group_string_axioms;
    reveal_strlit("s3");
    assert("s3"@.len() == 2);
    reveal_strlit("dynamodb");
    assert("dynamodb"@.len() == 8);
    reveal_strlit("dynamodbstreams");
    assert("dynamodbstreams"@.len() == 15);
    reveal_strlit("rds");
    assert("rds"@.len() == 3);
    reveal_strlit("elasticache");
    assert("elasticache"@.len() == 11);
    reveal_strlit("opensearch");
    assert("opensearch"@.len() == 10);
    reveal_strlit("glue");
    assert("glue"@.len() == 4);
    reveal_strlit("athena");
    assert("athena"@.len() == 6);
    reveal_strlit("firehose");
    assert("firehose"@.len() == 8);
    reveal_strlit("backup");
    assert("backup"@.len() == 6);
    reveal_strlit("sqs");
    assert("sqs"@.len() == 3);
    reveal_strlit("sns");
    assert("sns"@.len() == 3);
    reveal_strlit("ses");
    assert("ses"@.len() == 3);
    reveal_strlit("sesv2");
    assert("sesv2"@.len() == 5);
    reveal_strlit("kinesis");
    assert("kinesis"@.len() == 7);
    reveal_strlit("eventbridge");
    assert("eventbridge"@.len() == 11);
    reveal_strlit("scheduler");
    assert("scheduler"@.len() == 9);
    reveal_strlit("stepfunctions");
    assert("stepfunctions"@.len() == 13);
    reveal_strlit("cloudformation");
    assert("cloudformation"@.len() == 14);
    reveal_strlit("lambda");
    assert("lambda"@.len() == 6);
    reveal_strlit("ec2");
    assert("ec2"@.len() == 3);
    reveal_strlit("ecs");
    assert("ecs"@.len() == 3);
    assert("ecs"@[0] != "rds"@[0]);
    assert("ecs"@[0] != "sqs"@[0]);
    assert("ecs"@[0] != "sns"@[0]);
    assert("ecs"@[0] != "ses"@[0]);
    assert("ecs"@[2] != "ec2"@[2]);
    assert(catalog_keys()[21] == "ecs"@);
}

proof fn lemma_key_rank_22()
    ensures
        key_rank(catalog_keys()[22]) == 22,
{
    broadcast use vstd::string::group_string_axioms;
    reveal_strlit("s3");
    assert("s3"@.len() == 2);
    reveal_strlit("dynamodb");
    assert("dynamodb"@.len() == 8);
    reveal_strlit("dynamodbstreams");
    assert("dynamodbstreams"@.len() == 15);
    reveal_strlit("rds");
    assert("rds"@.len() == 3);
    reveal_strlit("elasticache");
    assert("elasticache"@.len() == 11);
    reveal_strlit("opensearch");
    assert("opensearch"@.len() == 10);
    reveal_strlit("glue");
    assert("glue"@.len() == 4);
    reveal_strlit("athena");
    assert("athena"@.len() == 6);
    reveal_strlit("firehose");
    assert("firehose"@.len() == 8);
    reveal_strlit("backup");
    assert("backup"@.len() == 6);
    reveal_strlit("sqs");
    assert("sqs"@.len() == 3);
    reveal_strlit("sns");
    assert("sns"@.len() == 3);
    reveal_strlit("ses");
    assert("ses"@.len() == 3);
    reveal_strlit("sesv2");
    assert("sesv2"@.len() == 5);
    reveal_strlit("kinesis");
    assert("kinesis"@.len() == 7);
    reveal_strlit("eventbridge");
    assert("eventbridge"@.len() == 11);
    reveal_strlit("scheduler");
    assert("scheduler"@.len() == 9);
    reveal_strlit("stepfunctions");
    assert("stepfunctions"@.len() == 13);
    reveal_strlit("cloudformation");
    assert("cloudformation"@.len() == 14);
    reveal_strlit("lambda");
    assert("lambda"@.len() == 6);
    reveal_strlit("ec2");
    assert("ec2"@.len() == 3);
    reveal_strlit("ecs");
    assert("ecs"@.len() == 3);
    reveal_strlit("eks");
    assert("eks"@.len() == 3);
    assert("eks"@[0] != "rds"@[0]);
    assert("eks"@[0] != "sqs"@[0]);
    assert("eks"@[0] != "sns"@[0]);
    assert("eks"@[0] != "ses"@[0]);
    assert("eks"@[1] != "ec2"@[1]);
    assert("eks"@[1] != "ecs"@[1]);
    assert(catalog_keys()[22] == "eks"@);
}

proof fn lemma_key_rank_23()
    ensures
        key_rank(catalog_keys()[23]) == 23,
{
    broadcast use vstd::string::group_string_axioms;
    reveal_strlit("s3");
    assert("s3"@.len() == 2);
    reveal_strlit("dynamodb");
    assert("dynamodb"@.len() == 8);
    reveal_strlit("dynamodbstreams");
    assert("dynamodbstreams"@.len() == 15);
    reveal_strlit("rds");
    assert("rds"@.len() == 3);
    reveal_strlit("elasticache");
    assert("elasticache"@.len() == 11);
    reveal_strlit("opensearch");
    assert("opensearch"@.len() == 10);
    reveal_strlit("glue");
    assert("glue"@.len() == 4);
    reveal_strlit("athena");
    assert("athena"@.len() == 6);
    reveal_strlit("firehose");
    assert("firehose"@.len() == 8);
    reveal_strlit("backup");
    assert("backup"@.len() == 6);
    reveal_strlit("sqs");
    assert("sqs"@.len() == 3);
    reveal_strlit("sns");
    assert("sns"@.len() == 3);
    reveal_strlit("ses");
    assert("ses"@.len() == 3);
    reveal_strlit("sesv2");
    assert("sesv2"@.len() == 5);
    reveal_strlit("kinesis");
    assert("kinesis"@.len() == 7);
    reveal_strlit("eventbridge");
    assert("eventbridge"@.len() == 11);
    reveal_strlit("scheduler");
    assert("scheduler"@.len() == 9);
    reveal_strlit("stepfunctions");
    assert("stepfunctions"@.len() == 13);
    reveal_strlit("cloudformation");
    assert("cloudformation"@.len() == 14);
    reveal_strlit("lambda");
    assert("lambda"@.len() == 6);
    reveal_strlit("ec2");
    assert("ec2"@.len() == 3);
    reveal_strlit("ecs");
    assert("ecs"@.len() == 3);
    reveal_strlit("eks");
    assert("eks"@.len() == 3);
    reveal_strlit("ecr");
    assert("ecr"@.len() == 3);
    assert("ecr"@[0] != "rds"@[0]);
    assert("ecr"@[0] != "sqs"@[0]);
    assert("ecr"@[0] != "sns"@[0]);
    assert("ecr"@[0] != "ses"@[0]);
    assert("ecr"@[2] != "ec2"@[2]);
    assert("ecr"@[2] != "ecs"@[2]);
    assert("ecr"@[1] != "eks"@[1]);
    assert(catalog_keys()[23] == "ecr"@);
}

proof fn lemma_key_rank_24()
    ensures
        key_rank(catalog_keys()[24]) == 24,
{
    broadcast use vstd::string::group_string_axioms;
    reveal_strlit("s3");
    assert("s3"@.len() == 2);
    reveal_strlit("dynamodb");
    assert("dynamodb"@.len() == 8);
    reveal_strlit("dynamodbstreams");
    assert("dynamodbstreams"@.len() == 15);
    reveal_strlit("rds");
    assert("rds"@.len() == 3);
    reveal_strlit("elasticache");
    assert("elasticache"@.len() == 11);
    reveal_strlit("opensearch");
    assert("opensearch"@.len() == 10);
    reveal_strlit("glue");
    assert("glue"@.len() == 4);
    reveal_strlit("athena");
    assert("athena"@.len() == 6);
    reveal_strlit("firehose");
    assert("firehose"@.len() == 8);
    reveal_strlit("backup");
    assert("backup"@.len() == 6);
    reveal_strlit("sqs");
    assert("sqs"@.len() == 3);
    reveal_strlit("sns");
    assert("sns"@.len() == 3);
    reveal_strlit("ses");
    assert("ses"@.len() == 3);
    reveal_strlit("sesv2");
    assert("sesv2"@.len() == 5);
    reveal_strlit("kinesis");
    assert("kinesis"@.len() == 7);
    reveal_strlit("eventbridge");
    assert("eventbridge"@.len() == 11);
    reveal_strlit("scheduler");
    assert("scheduler"@.len() == 9);
    reveal_strlit("stepfunctions");
    assert("stepfunctions"@.len() == 13);
    reveal_strlit("cloudformation");
    assert("cloudformation"@.len() == 14);
    reveal_strlit("lambda");
    assert("lambda"@.len() == 6);
    reveal_strlit("ec2");
    assert("ec2"@.len() == 3);
    reveal_strlit("ecs");
    assert("ecs"@.len() == 3);
    reveal_strlit("eks");
    assert("eks"@.len() == 3);
    reveal_strlit("ecr");
    assert("ecr"@.len() == 3);
    reveal_strlit("msk");
    assert("msk"@.len() == 3);
    assert("msk"@[0] != "rds"@[0]);
    assert("msk"@[0] != "sqs"@[0]);
    assert("msk"@[0] != "sns"@[0]);
    assert("msk"@[0] != "ses"@[0]);
    assert("msk"@[0] != "ec2"@[0]);
    assert("msk"@[0] != "ecs"@[0]);
    assert("msk"@[0] != "eks"@[0]);
    assert("msk"@[0] != "ecr"@[0]);
    assert(catalog_keys()[24] == "msk"@);
}

proof fn lemma_key_rank_25()
    ensures
        key_rank(catalog_keys()[25]) == 25,
{
    broadcast use vstd::string::group_string_axioms;
    reveal_strlit("s3");
    assert("s3"@.len() == 2);
    reveal_strlit("dynamodb");
    assert("dynamodb"@.len() == 8);
    reveal_strlit("dynamodbstreams");
    assert("dynamodbstreams"@.len() == 15);
    reveal_strlit("rds");
    assert("rds"@.len() == 3);
    reveal_strlit("elasticache");
    assert("elasticache"@.len() == 11);
    reveal_strlit("opensearch");
    assert("opensearch"@.len() == 10);
    reveal_strlit("glue");
    assert("glue"@.len() == 4);
    reveal_strlit("athena");
    assert("athena"@.len() == 6);
    reveal_strlit("firehose");
    assert("firehose"@.len() == 8);
    reveal_strlit("backup");
    assert("backup"@.len() == 6);
    reveal_strlit("sqs");
    assert("sqs"@.len() == 3);
    reveal_strlit("sns");
    assert("sns"@.len() == 3);
    reveal_strlit("ses");
    assert("ses"@.len() == 3);
    reveal_strlit("sesv2");
    assert("sesv2"@.len() == 5);
    reveal_strlit("kinesis");
    assert("kinesis"@.len() == 7);
    reveal_strlit("eventbridge");
    assert("eventbridge"@.len() == 11);
    reveal_strlit("scheduler");
    assert("scheduler"@.len() == 9);
    reveal_strlit("stepfunctions");
    assert("stepfunctions"@.len() == 13);
    reveal_strlit("cloudformation");
    assert("cloudformation"@.len() == 14);
    reveal_strlit("lambda");
    assert("lambda"@.len() == 6);
    reveal_strlit("ec2");
    assert("ec2"@.len() == 3);
    reveal_strlit("ecs");
    assert("ecs"@.len() == 3);
    reveal_strlit("eks");
    assert("eks"@.len() == 3);
    reveal_strlit("ecr");
    assert("ecr"@.len() == 3);
    reveal_strlit("msk");
    assert("msk"@.len() == 3);
    reveal_strlit("codebuild");
    assert("codebuild"@.len() == 9);
    assert("codebuild"@[0] != "scheduler"@[0]);
    assert(catalog_keys()[25] == "codebuild"@);
}

proof fn lemma_key_rank_26()
    ensures
        key_rank(catalog_keys()[26]) == 26,
{
    broadcast use vstd::string::group_string_axioms;
    reveal_strlit("s3");
    assert("s3"@.len() == 2);
    reveal_strlit("dynamodb");
    assert("dynamodb"@.len() == 8);
    reveal_strlit("dynamodbstreams");
    assert("dynamodbstreams"@.len() == 15);
    reveal_strlit("rds");
    assert("rds"@.len() == 3);
    reveal_strlit("elasticache");
    assert("elasticache"@.len() == 11);
    reveal_strlit("opensearch");
    assert("opensearch"@.len() == 10);
    reveal_strlit("glue");
    assert("glue"@.len() == 4);
    reveal_strlit("athena");
    assert("athena"@.len() == 6);
    reveal_strlit("firehose");
    assert("firehose"@.len() == 8);
    reveal_strlit("backup");
    assert("backup"@.len() == 6);
    reveal_strlit("sqs");
    assert("sqs"@.len() == 3);
    reveal_strlit("sns");
    assert("sns"@.len() == 3);
    reveal_strlit("ses");
    assert("ses"@.len() == 3);
    reveal_strlit("sesv2");
    assert("sesv2"@.len() == 5);
    reveal_strlit("kinesis");
    assert("kinesis"@.len() == 7);
    reveal_strlit("eventbridge");
    assert("eventbridge"@.len() == 11);
    reveal_strlit("scheduler");
    assert("scheduler"@.len() == 9);
    reveal_strlit("stepfunctions");
    assert("stepfunctions"@.len() == 13);
    reveal_strlit("cloudformation");
    assert("cloudformation"@.len() == 14);
    reveal_strlit("lambda");
    assert("lambda"@.len() == 6);
    reveal_strlit("ec2");
    assert("ec2"@.len() == 3);
    reveal_strlit("ecs");
    assert("ecs"@.len() == 3);
    reveal_strlit("eks");
    assert("eks"@.len() == 3);
    reveal_strlit("ecr");
    assert("ecr"@.len() == 3);
    reveal_strlit("msk");
    assert("msk"@.len() == 3);
    reveal_strlit("codebuild");
    assert("codebuild"@.len() == 9);
    reveal_strlit("codedeploy");
    assert("codedeploy"@.len() == 10);
    assert("codedeploy"@[0] != "opensearch"@[0]);
    assert(catalog_keys()[26] == "codedeploy"@);
}

proof fn lemma_key_rank_27()
    ensures
        key_rank(catalog_keys()[27]) == 27,
{
    broadcast use vstd::string::group_string_axioms;
    reveal_strlit("s3");
    assert("s3"@.len() == 2);
    reveal_strlit("dynamodb");
    assert("dynamodb"@.len() == 8);
    reveal_strlit("dynamodbstreams");
    assert("dynamodbstreams"@.len() == 15);
    reveal_strlit("rds");
    assert("rds"@.len() == 3);
    reveal_strlit("elasticache");
    assert("elasticache"@.len() == 11);
    reveal_strlit("opensearch");
    assert("opensearch"@.len() == 10);
    reveal_strlit("glue");
    assert("glue"@.len() == 4);
    reveal_strlit("athena");
    assert("athena"@.len() == 6);
    reveal_strlit("firehose");
    assert("firehose"@.len() == 8);
    reveal_strlit("backup");
    assert("backup"@.len() == 6);
    reveal_strlit("sqs");
    assert("sqs"@.len() == 3);
    reveal_strlit("sns");
    assert("sns"@.len() == 3);
    reveal_strlit("ses");
    assert("ses"@.len() == 3);
    reveal_strlit("sesv2");
    assert("sesv2"@.len() == 5);
    reveal_strlit("kinesis");
    assert("kinesis"@.len() == 7);
    reveal_strlit("eventbridge");
    assert("eventbridge"@.len() == 11);
    reveal_strlit("scheduler");
    assert("scheduler"@.len() == 9);
    reveal_strlit("stepfunctions");
    assert("stepfunctions"@.len() == 13);
    reveal_strlit("cloudformation");
    assert("cloudformation"@.len() == 14);
    reveal_strlit("lambda");
    assert("lambda"@.len() == 6);
    reveal_strlit("ec2");
    assert("ec2"@.len() == 3);
    reveal_strlit("ecs");
    assert("ecs"@.len() == 3);
    reveal_strlit("eks");
    assert("eks"@.len() == 3);
    reveal_strlit("ecr");
    assert("ecr"@.len() == 3);
    reveal_strlit("msk");
    assert("msk"@.len() == 3);
    reveal_strlit("codebuild");
    assert("codebuild"@.len() == 9);
    reveal_strlit("codedeploy");
    assert("codedeploy"@.len() == 10);
    reveal_strlit("autoscaling");
    assert("autoscaling"@.len() == 11);
    assert("autoscaling"@[0] != "elasticache"@[0]);
    assert("autoscaling"@[0] != "eventbridge"@[0]);
    assert(catalog_keys()[27] == "autoscaling"@);
}

proof fn lemma_key_rank_28()
    ensures
        key_rank(catalog_keys()[28]) == 28,
{
    broadcast use vstd::string::group_string_axioms;
    reveal_strlit("s3");
    assert("s3"@.len() == 2);
    reveal_strlit("dynamodb");
    assert("dynamodb"@.len() == 8);
    reveal_strlit("dynamodbstreams");
    assert("dynamodbstreams"@.len() == 15);
    reveal_strlit("rds");
    assert("rds"@.len() == 3);
    reveal_strlit("elasticache");
    assert("elasticache"@.len() == 11);
    reveal_strlit("opensearch");
    assert("opensearch"@.len() == 10);
    reveal_strlit("glue");
    assert("glue"@.len() == 4);
    reveal_strlit("athena");
    assert("athena"@.len() == 6);
    reveal_strlit("firehose");
    assert("firehose"@.len() == 8);
    reveal_strlit("backup");
    assert("backup"@.len() == 6);
    reveal_strlit("sqs");
    assert("sqs"@.len() == 3);
    reveal_strlit("sns");
    assert("sns"@.len() == 3);
    reveal_strlit("ses");
    assert("ses"@.len() == 3);
    reveal_strlit("sesv2");
    assert("sesv2"@.len() == 5);
    reveal_strlit("kinesis");
    assert("kinesis"@.len() == 7);
    reveal_strlit("eventbridge");
    assert("eventbridge"@.len() == 11);
    reveal_strlit("scheduler");
    assert("scheduler"@.len() == 9);
    reveal_strlit("stepfunctions");
    assert("stepfunctions"@.len() == 13);
    reveal_strlit("cloudformation");
    assert("cloudformation"@.len() == 14);
    reveal_strlit("lambda");
    assert("lambda"@.len() == 6);
    reveal_strlit("ec2");
    assert("ec2"@.len() == 3);
    reveal_strlit("ecs");
    assert("ecs"@.len() == 3);
    reveal_strlit("eks");
    assert("eks"@.len() == 3);
    reveal_strlit("ecr");
    assert("ecr"@.len() == 3);
    reveal_strlit("msk");
    assert("msk"@.len() == 3);
    reveal_strlit("codebuild");
    assert("codebuild"@.len() == 9);
    reveal_strlit("codedeploy");
    assert("codedeploy"@.len() == 10);
    reveal_strlit("autoscaling");
    assert("autoscaling"@.len() == 11);
    reveal_strlit("bedrockruntime");
    assert("bedrockruntime"@.len() == 14);
    assert("bedrockruntime"@[0] != "cloudformation"@[0]);
    assert(catalog_keys()[28] == "bedrockruntime"@);
}

proof fn lemma_key_rank_29()
    ensures
        key_rank(catalog_keys()[29]) == 29,
{
    broadcast use vstd::string::group_string_axioms;
    reveal_strlit("s3");
    assert("s3"@.len() == 2);
    reveal_strlit("dynamodb");
    assert("dynamodb"@.len() == 8);
    reveal_strlit("dynamodbstreams");
    assert("dynamodbstreams"@.len() == 15);
    reveal_strlit("rds");
    assert("rds"@.len() == 3);
    reveal_strlit("elasticache");
    assert("elasticache"@.len() == 11);
    reveal_strlit("opensearch");
    assert("opensearch"@.len() == 10);
    reveal_strlit("glue");
    assert("glue"@.len() == 4);
    reveal_strlit("athena");
    assert("athena"@.len() == 6);
    reveal_strlit("firehose");
    assert("firehose"@.len() == 8);
    reveal_strlit("backup");
    assert("backup"@.len() == 6);
    reveal_strlit("sqs");
    assert("sqs"@.len() == 3);
    reveal_strlit("sns");
    assert("sns"@.len() == 3);
    reveal_strlit("ses");
    assert("ses"@.len() == 3);
    reveal_strlit("sesv2");
    assert("sesv2"@.len() == 5);
    reveal_strlit("kinesis");
    assert("kinesis"@.len() == 7);
    reveal_strlit("eventbridge");
    assert("eventbridge"@.len() == 11);
    reveal_strlit("scheduler");
    assert("scheduler"@.len() == 9);
    reveal_strlit("stepfunctions");
    assert("stepfunctions"@.len() == 13);
    reveal_strlit("cloudformation");
    assert("cloudformation"@.len() == 14);
    reveal_strlit("lambda");
    assert("lambda"@.len() == 6);
    reveal_strlit("ec2");
    assert("ec2"@.len() == 3);
    reveal_strlit("ecs");
    assert("ecs"@.len() == 3);
    reveal_strlit("eks");
    assert("eks"@.len() == 3);
    reveal_strlit("ecr");
    assert("ecr"@.len() == 3);
    reveal_strlit("msk");
    assert("msk"@.len() == 3);
    reveal_strlit("codebuild");
    assert("codebuild"@.len() == 9);
    reveal_strlit("codedeploy");
    assert("codedeploy"@.len() == 10);
    reveal_strlit("autoscaling");
    assert("autoscaling"@.len() == 11);
    reveal_strlit("bedrockruntime");
    assert("bedrockruntime"@.len() == 14);
    reveal_strlit("iam");
    assert("iam"@.len() == 3);
    assert("iam"@[0] != "rds"@[0]);
    assert("iam"@[0] != "sqs"@[0]);
    assert("iam"@[0] != "sns"@[0]);
    assert("iam"@[0] != "ses"@[0]);
    assert("iam"@[0] != "ec2"@[0]);
    assert("iam"@[0] != "ecs"@[0]);
    assert("iam"@[0] != "eks"@[0]);
    assert("iam"@[0] != "ecr"@[0]);
    assert("iam"@[0] != "msk"@[0]);
    assert(catalog_keys()[29] == "iam"@);
}

proof fn lemma_key_rank_30()
    ensures
        key_rank(catalog_keys()[30]) == 30,
{
    broadcast use vstd::string::group_string_axioms;
    reveal_strlit("s3");
    assert("s3"@.len() == 2);
    reveal_strlit("dynamodb");
    assert("dynamodb"@.len() == 8);
    reveal_strlit("dynamodbstreams");
    assert("dynamodbstreams"@.len() == 15);
    reveal_strlit("rds");
    assert("rds"@.len() == 3);
    reveal_strlit("elasticache");
    assert("elasticache"@.len() == 11);
    reveal_strlit("opensearch");
    assert("opensearch"@.len() == 10);
    reveal_strlit("glue");
    assert("glue"@.len() == 4);
    reveal_strlit("athena");
    assert("athena"@.len() == 6);
    reveal_strlit("firehose");
    assert("firehose"@.len() == 8);
    reveal_strlit("backup");
    assert("backup"@.len() == 6);
    reveal_strlit("sqs");
    assert("sqs"@.len() == 3);
    reveal_strlit("sns");
    assert("sns"@.len() == 3);
    reveal_strlit("ses");
    assert("ses"@.len() == 3);
    reveal_strlit("sesv2");
    assert("sesv2"@.len() == 5);
    reveal_strlit("kinesis");
    assert("kinesis"@.len() == 7);
    reveal_strlit("eventbridge");
    assert("eventbridge"@.len() == 11);
    reveal_strlit("scheduler");
    assert("scheduler"@.len() == 9);
    reveal_strlit("stepfunctions");
    assert("stepfunctions"@.len() == 13);
    reveal_strlit("cloudformation");
    assert("cloudformation"@.len() == 14);
    reveal_strlit("lambda");
    assert("lambda"@.len() == 6);
    reveal_strlit("ec2");
    assert("ec2"@.len() == 3);
    reveal_strlit("ecs");
    assert("ecs"@.len() == 3);
    reveal_strlit("eks");
    assert("eks"@.len() == 3);
    reveal_strlit("ecr");
    assert("ecr"@.len() == 3);
    reveal_strlit("msk");
    assert("msk"@.len() == 3);
    reveal_strlit("codebuild");
    assert("codebuild"@.len() == 9);
    reveal_strlit("codedeploy");
    assert("codedeploy"@.len() == 10);
    reveal_strlit("autoscaling");
    assert("autoscaling"@.len() == 11);
    reveal_strlit("bedrockruntime");
    assert("bedrockruntime"@.len() == 14);
    reveal_strlit("iam");
    assert("iam"@.len() == 3);
    reveal_strlit("sts");
    assert("sts"@.len() == 3);
    assert("sts"@[0] != "rds"@[0]);
    assert("sts"@[1] != "sqs"@[1]);
    assert("sts"@[1] != "sns"@[1]);
    assert("sts"@[1] != "ses"@[1]);
    assert("sts"@[0] != "ec2"@[0]);
    assert("sts"@[0] != "ecs"@[0]);
    assert("sts"@[0] != "eks"@[0]);
    assert("sts"@[0] != "ecr"@[0]);
    assert("sts"@[0] != "msk"@[0]);
    assert("sts"@[0] != "iam"@[0]);
    assert(catalog_keys()[30] == "sts"@);
}

proof fn lemma_key_rank_31()
    ensures
        key_rank(catalog_keys()[31]) == 31,
{
    broadcast use vstd::string::group_string_axioms;
    reveal_strlit("s3");
    assert("s3"@.len() == 2);
    reveal_strlit("dynamodb");
    assert("dynamodb"@.len() == 8);
    reveal_strlit("dynamodbstreams");
    assert("dynamodbstreams"@.len() == 15);
    reveal_strlit("rds");
    assert("rds"@.len() == 3);
    reveal_strlit("elasticache");
    assert("elasticache"@.len() == 11);
    reveal_strlit("opensearch");
    assert("opensearch"@.len() == 10);
    reveal_strlit("glue");
    assert("glue"@.len() == 4);
    reveal_strlit("athena");
    assert("athena"@.len() == 6);
    reveal_strlit("firehose");
    assert("firehose"@.len() == 8);
    reveal_strlit("backup");
    assert("backup"@.len() == 6);
    reveal_strlit("sqs");
    assert("sqs"@.len() == 3);
    reveal_strlit("sns");
    assert("sns"@.len() == 3);
    reveal_strlit("ses");
    assert("ses"@.len() == 3);
    reveal_strlit("sesv2");
    assert("sesv2"@.len() == 5);
    reveal_strlit("kinesis");
    assert("kinesis"@.len() == 7);
    reveal_strlit("eventbridge");
    assert("eventbridge"@.len() == 11);
    reveal_strlit("scheduler");
    assert("scheduler"@.len() == 9);
    reveal_strlit("stepfunctions");
    assert("stepfunctions"@.len() == 13);
    reveal_strlit("cloudformation");
    assert("cloudformation"@.len() == 14);
    reveal_strlit("lambda");
    assert("lambda"@.len() == 6);
    reveal_strlit("ec2");
    assert("ec2"@.len() == 3);
    reveal_strlit("ecs");
    assert("ecs"@.len() == 3);
    reveal_strlit("eks");
    assert("eks"@.len() == 3);
    reveal_strlit("ecr");
    assert("ecr"@.len() == 3);
    reveal_strlit("msk");
    assert("msk"@.len() == 3);
    reveal_strlit("codebuild");
    assert("codebuild"@.len() == 9);
    reveal_strlit("codedeploy");
    assert("codedeploy"@.len() == 10);
    reveal_strlit("autoscaling");
    assert("autoscaling"@.len() == 11);
    reveal_strlit("bedrockruntime");
    assert("bedrockruntime"@.len() == 14);
    reveal_strlit("iam");
    assert("iam"@.len() == 3);
    reveal_strlit("sts");
    assert("sts"@.len() == 3);
    reveal_strlit("cognito");
    assert("cognito"@.len() == 7);
    assert("cognito"@[0] != "kinesis"@[0]);
    assert(catalog_keys()[31] == "cognito"@);
}

proof fn lemma_key_rank_32()
    ensures
        key_rank(catalog_keys()[32]) == 32,
{
    broadcast use vstd::string::group_string_axioms;
    reveal_strlit("s3");
    assert("s3"@.len() == 2);
    reveal_strlit("dynamodb");
    assert("dynamodb"@.len() == 8);
    reveal_strlit("dynamodbstreams");
    assert("dynamodbstreams"@.len() == 15);
    reveal_strlit("rds");
    assert("rds"@.len() == 3);
    reveal_strlit("elasticache");
    assert("elasticache"@.len() == 11);
    reveal_strlit("opensearch");
    assert("opensearch"@.len() == 10);
    reveal_strlit("glue");
    assert("glue"@.len() == 4);
    reveal_strlit("athena");
    assert("athena"@.len() == 6);
    reveal_strlit("firehose");
    assert("firehose"@.len() == 8);
    reveal_strlit("backup");
    assert("backup"@.len() == 6);
    reveal_strlit("sqs");
    assert("sqs"@.len() == 3);
    reveal_strlit("sns");
    assert("sns"@.len() == 3);
    reveal_strlit("ses");
    assert("ses"@.len() == 3);
    reveal_strlit("sesv2");
    assert("sesv2"@.len() == 5);
    reveal_strlit("kinesis");
    assert("kinesis"@.len() == 7);
    reveal_strlit("eventbridge");
    assert("eventbridge"@.len() == 11);
    reveal_strlit("scheduler");
    assert("scheduler"@.len() == 9);
    reveal_strlit("stepfunctions");
    assert("stepfunctions"@.len() == 13);
    reveal_strlit("cloudformation");
    assert("cloudformation"@.len() == 14);
    reveal_strlit("lambda");
    assert("lambda"@.len() == 6);
    reveal_strlit("ec2");
    assert("ec2"@.len() == 3);
    reveal_strlit("ecs");
    assert("ecs"@.len() == 3);
    reveal_strlit("eks");
    assert("eks"@.len() == 3);
    reveal_strlit("ecr");
    assert("ecr"@.len() == 3);
    reveal_strlit("msk");
    assert("msk"@.len() == 3);
    reveal_strlit("codebuild");
    assert("codebuild"@.len() == 9);
    reveal_strlit("codedeploy");
    assert("codedeploy"@.len() == 10);
    reveal_strlit("autoscaling");
    assert("autoscaling"@.len() == 11);
    reveal_strlit("bedrockruntime");
    assert("bedrockruntime"@.len() == 14);
    reveal_strlit("iam");
    assert("iam"@.len() == 3);
    reveal_strlit("sts");
    assert("sts"@.len() == 3);
    reveal_strlit("cognito");
    assert("cognito"@.len() == 7);
    reveal_strlit("kms");
    assert("kms"@.len() == 3);
    assert("kms"@[0] != "rds"@[0]);
    assert("kms"@[0] != "sqs"@[0]);
    assert("kms"@[0] != "sns"@[0]);
    assert("kms"@[0] != "ses"@[0]);
    assert("kms"@[0] != "ec2"@[0]);
    assert("kms"@[0] != "ecs"@[0]);
    assert("kms"@[0] != "eks"@[0]);
    assert("kms"@[0] != "ecr"@[0]);
    assert("kms"@[0] != "msk"@[0]);
    assert("kms"@[0] != "iam"@[0]);
    assert("kms"@[0] != "sts"@[0]);
    assert(catalog_keys()[32] == "kms"@);
}

proof fn lemma_key_rank_33()
    ensures
        key_rank(catalog_keys()[33]) == 33,
{
    broadcast use vstd::string::group_string_axioms;
    reveal_strlit("s3");
    assert("s3"@.len() == 2);
    reveal_strlit("dynamodb");
    assert("dynamodb"@.len() == 8);
    reveal_strlit("dynamodbstreams");
    assert("dynamodbstreams"@.len() == 15);
    reveal_strlit("rds");
    assert("rds"@.len() == 3);
    reveal_strlit("elasticache");
    assert("elasticache"@.len() == 11);
    reveal_strlit("opensearch");
    assert("opensearch"@.len() == 10);
    reveal_strlit("glue");
    assert("glue"@.len() == 4);
    reveal_strlit("athena");
    assert("athena"@.len() == 6);
    reveal_strlit("firehose");
    assert("firehose"@.len() == 8);
    reveal_strlit("backup");
    assert("backup"@.len() == 6);
    reveal_strlit("sqs");
    assert("sqs"@.len() == 3);
    reveal_strlit("sns");
    assert("sns"@.len() == 3);
    reveal_strlit("ses");
    assert("ses"@.len() == 3);
    reveal_strlit("sesv2");
    assert("sesv2"@.len() == 5);
    reveal_strlit("kinesis");
    assert("kinesis"@.len() == 7);
    reveal_strlit("eventbridge");
    assert("eventbridge"@.len() == 11);
    reveal_strlit("scheduler");
    assert("scheduler"@.len() == 9);
    reveal_strlit("stepfunctions");
    assert("stepfunctions"@.len() == 13);
    reveal_strlit("cloudformation");
    assert("cloudformation"@.len() == 14);
    reveal_strlit("lambda");
    assert("lambda"@.len() == 6);
    reveal_strlit("ec2");
    assert("ec2"@.len() == 3);
    reveal_strlit("ecs");
    assert("ecs"@.len() == 3);
    reveal_strlit("eks");
    assert("eks"@.len() == 3);
    reveal_strlit("ecr");
    assert("ecr"@.len() == 3);
    reveal_strlit("msk");
    assert("msk"@.len() == 3);
    reveal_strlit("codebuild");
    assert("codebuild"@.len() == 9);
    reveal_strlit("codedeploy");
    assert("codedeploy"@.len() == 10);
    reveal_strlit("autoscaling");
    assert("autoscaling"@.len() == 11);
    reveal_strlit("bedrockruntime");
    assert("bedrockruntime"@.len() == 14);
    reveal_strlit("iam");
    assert("iam"@.len() == 3);
    reveal_strlit("sts");
    assert("sts"@.len() == 3);
    reveal_strlit("cognito");
    assert("cognito"@.len() == 7);
    reveal_strlit("kms");
    assert("kms"@.len() == 3);
    reveal_strlit("secretsmanager");
    assert("secretsmanager"@.len() == 14);
    assert("secretsmanager"@[0] != "cloudformation"@[0]);
    assert("secretsmanager"@[0] != "bedrockruntime"@[0]);
    assert(catalog_keys()[33] == "secretsmanager"@);
}

proof fn lemma_key_rank_34()
    ensures
        key_rank(catalog_keys()[34]) == 34,
{
    broadcast use vstd::string::group_string_axioms;
    reveal_strlit("s3");
    assert("s3"@.len() == 2);
    reveal_strlit("dynamodb");
    assert("dynamodb"@.len() == 8);
    reveal_strlit("dynamodbstreams");
    assert("dynamodbstreams"@.len() == 15);
    reveal_strlit("rds");
    assert("rds"@.len() == 3);
    reveal_strlit("elasticache");
    assert("elasticache"@.len() == 11);
    reveal_strlit("opensearch");
    assert("opensearch"@.len() == 10);
    reveal_strlit("glue");
    assert("glue"@.len() == 4);
    reveal_strlit("athena");
    assert("athena"@.len() == 6);
    reveal_strlit("firehose");
    assert("firehose"@.len() == 8);
    reveal_strlit("backup");
    assert("backup"@.len() == 6);
    reveal_strlit("sqs");
    assert("sqs"@.len() == 3);
    reveal_strlit("sns");
    assert("sns"@.len() == 3);
    reveal_strlit("ses");
    assert("ses"@.len() == 3);
    reveal_strlit("sesv2");
    assert("sesv2"@.len() == 5);
    reveal_strlit("kinesis");
    assert("kinesis"@.len() == 7);
    reveal_strlit("eventbridge");
    assert("eventbridge"@.len() == 11);
    reveal_strlit("scheduler");
    assert("scheduler"@.len() == 9);
    reveal_strlit("stepfunctions");
    assert("stepfunctions"@.len() == 13);
    reveal_strlit("cloudformation");
    assert("cloudformation"@.len() == 14);
    reveal_strlit("lambda");
    assert("lambda"@.len() == 6);
    reveal_strlit("ec2");
    assert("ec2"@.len() == 3);
    reveal_strlit("ecs");
    assert("ecs"@.len() == 3);
    reveal_strlit("eks");
    assert("eks"@.len() == 3);
    reveal_strlit("ecr");
    assert("ecr"@.len() == 3);
    reveal_strlit("msk");
    assert("msk"@.len() == 3);
    reveal_strlit("codebuild");
    assert("codebuild"@.len() == 9);
    reveal_strlit("codedeploy");
    assert("codedeploy"@.len() == 10);
    reveal_strlit("autoscaling");
    assert("autoscaling"@.len() == 11);
    reveal_strlit("bedrockruntime");
    assert("bedrockruntime"@.len() == 14);
    reveal_strlit("iam");
    assert("iam"@.len() == 3);
    reveal_strlit("sts");
    assert("sts"@.len() == 3);
    reveal_strlit("cognito");
    assert("cognito"@.len() == 7);
    reveal_strlit("kms");
    assert("kms"@.len() == 3);
    reveal_strlit("secretsmanager");
    assert("secretsmanager"@.len() == 14);
    reveal_strlit("ssm");
    assert("ssm"@.len() == 3);
    assert("ssm"@[0] != "rds"@[0]);
    assert("ssm"@[1] != "sqs"@[1]);
    assert("ssm"@[1] != "sns"@[1]);
    assert("ssm"@[1] != "ses"@[1]);
    assert("ssm"@[0] != "ec2"@[0]);
    assert("ssm"@[0] != "ecs"@[0]);
    assert("ssm"@[0] != "eks"@[0]);
    assert("ssm"@[0] != "ecr"@[0]);
    assert("ssm"@[0] != "msk"@[0]);
    assert("ssm"@[0] != "iam"@[0]);
    assert("ssm"@[1] != "sts"@[1]);
    assert("ssm"@[0] != "kms"@[0]);
    assert(catalog_keys()[34] == "ssm"@);
}

proof fn lemma_key_rank_35()
    ensures
        key_rank(catalog_keys()[35]) == 35,
{
    broadcast use vstd::string::group_string_axioms;
    reveal_strlit("s3");
    assert("s3"@.len() == 2);
    reveal_strlit("dynamodb");
    assert("dynamodb"@.len() == 8);
    reveal_strlit("dynamodbstreams");
    assert("dynamodbstreams"@.len() == 15);
    reveal_strlit("rds");
    assert("rds"@.len() == 3);
    reveal_strlit("elasticache");
    assert("elasticache"@.len() == 11);
    reveal_strlit("opensearch");
    assert("opensearch"@.len() == 10);
    reveal_strlit("glue");
    assert("glue"@.len() == 4);
    reveal_strlit("athena");
    assert("athena"@.len() == 6);
    reveal_strlit("firehose");
    assert("firehose"@.len() == 8);
    reveal_strlit("backup");
    assert("backup"@.len() == 6);
    reveal_strlit("sqs");
    assert("sqs"@.len() == 3);
    reveal_strlit("sns");
    assert("sns"@.len() == 3);
    reveal_strlit("ses");
    assert("ses"@.len() == 3);
    reveal_strlit("sesv2");
    assert("sesv2"@.len() == 5);
    reveal_strlit("kinesis");
    assert("kinesis"@.len() == 7);
    reveal_strlit("eventbridge");
    assert("eventbridge"@.len() == 11);
    reveal_strlit("scheduler");
    assert("scheduler"@.len() == 9);
    reveal_strlit("stepfunctions");
    assert("stepfunctions"@.len() == 13);
    reveal_strlit("cloudformation");
    assert("cloudformation"@.len() == 14);
    reveal_strlit("lambda");
    assert("lambda"@.len() == 6);
    reveal_strlit("ec2");
    assert("ec2"@.len() == 3);
    reveal_strlit("ecs");
    assert("ecs"@.len() == 3);
    reveal_strlit("eks");
    assert("eks"@.len() == 3);
    reveal_strlit("ecr");
    assert("ecr"@.len() == 3);
    reveal_strlit("msk");
    assert("msk"@.len() == 3);
    reveal_strlit("codebuild");
    assert("codebuild"@.len() == 9);
    reveal_strlit("codedeploy");
    assert("codedeploy"@.len() == 10);
    reveal_strlit("autoscaling");
    assert("autoscaling"@.len() == 11);
    reveal_strlit("bedrockruntime");
    assert("bedrockruntime"@.len() == 14);
    reveal_strlit("iam");
    assert("iam"@.len() == 3);
    reveal_strlit("sts");
    assert("sts"@.len() == 3);
    reveal_strlit("cognito");
    assert("cognito"@.len() == 7);
    reveal_strlit("kms");
    assert("kms"@.len() == 3);
    reveal_strlit("secretsmanager");
    assert("secretsmanager"@.len() == 14);
    reveal_strlit("ssm");
    assert("ssm"@.len() == 3);
    reveal_strlit("appconfig");
    assert("appconfig"@.len() == 9);
    assert("appconfig"@[0] != "scheduler"@[0]);
    assert("appconfig"@[0] != "codebuild"@[0]);
    assert(catalog_keys()[35] == "appconfig"@);
}

proof fn lemma_key_rank_36()
    ensures
        key_rank(catalog_keys()[36]) == 36,
{
    broadcast use vstd::string::group_string_axioms;
    reveal_strlit("s3");
    assert("s3"@.len() == 2);
    reveal_strlit("dynamodb");
    assert("dynamodb"@.len() == 8);
    reveal_strlit("dynamodbstreams");
    assert("dynamodbstreams"@.len() == 15);
    reveal_strlit("rds");
    assert("rds"@.len() == 3);
    reveal_strlit("elasticache");
    assert("elasticache"@.len() == 11);
    reveal_strlit("opensearch");
    assert("opensearch"@.len() == 10);
    reveal_strlit("glue");
    assert("glue"@.len() == 4);
    reveal_strlit("athena");
    assert("athena"@.len() == 6);
    reveal_strlit("firehose");
    assert("firehose"@.len() == 8);
    reveal_strlit("backup");
    assert("backup"@.len() == 6);
    reveal_strlit("sqs");
    assert("sqs"@.len() == 3);
    reveal_strlit("sns");
    assert("sns"@.len() == 3);
    reveal_strlit("ses");
    assert("ses"@.len() == 3);
    reveal_strlit("sesv2");
    assert("sesv2"@.len() == 5);
    reveal_strlit("kinesis");
    assert("kinesis"@.len() == 7);
    reveal_strlit("eventbridge");
    assert("eventbridge"@.len() == 11);
    reveal_strlit("scheduler");
    assert("scheduler"@.len() == 9);
    reveal_strlit("stepfunctions");
    assert("stepfunctions"@.len() == 13);
    reveal_strlit("cloudformation");
    assert("cloudformation"@.len() == 14);
    reveal_strlit("lambda");
    assert("lambda"@.len() == 6);
    reveal_strlit("ec2");
    assert("ec2"@.len() == 3);
    reveal_strlit("ecs");
    assert("ecs"@.len() == 3);
    reveal_strlit("eks");
    assert("eks"@.len() == 3);
    reveal_strlit("ecr");
    assert("ecr"@.len() == 3);
    reveal_strlit("msk");
    assert("msk"@.len() == 3);
    reveal_strlit("codebuild");
    assert("codebuild"@.len() == 9);
    reveal_strlit("codedeploy");
    assert("codedeploy"@.len() == 10);
    reveal_strlit("autoscaling");
    assert("autoscaling"@.len() == 11);
    reveal_strlit("bedrockruntime");
    assert("bedrockruntime"@.len() == 14);
    reveal_strlit("iam");
    assert("iam"@.len() == 3);
    reveal_strlit("sts");
    assert("sts"@.len() == 3);
    reveal_strlit("cognito");
    assert("cognito"@.len() == 7);
    reveal_strlit("kms");
    assert("kms"@.len() == 3);
    reveal_strlit("secretsmanager");
    assert("secretsmanager"@.len() == 14);
    reveal_strlit("ssm");
    assert("ssm"@.len() == 3);
    reveal_strlit("appconfig");
    assert("appconfig"@.len() == 9);
    reveal_strlit("appconfigdata");
    assert("appconfigdata"@.len() == 13);
    assert("appconfigdata"@[0] != "stepfunctions"@[0]);
    assert(catalog_keys()[36] == "appconfigdata"@);
}

proof fn lemma_key_rank_37()
    ensures
        key_rank(catalog_keys()[37]) == 37,
{
    broadcast use vstd::string::group_string_axioms;
    reveal_strlit("s3");
    assert("s3"@.len() == 2);
    reveal_strlit("dynamodb");
    assert("dynamodb"@.len() == 8);
    reveal_strlit("dynamodbstreams");
    assert("dynamodbstreams"@.len() == 15);
    reveal_strlit("rds");
    assert("rds"@.len() == 3);
    reveal_strlit("elasticache");
    assert("elasticache"@.len() == 11);
    reveal_strlit("opensearch");
    assert("opensearch"@.len() == 10);
    reveal_strlit("glue");
    assert("glue"@.len() == 4);
    reveal_strlit("athena");
    assert("athena"@.len() == 6);
    reveal_strlit("firehose");
    assert("firehose"@.len() == 8);
    reveal_strlit("backup");
    assert("backup"@.len() == 6);
    reveal_strlit("sqs");
    assert("sqs"@.len() == 3);
    reveal_strlit("sns");
    assert("sns"@.len() == 3);
    reveal_strlit("ses");
    assert("ses"@.len() == 3);
    reveal_strlit("sesv2");
    assert("sesv2"@.len() == 5);
    reveal_strlit("kinesis");
    assert("kinesis"@.len() == 7);
    reveal_strlit("eventbridge");
    assert("eventbridge"@.len() == 11);
    reveal_strlit("scheduler");
    assert("scheduler"@.len() == 9);
    reveal_strlit("stepfunctions");
    assert("stepfunctions"@.len() == 13);
    reveal_strlit("cloudformation");
    assert("cloudformation"@.len() == 14);
    reveal_strlit("lambda");
    assert("lambda"@.len() == 6);
    reveal_strlit("ec2");
    assert("ec2"@.len() == 3);
    reveal_strlit("ecs");
    assert("ecs"@.len() == 3);
    reveal_strlit("eks");
    assert("eks"@.len() == 3);
    reveal_strlit("ecr");
    assert("ecr"@.len() == 3);
    reveal_strlit("msk");
    assert("msk"@.len() == 3);
    reveal_strlit("codebuild");
    assert("codebuild"@.len() == 9);
    reveal_strlit("codedeploy");
    assert("codedeploy"@.len() == 10);
    reveal_strlit("autoscaling");
    assert("autoscaling"@.len() == 11);
    reveal_strlit("bedrockruntime");
    assert("bedrockruntime"@.len() == 14);
    reveal_strlit("iam");
    assert("iam"@.len() == 3);
    reveal_strlit("sts");
    assert("sts"@.len() == 3);
    reveal_strlit("cognito");
    assert("cognito"@.len() == 7);
    reveal_strlit("kms");
    assert("kms"@.len() == 3);
    reveal_strlit("secretsmanager");
    assert("secretsmanager"@.len() == 14);
    reveal_strlit("ssm");
    assert("ssm"@.len() == 3);
    reveal_strlit("appconfig");
    assert("appconfig"@.len() == 9);
    reveal_strlit("appconfigdata");
    assert("appconfigdata"@.len() == 13);
    reveal_strlit("acm");
    assert("acm"@.len() == 3);
    assert("acm"@[0] != "rds"@[0]);
    assert("acm"@[0] != "sqs"@[0]);
    assert("acm"@[0] != "sns"@[0]);
    assert("acm"@[0] != "ses"@[0]);
    assert("acm"@[0] != "ec2"@[0]);
    assert("acm"@[0] != "ecs"@[0]);
    assert("acm"@[0] != "eks"@[0]);
    assert("acm"@[0] != "ecr"@[0]);
    assert("acm"@[0] != "msk"@[0]);
    assert("acm"@[0] != "iam"@[0]);
    assert("acm"@[0] != "sts"@[0]);
    assert("acm"@[0] != "kms"@[0]);
    assert("acm"@[0] != "ssm"@[0]);
    assert(catalog_keys()[37] == "acm"@);
}

proof fn lemma_key_rank_38()
    ensures
        key_rank(catalog_keys()[38]) == 38,
{
    broadcast use vstd::string::group_string_axioms;
    reveal_strlit("s3");
    assert("s3"@.len() == 2);
    reveal_strlit("dynamodb");
    assert("dynamodb"@.len() == 8);
    reveal_strlit("dynamodbstreams");
    assert("dynamodbstreams"@.len() == 15);
    reveal_strlit("rds");
    assert("rds"@.len() == 3);
    reveal_strlit("elasticache");
    assert("elasticache"@.len() == 11);
    reveal_strlit("opensearch");
    assert("opensearch"@.len() == 10);
    reveal_strlit("glue");
    assert("glue"@.len() == 4);
    reveal_strlit("athena");
    assert("athena"@.len() == 6);
    reveal_strlit("firehose");
    assert("firehose"@.len() == 8);
    reveal_strlit("backup");
    assert("backup"@.len() == 6);
    reveal_strlit("sqs");
    assert("sqs"@.len() == 3);
    reveal_strlit("sns");
    assert("sns"@.len() == 3);
    reveal_strlit("ses");
    assert("ses"@.len() == 3);
    reveal_strlit("sesv2");
    assert("sesv2"@.len() == 5);
    reveal_strlit("kinesis");
    assert("kinesis"@.len() == 7);
    reveal_strlit("eventbridge");
    assert("eventbridge"@.len() == 11);
    reveal_strlit("scheduler");
    assert("scheduler"@.len() == 9);
    reveal_strlit("stepfunctions");
    assert("stepfunctions"@.len() == 13);
    reveal_strlit("cloudformation");
    assert("cloudformation"@.len() == 14);
    reveal_strlit("lambda");
    assert("lambda"@.len() == 6);
    reveal_strlit("ec2");
    assert("ec2"@.len() == 3);
    reveal_strlit("ecs");
    assert("ecs"@.len() == 3);
    reveal_strlit("eks");
    assert("eks"@.len() == 3);
    reveal_strlit("ecr");
    assert("ecr"@.len() == 3);
    reveal_strlit("msk");
    assert("msk"@.len() == 3);
    reveal_strlit("codebuild");
    assert("codebuild"@.len() == 9);
    reveal_strlit("codedeploy");
    assert("codedeploy"@.len() == 10);
    reveal_strlit("autoscaling");
    assert("autoscaling"@.len() == 11);
    reveal_strlit("bedrockruntime");
    assert("bedrockruntime"@.len() == 14);
    reveal_strlit("iam");
    assert("iam"@.len() == 3);
    reveal_strlit("sts");
    assert("sts"@.len() == 3);
    reveal_strlit("cognito");
    assert("cognito"@.len() == 7);
    reveal_strlit("kms");
    assert("kms"@.len() == 3);
    reveal_strlit("secretsmanager");
    assert("secretsmanager"@.len() == 14);
    reveal_strlit("ssm");
    assert("ssm"@.len() == 3);
    reveal_strlit("appconfig");
    assert("appconfig"@.len() == 9);
    reveal_strlit("appconfigdata");
    assert("appconfigdata"@.len() == 13);
    reveal_strlit("acm");
    assert("acm"@.len() == 3);
    reveal_strlit("apigateway");
    assert("apigateway"@.len() == 10);
    assert("apigateway"@[0] != "opensearch"@[0]);
    assert("apigateway"@[0] != "codedeploy"@[0]);
    assert(catalog_keys()[38] == "apigateway"@);
}

proof fn lemma_key_rank_39()
    ensures
        key_rank(catalog_keys()[39]) == 39,
{
    broadcast use vstd::string::group_string_axioms;
    reveal_strlit("s3");
    assert("s3"@.len() == 2);
    reveal_strlit("dynamodb");
    assert("dynamodb"@.len() == 8);
    reveal_strlit("dynamodbstreams");
    assert("dynamodbstreams"@.len() == 15);
    reveal_strlit("rds");
    assert("rds"@.len() == 3);
    reveal_strlit("elasticache");
    assert("elasticache"@.len() == 11);
    reveal_strlit("opensearch");
    assert("opensearch"@.len() == 10);
    reveal_strlit("glue");
    assert("glue"@.len() == 4);
    reveal_strlit("athena");
    assert("athena"@.len() == 6);
    reveal_strlit("firehose");
    assert("firehose"@.len() == 8);
    reveal_strlit("backup");
    assert("backup"@.len() == 6);
    reveal_strlit("sqs");
    assert("sqs"@.len() == 3);
    reveal_strlit("sns");
    assert("sns"@.len() == 3);
    reveal_strlit("ses");
    assert("ses"@.len() == 3);
    reveal_strlit("sesv2");
    assert("sesv2"@.len() == 5);
    reveal_strlit("kinesis");
    assert("kinesis"@.len() == 7);
    reveal_strlit("eventbridge");
    assert("eventbridge"@.len() == 11);
    reveal_strlit("scheduler");
    assert("scheduler"@.len() == 9);
    reveal_strlit("stepfunctions");
    assert("stepfunctions"@.len() == 13);
    reveal_strlit("cloudformation");
    assert("cloudformation"@.len() == 14);
    reveal_strlit("lambda");
    assert("lambda"@.len() == 6);
    reveal_strlit("ec2");
    assert("ec2"@.len() == 3);
    reveal_strlit("ecs");
    assert("ecs"@.len() == 3);
    reveal_strlit("eks");
    assert("eks"@.len() == 3);
    reveal_strlit("ecr");
    assert("ecr"@.len() == 3);
    reveal_strlit("msk");
    assert("msk"@.len() == 3);
    reveal_strlit("codebuild");
    assert("codebuild"@.len() == 9);
    reveal_strlit("codedeploy");
    assert("codedeploy"@.len() == 10);
    reveal_strlit("autoscaling");
    assert("autoscaling"@.len() == 11);
    reveal_strlit("bedrockruntime");
    assert("bedrockruntime"@.len() == 14);
    reveal_strlit("iam");
    assert("iam"@.len() == 3);
    reveal_strlit("sts");
    assert("sts"@.len() == 3);
    reveal_strlit("cognito");
    assert("cognito"@.len() == 7);
    reveal_strlit("kms");
    assert("kms"@.len() == 3);
    reveal_strlit("secretsmanager");
    assert("secretsmanager"@.len() == 14);
    reveal_strlit("ssm");
    assert("ssm"@.len() == 3);
    reveal_strlit("appconfig");
    assert("appconfig"@.len() == 9);
    reveal_strlit("appconfigdata");
    assert("appconfigdata"@.len() == 13);
    reveal_strlit("acm");
    assert("acm"@.len() == 3);
    reveal_strlit("apigateway");
    assert("apigateway"@.len() == 10);
    reveal_strlit("apigatewayv2");
    assert("apigatewayv2"@.len() == 12);
    assert(catalog_keys()[39] == "apigatewayv2"@);
}

proof fn lemma_key_rank_40()
    ensures
        key_rank(catalog_keys()[40]) == 40,
{
    broadcast use vstd::string::group_string_axioms;
    reveal_strlit("s3");
    assert("s3"@.len() == 2);
    reveal_strlit("dynamodb");
    assert("dynamodb"@.len() == 8);
    reveal_strlit("dynamodbstreams");
    assert("dynamodbstreams"@.len() == 15);
    reveal_strlit("rds");
    assert("rds"@.len() == 3);
    reveal_strlit("elasticache");
    assert("elasticache"@.len() == 11);
    reveal_strlit("opensearch");
    assert("opensearch"@.len() == 10);
    reveal_strlit("glue");
    assert("glue"@.len() == 4);
    reveal_strlit("athena");
    assert("athena"@.len() == 6);
    reveal_strlit("firehose");
    assert("firehose"@.len() == 8);
    reveal_strlit("backup");
    assert("backup"@.len() == 6);
    reveal_strlit("sqs");
    assert("sqs"@.len() == 3);
    reveal_strlit("sns");
    assert("sns"@.len() == 3);
    reveal_strlit("ses");
    assert("ses"@.len() == 3);
    reveal_strlit("sesv2");
    assert("sesv2"@.len() == 5);
    reveal_strlit("kinesis");
    assert("kinesis"@.len() == 7);
    reveal_strlit("eventbridge");
    assert("eventbridge"@.len() == 11);
    reveal_strlit("scheduler");
    assert("scheduler"@.len() == 9);
    reveal_strlit("stepfunctions");
    assert("stepfunctions"@.len() == 13);
    reveal_strlit("cloudformation");
    assert("cloudformation"@.len() == 14);
    reveal_strlit("lambda");
    assert("lambda"@.len() == 6);
    reveal_strlit("ec2");
    assert("ec2"@.len() == 3);
    reveal_strlit("ecs");
    assert("ecs"@.len() == 3);
    reveal_strlit("eks");
    assert("eks"@.len() == 3);
    reveal_strlit("ecr");
    assert("ecr"@.len() == 3);
    reveal_strlit("msk");
    assert("msk"@.len() == 3);
    reveal_strlit("codebuild");
    assert("codebuild"@.len() == 9);
    reveal_strlit("codedeploy");
    assert("codedeploy"@.len() == 10);
    reveal_strlit("autoscaling");
    assert("autoscaling"@.len() == 11);
    reveal_strlit("bedrockruntime");
    assert("bedrockruntime"@.len() == 14);
    reveal_strlit("iam");
    assert("iam"@.len() == 3);
    reveal_strlit("sts");
    assert("sts"@.len() == 3);
    reveal_strlit("cognito");
    assert("cognito"@.len() == 7);
    reveal_strlit("kms");
    assert("kms"@.len() == 3);
    reveal_strlit("secretsmanager");
    assert("secretsmanager"@.len() == 14);
    reveal_strlit("ssm");
    assert("ssm"@.len() == 3);
    reveal_strlit("appconfig");
    assert("appconfig"@.len() == 9);
    reveal_strlit("appconfigdata");
    assert("appconfigdata"@.len() == 13);
    reveal_strlit("acm");
    assert("acm"@.len() == 3);
    reveal_strlit("apigateway");
    assert("apigateway"@.len() == 10);
    reveal_strlit("apigatewayv2");
    assert("apigatewayv2"@.len() == 12);
    reveal_strlit("elbv2");
    assert("elbv2"@.len() == 5);
    assert("elbv2"@[0] != "sesv2"@[0]);
    assert(catalog_keys()[40] == "elbv2"@);
}

proof fn lemma_key_rank_41()
    ensures
        key_rank(catalog_keys()[41]) == 41,
{
    broadcast use vstd::string::group_string_axioms;
    reveal_strlit("s3");
    assert("s3"@.len() == 2);
    reveal_strlit("dynamodb");
    assert("dynamodb"@.len() == 8);
    reveal_strlit("dynamodbstreams");
    assert("dynamodbstreams"@.len() == 15);
    reveal_strlit("rds");
    assert("rds"@.len() == 3);
    reveal_strlit("elasticache");
    assert("elasticache"@.len() == 11);
    reveal_strlit("opensearch");
    assert("opensearch"@.len() == 10);
    reveal_strlit("glue");
    assert("glue"@.len() == 4);
    reveal_strlit("athena");
    assert("athena"@.len() == 6);
    reveal_strlit("firehose");
    assert("firehose"@.len() == 8);
    reveal_strlit("backup");
    assert("backup"@.len() == 6);
    reveal_strlit("sqs");
    assert("sqs"@.len() == 3);
    reveal_strlit("sns");
    assert("sns"@.len() == 3);
    reveal_strlit("ses");
    assert("ses"@.len() == 3);
    reveal_strlit("sesv2");
    assert("sesv2"@.len() == 5);
    reveal_strlit("kinesis");
    assert("kinesis"@.len() == 7);
    reveal_strlit("eventbridge");
    assert("eventbridge"@.len() == 11);
    reveal_strlit("scheduler");
    assert("scheduler"@.len() == 9);
    reveal_strlit("stepfunctions");
    assert("stepfunctions"@.len() == 13);
    reveal_strlit("cloudformation");
    assert("cloudformation"@.len() == 14);
    reveal_strlit("lambda");
    assert("lambda"@.len() == 6);
    reveal_strlit("ec2");
    assert("ec2"@.len() == 3);
    reveal_strlit("ecs");
    assert("ecs"@.len() == 3);
    reveal_strlit("eks");
    assert("eks"@.len() == 3);
    reveal_strlit("ecr");
    assert("ecr"@.len() == 3);
    reveal_strlit("msk");
    assert("msk"@.len() == 3);
    reveal_strlit("codebuild");
    assert("codebuild"@.len() == 9);
    reveal_strlit("codedeploy");
    assert("codedeploy"@.len() == 10);
    reveal_strlit("autoscaling");
    assert("autoscaling"@.len() == 11);
    reveal_strlit("bedrockruntime");
    assert("bedrockruntime"@.len() == 14);
    reveal_strlit("iam");
    assert("iam"@.len() == 3);
    reveal_strlit("sts");
    assert("sts"@.len() == 3);
    reveal_strlit("cognito");
    assert("cognito"@.len() == 7);
    reveal_strlit("kms");
    assert("kms"@.len() == 3);
    reveal_strlit("secretsmanager");
    assert("secretsmanager"@.len() == 14);
    reveal_strlit("ssm");
    assert("ssm"@.len() == 3);
    reveal_strlit("appconfig");
    assert("appconfig"@.len() == 9);
    reveal_strlit("appconfigdata");
    assert("appconfigdata"@.len() == 13);
    reveal_strlit("acm");
    assert("acm"@.len() == 3);
    reveal_strlit("apigateway");
    assert("apigateway"@.len() == 10);
    reveal_strlit("apigatewayv2");
    assert("apigatewayv2"@.len() == 12);
    reveal_strlit("elbv2");
    assert("elbv2"@.len() == 5);
    reveal_strlit("route53");
    assert("route53"@.len() == 7);
    assert("route53"@[0] != "kinesis"@[0]);
    assert("route53"@[0] != "cognito"@[0]);
    assert(catalog_keys()[41] == "route53"@);
}

proof fn lemma_key_rank_42()
    ensures
        key_rank(catalog_keys()[42]) == 42,
{
    broadcast use vstd::string::group_string_axioms;
    reveal_strlit("s3");
    assert("s3"@.len() == 2);
    reveal_strlit("dynamodb");
    assert("dynamodb"@.len() == 8);
    reveal_strlit("dynamodbstreams");
    assert("dynamodbstreams"@.len() == 15);
    reveal_strlit("rds");
    assert("rds"@.len() == 3);
    reveal_strlit("elasticache");
    assert("elasticache"@.len() == 11);
    reveal_strlit("opensearch");
    assert("opensearch"@.len() == 10);
    reveal_strlit("glue");
    assert("glue"@.len() == 4);
    reveal_strlit("athena");
    assert("athena"@.len() == 6);
    reveal_strlit("firehose");
    assert("firehose"@.len() == 8);
    reveal_strlit("backup");
    assert("backup"@.len() == 6);
    reveal_strlit("sqs");
    assert("sqs"@.len() == 3);
    reveal_strlit("sns");
    assert("sns"@.len() == 3);
    reveal_strlit("ses");
    assert("ses"@.len() == 3);
    reveal_strlit("sesv2");
    assert("sesv2"@.len() == 5);
    reveal_strlit("kinesis");
    assert("kinesis"@.len() == 7);
    reveal_strlit("eventbridge");
    assert("eventbridge"@.len() == 11);
    reveal_strlit("scheduler");
    assert("scheduler"@.len() == 9);
    reveal_strlit("stepfunctions");
    assert("stepfunctions"@.len() == 13);
    reveal_strlit("cloudformation");
    assert("cloudformation"@.len() == 14);
    reveal_strlit("lambda");
    assert("lambda"@.len() == 6);
    reveal_strlit("ec2");
    assert("ec2"@.len() == 3);
    reveal_strlit("ecs");
    assert("ecs"@.len() == 3);
    reveal_strlit("eks");
    assert("eks"@.len() == 3);
    reveal_strlit("ecr");
    assert("ecr"@.len() == 3);
    reveal_strlit("msk");
    assert("msk"@.len() == 3);
    reveal_strlit("codebuild");
    assert("codebuild"@.len() == 9);
    reveal_strlit("codedeploy");
    assert("codedeploy"@.len() == 10);
    reveal_strlit("autoscaling");
    assert("autoscaling"@.len() == 11);
    reveal_strlit("bedrockruntime");
    assert("bedrockruntime"@.len() == 14);
    reveal_strlit("iam");
    assert("iam"@.len() == 3);
    reveal_strlit("sts");
    assert("sts"@.len() == 3);
    reveal_strlit("cognito");
    assert("cognito"@.len() == 7);
    reveal_strlit("kms");
    assert("kms"@.len() == 3);
    reveal_strlit("secretsmanager");
    assert("secretsmanager"@.len() == 14);
    reveal_strlit("ssm");
    assert("ssm"@.len() == 3);
    reveal_strlit("appconfig");
    assert("appconfig"@.len() == 9);
    reveal_strlit("appconfigdata");
    assert("appconfigdata"@.len() == 13);
    reveal_strlit("acm");
    assert("acm"@.len() == 3);
    reveal_strlit("apigateway");
    assert("apigateway"@.len() == 10);
    reveal_strlit("apigatewayv2");
    assert("apigatewayv2"@.len() == 12);
    reveal_strlit("elbv2");
    assert("elbv2"@.len() == 5);
    reveal_strlit("route53");
    assert("route53"@.len() == 7);
    reveal_strlit("transfer");
    assert("transfer"@.len() == 8);
    assert("transfer"@[0] != "dynamodb"@[0]);
    assert("transfer"@[0] != "firehose"@[0]);
    assert(catalog_keys()[42] == "transfer"@);
}

proof fn lemma_key_rank_43()
    ensures
        key_rank(catalog_keys()[43]) == 43,
{
    broadcast use vstd::string::group_string_axioms;
    reveal_strlit("s3");
    assert("s3"@.len() == 2);
    reveal_strlit("dynamodb");
    assert("dynamodb"@.len() == 8);
    reveal_strlit("dynamodbstreams");
    assert("dynamodbstreams"@.len() == 15);
    reveal_strlit("rds");
    assert("rds"@.len() == 3);
    reveal_strlit("elasticache");
    assert("elasticache"@.len() == 11);
    reveal_strlit("opensearch");
    assert("opensearch"@.len() == 10);
    reveal_strlit("glue");
    assert("glue"@.len() == 4);
    reveal_strlit("athena");
    assert("athena"@.len() == 6);
    reveal_strlit("firehose");
    assert("firehose"@.len() == 8);
    reveal_strlit("backup");
    assert("backup"@.len() == 6);
    reveal_strlit("sqs");
    assert("sqs"@.len() == 3);
    reveal_strlit("sns");
    assert("sns"@.len() == 3);
    reveal_strlit("ses");
    assert("ses"@.len() == 3);
    reveal_strlit("sesv2");
    assert("sesv2"@.len() == 5);
    reveal_strlit("kinesis");
    assert("kinesis"@.len() == 7);
    reveal_strlit("eventbridge");
    assert("eventbridge"@.len() == 11);
    reveal_strlit("scheduler");
    assert("scheduler"@.len() == 9);
    reveal_strlit("stepfunctions");
    assert("stepfunctions"@.len() == 13);
    reveal_strlit("cloudformation");
    assert("cloudformation"@.len() == 14);
    reveal_strlit("lambda");
    assert("lambda"@.len() == 6);
    reveal_strlit("ec2");
    assert("ec2"@.len() == 3);
    reveal_strlit("ecs");
    assert("ecs"@.len() == 3);
    reveal_strlit("eks");
    assert("eks"@.len() == 3);
    reveal_strlit("ecr");
    assert("ecr"@.len() == 3);
    reveal_strlit("msk");
    assert("msk"@.len() == 3);
    reveal_strlit("codebuild");
    assert("codebuild"@.len() == 9);
    reveal_strlit("codedeploy");
    assert("codedeploy"@.len() == 10);
    reveal_strlit("autoscaling");
    assert("autoscaling"@.len() == 11);
    reveal_strlit("bedrockruntime");
    assert("bedrockruntime"@.len() == 14);
    reveal_strlit("iam");
    assert("iam"@.len() == 3);
    reveal_strlit("sts");
    assert("sts"@.len() == 3);
    reveal_strlit("cognito");
    assert("cognito"@.len() == 7);
    reveal_strlit("kms");
    assert("kms"@.len() == 3);
    reveal_strlit("secretsmanager");
    assert("secretsmanager"@.len() == 14);
    reveal_strlit("ssm");
    assert("ssm"@.len() == 3);
    reveal_strlit("appconfig");
    assert("appconfig"@.len() == 9);
    reveal_strlit("appconfigdata");
    assert("appconfigdata"@.len() == 13);
    reveal_strlit("acm");
    assert("acm"@.len() == 3);
    reveal_strlit("apigateway");
    assert("apigateway"@.len() == 10);
    reveal_strlit("apigatewayv2");
    assert("apigatewayv2"@.len() == 12);
    reveal_strlit("elbv2");
    assert("elbv2"@.len() == 5);
    reveal_strlit("route53");
    assert("route53"@.len() == 7);
    reveal_strlit("transfer");
    assert("transfer"@.len() == 8);
    reveal_strlit("cloudwatchlogs");
    assert("cloudwatchlogs"@.len() == 14);
    assert("cloudwatchlogs"@[5] != "cloudformation"@[5]);
    assert("cloudwatchlogs"@[0] != "bedrockruntime"@[0]);
    assert("cloudwatchlogs"@[0] != "secretsmanager"@[0]);
    assert(catalog_keys()[43] == "cloudwatchlogs"@);
}

proof fn lemma_key_rank_44()
    ensures
        key_rank(catalog_keys()[44]) == 44,
{
    broadcast use vstd::string::group_string_axioms;
    reveal_strlit("s3");
    assert("s3"@.len() == 2);
    reveal_strlit("dynamodb");
    assert("dynamodb"@.len() == 8);
    reveal_strlit("dynamodbstreams");
    assert("dynamodbstreams"@.len() == 15);
    reveal_strlit("rds");
    assert("rds"@.len() == 3);
    reveal_strlit("elasticache");
    assert("elasticache"@.len() == 11);
    reveal_strlit("opensearch");
    assert("opensearch"@.len() == 10);
    reveal_strlit("glue");
    assert("glue"@.len() == 4);
    reveal_strlit("athena");
    assert("athena"@.len() == 6);
    reveal_strlit("firehose");
    assert("firehose"@.len() == 8);
    reveal_strlit("backup");
    assert("backup"@.len() == 6);
    reveal_strlit("sqs");
    assert("sqs"@.len() == 3);
    reveal_strlit("sns");
    assert("sns"@.len() == 3);
    reveal_strlit("ses");
    assert("ses"@.len() == 3);
    reveal_strlit("sesv2");
    assert("sesv2"@.len() == 5);
    reveal_strlit("kinesis");
    assert("kinesis"@.len() == 7);
    reveal_strlit("eventbridge");
    assert("eventbridge"@.len() == 11);
    reveal_strlit("scheduler");
    assert("scheduler"@.len() == 9);
    reveal_strlit("stepfunctions");
    assert("stepfunctions"@.len() == 13);
    reveal_strlit("cloudformation");
    assert("cloudformation"@.len() == 14);
    reveal_strlit("lambda");
    assert("lambda"@.len() == 6);
    reveal_strlit("ec2");
    assert("ec2"@.len() == 3);
    reveal_strlit("ecs");
    assert("ecs"@.len() == 3);
    reveal_strlit("eks");
    assert("eks"@.len() == 3);
    reveal_strlit("ecr");
    assert("ecr"@.len() == 3);
    reveal_strlit("msk");
    assert("msk"@.len() == 3);
    reveal_strlit("codebuild");
    assert("codebuild"@.len() == 9);
    reveal_strlit("codedeploy");
    assert("codedeploy"@.len() == 10);
    reveal_strlit("autoscaling");
    assert("autoscaling"@.len() == 11);
    reveal_strlit("bedrockruntime");
    assert("bedrockruntime"@.len() == 14);
    reveal_strlit("iam");
    assert("iam"@.len() == 3);
    reveal_strlit("sts");
    assert("sts"@.len() == 3);
    reveal_strlit("cognito");
    assert("cognito"@.len() == 7);
    reveal_strlit("kms");
    assert("kms"@.len() == 3);
    reveal_strlit("secretsmanager");
    assert("secretsmanager"@.len() == 14);
    reveal_strlit("ssm");
    assert("ssm"@.len() == 3);
    reveal_strlit("appconfig");
    assert("appconfig"@.len() == 9);
    reveal_strlit("appconfigdata");
    assert("appconfigdata"@.len() == 13);
    reveal_strlit("acm");
    assert("acm"@.len() == 3);
    reveal_strlit("apigateway");
    assert("apigateway"@.len() == 10);
    reveal_strlit("apigatewayv2");
    assert("apigatewayv2"@.len() == 12);
    reveal_strlit("elbv2");
    assert("elbv2"@.len() == 5);
    reveal_strlit("route53");
    assert("route53"@.len() == 7);
    reveal_strlit("transfer");
    assert("transfer"@.len() == 8);
    reveal_strlit("cloudwatchlogs");
    assert("cloudwatchlogs"@.len() == 14);
    reveal_strlit("cloudwatch");
    assert("cloudwatch"@.len() == 10);
    assert("cloudwatch"@[0] != "opensearch"@[0]);
    assert("cloudwatch"@[1] != "codedeploy"@[1]);
    assert("cloudwatch"@[0] != "apigateway"@[0]);
    assert(catalog_keys()[44] == "cloudwatch"@);
}

/// The labels of the catalog, in display order.
pub open spec fn catalog_labels() -> Seq<Seq<char>> {
    seq!["S3"@, "DynamoDB"@, "DynamoDB Streams"@, "RDS"@, "ElastiCache"@, "OpenSearch"@, "Glue"@, "Athena"@, "Data Firehose"@, "AWS Backup"@, "SQS"@, "SNS"@, "SES"@, "SES v2"@, "Kinesis"@, "EventBridge"@, "EventBridge Scheduler"@, "Step Functions"@, "CloudFormation"@, "Lambda"@, "EC2"@, "ECS"@, "EKS"@, "ECR"@, "MSK"@, "CodeBuild"@, "CodeDeploy"@, "Auto Scaling"@, "Bedrock Runtime"@, "IAM"@, "STS"@, "Cognito"@, "KMS"@, "Secrets Manager"@, "SSM"@, "AppConfig"@, "AppConfig Data"@, "ACM"@, "API Gateway"@, "API Gateway v2"@, "Elastic Load Balancing v2"@, "Route 53"@, "Transfer Family"@, "CloudWatch Logs"@, "CloudWatch"@]
}

/// Position of the catalog entry whose label is `s`, or -1.
pub open spec fn label_rank(s: Seq<char>) -> int {
    if s == "S3"@ {
        0
    } else if s == "DynamoDB"@ {
        1
    } else if s == "DynamoDB Streams"@ {
        2
    } else if s == "RDS"@ {
        3
    } else if s == "ElastiCache"@ {
        4
    } else if s == "OpenSearch"@ {
        5
    } else if s == "Glue"@ {
        6
    } else if s == "Athena"@ {
        7
    } else if s == "Data Firehose"@ {
        8
    } else if s == "AWS Backup"@ {
        9
    } else if s == "SQS"@ {
        10
    } else if s == "SNS"@ {
        11
    } else if s == "SES"@ {
        12
    } else if s == "SES v2"@ {
        13
    } else if s == "Kinesis"@ {
        14
    } else if s == "EventBridge"@ {
        15
    } else if s == "EventBridge Scheduler"@ {
        16
    } else if s == "Step Functions"@ {
        17
    } else if s == "CloudFormation"@ {
        18
    } else if s == "Lambda"@ {
        19
    } else if s == "EC2"@ {
        20
    } else if s == "ECS"@ {
        21
    } else if s == "EKS"@ {
        22
    } else if s == "ECR"@ {
        23
    } else if s == "MSK"@ {
        24
    } else if s == "CodeBuild"@ {
        25
    } else if s == "CodeDeploy"@ {
        26
    } else if s == "Auto Scaling"@ {
        27
    } else if s == "Bedrock Runtime"@ {
        28
    } else if s == "IAM"@ {
        29
    } else if s == "STS"@ {
        30
    } else if s == "Cognito"@ {
        31
    } else if s == "KMS"@ {
        32
    } else if s == "Secrets Manager"@ {
        33
    } else if s == "SSM"@ {
        34
    } else if s == "AppConfig"@ {
        35
    } else if s == "AppConfig Data"@ {
        36
    } else if s == "ACM"@ {
        37
    } else if s == "API Gateway"@ {
        38
    } else if s == "API Gateway v2"@ {
        39
    } else if s == "Elastic Load Balancing v2"@ {
        40
    } else if s == "Route 53"@ {
        41
    } else if s == "Transfer Family"@ {
        42
    } else if s == "CloudWatch Logs"@ {
        43
    } else if s == "CloudWatch"@ {
        44
    } else {
        -1
    }
}

proof fn lemma_label_rank_0()
    ensures
        label_rank(catalog_labels()[0]) == 0,
{
    broadcast use vstd::string::group_string_axioms;
    reveal_strlit("S3");
    assert("S3"@.len() == 2);
    assert(catalog_labels()[0] == "S3"@);
}

proof fn lemma_label_rank_1()
    ensures
        label_rank(catalog_labels()[1]) == 1,
{
    broadcast use vstd::string::group_string_axioms;
    reveal_strlit("S3");
    assert("S3"@.len() == 2);
    reveal_strlit("DynamoDB");
    assert("DynamoDB"@.len() == 8);
    assert(catalog_labels()[1] == "DynamoDB"@);
}

proof fn lemma_label_rank_2()
    ensures
        label_rank(catalog_labels()[2]) == 2,
{
    broadcast use vstd::string::group_string_axioms;
    reveal_strlit("S3");
    assert("S3"@.len() == 2);
    reveal_strlit("DynamoDB");
    assert("DynamoDB"@.len() == 8);
    reveal_strlit("DynamoDB Streams");
    assert("DynamoDB Streams"@.len() == 16);
    assert(catalog_labels()[2] == "DynamoDB Streams"@);
}

proof fn lemma_label_rank_3()
    ensures
        label_rank(catalog_labels()[3]) == 3,
{
    broadcast use vstd::string::group_string_axioms;
    reveal_strlit("S3");
    assert("S3"@.len() == 2);
    reveal_strlit("DynamoDB");
    assert("DynamoDB"@.len() == 8);
    reveal_strlit("DynamoDB Streams");
    assert("DynamoDB Streams"@.len() == 16);
    reveal_strlit("RDS");
    assert("RDS"@.len() == 3);
    assert(catalog_labels()[3] == "RDS"@);
}

proof fn lemma_label_rank_4()
    ensures
        label_rank(catalog_labels()[4]) == 4,
{
    broadcast use vstd::string::group_string_axioms;
    reveal_strlit("S3");
    assert("S3"@.len() == 2);
    reveal_strlit("DynamoDB");
    assert("DynamoDB"@.len() == 8);
    reveal_strlit("DynamoDB Streams");
    assert("DynamoDB Streams"@.len() == 16);
    reveal_strlit("RDS");
    assert("RDS"@.len() == 3);
    reveal_strlit("ElastiCache");
    assert("ElastiCache"@.len() == 11);
    assert(catalog_labels()[4] == "ElastiCache"@);
}

proof fn lemma_label_rank_5()
    ensures
        label_rank(catalog_labels()[5]) == 5,
{
    broadcast use vstd::string::group_string_axioms;
    reveal_strlit("S3");
    assert("S3"@.len() == 2);
    reveal_strlit("DynamoDB");
    assert("DynamoDB"@.len() == 8);
    reveal_strlit("DynamoDB Streams");
    assert("DynamoDB Streams"@.len() == 16);
    reveal_strlit("RDS");
    assert("RDS"@.len() == 3);
    reveal_strlit("ElastiCache");
    assert("ElastiCache"@.len() == 11);
    reveal_strlit("OpenSearch");
    assert("OpenSearch"@.len() == 10);
    assert(catalog_labels()[5] == "OpenSearch"@);
}

proof fn lemma_label_rank_6()
    ensures
        label_rank(catalog_labels()[6]) == 6,
{
    broadcast use vstd::string::group_string_axioms;
    reveal_strlit("S3");
    assert("S3"@.len() == 2);
    reveal_strlit("DynamoDB");
    assert("DynamoDB"@.len() == 8);
    reveal_strlit("DynamoDB Streams");
    assert("DynamoDB Streams"@.len() == 16);
    reveal_strlit("RDS");
    assert("RDS"@.len() == 3);
    reveal_strlit("ElastiCache");
    assert("ElastiCache"@.len() == 11);
    reveal_strlit("OpenSearch");
    assert("OpenSearch"@.len() == 10);
    reveal_strlit("Glue");
    assert("Glue"@.len() == 4);
    assert(catalog_labels()[6] == "Glue"@);
}

proof fn lemma_label_rank_7()
    ensures
        label_rank(catalog_labels()[7]) == 7,
{
    broadcast use vstd::string::group_string_axioms;
    reveal_strlit("S3");
    assert("S3"@.len() == 2);
    reveal_strlit("DynamoDB");
    assert("DynamoDB"@.len() == 8);
    reveal_strlit("DynamoDB Streams");
    assert("DynamoDB Streams"@.len() == 16);
    reveal_strlit("RDS");
    assert("RDS"@.len() == 3);
    reveal_strlit("ElastiCache");
    assert("ElastiCache"@.len() == 11);
    reveal_strlit("OpenSearch");
    assert("OpenSearch"@.len() == 10);
    reveal_strlit("Glue");
    assert("Glue"@.len() == 4);
    reveal_strlit("Athena");
    assert("Athena"@.len() == 6);
    assert(catalog_labels()[7] == "Athena"@);
}

proof fn lemma_label_rank_8()
    ensures
        label_rank(catalog_labels()[8]) == 8,
{
    broadcast use vstd::string::group_string_axioms;
    reveal_strlit("S3");
    assert("S3"@.len() == 2);
    reveal_strlit("DynamoDB");
    assert("DynamoDB"@.len() == 8);
    reveal_strlit("DynamoDB Streams");
    assert("DynamoDB Streams"@.len() == 16);
    reveal_strlit("RDS");
    assert("RDS"@.len() == 3);
    reveal_strlit("ElastiCache");
    assert("ElastiCache"@.len() == 11);
    reveal_strlit("OpenSearch");
    assert("OpenSearch"@.len() == 10);
    reveal_strlit("Glue");
    assert("Glue"@.len() == 4);
    reveal_strlit("Athena");
    assert("Athena"@.len() == 6);
    reveal_strlit("Data Firehose");
    assert("Data Firehose"@.len() == 13);
    assert(catalog_labels()[8] == "Data Firehose"@);
}

proof fn lemma_label_rank_9()
    ensures
        label_rank(catalog_labels()[9]) == 9,
{
    broadcast use vstd::string::group_string_axioms;
    reveal_strlit("S3");
    assert("S3"@.len() == 2);
    reveal_strlit("DynamoDB");
    assert("DynamoDB"@.len() == 8);
    reveal_strlit("DynamoDB Streams");
    assert("DynamoDB Streams"@.len() == 16);
    reveal_strlit("RDS");
    assert("RDS"@.len() == 3);
    reveal_strlit("ElastiCache");
    assert("ElastiCache"@.len() == 11);
    reveal_strlit("OpenSearch");
    assert("OpenSearch"@.len() == 10);
    reveal_strlit("Glue");
    assert("Glue"@.len() == 4);
    reveal_strlit("Athena");
    assert("Athena"@.len() == 6);
    reveal_strlit("Data Firehose");
    assert("Data Firehose"@.len() == 13);
    reveal_strlit("AWS Backup");
    assert("AWS Backup"@.len() == 10);
    assert("AWS Backup"@[0] != "OpenSearch"@[0]);
    assert(catalog_labels()[9] == "AWS Backup"@);
}

proof fn lemma_label_rank_10()
    ensures
        label_rank(catalog_labels()[10]) == 10,
{
    broadcast use vstd::string::group_string_axioms;
    reveal_strlit("S3");
    assert("S3"@.len() == 2);
    reveal_strlit("DynamoDB");
    assert("DynamoDB"@.len() == 8);
    reveal_strlit("DynamoDB Streams");
    assert("DynamoDB Streams"@.len() == 16);
    reveal_strlit("RDS");
    assert("RDS"@.len() == 3);
    reveal_strlit("ElastiCache");
    assert("ElastiCache"@.len() == 11);
    reveal_strlit("OpenSearch");
    assert("OpenSearch"@.len() == 10);
    reveal_strlit("Glue");
    assert("Glue"@.len() == 4);
    reveal_strlit("Athena");
    assert("Athena"@.len() == 6);
    reveal_strlit("Data Firehose");
    assert("Data Firehose"@.len() == 13);
    reveal_strlit("AWS Backup");
    assert("AWS Backup"@.len() == 10);
    reveal_strlit("SQS");
    assert("SQS"@.len() == 3);
    assert("SQS"@[0] != "RDS"@[0]);
    assert(catalog_labels()[10] == "SQS"@);
}

proof fn lemma_label_rank_11()
    ensures
        label_rank(catalog_labels()[11]) == 11,
{
    broadcast use vstd::string::group_string_axioms;
    reveal_strlit("S3");
    assert("S3"@.len() == 2);
    reveal_strlit("DynamoDB");
    assert("DynamoDB"@.len() == 8);
    reveal_strlit("DynamoDB Streams");
    assert("DynamoDB Streams"@.len() == 16);
    reveal_strlit("RDS");
    assert("RDS"@.len() == 3);
    reveal_strlit("ElastiCache");
    assert("ElastiCache"@.len() == 11);
    reveal_strlit("OpenSearch");
    assert("OpenSearch"@.len() == 10);
    reveal_strlit("Glue");
    assert("Glue"@.len() == 4);
    reveal_strlit("Athena");
    assert("Athena"@.len() == 6);
    reveal_strlit("Data Firehose");
    assert("Data Firehose"@.len() == 13);
    reveal_strlit("AWS Backup");
    assert("AWS Backup"@.len() == 10);
    reveal_strlit("SQS");
    assert("SQS"@.len() == 3);
    reveal_strlit("SNS");
    assert("SNS"@.len() == 3);
    assert("SNS"@[0] != "RDS"@[0]);
    assert("SNS"@[1] != "SQS"@[1]);
    assert(catalog_labels()[11] == "SNS"@);
}

proof fn lemma_label_rank_12()
    ensures
        label_rank(catalog_labels()[12]) == 12,
{
    broadcast use vstd::string::group_string_axioms;
    reveal_strlit("S3");
    assert("S3"@.len() == 2);
    reveal_strlit("DynamoDB");
    assert("DynamoDB"@.len() == 8);
    reveal_strlit("DynamoDB Streams");
    assert("DynamoDB Streams"@.len() == 16);
    reveal_strlit("RDS");
    assert("RDS"@.len() == 3);
    reveal_strlit("ElastiCache");
    assert("ElastiCache"@.len() == 11);
    reveal_strlit("OpenSearch");
    assert("OpenSearch"@.len() == 10);
    reveal_strlit("Glue");
    assert("Glue"@.len() == 4);
    reveal_strlit("Athena");
    assert("Athena"@.len() == 6);
    reveal_strlit("Data Firehose");
    assert("Data Firehose"@.len() == 13);
    reveal_strlit("AWS Backup");
    assert("AWS Backup"@.len() == 10);
    reveal_strlit("SQS");
    assert("SQS"@.len() == 3);
    reveal_strlit("SNS");
    assert("SNS"@.len() == 3);
    reveal_strlit("SES");
    assert("SES"@.len() == 3);
    assert("SES"@[0] != "RDS"@[0]);
    assert("SES"@[1] != "SQS"@[1]);
    assert("SES"@[1] != "SNS"@[1]);
    assert(catalog_labels()[12] == "SES"@);
}

proof fn lemma_label_rank_13()
    ensures
        label_rank(catalog_labels()[13]) == 13,
{
    broadcast use vstd::string::group_string_axioms;
    reveal_strlit("S3");
    assert("S3"@.len() == 2);
    reveal_strlit("DynamoDB");
    assert("DynamoDB"@.len() == 8);
    reveal_strlit("DynamoDB Streams");
    assert("DynamoDB Streams"@.len() == 16);
    reveal_strlit("RDS");
    assert("RDS"@.len() == 3);
    reveal_strlit("ElastiCache");
    assert("ElastiCache"@.len() == 11);
    reveal_strlit("OpenSearch");
    assert("OpenSearch"@.len() == 10);
    reveal_strlit("Glue");
    assert("Glue"@.len() == 4);
    reveal_strlit("Athena");
    assert("Athena"@.len() == 6);
    reveal_strlit("Data Firehose");
    assert("Data Firehose"@.len() == 13);
    reveal_strlit("AWS Backup");
    assert("AWS Backup"@.len() == 10);
    reveal_strlit("SQS");
    assert("SQS"@.len() == 3);
    reveal_strlit("SNS");
    assert("SNS"@.len() == 3);
    reveal_strlit("SES");
    assert("SES"@.len() == 3);
    reveal_strlit("SES v2");
    assert("SES v2"@.len() == 6);
    assert("SES v2"@[0] != "Athena"@[0]);
    assert(catalog_labels()[13] == "SES v2"@);
}

proof fn lemma_label_rank_14()
    ensures
        label_rank(catalog_labels()[14]) == 14,
{
    broadcast use vstd::string::group_string_axioms;
    reveal_strlit("S3");
    assert("S3"@.len() == 2);
    reveal_strlit("DynamoDB");
    assert("DynamoDB"@.len() == 8);
    reveal_strlit("DynamoDB Streams");
    assert("DynamoDB Streams"@.len() == 16);
    reveal_strlit("RDS");
    assert("RDS"@.len() == 3);
    reveal_strlit("ElastiCache");
    assert("ElastiCache"@.len() == 11);
    reveal_strlit("OpenSearch");
    assert("OpenSearch"@.len() == 10);
    reveal_strlit("Glue");
    assert("Glue"@.len() == 4);
    reveal_strlit("Athena");
    assert("Athena"@.len() == 6);
    reveal_strlit("Data Firehose");
    assert("Data Firehose"@.len() == 13);
    reveal_strlit("AWS Backup");
    assert("AWS Backup"@.len() == 10);
    reveal_strlit("SQS");
    assert("SQS"@.len() == 3);
    reveal_strlit("SNS");
    assert("SNS"@.len() == 3);
    reveal_strlit("SES");
    assert("SES"@.len() == 3);
    reveal_strlit("SES v2");
    assert("SES v2"@.len() == 6);
    reveal_strlit("Kinesis");
    assert("Kinesis"@.len() == 7);
    assert(catalog_labels()[14] == "Kinesis"@);
}

proof fn lemma_label_rank_15()
    ensures
        label_rank(catalog_labels()[15]) == 15,
{
    broadcast use vstd::string::group_string_axioms;
    reveal_strlit("S3");
    assert("S3"@.len() == 2);
    reveal_strlit("DynamoDB");
    assert("DynamoDB"@.len() == 8);
    reveal_strlit("DynamoDB Streams");
    assert("DynamoDB Streams"@.len() == 16);
    reveal_strlit("RDS");
    assert("RDS"@.len() == 3);
    reveal_strlit("ElastiCache");
    assert("ElastiCache"@.len() == 11);
    reveal_strlit("OpenSearch");
    assert("OpenSearch"@.len() == 10);
    reveal_strlit("Glue");
    assert("Glue"@.len() == 4);
    reveal_strlit("Athena");
    assert("Athena"@.len() == 6);
    reveal_strlit("Data Firehose");
    assert("Data Firehose"@.len() == 13);
    reveal_strlit("AWS Backup");
    assert("AWS Backup"@.len() == 10);
    reveal_strlit("SQS");
    assert("SQS"@.len() == 3);
    reveal_strlit("SNS");
    assert("SNS"@.len() == 3);
    reveal_strlit("SES");
    assert("SES"@.len() == 3);
    reveal_strlit("SES v2");
    assert("SES v2"@.len() == 6);
    reveal_strlit("Kinesis");
    assert("Kinesis"@.len() == 7);
    reveal_strlit("EventBridge");
    assert("EventBridge"@.len() == 11);
    assert("EventBridge"@[1] != "ElastiCache"@[1]);
    assert(catalog_labels()[15] == "EventBridge"@);
}

proof fn lemma_label_rank_16()
    ensures
        label_rank(catalog_labels()[16]) == 16,
{
    broadcast use vstd::string::group_string_axioms;
    reveal_strlit("S3");
    assert("S3"@.len() == 2);
    reveal_strlit("DynamoDB");
    assert("DynamoDB"@.len() == 8);
    reveal_strlit("DynamoDB Streams");
    assert("DynamoDB Streams"@.len() == 16);
    reveal_strlit("RDS");
    assert("RDS"@.len() == 3);
    reveal_strlit("ElastiCache");
    assert("ElastiCache"@.len() == 11);
    reveal_strlit("OpenSearch");
    assert("OpenSearch"@.len() == 10);
    reveal_strlit("Glue");
    assert("Glue"@.len() == 4);
    reveal_strlit("Athena");
    assert("Athena"@.len() == 6);
    reveal_strlit("Data Firehose");
    assert("Data Firehose"@.len() == 13);
    reveal_strlit("AWS Backup");
    assert("AWS Backup"@.len() == 10);
    reveal_strlit("SQS");
    assert("SQS"@.len() == 3);
    reveal_strlit("SNS");
    assert("SNS"@.len() == 3);
    reveal_strlit("SES");
    assert("SES"@.len() == 3);
    reveal_strlit("SES v2");
    assert("SES v2"@.len() == 6);
    reveal_strlit("Kinesis");
    assert("Kinesis"@.len() == 7);
    reveal_strlit("EventBridge");
    assert("EventBridge"@.len() == 11);
    reveal_strlit("EventBridge Scheduler");
    assert("EventBridge Scheduler"@.len() == 21);
    assert(catalog_labels()[16] == "EventBridge Scheduler"@);
}

proof fn lemma_label_rank_17()
    ensures
        label_rank(catalog_labels()[17]) == 17,
{
    broadcast use vstd::string::group_string_axioms;
    reveal_strlit("S3");
    assert("S3"@.len() == 2);
    reveal_strlit("DynamoDB");
    assert("DynamoDB"@.len() == 8);
    reveal_strlit("DynamoDB Streams");
    assert("DynamoDB Streams"@.len() == 16);
    reveal_strlit("RDS");
    assert("RDS"@.len() == 3);
    reveal_strlit("ElastiCache");
    assert("ElastiCache"@.len() == 11);
    reveal_strlit("OpenSearch");
    assert("OpenSearch"@.len() == 10);
    reveal_strlit("Glue");
    assert("Glue"@.len() == 4);
    reveal_strlit("Athena");
    assert("Athena"@.len() == 6);
    reveal_strlit("Data Firehose");
    assert("Data Firehose"@.len() == 13);
    reveal_strlit("AWS Backup");
    assert("AWS Backup"@.len() == 10);
    reveal_strlit("SQS");
    assert("SQS"@.len() == 3);
    reveal_strlit("SNS");
    assert("SNS"@.len() == 3);
    reveal_strlit("SES");
    assert("SES"@.len() == 3);
    reveal_strlit("SES v2");
    assert("SES v2"@.len() == 6);
    reveal_strlit("Kinesis");
    assert("Kinesis"@.len() == 7);
    reveal_strlit("EventBridge");
    assert("EventBridge"@.len() == 11);
    reveal_strlit("EventBridge Scheduler");
    assert("EventBridge Scheduler"@.len() == 21);
    reveal_strlit("Step Functions");
    assert("Step Functions"@.len() == 14);
    assert(catalog_labels()[17] == "Step Functions"@);
}

proof fn lemma_label_rank_18()
    ensures
        label_rank(catalog_labels()[18]) == 18,
{
    broadcast use vstd::string::group_string_axioms;
    reveal_strlit("S3");
    assert("S3"@.len() == 2);
    reveal_strlit("DynamoDB");
    assert("DynamoDB"@.len() == 8);
    reveal_strlit("DynamoDB Streams");
    assert("DynamoDB Streams"@.len() == 16);
    reveal_strlit("RDS");
    assert("RDS"@.len() == 3);
    reveal_strlit("ElastiCache");
    assert("ElastiCache"@.len() == 11);
    reveal_strlit("OpenSearch");
    assert("OpenSearch"@.len() == 10);
    reveal_strlit("Glue");
    assert("Glue"@.len() == 4);
    reveal_strlit("Athena");
    assert("Athena"@.len() == 6);
    reveal_strlit("Data Firehose");
    assert("Data Firehose"@.len() == 13);
    reveal_strlit("AWS Backup");
    assert("AWS Backup"@.len() == 10);
    reveal_strlit("SQS");
    assert("SQS"@.len() == 3);
    reveal_strlit("SNS");
    assert("SNS"@.len() == 3);
    reveal_strlit("SES");
    assert("SES"@.len() == 3);
    reveal_strlit("SES v2");
    assert("SES v2"@.len() == 6);
    reveal_strlit("Kinesis");
    assert("Kinesis"@.len() == 7);
    reveal_strlit("EventBridge");
    assert("EventBridge"@.len() == 11);
    reveal_strlit("EventBridge Scheduler");
    assert("EventBridge Scheduler"@.len() == 21);
    reveal_strlit("Step Functions");
    assert("Step Functions"@.len() == 14);
    reveal_strlit("CloudFormation");
    assert("CloudFormation"@.len() == 14);
    assert("CloudFormation"@[0] != "Step Functions"@[0]);
    assert(catalog_labels()[18] == "CloudFormation"@);
}

proof fn lemma_label_rank_19()
    ensures
        label_rank(catalog_labels()[19]) == 19,
{
    broadcast use vstd::string::group_string_axioms;
    reveal_strlit("S3");
    assert("S3"@.len() == 2);
    reveal_strlit("DynamoDB");
    assert("DynamoDB"@.len() == 8);
    reveal_strlit("DynamoDB Streams");
    assert("DynamoDB Streams"@.len() == 16);
    reveal_strlit("RDS");
    assert("RDS"@.len() == 3);
    reveal_strlit("ElastiCache");
    assert("ElastiCache"@.len() == 11);
    reveal_strlit("OpenSearch");
    assert("OpenSearch"@.len() == 10);
    reveal_strlit("Glue");
    assert("Glue"@.len() == 4);
    reveal_strlit("Athena");
    assert("Athena"@.len() == 6);
    reveal_strlit("Data Firehose");
    assert("Data Firehose"@.len() == 13);
    reveal_strlit("AWS Backup");
    assert("AWS Backup"@.len() == 10);
    reveal_strlit("SQS");
    assert("SQS"@.len() == 3);
    reveal_strlit("SNS");
    assert("SNS"@.len() == 3);
    reveal_strlit("SES");
    assert("SES"@.len() == 3);
    reveal_strlit("SES v2");
    assert("SES v2"@.len() == 6);
    reveal_strlit("Kinesis");
    assert("Kinesis"@.len() == 7);
    reveal_strlit("EventBridge");
    assert("EventBridge"@.len() == 11);
    reveal_strlit("EventBridge Scheduler");
    assert("EventBridge Scheduler"@.len() == 21);
    reveal_strlit("Step Functions");
    assert("Step Functions"@.len() == 14);
    reveal_strlit("CloudFormation");
    assert("CloudFormation"@.len() == 14);
    reveal_strlit("Lambda");
    assert("Lambda"@.len() == 6);
    assert("Lambda"@[0] != "Athena"@[0]);
    assert("Lambda"@[0] != "SES v2"@[0]);
    assert(catalog_labels()[19] == "Lambda"@);
}

proof fn lemma_label_rank_20()
    ensures
        label_rank(catalog_labels()[20]) == 20,
{
    broadcast use vstd::string::group_string_axioms;
    reveal_strlit("S3");
    assert("S3"@.len() == 2);
    reveal_strlit("DynamoDB");
    assert("DynamoDB"@.len() == 8);
    reveal_strlit("DynamoDB Streams");
    assert("DynamoDB Streams"@.len() == 16);
    reveal_strlit("RDS");
    assert("RDS"@.len() == 3);
    reveal_strlit("ElastiCache");
    assert("ElastiCache"@.len() == 11);
    reveal_strlit("OpenSearch");
    assert("OpenSearch"@.len() == 10);
    reveal_strlit("Glue");
    assert("Glue"@.len() == 4);
    reveal_strlit("Athena");
    assert("Athena"@.len() == 6);
    reveal_strlit("Data Firehose");
    assert("Data Firehose"@.len() == 13);
    reveal_strlit("AWS Backup");
    assert("AWS Backup"@.len() == 10);
    reveal_strlit("SQS");
    assert("SQS"@.len() == 3);
    reveal_strlit("SNS");
    assert("SNS"@.len() == 3);
    reveal_strlit("SES");
    assert("SES"@.len() == 3);
    reveal_strlit("SES v2");
    assert("SES v2"@.len() == 6);
    reveal_strlit("Kinesis");
    assert("Kinesis"@.len() == 7);
    reveal_strlit("EventBridge");
    assert("EventBridge"@.len() == 11);
    reveal_strlit("EventBridge Scheduler");
    assert("EventBridge Scheduler"@.len() == 21);
    reveal_strlit("Step Functions");
    assert("Step Functions"@.len() == 14);
    reveal_strlit("CloudFormation");
    assert("CloudFormation"@.len() == 14);
    reveal_strlit("Lambda");
    assert("Lambda"@.len() == 6);
    reveal_strlit("EC2");
    assert("EC2"@.len() == 3);
    assert("EC2"@[0] != "RDS"@[0]);
    assert("EC2"@[0] != "SQS"@[0]);
    assert("EC2"@[0] != "SNS"@[0]);
    assert("EC2"@[0] != "SES"@[0]);
    assert(catalog_labels()[20] == "EC2"@);
}

proof fn lemma_label_rank_21()
    ensures
        label_rank(catalog_labels()[21]) == 21,
{
    broadcast use vstd::string::group_string_axioms;
    reveal_strlit("S3");
    assert("S3"@.len() == 2);
    reveal_strlit("DynamoDB");
    assert("DynamoDB"@.len() == 8);
    reveal_strlit("DynamoDB Streams");
    assert("DynamoDB Streams"@.len() == 16);
    reveal_strlit("RDS");
    assert("RDS"@.len() == 3);
    reveal_strlit("ElastiCache");
    assert("ElastiCache"@.len() == 11);
    reveal_strlit("OpenSearch");
    assert("OpenSearch"@.len() == 10);
    reveal_strlit("Glue");
    assert("Glue"@.len() == 4);
    reveal_strlit("Athena");
    assert("Athena"@.len() == 6);
    reveal_strlit("Data Firehose");
    assert("Data Firehose"@.len() == 13);
    reveal_strlit("AWS Backup");
    assert("AWS Backup"@.len() == 10);
    reveal_strlit("SQS");
    assert("SQS"@.len() == 3);
    reveal_strlit("SNS");
    assert("SNS"@.len() == 3);
    reveal_strlit("SES");
    assert("SES"@.len() == 3);
    reveal_strlit("SES v2");
    assert("SES v2"@.len() == 6);
    reveal_strlit("Kinesis");
    assert("Kinesis"@.len() == 7);
    reveal_strlit("EventBridge");
    assert("EventBridge"@.len() == 11);
    reveal_strlit("EventBridge Scheduler");
    assert("EventBridge Scheduler"@.len() == 21);
    reveal_strlit("Step Functions");
    assert("Step Functions"@.len() == 14);
    reveal_strlit("CloudFormation");
    assert("CloudFormation"@.len() == 14);
    reveal_strlit("Lambda");
    assert("Lambda"@.len() == 6);
    reveal_strlit("EC2");
    assert("EC2"@.len() == 3);
    reveal_strlit("ECS");
    assert("ECS"@.len() == 3);
    assert("ECS"@[0] != "RDS"@[0]);
    assert("ECS"@[0] != "SQS"@[0]);
    assert("ECS"@[0] != "SNS"@[0]);
    assert("ECS"@[0] != "SES"@[0]);
    assert("ECS"@[2] != "EC2"@[2]);
    assert(catalog_labels()[21] == "ECS"@);
}

proof fn lemma_label_rank_22()
    ensures
        label_rank(catalog_labels()[22]) == 22,
{
    broadcast use vstd::string::group_string_axioms;
    reveal_strlit("S3");
    assert("S3"@.len() == 2);
    reveal_strlit("DynamoDB");
    assert("DynamoDB"@.len() == 8);
    reveal_strlit("DynamoDB Streams");
    assert("DynamoDB Streams"@.len() == 16);
    reveal_strlit("RDS");
    assert("RDS"@.len() == 3);
    reveal_strlit("ElastiCache");
    assert("ElastiCache"@.len() == 11);
    reveal_strlit("OpenSearch");
    assert("OpenSearch"@.len() == 10);
    reveal_strlit("Glue");
    assert("Glue"@.len() == 4);
    reveal_strlit("Athena");
    assert("Athena"@.len() == 6);
    reveal_strlit("Data Firehose");
    assert("Data Firehose"@.len() == 13);
    reveal_strlit("AWS Backup");
    assert("AWS Backup"@.len() == 10);
    reveal_strlit("SQS");
    assert("SQS"@.len() == 3);
    reveal_strlit("SNS");
    assert("SNS"@.len() == 3);
    reveal_strlit("SES");
    assert("SES"@.len() == 3);
    reveal_strlit("SES v2");
    assert("SES v2"@.len() == 6);
    reveal_strlit("Kinesis");
    assert("Kinesis"@.len() == 7);
    reveal_strlit("EventBridge");
    assert("EventBridge"@.len() == 11);
    reveal_strlit("EventBridge Scheduler");
    assert("EventBridge Scheduler"@.len() == 21);
    reveal_strlit("Step Functions");
    assert("Step Functions"@.len() == 14);
    reveal_strlit("CloudFormation");
    assert("CloudFormation"@.len() == 14);
    reveal_strlit("Lambda");
    assert("Lambda"@.len() == 6);
    reveal_strlit("EC2");
    assert("EC2"@.len() == 3);
    reveal_strlit("ECS");
    assert("ECS"@.len() == 3);
    reveal_strlit("EKS");
    assert("EKS"@.len() == 3);
    assert("EKS"@[0] != "RDS"@[0]);
    assert("EKS"@[0] != "SQS"@[0]);
    assert("EKS"@[0] != "SNS"@[0]);
    assert("EKS"@[0] != "SES"@[0]);
    assert("EKS"@[1] != "EC2"@[1]);
    assert("EKS"@[1] != "ECS"@[1]);
    assert(catalog_labels()[22] == "EKS"@);
}

proof fn lemma_label_rank_23()
    ensures
        label_rank(catalog_labels()[23]) == 23,
{
    broadcast use vstd::string::group_string_axioms;
    reveal_strlit("S3");
    assert("S3"@.len() == 2);
    reveal_strlit("DynamoDB");
    assert("DynamoDB"@.len() == 8);
    reveal_strlit("DynamoDB Streams");
    assert("DynamoDB Streams"@.len() == 16);
    reveal_strlit("RDS");
    assert("RDS"@.len() == 3);
    reveal_strlit("ElastiCache");
    assert("ElastiCache"@.len() == 11);
    reveal_strlit("OpenSearch");
    assert("OpenSearch"@.len() == 10);
    reveal_strlit("Glue");
    assert("Glue"@.len() == 4);
    reveal_strlit("Athena");
    assert("Athena"@.len() == 6);
    reveal_strlit("Data Firehose");
    assert("Data Firehose"@.len() == 13);
    reveal_strlit("AWS Backup");
    assert("AWS Backup"@.len() == 10);
    reveal_strlit("SQS");
    assert("SQS"@.len() == 3);
    reveal_strlit("SNS");
    assert("SNS"@.len() == 3);
    reveal_strlit("SES");
    assert("SES"@.len() == 3);
    reveal_strlit("SES v2");
    assert("SES v2"@.len() == 6);
    reveal_strlit("Kinesis");
    assert("Kinesis"@.len() == 7);
    reveal_strlit("EventBridge");
    assert("EventBridge"@.len() == 11);
    reveal_strlit("EventBridge Scheduler");
    assert("EventBridge Scheduler"@.len() == 21);
    reveal_strlit("Step Functions");
    assert("Step Functions"@.len() == 14);
    reveal_strlit("CloudFormation");
    assert("CloudFormation"@.len() == 14);
    reveal_strlit("Lambda");
    assert("Lambda"@.len() == 6);
    reveal_strlit("EC2");
    assert("EC2"@.len() == 3);
    reveal_strlit("ECS");
    assert("ECS"@.len() == 3);
    reveal_strlit("EKS");
    assert("EKS"@.len() == 3);
    reveal_strlit("ECR");
    assert("ECR"@.len() == 3);
    assert("ECR"@[0] != "RDS"@[0]);
    assert("ECR"@[0] != "SQS"@[0]);
    assert("ECR"@[0] != "SNS"@[0]);
    assert("ECR"@[0] != "SES"@[0]);
    assert("ECR"@[2] != "EC2"@[2]);
    assert("ECR"@[2] != "ECS"@[2]);
    assert("ECR"@[1] != "EKS"@[1]);
    assert(catalog_labels()[23] == "ECR"@);
}

proof fn lemma_label_rank_24()
    ensures
        label_rank(catalog_labels()[24]) == 24,
{
    broadcast use vstd::string::group_string_axioms;
    reveal_strlit("S3");
    assert("S3"@.len() == 2);
    reveal_strlit("DynamoDB");
    assert("DynamoDB"@.len() == 8);
    reveal_strlit("DynamoDB Streams");
    assert("DynamoDB Streams"@.len() == 16);
    reveal_strlit("RDS");
    assert("RDS"@.len() == 3);
    reveal_strlit("ElastiCache");
    assert("ElastiCache"@.len() == 11);
    reveal_strlit("OpenSearch");
    assert("OpenSearch"@.len() == 10);
    reveal_strlit("Glue");
    assert("Glue"@.len() == 4);
    reveal_strlit("Athena");
    assert("Athena"@.len() == 6);
    reveal_strlit("Data Firehose");
    assert("Data Firehose"@.len() == 13);
    reveal_strlit("AWS Backup");
    assert("AWS Backup"@.len() == 10);
    reveal_strlit("SQS");
    assert("SQS"@.len() == 3);
    reveal_strlit("SNS");
    assert("SNS"@.len() == 3);
    reveal_strlit("SES");
    assert("SES"@.len() == 3);
    reveal_strlit("SES v2");
    assert("SES v2"@.len() == 6);
    reveal_strlit("Kinesis");
    assert("Kinesis"@.len() == 7);
    reveal_strlit("EventBridge");
    assert("EventBridge"@.len() == 11);
    reveal_strlit("EventBridge Scheduler");
    assert("EventBridge Scheduler"@.len() == 21);
    reveal_strlit("Step Functions");
    assert("Step Functions"@.len() == 14);
    reveal_strlit("CloudFormation");
    assert("CloudFormation"@.len() == 14);
    reveal_strlit("Lambda");
    assert("Lambda"@.len() == 6);
    reveal_strlit("EC2");
    assert("EC2"@.len() == 3);
    reveal_strlit("ECS");
    assert("ECS"@.len() == 3);
    reveal_strlit("EKS");
    assert("EKS"@.len() == 3);
    reveal_strlit("ECR");
    assert("ECR"@.len() == 3);
    reveal_strlit("MSK");
    assert("MSK"@.len() == 3);
    assert("MSK"@[0] != "RDS"@[0]);
    assert("MSK"@[0] != "SQS"@[0]);
    assert("MSK"@[0] != "SNS"@[0]);
    assert("MSK"@[0] != "SES"@[0]);
    assert("MSK"@[0] != "EC2"@[0]);
    assert("MSK"@[0] != "ECS"@[0]);
    assert("MSK"@[0] != "EKS"@[0]);
    assert("MSK"@[0] != "ECR"@[0]);
    assert(catalog_labels()[24] == "MSK"@);
}

proof fn lemma_label_rank_25()
    ensures
        label_rank(catalog_labels()[25]) == 25,
{
    broadcast use vstd::string::group_string_axioms;
    reveal_strlit("S3");
    assert("S3"@.len() == 2);
    reveal_strlit("DynamoDB");
    assert("DynamoDB"@.len() == 8);
    reveal_strlit("DynamoDB Streams");
    assert("DynamoDB Streams"@.len() == 16);
    reveal_strlit("RDS");
    assert("RDS"@.len() == 3);
    reveal_strlit("ElastiCache");
    assert("ElastiCache"@.len() == 11);
    reveal_strlit("OpenSearch");
    assert("OpenSearch"@.len() == 10);
    reveal_strlit("Glue");
    assert("Glue"@.len() == 4);
    reveal_strlit("Athena");
    assert("Athena"@.len() == 6);
    reveal_strlit("Data Firehose");
    assert("Data Firehose"@.len() == 13);
    reveal_strlit("AWS Backup");
    assert("AWS Backup"@.len() == 10);
    reveal_strlit("SQS");
    assert("SQS"@.len() == 3);
    reveal_strlit("SNS");
    assert("SNS"@.len() == 3);
    reveal_strlit("SES");
    assert("SES"@.len() == 3);
    reveal_strlit("SES v2");
    assert("SES v2"@.len() == 6);
    reveal_strlit("Kinesis");
    assert("Kinesis"@.len() == 7);
    reveal_strlit("EventBridge");
    assert("EventBridge"@.len() == 11);
    reveal_strlit("EventBridge Scheduler");
    assert("EventBridge Scheduler"@.len() == 21);
    reveal_strlit("Step Functions");
    assert("Step Functions"@.len() == 14);
    reveal_strlit("CloudFormation");
    assert("CloudFormation"@.len() == 14);
    reveal_strlit("Lambda");
    assert("Lambda"@.len() == 6);
    reveal_strlit("EC2");
    assert("EC2"@.len() == 3);
    reveal_strlit("ECS");
    assert("ECS"@.len() == 3);
    reveal_strlit("EKS");
    assert("EKS"@.len() == 3);
    reveal_strlit("ECR");
    assert("ECR"@.len() == 3);
    reveal_strlit("MSK");
    assert("MSK"@.len() == 3);
    reveal_strlit("CodeBuild");
    assert("CodeBuild"@.len() == 9);
    assert(catalog_labels()[25] == "CodeBuild"@);
}

proof fn lemma_label_rank_26()
    ensures
        label_rank(catalog_labels()[26]) == 26,
{
    broadcast use vstd::string::group_string_axioms;
    reveal_strlit("S3");
    assert("S3"@.len() == 2);
    reveal_strlit("DynamoDB");
    assert("DynamoDB"@.len() == 8);
    reveal_strlit("DynamoDB Streams");
    assert("DynamoDB Streams"@.len() == 16);
    reveal_strlit("RDS");
    assert("RDS"@.len() == 3);
    reveal_strlit("ElastiCache");
    assert("ElastiCache"@.len() == 11);
    reveal_strlit("OpenSearch");
    assert("OpenSearch"@.len() == 10);
    reveal_strlit("Glue");
    assert("Glue"@.len() == 4);
    reveal_strlit("Athena");
    assert("Athena"@.len() == 6);
    reveal_strlit("Data Firehose");
    assert("Data Firehose"@.len() == 13);
    reveal_strlit("AWS Backup");
    assert("AWS Backup"@.len() == 10);
    reveal_strlit("SQS");
    assert("SQS"@.len() == 3);
    reveal_strlit("SNS");
    assert("SNS"@.len() == 3);
    reveal_strlit("SES");
    assert("SES"@.len() == 3);
    reveal_strlit("SES v2");
    assert("SES v2"@.len() == 6);
    reveal_strlit("Kinesis");
    assert("Kinesis"@.len() == 7);
    reveal_strlit("EventBridge");
    assert("EventBridge"@.len() == 11);
    reveal_strlit("EventBridge Scheduler");
    assert("EventBridge Scheduler"@.len() == 21);
    reveal_strlit("Step Functions");
    assert("Step Functions"@.len() == 14);
    reveal_strlit("CloudFormation");
    assert("CloudFormation"@.len() == 14);
    reveal_strlit("Lambda");
    assert("Lambda"@.len() == 6);
    reveal_strlit("EC2");
    assert("EC2"@.len() == 3);
    reveal_strlit("ECS");
    assert("ECS"@.len() == 3);
    reveal_strlit("EKS");
    assert("EKS"@.len() == 3);
    reveal_strlit("ECR");
    assert("ECR"@.len() == 3);
    reveal_strlit("MSK");
    assert("MSK"@.len() == 3);
    reveal_strlit("CodeBuild");
    assert("CodeBuild"@.len() == 9);
    reveal_strlit("CodeDeploy");
    assert("CodeDeploy"@.len() == 10);
    assert("CodeDeploy"@[0] != "OpenSearch"@[0]);
    assert("CodeDeploy"@[0] != "AWS Backup"@[0]);
    assert(catalog_labels()[26] == "CodeDeploy"@);
}

proof fn lemma_label_rank_27()
    ensures
        label_rank(catalog_labels()[27]) == 27,
{
    broadcast use vstd::string::group_string_axioms;
    reveal_strlit("S3");
    assert("S3"@.len() == 2);
    reveal_strlit("DynamoDB");
    assert("DynamoDB"@.len() == 8);
    reveal_strlit("DynamoDB Streams");
    assert("DynamoDB Streams"@.len() == 16);
    reveal_strlit("RDS");
    assert("RDS"@.len() == 3);
    reveal_strlit("ElastiCache");
    assert("ElastiCache"@.len() == 11);
    reveal_strlit("OpenSearch");
    assert("OpenSearch"@.len() == 10);
    reveal_strlit("Glue");
    assert("Glue"@.len() == 4);
    reveal_strlit("Athena");
    assert("Athena"@.len() == 6);
    reveal_strlit("Data Firehose");
    assert("Data Firehose"@.len() == 13);
    reveal_strlit("AWS Backup");
    assert("AWS Backup"@.len() == 10);
    reveal_strlit("SQS");
    assert("SQS"@.len() == 3);
    reveal_strlit("SNS");
    assert("SNS"@.len() == 3);
    reveal_strlit("SES");
    assert("SES"@.len() == 3);
    reveal_strlit("SES v2");
    assert("SES v2"@.len() == 6);
    reveal_strlit("Kinesis");
    assert("Kinesis"@.len() == 7);
    reveal_strlit("EventBridge");
    assert("EventBridge"@.len() == 11);
    reveal_strlit("EventBridge Scheduler");
    assert("EventBridge Scheduler"@.len() == 21);
    reveal_strlit("Step Functions");
    assert("Step Functions"@.len() == 14);
    reveal_strlit("CloudFormation");
    assert("CloudFormation"@.len() == 14);
    reveal_strlit("Lambda");
    assert("Lambda"@.len() == 6);
    reveal_strlit("EC2");
    assert("EC2"@.len() == 3);
    reveal_strlit("ECS");
    assert("ECS"@.len() == 3);
    reveal_strlit("EKS");
    assert("EKS"@.len() == 3);
    reveal_strlit("ECR");
    assert("ECR"@.len() == 3);
    reveal_strlit("MSK");
    assert("MSK"@.len() == 3);
    reveal_strlit("CodeBuild");
    assert("CodeBuild"@.len() == 9);
    reveal_strlit("CodeDeploy");
    assert("CodeDeploy"@.len() == 10);
    reveal_strlit("Auto Scaling");
    assert("Auto Scaling"@.len() == 12);
    assert(catalog_labels()[27] == "Auto Scaling"@);
}

proof fn lemma_label_rank_28()
    ensures
        label_rank(catalog_labels()[28]) == 28,
{
    broadcast use vstd::string::group_string_axioms;
    reveal_strlit("S3");
    assert("S3"@.len() == 2);
    reveal_strlit("DynamoDB");
    assert("DynamoDB"@.len() == 8);
    reveal_strlit("DynamoDB Streams");
    assert("DynamoDB Streams"@.len() == 16);
    reveal_strlit("RDS");
    assert("RDS"@.len() == 3);
    reveal_strlit("ElastiCache");
    assert("ElastiCache"@.len() == 11);
    reveal_strlit("OpenSearch");
    assert("OpenSearch"@.len() == 10);
    reveal_strlit("Glue");
    assert("Glue"@.len() == 4);
    reveal_strlit("Athena");
    assert("Athena"@.len() == 6);
    reveal_strlit("Data Firehose");
    assert("Data Firehose"@.len() == 13);
    reveal_strlit("AWS Backup");
    assert("AWS Backup"@.len() == 10);
    reveal_strlit("SQS");
    assert("SQS"@.len() == 3);
    reveal_strlit("SNS");
    assert("SNS"@.len() == 3);
    reveal_strlit("SES");
    assert("SES"@.len() == 3);
    reveal_strlit("SES v2");
    assert("SES v2"@.len() == 6);
    reveal_strlit("Kinesis");
    assert("Kinesis"@.len() == 7);
    reveal_strlit("EventBridge");
    assert("EventBridge"@.len() == 11);
    reveal_strlit("EventBridge Scheduler");
    assert("EventBridge Scheduler"@.len() == 21);
    reveal_strlit("Step Functions");
    assert("Step Functions"@.len() == 14);
    reveal_strlit("CloudFormation");
    assert("CloudFormation"@.len() == 14);
    reveal_strlit("Lambda");
    assert("Lambda"@.len() == 6);
    reveal_strlit("EC2");
    assert("EC2"@.len() == 3);
    reveal_strlit("ECS");
    assert("ECS"@.len() == 3);
    reveal_strlit("EKS");
    assert("EKS"@.len() == 3);
    reveal_strlit("ECR");
    assert("ECR"@.len() == 3);
    reveal_strlit("MSK");
    assert("MSK"@.len() == 3);
    reveal_strlit("CodeBuild");
    assert("CodeBuild"@.len() == 9);
    reveal_strlit("CodeDeploy");
    assert("CodeDeploy"@.len() == 10);
    reveal_strlit("Auto Scaling");
    assert("Auto Scaling"@.len() == 12);
    reveal_strlit("Bedrock Runtime");
    assert("Bedrock Runtime"@.len() == 15);
    assert(catalog_labels()[28] == "Bedrock Runtime"@);
}

proof fn lemma_label_rank_29()
    ensures
        label_rank(catalog_labels()[29]) == 29,
{
    broadcast use vstd::string::group_string_axioms;
    reveal_strlit("S3");
    assert("S3"@.len() == 2);
    reveal_strlit("DynamoDB");
    assert("DynamoDB"@.len() == 8);
    reveal_strlit("DynamoDB Streams");
    assert("DynamoDB Streams"@.len() == 16);
    reveal_strlit("RDS");
    assert("RDS"@.len() == 3);
    reveal_strlit("ElastiCache");
    assert("ElastiCache"@.len() == 11);
    reveal_strlit("OpenSearch");
    assert("OpenSearch"@.len() == 10);
    reveal_strlit("Glue");
    assert("Glue"@.len() == 4);
    reveal_strlit("Athena");
    assert("Athena"@.len() == 6);
    reveal_strlit("Data Firehose");
    assert("Data Firehose"@.len() == 13);
    reveal_strlit("AWS Backup");
    assert("AWS Backup"@.len() == 10);
    reveal_strlit("SQS");
    assert("SQS"@.len() == 3);
    reveal_strlit("SNS");
    assert("SNS"@.len() == 3);
    reveal_strlit("SES");
    assert("SES"@.len() == 3);
    reveal_strlit("SES v2");
    assert("SES v2"@.len() == 6);
    reveal_strlit("Kinesis");
    assert("Kinesis"@.len() == 7);
    reveal_strlit("EventBridge");
    assert("EventBridge"@.len() == 11);
    reveal_strlit("EventBridge Scheduler");
    assert("EventBridge Scheduler"@.len() == 21);
    reveal_strlit("Step Functions");
    assert("Step Functions"@.len() == 14);
    reveal_strlit("CloudFormation");
    assert("CloudFormation"@.len() == 14);
    reveal_strlit("Lambda");
    assert("Lambda"@.len() == 6);
    reveal_strlit("EC2");
    assert("EC2"@.len() == 3);
    reveal_strlit("ECS");
    assert("ECS"@.len() == 3);
    reveal_strlit("EKS");
    assert("EKS"@.len() == 3);
    reveal_strlit("ECR");
    assert("ECR"@.len() == 3);
    reveal_strlit("MSK");
    assert("MSK"@.len() == 3);
    reveal_strlit("CodeBuild");
    assert("CodeBuild"@.len() == 9);
    reveal_strlit("CodeDeploy");
    assert("CodeDeploy"@.len() == 10);
    reveal_strlit("Auto Scaling");
    assert("Auto Scaling"@.len() == 12);
    reveal_strlit("Bedrock Runtime");
    assert("Bedrock Runtime"@.len() == 15);
    reveal_strlit("IAM");
    assert("IAM"@.len() == 3);
    assert("IAM"@[0] != "RDS"@[0]);
    assert("IAM"@[0] != "SQS"@[0]);
    assert("IAM"@[0] != "SNS"@[0]);
    assert("IAM"@[0] != "SES"@[0]);
    assert("IAM"@[0] != "EC2"@[0]);
    assert("IAM"@[0] != "ECS"@[0]);
    assert("IAM"@[0] != "EKS"@[0]);
    assert("IAM"@[0] != "ECR"@[0]);
    assert("IAM"@[0] != "MSK"@[0]);
    assert(catalog_labels()[29] == "IAM"@);
}

proof fn lemma_label_rank_30()
    ensures
        label_rank(catalog_labels()[30]) == 30,
{
    broadcast use vstd::string::group_string_axioms;
    reveal_strlit("S3");
    assert("S3"@.len() == 2);
    reveal_strlit("DynamoDB");
    assert("DynamoDB"@.len() == 8);
    reveal_strlit("DynamoDB Streams");
    assert("DynamoDB Streams"@.len() == 16);
    reveal_strlit("RDS");
    assert("RDS"@.len() == 3);
    reveal_strlit("ElastiCache");
    assert("ElastiCache"@.len() == 11);
    reveal_strlit("OpenSearch");
    assert("OpenSearch"@.len() == 10);
    reveal_strlit("Glue");
    assert("Glue"@.len() == 4);
    reveal_strlit("Athena");
    assert("Athena"@.len() == 6);
    reveal_strlit("Data Firehose");
    assert("Data Firehose"@.len() == 13);
    reveal_strlit("AWS Backup");
    assert("AWS Backup"@.len() == 10);
    reveal_strlit("SQS");
    assert("SQS"@.len() == 3);
    reveal_strlit("SNS");
    assert("SNS"@.len() == 3);
    reveal_strlit("SES");
    assert("SES"@.len() == 3);
    reveal_strlit("SES v2");
    assert("SES v2"@.len() == 6);
    reveal_strlit("Kinesis");
    assert("Kinesis"@.len() == 7);
    reveal_strlit("EventBridge");
    assert("EventBridge"@.len() == 11);
    reveal_strlit("EventBridge Scheduler");
    assert("EventBridge Scheduler"@.len() == 21);
    reveal_strlit("Step Functions");
    assert("Step Functions"@.len() == 14);
    reveal_strlit("CloudFormation");
    assert("CloudFormation"@.len() == 14);
    reveal_strlit("Lambda");
    assert("Lambda"@.len() == 6);
    reveal_strlit("EC2");
    assert("EC2"@.len() == 3);
    reveal_strlit("ECS");
    assert("ECS"@.len() == 3);
    reveal_strlit("EKS");
    assert("EKS"@.len() == 3);
    reveal_strlit("ECR");
    assert("ECR"@.len() == 3);
    reveal_strlit("MSK");
    assert("MSK"@.len() == 3);
    reveal_strlit("CodeBuild");
    assert("CodeBuild"@.len() == 9);
    reveal_strlit("CodeDeploy");
    assert("CodeDeploy"@.len() == 10);
    reveal_strlit("Auto Scaling");
    assert("Auto Scaling"@.len() == 12);
    reveal_strlit("Bedrock Runtime");
    assert("Bedrock Runtime"@.len() == 15);
    reveal_strlit("IAM");
    assert("IAM"@.len() == 3);
    reveal_strlit("STS");
    assert("STS"@.len() == 3);
    assert("STS"@[0] != "RDS"@[0]);
    assert("STS"@[1] != "SQS"@[1]);
    assert("STS"@[1] != "SNS"@[1]);
    assert("STS"@[1] != "SES"@[1]);
    assert("STS"@[0] != "EC2"@[0]);
    assert("STS"@[0] != "ECS"@[0]);
    assert("STS"@[0] != "EKS"@[0]);
    assert("STS"@[0] != "ECR"@[0]);
    assert("STS"@[0] != "MSK"@[0]);
    assert("STS"@[0] != "IAM"@[0]);
    assert(catalog_labels()[30] == "STS"@);
}

proof fn lemma_label_rank_31()
    ensures
        label_rank(catalog_labels()[31]) == 31,
{
    broadcast use vstd::string::group_string_axioms;
    reveal_strlit("S3");
    assert("S3"@.len() == 2);
    reveal_strlit("DynamoDB");
    assert("DynamoDB"@.len() == 8);
    reveal_strlit("DynamoDB Streams");
    assert("DynamoDB Streams"@.len() == 16);
    reveal_strlit("RDS");
    assert("RDS"@.len() == 3);
    reveal_strlit("ElastiCache");
    assert("ElastiCache"@.len() == 11);
    reveal_strlit("OpenSearch");
    assert("OpenSearch"@.len() == 10);
    reveal_strlit("Glue");
    assert("Glue"@.len() == 4);
    reveal_strlit("Athena");
    assert("Athena"@.len() == 6);
    reveal_strlit("Data Firehose");
    assert("Data Firehose"@.len() == 13);
    reveal_strlit("AWS Backup");
    assert("AWS Backup"@.len() == 10);
    reveal_strlit("SQS");
    assert("SQS"@.len() == 3);
    reveal_strlit("SNS");
    assert("SNS"@.len() == 3);
    reveal_strlit("SES");
    assert("SES"@.len() == 3);
    reveal_strlit("SES v2");
    assert("SES v2"@.len() == 6);
    reveal_strlit("Kinesis");
    assert("Kinesis"@.len() == 7);
    reveal_strlit("EventBridge");
    assert("EventBridge"@.len() == 11);
    reveal_strlit("EventBridge Scheduler");
    assert("EventBridge Scheduler"@.len() == 21);
    reveal_strlit("Step Functions");
    assert("Step Functions"@.len() == 14);
    reveal_strlit("CloudFormation");
    assert("CloudFormation"@.len() == 14);
    reveal_strlit("Lambda");
    assert("Lambda"@.len() == 6);
    reveal_strlit("EC2");
    assert("EC2"@.len() == 3);
    reveal_strlit("ECS");
    assert("ECS"@.len() == 3);
    reveal_strlit("EKS");
    assert("EKS"@.len() == 3);
    reveal_strlit("ECR");
    assert("ECR"@.len() == 3);
    reveal_strlit("MSK");
    assert("MSK"@.len() == 3);
    reveal_strlit("CodeBuild");
    assert("CodeBuild"@.len() == 9);
    reveal_strlit("CodeDeploy");
    assert("CodeDeploy"@.len() == 10);
    reveal_strlit("Auto Scaling");
    assert("Auto Scaling"@.len() == 12);
    reveal_strlit("Bedrock Runtime");
    assert("Bedrock Runtime"@.len() == 15);
    reveal_strlit("IAM");
    assert("IAM"@.len() == 3);
    reveal_strlit("STS");
    assert("STS"@.len() == 3);
    reveal_strlit("Cognito");
    assert("Cognito"@.len() == 7);
    assert("Cognito"@[0] != "Kinesis"@[0]);
    assert(catalog_labels()[31] == "Cognito"@);
}

proof fn lemma_label_rank_32()
    ensures
        label_rank(catalog_labels()[32]) == 32,
{
    broadcast use vstd::string::group_string_axioms;
    reveal_strlit("S3");
    assert("S3"@.len() == 2);
    reveal_strlit("DynamoDB");
    assert("DynamoDB"@.len() == 8);
    reveal_strlit("DynamoDB Streams");
    assert("DynamoDB Streams"@.len() == 16);
    reveal_strlit("RDS");
    assert("RDS"@.len() == 3);
    reveal_strlit("ElastiCache");
    assert("ElastiCache"@.len() == 11);
    reveal_strlit("OpenSearch");
    assert("OpenSearch"@.len() == 10);
    reveal_strlit("Glue");
    assert("Glue"@.len() == 4);
    reveal_strlit("Athena");
    assert("Athena"@.len() == 6);
    reveal_strlit("Data Firehose");
    assert("Data Firehose"@.len() == 13);
    reveal_strlit("AWS Backup");
    assert("AWS Backup"@.len() == 10);
    reveal_strlit("SQS");
    assert("SQS"@.len() == 3);
    reveal_strlit("SNS");
    assert("SNS"@.len() == 3);
    reveal_strlit("SES");
    assert("SES"@.len() == 3);
    reveal_strlit("SES v2");
    assert("SES v2"@.len() == 6);
    reveal_strlit("Kinesis");
    assert("Kinesis"@.len() == 7);
    reveal_strlit("EventBridge");
    assert("EventBridge"@.len() == 11);
    reveal_strlit("EventBridge Scheduler");
    assert("EventBridge Scheduler"@.len() == 21);
    reveal_strlit("Step Functions");
    assert("Step Functions"@.len() == 14);
    reveal_strlit("CloudFormation");
    assert("CloudFormation"@.len() == 14);
    reveal_strlit("Lambda");
    assert("Lambda"@.len() == 6);
    reveal_strlit("EC2");
    assert("EC2"@.len() == 3);
    reveal_strlit("ECS");
    assert("ECS"@.len() == 3);
    reveal_strlit("EKS");
    assert("EKS"@.len() == 3);
    reveal_strlit("ECR");
    assert("ECR"@.len() == 3);
    reveal_strlit("MSK");
    assert("MSK"@.len() == 3);
    reveal_strlit("CodeBuild");
    assert("CodeBuild"@.len() == 9);
    reveal_strlit("CodeDeploy");
    assert("CodeDeploy"@.len() == 10);
    reveal_strlit("Auto Scaling");
    assert("Auto Scaling"@.len() == 12);
    reveal_strlit("Bedrock Runtime");
    assert("Bedrock Runtime"@.len() == 15);
    reveal_strlit("IAM");
    assert("IAM"@.len() == 3);
    reveal_strlit("STS");
    assert("STS"@.len() == 3);
    reveal_strlit("Cognito");
    assert("Cognito"@.len() == 7);
    reveal_strlit("KMS");
    assert("KMS"@.len() == 3);
    assert("KMS"@[0] != "RDS"@[0]);
    assert("KMS"@[0] != "SQS"@[0]);
    assert("KMS"@[0] != "SNS"@[0]);
    assert("KMS"@[0] != "SES"@[0]);
    assert("KMS"@[0] != "EC2"@[0]);
    assert("KMS"@[0] != "ECS"@[0]);
    assert("KMS"@[0] != "EKS"@[0]);
    assert("KMS"@[0] != "ECR"@[0]);
    assert("KMS"@[0] != "MSK"@[0]);
    assert("KMS"@[0] != "IAM"@[0]);
    assert("KMS"@[0] != "STS"@[0]);
    assert(catalog_labels()[32] == "KMS"@);
}

proof fn lemma_label_rank_33()
    ensures
        label_rank(catalog_labels()[33]) == 33,
{
    broadcast use vstd::string::group_string_axioms;
    reveal_strlit("S3");
    assert("S3"@.len() == 2);
    reveal_strlit("DynamoDB");
    assert("DynamoDB"@.len() == 8);
    reveal_strlit("DynamoDB Streams");
    assert("DynamoDB Streams"@.len() == 16);
    reveal_strlit("RDS");
    assert("RDS"@.len() == 3);
    reveal_strlit("ElastiCache");
    assert("ElastiCache"@.len() == 11);
    reveal_strlit("OpenSearch");
    assert("OpenSearch"@.len() == 10);
    reveal_strlit("Glue");
    assert("Glue"@.len() == 4);
    reveal_strlit("Athena");
    assert("Athena"@.len() == 6);
    reveal_strlit("Data Firehose");
    assert("Data Firehose"@.len() == 13);
    reveal_strlit("AWS Backup");
    assert("AWS Backup"@.len() == 10);
    reveal_strlit("SQS");
    assert("SQS"@.len() == 3);
    reveal_strlit("SNS");
    assert("SNS"@.len() == 3);
    reveal_strlit("SES");
    assert("SES"@.len() == 3);
    reveal_strlit("SES v2");
    assert("SES v2"@.len() == 6);
    reveal_strlit("Kinesis");
    assert("Kinesis"@.len() == 7);
    reveal_strlit("EventBridge");
    assert("EventBridge"@.len() == 11);
    reveal_strlit("EventBridge Scheduler");
    assert("EventBridge Scheduler"@.len() == 21);
    reveal_strlit("Step Functions");
    assert("Step Functions"@.len() == 14);
    reveal_strlit("CloudFormation");
    assert("CloudFormation"@.len() == 14);
    reveal_strlit("Lambda");
    assert("Lambda"@.len() == 6);
    reveal_strlit("EC2");
    assert("EC2"@.len() == 3);
    reveal_strlit("ECS");
    assert("ECS"@.len() == 3);
    reveal_strlit("EKS");
    assert("EKS"@.len() == 3);
    reveal_strlit("ECR");
    assert("ECR"@.len() == 3);
    reveal_strlit("MSK");
    assert("MSK"@.len() == 3);
    reveal_strlit("CodeBuild");
    assert("CodeBuild"@.len() == 9);
    reveal_strlit("CodeDeploy");
    assert("CodeDeploy"@.len() == 10);
    reveal_strlit("Auto Scaling");
    assert("Auto Scaling"@.len() == 12);
    reveal_strlit("Bedrock Runtime");
    assert("Bedrock Runtime"@.len() == 15);
    reveal_strlit("IAM");
    assert("IAM"@.len() == 3);
    reveal_strlit("STS");
    assert("STS"@.len() == 3);
    reveal_strlit("Cognito");
    assert("Cognito"@.len() == 7);
    reveal_strlit("KMS");
    assert("KMS"@.len() == 3);
    reveal_strlit("Secrets Manager");
    assert("Secrets Manager"@.len() == 15);
    assert("Secrets Manager"@[0] != "Bedrock Runtime"@[0]);
    assert(catalog_labels()[33] == "Secrets Manager"@);
}

proof fn lemma_label_rank_34()
    ensures
        label_rank(catalog_labels()[34]) == 34,
{
    broadcast use vstd::string::group_string_axioms;
    reveal_strlit("S3");
    assert("S3"@.len() == 2);
    reveal_strlit("DynamoDB");
    assert("DynamoDB"@.len() == 8);
    reveal_strlit("DynamoDB Streams");
    assert("DynamoDB Streams"@.len() == 16);
    reveal_strlit("RDS");
    assert("RDS"@.len() == 3);
    reveal_strlit("ElastiCache");
    assert("ElastiCache"@.len() == 11);
    reveal_strlit("OpenSearch");
    assert("OpenSearch"@.len() == 10);
    reveal_strlit("Glue");
    assert("Glue"@.len() == 4);
    reveal_strlit("Athena");
    assert("Athena"@.len() == 6);
    reveal_strlit("Data Firehose");
    assert("Data Firehose"@.len() == 13);
    reveal_strlit("AWS Backup");
    assert("AWS Backup"@.len() == 10);
    reveal_strlit("SQS");
    assert("SQS"@.len() == 3);
    reveal_strlit("SNS");
    assert("SNS"@.len() == 3);
    reveal_strlit("SES");
    assert("SES"@.len() == 3);
    reveal_strlit("SES v2");
    assert("SES v2"@.len() == 6);
    reveal_strlit("Kinesis");
    assert("Kinesis"@.len() == 7);
    reveal_strlit("EventBridge");
    assert("EventBridge"@.len() == 11);
    reveal_strlit("EventBridge Scheduler");
    assert("EventBridge Scheduler"@.len() == 21);
    reveal_strlit("Step Functions");
    assert("Step Functions"@.len() == 14);
    reveal_strlit("CloudFormation");
    assert("CloudFormation"@.len() == 14);
    reveal_strlit("Lambda");
    assert("Lambda"@.len() == 6);
    reveal_strlit("EC2");
    assert("EC2"@.len() == 3);
    reveal_strlit("ECS");
    assert("ECS"@.len() == 3);
    reveal_strlit("EKS");
    assert("EKS"@.len() == 3);
    reveal_strlit("ECR");
    assert("ECR"@.len() == 3);
    reveal_strlit("MSK");
    assert("MSK"@.len() == 3);
    reveal_strlit("CodeBuild");
    assert("CodeBuild"@.len() == 9);
    reveal_strlit("CodeDeploy");
    assert("CodeDeploy"@.len() == 10);
    reveal_strlit("Auto Scaling");
    assert("Auto Scaling"@.len() == 12);
    reveal_strlit("Bedrock Runtime");
    assert("Bedrock Runtime"@.len() == 15);
    reveal_strlit("IAM");
    assert("IAM"@.len() == 3);
    reveal_strlit("STS");
    assert("STS"@.len() == 3);
    reveal_strlit("Cognito");
    assert("Cognito"@.len() == 7);
    reveal_strlit("KMS");
    assert("KMS"@.len() == 3);
    reveal_strlit("Secrets Manager");
    assert("Secrets Manager"@.len() == 15);
    reveal_strlit("SSM");
    assert("SSM"@.len() == 3);
    assert("SSM"@[0] != "RDS"@[0]);
    assert("SSM"@[1] != "SQS"@[1]);
    assert("SSM"@[1] != "SNS"@[1]);
    assert("SSM"@[1] != "SES"@[1]);
    assert("SSM"@[0] != "EC2"@[0]);
    assert("SSM"@[0] != "ECS"@[0]);
    assert("SSM"@[0] != "EKS"@[0]);
    assert("SSM"@[0] != "ECR"@[0]);
    assert("SSM"@[0] != "MSK"@[0]);
    assert("SSM"@[0] != "IAM"@[0]);
    assert("SSM"@[1] != "STS"@[1]);
    assert("SSM"@[0] != "KMS"@[0]);
    assert(catalog_labels()[34] == "SSM"@);
}

proof fn lemma_label_rank_35()
    ensures
        label_rank(catalog_labels()[35]) == 35,
{
    broadcast use vstd::string::group_string_axioms;
    reveal_strlit("S3");
    assert("S3"@.len() == 2);
    reveal_strlit("DynamoDB");
    assert("DynamoDB"@.len() == 8);
    reveal_strlit("DynamoDB Streams");
    assert("DynamoDB Streams"@.len() == 16);
    reveal_strlit("RDS");
    assert("RDS"@.len() == 3);
    reveal_strlit("ElastiCache");
    assert("ElastiCache"@.len() == 11);
    reveal_strlit("OpenSearch");
    assert("OpenSearch"@.len() == 10);
    reveal_strlit("Glue");
    assert("Glue"@.len() == 4);
    reveal_strlit("Athena");
    assert("Athena"@.len() == 6);
    reveal_strlit("Data Firehose");
    assert("Data Firehose"@.len() == 13);
    reveal_strlit("AWS Backup");
    assert("AWS Backup"@.len() == 10);
    reveal_strlit("SQS");
    assert("SQS"@.len() == 3);
    reveal_strlit("SNS");
    assert("SNS"@.len() == 3);
    reveal_strlit("SES");
    assert("SES"@.len() == 3);
    reveal_strlit("SES v2");
    assert("SES v2"@.len() == 6);
    reveal_strlit("Kinesis");
    assert("Kinesis"@.len() == 7);
    reveal_strlit("EventBridge");
    assert("EventBridge"@.len() == 11);
    reveal_strlit("EventBridge Scheduler");
    assert("EventBridge Scheduler"@.len() == 21);
    reveal_strlit("Step Functions");
    assert("Step Functions"@.len() == 14);
    reveal_strlit("CloudFormation");
    assert("CloudFormation"@.len() == 14);
    reveal_strlit("Lambda");
    assert("Lambda"@.len() == 6);
    reveal_strlit("EC2");
    assert("EC2"@.len() == 3);
    reveal_strlit("ECS");
    assert("ECS"@.len() == 3);
    reveal_strlit("EKS");
    assert("EKS"@.len() == 3);
    reveal_strlit("ECR");
    assert("ECR"@.len() == 3);
    reveal_strlit("MSK");
    assert("MSK"@.len() == 3);
    reveal_strlit("CodeBuild");
    assert("CodeBuild"@.len() == 9);
    reveal_strlit("CodeDeploy");
    assert("CodeDeploy"@.len() == 10);
    reveal_strlit("Auto Scaling");
    assert("Auto Scaling"@.len() == 12);
    reveal_strlit("Bedrock Runtime");
    assert("Bedrock Runtime"@.len() == 15);
    reveal_strlit("IAM");
    assert("IAM"@.len() == 3);
    reveal_strlit("STS");
    assert("STS"@.len() == 3);
    reveal_strlit("Cognito");
    assert("Cognito"@.len() == 7);
    reveal_strlit("KMS");
    assert("KMS"@.len() == 3);
    reveal_strlit("Secrets Manager");
    assert("Secrets Manager"@.len() == 15);
    reveal_strlit("SSM");
    assert("SSM"@.len() == 3);
    reveal_strlit("AppConfig");
    assert("AppConfig"@.len() == 9);
    assert("AppConfig"@[0] != "CodeBuild"@[0]);
    assert(catalog_labels()[35] == "AppConfig"@);
}

proof fn lemma_label_rank_36()
    ensures
        label_rank(catalog_labels()[36]) == 36,
{
    broadcast use vstd::string::group_string_axioms;
    reveal_strlit("S3");
    assert("S3"@.len() == 2);
    reveal_strlit("DynamoDB");
    assert("DynamoDB"@.len() == 8);
    reveal_strlit("DynamoDB Streams");
    assert("DynamoDB Streams"@.len() == 16);
    reveal_strlit("RDS");
    assert("RDS"@.len() == 3);
    reveal_strlit("ElastiCache");
    assert("ElastiCache"@.len() == 11);
    reveal_strlit("OpenSearch");
    assert("OpenSearch"@.len() == 10);
    reveal_strlit("Glue");
    assert("Glue"@.len() == 4);
    reveal_strlit("Athena");
    assert("Athena"@.len() == 6);
    reveal_strlit("Data Firehose");
    assert("Data Firehose"@.len() == 13);
    reveal_strlit("AWS Backup");
    assert("AWS Backup"@.len() == 10);
    reveal_strlit("SQS");
    assert("SQS"@.len() == 3);
    reveal_strlit("SNS");
    assert("SNS"@.len() == 3);
    reveal_strlit("SES");
    assert("SES"@.len() == 3);
    reveal_strlit("SES v2");
    assert("SES v2"@.len() == 6);
    reveal_strlit("Kinesis");
    assert("Kinesis"@.len() == 7);
    reveal_strlit("EventBridge");
    assert("EventBridge"@.len() == 11);
    reveal_strlit("EventBridge Scheduler");
    assert("EventBridge Scheduler"@.len() == 21);
    reveal_strlit("Step Functions");
    assert("Step Functions"@.len() == 14);
    reveal_strlit("CloudFormation");
    assert("CloudFormation"@.len() == 14);
    reveal_strlit("Lambda");
    assert("Lambda"@.len() == 6);
    reveal_strlit("EC2");
    assert("EC2"@.len() == 3);
    reveal_strlit("ECS");
    assert("ECS"@.len() == 3);
    reveal_strlit("EKS");
    assert("EKS"@.len() == 3);
    reveal_strlit("ECR");
    assert("ECR"@.len() == 3);
    reveal_strlit("MSK");
    assert("MSK"@.len() == 3);
    reveal_strlit("CodeBuild");
    assert("CodeBuild"@.len() == 9);
    reveal_strlit("CodeDeploy");
    assert("CodeDeploy"@.len() == 10);
    reveal_strlit("Auto Scaling");
    assert("Auto Scaling"@.len() == 12);
    reveal_strlit("Bedrock Runtime");
    assert("Bedrock Runtime"@.len() == 15);
    reveal_strlit("IAM");
    assert("IAM"@.len() == 3);
    reveal_strlit("STS");
    assert("STS"@.len() == 3);
    reveal_strlit("Cognito");
    assert("Cognito"@.len() == 7);
    reveal_strlit("KMS");
    assert("KMS"@.len() == 3);
    reveal_strlit("Secrets Manager");
    assert("Secrets Manager"@.len() == 15);
    reveal_strlit("SSM");
    assert("SSM"@.len() == 3);
    reveal_strlit("AppConfig");
    assert("AppConfig"@.len() == 9);
    reveal_strlit("AppConfig Data");
    assert("AppConfig Data"@.len() == 14);
    assert("AppConfig Data"@[0] != "Step Functions"@[0]);
    assert("AppConfig Data"@[0] != "CloudFormation"@[0]);
    assert(catalog_labels()[36] == "AppConfig Data"@);
}

proof fn lemma_label_rank_37()
    ensures
        label_rank(catalog_labels()[37]) == 37,
{
    broadcast use vstd::string::group_string_axioms;
    reveal_strlit("S3");
    assert("S3"@.len() == 2);
    reveal_strlit("DynamoDB");
    assert("DynamoDB"@.len() == 8);
    reveal_strlit("DynamoDB Streams");
    assert("DynamoDB Streams"@.len() == 16);
    reveal_strlit("RDS");
    assert("RDS"@.len() == 3);
    reveal_strlit("ElastiCache");
    assert("ElastiCache"@.len() == 11);
    reveal_strlit("OpenSearch");
    assert("OpenSearch"@.len() == 10);
    reveal_strlit("Glue");
    assert("Glue"@.len() == 4);
    reveal_strlit("Athena");
    assert("Athena"@.len() == 6);
    reveal_strlit("Data Firehose");
    assert("Data Firehose"@.len() == 13);
    reveal_strlit("AWS Backup");
    assert("AWS Backup"@.len() == 10);
    reveal_strlit("SQS");
    assert("SQS"@.len() == 3);
    reveal_strlit("SNS");
    assert("SNS"@.len() == 3);
    reveal_strlit("SES");
    assert("SES"@.len() == 3);
    reveal_strlit("SES v2");
    assert("SES v2"@.len() == 6);
    reveal_strlit("Kinesis");
    assert("Kinesis"@.len() == 7);
    reveal_strlit("EventBridge");
    assert("EventBridge"@.len() == 11);
    reveal_strlit("EventBridge Scheduler");
    assert("EventBridge Scheduler"@.len() == 21);
    reveal_strlit("Step Functions");
    assert("Step Functions"@.len() == 14);
    reveal_strlit("CloudFormation");
    assert("CloudFormation"@.len() == 14);
    reveal_strlit("Lambda");
    assert("Lambda"@.len() == 6);
    reveal_strlit("EC2");
    assert("EC2"@.len() == 3);
    reveal_strlit("ECS");
    assert("ECS"@.len() == 3);
    reveal_strlit("EKS");
    assert("EKS"@.len() == 3);
    reveal_strlit("ECR");
    assert("ECR"@.len() == 3);
    reveal_strlit("MSK");
    assert("MSK"@.len() == 3);
    reveal_strlit("CodeBuild");
    assert("CodeBuild"@.len() == 9);
    reveal_strlit("CodeDeploy");
    assert("CodeDeploy"@.len() == 10);
    reveal_strlit("Auto Scaling");
    assert("Auto Scaling"@.len() == 12);
    reveal_strlit("Bedrock Runtime");
    assert("Bedrock Runtime"@.len() == 15);
    reveal_strlit("IAM");
    assert("IAM"@.len() == 3);
    reveal_strlit("STS");
    assert("STS"@.len() == 3);
    reveal_strlit("Cognito");
    assert("Cognito"@.len() == 7);
    reveal_strlit("KMS");
    assert("KMS"@.len() == 3);
    reveal_strlit("Secrets Manager");
    assert("Secrets Manager"@.len() == 15);
    reveal_strlit("SSM");
    assert("SSM"@.len() == 3);
    reveal_strlit("AppConfig");
    assert("AppConfig"@.len() == 9);
    reveal_strlit("AppConfig Data");
    assert("AppConfig Data"@.len() == 14);
    reveal_strlit("ACM");
    assert("ACM"@.len() == 3);
    assert("ACM"@[0] != "RDS"@[0]);
    assert("ACM"@[0] != "SQS"@[0]);
    assert("ACM"@[0] != "SNS"@[0]);
    assert("ACM"@[0] != "SES"@[0]);
    assert("ACM"@[0] != "EC2"@[0]);
    assert("ACM"@[0] != "ECS"@[0]);
    assert("ACM"@[0] != "EKS"@[0]);
    assert("ACM"@[0] != "ECR"@[0]);
    assert("ACM"@[0] != "MSK"@[0]);
    assert("ACM"@[0] != "IAM"@[0]);
    assert("ACM"@[0] != "STS"@[0]);
    assert("ACM"@[0] != "KMS"@[0]);
    assert("ACM"@[0] != "SSM"@[0]);
    assert(catalog_labels()[37] == "ACM"@);
}

proof fn lemma_label_rank_38()
    ensures
        label_rank(catalog_labels()[38]) == 38,
{
    broadcast use vstd::string::group_string_axioms;
    reveal_strlit("S3");
    assert("S3"@.len() == 2);
    reveal_strlit("DynamoDB");
    assert("DynamoDB"@.len() == 8);
    reveal_strlit("DynamoDB Streams");
    assert("DynamoDB Streams"@.len() == 16);
    reveal_strlit("RDS");
    assert("RDS"@.len() == 3);
    reveal_strlit("ElastiCache");
    assert("ElastiCache"@.len() == 11);
    reveal_strlit("OpenSearch");
    assert("OpenSearch"@.len() == 10);
    reveal_strlit("Glue");
    assert("Glue"@.len() == 4);
    reveal_strlit("Athena");
    assert("Athena"@.len() == 6);
    reveal_strlit("Data Firehose");
    assert("Data Firehose"@.len() == 13);
    reveal_strlit("AWS Backup");
    assert("AWS Backup"@.len() == 10);
    reveal_strlit("SQS");
    assert("SQS"@.len() == 3);
    reveal_strlit("SNS");
    assert("SNS"@.len() == 3);
    reveal_strlit("SES");
    assert("SES"@.len() == 3);
    reveal_strlit("SES v2");
    assert("SES v2"@.len() == 6);
    reveal_strlit("Kinesis");
    assert("Kinesis"@.len() == 7);
    reveal_strlit("EventBridge");
    assert("EventBridge"@.len() == 11);
    reveal_strlit("EventBridge Scheduler");
    assert("EventBridge Scheduler"@.len() == 21);
    reveal_strlit("Step Functions");
    assert("Step Functions"@.len() == 14);
    reveal_strlit("CloudFormation");
    assert("CloudFormation"@.len() == 14);
    reveal_strlit("Lambda");
    assert("Lambda"@.len() == 6);
    reveal_strlit("EC2");
    assert("EC2"@.len() == 3);
    reveal_strlit("ECS");
    assert("ECS"@.len() == 3);
    reveal_strlit("EKS");
    assert("EKS"@.len() == 3);
    reveal_strlit("ECR");
    assert("ECR"@.len() == 3);
    reveal_strlit("MSK");
    assert("MSK"@.len() == 3);
    reveal_strlit("CodeBuild");
    assert("CodeBuild"@.len() == 9);
    reveal_strlit("CodeDeploy");
    assert("CodeDeploy"@.len() == 10);
    reveal_strlit("Auto Scaling");
    assert("Auto Scaling"@.len() == 12);
    reveal_strlit("Bedrock Runtime");
    assert("Bedrock Runtime"@.len() == 15);
    reveal_strlit("IAM");
    assert("IAM"@.len() == 3);
    reveal_strlit("STS");
    assert("STS"@.len() == 3);
    reveal_strlit("Cognito");
    assert("Cognito"@.len() == 7);
    reveal_strlit("KMS");
    assert("KMS"@.len() == 3);
    reveal_strlit("Secrets Manager");
    assert("Secrets Manager"@.len() == 15);
    reveal_strlit("SSM");
    assert("SSM"@.len() == 3);
    reveal_strlit("AppConfig");
    assert("AppConfig"@.len() == 9);
    reveal_strlit("AppConfig Data");
    assert("AppConfig Data"@.len() == 14);
    reveal_strlit("ACM");
    assert("ACM"@.len() == 3);
    reveal_strlit("API Gateway");
    assert("API Gateway"@.len() == 11);
    assert("API Gateway"@[0] != "ElastiCache"@[0]);
    assert("API Gateway"@[0] != "EventBridge"@[0]);
    assert(catalog_labels()[38] == "API Gateway"@);
}

proof fn lemma_label_rank_39()
    ensures
        label_rank(catalog_labels()[39]) == 39,
{
    broadcast use vstd::string::group_string_axioms;
    reveal_strlit("S3");
    assert("S3"@.len() == 2);
    reveal_strlit("DynamoDB");
    assert("DynamoDB"@.len() == 8);
    reveal_strlit("DynamoDB Streams");
    assert("DynamoDB Streams"@.len() == 16);
    reveal_strlit("RDS");
    assert("RDS"@.len() == 3);
    reveal_strlit("ElastiCache");
    assert("ElastiCache"@.len() == 11);
    reveal_strlit("OpenSearch");
    assert("OpenSearch"@.len() == 10);
    reveal_strlit("Glue");
    assert("Glue"@.len() == 4);
    reveal_strlit("Athena");
    assert("Athena"@.len() == 6);
    reveal_strlit("Data Firehose");
    assert("Data Firehose"@.len() == 13);
    reveal_strlit("AWS Backup");
    assert("AWS Backup"@.len() == 10);
    reveal_strlit("SQS");
    assert("SQS"@.len() == 3);
    reveal_strlit("SNS");
    assert("SNS"@.len() == 3);
    reveal_strlit("SES");
    assert("SES"@.len() == 3);
    reveal_strlit("SES v2");
    assert("SES v2"@.len() == 6);
    reveal_strlit("Kinesis");
    assert("Kinesis"@.len() == 7);
    reveal_strlit("EventBridge");
    assert("EventBridge"@.len() == 11);
    reveal_strlit("EventBridge Scheduler");
    assert("EventBridge Scheduler"@.len() == 21);
    reveal_strlit("Step Functions");
    assert("Step Functions"@.len() == 14);
    reveal_strlit("CloudFormation");
    assert("CloudFormation"@.len() == 14);
    reveal_strlit("Lambda");
    assert("Lambda"@.len() == 6);
    reveal_strlit("EC2");
    assert("EC2"@.len() == 3);
    reveal_strlit("ECS");
    assert("ECS"@.len() == 3);
    reveal_strlit("EKS");
    assert("EKS"@.len() == 3);
    reveal_strlit("ECR");
    assert("ECR"@.len() == 3);
    reveal_strlit("MSK");
    assert("MSK"@.len() == 3);
    reveal_strlit("CodeBuild");
    assert("CodeBuild"@.len() == 9);
    reveal_strlit("CodeDeploy");
    assert("CodeDeploy"@.len() == 10);
    reveal_strlit("Auto Scaling");
    assert("Auto Scaling"@.len() == 12);
    reveal_strlit("Bedrock Runtime");
    assert("Bedrock Runtime"@.len() == 15);
    reveal_strlit("IAM");
    assert("IAM"@.len() == 3);
    reveal_strlit("STS");
    assert("STS"@.len() == 3);
    reveal_strlit("Cognito");
    assert("Cognito"@.len() == 7);
    reveal_strlit("KMS");
    assert("KMS"@.len() == 3);
    reveal_strlit("Secrets Manager");
    assert("Secrets Manager"@.len() == 15);
    reveal_strlit("SSM");
    assert("SSM"@.len() == 3);
    reveal_strlit("AppConfig");
    assert("AppConfig"@.len() == 9);
    reveal_strlit("AppConfig Data");
    assert("AppConfig Data"@.len() == 14);
    reveal_strlit("ACM");
    assert("ACM"@.len() == 3);
    reveal_strlit("API Gateway");
    assert("API Gateway"@.len() == 11);
    reveal_strlit("API Gateway v2");
    assert("API Gateway v2"@.len() == 14);
    assert("API Gateway v2"@[0] != "Step Functions"@[0]);
    assert("API Gateway v2"@[0] != "CloudFormation"@[0]);
    assert("API Gateway v2"@[1] != "AppConfig Data"@[1]);
    assert(catalog_labels()[39] == "API Gateway v2"@);
}

proof fn lemma_label_rank_40()
    ensures
        label_rank(catalog_labels()[40]) == 40,
{
    broadcast use vstd::string::group_string_axioms;
    reveal_strlit("S3");
    assert("S3"@.len() == 2);
    reveal_strlit("DynamoDB");
    assert("DynamoDB"@.len() == 8);
    reveal_strlit("DynamoDB Streams");
    assert("DynamoDB Streams"@.len() == 16);
    reveal_strlit("RDS");
    assert("RDS"@.len() == 3);
    reveal_strlit("ElastiCache");
    assert("ElastiCache"@.len() == 11);
    reveal_strlit("OpenSearch");
    assert("OpenSearch"@.len() == 10);
    reveal_strlit("Glue");
    assert("Glue"@.len() == 4);
    reveal_strlit("Athena");
    assert("Athena"@.len() == 6);
    reveal_strlit("Data Firehose");
    assert("Data Firehose"@.len() == 13);
    reveal_strlit("AWS Backup");
    assert("AWS Backup"@.len() == 10);
    reveal_strlit("SQS");
    assert("SQS"@.len() == 3);
    reveal_strlit("SNS");
    assert("SNS"@.len() == 3);
    reveal_strlit("SES");
    assert("SES"@.len() == 3);
    reveal_strlit("SES v2");
    assert("SES v2"@.len() == 6);
    reveal_strlit("Kinesis");
    assert("Kinesis"@.len() == 7);
    reveal_strlit("EventBridge");
    assert("EventBridge"@.len() == 11);
    reveal_strlit("EventBridge Scheduler");
    assert("EventBridge Scheduler"@.len() == 21);
    reveal_strlit("Step Functions");
    assert("Step Functions"@.len() == 14);
    reveal_strlit("CloudFormation");
    assert("CloudFormation"@.len() == 14);
    reveal_strlit("Lambda");
    assert("Lambda"@.len() == 6);
    reveal_strlit("EC2");
    assert("EC2"@.len() == 3);
    reveal_strlit("ECS");
    assert("ECS"@.len() == 3);
    reveal_strlit("EKS");
    assert("EKS"@.len() == 3);
    reveal_strlit("ECR");
    assert("ECR"@.len() == 3);
    reveal_strlit("MSK");
    assert("MSK"@.len() == 3);
    reveal_strlit("CodeBuild");
    assert("CodeBuild"@.len() == 9);
    reveal_strlit("CodeDeploy");
    assert("CodeDeploy"@.len() == 10);
    reveal_strlit("Auto Scaling");
    assert("Auto Scaling"@.len() == 12);
    reveal_strlit("Bedrock Runtime");
    assert("Bedrock Runtime"@.len() == 15);
    reveal_strlit("IAM");
    assert("IAM"@.len() == 3);
    reveal_strlit("STS");
    assert("STS"@.len() == 3);
    reveal_strlit("Cognito");
    assert("Cognito"@.len() == 7);
    reveal_strlit("KMS");
    assert("KMS"@.len() == 3);
    reveal_strlit("Secrets Manager");
    assert("Secrets Manager"@.len() == 15);
    reveal_strlit("SSM");
    assert("SSM"@.len() == 3);
    reveal_strlit("AppConfig");
    assert("AppConfig"@.len() == 9);
    reveal_strlit("AppConfig Data");
    assert("AppConfig Data"@.len() == 14);
    reveal_strlit("ACM");
    assert("ACM"@.len() == 3);
    reveal_strlit("API Gateway");
    assert("API Gateway"@.len() == 11);
    reveal_strlit("API Gateway v2");
    assert("API Gateway v2"@.len() == 14);
    reveal_strlit("Elastic Load Balancing v2");
    assert("Elastic Load Balancing v2"@.len() == 25);
    assert(catalog_labels()[40] == "Elastic Load Balancing v2"@);
}

proof fn lemma_label_rank_41()
    ensures
        label_rank(catalog_labels()[41]) == 41,
{
    broadcast use vstd::string::group_string_axioms;
    reveal_strlit("S3");
    assert("S3"@.len() == 2);
    reveal_strlit("DynamoDB");
    assert("DynamoDB"@.len() == 8);
    reveal_strlit("DynamoDB Streams");
    assert("DynamoDB Streams"@.len() == 16);
    reveal_strlit("RDS");
    assert("RDS"@.len() == 3);
    reveal_strlit("ElastiCache");
    assert("ElastiCache"@.len() == 11);
    reveal_strlit("OpenSearch");
    assert("OpenSearch"@.len() == 10);
    reveal_strlit("Glue");
    assert("Glue"@.len() == 4);
    reveal_strlit("Athena");
    assert("Athena"@.len() == 6);
    reveal_strlit("Data Firehose");
    assert("Data Firehose"@.len() == 13);
    reveal_strlit("AWS Backup");
    assert("AWS Backup"@.len() == 10);
    reveal_strlit("SQS");
    assert("SQS"@.len() == 3);
    reveal_strlit("SNS");
    assert("SNS"@.len() == 3);
    reveal_strlit("SES");
    assert("SES"@.len() == 3);
    reveal_strlit("SES v2");
    assert("SES v2"@.len() == 6);
    reveal_strlit("Kinesis");
    assert("Kinesis"@.len() == 7);
    reveal_strlit("EventBridge");
    assert("EventBridge"@.len() == 11);
    reveal_strlit("EventBridge Scheduler");
    assert("EventBridge Scheduler"@.len() == 21);
    reveal_strlit("Step Functions");
    assert("Step Functions"@.len() == 14);
    reveal_strlit("CloudFormation");
    assert("CloudFormation"@.len() == 14);
    reveal_strlit("Lambda");
    assert("Lambda"@.len() == 6);
    reveal_strlit("EC2");
    assert("EC2"@.len() == 3);
    reveal_strlit("ECS");
    assert("ECS"@.len() == 3);
    reveal_strlit("EKS");
    assert("EKS"@.len() == 3);
    reveal_strlit("ECR");
    assert("ECR"@.len() == 3);
    reveal_strlit("MSK");
    assert("MSK"@.len() == 3);
    reveal_strlit("CodeBuild");
    assert("CodeBuild"@.len() == 9);
    reveal_strlit("CodeDeploy");
    assert("CodeDeploy"@.len() == 10);
    reveal_strlit("Auto Scaling");
    assert("Auto Scaling"@.len() == 12);
    reveal_strlit("Bedrock Runtime");
    assert("Bedrock Runtime"@.len() == 15);
    reveal_strlit("IAM");
    assert("IAM"@.len() == 3);
    reveal_strlit("STS");
    assert("STS"@.len() == 3);
    reveal_strlit("Cognito");
    assert("Cognito"@.len() == 7);
    reveal_strlit("KMS");
    assert("KMS"@.len() == 3);
    reveal_strlit("Secrets Manager");
    assert("Secrets Manager"@.len() == 15);
    reveal_strlit("SSM");
    assert("SSM"@.len() == 3);
    reveal_strlit("AppConfig");
    assert("AppConfig"@.len() == 9);
    reveal_strlit("AppConfig Data");
    assert("AppConfig Data"@.len() == 14);
    reveal_strlit("ACM");
    assert("ACM"@.len() == 3);
    reveal_strlit("API Gateway");
    assert("API Gateway"@.len() == 11);
    reveal_strlit("API Gateway v2");
    assert("API Gateway v2"@.len() == 14);
    reveal_strlit("Elastic Load Balancing v2");
    assert("Elastic Load Balancing v2"@.len() == 25);
    reveal_strlit("Route 53");
    assert("Route 53"@.len() == 8);
    assert("Route 53"@[0] != "DynamoDB"@[0]);
    assert(catalog_labels()[41] == "Route 53"@);
}

proof fn lemma_label_rank_42()
    ensures
        label_rank(catalog_labels()[42]) == 42,
{
    broadcast use vstd::string::group_string_axioms;
    reveal_strlit("S3");
    assert("S3"@.len() == 2);
    reveal_strlit("DynamoDB");
    assert("DynamoDB"@.len() == 8);
    reveal_strlit("DynamoDB Streams");
    assert("DynamoDB Streams"@.len() == 16);
    reveal_strlit("RDS");
    assert("RDS"@.len() == 3);
    reveal_strlit("ElastiCache");
    assert("ElastiCache"@.len() == 11);
    reveal_strlit("OpenSearch");
    assert("OpenSearch"@.len() == 10);
    reveal_strlit("Glue");
    assert("Glue"@.len() == 4);
    reveal_strlit("Athena");
    assert("Athena"@.len() == 6);
    reveal_strlit("Data Firehose");
    assert("Data Firehose"@.len() == 13);
    reveal_strlit("AWS Backup");
    assert("AWS Backup"@.len() == 10);
    reveal_strlit("SQS");
    assert("SQS"@.len() == 3);
    reveal_strlit("SNS");
    assert("SNS"@.len() == 3);
    reveal_strlit("SES");
    assert("SES"@.len() == 3);
    reveal_strlit("SES v2");
    assert("SES v2"@.len() == 6);
    reveal_strlit("Kinesis");
    assert("Kinesis"@.len() == 7);
    reveal_strlit("EventBridge");
    assert("EventBridge"@.len() == 11);
    reveal_strlit("EventBridge Scheduler");
    assert("EventBridge Scheduler"@.len() == 21);
    reveal_strlit("Step Functions");
    assert("Step Functions"@.len() == 14);
    reveal_strlit("CloudFormation");
    assert("CloudFormation"@.len() == 14);
    reveal_strlit("Lambda");
    assert("Lambda"@.len() == 6);
    reveal_strlit("EC2");
    assert("EC2"@.len() == 3);
    reveal_strlit("ECS");
    assert("ECS"@.len() == 3);
    reveal_strlit("EKS");
    assert("EKS"@.len() == 3);
    reveal_strlit("ECR");
    assert("ECR"@.len() == 3);
    reveal_strlit("MSK");
    assert("MSK"@.len() == 3);
    reveal_strlit("CodeBuild");
    assert("CodeBuild"@.len() == 9);
    reveal_strlit("CodeDeploy");
    assert("CodeDeploy"@.len() == 10);
    reveal_strlit("Auto Scaling");
    assert("Auto Scaling"@.len() == 12);
    reveal_strlit("Bedrock Runtime");
    assert("Bedrock Runtime"@.len() == 15);
    reveal_strlit("IAM");
    assert("IAM"@.len() == 3);
    reveal_strlit("STS");
    assert("STS"@.len() == 3);
    reveal_strlit("Cognito");
    assert("Cognito"@.len() == 7);
    reveal_strlit("KMS");
    assert("KMS"@.len() == 3);
    reveal_strlit("Secrets Manager");
    assert("Secrets Manager"@.len() == 15);
    reveal_strlit("SSM");
    assert("SSM"@.len() == 3);
    reveal_strlit("AppConfig");
    assert("AppConfig"@.len() == 9);
    reveal_strlit("AppConfig Data");
    assert("AppConfig Data"@.len() == 14);
    reveal_strlit("ACM");
    assert("ACM"@.len() == 3);
    reveal_strlit("API Gateway");
    assert("API Gateway"@.len() == 11);
    reveal_strlit("API Gateway v2");
    assert("API Gateway v2"@.len() == 14);
    reveal_strlit("Elastic Load Balancing v2");
    assert("Elastic Load Balancing v2"@.len() == 25);
    reveal_strlit("Route 53");
    assert("Route 53"@.len() == 8);
    reveal_strlit("Transfer Family");
    assert("Transfer Family"@.len() == 15);
    assert("Transfer Family"@[0] != "Bedrock Runtime"@[0]);
    assert("Transfer Family"@[0] != "Secrets Manager"@[0]);
    assert(catalog_labels()[42] == "Transfer Family"@);
}

proof fn lemma_label_rank_43()
    ensures
        label_rank(catalog_labels()[43]) == 43,
{
    broadcast use vstd::string::group_string_axioms;
    reveal_strlit("S3");
    assert("S3"@.len() == 2);
    reveal_strlit("DynamoDB");
    assert("DynamoDB"@.len() == 8);
    reveal_strlit("DynamoDB Streams");
    assert("DynamoDB Streams"@.len() == 16);
    reveal_strlit("RDS");
    assert("RDS"@.len() == 3);
    reveal_strlit("ElastiCache");
    assert("ElastiCache"@.len() == 11);
    reveal_strlit("OpenSearch");
    assert("OpenSearch"@.len() == 10);
    reveal_strlit("Glue");
    assert("Glue"@.len() == 4);
    reveal_strlit("Athena");
    assert("Athena"@.len() == 6);
    reveal_strlit("Data Firehose");
    assert("Data Firehose"@.len() == 13);
    reveal_strlit("AWS Backup");
    assert("AWS Backup"@.len() == 10);
    reveal_strlit("SQS");
    assert("SQS"@.len() == 3);
    reveal_strlit("SNS");
    assert("SNS"@.len() == 3);
    reveal_strlit("SES");
    assert("SES"@.len() == 3);
    reveal_strlit("SES v2");
    assert("SES v2"@.len() == 6);
    reveal_strlit("Kinesis");
    assert("Kinesis"@.len() == 7);
    reveal_strlit("EventBridge");
    assert("EventBridge"@.len() == 11);
    reveal_strlit("EventBridge Scheduler");
    assert("EventBridge Scheduler"@.len() == 21);
    reveal_strlit("Step Functions");
    assert("Step Functions"@.len() == 14);
    reveal_strlit("CloudFormation");
    assert("CloudFormation"@.len() == 14);
    reveal_strlit("Lambda");
    assert("Lambda"@.len() == 6);
    reveal_strlit("EC2");
    assert("EC2"@.len() == 3);
    reveal_strlit("ECS");
    assert("ECS"@.len() == 3);
    reveal_strlit("EKS");
    assert("EKS"@.len() == 3);
    reveal_strlit("ECR");
    assert("ECR"@.len() == 3);
    reveal_strlit("MSK");
    assert("MSK"@.len() == 3);
    reveal_strlit("CodeBuild");
    assert("CodeBuild"@.len() == 9);
    reveal_strlit("CodeDeploy");
    assert("CodeDeploy"@.len() == 10);
    reveal_strlit("Auto Scaling");
    assert("Auto Scaling"@.len() == 12);
    reveal_strlit("Bedrock Runtime");
    assert("Bedrock Runtime"@.len() == 15);
    reveal_strlit("IAM");
    assert("IAM"@.len() == 3);
    reveal_strlit("STS");
    assert("STS"@.len() == 3);
    reveal_strlit("Cognito");
    assert("Cognito"@.len() == 7);
    reveal_strlit("KMS");
    assert("KMS"@.len() == 3);
    reveal_strlit("Secrets Manager");
    assert("Secrets Manager"@.len() == 15);
    reveal_strlit("SSM");
    assert("SSM"@.len() == 3);
    reveal_strlit("AppConfig");
    assert("AppConfig"@.len() == 9);
    reveal_strlit("AppConfig Data");
    assert("AppConfig Data"@.len() == 14);
    reveal_strlit("ACM");
    assert("ACM"@.len() == 3);
    reveal_strlit("API Gateway");
    assert("API Gateway"@.len() == 11);
    reveal_strlit("API Gateway v2");
    assert("API Gateway v2"@.len() == 14);
    reveal_strlit("Elastic Load Balancing v2");
    assert("Elastic Load Balancing v2"@.len() == 25);
    reveal_strlit("Route 53");
    assert("Route 53"@.len() == 8);
    reveal_strlit("Transfer Family");
    assert("Transfer Family"@.len() == 15);
    reveal_strlit("CloudWatch Logs");
    assert("CloudWatch Logs"@.len() == 15);
    assert("CloudWatch Logs"@[0] != "Bedrock Runtime"@[0]);
    assert("CloudWatch Logs"@[0] != "Secrets Manager"@[0]);
    assert("CloudWatch Logs"@[0] != "Transfer Family"@[0]);
    assert(catalog_labels()[43] == "CloudWatch Logs"@);
}

proof fn lemma_label_rank_44()
    ensures
        label_rank(catalog_labels()[44]) == 44,
{
    broadcast use vstd::string::group_string_axioms;
    reveal_strlit("S3");
    assert("S3"@.len() == 2);
    reveal_strlit("DynamoDB");
    assert("DynamoDB"@.len() == 8);
    reveal_strlit("DynamoDB Streams");
    assert("DynamoDB Streams"@.len() == 16);
    reveal_strlit("RDS");
    assert("RDS"@.len() == 3);
    reveal_strlit("ElastiCache");
    assert("ElastiCache"@.len() == 11);
    reveal_strlit("OpenSearch");
    assert("OpenSearch"@.len() == 10);
    reveal_strlit("Glue");
    assert("Glue"@.len() == 4);
    reveal_strlit("Athena");
    assert("Athena"@.len() == 6);
    reveal_strlit("Data Firehose");
    assert("Data Firehose"@.len() == 13);
    reveal_strlit("AWS Backup");
    assert("AWS Backup"@.len() == 10);
    reveal_strlit("SQS");
    assert("SQS"@.len() == 3);
    reveal_strlit("SNS");
    assert("SNS"@.len() == 3);
    reveal_strlit("SES");
    assert("SES"@.len() == 3);
    reveal_strlit("SES v2");
    assert("SES v2"@.len() == 6);
    reveal_strlit("Kinesis");
    assert("Kinesis"@.len() == 7);
    reveal_strlit("EventBridge");
    assert("EventBridge"@.len() == 11);
    reveal_strlit("EventBridge Scheduler");
    assert("EventBridge Scheduler"@.len() == 21);
    reveal_strlit("Step Functions");
    assert("Step Functions"@.len() == 14);
    reveal_strlit("CloudFormation");
    assert("CloudFormation"@.len() == 14);
    reveal_strlit("Lambda");
    assert("Lambda"@.len() == 6);
    reveal_strlit("EC2");
    assert("EC2"@.len() == 3);
    reveal_strlit("ECS");
    assert("ECS"@.len() == 3);
    reveal_strlit("EKS");
    assert("EKS"@.len() == 3);
    reveal_strlit("ECR");
    assert("ECR"@.len() == 3);
    reveal_strlit("MSK");
    assert("MSK"@.len() == 3);
    reveal_strlit("CodeBuild");
    assert("CodeBuild"@.len() == 9);
    reveal_strlit("CodeDeploy");
    assert("CodeDeploy"@.len() == 10);
    reveal_strlit("Auto Scaling");
    assert("Auto Scaling"@.len() == 12);
    reveal_strlit("Bedrock Runtime");
    assert("Bedrock Runtime"@.len() == 15);
    reveal_strlit("IAM");
    assert("IAM"@.len() == 3);
    reveal_strlit("STS");
    assert("STS"@.len() == 3);
    reveal_strlit("Cognito");
    assert("Cognito"@.len() == 7);
    reveal_strlit("KMS");
    assert("KMS"@.len() == 3);
    reveal_strlit("Secrets Manager");
    assert("Secrets Manager"@.len() == 15);
    reveal_strlit("SSM");
    assert("SSM"@.len() == 3);
    reveal_strlit("AppConfig");
    assert("AppConfig"@.len() == 9);
    reveal_strlit("AppConfig Data");
    assert("AppConfig Data"@.len() == 14);
    reveal_strlit("ACM");
    assert("ACM"@.len() == 3);
    reveal_strlit("API Gateway");
    assert("API Gateway"@.len() == 11);
    reveal_strlit("API Gateway v2");
    assert("API Gateway v2"@.len() == 14);
    reveal_strlit("Elastic Load Balancing v2");
    assert("Elastic Load Balancing v2"@.len() == 25);
    reveal_strlit("Route 53");
    assert("Route 53"@.len() == 8);
    reveal_strlit("Transfer Family");
    assert("Transfer Family"@.len() == 15);
    reveal_strlit("CloudWatch Logs");
    assert("CloudWatch Logs"@.len() == 15);
    reveal_strlit("CloudWatch");
    assert("CloudWatch"@.len() == 10);
    assert("CloudWatch"@[0] != "OpenSearch"@[0]);
    assert("CloudWatch"@[0] != "AWS Backup"@[0]);
    assert("CloudWatch"@[1] != "CodeDeploy"@[1]);
    assert(catalog_labels()[44] == "CloudWatch"@);
}

/// The catalog lists 45 services, and no two of them share a key.
pub proof fn lemma_registry_keys_distinct()
    ensures
        registry().len() == 45,
        forall|i: int, j: int|
            0 <= i < registry().len() && 0 <= j < registry().len() && i != j
                ==> #[trigger] registry()[i].key != #[trigger] registry()[j].key,
{
    assert(registry().map_values(|d: DescriptorView| d.key) =~= catalog_keys());
    lemma_key_rank_0();
    lemma_key_rank_1();
    lemma_key_rank_2();
    lemma_key_rank_3();
    lemma_key_rank_4();
    lemma_key_rank_5();
    lemma_key_rank_6();
    lemma_key_rank_7();
    lemma_key_rank_8();
    lemma_key_rank_9();
    lemma_key_rank_10();
    lemma_key_rank_11();
    lemma_key_rank_12();
    lemma_key_rank_13();
    lemma_key_rank_14();
    lemma_key_rank_15();
    lemma_key_rank_16();
    lemma_key_rank_17();
    lemma_key_rank_18();
    lemma_key_rank_19();
    lemma_key_rank_20();
    lemma_key_rank_21();
    lemma_key_rank_22();
    lemma_key_rank_23();
    lemma_key_rank_24();
    lemma_key_rank_25();
    lemma_key_rank_26();
    lemma_key_rank_27();
    lemma_key_rank_28();
    lemma_key_rank_29();
    lemma_key_rank_30();
    lemma_key_rank_31();
    lemma_key_rank_32();
    lemma_key_rank_33();
    lemma_key_rank_34();
    lemma_key_rank_35();
    lemma_key_rank_36();
    lemma_key_rank_37();
    lemma_key_rank_38();
    lemma_key_rank_39();
    lemma_key_rank_40();
    lemma_key_rank_41();
    lemma_key_rank_42();
    lemma_key_rank_43();
    lemma_key_rank_44();
    assert forall|i: int, j: int|
        0 <= i < registry().len() && 0 <= j < registry().len() && i != j
            implies #[trigger] registry()[i].key != #[trigger] registry()[j].key by {
        assert(registry()[i].key == catalog_keys()[i]);
        assert(registry()[j].key == catalog_keys()[j]);
        assert(key_rank(catalog_keys()[i]) == i);
        assert(key_rank(catalog_keys()[j]) == j);
    }
}

/// No two services of the catalog share a label, so neither do two services of one category.
pub proof fn lemma_registry_labels_distinct()
    ensures
        forall|i: int, j: int|
            0 <= i < registry().len() && 0 <= j < registry().len() && i != j
                ==> #[trigger] registry()[i].label != #[trigger] registry()[j].label,
{
    assert(registry().map_values(|d: DescriptorView| d.label) =~= catalog_labels());
    lemma_label_rank_0();
    lemma_label_rank_1();
    lemma_label_rank_2();
    lemma_label_rank_3();
    lemma_label_rank_4();
    lemma_label_rank_5();
    lemma_label_rank_6();
    lemma_label_rank_7();
    lemma_label_rank_8();
    lemma_label_rank_9();
    lemma_label_rank_10();
    lemma_label_rank_11();
    lemma_label_rank_12();
    lemma_label_rank_13();
    lemma_label_rank_14();
    lemma_label_rank_15();
    lemma_label_rank_16();
    lemma_label_rank_17();
    lemma_label_rank_18();
    lemma_label_rank_19();
    lemma_label_rank_20();
    lemma_label_rank_21();
    lemma_label_rank_22();
    lemma_label_rank_23();
    lemma_label_rank_24();
    lemma_label_rank_25();
    lemma_label_rank_26();
    lemma_label_rank_27();
    lemma_label_rank_28();
    lemma_label_rank_29();
    lemma_label_rank_30();
    lemma_label_rank_31();
    lemma_label_rank_32();
    lemma_label_rank_33();
    lemma_label_rank_34();
    lemma_label_rank_35();
    lemma_label_rank_36();
    lemma_label_rank_37();
    lemma_label_rank_38();
    lemma_label_rank_39();
    lemma_label_rank_40();
    lemma_label_rank_41();
    lemma_label_rank_42();
    lemma_label_rank_43();
    lemma_label_rank_44();
    assert forall|i: int, j: int|
        0 <= i < registry().len() && 0 <= j < registry().len() && i != j
            implies #[trigger] registry()[i].label != #[trigger] registry()[j].label by {
        assert(registry()[i].label == catalog_labels()[i]);
        assert(registry()[j].label == catalog_labels()[j]);
        assert(label_rank(catalog_labels()[i]) == i);
        assert(label_rank(catalog_labels()[j]) == j);
    }
}

} // verus!
