//! How the service catalog agrees with the adapters that serve its services.
use vstd::prelude::*;

use crate::models::DescriptorView;
use crate::service_management::adapters::{
    compute_build, data_storage, messaging_events, network_observability, security_config,
};
use crate::service_management::registry::{
    catalog_keys, find_descriptor, find_entry_from, lemma_registry_keys_distinct, registry,
};

verus! {

/// When no entry of `reg` between `j` and `i` shares the key of entry `i`, the
/// search for that key from `j` finds entry `i`.
proof fn lemma_find_entry_at(reg: Seq<DescriptorView>, i: int, j: int)
    requires
        0 <= j <= i < reg.len(),
        forall|k: int| j <= k < i ==> #[trigger] reg[k].key != reg[i].key,
    ensures
        find_entry_from(reg, reg[i].key, j) == Some(reg[i]),
    decreases i - j,
{
    if j < i {
        lemma_find_entry_at(reg, i, j + 1);
    }
}

/// Looking a service up by its key finds its own catalog entry.
proof fn lemma_catalog_entry(i: int)
    requires
        0 <= i < 45,
    ensures
        find_descriptor(registry()[i].key) == Some(registry()[i]),
{
    lemma_registry_keys_distinct();
    assert forall|k: int| 0 <= k < i implies #[trigger] registry()[k].key != registry()[i].key by {}
    lemma_find_entry_at(registry(), i, 0);
}

/// The catalog lists every service under the label and the support level of
/// the inventory page that the service's adapter builds: a service whose adapter
/// manages its resources (creates, changes or deletes them) is listed as
/// managed, and one whose adapter only reads them is listed as read-only.
pub proof fn lemma_catalog_matches_adapters()
    ensures
        find_descriptor("s3"@) matches Some(d) && d.support_level
            == data_storage::s3::support_level() && d.label == data_storage::s3::label(),
        find_descriptor("dynamodb"@) matches Some(d) && d.support_level
            == data_storage::dynamodb::support_level() && d.label == data_storage::dynamodb::label(),
        find_descriptor("dynamodbstreams"@) matches Some(d) && d.support_level
            == data_storage::dynamodbstreams::support_level() && d.label == data_storage::dynamodbstreams::label(),
        find_descriptor("rds"@) matches Some(d) && d.support_level
            == data_storage::rds::support_level() && d.label == data_storage::rds::label(),
        find_descriptor("elasticache"@) matches Some(d) && d.support_level
            == data_storage::elasticache::support_level() && d.label == data_storage::elasticache::label(),
        find_descriptor("opensearch"@) matches Some(d) && d.support_level
            == data_storage::opensearch::support_level() && d.label == data_storage::opensearch::label(),
        find_descriptor("glue"@) matches Some(d) && d.support_level
            == data_storage::glue::support_level() && d.label == data_storage::glue::label(),
        find_descriptor("athena"@) matches Some(d) && d.support_level
            == data_storage::athena::support_level() && d.label == data_storage::athena::label(),
        find_descriptor("firehose"@) matches Some(d) && d.support_level
            == data_storage::firehose::support_level() && d.label == data_storage::firehose::label(),
        find_descriptor("backup"@) matches Some(d) && d.support_level
            == data_storage::backup::support_level() && d.label == data_storage::backup::label(),
        find_descriptor("sqs"@) matches Some(d) && d.support_level
            == messaging_events::sqs::support_level() && d.label == messaging_events::sqs::label(),
        find_descriptor("sns"@) matches Some(d) && d.support_level
            == messaging_events::sns::support_level() && d.label == messaging_events::sns::label(),
        find_descriptor("ses"@) matches Some(d) && d.support_level
            == messaging_events::ses::support_level() && d.label == messaging_events::ses::label(),
        find_descriptor("sesv2"@) matches Some(d) && d.support_level
            == messaging_events::sesv2::support_level() && d.label == messaging_events::sesv2::label(),
        find_descriptor("kinesis"@) matches Some(d) && d.support_level
            == messaging_events::kinesis::support_level() && d.label == messaging_events::kinesis::label(),
        find_descriptor("eventbridge"@) matches Some(d) && d.support_level
            == messaging_events::eventbridge::support_level() && d.label == messaging_events::eventbridge::label(),
        find_descriptor("scheduler"@) matches Some(d) && d.support_level
            == messaging_events::scheduler::support_level() && d.label == messaging_events::scheduler::label(),
        find_descriptor("stepfunctions"@) matches Some(d) && d.support_level
            == messaging_events::stepfunctions::support_level() && d.label == messaging_events::stepfunctions::label(),
        find_descriptor("cloudformation"@) matches Some(d) && d.support_level
            == messaging_events::cloudformation::support_level() && d.label == messaging_events::cloudformation::label(),
        find_descriptor("lambda"@) matches Some(d) && d.support_level
            == compute_build::lambda::support_level() && d.label == compute_build::lambda::label(),
        find_descriptor("ec2"@) matches Some(d) && d.support_level
            == compute_build::ec2::support_level() && d.label == compute_build::ec2::label(),
        find_descriptor("ecs"@) matches Some(d) && d.support_level
            == compute_build::ecs::support_level() && d.label == compute_build::ecs::label(),
        find_descriptor("eks"@) matches Some(d) && d.support_level
            == compute_build::eks::support_level() && d.label == compute_build::eks::label(),
        find_descriptor("ecr"@) matches Some(d) && d.support_level
            == compute_build::ecr::support_level() && d.label == compute_build::ecr::label(),
        find_descriptor("msk"@) matches Some(d) && d.support_level
            == compute_build::msk::support_level() && d.label == compute_build::msk::label(),
        find_descriptor("codebuild"@) matches Some(d) && d.support_level
            == compute_build::codebuild::support_level() && d.label == compute_build::codebuild::label(),
        find_descriptor("codedeploy"@) matches Some(d) && d.support_level
            == compute_build::codedeploy::support_level() && d.label == compute_build::codedeploy::label(),
        find_descriptor("autoscaling"@) matches Some(d) && d.support_level
            == compute_build::autoscaling::support_level() && d.label == compute_build::autoscaling::label(),
        find_descriptor("bedrockruntime"@) matches Some(d) && d.support_level
            == compute_build::bedrockruntime::support_level() && d.label == compute_build::bedrockruntime::label(),
        find_descriptor("iam"@) matches Some(d) && d.support_level
            == security_config::iam::support_level() && d.label == security_config::iam::label(),
        find_descriptor("sts"@) matches Some(d) && d.support_level
            == security_config::sts::support_level() && d.label == security_config::sts::label(),
        find_descriptor("cognito"@) matches Some(d) && d.support_level
            == security_config::cognito::support_level() && d.label == security_config::cognito::label(),
        find_descriptor("kms"@) matches Some(d) && d.support_level
            == security_config::kms::support_level() && d.label == security_config::kms::label(),
        find_descriptor("secretsmanager"@) matches Some(d) && d.support_level
            == security_config::secretsmanager::support_level() && d.label == security_config::secretsmanager::label(),
        find_descriptor("ssm"@) matches Some(d) && d.support_level
            == security_config::ssm::support_level() && d.label == security_config::ssm::label(),
        find_descriptor("appconfig"@) matches Some(d) && d.support_level
            == security_config::appconfig::support_level() && d.label == security_config::appconfig::label(),
        find_descriptor("appconfigdata"@) matches Some(d) && d.support_level
            == security_config::appconfigdata::support_level() && d.label == security_config::appconfigdata::label(),
        find_descriptor("acm"@) matches Some(d) && d.support_level
            == security_config::acm::support_level() && d.label == security_config::acm::label(),
        find_descriptor("apigateway"@) matches Some(d) && d.support_level
            == network_observability::apigateway::support_level() && d.label == network_observability::apigateway::label(),
        find_descriptor("apigatewayv2"@) matches Some(d) && d.support_level
            == network_observability::apigatewayv2::support_level() && d.label == network_observability::apigatewayv2::label(),
        find_descriptor("elbv2"@) matches Some(d) && d.support_level
            == network_observability::elbv2::support_level() && d.label == network_observability::elbv2::label(),
        find_descriptor("route53"@) matches Some(d) && d.support_level
            == network_observability::route53::support_level() && d.label == network_observability::route53::label(),
        find_descriptor("transfer"@) matches Some(d) && d.support_level
            == network_observability::transfer::support_level() && d.label == network_observability::transfer::label(),
        find_descriptor("cloudwatchlogs"@) matches Some(d) && d.support_level
            == network_observability::cloudwatchlogs::support_level() && d.label == network_observability::cloudwatchlogs::label(),
        find_descriptor("cloudwatch"@) matches Some(d) && d.support_level
            == network_observability::cloudwatch::support_level() && d.label == network_observability::cloudwatch::label(),
{
    lemma_registry_keys_distinct();
    assert(registry().map_values(|d: DescriptorView| d.key) =~= catalog_keys());
    lemma_catalog_entry(0);
    assert(registry()[0].key == "s3"@);
    lemma_catalog_entry(1);
    assert(registry()[1].key == "dynamodb"@);
    lemma_catalog_entry(2);
    assert(registry()[2].key == "dynamodbstreams"@);
    lemma_catalog_entry(3);
    assert(registry()[3].key == "rds"@);
    lemma_catalog_entry(4);
    assert(registry()[4].key == "elasticache"@);
    lemma_catalog_entry(5);
    assert(registry()[5].key == "opensearch"@);
    lemma_catalog_entry(6);
    assert(registry()[6].key == "glue"@);
    lemma_catalog_entry(7);
    assert(registry()[7].key == "athena"@);
    lemma_catalog_entry(8);
    assert(registry()[8].key == "firehose"@);
    lemma_catalog_entry(9);
    assert(registry()[9].key == "backup"@);
    lemma_catalog_entry(10);
    assert(registry()[10].key == "sqs"@);
    lemma_catalog_entry(11);
    assert(registry()[11].key == "sns"@);
    lemma_catalog_entry(12);
    assert(registry()[12].key == "ses"@);
    lemma_catalog_entry(13);
    assert(registry()[13].key == "sesv2"@);
    lemma_catalog_entry(14);
    assert(registry()[14].key == "kinesis"@);
    lemma_catalog_entry(15);
    assert(registry()[15].key == "eventbridge"@);
    lemma_catalog_entry(16);
    assert(registry()[16].key == "scheduler"@);
    lemma_catalog_entry(17);
    assert(registry()[17].key == "stepfunctions"@);
    lemma_catalog_entry(18);
    assert(registry()[18].key == "cloudformation"@);
    lemma_catalog_entry(19);
    assert(registry()[19].key == "lambda"@);
    lemma_catalog_entry(20);
    assert(registry()[20].key == "ec2"@);
    lemma_catalog_entry(21);
    assert(registry()[21].key == "ecs"@);
    lemma_catalog_entry(22);
    assert(registry()[22].key == "eks"@);
    lemma_catalog_entry(23);
    assert(registry()[23].key == "ecr"@);
    lemma_catalog_entry(24);
    assert(registry()[24].key == "msk"@);
    lemma_catalog_entry(25);
    assert(registry()[25].key == "codebuild"@);
    lemma_catalog_entry(26);
    assert(registry()[26].key == "codedeploy"@);
    lemma_catalog_entry(27);
    assert(registry()[27].key == "autoscaling"@);
    lemma_catalog_entry(28);
    assert(registry()[28].key == "bedrockruntime"@);
    lemma_catalog_entry(29);
    assert(registry()[29].key == "iam"@);
    lemma_catalog_entry(30);
    assert(registry()[30].key == "sts"@);
    lemma_catalog_entry(31);
    assert(registry()[31].key == "cognito"@);
    lemma_catalog_entry(32);
    assert(registry()[32].key == "kms"@);
    lemma_catalog_entry(33);
    assert(registry()[33].key == "secretsmanager"@);
    lemma_catalog_entry(34);
    assert(registry()[34].key == "ssm"@);
    lemma_catalog_entry(35);
    assert(registry()[35].key == "appconfig"@);
    lemma_catalog_entry(36);
    assert(registry()[36].key == "appconfigdata"@);
    lemma_catalog_entry(37);
    assert(registry()[37].key == "acm"@);
    lemma_catalog_entry(38);
    assert(registry()[38].key == "apigateway"@);
    lemma_catalog_entry(39);
    assert(registry()[39].key == "apigatewayv2"@);
    lemma_catalog_entry(40);
    assert(registry()[40].key == "elbv2"@);
    lemma_catalog_entry(41);
    assert(registry()[41].key == "route53"@);
    lemma_catalog_entry(42);
    assert(registry()[42].key == "transfer"@);
    lemma_catalog_entry(43);
    assert(registry()[43].key == "cloudwatchlogs"@);
    lemma_catalog_entry(44);
    assert(registry()[44].key == "cloudwatch"@);
}

} // verus!
