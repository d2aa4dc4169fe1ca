//! Data and storage services.
use vstd::prelude::*;

use crate::service_management::adapters::{
    destructive, key_listed, lemma_not_destructive, planned_outcome, refreshed,
    refreshed_result, route_outcome, unsupported_action_error, ActionRoute, ActionRouteView,
    CallReply, CallView, Planned, PlannedView,
};
use crate::service_management::errors::{unsupported_service_error, ErrorView, ServiceManagementError};
use crate::service_management::models::{ActionResult, ActionResultView, ServiceActionRequest};
use crate::service_management::actions::typed_confirmation;
use crate::text::text_eq;

pub use crate::service_management::adapters::{read_only_inventory, unsupported_action};

pub use crate::service_management::text_map::insert_attr;

pub mod athena;
pub mod backup;
pub mod dynamodb;
pub mod dynamodbstreams;
pub mod elasticache;
pub mod firehose;
pub mod glue;
pub mod opensearch;
pub mod rds;
pub mod s3;

verus! {

/// Keys of the services of this family.
pub open spec fn family_keys() -> Seq<Seq<char>> {
    seq!["s3"@, "dynamodb"@, "dynamodbstreams"@, "rds"@, "elasticache"@, "opensearch"@, "glue"@, "athena"@, "firehose"@, "backup"@]
}

/// Keys of the services of this family that have an action adapter.
pub open spec fn adapter_keys() -> Seq<Seq<char>> {
    seq!["s3"@, "dynamodb"@]
}

/// Keys of the services of this family.
pub fn service_keys() -> (v: Vec<&'static str>)
    ensures
        v@.map_values(|k: &str| k@) == family_keys(),
{
    let mut v: Vec<&'static str> = Vec::new();
    v.push("s3");
    v.push("dynamodb");
    v.push("dynamodbstreams");
    v.push("rds");
    v.push("elasticache");
    v.push("opensearch");
    v.push("glue");
    v.push("athena");
    v.push("firehose");
    v.push("backup");
    assert(v@.map_values(|k: &str| k@) =~= family_keys());
    v
}

fn adapter_keys_list() -> (v: Vec<&'static str>)
    ensures
        v@.map_values(|k: &str| k@) == adapter_keys(),
{
    let mut v: Vec<&'static str> = Vec::new();
    v.push("s3");
    v.push("dynamodb");
    assert(v@.map_values(|k: &str| k@) =~= adapter_keys());
    v
}

/// Where this family sends an action request.
pub open spec fn action_route(request: ServiceActionRequest) -> Result<ActionRouteView, ErrorView> {
    if adapter_keys().contains(request.service_key@) {
        Ok(ActionRouteView::Adapter)
    } else if family_keys().contains(request.service_key@) && request.action@ == "refresh_inventory"@ {
        Ok(ActionRouteView::Done(refreshed_result(request.service_key@, None)))
    } else if family_keys().contains(request.service_key@) {
        Err(unsupported_action_error(request))
    } else {
        Err(unsupported_service_error(request.service_key@))
    }
}

/// Decides whether a service's adapter performs an action, or how the family answers it.
pub fn route_action(request: &ServiceActionRequest) -> (r: Result<ActionRoute, ServiceManagementError>)
    ensures
        route_outcome(r) == action_route(*request),
{
    let key = request.service_key.as_str();
    if key_listed(&adapter_keys_list(), key) {
        return Ok(ActionRoute::Adapter);
    }
    let listed = key_listed(&service_keys(), key);
    if listed && text_eq(request.action.as_str(), "refresh_inventory") {
        Ok(ActionRoute::Done(refreshed(key, None)))
    } else if listed {
        Err(unsupported_action(request))
    } else {
        Err(ServiceManagementError::unsupported_service(key))
    }
}


/// A call that one of this family's adapters is to make.
#[derive(Debug, Clone)]
pub enum Call {
    S3(s3::Call),
    DynamoDb(dynamodb::Call),
}

impl View for Call {
    type V = CallView;

    open spec fn view(&self) -> CallView {
        match self {
            Call::S3(c) => c@,
            Call::DynamoDb(c) => c@,
        }
    }
}

/// What an action request on a service of this family asks for.
pub open spec fn action_plan(request: ServiceActionRequest) -> Result<PlannedView, ErrorView> {
    match action_route(request) {
        Ok(ActionRouteView::Done(a)) => Ok(PlannedView::Done(a)),
        Ok(ActionRouteView::Adapter) => {
            let key = request.service_key@;
            if key == "s3"@ {
                s3::action_plan(request)
} else if key == "dynamodb"@ {
                dynamodb::action_plan(request)
} else {
                Err(unsupported_service_error(key))
            }
        },
        Err(e) => Err(e),
    }
}

/// Validates an action request on a service of this family and decides what
/// to do: answer it at once, or make the call that its adapter plans.
pub fn plan_action(request: &ServiceActionRequest) -> (r: Result<Planned<Call>, ServiceManagementError>)
    requires
        request.payload.wf(),
    ensures
        planned_outcome(r) == action_plan(*request),
{
    match route_action(request)? {
        ActionRoute::Done(a) => Ok(Planned::Done(a)),
        ActionRoute::Adapter => {
            let key = request.service_key.as_str();
            if text_eq(key, "s3") {
                Ok(
                    match s3::plan_action(request)? {
                        Planned::Call(c) => Planned::Call(Call::S3(c)),
                        Planned::Done(a) => Planned::Done(a),
                    },
                )
} else if text_eq(key, "dynamodb") {
                Ok(
                    match dynamodb::plan_action(request)? {
                        Planned::Call(c) => Planned::Call(Call::DynamoDb(c)),
                        Planned::Done(a) => Planned::Done(a),
                    },
                )
} else {
                Err(ServiceManagementError::unsupported_service(key))
            }
        },
    }
}

/// The result of `call` once it succeeded with `reply`.
pub open spec fn result_of(call: Call, reply: CallReply) -> ActionResultView {
    match call {
        Call::S3(c) => s3::result_of(c, reply),
        Call::DynamoDb(c) => dynamodb::result_of(c, reply),
    }
}

/// The result reported once `call` succeeded with `reply`.
pub fn completed(call: &Call, reply: &CallReply) -> (r: ActionResult)
    ensures
        r@ == result_of(*call, *reply),
{
    match call {
        Call::S3(c) => s3::completed(c, reply),
        Call::DynamoDb(c) => dynamodb::completed(c, reply),
    }
}

/// Every call planned for an action request on a service of this family
/// performs the requested action.
pub proof fn lemma_plan_performs_requested_action(request: ServiceActionRequest)
    ensures
        action_plan(request) matches Ok(PlannedView::Call(c)) ==> c.name == request.action@,
{
    s3::lemma_plan_performs_requested_action(request);
    dynamodb::lemma_plan_performs_requested_action(request);
}

/// A destructive action on a service of this family is only planned once
/// the typed confirmation matches.
pub proof fn lemma_destructive_actions_are_confirmed(request: ServiceActionRequest)
    ensures
        action_plan(request) is Ok && destructive(request.action@) ==> typed_confirmation(request) is Ok,
{
    reveal_strlit("refresh_inventory");
    lemma_not_destructive("refresh_inventory"@);
    s3::lemma_destructive_actions_are_confirmed(request);
    dynamodb::lemma_destructive_actions_are_confirmed(request);
}

/// A service of this family without an adapter only answers
/// `refresh_inventory`, which changes nothing; every other action on it is
/// refused as unsupported.
pub proof fn lemma_read_only_services_only_refresh(request: ServiceActionRequest)
    requires
        family_keys().contains(request.service_key@),
        !adapter_keys().contains(request.service_key@),
    ensures
        action_plan(request) == (if request.action@ == "refresh_inventory"@ {
            Ok(PlannedView::Done(refreshed_result(request.service_key@, None)))
        } else {
            Err(unsupported_action_error(request))
        }),
{
}

} // verus!
