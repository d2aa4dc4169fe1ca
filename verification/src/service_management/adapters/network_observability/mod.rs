//! Network, observability and edge services.
use vstd::prelude::*;
use vstd::string::*;

use crate::service_management::adapters::{
    destructive, key_listed, lemma_not_destructive, planned_outcome, refreshed,
    refreshed_result, route_outcome, unsupported_action_error, ActionRoute, ActionRouteView,
    CallReply, CallView, Planned, PlannedView, put_attr, shows, summary, texts_of, with_attr,
};
use crate::service_management::models::ResourceSummary;
use crate::service_management::text_map::TextMap;
use crate::text::concat4;
use crate::service_management::errors::{unsupported_service_error, ErrorView, ServiceManagementError};
use crate::service_management::models::{ActionResult, ActionResultView, ServiceActionRequest};
use crate::service_management::actions::typed_confirmation;
use crate::text::text_eq;

pub use crate::service_management::adapters::{managed_inventory, unsupported_action};
pub use crate::service_management::adapters::payload::{require_resource_id, require_payload_text, optional_payload_text, optional_payload_i32, build_error, resource_name_from_arn};
pub use crate::service_management::text_map::insert_attr;

pub mod apigateway;
pub mod apigatewayv2;
pub mod cloudwatch;
pub mod cloudwatchlogs;
pub mod elbv2;
pub mod route53;
pub mod transfer;

verus! {

/// Keys of the services of this family.
pub open spec fn family_keys() -> Seq<Seq<char>> {
    seq!["apigateway"@, "apigatewayv2"@, "elbv2"@, "route53"@, "transfer"@, "cloudwatchlogs"@, "cloudwatch"@]
}

/// Keys of the services of this family that have an action adapter.
pub open spec fn adapter_keys() -> Seq<Seq<char>> {
    seq!["apigateway"@, "apigatewayv2"@, "elbv2"@, "route53"@, "transfer"@, "cloudwatchlogs"@, "cloudwatch"@]
}

/// Keys of the services of this family.
pub fn service_keys() -> (v: Vec<&'static str>)
    ensures
        v@.map_values(|k: &str| k@) == family_keys(),
{
    let mut v: Vec<&'static str> = Vec::new();
    v.push("apigateway");
    v.push("apigatewayv2");
    v.push("elbv2");
    v.push("route53");
    v.push("transfer");
    v.push("cloudwatchlogs");
    v.push("cloudwatch");
    assert(v@.map_values(|k: &str| k@) =~= family_keys());
    v
}

fn adapter_keys_list() -> (v: Vec<&'static str>)
    ensures
        v@.map_values(|k: &str| k@) == adapter_keys(),
{
    let mut v: Vec<&'static str> = Vec::new();
    v.push("apigateway");
    v.push("apigatewayv2");
    v.push("elbv2");
    v.push("route53");
    v.push("transfer");
    v.push("cloudwatchlogs");
    v.push("cloudwatch");
    assert(v@.map_values(|k: &str| k@) =~= adapter_keys());
    v
}

/// Where this family sends an action request.
pub open spec fn action_route(request: ServiceActionRequest) -> Result<ActionRouteView, ErrorView> {
    if family_keys().contains(request.service_key@) && request.action@ == "refresh_inventory"@ {
        Ok(ActionRouteView::Done(refreshed_result(request.service_key@, request.resource_id.deep_view())))
    } else if adapter_keys().contains(request.service_key@) {
        Ok(ActionRouteView::Adapter)
    } else if family_keys().contains(request.service_key@) {
        Err(unsupported_action_error(request))
    } else {
        Err(unsupported_service_error(request.service_key@))
    }
}

/// Decides whether a service's adapter performs an action, or how the family answers it.
pub fn route_action(request: &ServiceActionRequest) -> (r: Result<ActionRoute, ServiceManagementError>)
    ensures
        route_outcome(r) == action_route(*request),
{
    let key = request.service_key.as_str();
    let listed = key_listed(&service_keys(), key);
    if listed && text_eq(request.action.as_str(), "refresh_inventory") {
        return Ok(ActionRoute::Done(refreshed(key, request.resource_id.clone())));
    }
    if key_listed(&adapter_keys_list(), key) {
        Ok(ActionRoute::Adapter)
    } else if listed {
        Err(unsupported_action(request))
    } else {
        Err(ServiceManagementError::unsupported_service(key))
    }
}


/// The note shown in place of identity details that the inventory hides.
pub open spec fn redacted_note() -> Seq<char> {
    "Sensitive identity details are redacted from inventory."@
}

/// The note shown in place of identity details that the inventory hides.
pub fn redacted_value_marker() -> (r: String)
    ensures
        r@ == redacted_note(),
{
    String::from_str("Sensitive identity details are redacted from inventory.")
}

/// The resource listed for a deployment of an API.
pub fn deployment_summary(
    api_id: &str,
    deployment_id: &str,
    description: Option<String>,
    created_at: Option<String>,
) -> (r: ResourceSummary)
    ensures
        r.wf(),
        shows(
            r@,
            "deployment/"@ + api_id@ + "/"@ + deployment_id@,
            deployment_id@,
            "deployment"@,
            "deployed"@,
            created_at.deep_view(),
            None,
            with_attr(map!["api_id"@ => api_id@], "description"@, description.deep_view()),
        ),
{
    let mut attributes: TextMap<String> = TextMap::new();
    attributes.insert(String::from_str("api_id"), String::from_str(api_id));
    assert(texts_of(attributes@) =~= map!["api_id"@ => api_id@]);
    put_attr(&mut attributes, "description", description);
    summary(
        concat4("deployment/", api_id, "/", deployment_id),
        String::from_str(deployment_id),
        "deployment",
        String::from_str("deployed"),
        created_at,
        None,
        attributes,
    )
}

/// A call that one of this family's adapters is to make.
#[derive(Debug, Clone)]
pub enum Call {
    ApiGateway(apigateway::Call),
    ApiGatewayV2(apigatewayv2::Call),
    Elbv2(elbv2::Call),
    Route53(route53::Call),
    Transfer(transfer::Call),
    CloudWatchLogs(cloudwatchlogs::Call),
    CloudWatch(cloudwatch::Call),
}

impl View for Call {
    type V = CallView;

    open spec fn view(&self) -> CallView {
        match self {
            Call::ApiGateway(c) => c@,
            Call::ApiGatewayV2(c) => c@,
            Call::Elbv2(c) => c@,
            Call::Route53(c) => c@,
            Call::Transfer(c) => c@,
            Call::CloudWatchLogs(c) => c@,
            Call::CloudWatch(c) => c@,
        }
    }
}

/// What an action request on a service of this family asks for.
pub open spec fn action_plan(request: ServiceActionRequest) -> Result<PlannedView, ErrorView> {
    match action_route(request) {
        Ok(ActionRouteView::Done(a)) => Ok(PlannedView::Done(a)),
        Ok(ActionRouteView::Adapter) => {
            let key = request.service_key@;
            if key == "apigateway"@ {
                apigateway::action_plan(request)
} else if key == "apigatewayv2"@ {
                apigatewayv2::action_plan(request)
} else if key == "elbv2"@ {
                elbv2::action_plan(request)
} else if key == "route53"@ {
                route53::action_plan(request)
} else if key == "transfer"@ {
                transfer::action_plan(request)
} else if key == "cloudwatchlogs"@ {
                cloudwatchlogs::action_plan(request)
} else if key == "cloudwatch"@ {
                cloudwatch::action_plan(request)
} else {
                Err(unsupported_service_error(key))
            }
        },
        Err(e) => Err(e),
    }
}

/// Validates an action request on a service of this family and decides what
/// to do: answer it at once, or make the call that its adapter plans.
pub fn plan_action(request: &ServiceActionRequest) -> (r: Result<Planned<Call>, ServiceManagementError>)
    requires
        request.payload.wf(),
    ensures
        planned_outcome(r) == action_plan(*request),
{
    match route_action(request)? {
        ActionRoute::Done(a) => Ok(Planned::Done(a)),
        ActionRoute::Adapter => {
            let key = request.service_key.as_str();
            if text_eq(key, "apigateway") {
                Ok(
                    match apigateway::plan_action(request)? {
                        Planned::Call(c) => Planned::Call(Call::ApiGateway(c)),
                        Planned::Done(a) => Planned::Done(a),
                    },
                )
} else if text_eq(key, "apigatewayv2") {
                Ok(
                    match apigatewayv2::plan_action(request)? {
                        Planned::Call(c) => Planned::Call(Call::ApiGatewayV2(c)),
                        Planned::Done(a) => Planned::Done(a),
                    },
                )
} else if text_eq(key, "elbv2") {
                Ok(
                    match elbv2::plan_action(request)? {
                        Planned::Call(c) => Planned::Call(Call::Elbv2(c)),
                        Planned::Done(a) => Planned::Done(a),
                    },
                )
} else if text_eq(key, "route53") {
                Ok(
                    match route53::plan_action(request)? {
                        Planned::Call(c) => Planned::Call(Call::Route53(c)),
                        Planned::Done(a) => Planned::Done(a),
                    },
                )
} else if text_eq(key, "transfer") {
                Ok(
                    match transfer::plan_action(request)? {
                        Planned::Call(c) => Planned::Call(Call::Transfer(c)),
                        Planned::Done(a) => Planned::Done(a),
                    },
                )
} else if text_eq(key, "cloudwatchlogs") {
                Ok(
                    match cloudwatchlogs::plan_action(request)? {
                        Planned::Call(c) => Planned::Call(Call::CloudWatchLogs(c)),
                        Planned::Done(a) => Planned::Done(a),
                    },
                )
} else if text_eq(key, "cloudwatch") {
                Ok(
                    match cloudwatch::plan_action(request)? {
                        Planned::Call(c) => Planned::Call(Call::CloudWatch(c)),
                        Planned::Done(a) => Planned::Done(a),
                    },
                )
} else {
                Err(ServiceManagementError::unsupported_service(key))
            }
        },
    }
}

/// The result of `call` once it succeeded with `reply`.
pub open spec fn result_of(call: Call, reply: CallReply) -> ActionResultView {
    match call {
        Call::ApiGateway(c) => apigateway::result_of(c, reply),
        Call::ApiGatewayV2(c) => apigatewayv2::result_of(c, reply),
        Call::Elbv2(c) => elbv2::result_of(c, reply),
        Call::Route53(c) => route53::result_of(c, reply),
        Call::Transfer(c) => transfer::result_of(c, reply),
        Call::CloudWatchLogs(c) => cloudwatchlogs::result_of(c, reply),
        Call::CloudWatch(c) => cloudwatch::result_of(c, reply),
    }
}

/// The result reported once `call` succeeded with `reply`.
pub fn completed(call: &Call, reply: &CallReply) -> (r: ActionResult)
    requires
        call matches Call::CloudWatchLogs(_) ==> cloudwatchlogs::all_previewable(reply.messages@),
    ensures
        r@ == result_of(*call, *reply),
{
    match call {
        Call::ApiGateway(c) => apigateway::completed(c, reply),
        Call::ApiGatewayV2(c) => apigatewayv2::completed(c, reply),
        Call::Elbv2(c) => elbv2::completed(c, reply),
        Call::Route53(c) => route53::completed(c, reply),
        Call::Transfer(c) => transfer::completed(c, reply),
        Call::CloudWatchLogs(c) => cloudwatchlogs::completed(c, reply),
        Call::CloudWatch(c) => cloudwatch::completed(c, reply),
    }
}

/// Every call planned for an action request on a service of this family
/// performs the requested action.
pub proof fn lemma_plan_performs_requested_action(request: ServiceActionRequest)
    ensures
        action_plan(request) matches Ok(PlannedView::Call(c)) ==> c.name == request.action@,
{
    apigateway::lemma_plan_performs_requested_action(request);
    apigatewayv2::lemma_plan_performs_requested_action(request);
    elbv2::lemma_plan_performs_requested_action(request);
    route53::lemma_plan_performs_requested_action(request);
    transfer::lemma_plan_performs_requested_action(request);
    cloudwatchlogs::lemma_plan_performs_requested_action(request);
    cloudwatch::lemma_plan_performs_requested_action(request);
}

/// A destructive action on a service of this family is only planned once
/// the typed confirmation matches.
pub proof fn lemma_destructive_actions_are_confirmed(request: ServiceActionRequest)
    ensures
        action_plan(request) is Ok && destructive(request.action@) ==> typed_confirmation(request) is Ok,
{
    reveal_strlit("refresh_inventory");
    lemma_not_destructive("refresh_inventory"@);
    apigateway::lemma_destructive_actions_are_confirmed(request);
    apigatewayv2::lemma_destructive_actions_are_confirmed(request);
    elbv2::lemma_destructive_actions_are_confirmed(request);
    route53::lemma_destructive_actions_are_confirmed(request);
    transfer::lemma_destructive_actions_are_confirmed(request);
    cloudwatchlogs::lemma_destructive_actions_are_confirmed(request);
    cloudwatch::lemma_destructive_actions_are_confirmed(request);
}

} // verus!
