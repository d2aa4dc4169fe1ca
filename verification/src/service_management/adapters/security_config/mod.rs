//! Security and configuration services.
use vstd::prelude::*;
use vstd::string::*;

use crate::service_management::adapters::{
    destructive, key_listed, lemma_not_destructive, planned_outcome, refreshed,
    refreshed_result, route_outcome, unsupported_action_error, ActionRoute, ActionRouteView,
    CallReply, CallView, Planned, PlannedView,
};
use crate::service_management::errors::{unsupported_service_error, ErrorView, ServiceManagementError};
use crate::service_management::models::{ActionResult, ActionResultView, ServiceActionRequest};
use crate::service_management::actions::typed_confirmation;
use crate::text::text_eq;

pub use crate::service_management::adapters::{managed_inventory, read_only_inventory, unsupported_action};
pub use crate::service_management::adapters::payload::{require_resource_id, require_payload_text, optional_payload_text, optional_payload_i32, require_json_payload_text, resource_name_from_arn};
pub use crate::service_management::text_map::insert_attr;

pub mod acm;
pub mod appconfig;
pub mod appconfigdata;
pub mod cognito;
pub mod iam;
pub mod kms;
pub mod secretsmanager;
pub mod ssm;
pub mod sts;

verus! {

/// Keys of the services of this family.
pub open spec fn family_keys() -> Seq<Seq<char>> {
    seq!["iam"@, "sts"@, "cognito"@, "kms"@, "secretsmanager"@, "ssm"@, "appconfig"@, "appconfigdata"@, "acm"@]
}

/// Keys of the services of this family that have an action adapter.
pub open spec fn adapter_keys() -> Seq<Seq<char>> {
    seq!["iam"@, "cognito"@, "kms"@, "secretsmanager"@, "ssm"@, "appconfig"@, "acm"@]
}

/// Keys of the services of this family.
pub fn service_keys() -> (v: Vec<&'static str>)
    ensures
        v@.map_values(|k: &str| k@) == family_keys(),
{
    let mut v: Vec<&'static str> = Vec::new();
    v.push("iam");
    v.push("sts");
    v.push("cognito");
    v.push("kms");
    v.push("secretsmanager");
    v.push("ssm");
    v.push("appconfig");
    v.push("appconfigdata");
    v.push("acm");
    assert(v@.map_values(|k: &str| k@) =~= family_keys());
    v
}

fn adapter_keys_list() -> (v: Vec<&'static str>)
    ensures
        v@.map_values(|k: &str| k@) == adapter_keys(),
{
    let mut v: Vec<&'static str> = Vec::new();
    v.push("iam");
    v.push("cognito");
    v.push("kms");
    v.push("secretsmanager");
    v.push("ssm");
    v.push("appconfig");
    v.push("acm");
    assert(v@.map_values(|k: &str| k@) =~= adapter_keys());
    v
}

/// Where this family sends an action request.
pub open spec fn action_route(request: ServiceActionRequest) -> Result<ActionRouteView, ErrorView> {
    if adapter_keys().contains(request.service_key@) {
        Ok(ActionRouteView::Adapter)
    } else if family_keys().contains(request.service_key@) && request.action@ == "refresh_inventory"@ {
        Ok(ActionRouteView::Done(refreshed_result(request.service_key@, request.resource_id.deep_view())))
    } else if family_keys().contains(request.service_key@) {
        Err(unsupported_action_error(request))
    } else {
        Err(unsupported_service_error(request.service_key@))
    }
}

/// Decides whether a service's adapter performs an action, or how the family answers it.
pub fn route_action(request: &ServiceActionRequest) -> (r: Result<ActionRoute, ServiceManagementError>)
    ensures
        route_outcome(r) == action_route(*request),
{
    let key = request.service_key.as_str();
    if key_listed(&adapter_keys_list(), key) {
        return Ok(ActionRoute::Adapter);
    }
    let listed = key_listed(&service_keys(), key);
    if listed && text_eq(request.action.as_str(), "refresh_inventory") {
        Ok(ActionRoute::Done(refreshed(key, request.resource_id.clone())))
    } else if listed {
        Err(unsupported_action(request))
    } else {
        Err(ServiceManagementError::unsupported_service(key))
    }
}


/// The note shown in place of a secret value, which the inventory never holds.
pub open spec fn hidden_value_note() -> Seq<char> {
    "Hidden until explicit reveal; value is never included in inventory."@
}

/// The note shown in place of a secret value, which the inventory never holds.
pub fn redacted_value_marker() -> (r: String)
    ensures
        r@ == hidden_value_note(),
{
    String::from_str("Hidden until explicit reveal; value is never included in inventory.")
}

/// A call that one of this family's adapters is to make.
#[derive(Debug, Clone)]
pub enum Call {
    Iam(iam::Call),
    Cognito(cognito::Call),
    Kms(kms::Call),
    SecretsManager(secretsmanager::Call),
    Ssm(ssm::Call),
    AppConfig(appconfig::Call),
}

impl View for Call {
    type V = CallView;

    open spec fn view(&self) -> CallView {
        match self {
            Call::Iam(c) => c@,
            Call::Cognito(c) => c@,
            Call::Kms(c) => c@,
            Call::SecretsManager(c) => c@,
            Call::Ssm(c) => c@,
            Call::AppConfig(c) => c@,
        }
    }
}

/// What an action request on a service of this family asks for.
pub open spec fn action_plan(request: ServiceActionRequest) -> Result<PlannedView, ErrorView> {
    match action_route(request) {
        Ok(ActionRouteView::Done(a)) => Ok(PlannedView::Done(a)),
        Ok(ActionRouteView::Adapter) => {
            let key = request.service_key@;
            if key == "iam"@ {
                iam::action_plan(request)
} else if key == "cognito"@ {
                cognito::action_plan(request)
} else if key == "kms"@ {
                kms::action_plan(request)
} else if key == "secretsmanager"@ {
                secretsmanager::action_plan(request)
} else if key == "ssm"@ {
                ssm::action_plan(request)
} else if key == "appconfig"@ {
                appconfig::action_plan(request)
} else if key == "acm"@ {
                Err(acm::action_error(request))
} else {
                Err(unsupported_service_error(key))
            }
        },
        Err(e) => Err(e),
    }
}

/// Validates an action request on a service of this family and decides what
/// to do: answer it at once, or make the call that its adapter plans.
pub fn plan_action(request: &ServiceActionRequest) -> (r: Result<Planned<Call>, ServiceManagementError>)
    requires
        request.payload.wf(),
    ensures
        planned_outcome(r) == action_plan(*request),
{
    match route_action(request)? {
        ActionRoute::Done(a) => Ok(Planned::Done(a)),
        ActionRoute::Adapter => {
            let key = request.service_key.as_str();
            if text_eq(key, "iam") {
                Ok(
                    match iam::plan_action(request)? {
                        Planned::Call(c) => Planned::Call(Call::Iam(c)),
                        Planned::Done(a) => Planned::Done(a),
                    },
                )
} else if text_eq(key, "cognito") {
                Ok(
                    match cognito::plan_action(request)? {
                        Planned::Call(c) => Planned::Call(Call::Cognito(c)),
                        Planned::Done(a) => Planned::Done(a),
                    },
                )
} else if text_eq(key, "kms") {
                Ok(
                    match kms::plan_action(request)? {
                        Planned::Call(c) => Planned::Call(Call::Kms(c)),
                        Planned::Done(a) => Planned::Done(a),
                    },
                )
} else if text_eq(key, "secretsmanager") {
                Ok(
                    match secretsmanager::plan_action(request)? {
                        Planned::Call(c) => Planned::Call(Call::SecretsManager(c)),
                        Planned::Done(a) => Planned::Done(a),
                    },
                )
} else if text_eq(key, "ssm") {
                Ok(
                    match ssm::plan_action(request)? {
                        Planned::Call(c) => Planned::Call(Call::Ssm(c)),
                        Planned::Done(a) => Planned::Done(a),
                    },
                )
} else if text_eq(key, "appconfig") {
                Ok(
                    match appconfig::plan_action(request)? {
                        Planned::Call(c) => Planned::Call(Call::AppConfig(c)),
                        Planned::Done(a) => Planned::Done(a),
                    },
                )
} else if text_eq(key, "acm") {
                Err(acm::refuse_action(request))
} else {
                Err(ServiceManagementError::unsupported_service(key))
            }
        },
    }
}

/// The result of `call` once it succeeded with `reply`.
pub open spec fn result_of(call: Call, reply: CallReply) -> ActionResultView {
    match call {
        Call::Iam(c) => iam::result_of(c, reply),
        Call::Cognito(c) => cognito::result_of(c, reply),
        Call::Kms(c) => kms::result_of(c, reply),
        Call::SecretsManager(c) => secretsmanager::result_of(c, reply),
        Call::Ssm(c) => ssm::result_of(c, reply),
        Call::AppConfig(c) => appconfig::result_of(c, reply),
    }
}

/// The result reported once `call` succeeded with `reply`.
pub fn completed(call: &Call, reply: &CallReply) -> (r: ActionResult)
    ensures
        r@ == result_of(*call, *reply),
{
    match call {
        Call::Iam(c) => iam::completed(c, reply),
        Call::Cognito(c) => cognito::completed(c, reply),
        Call::Kms(c) => kms::completed(c, reply),
        Call::SecretsManager(c) => secretsmanager::completed(c, reply),
        Call::Ssm(c) => ssm::completed(c, reply),
        Call::AppConfig(c) => appconfig::completed(c, reply),
    }
}

/// Every call planned for an action request on a service of this family
/// performs the requested action.
pub proof fn lemma_plan_performs_requested_action(request: ServiceActionRequest)
    ensures
        action_plan(request) matches Ok(PlannedView::Call(c)) ==> c.name == request.action@,
{
    iam::lemma_plan_performs_requested_action(request);
    cognito::lemma_plan_performs_requested_action(request);
    kms::lemma_plan_performs_requested_action(request);
    secretsmanager::lemma_plan_performs_requested_action(request);
    ssm::lemma_plan_performs_requested_action(request);
    appconfig::lemma_plan_performs_requested_action(request);
}

/// A destructive action on a service of this family is only planned once
/// the typed confirmation matches.
pub proof fn lemma_destructive_actions_are_confirmed(request: ServiceActionRequest)
    ensures
        action_plan(request) is Ok && destructive(request.action@) ==> typed_confirmation(request) is Ok,
{
    reveal_strlit("refresh_inventory");
    lemma_not_destructive("refresh_inventory"@);
    iam::lemma_destructive_actions_are_confirmed(request);
    cognito::lemma_destructive_actions_are_confirmed(request);
    kms::lemma_destructive_actions_are_confirmed(request);
    secretsmanager::lemma_destructive_actions_are_confirmed(request);
    ssm::lemma_destructive_actions_are_confirmed(request);
    appconfig::lemma_destructive_actions_are_confirmed(request);
}

/// A service of this family without an adapter only answers
/// `refresh_inventory`, which changes nothing; every other action on it is
/// refused as unsupported.
pub proof fn lemma_read_only_services_only_refresh(request: ServiceActionRequest)
    requires
        family_keys().contains(request.service_key@),
        !adapter_keys().contains(request.service_key@),
    ensures
        action_plan(request) == (if request.action@ == "refresh_inventory"@ {
            Ok(PlannedView::Done(refreshed_result(request.service_key@, request.resource_id.deep_view())))
        } else {
            Err(unsupported_action_error(request))
        }),
{
}

} // verus!
