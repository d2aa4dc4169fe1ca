//! Compute, container and build services.
use vstd::prelude::*;

use crate::service_management::adapters::{
    destructive, key_listed, lemma_not_destructive, planned_outcome, refreshed,
    refreshed_result, route_outcome, unsupported_action_error, ActionRoute, ActionRouteView,
    CallReply, CallView, Planned, PlannedView,
};
use crate::service_management::errors::{unsupported_service_error, ErrorView, ServiceManagementError};
use crate::service_management::models::{ActionResult, ActionResultView, ServiceActionRequest};
use crate::service_management::actions::typed_confirmation;
use crate::service_management::adapters::{pairs_map, texts_of};
use crate::service_management::text_map::TextMap;
use crate::text::text_eq;

pub use crate::service_management::adapters::{managed_inventory, read_only_inventory, unsupported_action};
pub use crate::service_management::adapters::payload::{require_resource_id, require_payload_text, optional_payload_text, optional_payload_i32, require_json_payload_text, resource_name_from_arn};
pub use crate::service_management::text_map::insert_attr;

pub mod autoscaling;
pub mod bedrockruntime;
pub mod codebuild;
pub mod codedeploy;
pub mod ec2;
pub mod ecr;
pub mod ecs;
pub mod eks;
pub mod lambda;
pub mod msk;

verus! {

/// Keys of the services of this family.
pub open spec fn family_keys() -> Seq<Seq<char>> {
    seq!["lambda"@, "ec2"@, "ecs"@, "eks"@, "ecr"@, "msk"@, "codebuild"@, "codedeploy"@, "autoscaling"@, "bedrockruntime"@]
}

/// Keys of the services of this family that have an action adapter.
pub open spec fn adapter_keys() -> Seq<Seq<char>> {
    seq!["lambda"@, "ec2"@, "ecs"@, "ecr"@, "codebuild"@, "codedeploy"@, "autoscaling"@, "bedrockruntime"@]
}

/// Keys of the services of this family.
pub fn service_keys() -> (v: Vec<&'static str>)
    ensures
        v@.map_values(|k: &str| k@) == family_keys(),
{
    let mut v: Vec<&'static str> = Vec::new();
    v.push("lambda");
    v.push("ec2");
    v.push("ecs");
    v.push("eks");
    v.push("ecr");
    v.push("msk");
    v.push("codebuild");
    v.push("codedeploy");
    v.push("autoscaling");
    v.push("bedrockruntime");
    assert(v@.map_values(|k: &str| k@) =~= family_keys());
    v
}

fn adapter_keys_list() -> (v: Vec<&'static str>)
    ensures
        v@.map_values(|k: &str| k@) == adapter_keys(),
{
    let mut v: Vec<&'static str> = Vec::new();
    v.push("lambda");
    v.push("ec2");
    v.push("ecs");
    v.push("ecr");
    v.push("codebuild");
    v.push("codedeploy");
    v.push("autoscaling");
    v.push("bedrockruntime");
    assert(v@.map_values(|k: &str| k@) =~= adapter_keys());
    v
}

/// Where this family sends an action request.
pub open spec fn action_route(request: ServiceActionRequest) -> Result<ActionRouteView, ErrorView> {
    if adapter_keys().contains(request.service_key@) {
        Ok(ActionRouteView::Adapter)
    } else if family_keys().contains(request.service_key@) && request.action@ == "refresh_inventory"@ {
        Ok(ActionRouteView::Done(refreshed_result(request.service_key@, request.resource_id.deep_view())))
    } else if family_keys().contains(request.service_key@) {
        Err(unsupported_action_error(request))
    } else {
        Err(unsupported_service_error(request.service_key@))
    }
}

/// Decides whether a service's adapter performs an action, or how the family answers it.
pub fn route_action(request: &ServiceActionRequest) -> (r: Result<ActionRoute, ServiceManagementError>)
    ensures
        route_outcome(r) == action_route(*request),
{
    let key = request.service_key.as_str();
    if key_listed(&adapter_keys_list(), key) {
        return Ok(ActionRoute::Adapter);
    }
    let listed = key_listed(&service_keys(), key);
    if listed && text_eq(request.action.as_str(), "refresh_inventory") {
        Ok(ActionRoute::Done(refreshed(key, request.resource_id.clone())))
    } else if listed {
        Err(unsupported_action(request))
    } else {
        Err(ServiceManagementError::unsupported_service(key))
    }
}


/// The views of a list of tags, each with an optional key and value.
pub open spec fn tag_views(tags: Seq<(Option<String>, Option<String>)>) -> Seq<(Option<Seq<char>>, Option<Seq<char>>)> {
    tags.map_values(|t: (Option<String>, Option<String>)| (t.0.deep_view(), t.1.deep_view()))
}

/// The key and text of each tag that has both, in order.
pub open spec fn complete_tags(tags: Seq<(Option<Seq<char>>, Option<Seq<char>>)>) -> Seq<(Seq<char>, Seq<char>)>
    decreases tags.len(),
{
    if tags.len() == 0 {
        seq![]
    } else {
        let rest = complete_tags(tags.drop_last());
        match tags.last() {
            (Some(k), Some(v)) => rest.push((k, v)),
            _ => rest,
        }
    }
}

/// The tags of a resource as a map, skipping tags without a key or a value;
/// a later tag with the same key wins.
pub fn tags_to_map(tags: &Vec<(Option<String>, Option<String>)>) -> (m: TextMap<String>)
    ensures
        m.wf(),
        texts_of(m@) == pairs_map(complete_tags(tag_views(tags@))),
{
    let ghost all = tag_views(tags@);
    let mut m: TextMap<String> = TextMap::new();
    let mut i: usize = 0;
    while i < tags.len()
        invariant
            0 <= i <= tags.len(),
            all == tag_views(tags@),
            m.wf(),
            texts_of(m@) == pairs_map(complete_tags(all.subrange(0, i as int))),
        decreases tags.len() - i,
    {
        proof {
            let p = all.subrange(0, i + 1);
            assert(p.drop_last() =~= all.subrange(0, i as int));
            assert(p.last() == all[i as int]);
            assert(all[i as int] == (tags@[i as int].0.deep_view(), tags@[i as int].1.deep_view()));
        }
        match (&tags[i].0, &tags[i].1) {
            (Some(k), Some(v)) => {
                let ghost before = m@;
                m.insert(k.clone(), v.clone());
                proof {
                    let c = complete_tags(all.subrange(0, i as int));
                    assert(complete_tags(all.subrange(0, i + 1)) == c.push((k@, v@)));
                    assert(c.push((k@, v@)).drop_last() =~= c);
                    assert(texts_of(m@) =~= texts_of(before).insert(k@, v@));
                }
            },
            _ => {},
        }
        i = i + 1;
    }
    assert(all.subrange(0, tags.len() as int) =~= all);
    m
}

/// A call that one of this family's adapters is to make.
#[derive(Debug, Clone)]
pub enum Call {
    Lambda(lambda::Call),
    Ec2(ec2::Call),
    Ecs(ecs::Call),
    Ecr(ecr::Call),
    CodeBuild(codebuild::Call),
    CodeDeploy(codedeploy::Call),
    AutoScaling(autoscaling::Call),
    BedrockRuntime(bedrockruntime::Call),
}

impl View for Call {
    type V = CallView;

    open spec fn view(&self) -> CallView {
        match self {
            Call::Lambda(c) => c@,
            Call::Ec2(c) => c@,
            Call::Ecs(c) => c@,
            Call::Ecr(c) => c@,
            Call::CodeBuild(c) => c@,
            Call::CodeDeploy(c) => c@,
            Call::AutoScaling(c) => c@,
            Call::BedrockRuntime(c) => c@,
        }
    }
}

/// What an action request on a service of this family asks for.
pub open spec fn action_plan(request: ServiceActionRequest) -> Result<PlannedView, ErrorView> {
    match action_route(request) {
        Ok(ActionRouteView::Done(a)) => Ok(PlannedView::Done(a)),
        Ok(ActionRouteView::Adapter) => {
            let key = request.service_key@;
            if key == "lambda"@ {
                lambda::action_plan(request)
} else if key == "ec2"@ {
                ec2::action_plan(request)
} else if key == "ecs"@ {
                ecs::action_plan(request)
} else if key == "ecr"@ {
                ecr::action_plan(request)
} else if key == "codebuild"@ {
                codebuild::action_plan(request)
} else if key == "codedeploy"@ {
                codedeploy::action_plan(request)
} else if key == "autoscaling"@ {
                autoscaling::action_plan(request)
} else if key == "bedrockruntime"@ {
                bedrockruntime::action_plan(request)
} else {
                Err(unsupported_service_error(key))
            }
        },
        Err(e) => Err(e),
    }
}

/// Validates an action request on a service of this family and decides what
/// to do: answer it at once, or make the call that its adapter plans.
pub fn plan_action(request: &ServiceActionRequest) -> (r: Result<Planned<Call>, ServiceManagementError>)
    requires
        request.payload.wf(),
    ensures
        planned_outcome(r) == action_plan(*request),
{
    match route_action(request)? {
        ActionRoute::Done(a) => Ok(Planned::Done(a)),
        ActionRoute::Adapter => {
            let key = request.service_key.as_str();
            if text_eq(key, "lambda") {
                Ok(
                    match lambda::plan_action(request)? {
                        Planned::Call(c) => Planned::Call(Call::Lambda(c)),
                        Planned::Done(a) => Planned::Done(a),
                    },
                )
} else if text_eq(key, "ec2") {
                Ok(
                    match ec2::plan_action(request)? {
                        Planned::Call(c) => Planned::Call(Call::Ec2(c)),
                        Planned::Done(a) => Planned::Done(a),
                    },
                )
} else if text_eq(key, "ecs") {
                Ok(
                    match ecs::plan_action(request)? {
                        Planned::Call(c) => Planned::Call(Call::Ecs(c)),
                        Planned::Done(a) => Planned::Done(a),
                    },
                )
} else if text_eq(key, "ecr") {
                Ok(
                    match ecr::plan_action(request)? {
                        Planned::Call(c) => Planned::Call(Call::Ecr(c)),
                        Planned::Done(a) => Planned::Done(a),
                    },
                )
} else if text_eq(key, "codebuild") {
                Ok(
                    match codebuild::plan_action(request)? {
                        Planned::Call(c) => Planned::Call(Call::CodeBuild(c)),
                        Planned::Done(a) => Planned::Done(a),
                    },
                )
} else if text_eq(key, "codedeploy") {
                Ok(
                    match codedeploy::plan_action(request)? {
                        Planned::Call(c) => Planned::Call(Call::CodeDeploy(c)),
                        Planned::Done(a) => Planned::Done(a),
                    },
                )
} else if text_eq(key, "autoscaling") {
                Ok(
                    match autoscaling::plan_action(request)? {
                        Planned::Call(c) => Planned::Call(Call::AutoScaling(c)),
                        Planned::Done(a) => Planned::Done(a),
                    },
                )
} else if text_eq(key, "bedrockruntime") {
                Ok(
                    match bedrockruntime::plan_action(request)? {
                        Planned::Call(c) => Planned::Call(Call::BedrockRuntime(c)),
                        Planned::Done(a) => Planned::Done(a),
                    },
                )
} else {
                Err(ServiceManagementError::unsupported_service(key))
            }
        },
    }
}

/// The result of `call` once it succeeded with `reply`.
pub open spec fn result_of(call: Call, reply: CallReply) -> ActionResultView {
    match call {
        Call::Lambda(c) => lambda::result_of(c, reply),
        Call::Ec2(c) => ec2::result_of(c, reply),
        Call::Ecs(c) => ecs::result_of(c, reply),
        Call::Ecr(c) => ecr::result_of(c, reply),
        Call::CodeBuild(c) => codebuild::result_of(c, reply),
        Call::CodeDeploy(c) => codedeploy::result_of(c, reply),
        Call::AutoScaling(c) => autoscaling::result_of(c, reply),
        Call::BedrockRuntime(c) => bedrockruntime::result_of(c, reply),
    }
}

/// The result reported once `call` succeeded with `reply`.
pub fn completed(call: &Call, reply: &CallReply) -> (r: ActionResult)
    ensures
        r@ == result_of(*call, *reply),
{
    match call {
        Call::Lambda(c) => lambda::completed(c, reply),
        Call::Ec2(c) => ec2::completed(c, reply),
        Call::Ecs(c) => ecs::completed(c, reply),
        Call::Ecr(c) => ecr::completed(c, reply),
        Call::CodeBuild(c) => codebuild::completed(c, reply),
        Call::CodeDeploy(c) => codedeploy::completed(c, reply),
        Call::AutoScaling(c) => autoscaling::completed(c, reply),
        Call::BedrockRuntime(c) => bedrockruntime::completed(c, reply),
    }
}

/// Every call planned for an action request on a service of this family
/// performs the requested action.
pub proof fn lemma_plan_performs_requested_action(request: ServiceActionRequest)
    ensures
        action_plan(request) matches Ok(PlannedView::Call(c)) ==> c.name == request.action@,
{
    lambda::lemma_plan_performs_requested_action(request);
    ec2::lemma_plan_performs_requested_action(request);
    ecs::lemma_plan_performs_requested_action(request);
    ecr::lemma_plan_performs_requested_action(request);
    codebuild::lemma_plan_performs_requested_action(request);
    codedeploy::lemma_plan_performs_requested_action(request);
    autoscaling::lemma_plan_performs_requested_action(request);
    bedrockruntime::lemma_plan_performs_requested_action(request);
}

/// A destructive action on a service of this family is only planned once
/// the typed confirmation matches.
pub proof fn lemma_destructive_actions_are_confirmed(request: ServiceActionRequest)
    requires
        !(request.service_key@ == "ecr"@ && request.action@ == "delete_image"@),
    ensures
        action_plan(request) is Ok && destructive(request.action@) ==> typed_confirmation(request) is Ok,
{
    reveal_strlit("refresh_inventory");
    lemma_not_destructive("refresh_inventory"@);
    lambda::lemma_destructive_actions_are_confirmed(request);
    ec2::lemma_destructive_actions_are_confirmed(request);
    ecs::lemma_destructive_actions_are_confirmed(request);
    if request.action@ != "delete_image"@ {
        ecr::lemma_destructive_actions_are_confirmed(request);
    }
    codebuild::lemma_destructive_actions_are_confirmed(request);
    codedeploy::lemma_destructive_actions_are_confirmed(request);
    autoscaling::lemma_destructive_actions_are_confirmed(request);
    bedrockruntime::lemma_destructive_actions_are_confirmed(request);
}

/// A service of this family without an adapter only answers
/// `refresh_inventory`, which changes nothing; every other action on it is
/// refused as unsupported.
pub proof fn lemma_read_only_services_only_refresh(request: ServiceActionRequest)
    requires
        family_keys().contains(request.service_key@),
        !adapter_keys().contains(request.service_key@),
    ensures
        action_plan(request) == (if request.action@ == "refresh_inventory"@ {
            Ok(PlannedView::Done(refreshed_result(request.service_key@, request.resource_id.deep_view())))
        } else {
            Err(unsupported_action_error(request))
        }),
{
}

} // verus!
