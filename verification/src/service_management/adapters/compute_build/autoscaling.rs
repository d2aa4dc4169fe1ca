//! Auto Scaling.
use vstd::prelude::*;
use vstd::string::*;

use crate::service_management::actions::typed_confirmation;
use crate::service_management::adapters::payload::{
    require_payload_i32, require_resource_id, required_i32, selected_resource,
};
use crate::service_management::adapters::{
    action_result, build_inventory, call_of, destructive, lemma_not_destructive, no_attributes,
    number_text, optional_number_text, pairs_map, planned_call, planned_outcome, put_attr, put_text,
    result_view, shows, shows_tagged, summary, tagged_summary, text_or, text_or_default,
    then_number, then_text, unsupported_action, unsupported_action_error, with_attr, CallReply,
    CallView, Planned, PlannedView,
};
use crate::service_management::adapters::compute_build::{complete_tags, tag_views, tags_to_map};
use crate::service_management::errors::{ErrorView, ServiceManagementError};
use crate::service_management::models::{
    single_kind_tab, summary_views, tab, tab_views, ActionResult, ActionResultView, InventoryView,
    ResourceSummary, ResourceTab, ServiceActionRequest, ServiceInventory, ServiceSupportLevel,
    TabView,
};
use crate::text::{decimal, int_text, lower_text, lower_text_exec, text_eq};

verus! {

/// The tabs of the Auto Scaling inventory page.
pub open spec fn inventory_tabs() -> Seq<TabView> {
    seq![
        single_kind_tab("groups"@, "Groups"@, "auto-scaling-group"@, "No Auto Scaling groups were found."@),
        single_kind_tab("instances"@, "Instances"@, "scaling-instance"@, "No Auto Scaling instances are loaded."@),
        single_kind_tab("policies"@, "Policies"@, "scaling-policy"@, "No Auto Scaling policies are loaded."@),
        single_kind_tab("lifecycle-hooks"@, "Lifecycle Hooks"@, "lifecycle-hook"@, "No Auto Scaling lifecycle hooks are loaded."@),
        single_kind_tab("launch-configurations"@, "Launch Configurations"@, "launch-configuration"@, "No launch configurations are loaded."@),
    ]
}

/// The tabs of the Auto Scaling inventory page.
pub fn tabs() -> (t: Vec<ResourceTab>)
    ensures
        tab_views(t@) == inventory_tabs(),
{
    let mut t: Vec<ResourceTab> = Vec::new();
    t.push(tab("groups", "Groups", "auto-scaling-group", "No Auto Scaling groups were found."));
    t.push(tab("instances", "Instances", "scaling-instance", "No Auto Scaling instances are loaded."));
    t.push(tab("policies", "Policies", "scaling-policy", "No Auto Scaling policies are loaded."));
    t.push(tab("lifecycle-hooks", "Lifecycle Hooks", "lifecycle-hook", "No Auto Scaling lifecycle hooks are loaded."));
    t.push(tab("launch-configurations", "Launch Configurations", "launch-configuration", "No launch configurations are loaded."));
    assert(tab_views(t@) =~= inventory_tabs());
    t
}

/// The attributes listed by [`auto_scaling_group_summary`].
pub open spec fn auto_scaling_group_attributes(
    min_size: Option<i64>,
    max_size: Option<i64>,
    desired_capacity: Option<i64>,
    launch_configuration: Option<Seq<char>>,
    launch_template: Option<Seq<char>>,
) -> Map<Seq<char>, Seq<char>> {
    let m = Map::<Seq<char>, Seq<char>>::empty();
    let m = with_attr(m, "min_size"@, number_text(min_size));
    let m = with_attr(m, "max_size"@, number_text(max_size));
    let m = with_attr(m, "desired_capacity"@, number_text(desired_capacity));
    let m = with_attr(m, "launch_configuration"@, launch_configuration);
    with_attr(m, "launch_template"@, launch_template)
}

/// The resource listed for an Auto Scaling group, with its tags.
pub fn auto_scaling_group_summary(
    group_name: &str,
    created_at: Option<String>,
    min_size: Option<i64>,
    max_size: Option<i64>,
    desired_capacity: Option<i64>,
    launch_configuration: Option<String>,
    launch_template: Option<String>,
    tags: &Vec<(Option<String>, Option<String>)>,
) -> (r: ResourceSummary)
    ensures
        r.wf(),
        shows_tagged(
            r@,
            "auto-scaling-group/"@ + group_name@,
            group_name@,
            "auto-scaling-group"@,
            "available"@,
            created_at.deep_view(),
            pairs_map(complete_tags(tag_views(tags@))),
            auto_scaling_group_attributes(
                min_size,
                max_size,
                desired_capacity,
                launch_configuration.deep_view(),
                launch_template.deep_view(),
            ),
        ),
{
    let mut id = String::from_str("auto-scaling-group/");
    id.append(group_name);
    let listed_name = String::from_str(group_name);
    let listed_status = String::from_str("available");
    let mut attributes = no_attributes();
    put_attr(&mut attributes, "min_size", optional_number_text(min_size));
    put_attr(&mut attributes, "max_size", optional_number_text(max_size));
    put_attr(&mut attributes, "desired_capacity", optional_number_text(desired_capacity));
    put_attr(&mut attributes, "launch_configuration", launch_configuration);
    put_attr(&mut attributes, "launch_template", launch_template);
    tagged_summary(id, listed_name, "auto-scaling-group", listed_status, created_at, tags_to_map(tags), attributes)
}

/// The attributes listed by [`scaling_instance_summary`].
pub open spec fn scaling_instance_attributes(
    group_name: Seq<char>,
    lifecycle_state: Option<Seq<char>>,
    health_status: Option<Seq<char>>,
    availability_zone: Option<Seq<char>>,
) -> Map<Seq<char>, Seq<char>> {
    let m = Map::<Seq<char>, Seq<char>>::empty();
    let m = m.insert("auto_scaling_group"@, group_name);
    let m = with_attr(m, "lifecycle_state"@, lifecycle_state);
    let m = with_attr(m, "health_status"@, health_status);
    with_attr(m, "availability_zone"@, availability_zone)
}

/// The resource listed for an instance of an Auto Scaling group; its status
/// is its health status in lower case (`unknown` when none).
pub fn scaling_instance_summary(
    group_name: &str,
    instance_id: &str,
    lifecycle_state: Option<String>,
    health_status: Option<String>,
    availability_zone: Option<String>,
) -> (r: ResourceSummary)
    ensures
        r.wf(),
        shows(
            r@,
            "scaling-instance/"@ + group_name@ + "/"@ + instance_id@,
            instance_id@,
            "scaling-instance"@,
            lower_text(text_or(health_status.deep_view(), "unknown"@)),
            None,
            None,
            scaling_instance_attributes(
                group_name@,
                lifecycle_state.deep_view(),
                health_status.deep_view(),
                availability_zone.deep_view(),
            ),
        ),
{
    let mut id = String::from_str("scaling-instance/");
    id.append(group_name);
    id.append("/");
    id.append(instance_id);
    let listed_name = String::from_str(instance_id);
    let listed_status = { let t = text_or_default(health_status.clone(), "unknown"); lower_text_exec(t.as_str()) };
    let mut attributes = no_attributes();
    put_text(&mut attributes, "auto_scaling_group", String::from_str(group_name));
    put_attr(&mut attributes, "lifecycle_state", lifecycle_state);
    put_attr(&mut attributes, "health_status", health_status);
    put_attr(&mut attributes, "availability_zone", availability_zone);
    summary(id, listed_name, "scaling-instance", listed_status, None, None, attributes)
}

/// The attributes listed by [`lifecycle_hook_summary`].
pub open spec fn lifecycle_hook_attributes(group_name: Seq<char>) -> Map<Seq<char>, Seq<char>> {
    let m = Map::<Seq<char>, Seq<char>>::empty();
    m.insert("auto_scaling_group"@, group_name)
}

/// The resource listed for a lifecycle hook of an Auto Scaling group.
pub fn lifecycle_hook_summary(
    group_name: &str,
    hook_name: &str,
) -> (r: ResourceSummary)
    ensures
        r.wf(),
        shows(
            r@,
            "lifecycle-hook/"@ + group_name@ + "/"@ + hook_name@,
            hook_name@,
            "lifecycle-hook"@,
            "available"@,
            None,
            None,
            lifecycle_hook_attributes(group_name@),
        ),
{
    let mut id = String::from_str("lifecycle-hook/");
    id.append(group_name);
    id.append("/");
    id.append(hook_name);
    let listed_name = String::from_str(hook_name);
    let listed_status = String::from_str("available");
    let mut attributes = no_attributes();
    put_text(&mut attributes, "auto_scaling_group", String::from_str(group_name));
    summary(id, listed_name, "lifecycle-hook", listed_status, None, None, attributes)
}

/// The attributes listed by [`launch_configuration_summary`].
pub open spec fn launch_configuration_attributes(
    image_id: Option<Seq<char>>,
    instance_type: Option<Seq<char>>,
) -> Map<Seq<char>, Seq<char>> {
    let m = Map::<Seq<char>, Seq<char>>::empty();
    let m = with_attr(m, "image_id"@, image_id);
    with_attr(m, "instance_type"@, instance_type)
}

/// The resource listed for a launch configuration.
pub fn launch_configuration_summary(
    name: &str,
    created_at: Option<String>,
    image_id: Option<String>,
    instance_type: Option<String>,
) -> (r: ResourceSummary)
    ensures
        r.wf(),
        shows(
            r@,
            "launch-configuration/"@ + name@,
            name@,
            "launch-configuration"@,
            "available"@,
            created_at.deep_view(),
            None,
            launch_configuration_attributes(image_id.deep_view(), instance_type.deep_view()),
        ),
{
    let mut id = String::from_str("launch-configuration/");
    id.append(name);
    let listed_name = String::from_str(name);
    let listed_status = String::from_str("available");
    let mut attributes = no_attributes();
    put_attr(&mut attributes, "image_id", image_id);
    put_attr(&mut attributes, "instance_type", instance_type);
    summary(id, listed_name, "launch-configuration", listed_status, created_at, None, attributes)
}

/// The attributes listed by [`scaling_policy_summary`].
pub open spec fn scaling_policy_attributes(
    policy_arn: Option<Seq<char>>,
    auto_scaling_group: Option<Seq<char>>,
    policy_type: Option<Seq<char>>,
) -> Map<Seq<char>, Seq<char>> {
    let m = Map::<Seq<char>, Seq<char>>::empty();
    let m = with_attr(m, "policy_arn"@, policy_arn);
    let m = with_attr(m, "auto_scaling_group"@, auto_scaling_group);
    with_attr(m, "policy_type"@, policy_type)
}

/// The resource listed for a scaling policy.
pub fn scaling_policy_summary(
    policy_name: &str,
    policy_arn: Option<String>,
    auto_scaling_group: Option<String>,
    policy_type: Option<String>,
) -> (r: ResourceSummary)
    ensures
        r.wf(),
        shows(
            r@,
            "scaling-policy/"@ + policy_name@,
            policy_name@,
            "scaling-policy"@,
            "available"@,
            None,
            None,
            scaling_policy_attributes(
                policy_arn.deep_view(),
                auto_scaling_group.deep_view(),
                policy_type.deep_view(),
            ),
        ),
{
    let mut id = String::from_str("scaling-policy/");
    id.append(policy_name);
    let listed_name = String::from_str(policy_name);
    let listed_status = String::from_str("available");
    let mut attributes = no_attributes();
    put_attr(&mut attributes, "policy_arn", policy_arn);
    put_attr(&mut attributes, "auto_scaling_group", auto_scaling_group);
    put_attr(&mut attributes, "policy_type", policy_type);
    summary(id, listed_name, "scaling-policy", listed_status, None, None, attributes)
}

/// A call to Auto Scaling, with its validated inputs.
#[derive(Debug, Clone)]
pub enum Call {
    UpdateDesiredCapacity { group_name: String, desired_capacity: i32 },
}

impl View for Call {
    type V = CallView;

    open spec fn view(&self) -> CallView {
        match self {
            Call::UpdateDesiredCapacity { group_name, desired_capacity } => call_of(
                "update_desired_capacity"@,
                seq![group_name@],
                seq![*desired_capacity as int],
            ),
        }
    }
}

/// What an action request on Auto Scaling asks for.
pub open spec fn action_plan(request: ServiceActionRequest) -> Result<PlannedView, ErrorView> {
    let a = request.action@;
    if a == "update_desired_capacity"@ {
        then_text(
            selected_resource(request, "auto-scaling-group/"@),
            |group_name: Seq<char>|
                then_number(
                    required_i32(request, "desired_capacity"@, "`desired_capacity` is required."@),
                    |desired_capacity: int|
                        planned_call(a, seq![group_name], seq![desired_capacity]),
                ),
        )
    } else {
        Err(unsupported_action_error(request))
    }
}

/// Validates an action request on Auto Scaling and decides what to do.
pub fn plan_action(request: &ServiceActionRequest) -> (r: Result<Planned<Call>, ServiceManagementError>)
    requires
        request.payload.wf(),
    ensures
        planned_outcome(r) == action_plan(*request),
        r matches Ok(Planned::Call(Call::UpdateDesiredCapacity { group_name, .. })) ==> {
            &&& request.action@ == "update_desired_capacity"@
            &&& selected_resource(*request, "auto-scaling-group/"@) == Ok::<Seq<char>, ErrorView>(group_name@)
        },
{
    let action = request.action.as_str();
    if text_eq(action, "update_desired_capacity") {
        let group_name = require_resource_id(request, "auto-scaling-group/")?;
        let desired_capacity = require_payload_i32(request, "desired_capacity", "`desired_capacity` is required.")?;
        Ok(Planned::Call(Call::UpdateDesiredCapacity { group_name, desired_capacity }))
    } else {
        Err(unsupported_action(request))
    }
}

/// The result of `call` once it succeeded with `reply`.
pub open spec fn result_of(call: Call, _reply: CallReply) -> ActionResultView {
    match call {
        Call::UpdateDesiredCapacity { group_name, desired_capacity } => result_view(
            true,
            "Updated Auto Scaling group `"@ + group_name@ + "` desired capacity to "@ + decimal(desired_capacity as int) + "."@,
            Some("auto-scaling-group/"@ + group_name@),
        ),
    }
}

/// The result reported once `call` succeeded with `reply`.
pub fn completed(call: &Call, _reply: &CallReply) -> (r: ActionResult)
    ensures
        r@ == result_of(*call, *_reply),
{
    match call {
        Call::UpdateDesiredCapacity { group_name, desired_capacity } => {
            let t1 = int_text(*desired_capacity as i64);
            let mut message = String::from_str("Updated Auto Scaling group `");
            message.append(group_name.as_str());
            message.append("` desired capacity to ");
            message.append(t1.as_str());
            message.append(".");
            let mut id = String::from_str("auto-scaling-group/");
            id.append(group_name.as_str());
            action_result(true, message, Some(id))
        },
    }
}

/// Every call planned for an action request performs the requested action.
pub proof fn lemma_plan_performs_requested_action(request: ServiceActionRequest)
    ensures
        action_plan(request) matches Ok(PlannedView::Call(c)) ==> c.name == request.action@,
{
}

/// A destructive action is only planned once the typed confirmation matches.
pub proof fn lemma_destructive_actions_are_confirmed(request: ServiceActionRequest)
    ensures
        action_plan(request) is Ok && destructive(request.action@) ==> typed_confirmation(request) is Ok,
{
    reveal_strlit("update_desired_capacity");
    lemma_not_destructive("update_desired_capacity"@);
}

/// The operations the Auto Scaling page lists as unavailable.
pub open spec fn unsupported_operations() -> Seq<Seq<char>> {
    seq!["create_auto_scaling_group"@, "delete_policy"@, "delete_lifecycle_hook"@]
}

/// The name under which the service's inventory page is shown.
pub open spec fn label() -> Seq<char> {
    "Auto Scaling"@
}

/// How far this adapter supports the service: it manages its resources.
pub open spec fn support_level() -> ServiceSupportLevel {
    ServiceSupportLevel::Managed
}

/// The Auto Scaling inventory page: the listed `resources` under the Auto Scaling tabs, refreshed
/// at `refreshed_at`.
pub fn inventory(
    resources: Vec<ResourceSummary>,
    refreshed_at: String,
) -> (inv: ServiceInventory)
    ensures
        inv@ == (InventoryView {
            service_key: "autoscaling"@,
            service_label: label(),
            support_level: support_level(),
            refreshed_at: refreshed_at@,
            tabs: inventory_tabs(),
            resources: summary_views(resources@),
            unsupported_operations: unsupported_operations(),
        }),
{
    let mut ops: Vec<String> = Vec::new();
    ops.push(String::from_str("create_auto_scaling_group"));
    ops.push(String::from_str("delete_policy"));
    ops.push(String::from_str("delete_lifecycle_hook"));
    proof {
        assert(ops.deep_view() =~= unsupported_operations());
    }
    build_inventory(
        "autoscaling",
        "Auto Scaling",
        ServiceSupportLevel::Managed,
        refreshed_at,
        tabs(),
        resources,
        ops,
    )
}

} // verus!
