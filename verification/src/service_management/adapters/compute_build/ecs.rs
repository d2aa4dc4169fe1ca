//! ECS.
use vstd::prelude::*;
use vstd::string::*;

use crate::service_management::actions::{required_text, typed_confirmation};
use crate::service_management::adapters::payload::{
    optional_payload_text, optional_text, require_payload_i32, require_payload_text,
    require_resource_id, required_i32, selected_resource,
};
use crate::service_management::adapters::{
    action_result, build_inventory, call_of, destructive, lemma_not_destructive, planned_call,
    planned_outcome, put_attr, result_view, shows, summary, text_or, texts_of, then_number,
    then_text, unsupported_action, unsupported_action_error, with_attr, CallReply, CallView,
    Planned, PlannedView,
};
use crate::service_management::errors::{ErrorView, ServiceManagementError};
use crate::service_management::models::{
    single_kind_tab, summary_views, tab, tab_views, ActionResult, ActionResultView, InventoryView,
    ResourceSummary, ResourceTab, ServiceActionRequest, ServiceInventory, ServiceSupportLevel,
    TabView,
};
use crate::service_management::text_map::TextMap;
use crate::text::{
    concat2, decimal, digits_of, int_text, last_segment, last_segment_text, nat_text, text_eq,
};

verus! {

/// The tabs of the ECS inventory page.
pub open spec fn inventory_tabs() -> Seq<TabView> {
    seq![
        single_kind_tab("clusters"@, "Clusters"@, "cluster"@, "No ECS clusters were found."@),
        single_kind_tab("services"@, "Services"@, "service"@, "No ECS services are loaded."@),
        single_kind_tab("tasks"@, "Tasks"@, "task"@, "No ECS tasks are loaded."@),
        single_kind_tab("task-definitions"@, "Task Definitions"@, "task-definition"@, "No ECS task definitions are loaded."@),
        single_kind_tab("container-instances"@, "Container Instances"@, "container-instance"@, "No ECS container instances are loaded."@),
    ]
}

/// The tabs of the ECS inventory page.
pub fn tabs() -> (t: Vec<ResourceTab>)
    ensures
        tab_views(t@) == inventory_tabs(),
{
    let mut t: Vec<ResourceTab> = Vec::new();
    t.push(tab("clusters", "Clusters", "cluster", "No ECS clusters were found."));
    t.push(tab("services", "Services", "service", "No ECS services are loaded."));
    t.push(tab("tasks", "Tasks", "task", "No ECS tasks are loaded."));
    t.push(tab("task-definitions", "Task Definitions", "task-definition", "No ECS task definitions are loaded."));
    t.push(tab("container-instances", "Container Instances", "container-instance", "No ECS container instances are loaded."));
    assert(tab_views(t@) =~= inventory_tabs());
    t
}

/// The cluster of a task to stop: the `cluster_arn` field, else the selected
/// resource's name, else empty.
pub open spec fn stop_task_cluster(request: ServiceActionRequest) -> Seq<char> {
    match optional_text(request, "cluster_arn"@) {
        Some(t) => t,
        None => match request.resource_name {
            Some(n) => n@,
            None => Seq::empty(),
        },
    }
}

/// The cluster of a task to stop.
pub fn cluster_for_stop(request: &ServiceActionRequest) -> (r: String)
    requires
        request.payload.wf(),
    ensures
        r@ == stop_task_cluster(*request),
{
    match optional_payload_text(request, "cluster_arn") {
        Some(t) => t,
        None => match &request.resource_name {
            Some(n) => n.clone(),
            None => String::new(),
        },
    }
}

/// The name of an ECS resource: the part of its ARN after the last `/`.
pub open spec fn arn_name(arn: Seq<char>) -> Seq<char> {
    last_segment(arn, "/"@)
}

/// The name of an ECS resource from its ARN.
pub fn name_from_arn(arn: &str) -> (r: String)
    ensures
        r@ == arn_name(arn@),
{
    last_segment_text(arn, "/")
}

/// The resource listed for an ECS service, named by its service name or else
/// its ARN, `active` unless it reports a status.
pub fn service_summary(
    cluster_arn: &str,
    service_arn: &str,
    service_name: Option<String>,
    status: Option<String>,
    created_at: Option<String>,
    desired_count: i32,
    running_count: i32,
    pending_count: i32,
    task_definition: Option<String>,
) -> (r: ResourceSummary)
    ensures
        r.wf(),
        shows(
            r@,
            "service/"@ + service_arn@,
            text_or(service_name.deep_view(), arn_name(service_arn@)),
            "service"@,
            text_or(status.deep_view(), "active"@),
            created_at.deep_view(),
            None,
            with_attr(
                map![
                    "cluster_arn"@ => cluster_arn@,
                    "desired_count"@ => decimal(desired_count as int),
                    "running_count"@ => decimal(running_count as int),
                    "pending_count"@ => decimal(pending_count as int)
                ],
                "task_definition"@,
                task_definition.deep_view(),
            ),
        ),
{
    let name = match service_name {
        Some(n) => n,
        None => name_from_arn(service_arn),
    };
    let status = match status {
        Some(s) => s,
        None => String::from_str("active"),
    };
    let mut attributes: TextMap<String> = TextMap::new();
    attributes.insert(String::from_str("cluster_arn"), String::from_str(cluster_arn));
    attributes.insert(String::from_str("desired_count"), int_text(desired_count as i64));
    attributes.insert(String::from_str("running_count"), int_text(running_count as i64));
    attributes.insert(String::from_str("pending_count"), int_text(pending_count as i64));
    proof {
        assert(texts_of(attributes@) =~= map![
            "cluster_arn"@ => cluster_arn@,
            "desired_count"@ => decimal(desired_count as int),
            "running_count"@ => decimal(running_count as int),
            "pending_count"@ => decimal(pending_count as int)
        ]);
    }
    put_attr(&mut attributes, "task_definition", task_definition);
    summary(concat2("service/", service_arn), name, "service", status, created_at, None, attributes)
}

/// The resource listed for a container instance, named after its ARN.
pub fn container_instance_summary(
    cluster_arn: &str,
    instance_arn: &str,
    ec2_instance_id: Option<String>,
    running_tasks: i32,
    pending_tasks: i32,
    status: Option<String>,
) -> (r: ResourceSummary)
    ensures
        r.wf(),
        shows(
            r@,
            "container-instance/"@ + instance_arn@,
            arn_name(instance_arn@),
            "container-instance"@,
            text_or(status.deep_view(), "active"@),
            None,
            None,
            with_attr(map!["cluster_arn"@ => cluster_arn@], "ec2_instance_id"@, ec2_instance_id.deep_view())
                .insert("running_tasks"@, decimal(running_tasks as int))
                .insert("pending_tasks"@, decimal(pending_tasks as int)),
        ),
{
    let status = match status {
        Some(s) => s,
        None => String::from_str("active"),
    };
    let mut attributes: TextMap<String> = TextMap::new();
    attributes.insert(String::from_str("cluster_arn"), String::from_str(cluster_arn));
    proof {
        assert(texts_of(attributes@) =~= map!["cluster_arn"@ => cluster_arn@]);
    }
    put_attr(&mut attributes, "ec2_instance_id", ec2_instance_id);
    let ghost before = attributes@;
    let running = int_text(running_tasks as i64);
    let pending = int_text(pending_tasks as i64);
    let ghost texts = (running@, pending@);
    attributes.insert(String::from_str("running_tasks"), running);
    attributes.insert(String::from_str("pending_tasks"), pending);
    proof {
        assert(texts_of(attributes@) =~= texts_of(before).insert("running_tasks"@, texts.0).insert("pending_tasks"@, texts.1));
    }
    summary(
        concat2("container-instance/", instance_arn),
        name_from_arn(instance_arn),
        "container-instance",
        status,
        None,
        None,
        attributes,
    )
}

/// The resource listed for a task of a cluster, named by the last segment of
/// its ARN, in its last reported status (`unknown` when none).
pub fn task_summary(
    cluster_arn: &str,
    task_arn: &str,
    last_status: Option<String>,
    created_at: Option<String>,
    task_definition: Option<String>,
    desired_status: Option<String>,
    launch_type: Option<String>,
) -> (r: ResourceSummary)
    ensures
        r.wf(),
        shows(
            r@,
            "task/"@ + task_arn@,
            arn_name(task_arn@),
            "task"@,
            text_or(last_status.deep_view(), "unknown"@),
            created_at.deep_view(),
            None,
            with_attr(
                with_attr(
                    with_attr(map!["cluster_arn"@ => cluster_arn@], "task_definition"@, task_definition.deep_view()),
                    "desired_status"@,
                    desired_status.deep_view(),
                ),
                "launch_type"@,
                launch_type.deep_view(),
            ),
        ),
{
    let status = match last_status {
        Some(s) => s,
        None => String::from_str("unknown"),
    };
    let mut attributes: TextMap<String> = TextMap::new();
    attributes.insert(String::from_str("cluster_arn"), String::from_str(cluster_arn));
    assert(texts_of(attributes@) =~= map!["cluster_arn"@ => cluster_arn@]);
    put_attr(&mut attributes, "task_definition", task_definition);
    put_attr(&mut attributes, "desired_status", desired_status);
    put_attr(&mut attributes, "launch_type", launch_type);
    summary(concat2("task/", task_arn), name_from_arn(task_arn), "task", status, created_at, None, attributes)
}

/// The resource listed for a registered task definition.
pub fn task_definition_summary(task_definition_arn: &str) -> (r: ResourceSummary)
    ensures
        r.wf(),
        shows(
            r@,
            "task-definition/"@ + task_definition_arn@,
            arn_name(task_definition_arn@),
            "task-definition"@,
            "registered"@,
            None,
            None,
            map!["task_definition_arn"@ => task_definition_arn@],
        ),
{
    let mut attributes: TextMap<String> = TextMap::new();
    attributes.insert(String::from_str("task_definition_arn"), String::from_str(task_definition_arn));
    assert(texts_of(attributes@) =~= map!["task_definition_arn"@ => task_definition_arn@]);
    summary(
        concat2("task-definition/", task_definition_arn),
        name_from_arn(task_definition_arn),
        "task-definition",
        String::from_str("registered"),
        None,
        None,
        attributes,
    )
}

/// A call to ECS, with its validated inputs.
#[derive(Debug, Clone)]
pub enum Call {
    RunTask { cluster_arn: String, task_definition: String },
    StopTask { task_arn: String, cluster_arn: String },
    UpdateServiceDesiredCount { service_arn: String, desired_count: i32, cluster_arn: String },
}

impl View for Call {
    type V = CallView;

    open spec fn view(&self) -> CallView {
        match self {
            Call::RunTask { cluster_arn, task_definition } => call_of(
                "run_task"@,
                seq![cluster_arn@, task_definition@],
                seq![],
            ),
            Call::StopTask { task_arn, cluster_arn } => call_of(
                "stop_task"@,
                seq![task_arn@, cluster_arn@],
                seq![],
            ),
            Call::UpdateServiceDesiredCount { service_arn, desired_count, cluster_arn } => call_of(
                "update_service_desired_count"@,
                seq![service_arn@, cluster_arn@],
                seq![*desired_count as int],
            ),
        }
    }
}

/// What an action request on ECS asks for.
pub open spec fn action_plan(request: ServiceActionRequest) -> Result<PlannedView, ErrorView> {
    let a = request.action@;
    if a == "run_task"@ {
        then_text(
            selected_resource(request, "cluster/"@),
            |cluster_arn: Seq<char>|
                then_text(
                    required_text(request, "task_definition"@),
                    |task_definition: Seq<char>|
                        planned_call(a, seq![cluster_arn, task_definition], seq![]),
                ),
        )
    } else if a == "stop_task"@ {
        then_text(
            selected_resource(request, "task/"@),
            |task_arn: Seq<char>|
                {
                    let cluster_arn = stop_task_cluster(request);
                    planned_call(a, seq![task_arn, cluster_arn], seq![])
                },
        )
    } else if a == "update_service_desired_count"@ {
        then_text(
            selected_resource(request, "service/"@),
            |service_arn: Seq<char>|
                then_number(
                    required_i32(request, "desired_count"@, "`desired_count` is required."@),
                    |desired_count: int|
                        then_text(
                            required_text(request, "cluster_arn"@),
                            |cluster_arn: Seq<char>|
                                planned_call(a, seq![service_arn, cluster_arn], seq![desired_count]),
                        ),
                ),
        )
    } else {
        Err(unsupported_action_error(request))
    }
}

/// Validates an action request on ECS and decides what to do.
pub fn plan_action(request: &ServiceActionRequest) -> (r: Result<Planned<Call>, ServiceManagementError>)
    requires
        request.payload.wf(),
    ensures
        planned_outcome(r) == action_plan(*request),
        r matches Ok(Planned::Call(Call::RunTask { cluster_arn, task_definition })) ==> {
            &&& request.action@ == "run_task"@
            &&& selected_resource(*request, "cluster/"@) == Ok::<Seq<char>, ErrorView>(cluster_arn@)
            &&& required_text(*request, "task_definition"@) == Ok::<Seq<char>, ErrorView>(task_definition@)
        },
        r matches Ok(Planned::Call(Call::StopTask { task_arn, .. })) ==> {
            &&& request.action@ == "stop_task"@
            &&& selected_resource(*request, "task/"@) == Ok::<Seq<char>, ErrorView>(task_arn@)
        },
        r matches Ok(Planned::Call(Call::UpdateServiceDesiredCount { service_arn, cluster_arn, .. })) ==> {
            &&& request.action@ == "update_service_desired_count"@
            &&& selected_resource(*request, "service/"@) == Ok::<Seq<char>, ErrorView>(service_arn@)
            &&& required_text(*request, "cluster_arn"@) == Ok::<Seq<char>, ErrorView>(cluster_arn@)
        },
{
    let action = request.action.as_str();
    if text_eq(action, "run_task") {
        let cluster_arn = require_resource_id(request, "cluster/")?;
        let task_definition = require_payload_text(request, "task_definition")?;
        Ok(Planned::Call(Call::RunTask { cluster_arn, task_definition }))
    } else if text_eq(action, "stop_task") {
        let task_arn = require_resource_id(request, "task/")?;
        let cluster_arn = cluster_for_stop(request);
        Ok(Planned::Call(Call::StopTask { task_arn, cluster_arn }))
    } else if text_eq(action, "update_service_desired_count") {
        let service_arn = require_resource_id(request, "service/")?;
        let desired_count = require_payload_i32(request, "desired_count", "`desired_count` is required.")?;
        let cluster_arn = require_payload_text(request, "cluster_arn")?;
        Ok(Planned::Call(Call::UpdateServiceDesiredCount { service_arn, desired_count, cluster_arn }))
    } else {
        Err(unsupported_action(request))
    }
}

/// The result of `call` once it succeeded with `reply`.
pub open spec fn result_of(call: Call, reply: CallReply) -> ActionResultView {
    match call {
        Call::RunTask { cluster_arn, .. } => result_view(
            true,
            "Started "@ + digits_of(reply.count as nat) + " ECS task(s)."@,
            Some("cluster/"@ + cluster_arn@),
        ),
        Call::StopTask { task_arn, .. } => result_view(
            true,
            "Stopped ECS task `"@ + task_arn@ + "`."@,
            Some("task/"@ + task_arn@),
        ),
        Call::UpdateServiceDesiredCount { service_arn, desired_count, .. } => result_view(
            true,
            "Updated ECS service `"@ + last_segment(service_arn@, "/"@) + "` desired count to "@ + decimal(desired_count as int) + "."@,
            Some("service/"@ + service_arn@),
        ),
    }
}

/// The result reported once `call` succeeded with `reply`.
pub fn completed(call: &Call, reply: &CallReply) -> (r: ActionResult)
    ensures
        r@ == result_of(*call, *reply),
{
    match call {
        Call::RunTask { cluster_arn, .. } => {
            let t1 = nat_text(reply.count as u64);
            let mut message = String::from_str("Started ");
            message.append(t1.as_str());
            message.append(" ECS task(s).");
            let mut id = String::from_str("cluster/");
            id.append(cluster_arn.as_str());
            action_result(true, message, Some(id))
        },
        Call::StopTask { task_arn, .. } => {
            let mut message = String::from_str("Stopped ECS task `");
            message.append(task_arn.as_str());
            message.append("`.");
            let mut id = String::from_str("task/");
            id.append(task_arn.as_str());
            action_result(true, message, Some(id))
        },
        Call::UpdateServiceDesiredCount { service_arn, desired_count, .. } => {
            let t1 = last_segment_text(service_arn.as_str(), "/");
            let t2 = int_text(*desired_count as i64);
            let mut message = String::from_str("Updated ECS service `");
            message.append(t1.as_str());
            message.append("` desired count to ");
            message.append(t2.as_str());
            message.append(".");
            let mut id = String::from_str("service/");
            id.append(service_arn.as_str());
            action_result(true, message, Some(id))
        },
    }
}

/// Every call planned for an action request performs the requested action.
pub proof fn lemma_plan_performs_requested_action(request: ServiceActionRequest)
    ensures
        action_plan(request) matches Ok(PlannedView::Call(c)) ==> c.name == request.action@,
{
}

/// A destructive action is only planned once the typed confirmation matches.
pub proof fn lemma_destructive_actions_are_confirmed(request: ServiceActionRequest)
    ensures
        action_plan(request) is Ok && destructive(request.action@) ==> typed_confirmation(request) is Ok,
{
    reveal_strlit("run_task");
    lemma_not_destructive("run_task"@);
    reveal_strlit("stop_task");
    lemma_not_destructive("stop_task"@);
    reveal_strlit("update_service_desired_count");
    lemma_not_destructive("update_service_desired_count"@);
}

/// The operations the ECS page lists as unavailable.
pub open spec fn unsupported_operations() -> Seq<Seq<char>> {
    seq!["create_service"@, "delete_cluster"@]
}

/// The name under which the service's inventory page is shown.
pub open spec fn label() -> Seq<char> {
    "ECS"@
}

/// How far this adapter supports the service: it manages its resources.
pub open spec fn support_level() -> ServiceSupportLevel {
    ServiceSupportLevel::Managed
}

/// The ECS inventory page: the listed `resources` under the ECS tabs, refreshed
/// at `refreshed_at`.
pub fn inventory(
    resources: Vec<ResourceSummary>,
    refreshed_at: String,
) -> (inv: ServiceInventory)
    ensures
        inv@ == (InventoryView {
            service_key: "ecs"@,
            service_label: label(),
            support_level: support_level(),
            refreshed_at: refreshed_at@,
            tabs: inventory_tabs(),
            resources: summary_views(resources@),
            unsupported_operations: unsupported_operations(),
        }),
{
    let mut ops: Vec<String> = Vec::new();
    ops.push(String::from_str("create_service"));
    ops.push(String::from_str("delete_cluster"));
    proof {
        assert(ops.deep_view() =~= unsupported_operations());
    }
    build_inventory(
        "ecs",
        "ECS",
        ServiceSupportLevel::Managed,
        refreshed_at,
        tabs(),
        resources,
        ops,
    )
}

} // verus!
