//! CodeBuild.
use vstd::prelude::*;
use vstd::string::*;

use crate::service_management::actions::typed_confirmation;
use crate::service_management::adapters::payload::{
    optional_payload_text, optional_text, require_resource_id, selected_resource,
};
use crate::service_management::adapters::{
    action_result, build_inventory, call_of, destructive, lemma_not_destructive, no_attributes,
    planned_call, planned_outcome, put_attr, put_text, result_view, shows, summary, text_or,
    text_or_default, text_or_empty, texts_of, then_text, unsupported_action,
    unsupported_action_error, with_attr, CallReply, CallView, Planned, PlannedView,
};
use crate::service_management::errors::{ErrorView, ServiceManagementError};
use crate::service_management::models::{
    single_kind_tab, summary_views, tab, tab_views, ActionResult, ActionResultView, InventoryView,
    ResourceSummary, ResourceTab, ServiceActionRequest, ServiceInventory, ServiceSupportLevel,
    TabView,
};
use crate::text::{concat2, decimal, int_text, last_segment, last_segment_text, text_eq};

verus! {

/// The tabs of the CodeBuild inventory page.
pub open spec fn inventory_tabs() -> Seq<TabView> {
    seq![
        single_kind_tab("projects"@, "Projects"@, "project"@, "No CodeBuild projects were found."@),
        single_kind_tab("builds"@, "Builds"@, "build"@, "No CodeBuild builds are loaded."@),
        single_kind_tab("reports"@, "Reports"@, "report"@, "No CodeBuild reports are loaded."@),
    ]
}

/// The tabs of the CodeBuild inventory page.
pub fn tabs() -> (t: Vec<ResourceTab>)
    ensures
        tab_views(t@) == inventory_tabs(),
{
    let mut t: Vec<ResourceTab> = Vec::new();
    t.push(tab("projects", "Projects", "project", "No CodeBuild projects were found."));
    t.push(tab("builds", "Builds", "build", "No CodeBuild builds are loaded."));
    t.push(tab("reports", "Reports", "report", "No CodeBuild reports are loaded."));
    assert(tab_views(t@) =~= inventory_tabs());
    t
}

/// The attributes listed for a project; the source type and location come
/// from its source, the environment type, compute type and image from its
/// environment, when it has them.
pub open spec fn project_attributes(
    arn: Option<Seq<char>>,
    description: Option<Seq<char>>,
    source: Option<(Seq<char>, Option<Seq<char>>)>,
    environment: Option<(Seq<char>, Seq<char>, Seq<char>)>,
) -> Map<Seq<char>, Seq<char>> {
    let m = with_attr(Map::empty(), "arn"@, arn);
    let m = with_attr(m, "description"@, description);
    let m = match source {
        Some((source_type, location)) => with_attr(m.insert("source_type"@, source_type), "source_location"@, location),
        None => m,
    };
    match environment {
        Some((environment_type, compute_type, image)) => m.insert("environment_type"@, environment_type).insert(
            "compute_type"@,
            compute_type,
        ).insert("image"@, image),
        None => m,
    }
}

/// The view of a project's source: its type and location.
pub open spec fn source_view(source: Option<(String, Option<String>)>) -> Option<(Seq<char>, Option<Seq<char>>)> {
    match source {
        Some((t, l)) => Some((t@, l.deep_view())),
        None => None,
    }
}

/// The view of a project's environment: its type, compute type and image.
pub open spec fn environment_view(environment: Option<(String, String, String)>) -> Option<
    (Seq<char>, Seq<char>, Seq<char>),
> {
    match environment {
        Some((t, c, i)) => Some((t@, c@, i@)),
        None => None,
    }
}

/// The resource listed for a build project.
pub fn project_summary(
    project_name: &str,
    created_at: Option<String>,
    updated_at: Option<String>,
    arn: Option<String>,
    description: Option<String>,
    source: Option<(String, Option<String>)>,
    environment: Option<(String, String, String)>,
) -> (r: ResourceSummary)
    ensures
        r.wf(),
        shows(
            r@,
            "project/"@ + project_name@,
            project_name@,
            "project"@,
            "available"@,
            created_at.deep_view(),
            updated_at.deep_view(),
            project_attributes(arn.deep_view(), description.deep_view(), source_view(source), environment_view(environment)),
        ),
{
    let ghost views = (source_view(source), environment_view(environment));
    let mut attributes = no_attributes();
    put_attr(&mut attributes, "arn", arn);
    put_attr(&mut attributes, "description", description);
    match source {
        Some((source_type, location)) => {
            put_text(&mut attributes, "source_type", source_type);
            put_attr(&mut attributes, "source_location", location);
        },
        None => {},
    }
    match environment {
        Some((environment_type, compute_type, image)) => {
            put_text(&mut attributes, "environment_type", environment_type);
            put_text(&mut attributes, "compute_type", compute_type);
            put_text(&mut attributes, "image", image);
        },
        None => {},
    }
    summary(
        concat2("project/", project_name),
        String::from_str(project_name),
        "project",
        String::from_str("available"),
        created_at,
        updated_at,
        attributes,
    )
}

/// The resource listed for a build: named `#<number>`, or by its id when it
/// has no number, in its status (`unknown` when none).
pub fn build_summary(
    build_id: &str,
    build_number: Option<i64>,
    status: Option<String>,
    started_at: Option<String>,
    ended_at: Option<String>,
    arn: Option<String>,
    project_name: Option<String>,
    source_version: Option<String>,
) -> (r: ResourceSummary)
    ensures
        r.wf(),
        shows(
            r@,
            "build/"@ + build_id@,
            match build_number {
                Some(n) => "#"@ + decimal(n as int),
                None => build_id@,
            },
            "build"@,
            text_or(status.deep_view(), "unknown"@),
            started_at.deep_view(),
            ended_at.deep_view(),
            with_attr(
                with_attr(with_attr(Map::empty(), "arn"@, arn.deep_view()), "project_name"@, project_name.deep_view()),
                "source_version"@,
                source_version.deep_view(),
            ),
        ),
{
    let name = match build_number {
        Some(n) => {
            let mut label = String::from_str("#");
            let digits = int_text(n);
            label.append(digits.as_str());
            label
        },
        None => String::from_str(build_id),
    };
    let mut attributes = no_attributes();
    put_attr(&mut attributes, "arn", arn);
    put_attr(&mut attributes, "project_name", project_name);
    put_attr(&mut attributes, "source_version", source_version);
    summary(
        concat2("build/", build_id),
        name,
        "build",
        text_or_default(status, "unknown"),
        started_at,
        ended_at,
        attributes,
    )
}

/// The resource listed for a report group, named by the part of its ARN after
/// the last `/`.
pub fn report_group_summary(report_group_arn: &str) -> (r: ResourceSummary)
    ensures
        r.wf(),
        shows(
            r@,
            "report/"@ + report_group_arn@,
            last_segment(report_group_arn@, "/"@),
            "report"@,
            "available"@,
            None,
            None,
            map!["report_group_arn"@ => report_group_arn@],
        ),
{
    let mut attributes = no_attributes();
    put_text(&mut attributes, "report_group_arn", String::from_str(report_group_arn));
    assert(texts_of(attributes@) =~= map!["report_group_arn"@ => report_group_arn@]);
    summary(
        concat2("report/", report_group_arn),
        last_segment_text(report_group_arn, "/"),
        "report",
        String::from_str("available"),
        None,
        None,
        attributes,
    )
}

/// A call to CodeBuild, with its validated inputs.
#[derive(Debug, Clone)]
pub enum Call {
    StartBuild { project_name: String, source_version: Option<String> },
}

impl View for Call {
    type V = CallView;

    open spec fn view(&self) -> CallView {
        match self {
            Call::StartBuild { project_name, source_version } => call_of(
                "start_build"@,
                seq![project_name@, text_or_empty(source_version.deep_view())],
                seq![],
            ),
        }
    }
}

/// What an action request on CodeBuild asks for.
pub open spec fn action_plan(request: ServiceActionRequest) -> Result<PlannedView, ErrorView> {
    let a = request.action@;
    if a == "start_build"@ {
        then_text(
            selected_resource(request, "project/"@),
            |project_name: Seq<char>|
                {
                    let source_version = optional_text(request, "source_version"@);
                    planned_call(a, seq![project_name, text_or_empty(source_version)], seq![])
                },
        )
    } else {
        Err(unsupported_action_error(request))
    }
}

/// Validates an action request on CodeBuild and decides what to do.
pub fn plan_action(request: &ServiceActionRequest) -> (r: Result<Planned<Call>, ServiceManagementError>)
    requires
        request.payload.wf(),
    ensures
        planned_outcome(r) == action_plan(*request),
        r matches Ok(Planned::Call(Call::StartBuild { project_name, .. })) ==> {
            &&& request.action@ == "start_build"@
            &&& selected_resource(*request, "project/"@) == Ok::<Seq<char>, ErrorView>(project_name@)
        },
{
    let action = request.action.as_str();
    if text_eq(action, "start_build") {
        let project_name = require_resource_id(request, "project/")?;
        let source_version = optional_payload_text(request, "source_version");
        Ok(Planned::Call(Call::StartBuild { project_name, source_version }))
    } else {
        Err(unsupported_action(request))
    }
}

/// The result of `call` once it succeeded with `reply`.
pub open spec fn result_of(call: Call, reply: CallReply) -> ActionResultView {
    match call {
        Call::StartBuild { project_name, .. } => result_view(
            true,
            "Started CodeBuild build `"@ + text_or(reply.value.deep_view(), "local-build"@) + "`."@,
            Some("project/"@ + project_name@),
        ),
    }
}

/// The result reported once `call` succeeded with `reply`.
pub fn completed(call: &Call, reply: &CallReply) -> (r: ActionResult)
    ensures
        r@ == result_of(*call, *reply),
{
    match call {
        Call::StartBuild { project_name, .. } => {
            let t1 = match &reply.value {
                Some(v) => v.clone(),
                None => {
                    let t2 = String::from_str("local-build");
                    t2
                },
            };
            let mut message = String::from_str("Started CodeBuild build `");
            message.append(t1.as_str());
            message.append("`.");
            let mut id = String::from_str("project/");
            id.append(project_name.as_str());
            action_result(true, message, Some(id))
        },
    }
}

/// Every call planned for an action request performs the requested action.
pub proof fn lemma_plan_performs_requested_action(request: ServiceActionRequest)
    ensures
        action_plan(request) matches Ok(PlannedView::Call(c)) ==> c.name == request.action@,
{
}

/// A destructive action is only planned once the typed confirmation matches.
pub proof fn lemma_destructive_actions_are_confirmed(request: ServiceActionRequest)
    ensures
        action_plan(request) is Ok && destructive(request.action@) ==> typed_confirmation(request) is Ok,
{
    reveal_strlit("start_build");
    lemma_not_destructive("start_build"@);
}

/// The operations the CodeBuild page lists as unavailable.
pub open spec fn unsupported_operations() -> Seq<Seq<char>> {
    seq!["delete_project"@, "retry_build"@]
}

/// The name under which the service's inventory page is shown.
pub open spec fn label() -> Seq<char> {
    "CodeBuild"@
}

/// How far this adapter supports the service: it manages its resources.
pub open spec fn support_level() -> ServiceSupportLevel {
    ServiceSupportLevel::Managed
}

/// The CodeBuild inventory page: the listed `resources` under the CodeBuild tabs, refreshed
/// at `refreshed_at`.
pub fn inventory(
    resources: Vec<ResourceSummary>,
    refreshed_at: String,
) -> (inv: ServiceInventory)
    ensures
        inv@ == (InventoryView {
            service_key: "codebuild"@,
            service_label: label(),
            support_level: support_level(),
            refreshed_at: refreshed_at@,
            tabs: inventory_tabs(),
            resources: summary_views(resources@),
            unsupported_operations: unsupported_operations(),
        }),
{
    let mut ops: Vec<String> = Vec::new();
    ops.push(String::from_str("delete_project"));
    ops.push(String::from_str("retry_build"));
    proof {
        assert(ops.deep_view() =~= unsupported_operations());
    }
    build_inventory(
        "codebuild",
        "CodeBuild",
        ServiceSupportLevel::Managed,
        refreshed_at,
        tabs(),
        resources,
        ops,
    )
}

} // verus!
