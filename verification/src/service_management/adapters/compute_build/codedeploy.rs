//! CodeDeploy.
use vstd::prelude::*;
use vstd::string::*;

use crate::service_management::actions::{required_text, typed_confirmation};
use crate::service_management::adapters::payload::{
    optional_payload_text, optional_payload_text_or, optional_text, require_payload_text,
    require_resource_id, selected_resource,
};
use crate::service_management::adapters::{
    action_result, build_inventory, call_of, destructive, lemma_not_destructive, no_attributes,
    planned_call, planned_outcome, put_attr, put_text, result_view, shows, summary, text_or,
    text_or_default, unsupported_action, unsupported_action_error, with_attr, CallReply, CallView,
    Planned, PlannedView,
};
use crate::service_management::errors::{ErrorView, ServiceManagementError};
use crate::service_management::models::{
    single_kind_tab, summary_views, tab, tab_views, ActionResult, ActionResultView, InventoryView,
    ResourceSummary, ResourceTab, ServiceActionRequest, ServiceInventory, ServiceSupportLevel,
    TabView,
};
use crate::text::text_eq;
use crate::service_management::adapters::payload::pair_outcome;
use crate::service_management::errors::invalid_input_error;
use crate::text::{split_once, split_once_text};
use crate::text::{has_char, lemma_split_once_after};

verus! {

/// The tabs of the CodeDeploy inventory page.
pub open spec fn inventory_tabs() -> Seq<TabView> {
    seq![
        single_kind_tab("applications"@, "Applications"@, "application"@, "No CodeDeploy applications were found."@),
        single_kind_tab("deployment-groups"@, "Deployment Groups"@, "deployment-group"@, "No CodeDeploy deployment groups are loaded."@),
        single_kind_tab("deployments"@, "Deployments"@, "deployment"@, "No CodeDeploy deployments are loaded."@),
    ]
}

/// The tabs of the CodeDeploy inventory page.
pub fn tabs() -> (t: Vec<ResourceTab>)
    ensures
        tab_views(t@) == inventory_tabs(),
{
    let mut t: Vec<ResourceTab> = Vec::new();
    t.push(tab("applications", "Applications", "application", "No CodeDeploy applications were found."));
    t.push(tab("deployment-groups", "Deployment Groups", "deployment-group", "No CodeDeploy deployment groups are loaded."));
    t.push(tab("deployments", "Deployments", "deployment", "No CodeDeploy deployments are loaded."));
    assert(tab_views(t@) =~= inventory_tabs());
    t
}

/// The application and deployment group named by the selected
/// `deployment-group/<application>/<group>` id.
pub open spec fn selected_group_pair(request: ServiceActionRequest) -> Option<(Seq<char>, Seq<char>)> {
    match selected_resource(request, "deployment-group/"@) {
        Ok(v) => split_once(v, "/"@),
        Err(_) => None,
    }
}

/// The application and deployment group to deploy to: those of the selected
/// deployment group, or else the `application_name` and
/// `deployment_group_name` fields.
pub open spec fn deployment_target(request: ServiceActionRequest) -> Result<(Seq<char>, Seq<char>), ErrorView> {
    match selected_group_pair(request) {
        Some(p) => Ok(p),
        None => match (required_text(request, "application_name"@), optional_text(request, "deployment_group_name"@)) {
            (Ok(application), Some(group)) => Ok((application, group)),
            _ => Err(
                invalid_input_error(
                    request.service_key@,
                    request.action@,
                    "`deployment_group_name` is required."@,
                ),
            ),
        },
    }
}

/// The application and deployment group of a new deployment.
pub fn selected_deployment_group(request: &ServiceActionRequest) -> (r: Result<(String, String), ServiceManagementError>)
    requires
        request.payload.wf(),
    ensures
        pair_outcome(r) == deployment_target(*request),
{
    let selected = match require_resource_id(request, "deployment-group/") {
        Ok(v) => split_once_text(v.as_str(), "/"),
        Err(_) => None,
    };
    if let Some(p) = selected {
        return Ok(p);
    }
    let application = require_payload_text(request, "application_name");
    let group = optional_payload_text(request, "deployment_group_name");
    match (application, group) {
        (Ok(application), Some(group)) => Ok((application, group)),
        _ => Err(
            ServiceManagementError::invalid_input(
                request.service_key.as_str(),
                request.action.as_str(),
                "`deployment_group_name` is required.",
            ),
        ),
    }
}

/// A deployment group listed by the inventory is the one a deployment started
/// from it goes to, when the application name holds no `/`.
pub proof fn lemma_listed_group_is_deployment_target(
    request: ServiceActionRequest,
    application_name: Seq<char>,
    group_name: Seq<char>,
)
    requires
        request.resource_id matches Some(id) && id@ == "deployment-group/"@ + application_name + "/"@ + group_name,
        !has_char(application_name, '/'),
    ensures
        deployment_target(request) == Ok::<(Seq<char>, Seq<char>), ErrorView>((application_name, group_name)),
{
    reveal_strlit("deployment-group/");
    reveal_strlit("/");
    let id = request.resource_id->Some_0@;
    let body = application_name + "/"@ + group_name;
    assert(id =~= "deployment-group/"@ + body);
    assert(id.subrange(0, 17) =~= "deployment-group/"@);
    assert(id.subrange(17, id.len() as int) =~= body);
    lemma_split_once_after(application_name, "/"@, group_name);
}

/// The attributes listed by [`application_summary`].
pub open spec fn application_attributes() -> Map<Seq<char>, Seq<char>> {
    let m = Map::<Seq<char>, Seq<char>>::empty();
    m
}

/// The resource listed for an application.
pub fn application_summary(
    application_name: &str,
) -> (r: ResourceSummary)
    ensures
        r.wf(),
        shows(
            r@,
            "application/"@ + application_name@,
            application_name@,
            "application"@,
            "available"@,
            None,
            None,
            application_attributes(),
        ),
{
    let mut id = String::from_str("application/");
    id.append(application_name);
    let listed_name = String::from_str(application_name);
    let listed_status = String::from_str("available");
    let mut attributes = no_attributes();
    summary(id, listed_name, "application", listed_status, None, None, attributes)
}

/// The attributes listed by [`deployment_group_summary`].
pub open spec fn deployment_group_attributes(
    application_name: Seq<char>,
    deployment_group_id: Option<Seq<char>>,
    service_role_arn: Option<Seq<char>>,
) -> Map<Seq<char>, Seq<char>> {
    let m = Map::<Seq<char>, Seq<char>>::empty();
    let m = m.insert("application_name"@, application_name);
    let m = with_attr(m, "deployment_group_id"@, deployment_group_id);
    with_attr(m, "service_role_arn"@, service_role_arn)
}

/// The resource listed for a deployment group; its id and service role come
/// from describing it, when that succeeded.
pub fn deployment_group_summary(
    application_name: &str,
    group_name: &str,
    deployment_group_id: Option<String>,
    service_role_arn: Option<String>,
) -> (r: ResourceSummary)
    ensures
        r.wf(),
        shows(
            r@,
            "deployment-group/"@ + application_name@ + "/"@ + group_name@,
            group_name@,
            "deployment-group"@,
            "available"@,
            None,
            None,
            deployment_group_attributes(
                application_name@,
                deployment_group_id.deep_view(),
                service_role_arn.deep_view(),
            ),
        ),
{
    let mut id = String::from_str("deployment-group/");
    id.append(application_name);
    id.append("/");
    id.append(group_name);
    let listed_name = String::from_str(group_name);
    let listed_status = String::from_str("available");
    let mut attributes = no_attributes();
    put_text(&mut attributes, "application_name", String::from_str(application_name));
    put_attr(&mut attributes, "deployment_group_id", deployment_group_id);
    put_attr(&mut attributes, "service_role_arn", service_role_arn);
    summary(id, listed_name, "deployment-group", listed_status, None, None, attributes)
}

/// The attributes listed by [`deployment_summary`].
pub open spec fn deployment_attributes(
    application_name: Option<Seq<char>>,
    deployment_group_name: Option<Seq<char>>,
) -> Map<Seq<char>, Seq<char>> {
    let m = Map::<Seq<char>, Seq<char>>::empty();
    let m = with_attr(m, "application_name"@, application_name);
    with_attr(m, "deployment_group_name"@, deployment_group_name)
}

/// The resource listed for a deployment, in the status that describing it
/// reported (`created` when none).
pub fn deployment_summary(
    deployment_id: &str,
    status: Option<String>,
    created_at: Option<String>,
    application_name: Option<String>,
    deployment_group_name: Option<String>,
) -> (r: ResourceSummary)
    ensures
        r.wf(),
        shows(
            r@,
            "deployment/"@ + deployment_id@,
            deployment_id@,
            "deployment"@,
            text_or(status.deep_view(), "created"@),
            created_at.deep_view(),
            None,
            deployment_attributes(
                application_name.deep_view(),
                deployment_group_name.deep_view(),
            ),
        ),
{
    let mut id = String::from_str("deployment/");
    id.append(deployment_id);
    let listed_name = String::from_str(deployment_id);
    let listed_status = text_or_default(status, "created");
    let mut attributes = no_attributes();
    put_attr(&mut attributes, "application_name", application_name);
    put_attr(&mut attributes, "deployment_group_name", deployment_group_name);
    summary(id, listed_name, "deployment", listed_status, created_at, None, attributes)
}

/// A call to CodeDeploy, with its validated inputs.
#[derive(Debug, Clone)]
pub enum Call {
    CreateDeployment { application_name: String, deployment_group_name: String, description: String },
}

impl View for Call {
    type V = CallView;

    open spec fn view(&self) -> CallView {
        match self {
            Call::CreateDeployment { application_name, deployment_group_name, description } => call_of(
                "create_deployment"@,
                seq![application_name@, deployment_group_name@, description@],
                seq![],
            ),
        }
    }
}

/// What an action request on CodeDeploy asks for.
pub open spec fn action_plan(request: ServiceActionRequest) -> Result<PlannedView, ErrorView> {
    let a = request.action@;
    if a == "create_deployment"@ {
        match deployment_target(request) {
            Ok(p) => {
                let application_name = p.0;
                let deployment_group_name = p.1;
                {
                    let description = text_or(optional_text(request, "description"@), "floci-ui local deployment"@);
                    planned_call(a, seq![application_name, deployment_group_name, description], seq![])
                }
            },
            Err(e) => Err(e),
        }
    } else {
        Err(unsupported_action_error(request))
    }
}

/// Validates an action request on CodeDeploy and decides what to do.
pub fn plan_action(request: &ServiceActionRequest) -> (r: Result<Planned<Call>, ServiceManagementError>)
    requires
        request.payload.wf(),
    ensures
        planned_outcome(r) == action_plan(*request),
{
    let action = request.action.as_str();
    if text_eq(action, "create_deployment") {
        let (application_name, deployment_group_name) = selected_deployment_group(request)?;
        let description = optional_payload_text_or(request, "description", "floci-ui local deployment");
        Ok(Planned::Call(Call::CreateDeployment { application_name, deployment_group_name, description }))
    } else {
        Err(unsupported_action(request))
    }
}

/// The result of `call` once it succeeded with `reply`.
pub open spec fn result_of(call: Call, reply: CallReply) -> ActionResultView {
    match call {
        Call::CreateDeployment { .. } => result_view(
            true,
            "Created CodeDeploy deployment `"@ + text_or(reply.value.deep_view(), "local-deployment"@) + "`."@,
            Some("deployment/"@ + text_or(reply.value.deep_view(), "local-deployment"@)),
        ),
    }
}

/// The result reported once `call` succeeded with `reply`.
pub fn completed(call: &Call, reply: &CallReply) -> (r: ActionResult)
    ensures
        r@ == result_of(*call, *reply),
{
    match call {
        Call::CreateDeployment { .. } => {
            let t1 = match &reply.value {
                Some(v) => v.clone(),
                None => {
                    let t2 = String::from_str("local-deployment");
                    t2
                },
            };
            let mut message = String::from_str("Created CodeDeploy deployment `");
            message.append(t1.as_str());
            message.append("`.");
            let t3 = match &reply.value {
                Some(v) => v.clone(),
                None => {
                    let t4 = String::from_str("local-deployment");
                    t4
                },
            };
            let mut id = String::from_str("deployment/");
            id.append(t3.as_str());
            action_result(true, message, Some(id))
        },
    }
}

/// Every call planned for an action request performs the requested action.
pub proof fn lemma_plan_performs_requested_action(request: ServiceActionRequest)
    ensures
        action_plan(request) matches Ok(PlannedView::Call(c)) ==> c.name == request.action@,
{
}

/// A destructive action is only planned once the typed confirmation matches.
pub proof fn lemma_destructive_actions_are_confirmed(request: ServiceActionRequest)
    ensures
        action_plan(request) is Ok && destructive(request.action@) ==> typed_confirmation(request) is Ok,
{
    reveal_strlit("create_deployment");
    lemma_not_destructive("create_deployment"@);
}

/// The operations the CodeDeploy page lists as unavailable.
pub open spec fn unsupported_operations() -> Seq<Seq<char>> {
    seq!["delete_application"@, "delete_deployment_group"@]
}

/// The name under which the service's inventory page is shown.
pub open spec fn label() -> Seq<char> {
    "CodeDeploy"@
}

/// How far this adapter supports the service: it manages its resources.
pub open spec fn support_level() -> ServiceSupportLevel {
    ServiceSupportLevel::Managed
}

/// The CodeDeploy inventory page: the listed `resources` under the CodeDeploy tabs, refreshed
/// at `refreshed_at`.
pub fn inventory(
    resources: Vec<ResourceSummary>,
    refreshed_at: String,
) -> (inv: ServiceInventory)
    ensures
        inv@ == (InventoryView {
            service_key: "codedeploy"@,
            service_label: label(),
            support_level: support_level(),
            refreshed_at: refreshed_at@,
            tabs: inventory_tabs(),
            resources: summary_views(resources@),
            unsupported_operations: unsupported_operations(),
        }),
{
    let mut ops: Vec<String> = Vec::new();
    ops.push(String::from_str("delete_application"));
    ops.push(String::from_str("delete_deployment_group"));
    proof {
        assert(ops.deep_view() =~= unsupported_operations());
    }
    build_inventory(
        "codedeploy",
        "CodeDeploy",
        ServiceSupportLevel::Managed,
        refreshed_at,
        tabs(),
        resources,
        ops,
    )
}

} // verus!
