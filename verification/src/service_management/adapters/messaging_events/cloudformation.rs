//! CloudFormation.
use vstd::prelude::*;
use vstd::string::*;

use crate::service_management::actions::{
    require_name_payload, require_typed_confirmation, required_text, typed_confirmation,
};
use crate::service_management::adapters::payload::{
    optional_payload_text_or, optional_text, require_resource_id, selected_resource,
};
use crate::service_management::adapters::{
    action_result, build_inventory, call_of, destructive, flag_text, lemma_not_destructive,
    no_attributes, optional_flag_text, planned_call, planned_done, planned_outcome, put_attr,
    put_text, result_view, shows, summary, text_or, text_or_default, then_text, unsupported_action,
    unsupported_action_error, with_attr, CallReply, CallView, Planned, PlannedView,
};
use crate::service_management::errors::{ErrorView, ServiceManagementError};
use crate::service_management::models::{
    single_kind_tab, summary_views, tab, tab_views, ActionResult, ActionResultView, InventoryView,
    ResourceSummary, ResourceTab, ServiceActionRequest, ServiceInventory, ServiceSupportLevel,
    TabView,
};
use crate::text::text_eq;

verus! {

/// The template of a stack created without one: no resources.
pub const DEFAULT_TEMPLATE_BODY: &'static str = "{\n  \"AWSTemplateFormatVersion\": \"2010-09-09\",\n  \"Resources\": {}\n}";

/// The tabs of the CloudFormation inventory page.
pub open spec fn inventory_tabs() -> Seq<TabView> {
    seq![
        single_kind_tab("stacks"@, "Stacks"@, "stack"@, "No CloudFormation stacks were found."@),
        single_kind_tab("resources"@, "Resources"@, "stack-resource"@, "No CloudFormation stack resources are loaded."@),
        single_kind_tab("events"@, "Events"@, "stack-event"@, "No CloudFormation stack events are loaded."@),
        single_kind_tab("change-sets"@, "Change Sets"@, "change-set"@, "No CloudFormation change sets are loaded."@),
        single_kind_tab("parameters"@, "Parameters"@, "parameter"@, "No CloudFormation stack parameters are loaded."@),
    ]
}

/// The tabs of the CloudFormation inventory page.
pub fn tabs() -> (t: Vec<ResourceTab>)
    ensures
        tab_views(t@) == inventory_tabs(),
{
    let mut t: Vec<ResourceTab> = Vec::new();
    t.push(tab("stacks", "Stacks", "stack", "No CloudFormation stacks were found."));
    t.push(tab("resources", "Resources", "stack-resource", "No CloudFormation stack resources are loaded."));
    t.push(tab("events", "Events", "stack-event", "No CloudFormation stack events are loaded."));
    t.push(tab("change-sets", "Change Sets", "change-set", "No CloudFormation change sets are loaded."));
    t.push(tab("parameters", "Parameters", "parameter", "No CloudFormation stack parameters are loaded."));
    assert(tab_views(t@) =~= inventory_tabs());
    t
}

/// The attributes listed by [`stack_summary`].
pub open spec fn stack_attributes(
    stack_id: Option<Seq<char>>,
    template_description: Option<Seq<char>>,
) -> Map<Seq<char>, Seq<char>> {
    let m = Map::<Seq<char>, Seq<char>>::empty();
    let m = with_attr(m, "stack_id"@, stack_id);
    with_attr(m, "template_description"@, template_description)
}

/// The resource listed for a stack, in its status (`unknown` when none).
pub fn stack_summary(
    name: &str,
    status: Option<String>,
    created_at: Option<String>,
    updated_at: Option<String>,
    stack_id: Option<String>,
    template_description: Option<String>,
) -> (r: ResourceSummary)
    ensures
        r.wf(),
        shows(
            r@,
            "stack/"@ + name@,
            name@,
            "stack"@,
            text_or(status.deep_view(), "unknown"@),
            created_at.deep_view(),
            updated_at.deep_view(),
            stack_attributes(stack_id.deep_view(), template_description.deep_view()),
        ),
{
    let mut id = String::from_str("stack/");
    id.append(name);
    let listed_name = String::from_str(name);
    let listed_status = text_or_default(status, "unknown");
    let mut attributes = no_attributes();
    put_attr(&mut attributes, "stack_id", stack_id);
    put_attr(&mut attributes, "template_description", template_description);
    summary(id, listed_name, "stack", listed_status, created_at, updated_at, attributes)
}

/// The attributes listed by [`stack_parameter_summary`].
pub open spec fn stack_parameter_attributes(
    stack_name: Seq<char>,
    value: Option<Seq<char>>,
    resolved_value: Option<Seq<char>>,
    use_previous_value: Option<bool>,
) -> Map<Seq<char>, Seq<char>> {
    let m = Map::<Seq<char>, Seq<char>>::empty();
    let m = m.insert("stack_name"@, stack_name);
    let m = with_attr(m, "value"@, value);
    let m = with_attr(m, "resolved_value"@, resolved_value);
    with_attr(m, "use_previous_value"@, flag_text(use_previous_value))
}

/// The resource listed for a parameter of a stack.
pub fn stack_parameter_summary(
    stack_name: &str,
    parameter_key: &str,
    value: Option<String>,
    resolved_value: Option<String>,
    use_previous_value: Option<bool>,
) -> (r: ResourceSummary)
    ensures
        r.wf(),
        shows(
            r@,
            "parameter/"@ + stack_name@ + "/"@ + parameter_key@,
            parameter_key@,
            "parameter"@,
            "configured"@,
            None,
            None,
            stack_parameter_attributes(
                stack_name@,
                value.deep_view(),
                resolved_value.deep_view(),
                use_previous_value,
            ),
        ),
{
    let mut id = String::from_str("parameter/");
    id.append(stack_name);
    id.append("/");
    id.append(parameter_key);
    let listed_name = String::from_str(parameter_key);
    let listed_status = String::from_str("configured");
    let mut attributes = no_attributes();
    put_text(&mut attributes, "stack_name", String::from_str(stack_name));
    put_attr(&mut attributes, "value", value);
    put_attr(&mut attributes, "resolved_value", resolved_value);
    put_attr(&mut attributes, "use_previous_value", optional_flag_text(use_previous_value));
    summary(id, listed_name, "parameter", listed_status, None, None, attributes)
}

/// The attributes listed by [`stack_resource_summary`].
pub open spec fn stack_resource_attributes(
    stack_name: Seq<char>,
    physical_id: Option<Seq<char>>,
    resource_type: Option<Seq<char>>,
    resource_status_reason: Option<Seq<char>>,
) -> Map<Seq<char>, Seq<char>> {
    let m = Map::<Seq<char>, Seq<char>>::empty();
    let m = m.insert("stack_name"@, stack_name);
    let m = with_attr(m, "physical_id"@, physical_id);
    let m = with_attr(m, "resource_type"@, resource_type);
    with_attr(m, "resource_status_reason"@, resource_status_reason)
}

/// The resource listed for a resource of a stack, under its logical id
/// (`resource` when it has none), in its status (`unknown` when none).
pub fn stack_resource_summary(
    stack_name: &str,
    logical_id: Option<String>,
    status: Option<String>,
    updated_at: Option<String>,
    physical_id: Option<String>,
    resource_type: Option<String>,
    resource_status_reason: Option<String>,
) -> (r: ResourceSummary)
    ensures
        r.wf(),
        shows(
            r@,
            "stack-resource/"@ + stack_name@ + "/"@ + text_or(logical_id.deep_view(), "resource"@),
            text_or(logical_id.deep_view(), "resource"@),
            "stack-resource"@,
            text_or(status.deep_view(), "unknown"@),
            None,
            updated_at.deep_view(),
            stack_resource_attributes(
                stack_name@,
                physical_id.deep_view(),
                resource_type.deep_view(),
                resource_status_reason.deep_view(),
            ),
        ),
{
    let mut id = String::from_str("stack-resource/");
    id.append(stack_name);
    id.append("/");
    let piece = text_or_default(logical_id.clone(), "resource");
    id.append(piece.as_str());
    let listed_name = text_or_default(logical_id.clone(), "resource");
    let listed_status = text_or_default(status, "unknown");
    let mut attributes = no_attributes();
    put_text(&mut attributes, "stack_name", String::from_str(stack_name));
    put_attr(&mut attributes, "physical_id", physical_id);
    put_attr(&mut attributes, "resource_type", resource_type);
    put_attr(&mut attributes, "resource_status_reason", resource_status_reason);
    summary(id, listed_name, "stack-resource", listed_status, None, updated_at, attributes)
}

/// The attributes listed by [`change_set_summary`].
pub open spec fn change_set_attributes(
    stack_name: Seq<char>,
    change_set_id: Option<Seq<char>>,
    execution_status: Option<Seq<char>>,
    status_reason: Option<Seq<char>>,
) -> Map<Seq<char>, Seq<char>> {
    let m = Map::<Seq<char>, Seq<char>>::empty();
    let m = m.insert("stack_name"@, stack_name);
    let m = with_attr(m, "change_set_id"@, change_set_id);
    let m = with_attr(m, "execution_status"@, execution_status);
    with_attr(m, "status_reason"@, status_reason)
}

/// The resource listed for a change set of a stack, in its status (`unknown`
/// when none).
pub fn change_set_summary(
    stack_name: &str,
    change_set_name: &str,
    status: Option<String>,
    created_at: Option<String>,
    change_set_id: Option<String>,
    execution_status: Option<String>,
    status_reason: Option<String>,
) -> (r: ResourceSummary)
    ensures
        r.wf(),
        shows(
            r@,
            "change-set/"@ + stack_name@ + "/"@ + change_set_name@,
            change_set_name@,
            "change-set"@,
            text_or(status.deep_view(), "unknown"@),
            created_at.deep_view(),
            None,
            change_set_attributes(
                stack_name@,
                change_set_id.deep_view(),
                execution_status.deep_view(),
                status_reason.deep_view(),
            ),
        ),
{
    let mut id = String::from_str("change-set/");
    id.append(stack_name);
    id.append("/");
    id.append(change_set_name);
    let listed_name = String::from_str(change_set_name);
    let listed_status = text_or_default(status, "unknown");
    let mut attributes = no_attributes();
    put_text(&mut attributes, "stack_name", String::from_str(stack_name));
    put_attr(&mut attributes, "change_set_id", change_set_id);
    put_attr(&mut attributes, "execution_status", execution_status);
    put_attr(&mut attributes, "status_reason", status_reason);
    summary(id, listed_name, "change-set", listed_status, created_at, None, attributes)
}

/// The attributes listed by [`stack_event_summary`].
pub open spec fn stack_event_attributes(
    stack_name: Seq<char>,
    resource_type: Option<Seq<char>>,
    resource_status_reason: Option<Seq<char>>,
) -> Map<Seq<char>, Seq<char>> {
    let m = Map::<Seq<char>, Seq<char>>::empty();
    let m = m.insert("stack_name"@, stack_name);
    let m = with_attr(m, "resource_type"@, resource_type);
    with_attr(m, "resource_status_reason"@, resource_status_reason)
}

/// The resource listed for an event of a stack (`event` when it has no id),
/// named by the logical id of its resource or else the stack name.
pub fn stack_event_summary(
    stack_name: &str,
    event_id: Option<String>,
    logical_id: Option<String>,
    status: Option<String>,
    created_at: Option<String>,
    resource_type: Option<String>,
    resource_status_reason: Option<String>,
) -> (r: ResourceSummary)
    ensures
        r.wf(),
        shows(
            r@,
            "stack-event/"@ + stack_name@ + "/"@ + text_or(event_id.deep_view(), "event"@),
            text_or(logical_id.deep_view(), stack_name@),
            "stack-event"@,
            text_or(status.deep_view(), "unknown"@),
            created_at.deep_view(),
            None,
            stack_event_attributes(
                stack_name@,
                resource_type.deep_view(),
                resource_status_reason.deep_view(),
            ),
        ),
{
    let mut id = String::from_str("stack-event/");
    id.append(stack_name);
    id.append("/");
    let piece = text_or_default(event_id.clone(), "event");
    id.append(piece.as_str());
    let listed_name = text_or_default(logical_id.clone(), stack_name);
    let listed_status = text_or_default(status, "unknown");
    let mut attributes = no_attributes();
    put_text(&mut attributes, "stack_name", String::from_str(stack_name));
    put_attr(&mut attributes, "resource_type", resource_type);
    put_attr(&mut attributes, "resource_status_reason", resource_status_reason);
    summary(id, listed_name, "stack-event", listed_status, created_at, None, attributes)
}

/// A call to CloudFormation, with its validated inputs.
#[derive(Debug, Clone)]
pub enum Call {
    CreateStack { stack_name: String, template_body: String },
    DeleteStack { stack_name: String, stack_id: String },
}

impl View for Call {
    type V = CallView;

    open spec fn view(&self) -> CallView {
        match self {
            Call::CreateStack { stack_name, template_body } => call_of(
                "create_stack"@,
                seq![stack_name@, template_body@],
                seq![],
            ),
            Call::DeleteStack { stack_name, stack_id } => call_of(
                "delete_stack"@,
                seq![stack_name@, stack_id@],
                seq![],
            ),
        }
    }
}

/// What an action request on CloudFormation asks for.
pub open spec fn action_plan(request: ServiceActionRequest) -> Result<PlannedView, ErrorView> {
    let a = request.action@;
    if a == "create_stack"@ {
        then_text(
            required_text(request, "stack_name"@),
            |stack_name: Seq<char>|
                {
                    let template_body = text_or(optional_text(request, "template_body"@), DEFAULT_TEMPLATE_BODY@);
                    planned_call(a, seq![stack_name, template_body], seq![])
                },
        )
    } else if a == "delete_stack"@ {
        then_text(
            typed_confirmation(request),
            |stack_name: Seq<char>|
                then_text(
                    selected_resource(request, "stack/"@),
                    |stack_id: Seq<char>|
                        planned_call(a, seq![stack_name, stack_id], seq![]),
                ),
        )
    } else if a == "refresh_stack"@ {
        then_text(
            selected_resource(request, "stack/"@),
            |stack_id: Seq<char>|
                planned_done(false, "Stack refresh completed."@, Some("stack/"@ + stack_id)),
        )
    } else if a == "view_stack_events"@ {
        then_text(
            selected_resource(request, "stack/"@),
            |stack_id: Seq<char>|
                planned_done(false, "Stack events are loaded in the Events tab."@, Some("stack/"@ + stack_id)),
        )
    } else {
        Err(unsupported_action_error(request))
    }
}

/// Validates an action request on CloudFormation and decides what to do.
pub fn plan_action(request: &ServiceActionRequest) -> (r: Result<Planned<Call>, ServiceManagementError>)
    requires
        request.payload.wf(),
    ensures
        planned_outcome(r) == action_plan(*request),
        r matches Ok(Planned::Call(Call::CreateStack { stack_name, .. })) ==> {
            &&& request.action@ == "create_stack"@
            &&& required_text(*request, "stack_name"@) == Ok::<Seq<char>, ErrorView>(stack_name@)
        },
        r matches Ok(Planned::Call(Call::DeleteStack { stack_name, stack_id })) ==> {
            &&& request.action@ == "delete_stack"@
            &&& typed_confirmation(*request) == Ok::<Seq<char>, ErrorView>(stack_name@)
            &&& selected_resource(*request, "stack/"@) == Ok::<Seq<char>, ErrorView>(stack_id@)
        },
{
    let action = request.action.as_str();
    if text_eq(action, "create_stack") {
        let stack_name = require_name_payload(request, "stack_name")?;
        let template_body = optional_payload_text_or(request, "template_body", DEFAULT_TEMPLATE_BODY);
        Ok(Planned::Call(Call::CreateStack { stack_name, template_body }))
    } else if text_eq(action, "delete_stack") {
        let stack_name = require_typed_confirmation(request)?;
        let stack_id = require_resource_id(request, "stack/")?;
        Ok(Planned::Call(Call::DeleteStack { stack_name, stack_id }))
    } else if text_eq(action, "refresh_stack") {
        let stack_id = require_resource_id(request, "stack/")?;
        let message = String::from_str("Stack refresh completed.");
        let mut id = String::from_str("stack/");
        id.append(stack_id.as_str());
        Ok(Planned::Done(action_result(false, message, Some(id))))
    } else if text_eq(action, "view_stack_events") {
        let stack_id = require_resource_id(request, "stack/")?;
        let message = String::from_str("Stack events are loaded in the Events tab.");
        let mut id = String::from_str("stack/");
        id.append(stack_id.as_str());
        Ok(Planned::Done(action_result(false, message, Some(id))))
    } else {
        Err(unsupported_action(request))
    }
}

/// The result of `call` once it succeeded with `reply`.
pub open spec fn result_of(call: Call, _reply: CallReply) -> ActionResultView {
    match call {
        Call::CreateStack { stack_name, .. } => result_view(
            true,
            "Created CloudFormation stack `"@ + stack_name@ + "`."@,
            Some("stack/"@ + stack_name@),
        ),
        Call::DeleteStack { stack_name, stack_id } => result_view(
            true,
            "Deleted CloudFormation stack `"@ + stack_name@ + "`."@,
            Some("stack/"@ + stack_id@),
        ),
    }
}

/// The result reported once `call` succeeded with `reply`.
pub fn completed(call: &Call, _reply: &CallReply) -> (r: ActionResult)
    ensures
        r@ == result_of(*call, *_reply),
{
    match call {
        Call::CreateStack { stack_name, .. } => {
            let mut message = String::from_str("Created CloudFormation stack `");
            message.append(stack_name.as_str());
            message.append("`.");
            let mut id = String::from_str("stack/");
            id.append(stack_name.as_str());
            action_result(true, message, Some(id))
        },
        Call::DeleteStack { stack_name, stack_id } => {
            let mut message = String::from_str("Deleted CloudFormation stack `");
            message.append(stack_name.as_str());
            message.append("`.");
            let mut id = String::from_str("stack/");
            id.append(stack_id.as_str());
            action_result(true, message, Some(id))
        },
    }
}

/// Every call planned for an action request performs the requested action.
pub proof fn lemma_plan_performs_requested_action(request: ServiceActionRequest)
    ensures
        action_plan(request) matches Ok(PlannedView::Call(c)) ==> c.name == request.action@,
{
}

/// A destructive action is only planned once the typed confirmation matches.
pub proof fn lemma_destructive_actions_are_confirmed(request: ServiceActionRequest)
    ensures
        action_plan(request) is Ok && destructive(request.action@) ==> typed_confirmation(request) is Ok,
{
    reveal_strlit("create_stack");
    lemma_not_destructive("create_stack"@);
    reveal_strlit("refresh_stack");
    lemma_not_destructive("refresh_stack"@);
    reveal_strlit("view_stack_events");
    lemma_not_destructive("view_stack_events"@);
}

/// The operations the CloudFormation page lists as unavailable.
pub open spec fn unsupported_operations() -> Seq<Seq<char>> {
    seq!["create_change_set"@, "execute_change_set"@, "delete_change_set"@, "update_stack"@]
}

/// The name under which the service's inventory page is shown.
pub open spec fn label() -> Seq<char> {
    "CloudFormation"@
}

/// How far this adapter supports the service: it manages its resources.
pub open spec fn support_level() -> ServiceSupportLevel {
    ServiceSupportLevel::Managed
}

/// The CloudFormation inventory page: the listed `resources` under the CloudFormation tabs, refreshed
/// at `refreshed_at`.
pub fn inventory(
    resources: Vec<ResourceSummary>,
    refreshed_at: String,
) -> (inv: ServiceInventory)
    ensures
        inv@ == (InventoryView {
            service_key: "cloudformation"@,
            service_label: label(),
            support_level: support_level(),
            refreshed_at: refreshed_at@,
            tabs: inventory_tabs(),
            resources: summary_views(resources@),
            unsupported_operations: unsupported_operations(),
        }),
{
    let mut ops: Vec<String> = Vec::new();
    ops.push(String::from_str("create_change_set"));
    ops.push(String::from_str("execute_change_set"));
    ops.push(String::from_str("delete_change_set"));
    ops.push(String::from_str("update_stack"));
    proof {
        assert(ops.deep_view() =~= unsupported_operations());
    }
    build_inventory(
        "cloudformation",
        "CloudFormation",
        ServiceSupportLevel::Managed,
        refreshed_at,
        tabs(),
        resources,
        ops,
    )
}

} // verus!
