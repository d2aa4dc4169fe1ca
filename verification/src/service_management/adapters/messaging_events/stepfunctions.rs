//! Step Functions.
use vstd::prelude::*;
use vstd::string::*;

use crate::service_management::actions::{
    require_name_payload, require_typed_confirmation, required_text, typed_confirmation,
};
use crate::service_management::adapters::payload::{
    optional_payload_text, optional_payload_text_or, optional_text, require_json_payload_text,
    require_resource_id, required_json, resource_name_from_arn, selected_resource,
};
use crate::service_management::adapters::{
    action_result, build_inventory, call_of, destructive, lemma_not_destructive, no_attributes,
    planned_call, planned_done, planned_outcome, put_text, reply_text_or, result_view, shows,
    summary, text_or, text_or_default, text_or_empty, then_text, unsupported_action,
    unsupported_action_error, CallReply, CallView, Planned, PlannedView,
};
use crate::service_management::errors::{ErrorView, ServiceManagementError};
use crate::service_management::models::{
    single_kind_tab, summary_views, tab, tab_views, ActionResult, ActionResultView, InventoryView,
    ResourceSummary, ResourceTab, ServiceActionRequest, ServiceInventory, ServiceSupportLevel,
    TabView,
};
use crate::text::{last_segment, text_eq};

verus! {

/// The definition of a state machine created without one: a single pass state.
pub const DEFAULT_STATE_MACHINE_DEFINITION: &'static str = "{\n  \"Comment\": \"Floci UI local placeholder\",\n  \"StartAt\": \"Pass\",\n  \"States\": {\n    \"Pass\": {\n      \"Type\": \"Pass\",\n      \"End\": true\n    }\n  }\n}";

/// The role of a state machine created without one.
pub const DEFAULT_STATE_MACHINE_ROLE_ARN: &'static str = "arn:aws:iam::000000000000:role/floci-stepfunctions-local";

/// The tabs of the Step Functions inventory page.
pub open spec fn inventory_tabs() -> Seq<TabView> {
    seq![
        single_kind_tab("state-machines"@, "State Machines"@, "state-machine"@, "No Step Functions state machines were found."@),
        single_kind_tab("executions"@, "Executions"@, "execution"@, "No Step Functions executions are loaded."@),
        single_kind_tab("activities"@, "Activities"@, "activity"@, "No Step Functions activities are loaded."@),
        single_kind_tab("definitions"@, "Definitions"@, "definition"@, "No Step Functions definitions are loaded."@),
        single_kind_tab("aliases"@, "Aliases"@, "alias"@, "No Step Functions aliases are loaded."@),
    ]
}

/// The tabs of the Step Functions inventory page.
pub fn tabs() -> (t: Vec<ResourceTab>)
    ensures
        tab_views(t@) == inventory_tabs(),
{
    let mut t: Vec<ResourceTab> = Vec::new();
    t.push(tab("state-machines", "State Machines", "state-machine", "No Step Functions state machines were found."));
    t.push(tab("executions", "Executions", "execution", "No Step Functions executions are loaded."));
    t.push(tab("activities", "Activities", "activity", "No Step Functions activities are loaded."));
    t.push(tab("definitions", "Definitions", "definition", "No Step Functions definitions are loaded."));
    t.push(tab("aliases", "Aliases", "alias", "No Step Functions aliases are loaded."));
    assert(tab_views(t@) =~= inventory_tabs());
    t
}

/// The attributes listed by [`state_machine_summary`].
pub open spec fn state_machine_attributes(
    arn: Seq<char>,
    state_machine_type: Seq<char>,
) -> Map<Seq<char>, Seq<char>> {
    let m = Map::<Seq<char>, Seq<char>>::empty();
    let m = m.insert("state_machine_arn"@, arn);
    m.insert("state_machine_type"@, state_machine_type)
}

/// The resource listed for a state machine.
pub fn state_machine_summary(
    arn: &str,
    name: &str,
    state_machine_type: &str,
    created_at: Option<String>,
) -> (r: ResourceSummary)
    ensures
        r.wf(),
        shows(
            r@,
            "state-machine/"@ + arn@,
            name@,
            "state-machine"@,
            "available"@,
            created_at.deep_view(),
            None,
            state_machine_attributes(arn@, state_machine_type@),
        ),
{
    let mut id = String::from_str("state-machine/");
    id.append(arn);
    let listed_name = String::from_str(name);
    let listed_status = String::from_str("available");
    let mut attributes = no_attributes();
    put_text(&mut attributes, "state_machine_arn", String::from_str(arn));
    put_text(&mut attributes, "state_machine_type", String::from_str(state_machine_type));
    summary(id, listed_name, "state-machine", listed_status, created_at, None, attributes)
}

/// The attributes listed by [`definition_summary`].
pub open spec fn definition_attributes(
    arn: Seq<char>,
    role_arn: Seq<char>,
    definition: Seq<char>,
) -> Map<Seq<char>, Seq<char>> {
    let m = Map::<Seq<char>, Seq<char>>::empty();
    let m = m.insert("state_machine_arn"@, arn);
    let m = m.insert("role_arn"@, role_arn);
    m.insert("definition"@, definition)
}

/// The resource listed for the definition of a state machine, named
/// `<name> definition`, in its status (`available` when none).
pub fn definition_summary(
    arn: &str,
    name: &str,
    status: Option<String>,
    created_at: Option<String>,
    role_arn: &str,
    definition: &str,
) -> (r: ResourceSummary)
    ensures
        r.wf(),
        shows(
            r@,
            "definition/"@ + arn@,
            name@ + " definition"@,
            "definition"@,
            text_or(status.deep_view(), "available"@),
            created_at.deep_view(),
            None,
            definition_attributes(arn@, role_arn@, definition@),
        ),
{
    let mut id = String::from_str("definition/");
    id.append(arn);
    let mut listed_name = String::from_str(name);
    listed_name.append(" definition");
    let listed_status = text_or_default(status, "available");
    let mut attributes = no_attributes();
    put_text(&mut attributes, "state_machine_arn", String::from_str(arn));
    put_text(&mut attributes, "role_arn", String::from_str(role_arn));
    put_text(&mut attributes, "definition", String::from_str(definition));
    summary(id, listed_name, "definition", listed_status, created_at, None, attributes)
}

/// The attributes listed by [`state_machine_alias_summary`].
pub open spec fn state_machine_alias_attributes(
    arn: Seq<char>,
    alias_arn: Seq<char>,
) -> Map<Seq<char>, Seq<char>> {
    let m = Map::<Seq<char>, Seq<char>>::empty();
    let m = m.insert("state_machine_arn"@, arn);
    m.insert("alias_arn"@, alias_arn)
}

/// The resource listed for an alias of a state machine, named by the last
/// segment of its ARN.
pub fn state_machine_alias_summary(
    arn: &str,
    alias_arn: &str,
    created_at: Option<String>,
) -> (r: ResourceSummary)
    ensures
        r.wf(),
        shows(
            r@,
            "alias/"@ + alias_arn@,
            last_segment(alias_arn@, ":/"@),
            "alias"@,
            "available"@,
            created_at.deep_view(),
            None,
            state_machine_alias_attributes(arn@, alias_arn@),
        ),
{
    let mut id = String::from_str("alias/");
    id.append(alias_arn);
    let listed_name = resource_name_from_arn(alias_arn);
    let listed_status = String::from_str("available");
    let mut attributes = no_attributes();
    put_text(&mut attributes, "state_machine_arn", String::from_str(arn));
    put_text(&mut attributes, "alias_arn", String::from_str(alias_arn));
    summary(id, listed_name, "alias", listed_status, created_at, None, attributes)
}

/// The attributes listed by [`execution_summary`].
pub open spec fn execution_attributes(
    execution_arn: Seq<char>,
    arn: Seq<char>,
) -> Map<Seq<char>, Seq<char>> {
    let m = Map::<Seq<char>, Seq<char>>::empty();
    let m = m.insert("execution_arn"@, execution_arn);
    m.insert("state_machine_arn"@, arn)
}

/// The resource listed for an execution of a state machine.
pub fn execution_summary(
    arn: &str,
    execution_arn: &str,
    name: &str,
    status: &str,
    started_at: Option<String>,
    stopped_at: Option<String>,
) -> (r: ResourceSummary)
    ensures
        r.wf(),
        shows(
            r@,
            "execution/"@ + execution_arn@,
            name@,
            "execution"@,
            status@,
            started_at.deep_view(),
            stopped_at.deep_view(),
            execution_attributes(execution_arn@, arn@),
        ),
{
    let mut id = String::from_str("execution/");
    id.append(execution_arn);
    let listed_name = String::from_str(name);
    let listed_status = String::from_str(status);
    let mut attributes = no_attributes();
    put_text(&mut attributes, "execution_arn", String::from_str(execution_arn));
    put_text(&mut attributes, "state_machine_arn", String::from_str(arn));
    summary(id, listed_name, "execution", listed_status, started_at, stopped_at, attributes)
}

/// The attributes listed by [`activity_summary`].
pub open spec fn activity_attributes(activity_arn: Seq<char>) -> Map<Seq<char>, Seq<char>> {
    let m = Map::<Seq<char>, Seq<char>>::empty();
    m.insert("activity_arn"@, activity_arn)
}

/// The resource listed for an activity.
pub fn activity_summary(
    activity_arn: &str,
    name: &str,
    created_at: Option<String>,
) -> (r: ResourceSummary)
    ensures
        r.wf(),
        shows(
            r@,
            "activity/"@ + activity_arn@,
            name@,
            "activity"@,
            "available"@,
            created_at.deep_view(),
            None,
            activity_attributes(activity_arn@),
        ),
{
    let mut id = String::from_str("activity/");
    id.append(activity_arn);
    let listed_name = String::from_str(name);
    let listed_status = String::from_str("available");
    let mut attributes = no_attributes();
    put_text(&mut attributes, "activity_arn", String::from_str(activity_arn));
    summary(id, listed_name, "activity", listed_status, created_at, None, attributes)
}

/// A call to Step Functions, with its validated inputs.
#[derive(Debug, Clone)]
pub enum Call {
    CreateStateMachine { state_machine_name: String, role_arn: String, definition: String },
    StartExecution { arn: String, input: String, execution_name: Option<String> },
    StopExecution { execution_name: String, execution_arn: String },
    DeleteStateMachine { state_machine_name: String, arn: String },
}

impl View for Call {
    type V = CallView;

    open spec fn view(&self) -> CallView {
        match self {
            Call::CreateStateMachine { state_machine_name, role_arn, definition } => call_of(
                "create_state_machine"@,
                seq![state_machine_name@, role_arn@, definition@],
                seq![],
            ),
            Call::StartExecution { arn, input, execution_name } => call_of(
                "start_execution"@,
                seq![arn@, input@, text_or_empty(execution_name.deep_view())],
                seq![],
            ),
            Call::StopExecution { execution_name, execution_arn } => call_of(
                "stop_execution"@,
                seq![execution_name@, execution_arn@],
                seq![],
            ),
            Call::DeleteStateMachine { state_machine_name, arn } => call_of(
                "delete_state_machine"@,
                seq![state_machine_name@, arn@],
                seq![],
            ),
        }
    }
}

/// What an action request on Step Functions asks for.
pub open spec fn action_plan(request: ServiceActionRequest) -> Result<PlannedView, ErrorView> {
    let a = request.action@;
    if a == "create_state_machine"@ {
        then_text(
            required_text(request, "state_machine_name"@),
            |state_machine_name: Seq<char>|
                {
                    let role_arn = text_or(optional_text(request, "role_arn"@), DEFAULT_STATE_MACHINE_ROLE_ARN@);
                    {
                        let definition = text_or(optional_text(request, "definition"@), DEFAULT_STATE_MACHINE_DEFINITION@);
                        planned_call(a, seq![state_machine_name, role_arn, definition], seq![])
                    }
                },
        )
    } else if a == "start_execution"@ {
        then_text(
            selected_resource(request, "state-machine/"@),
            |arn: Seq<char>|
                then_text(
                    required_json(request, "input"@, "{}"@),
                    |input: Seq<char>|
                        {
                            let execution_name = optional_text(request, "execution_name"@);
                            planned_call(a, seq![arn, input, text_or_empty(execution_name)], seq![])
                        },
                ),
        )
    } else if a == "stop_execution"@ {
        then_text(
            typed_confirmation(request),
            |execution_name: Seq<char>|
                then_text(
                    selected_resource(request, "execution/"@),
                    |execution_arn: Seq<char>|
                        planned_call(a, seq![execution_name, execution_arn], seq![]),
                ),
        )
    } else if a == "delete_state_machine"@ {
        then_text(
            typed_confirmation(request),
            |state_machine_name: Seq<char>|
                then_text(
                    selected_resource(request, "state-machine/"@),
                    |arn: Seq<char>|
                        planned_call(a, seq![state_machine_name, arn], seq![]),
                ),
        )
    } else if a == "refresh_state_machine"@ {
        then_text(
            selected_resource(request, "state-machine/"@),
            |arn: Seq<char>|
                planned_done(false, "State machine `"@ + last_segment(arn, ":/"@) + "` refresh completed."@, Some("state-machine/"@ + arn)),
        )
    } else {
        Err(unsupported_action_error(request))
    }
}

/// Validates an action request on Step Functions and decides what to do.
pub fn plan_action(request: &ServiceActionRequest) -> (r: Result<Planned<Call>, ServiceManagementError>)
    requires
        request.payload.wf(),
    ensures
        planned_outcome(r) == action_plan(*request),
        r matches Ok(Planned::Call(Call::CreateStateMachine { state_machine_name, .. })) ==> {
            &&& request.action@ == "create_state_machine"@
            &&& required_text(*request, "state_machine_name"@) == Ok::<Seq<char>, ErrorView>(state_machine_name@)
        },
        r matches Ok(Planned::Call(Call::StartExecution { arn, input, .. })) ==> {
            &&& request.action@ == "start_execution"@
            &&& selected_resource(*request, "state-machine/"@) == Ok::<Seq<char>, ErrorView>(arn@)
            &&& required_json(*request, "input"@, "{}"@) == Ok::<Seq<char>, ErrorView>(input@)
        },
        r matches Ok(Planned::Call(Call::StopExecution { execution_name, execution_arn })) ==> {
            &&& request.action@ == "stop_execution"@
            &&& typed_confirmation(*request) == Ok::<Seq<char>, ErrorView>(execution_name@)
            &&& selected_resource(*request, "execution/"@) == Ok::<Seq<char>, ErrorView>(execution_arn@)
        },
        r matches Ok(Planned::Call(Call::DeleteStateMachine { state_machine_name, arn })) ==> {
            &&& request.action@ == "delete_state_machine"@
            &&& typed_confirmation(*request) == Ok::<Seq<char>, ErrorView>(state_machine_name@)
            &&& selected_resource(*request, "state-machine/"@) == Ok::<Seq<char>, ErrorView>(arn@)
        },
{
    let action = request.action.as_str();
    if text_eq(action, "create_state_machine") {
        let state_machine_name = require_name_payload(request, "state_machine_name")?;
        let role_arn = optional_payload_text_or(request, "role_arn", DEFAULT_STATE_MACHINE_ROLE_ARN);
        let definition = optional_payload_text_or(request, "definition", DEFAULT_STATE_MACHINE_DEFINITION);
        Ok(Planned::Call(Call::CreateStateMachine { state_machine_name, role_arn, definition }))
    } else if text_eq(action, "start_execution") {
        let arn = require_resource_id(request, "state-machine/")?;
        let input = require_json_payload_text(request, "input", "{}")?;
        let execution_name = optional_payload_text(request, "execution_name");
        Ok(Planned::Call(Call::StartExecution { arn, input, execution_name }))
    } else if text_eq(action, "stop_execution") {
        let execution_name = require_typed_confirmation(request)?;
        let execution_arn = require_resource_id(request, "execution/")?;
        Ok(Planned::Call(Call::StopExecution { execution_name, execution_arn }))
    } else if text_eq(action, "delete_state_machine") {
        let state_machine_name = require_typed_confirmation(request)?;
        let arn = require_resource_id(request, "state-machine/")?;
        Ok(Planned::Call(Call::DeleteStateMachine { state_machine_name, arn }))
    } else if text_eq(action, "refresh_state_machine") {
        let arn = require_resource_id(request, "state-machine/")?;
        let t1 = resource_name_from_arn(arn.as_str());
        let mut message = String::from_str("State machine `");
        message.append(t1.as_str());
        message.append("` refresh completed.");
        let mut id = String::from_str("state-machine/");
        id.append(arn.as_str());
        Ok(Planned::Done(action_result(false, message, Some(id))))
    } else {
        Err(unsupported_action(request))
    }
}

/// The result of `call` once it succeeded with `reply`.
pub open spec fn result_of(call: Call, reply: CallReply) -> ActionResultView {
    match call {
        Call::CreateStateMachine { state_machine_name, .. } => result_view(
            true,
            "Created Step Functions state machine `"@ + state_machine_name@ + "`."@,
            Some("state-machine/"@ + text_or(reply.value.deep_view(), ""@)),
        ),
        Call::StartExecution { .. } => result_view(
            true,
            "Started Step Functions execution `"@ + last_segment(text_or(reply.value.deep_view(), ""@), ":/"@) + "`."@,
            Some("execution/"@ + text_or(reply.value.deep_view(), ""@)),
        ),
        Call::StopExecution { execution_name, execution_arn } => result_view(
            true,
            "Stopped Step Functions execution `"@ + execution_name@ + "`."@,
            Some("execution/"@ + execution_arn@),
        ),
        Call::DeleteStateMachine { state_machine_name, arn } => result_view(
            true,
            "Deleted Step Functions state machine `"@ + state_machine_name@ + "`."@,
            Some("state-machine/"@ + arn@),
        ),
    }
}

/// The result reported once `call` succeeded with `reply`.
pub fn completed(call: &Call, reply: &CallReply) -> (r: ActionResult)
    ensures
        r@ == result_of(*call, *reply),
{
    match call {
        Call::CreateStateMachine { state_machine_name, .. } => {
            let mut message = String::from_str("Created Step Functions state machine `");
            message.append(state_machine_name.as_str());
            message.append("`.");
            let t1 = match &reply.value {
                Some(v) => v.clone(),
                None => {
                    let t2 = String::from_str("");
                    t2
                },
            };
            let mut id = String::from_str("state-machine/");
            id.append(t1.as_str());
            action_result(true, message, Some(id))
        },
        Call::StartExecution { .. } => {
            let t1 = reply_text_or(reply, "");
            let t2 = resource_name_from_arn(t1.as_str());
            let mut message = String::from_str("Started Step Functions execution `");
            message.append(t2.as_str());
            message.append("`.");
            let t3 = match &reply.value {
                Some(v) => v.clone(),
                None => {
                    let t4 = String::from_str("");
                    t4
                },
            };
            let mut id = String::from_str("execution/");
            id.append(t3.as_str());
            action_result(true, message, Some(id))
        },
        Call::StopExecution { execution_name, execution_arn } => {
            let mut message = String::from_str("Stopped Step Functions execution `");
            message.append(execution_name.as_str());
            message.append("`.");
            let mut id = String::from_str("execution/");
            id.append(execution_arn.as_str());
            action_result(true, message, Some(id))
        },
        Call::DeleteStateMachine { state_machine_name, arn } => {
            let mut message = String::from_str("Deleted Step Functions state machine `");
            message.append(state_machine_name.as_str());
            message.append("`.");
            let mut id = String::from_str("state-machine/");
            id.append(arn.as_str());
            action_result(true, message, Some(id))
        },
    }
}

/// Every call planned for an action request performs the requested action.
pub proof fn lemma_plan_performs_requested_action(request: ServiceActionRequest)
    ensures
        action_plan(request) matches Ok(PlannedView::Call(c)) ==> c.name == request.action@,
{
}

/// A destructive action is only planned once the typed confirmation matches.
pub proof fn lemma_destructive_actions_are_confirmed(request: ServiceActionRequest)
    ensures
        action_plan(request) is Ok && destructive(request.action@) ==> typed_confirmation(request) is Ok,
{
    reveal_strlit("create_state_machine");
    lemma_not_destructive("create_state_machine"@);
    reveal_strlit("start_execution");
    lemma_not_destructive("start_execution"@);
    reveal_strlit("refresh_state_machine");
    lemma_not_destructive("refresh_state_machine"@);
}

/// The operations the Step Functions page lists as unavailable.
pub open spec fn unsupported_operations() -> Seq<Seq<char>> {
    seq!["delete_activity"@]
}

/// The name under which the service's inventory page is shown.
pub open spec fn label() -> Seq<char> {
    "Step Functions"@
}

/// How far this adapter supports the service: it manages its resources.
pub open spec fn support_level() -> ServiceSupportLevel {
    ServiceSupportLevel::Managed
}

/// The Step Functions inventory page: the listed `resources` under the Step Functions tabs, refreshed
/// at `refreshed_at`.
pub fn inventory(
    resources: Vec<ResourceSummary>,
    refreshed_at: String,
) -> (inv: ServiceInventory)
    ensures
        inv@ == (InventoryView {
            service_key: "stepfunctions"@,
            service_label: label(),
            support_level: support_level(),
            refreshed_at: refreshed_at@,
            tabs: inventory_tabs(),
            resources: summary_views(resources@),
            unsupported_operations: unsupported_operations(),
        }),
{
    let mut ops: Vec<String> = Vec::new();
    ops.push(String::from_str("delete_activity"));
    proof {
        assert(ops.deep_view() =~= unsupported_operations());
    }
    build_inventory(
        "stepfunctions",
        "Step Functions",
        ServiceSupportLevel::Managed,
        refreshed_at,
        tabs(),
        resources,
        ops,
    )
}

} // verus!
