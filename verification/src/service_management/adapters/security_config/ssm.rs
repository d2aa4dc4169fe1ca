//! SSM.
use vstd::prelude::*;
use vstd::string::*;

use crate::service_management::actions::typed_confirmation;
use crate::service_management::adapters::payload::{require_resource_id, selected_resource};
use crate::service_management::adapters::{
    action_result, build_inventory, call_of, destructive, lemma_not_destructive, no_attributes,
    planned_call, planned_outcome, put_attr, put_text, result_view, shows, summary, text_or,
    text_or_default, then_text, unsupported_action, unsupported_action_error, with_attr, CallReply,
    CallView, Planned, PlannedView,
};
use crate::service_management::errors::{ErrorView, ServiceManagementError};
use crate::service_management::models::{
    single_kind_tab, summary_views, tab, tab_views, ActionResult, ActionResultView, InventoryView,
    ResourceSummary, ResourceTab, ServiceActionRequest, ServiceInventory, ServiceSupportLevel,
    TabView,
};
use crate::text::{concat2, decimal, digits_of, int_text, nat_text, text_eq};
use crate::service_management::adapters::security_config::{
    hidden_value_note, redacted_value_marker,
};

verus! {

/// The tabs of the SSM inventory page.
pub open spec fn inventory_tabs() -> Seq<TabView> {
    seq![
        single_kind_tab("parameters"@, "Parameters"@, "parameter"@, "No SSM parameters were found."@),
        single_kind_tab("documents"@, "Documents"@, "document"@, "No SSM documents were found."@),
        single_kind_tab("commands"@, "Command Invocations"@, "command"@, "No SSM command invocations were found."@),
        single_kind_tab("managed-instances"@, "Managed Instances"@, "managed-instance"@, "No SSM managed instances were found."@),
    ]
}

/// The tabs of the SSM inventory page.
pub fn tabs() -> (t: Vec<ResourceTab>)
    ensures
        tab_views(t@) == inventory_tabs(),
{
    let mut t: Vec<ResourceTab> = Vec::new();
    t.push(tab("parameters", "Parameters", "parameter", "No SSM parameters were found."));
    t.push(tab("documents", "Documents", "document", "No SSM documents were found."));
    t.push(tab("commands", "Command Invocations", "command", "No SSM command invocations were found."));
    t.push(tab("managed-instances", "Managed Instances", "managed-instance", "No SSM managed instances were found."));
    assert(tab_views(t@) =~= inventory_tabs());
    t
}

/// The note shown in place of a parameter value that is not a secure string.
pub open spec fn fetch_only_note() -> Seq<char> {
    "Hidden by default; fetch through explicit action only."@
}

/// The attributes listed for a parameter. Its value is never shown: a secure
/// string gets the redaction note, any other parameter the fetch-only note.
pub open spec fn parameter_attributes(
    arn: Option<Seq<char>>,
    parameter_type: Seq<char>,
    key_id: Option<Seq<char>>,
    description: Option<Seq<char>>,
    version: i64,
    tier: Option<Seq<char>>,
    data_type: Option<Seq<char>>,
) -> Map<Seq<char>, Seq<char>> {
    let m = with_attr(Map::empty(), "arn"@, arn);
    let m = m.insert("type"@, parameter_type);
    let m = with_attr(m, "key_id"@, key_id);
    let m = with_attr(m, "description"@, description);
    let m = m.insert("version"@, decimal(version as int));
    let m = with_attr(m, "tier"@, tier);
    let m = with_attr(m, "data_type"@, data_type);
    m.insert(
        "value"@,
        if parameter_type == "SecureString"@ {
            hidden_value_note()
        } else {
            fetch_only_note()
        },
    )
}

/// The resource listed for a parameter: its status is its type (`Unknown`
/// when none is reported).
pub fn parameter_summary(
    name: &str,
    parameter_type: Option<String>,
    updated_at: Option<String>,
    arn: Option<String>,
    key_id: Option<String>,
    description: Option<String>,
    version: i64,
    tier: Option<String>,
    data_type: Option<String>,
) -> (r: ResourceSummary)
    ensures
        r.wf(),
        shows(
            r@,
            "parameter/"@ + name@,
            name@,
            "parameter"@,
            text_or(parameter_type.deep_view(), "Unknown"@),
            None,
            updated_at.deep_view(),
            parameter_attributes(
                arn.deep_view(),
                text_or(parameter_type.deep_view(), "Unknown"@),
                key_id.deep_view(),
                description.deep_view(),
                version,
                tier.deep_view(),
                data_type.deep_view(),
            ),
        ),
{
    let kind = text_or_default(parameter_type, "Unknown");
    let secure = text_eq(kind.as_str(), "SecureString");
    let mut attributes = no_attributes();
    put_attr(&mut attributes, "arn", arn);
    put_text(&mut attributes, "type", kind.clone());
    put_attr(&mut attributes, "key_id", key_id);
    put_attr(&mut attributes, "description", description);
    put_text(&mut attributes, "version", int_text(version));
    put_attr(&mut attributes, "tier", tier);
    put_attr(&mut attributes, "data_type", data_type);
    let value = if secure {
        redacted_value_marker()
    } else {
        String::from_str("Hidden by default; fetch through explicit action only.")
    };
    put_text(&mut attributes, "value", value);
    summary(concat2("parameter/", name), String::from_str(name), "parameter", kind, None, updated_at, attributes)
}

/// The attributes listed by [`document_summary`].
pub open spec fn document_attributes(
    owner: Option<Seq<char>>,
    document_type: Option<Seq<char>>,
    document_format: Option<Seq<char>>,
    schema_version: Option<Seq<char>>,
    document_version: Option<Seq<char>>,
    target_type: Option<Seq<char>>,
) -> Map<Seq<char>, Seq<char>> {
    let m = Map::<Seq<char>, Seq<char>>::empty();
    let m = with_attr(m, "owner"@, owner);
    let m = with_attr(m, "document_type"@, document_type);
    let m = with_attr(m, "document_format"@, document_format);
    let m = with_attr(m, "schema_version"@, schema_version);
    let m = with_attr(m, "document_version"@, document_version);
    with_attr(m, "target_type"@, target_type)
}

/// The resource listed for a document, named by its display name or else its
/// name, in its review status (`available` when none).
pub fn document_summary(
    name: &str,
    display_name: Option<String>,
    review_status: Option<String>,
    created_at: Option<String>,
    owner: Option<String>,
    document_type: Option<String>,
    document_format: Option<String>,
    schema_version: Option<String>,
    document_version: Option<String>,
    target_type: Option<String>,
) -> (r: ResourceSummary)
    ensures
        r.wf(),
        shows(
            r@,
            "document/"@ + name@,
            text_or(display_name.deep_view(), name@),
            "document"@,
            text_or(review_status.deep_view(), "available"@),
            created_at.deep_view(),
            None,
            document_attributes(
                owner.deep_view(),
                document_type.deep_view(),
                document_format.deep_view(),
                schema_version.deep_view(),
                document_version.deep_view(),
                target_type.deep_view(),
            ),
        ),
{
    let mut id = String::from_str("document/");
    id.append(name);
    let listed_name = text_or_default(display_name.clone(), name);
    let listed_status = text_or_default(review_status, "available");
    let mut attributes = no_attributes();
    put_attr(&mut attributes, "owner", owner);
    put_attr(&mut attributes, "document_type", document_type);
    put_attr(&mut attributes, "document_format", document_format);
    put_attr(&mut attributes, "schema_version", schema_version);
    put_attr(&mut attributes, "document_version", document_version);
    put_attr(&mut attributes, "target_type", target_type);
    summary(id, listed_name, "document", listed_status, created_at, None, attributes)
}

/// The attributes listed by [`command_invocation_summary`].
pub open spec fn command_invocation_attributes(
    instance_id: Option<Seq<char>>,
    document_name: Option<Seq<char>>,
    status_details: Option<Seq<char>>,
) -> Map<Seq<char>, Seq<char>> {
    let m = Map::<Seq<char>, Seq<char>>::empty();
    let m = m.insert("instance_id"@, text_or(instance_id, "unknown"@));
    let m = m.insert("document_name"@, text_or(document_name, "unknown"@));
    m.insert("status_details"@, text_or(status_details, "unknown"@))
}

/// The resource listed for the invocation of a command on an instance
/// (`unknown` when none is named), in its status (`unknown` when none).
pub fn command_invocation_summary(
    command_id: &str,
    instance_id: Option<String>,
    status: Option<String>,
    requested_at: Option<String>,
    document_name: Option<String>,
    status_details: Option<String>,
) -> (r: ResourceSummary)
    ensures
        r.wf(),
        shows(
            r@,
            "command/"@ + command_id@ + "/"@ + text_or(instance_id.deep_view(), "unknown"@),
            command_id@,
            "command"@,
            text_or(status.deep_view(), "unknown"@),
            requested_at.deep_view(),
            None,
            command_invocation_attributes(
                instance_id.deep_view(),
                document_name.deep_view(),
                status_details.deep_view(),
            ),
        ),
{
    let mut id = String::from_str("command/");
    id.append(command_id);
    id.append("/");
    let piece = text_or_default(instance_id.clone(), "unknown");
    id.append(piece.as_str());
    let listed_name = String::from_str(command_id);
    let listed_status = text_or_default(status, "unknown");
    let mut attributes = no_attributes();
    put_text(&mut attributes, "instance_id", text_or_default(instance_id.clone(), "unknown"));
    put_text(&mut attributes, "document_name", text_or_default(document_name, "unknown"));
    put_text(&mut attributes, "status_details", text_or_default(status_details, "unknown"));
    summary(id, listed_name, "command", listed_status, requested_at, None, attributes)
}

/// The attributes listed by [`managed_instance_summary`].
pub open spec fn managed_instance_attributes(
    agent_version: Option<Seq<char>>,
    platform_name: Option<Seq<char>>,
    platform_version: Option<Seq<char>>,
    platform_type: Option<Seq<char>>,
    iam_role: Option<Seq<char>>,
) -> Map<Seq<char>, Seq<char>> {
    let m = Map::<Seq<char>, Seq<char>>::empty();
    let m = with_attr(m, "agent_version"@, agent_version);
    let m = with_attr(m, "platform_name"@, platform_name);
    let m = with_attr(m, "platform_version"@, platform_version);
    let m = with_attr(m, "platform_type"@, platform_type);
    with_attr(m, "iam_role"@, iam_role)
}

/// The resource listed for a managed instance, named by its name or else its
/// id, in its ping status (`unknown` when none).
pub fn managed_instance_summary(
    instance_id: &str,
    name: Option<String>,
    ping_status: Option<String>,
    registered_at: Option<String>,
    last_ping_at: Option<String>,
    agent_version: Option<String>,
    platform_name: Option<String>,
    platform_version: Option<String>,
    platform_type: Option<String>,
    iam_role: Option<String>,
) -> (r: ResourceSummary)
    ensures
        r.wf(),
        shows(
            r@,
            "managed-instance/"@ + instance_id@,
            text_or(name.deep_view(), instance_id@),
            "managed-instance"@,
            text_or(ping_status.deep_view(), "unknown"@),
            registered_at.deep_view(),
            last_ping_at.deep_view(),
            managed_instance_attributes(
                agent_version.deep_view(),
                platform_name.deep_view(),
                platform_version.deep_view(),
                platform_type.deep_view(),
                iam_role.deep_view(),
            ),
        ),
{
    let mut id = String::from_str("managed-instance/");
    id.append(instance_id);
    let listed_name = text_or_default(name.clone(), instance_id);
    let listed_status = text_or_default(ping_status, "unknown");
    let mut attributes = no_attributes();
    put_attr(&mut attributes, "agent_version", agent_version);
    put_attr(&mut attributes, "platform_name", platform_name);
    put_attr(&mut attributes, "platform_version", platform_version);
    put_attr(&mut attributes, "platform_type", platform_type);
    put_attr(&mut attributes, "iam_role", iam_role);
    summary(id, listed_name, "managed-instance", listed_status, registered_at, last_ping_at, attributes)
}

/// A call to Systems Manager, with its validated inputs.
#[derive(Debug, Clone)]
pub enum Call {
    RevealParameterValue { parameter_name: String },
}

impl View for Call {
    type V = CallView;

    open spec fn view(&self) -> CallView {
        match self {
            Call::RevealParameterValue { parameter_name } => call_of(
                "reveal_parameter_value"@,
                seq![parameter_name@],
                seq![],
            ),
        }
    }
}

/// What an action request on Systems Manager asks for.
pub open spec fn action_plan(request: ServiceActionRequest) -> Result<PlannedView, ErrorView> {
    let a = request.action@;
    if a == "reveal_parameter_value"@ {
        then_text(
            selected_resource(request, "parameter/"@),
            |parameter_name: Seq<char>|
                planned_call(a, seq![parameter_name], seq![]),
        )
    } else {
        Err(unsupported_action_error(request))
    }
}

/// Validates an action request on Systems Manager and decides what to do.
pub fn plan_action(request: &ServiceActionRequest) -> (r: Result<Planned<Call>, ServiceManagementError>)
    requires
        request.payload.wf(),
    ensures
        planned_outcome(r) == action_plan(*request),
        r matches Ok(Planned::Call(Call::RevealParameterValue { parameter_name })) ==> {
            &&& request.action@ == "reveal_parameter_value"@
            &&& selected_resource(*request, "parameter/"@) == Ok::<Seq<char>, ErrorView>(parameter_name@)
        },
{
    let action = request.action.as_str();
    if text_eq(action, "reveal_parameter_value") {
        let parameter_name = require_resource_id(request, "parameter/")?;
        Ok(Planned::Call(Call::RevealParameterValue { parameter_name }))
    } else {
        Err(unsupported_action(request))
    }
}

/// The result of `call` once it succeeded with `reply`.
pub open spec fn result_of(call: Call, reply: CallReply) -> ActionResultView {
    match call {
        Call::RevealParameterValue { parameter_name } => result_view(
            false,
            "SSM parameter value was fetched for `"@ + parameter_name@ + "` and immediately cleared from the UI action state. Type: "@ + text_or(reply.detail.deep_view(), "Unknown"@) + "; length: "@ + digits_of(reply.count as nat) + " bytes. The value is not stored in inventory, logs, or screenshots."@,
            Some("parameter/"@ + parameter_name@),
        ),
    }
}

/// The result reported once `call` succeeded with `reply`.
pub fn completed(call: &Call, reply: &CallReply) -> (r: ActionResult)
    ensures
        r@ == result_of(*call, *reply),
{
    match call {
        Call::RevealParameterValue { parameter_name } => {
            let t1 = match &reply.detail {
                Some(v) => v.clone(),
                None => {
                    let t2 = String::from_str("Unknown");
                    t2
                },
            };
            let t3 = nat_text(reply.count as u64);
            let mut message = String::from_str("SSM parameter value was fetched for `");
            message.append(parameter_name.as_str());
            message.append("` and immediately cleared from the UI action state. Type: ");
            message.append(t1.as_str());
            message.append("; length: ");
            message.append(t3.as_str());
            message.append(" bytes. The value is not stored in inventory, logs, or screenshots.");
            let mut id = String::from_str("parameter/");
            id.append(parameter_name.as_str());
            action_result(false, message, Some(id))
        },
    }
}

/// Every call planned for an action request performs the requested action.
pub proof fn lemma_plan_performs_requested_action(request: ServiceActionRequest)
    ensures
        action_plan(request) matches Ok(PlannedView::Call(c)) ==> c.name == request.action@,
{
}

/// A destructive action is only planned once the typed confirmation matches.
pub proof fn lemma_destructive_actions_are_confirmed(request: ServiceActionRequest)
    ensures
        action_plan(request) is Ok && destructive(request.action@) ==> typed_confirmation(request) is Ok,
{
    reveal_strlit("reveal_parameter_value");
    lemma_not_destructive("reveal_parameter_value"@);
}

/// The operations the SSM page lists as unavailable.
pub open spec fn unsupported_operations() -> Seq<Seq<char>> {
    seq!["put_parameter"@, "delete_parameter"@, "send_command"@]
}

/// The name under which the service's inventory page is shown.
pub open spec fn label() -> Seq<char> {
    "SSM"@
}

/// How far this adapter supports the service: it manages its resources.
pub open spec fn support_level() -> ServiceSupportLevel {
    ServiceSupportLevel::Managed
}

/// The SSM inventory page: the listed `resources` under the SSM tabs, refreshed
/// at `refreshed_at`.
pub fn inventory(
    resources: Vec<ResourceSummary>,
    refreshed_at: String,
) -> (inv: ServiceInventory)
    ensures
        inv@ == (InventoryView {
            service_key: "ssm"@,
            service_label: label(),
            support_level: support_level(),
            refreshed_at: refreshed_at@,
            tabs: inventory_tabs(),
            resources: summary_views(resources@),
            unsupported_operations: unsupported_operations(),
        }),
{
    let mut ops: Vec<String> = Vec::new();
    ops.push(String::from_str("put_parameter"));
    ops.push(String::from_str("delete_parameter"));
    ops.push(String::from_str("send_command"));
    proof {
        assert(ops.deep_view() =~= unsupported_operations());
    }
    build_inventory(
        "ssm",
        "SSM",
        ServiceSupportLevel::Managed,
        refreshed_at,
        tabs(),
        resources,
        ops,
    )
}

} // verus!
