//! Transfer Family.
use vstd::prelude::*;
use vstd::string::*;

use crate::service_management::actions::{
    require_name_payload, require_typed_confirmation, required_text, typed_confirmation,
};
use crate::service_management::adapters::payload::{
    optional_payload_text, optional_payload_text_or, optional_text, require_payload_text,
    require_resource_id, selected_resource,
};
use crate::service_management::adapters::{
    action_result, build_inventory, call_of, destructive, lemma_not_destructive, planned_call,
    planned_outcome, put_attr, result_view, shows, summary, text_or, text_or_empty, texts_of,
    then_text, unsupported_action, unsupported_action_error, with_attr, CallReply, CallView,
    Planned, PlannedView,
};
use crate::service_management::errors::{ErrorView, ServiceManagementError};
use crate::service_management::models::{
    single_kind_tab, summary_views, tab, tab_views, ActionResult, ActionResultView, InventoryView,
    ResourceSummary, ResourceTab, ServiceActionRequest, ServiceInventory, ServiceSupportLevel,
    TabView,
};
use crate::service_management::text_map::TextMap;
use crate::text::{concat2, concat4, text_eq, upper_text, upper_text_exec};
use crate::service_management::adapters::payload::pair_outcome;
use crate::service_management::errors::invalid_input_error;
use crate::text::{head_piece, split_head, tail_piece};
use crate::service_management::adapters::network_observability::{
    redacted_note, redacted_value_marker,
};
use crate::text::{has_char, lemma_split_once_after};

verus! {

/// The tabs of the Transfer Family inventory page.
pub open spec fn inventory_tabs() -> Seq<TabView> {
    seq![
        single_kind_tab("servers"@, "Servers"@, "server"@, "No Transfer Family servers were found in the local emulator."@),
        single_kind_tab("users"@, "Users"@, "user"@, "No Transfer Family users are loaded."@),
        single_kind_tab("workflows"@, "Workflows"@, "workflow"@, "No Transfer Family workflows are loaded."@),
        single_kind_tab("host-keys"@, "Host Keys"@, "host-key"@, "No Transfer Family host keys are loaded."@),
    ]
}

/// The tabs of the Transfer Family inventory page.
pub fn tabs() -> (t: Vec<ResourceTab>)
    ensures
        tab_views(t@) == inventory_tabs(),
{
    let mut t: Vec<ResourceTab> = Vec::new();
    t.push(tab("servers", "Servers", "server", "No Transfer Family servers were found in the local emulator."));
    t.push(tab("users", "Users", "user", "No Transfer Family users are loaded."));
    t.push(tab("workflows", "Workflows", "workflow", "No Transfer Family workflows are loaded."));
    t.push(tab("host-keys", "Host Keys", "host-key", "No Transfer Family host keys are loaded."));
    assert(tab_views(t@) =~= inventory_tabs());
    t
}

/// The server and user named by the selected `user/<server>/<user>` id.
pub open spec fn user_selection(request: ServiceActionRequest) -> Result<(Seq<char>, Seq<char>), ErrorView> {
    match selected_resource(request, "user/"@) {
        Ok(v) => {
            let server_id = head_piece(v, "/"@);
            let user_name = tail_piece(v, "/"@);
            if server_id.len() == 0 || user_name.len() == 0 {
                Err(
                    invalid_input_error(
                        request.service_key@,
                        request.action@,
                        "Select a Transfer user before running this action."@,
                    ),
                )
            } else {
                Ok((server_id, user_name))
            }
        },
        Err(e) => Err(e),
    }
}

/// The server and user name of the selected user.
pub fn selected_user(request: &ServiceActionRequest) -> (r: Result<(String, String), ServiceManagementError>)
    ensures
        pair_outcome(r) == user_selection(*request),
{
    let selected = require_resource_id(request, "user/")?;
    let (server_id, user_name) = split_head(selected.as_str(), "/");
    if server_id.unicode_len() == 0 || user_name.unicode_len() == 0 {
        return Err(
            ServiceManagementError::invalid_input(
                request.service_key.as_str(),
                request.action.as_str(),
                "Select a Transfer user before running this action.",
            ),
        );
    }
    Ok((server_id, user_name))
}

/// The note in place of a hidden detail, when the detail is there.
pub open spec fn redacted_if(present: bool) -> Option<Seq<char>> {
    if present {
        Some(redacted_note())
    } else {
        None
    }
}

fn redacted_marker_if(present: bool) -> (r: Option<String>)
    ensures
        r.deep_view() == redacted_if(present),
{
    if present {
        Some(redacted_value_marker())
    } else {
        None
    }
}

/// The attributes listed for a server.
pub open spec fn server_attributes(
    arn: Seq<char>,
    domain: Option<Seq<char>>,
    endpoint_type: Option<Seq<char>>,
    identity_provider_type: Option<Seq<char>>,
    has_logging_role: bool,
) -> Map<Seq<char>, Seq<char>> {
    let m = with_attr(map!["arn"@ => arn], "domain"@, domain);
    let m = with_attr(m, "endpoint_type"@, endpoint_type);
    let m = with_attr(m, "identity_provider_type"@, identity_provider_type);
    with_attr(m, "logging_role"@, redacted_if(has_logging_role))
}

/// The resource listed for a server, in its state (`available` when it
/// reports none). Its logging role is never shown: when it has one, the
/// attribute only holds the redaction note.
pub fn server_summary(
    server_id: &str,
    arn: &str,
    state: Option<String>,
    domain: Option<String>,
    endpoint_type: Option<String>,
    identity_provider_type: Option<String>,
    has_logging_role: bool,
) -> (r: ResourceSummary)
    ensures
        r.wf(),
        shows(
            r@,
            "server/"@ + server_id@,
            server_id@,
            "server"@,
            text_or(state.deep_view(), "available"@),
            None,
            None,
            server_attributes(
                arn@,
                domain.deep_view(),
                endpoint_type.deep_view(),
                identity_provider_type.deep_view(),
                has_logging_role,
            ),
        ),
{
    let ghost views = (domain.deep_view(), endpoint_type.deep_view(), identity_provider_type.deep_view());
    let status = match state {
        Some(s) => s,
        None => String::from_str("available"),
    };
    let mut attributes: TextMap<String> = TextMap::new();
    attributes.insert(String::from_str("arn"), String::from_str(arn));
    assert(texts_of(attributes@) =~= map!["arn"@ => arn@]);
    put_attr(&mut attributes, "domain", domain);
    put_attr(&mut attributes, "endpoint_type", endpoint_type);
    put_attr(&mut attributes, "identity_provider_type", identity_provider_type);
    put_attr(&mut attributes, "logging_role", redacted_marker_if(has_logging_role));
    assert(texts_of(attributes@) == server_attributes(arn@, views.0, views.1, views.2, has_logging_role));
    summary(concat2("server/", server_id), String::from_str(server_id), "server", status, None, None, attributes)
}

/// The attributes listed for a user of a server.
pub open spec fn user_attributes(
    server_id: Seq<char>,
    arn: Seq<char>,
    has_role: bool,
    has_home_directory: bool,
    home_directory_type: Option<Seq<char>>,
) -> Map<Seq<char>, Seq<char>> {
    let m = map!["server_id"@ => server_id, "arn"@ => arn];
    let m = with_attr(m, "role"@, redacted_if(has_role));
    let m = with_attr(m, "home_directory"@, redacted_if(has_home_directory));
    with_attr(m, "home_directory_type"@, home_directory_type)
}

/// The resource listed for a user of a server; its id is the one an action on
/// it selects again. Its role and home directory are never shown: when it has
/// them, the attributes only hold the redaction note.
pub fn user_summary(
    server_id: &str,
    user_name: &str,
    arn: &str,
    has_role: bool,
    has_home_directory: bool,
    home_directory_type: Option<String>,
) -> (r: ResourceSummary)
    ensures
        r.wf(),
        shows(
            r@,
            "user/"@ + server_id@ + "/"@ + user_name@,
            user_name@,
            "user"@,
            "configured"@,
            None,
            None,
            user_attributes(server_id@, arn@, has_role, has_home_directory, home_directory_type.deep_view()),
        ),
{
    let ghost kind = home_directory_type.deep_view();
    let mut attributes: TextMap<String> = TextMap::new();
    attributes.insert(String::from_str("server_id"), String::from_str(server_id));
    attributes.insert(String::from_str("arn"), String::from_str(arn));
    assert(texts_of(attributes@) =~= map!["server_id"@ => server_id@, "arn"@ => arn@]);
    put_attr(&mut attributes, "role", redacted_marker_if(has_role));
    put_attr(&mut attributes, "home_directory", redacted_marker_if(has_home_directory));
    put_attr(&mut attributes, "home_directory_type", home_directory_type);
    assert(texts_of(attributes@) == user_attributes(server_id@, arn@, has_role, has_home_directory, kind));
    summary(
        concat4("user/", server_id, "/", user_name),
        String::from_str(user_name),
        "user",
        String::from_str("configured"),
        None,
        None,
        attributes,
    )
}

/// A user listed by the inventory is selected again by an action on it, when
/// the server id holds no `/` and neither part is empty.
pub proof fn lemma_listed_user_is_selectable(request: ServiceActionRequest, server_id: Seq<char>, user_name: Seq<char>)
    requires
        request.resource_id matches Some(id) && id@ == "user/"@ + server_id + "/"@ + user_name,
        !has_char(server_id, '/'),
        server_id.len() > 0,
        user_name.len() > 0,
    ensures
        user_selection(request) == Ok::<(Seq<char>, Seq<char>), ErrorView>((server_id, user_name)),
{
    reveal_strlit("user/");
    reveal_strlit("/");
    let id = request.resource_id->Some_0@;
    let body = server_id + "/"@ + user_name;
    assert(id =~= "user/"@ + body);
    assert(id.subrange(0, 5) =~= "user/"@);
    assert(id.subrange(5, id.len() as int) =~= body);
    lemma_split_once_after(server_id, "/"@, user_name);
}

/// The resource listed for a workflow.
pub fn workflow_summary(workflow_id: &str, description: Option<String>, arn: Option<String>) -> (r: ResourceSummary)
    ensures
        r.wf(),
        shows(
            r@,
            "workflow/"@ + workflow_id@,
            workflow_id@,
            "workflow"@,
            "configured"@,
            None,
            None,
            with_attr(with_attr(Map::empty(), "description"@, description.deep_view()), "arn"@, arn.deep_view()),
        ),
{
    let mut attributes: TextMap<String> = TextMap::new();
    assert(texts_of(attributes@) =~= Map::<Seq<char>, Seq<char>>::empty());
    put_attr(&mut attributes, "description", description);
    put_attr(&mut attributes, "arn", arn);
    summary(
        concat2("workflow/", workflow_id),
        String::from_str(workflow_id),
        "workflow",
        String::from_str("configured"),
        None,
        None,
        attributes,
    )
}

/// The resource listed for a host key of a server. Its public key is never
/// shown: the attribute always holds the redaction note.
pub fn host_key_summary(
    server_id: &str,
    host_key_id: &str,
    arn: &str,
    description: Option<String>,
    imported_at: Option<String>,
) -> (r: ResourceSummary)
    ensures
        r.wf(),
        shows(
            r@,
            "host-key/"@ + server_id@ + "/"@ + host_key_id@,
            host_key_id@,
            "host-key"@,
            "imported"@,
            imported_at.deep_view(),
            None,
            with_attr(map!["server_id"@ => server_id@, "arn"@ => arn@], "description"@, description.deep_view()).insert(
                "public_key"@,
                redacted_note(),
            ),
        ),
{
    let mut attributes: TextMap<String> = TextMap::new();
    attributes.insert(String::from_str("server_id"), String::from_str(server_id));
    attributes.insert(String::from_str("arn"), String::from_str(arn));
    assert(texts_of(attributes@) =~= map!["server_id"@ => server_id@, "arn"@ => arn@]);
    put_attr(&mut attributes, "description", description);
    let ghost before = attributes@;
    attributes.insert(String::from_str("public_key"), redacted_value_marker());
    assert(texts_of(attributes@) =~= texts_of(before).insert("public_key"@, redacted_note()));
    summary(
        concat4("host-key/", server_id, "/", host_key_id),
        String::from_str(host_key_id),
        "host-key",
        String::from_str("imported"),
        imported_at,
        None,
        attributes,
    )
}

/// A call to Transfer Family, with its validated inputs.
#[derive(Debug, Clone)]
pub enum Call {
    CreateServer { protocol: String },
    CreateUser { server_id: String, user_name: String, role_arn: String, home_directory: Option<String> },
    DeleteUser { user_name: String, server_id: String, user_id: String },
    DeleteServer { server_name: String, server_id: String },
}

impl View for Call {
    type V = CallView;

    open spec fn view(&self) -> CallView {
        match self {
            Call::CreateServer { protocol } => call_of(
                "create_server"@,
                seq![protocol@],
                seq![],
            ),
            Call::CreateUser { server_id, user_name, role_arn, home_directory } => call_of(
                "create_user"@,
                seq![server_id@, user_name@, role_arn@, text_or_empty(home_directory.deep_view())],
                seq![],
            ),
            Call::DeleteUser { user_name, server_id, user_id } => call_of(
                "delete_user"@,
                seq![user_name@, server_id@, user_id@],
                seq![],
            ),
            Call::DeleteServer { server_name, server_id } => call_of(
                "delete_server"@,
                seq![server_name@, server_id@],
                seq![],
            ),
        }
    }
}

/// What an action request on Transfer Family asks for.
pub open spec fn action_plan(request: ServiceActionRequest) -> Result<PlannedView, ErrorView> {
    let a = request.action@;
    if a == "create_server"@ {
        {
            let protocol = upper_text(text_or(optional_text(request, "protocol"@), "SFTP"@));
            planned_call(a, seq![protocol], seq![])
        }
    } else if a == "create_user"@ {
        then_text(
            selected_resource(request, "server/"@),
            |server_id: Seq<char>|
                then_text(
                    required_text(request, "user_name"@),
                    |user_name: Seq<char>|
                        then_text(
                            required_text(request, "role_arn"@),
                            |role_arn: Seq<char>|
                                {
                                    let home_directory = optional_text(request, "home_directory"@);
                                    planned_call(a, seq![server_id, user_name, role_arn, text_or_empty(home_directory)], seq![])
                                },
                        ),
                ),
        )
    } else if a == "delete_user"@ {
        then_text(
            typed_confirmation(request),
            |user_name: Seq<char>|
                match user_selection(request) {
                    Ok(p) => {
                        let server_id = p.0;
                        let user_id = p.1;
                        planned_call(a, seq![user_name, server_id, user_id], seq![])
                    },
                    Err(e) => Err(e),
                },
        )
    } else if a == "delete_server"@ {
        then_text(
            typed_confirmation(request),
            |server_name: Seq<char>|
                then_text(
                    selected_resource(request, "server/"@),
                    |server_id: Seq<char>|
                        planned_call(a, seq![server_name, server_id], seq![]),
                ),
        )
    } else {
        Err(unsupported_action_error(request))
    }
}

/// Validates an action request on Transfer Family and decides what to do.
pub fn plan_action(request: &ServiceActionRequest) -> (r: Result<Planned<Call>, ServiceManagementError>)
    requires
        request.payload.wf(),
    ensures
        planned_outcome(r) == action_plan(*request),
        r matches Ok(Planned::Call(Call::CreateUser { server_id, user_name, role_arn, .. })) ==> {
            &&& request.action@ == "create_user"@
            &&& selected_resource(*request, "server/"@) == Ok::<Seq<char>, ErrorView>(server_id@)
            &&& required_text(*request, "user_name"@) == Ok::<Seq<char>, ErrorView>(user_name@)
            &&& required_text(*request, "role_arn"@) == Ok::<Seq<char>, ErrorView>(role_arn@)
        },
        r matches Ok(Planned::Call(Call::DeleteUser { user_name, .. })) ==> {
            &&& request.action@ == "delete_user"@
            &&& typed_confirmation(*request) == Ok::<Seq<char>, ErrorView>(user_name@)
        },
        r matches Ok(Planned::Call(Call::DeleteServer { server_name, server_id })) ==> {
            &&& request.action@ == "delete_server"@
            &&& typed_confirmation(*request) == Ok::<Seq<char>, ErrorView>(server_name@)
            &&& selected_resource(*request, "server/"@) == Ok::<Seq<char>, ErrorView>(server_id@)
        },
{
    let action = request.action.as_str();
    if text_eq(action, "create_server") {
        let protocol = optional_payload_text_or(request, "protocol", "SFTP");
        let protocol = upper_text_exec(protocol.as_str());
        Ok(Planned::Call(Call::CreateServer { protocol }))
    } else if text_eq(action, "create_user") {
        let server_id = require_resource_id(request, "server/")?;
        let user_name = require_name_payload(request, "user_name")?;
        let role_arn = require_payload_text(request, "role_arn")?;
        let home_directory = optional_payload_text(request, "home_directory");
        Ok(Planned::Call(Call::CreateUser { server_id, user_name, role_arn, home_directory }))
    } else if text_eq(action, "delete_user") {
        let user_name = require_typed_confirmation(request)?;
        let (server_id, user_id) = selected_user(request)?;
        Ok(Planned::Call(Call::DeleteUser { user_name, server_id, user_id }))
    } else if text_eq(action, "delete_server") {
        let server_name = require_typed_confirmation(request)?;
        let server_id = require_resource_id(request, "server/")?;
        Ok(Planned::Call(Call::DeleteServer { server_name, server_id }))
    } else {
        Err(unsupported_action(request))
    }
}

/// The result of `call` once it succeeded with `reply`.
pub open spec fn result_of(call: Call, reply: CallReply) -> ActionResultView {
    match call {
        Call::CreateServer { .. } => result_view(
            true,
            "Created Transfer server `"@ + text_or(reply.value.deep_view(), ""@) + "`."@,
            Some("server/"@ + text_or(reply.value.deep_view(), ""@)),
        ),
        Call::CreateUser { .. } => result_view(
            true,
            "Created Transfer user `"@ + text_or(reply.value.deep_view(), ""@) + "`."@,
            Some("user/"@ + text_or(reply.detail.deep_view(), ""@) + "/"@ + text_or(reply.value.deep_view(), ""@)),
        ),
        Call::DeleteUser { user_name, server_id, user_id } => result_view(
            true,
            "Deleted Transfer user `"@ + user_name@ + "`."@,
            Some("user/"@ + server_id@ + "/"@ + user_id@),
        ),
        Call::DeleteServer { server_name, server_id } => result_view(
            true,
            "Deleted Transfer server `"@ + server_name@ + "`."@,
            Some("server/"@ + server_id@),
        ),
    }
}

/// The result reported once `call` succeeded with `reply`.
pub fn completed(call: &Call, reply: &CallReply) -> (r: ActionResult)
    ensures
        r@ == result_of(*call, *reply),
{
    match call {
        Call::CreateServer { .. } => {
            let t1 = match &reply.value {
                Some(v) => v.clone(),
                None => {
                    let t2 = String::from_str("");
                    t2
                },
            };
            let mut message = String::from_str("Created Transfer server `");
            message.append(t1.as_str());
            message.append("`.");
            let t3 = match &reply.value {
                Some(v) => v.clone(),
                None => {
                    let t4 = String::from_str("");
                    t4
                },
            };
            let mut id = String::from_str("server/");
            id.append(t3.as_str());
            action_result(true, message, Some(id))
        },
        Call::CreateUser { .. } => {
            let t1 = match &reply.value {
                Some(v) => v.clone(),
                None => {
                    let t2 = String::from_str("");
                    t2
                },
            };
            let mut message = String::from_str("Created Transfer user `");
            message.append(t1.as_str());
            message.append("`.");
            let t3 = match &reply.detail {
                Some(v) => v.clone(),
                None => {
                    let t4 = String::from_str("");
                    t4
                },
            };
            let t5 = match &reply.value {
                Some(v) => v.clone(),
                None => {
                    let t6 = String::from_str("");
                    t6
                },
            };
            let mut id = String::from_str("user/");
            id.append(t3.as_str());
            id.append("/");
            id.append(t5.as_str());
            action_result(true, message, Some(id))
        },
        Call::DeleteUser { user_name, server_id, user_id } => {
            let mut message = String::from_str("Deleted Transfer user `");
            message.append(user_name.as_str());
            message.append("`.");
            let mut id = String::from_str("user/");
            id.append(server_id.as_str());
            id.append("/");
            id.append(user_id.as_str());
            action_result(true, message, Some(id))
        },
        Call::DeleteServer { server_name, server_id } => {
            let mut message = String::from_str("Deleted Transfer server `");
            message.append(server_name.as_str());
            message.append("`.");
            let mut id = String::from_str("server/");
            id.append(server_id.as_str());
            action_result(true, message, Some(id))
        },
    }
}

/// Every call planned for an action request performs the requested action.
pub proof fn lemma_plan_performs_requested_action(request: ServiceActionRequest)
    ensures
        action_plan(request) matches Ok(PlannedView::Call(c)) ==> c.name == request.action@,
{
}

/// A destructive action is only planned once the typed confirmation matches.
pub proof fn lemma_destructive_actions_are_confirmed(request: ServiceActionRequest)
    ensures
        action_plan(request) is Ok && destructive(request.action@) ==> typed_confirmation(request) is Ok,
{
    reveal_strlit("create_server");
    lemma_not_destructive("create_server"@);
    reveal_strlit("create_user");
    lemma_not_destructive("create_user"@);
}

/// The operations the Transfer Family page lists as unavailable.
pub open spec fn unsupported_operations() -> Seq<Seq<char>> {
    seq!["identity_details_redacted"@]
}

/// The name under which the service's inventory page is shown.
pub open spec fn label() -> Seq<char> {
    "Transfer Family"@
}

/// How far this adapter supports the service: it manages its resources.
pub open spec fn support_level() -> ServiceSupportLevel {
    ServiceSupportLevel::Managed
}

/// The Transfer Family inventory page: the listed `resources` under the Transfer Family tabs, refreshed
/// at `refreshed_at`.
pub fn inventory(
    resources: Vec<ResourceSummary>,
    refreshed_at: String,
) -> (inv: ServiceInventory)
    ensures
        inv@ == (InventoryView {
            service_key: "transfer"@,
            service_label: label(),
            support_level: support_level(),
            refreshed_at: refreshed_at@,
            tabs: inventory_tabs(),
            resources: summary_views(resources@),
            unsupported_operations: unsupported_operations(),
        }),
{
    let mut ops: Vec<String> = Vec::new();
    ops.push(String::from_str("identity_details_redacted"));
    proof {
        assert(ops.deep_view() =~= unsupported_operations());
    }
    build_inventory(
        "transfer",
        "Transfer Family",
        ServiceSupportLevel::Managed,
        refreshed_at,
        tabs(),
        resources,
        ops,
    )
}

} // verus!
