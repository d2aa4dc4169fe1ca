//! KMS.
use vstd::prelude::*;
use vstd::string::*;

use crate::service_management::actions::{
    require_typed_confirmation, required_text, typed_confirmation,
};
use crate::service_management::adapters::payload::{
    i32_or, optional_i32, optional_payload_i32_or, optional_payload_text_or, optional_text,
    optional_text_or_resource, require_payload_text, require_resource_id, selected_resource,
    text_or_selected,
};
use crate::service_management::adapters::{
    action_result, bool_text, bool_to_text, build_inventory, call_of, destructive,
    lemma_not_destructive, planned_call, planned_done, planned_outcome, put_attr, result_view,
    shows, summary, text_or, text_or_default, texts_of, then_text, unsupported_action,
    unsupported_action_error, with_attr, CallReply, CallView, Planned, PlannedView,
};
use crate::service_management::errors::{ErrorView, ServiceManagementError};
use crate::service_management::models::{
    single_kind_tab, summary_views, tab, tab_views, ActionResult, ActionResultView, InventoryView,
    ResourceSummary, ResourceTab, ServiceActionRequest, ServiceInventory, ServiceSupportLevel,
    TabView,
};
use crate::service_management::text_map::TextMap;
use crate::text::{concat2, concat4, decimal, int_text, text_eq};
use crate::service_management::adapters::network_observability::route53::{join_values, joined};

verus! {

/// The tabs of the KMS inventory page.
pub open spec fn inventory_tabs() -> Seq<TabView> {
    seq![
        single_kind_tab("keys"@, "Keys"@, "key"@, "No KMS keys were found."@),
        single_kind_tab("aliases"@, "Aliases"@, "alias"@, "No KMS aliases were found."@),
        single_kind_tab("grants"@, "Grants"@, "grant"@, "No KMS grants were found."@),
        single_kind_tab("policies"@, "Policies"@, "key-policy"@, "KMS key policies are summarized through selected key metadata."@),
    ]
}

/// The tabs of the KMS inventory page.
pub fn tabs() -> (t: Vec<ResourceTab>)
    ensures
        tab_views(t@) == inventory_tabs(),
{
    let mut t: Vec<ResourceTab> = Vec::new();
    t.push(tab("keys", "Keys", "key", "No KMS keys were found."));
    t.push(tab("aliases", "Aliases", "alias", "No KMS aliases were found."));
    t.push(tab("grants", "Grants", "grant", "No KMS grants were found."));
    t.push(tab("policies", "Policies", "key-policy", "KMS key policies are summarized through selected key metadata."));
    assert(tab_views(t@) =~= inventory_tabs());
    t
}

/// What describing a key reports of it.
pub struct KeyMetadata {
    pub state: Option<String>,
    pub created_at: Option<String>,
    pub description: Option<String>,
    pub key_usage: Option<String>,
    pub key_manager: Option<String>,
    pub enabled: bool,
}

/// The attributes listed for a key: its id, its ARN (the id when it has
/// none), that its material is not exportable, and what describing it reported.
pub open spec fn key_attributes(key_id: Seq<char>, key_arn: Option<Seq<char>>, metadata: Option<KeyMetadata>) -> Map<
    Seq<char>,
    Seq<char>,
> {
    let m = map![
        "key_id"@ => key_id,
        "key_arn"@ => text_or(key_arn, key_id),
        "key_material"@ => "not-exportable"@
    ];
    match metadata {
        Some(d) => {
            let m = with_attr(m, "description"@, d.description.deep_view());
            let m = with_attr(m, "key_usage"@, d.key_usage.deep_view());
            let m = with_attr(m, "key_manager"@, d.key_manager.deep_view());
            m.insert("enabled"@, bool_text(d.enabled))
        },
        None => m,
    }
}

/// The status of a key: its state when describing it reported one, else `available`.
pub open spec fn key_status(metadata: Option<KeyMetadata>) -> Seq<char> {
    match metadata {
        Some(d) => text_or(d.state.deep_view(), "available"@),
        None => "available"@,
    }
}

/// When a key was created, as describing it reported.
pub open spec fn key_created_at(metadata: Option<KeyMetadata>) -> Option<Seq<char>> {
    match metadata {
        Some(d) => d.created_at.deep_view(),
        None => None,
    }
}

/// The resource listed for a key; `metadata` is what describing the key
/// reported, when that succeeded.
pub fn key_summary(key_id: &str, key_arn: Option<String>, metadata: Option<KeyMetadata>) -> (r: ResourceSummary)
    ensures
        r.wf(),
        shows(
            r@,
            "key/"@ + key_id@,
            key_id@,
            "key"@,
            key_status(metadata),
            key_created_at(metadata),
            None,
            key_attributes(key_id@, key_arn.deep_view(), metadata),
        ),
{
    let arn = text_or_default(key_arn, key_id);
    let ghost a = arn@;
    let mut attributes: TextMap<String> = TextMap::new();
    attributes.insert(String::from_str("key_id"), String::from_str(key_id));
    attributes.insert(String::from_str("key_arn"), arn);
    attributes.insert(String::from_str("key_material"), String::from_str("not-exportable"));
    assert(texts_of(attributes@) =~= map![
        "key_id"@ => key_id@,
        "key_arn"@ => a,
        "key_material"@ => "not-exportable"@
    ]);
    let (status, created_at) = match metadata {
        Some(d) => {
            put_attr(&mut attributes, "description", d.description);
            put_attr(&mut attributes, "key_usage", d.key_usage);
            put_attr(&mut attributes, "key_manager", d.key_manager);
            let ghost before = attributes@;
            let flag = bool_to_text(d.enabled);
            let ghost f = flag@;
            attributes.insert(String::from_str("enabled"), flag);
            assert(texts_of(attributes@) =~= texts_of(before).insert("enabled"@, f));
            (text_or_default(d.state, "available"), d.created_at)
        },
        None => (String::from_str("available"), None),
    };
    summary(concat2("key/", key_id), String::from_str(key_id), "key", status, created_at, None, attributes)
}

/// The resource listed for a grant on a key: named by its name, or else its
/// id, with its grantee (`unknown` when none is known) and its operations
/// joined with `, `.
pub fn grant_summary(
    key_id: &str,
    grant_id: &str,
    name: Option<String>,
    grantee_principal: Option<String>,
    operations: &Vec<String>,
    created_at: Option<String>,
) -> (r: ResourceSummary)
    ensures
        r.wf(),
        shows(
            r@,
            "grant/"@ + key_id@ + "/"@ + grant_id@,
            text_or(name.deep_view(), grant_id@),
            "grant"@,
            "active"@,
            created_at.deep_view(),
            None,
            map![
                "key_id"@ => key_id@,
                "grant_id"@ => grant_id@,
                "grantee_principal"@ => text_or(grantee_principal.deep_view(), "unknown"@),
                "operations"@ => joined(operations.deep_view())
            ],
        ),
{
    let grantee = text_or_default(grantee_principal, "unknown");
    let ops = join_values(operations);
    let ghost texts = (grantee@, ops@);
    let mut attributes: TextMap<String> = TextMap::new();
    attributes.insert(String::from_str("key_id"), String::from_str(key_id));
    attributes.insert(String::from_str("grant_id"), String::from_str(grant_id));
    attributes.insert(String::from_str("grantee_principal"), grantee);
    attributes.insert(String::from_str("operations"), ops);
    assert(texts_of(attributes@) =~= map![
        "key_id"@ => key_id@,
        "grant_id"@ => grant_id@,
        "grantee_principal"@ => texts.0,
        "operations"@ => texts.1
    ]);
    summary(
        concat4("grant/", key_id, "/", grant_id),
        text_or_default(name, grant_id),
        "grant",
        String::from_str("active"),
        created_at,
        None,
        attributes,
    )
}

/// The resource listed for an alias: `active` while it points at a key,
/// `unbound` otherwise.
pub fn key_alias_summary(
    alias_name: &str,
    alias_arn: Option<String>,
    target_key_id: Option<String>,
    created_at: Option<String>,
    updated_at: Option<String>,
) -> (r: ResourceSummary)
    ensures
        r.wf(),
        shows(
            r@,
            "alias/"@ + alias_name@,
            alias_name@,
            "alias"@,
            if target_key_id is Some { "active"@ } else { "unbound"@ },
            created_at.deep_view(),
            updated_at.deep_view(),
            with_attr(
                with_attr(Map::empty(), "alias_arn"@, alias_arn.deep_view()),
                "target_key_id"@,
                target_key_id.deep_view(),
            ),
        ),
{
    let status = if target_key_id.is_some() {
        String::from_str("active")
    } else {
        String::from_str("unbound")
    };
    let mut attributes: TextMap<String> = TextMap::new();
    assert(texts_of(attributes@) =~= Map::<Seq<char>, Seq<char>>::empty());
    put_attr(&mut attributes, "alias_arn", alias_arn);
    put_attr(&mut attributes, "target_key_id", target_key_id);
    summary(concat2("alias/", alias_name), String::from_str(alias_name), "alias", status, created_at, updated_at, attributes)
}

/// A call to KMS, with its validated inputs.
#[derive(Debug, Clone)]
pub enum Call {
    CreateKey { description: String },
    CreateAlias { alias_name: String, target_key_id: String },
    DisableKey { key_name: String, key_id: String },
    ScheduleKeyDeletion { key_name: String, key_id: String, pending_window: i32 },
}

impl View for Call {
    type V = CallView;

    open spec fn view(&self) -> CallView {
        match self {
            Call::CreateKey { description } => call_of(
                "create_key"@,
                seq![description@],
                seq![],
            ),
            Call::CreateAlias { alias_name, target_key_id } => call_of(
                "create_alias"@,
                seq![alias_name@, target_key_id@],
                seq![],
            ),
            Call::DisableKey { key_name, key_id } => call_of(
                "disable_key"@,
                seq![key_name@, key_id@],
                seq![],
            ),
            Call::ScheduleKeyDeletion { key_name, key_id, pending_window } => call_of(
                "schedule_key_deletion"@,
                seq![key_name@, key_id@],
                seq![*pending_window as int],
            ),
        }
    }
}

/// What an action request on KMS asks for.
pub open spec fn action_plan(request: ServiceActionRequest) -> Result<PlannedView, ErrorView> {
    let a = request.action@;
    if a == "create_key"@ {
        {
            let description = text_or(optional_text(request, "description"@), "Created by floci-ui local service management."@);
            planned_call(a, seq![description], seq![])
        }
    } else if a == "create_alias"@ {
        then_text(
            required_text(request, "alias_name"@),
            |alias_name: Seq<char>|
                then_text(
                    text_or_selected(request, "target_key_id"@, "key/"@, "Select a key or provide `target_key_id`."@),
                    |target_key_id: Seq<char>|
                        planned_call(a, seq![alias_name, target_key_id], seq![]),
                ),
        )
    } else if a == "disable_key"@ {
        then_text(
            typed_confirmation(request),
            |key_name: Seq<char>|
                then_text(
                    selected_resource(request, "key/"@),
                    |key_id: Seq<char>|
                        planned_call(a, seq![key_name, key_id], seq![]),
                ),
        )
    } else if a == "schedule_key_deletion"@ {
        then_text(
            typed_confirmation(request),
            |key_name: Seq<char>|
                then_text(
                    selected_resource(request, "key/"@),
                    |key_id: Seq<char>|
                        {
                            let pending_window = i32_or(optional_i32(request, "pending_window_in_days"@), 7);
                            planned_call(a, seq![key_name, key_id], seq![pending_window])
                        },
                ),
        )
    } else if a == "refresh_key_policy"@ {
        then_text(
            selected_resource(request, "key/"@),
            |key_id: Seq<char>|
                planned_done(false, "Refreshed KMS key policy metadata for `"@ + key_id + "`."@, Some("key/"@ + key_id)),
        )
    } else {
        Err(unsupported_action_error(request))
    }
}

/// Validates an action request on KMS and decides what to do.
pub fn plan_action(request: &ServiceActionRequest) -> (r: Result<Planned<Call>, ServiceManagementError>)
    requires
        request.payload.wf(),
    ensures
        planned_outcome(r) == action_plan(*request),
        r matches Ok(Planned::Call(Call::CreateAlias { alias_name, target_key_id })) ==> {
            &&& request.action@ == "create_alias"@
            &&& required_text(*request, "alias_name"@) == Ok::<Seq<char>, ErrorView>(alias_name@)
            &&& text_or_selected(*request, "target_key_id"@, "key/"@, "Select a key or provide `target_key_id`."@) == Ok::<Seq<char>, ErrorView>(target_key_id@)
        },
        r matches Ok(Planned::Call(Call::DisableKey { key_name, key_id })) ==> {
            &&& request.action@ == "disable_key"@
            &&& typed_confirmation(*request) == Ok::<Seq<char>, ErrorView>(key_name@)
            &&& selected_resource(*request, "key/"@) == Ok::<Seq<char>, ErrorView>(key_id@)
        },
        r matches Ok(Planned::Call(Call::ScheduleKeyDeletion { key_name, key_id, .. })) ==> {
            &&& request.action@ == "schedule_key_deletion"@
            &&& typed_confirmation(*request) == Ok::<Seq<char>, ErrorView>(key_name@)
            &&& selected_resource(*request, "key/"@) == Ok::<Seq<char>, ErrorView>(key_id@)
        },
{
    let action = request.action.as_str();
    if text_eq(action, "create_key") {
        let description = optional_payload_text_or(request, "description", "Created by floci-ui local service management.");
        Ok(Planned::Call(Call::CreateKey { description }))
    } else if text_eq(action, "create_alias") {
        let alias_name = require_payload_text(request, "alias_name")?;
        let target_key_id = optional_text_or_resource(request, "target_key_id", "key/", "Select a key or provide `target_key_id`.")?;
        Ok(Planned::Call(Call::CreateAlias { alias_name, target_key_id }))
    } else if text_eq(action, "disable_key") {
        let key_name = require_typed_confirmation(request)?;
        let key_id = require_resource_id(request, "key/")?;
        Ok(Planned::Call(Call::DisableKey { key_name, key_id }))
    } else if text_eq(action, "schedule_key_deletion") {
        let key_name = require_typed_confirmation(request)?;
        let key_id = require_resource_id(request, "key/")?;
        let pending_window: i32 = optional_payload_i32_or(request, "pending_window_in_days", 7);
        Ok(Planned::Call(Call::ScheduleKeyDeletion { key_name, key_id, pending_window }))
    } else if text_eq(action, "refresh_key_policy") {
        let key_id = require_resource_id(request, "key/")?;
        let mut message = String::from_str("Refreshed KMS key policy metadata for `");
        message.append(key_id.as_str());
        message.append("`.");
        let mut id = String::from_str("key/");
        id.append(key_id.as_str());
        Ok(Planned::Done(action_result(false, message, Some(id))))
    } else {
        Err(unsupported_action(request))
    }
}

/// The result of `call` once it succeeded with `reply`.
pub open spec fn result_of(call: Call, reply: CallReply) -> ActionResultView {
    match call {
        Call::CreateKey { .. } => result_view(
            true,
            "Created KMS key `"@ + text_or(reply.value.deep_view(), "created"@) + "`."@,
            Some("key/"@ + text_or(reply.value.deep_view(), "created"@)),
        ),
        Call::CreateAlias { alias_name, .. } => result_view(
            true,
            "Created KMS alias `"@ + alias_name@ + "`."@,
            Some("alias/"@ + alias_name@),
        ),
        Call::DisableKey { key_name, key_id } => result_view(
            true,
            "Disabled KMS key `"@ + key_name@ + "`."@,
            Some("key/"@ + key_id@),
        ),
        Call::ScheduleKeyDeletion { key_name, pending_window, key_id } => result_view(
            true,
            "Scheduled KMS key `"@ + key_name@ + "` for deletion in "@ + decimal(pending_window as int) + " days."@,
            Some("key/"@ + key_id@),
        ),
    }
}

/// The result reported once `call` succeeded with `reply`.
pub fn completed(call: &Call, reply: &CallReply) -> (r: ActionResult)
    ensures
        r@ == result_of(*call, *reply),
{
    match call {
        Call::CreateKey { .. } => {
            let t1 = match &reply.value {
                Some(v) => v.clone(),
                None => {
                    let t2 = String::from_str("created");
                    t2
                },
            };
            let mut message = String::from_str("Created KMS key `");
            message.append(t1.as_str());
            message.append("`.");
            let t3 = match &reply.value {
                Some(v) => v.clone(),
                None => {
                    let t4 = String::from_str("created");
                    t4
                },
            };
            let mut id = String::from_str("key/");
            id.append(t3.as_str());
            action_result(true, message, Some(id))
        },
        Call::CreateAlias { alias_name, .. } => {
            let mut message = String::from_str("Created KMS alias `");
            message.append(alias_name.as_str());
            message.append("`.");
            let mut id = String::from_str("alias/");
            id.append(alias_name.as_str());
            action_result(true, message, Some(id))
        },
        Call::DisableKey { key_name, key_id } => {
            let mut message = String::from_str("Disabled KMS key `");
            message.append(key_name.as_str());
            message.append("`.");
            let mut id = String::from_str("key/");
            id.append(key_id.as_str());
            action_result(true, message, Some(id))
        },
        Call::ScheduleKeyDeletion { key_name, pending_window, key_id } => {
            let t1 = int_text(*pending_window as i64);
            let mut message = String::from_str("Scheduled KMS key `");
            message.append(key_name.as_str());
            message.append("` for deletion in ");
            message.append(t1.as_str());
            message.append(" days.");
            let mut id = String::from_str("key/");
            id.append(key_id.as_str());
            action_result(true, message, Some(id))
        },
    }
}

/// Every call planned for an action request performs the requested action.
pub proof fn lemma_plan_performs_requested_action(request: ServiceActionRequest)
    ensures
        action_plan(request) matches Ok(PlannedView::Call(c)) ==> c.name == request.action@,
{
}

/// A destructive action is only planned once the typed confirmation matches.
pub proof fn lemma_destructive_actions_are_confirmed(request: ServiceActionRequest)
    ensures
        action_plan(request) is Ok && destructive(request.action@) ==> typed_confirmation(request) is Ok,
{
    reveal_strlit("create_key");
    lemma_not_destructive("create_key"@);
    reveal_strlit("create_alias");
    lemma_not_destructive("create_alias"@);
    reveal_strlit("refresh_key_policy");
    lemma_not_destructive("refresh_key_policy"@);
}

/// The operations the KMS page lists as unavailable.
pub open spec fn unsupported_operations() -> Seq<Seq<char>> {
    seq!["create_grant"@, "delete_alias"@, "put_key_policy"@]
}

/// The name under which the service's inventory page is shown.
pub open spec fn label() -> Seq<char> {
    "KMS"@
}

/// How far this adapter supports the service: it manages its resources.
pub open spec fn support_level() -> ServiceSupportLevel {
    ServiceSupportLevel::Managed
}

/// The KMS inventory page: the listed `resources` under the KMS tabs, refreshed
/// at `refreshed_at`.
pub fn inventory(
    resources: Vec<ResourceSummary>,
    refreshed_at: String,
) -> (inv: ServiceInventory)
    ensures
        inv@ == (InventoryView {
            service_key: "kms"@,
            service_label: label(),
            support_level: support_level(),
            refreshed_at: refreshed_at@,
            tabs: inventory_tabs(),
            resources: summary_views(resources@),
            unsupported_operations: unsupported_operations(),
        }),
{
    let mut ops: Vec<String> = Vec::new();
    ops.push(String::from_str("create_grant"));
    ops.push(String::from_str("delete_alias"));
    ops.push(String::from_str("put_key_policy"));
    proof {
        assert(ops.deep_view() =~= unsupported_operations());
    }
    build_inventory(
        "kms",
        "KMS",
        ServiceSupportLevel::Managed,
        refreshed_at,
        tabs(),
        resources,
        ops,
    )
}

} // verus!
