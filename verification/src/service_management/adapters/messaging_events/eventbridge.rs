//! EventBridge.
use vstd::prelude::*;
use vstd::string::*;

use crate::service_management::actions::{
    require_name_payload, require_typed_confirmation, required_text, typed_confirmation,
};
use crate::service_management::adapters::payload::{
    require_json_payload_text, require_payload_text, require_resource_id, require_split,
    required_json, resource_name_from_arn, selected_resource, split_required,
};
use crate::service_management::adapters::{
    action_result, build_inventory, call_of, destructive, lemma_not_destructive, number_text,
    optional_number_text, planned_call, planned_done, planned_outcome, put_attr, result_view, shows,
    summary, text_or, texts_of, then_text, unsupported_action, unsupported_action_error, with_attr,
    CallReply, CallView, Planned, PlannedView,
};
use crate::service_management::errors::{ErrorView, ServiceManagementError};
use crate::service_management::models::{
    single_kind_tab, summary_views, tab, tab_views, ActionResult, ActionResultView, InventoryView,
    ResourceSummary, ResourceTab, ServiceActionRequest, ServiceInventory, ServiceSupportLevel,
    TabView,
};
use crate::service_management::text_map::TextMap;
use crate::text::{
    concat2, concat4, concat5, decimal, digits_of, int_text, last_segment, nat_text, text_eq,
};
use crate::service_management::adapters::payload::pair_outcome;
use crate::text::{has_char, lemma_split_once_after};

verus! {

/// The event pattern of a rule created without one.
pub const DEFAULT_EVENT_PATTERN: &'static str = "{\"source\":[\"floci.ui\"]}";

/// The tabs of the EventBridge inventory page.
pub open spec fn inventory_tabs() -> Seq<TabView> {
    seq![
        single_kind_tab("event-buses"@, "Buses"@, "event-bus"@, "No EventBridge event buses were found."@),
        single_kind_tab("rules"@, "Rules"@, "rule"@, "No EventBridge rules are loaded."@),
        single_kind_tab("targets"@, "Targets"@, "target"@, "No EventBridge targets are loaded."@),
        single_kind_tab("archives"@, "Archives"@, "archive"@, "No EventBridge archives are loaded."@),
        single_kind_tab("replays"@, "Replays"@, "replay"@, "No EventBridge replays are loaded."@),
    ]
}

/// The tabs of the EventBridge inventory page.
pub fn tabs() -> (t: Vec<ResourceTab>)
    ensures
        tab_views(t@) == inventory_tabs(),
{
    let mut t: Vec<ResourceTab> = Vec::new();
    t.push(tab("event-buses", "Buses", "event-bus", "No EventBridge event buses were found."));
    t.push(tab("rules", "Rules", "rule", "No EventBridge rules are loaded."));
    t.push(tab("targets", "Targets", "target", "No EventBridge targets are loaded."));
    t.push(tab("archives", "Archives", "archive", "No EventBridge archives are loaded."));
    t.push(tab("replays", "Replays", "replay", "No EventBridge replays are loaded."));
    assert(tab_views(t@) =~= inventory_tabs());
    t
}

/// The event bus and rule named by the selected `rule/<bus>/<rule>` resource.
pub open spec fn selected_rule(request: ServiceActionRequest) -> Result<(Seq<char>, Seq<char>), ErrorView> {
    match selected_resource(request, "rule/"@) {
        Ok(value) => split_required(
            request,
            value,
            "/"@,
            "Rule resources must include both event bus and rule name."@,
        ),
        Err(e) => Err(e),
    }
}

/// The event bus and rule of the selected rule resource.
pub fn require_rule_id(request: &ServiceActionRequest) -> (r: Result<(String, String), ServiceManagementError>)
    ensures
        pair_outcome(r) == selected_rule(*request),
{
    let value = require_resource_id(request, "rule/")?;
    require_split(
        request,
        value.as_str(),
        "/",
        "Rule resources must include both event bus and rule name.",
    )
}

/// The id under which a rule is listed: `rule/<bus>/<rule>`.
pub open spec fn rule_id_text(bus_name: Seq<char>, rule_name: Seq<char>) -> Seq<char> {
    "rule/"@ + bus_name + "/"@ + rule_name
}

/// A rule listed by the inventory, or created by an action, is selected again
/// by an action on it, when the bus name holds no `/`.
pub proof fn lemma_listed_rule_is_selectable(request: ServiceActionRequest, bus_name: Seq<char>, rule_name: Seq<char>)
    requires
        request.resource_id matches Some(id) && id@ == rule_id_text(bus_name, rule_name),
        !has_char(bus_name, '/'),
    ensures
        selected_rule(request) == Ok::<(Seq<char>, Seq<char>), ErrorView>((bus_name, rule_name)),
{
    reveal_strlit("rule/");
    reveal_strlit("/");
    let id = request.resource_id->Some_0@;
    let body = bus_name + "/"@ + rule_name;
    assert(id =~= "rule/"@ + body);
    assert(id.subrange(0, 5) =~= "rule/"@);
    assert(id.subrange(5, id.len() as int) =~= body);
    lemma_split_once_after(bus_name, "/"@, rule_name);
}

/// The resource listed for an event bus.
pub fn event_bus_summary(name: &str, arn: Option<String>, policy: Option<String>) -> (r: ResourceSummary)
    ensures
        r.wf(),
        shows(
            r@,
            "event-bus/"@ + name@,
            name@,
            "event-bus"@,
            "available"@,
            None,
            None,
            with_attr(with_attr(Map::empty(), "arn"@, arn.deep_view()), "policy"@, policy.deep_view()),
        ),
{
    let mut attributes: TextMap<String> = TextMap::new();
    assert(texts_of(attributes@) =~= Map::<Seq<char>, Seq<char>>::empty());
    put_attr(&mut attributes, "arn", arn);
    put_attr(&mut attributes, "policy", policy);
    summary(
        concat2("event-bus/", name),
        String::from_str(name),
        "event-bus",
        String::from_str("available"),
        None,
        None,
        attributes,
    )
}

/// The attributes listed for a rule.
pub open spec fn rule_attributes(
    arn: Option<Seq<char>>,
    bus_name: Seq<char>,
    schedule_expression: Option<Seq<char>>,
    event_pattern: Option<Seq<char>>,
) -> Map<Seq<char>, Seq<char>> {
    let m = with_attr(Map::empty(), "arn"@, arn).insert("event_bus_name"@, bus_name);
    let m = with_attr(m, "schedule_expression"@, schedule_expression);
    with_attr(m, "event_pattern"@, event_pattern)
}

/// The resource listed for a rule of an event bus, in its state (`unknown`
/// when it reports none); its id is the one an action on it selects again.
pub fn rule_summary(
    bus_name: &str,
    rule_name: &str,
    state: Option<String>,
    arn: Option<String>,
    schedule_expression: Option<String>,
    event_pattern: Option<String>,
) -> (r: ResourceSummary)
    ensures
        r.wf(),
        shows(
            r@,
            rule_id_text(bus_name@, rule_name@),
            rule_name@,
            "rule"@,
            text_or(state.deep_view(), "unknown"@),
            None,
            None,
            rule_attributes(arn.deep_view(), bus_name@, schedule_expression.deep_view(), event_pattern.deep_view()),
        ),
{
    let ghost views = (arn.deep_view(), schedule_expression.deep_view(), event_pattern.deep_view());
    let status = match state {
        Some(s) => s,
        None => String::from_str("unknown"),
    };
    let mut attributes: TextMap<String> = TextMap::new();
    assert(texts_of(attributes@) =~= Map::<Seq<char>, Seq<char>>::empty());
    put_attr(&mut attributes, "arn", arn);
    let ghost before = attributes@;
    attributes.insert(String::from_str("event_bus_name"), String::from_str(bus_name));
    assert(texts_of(attributes@) =~= texts_of(before).insert("event_bus_name"@, bus_name@));
    put_attr(&mut attributes, "schedule_expression", schedule_expression);
    put_attr(&mut attributes, "event_pattern", event_pattern);
    assert(texts_of(attributes@) == rule_attributes(views.0, bus_name@, views.1, views.2));
    summary(
        concat4("rule/", bus_name, "/", rule_name),
        String::from_str(rule_name),
        "rule",
        status,
        None,
        None,
        attributes,
    )
}

/// The resource listed for a target of a rule.
pub fn rule_target_summary(
    bus_name: &str,
    rule_name: &str,
    target_id: &str,
    target_arn: &str,
    role_arn: Option<String>,
    input_path: Option<String>,
) -> (r: ResourceSummary)
    ensures
        r.wf(),
        shows(
            r@,
            "target/"@ + bus_name@ + "/"@ + rule_name@ + "/"@ + target_id@,
            target_id@,
            "target"@,
            "attached"@,
            None,
            None,
            with_attr(
                with_attr(
                    map![
                        "event_bus_name"@ => bus_name@,
                        "rule_name"@ => rule_name@,
                        "target_arn"@ => target_arn@
                    ],
                    "role_arn"@,
                    role_arn.deep_view(),
                ),
                "input_path"@,
                input_path.deep_view(),
            ),
        ),
{
    let mut attributes: TextMap<String> = TextMap::new();
    attributes.insert(String::from_str("event_bus_name"), String::from_str(bus_name));
    attributes.insert(String::from_str("rule_name"), String::from_str(rule_name));
    attributes.insert(String::from_str("target_arn"), String::from_str(target_arn));
    assert(texts_of(attributes@) =~= map![
        "event_bus_name"@ => bus_name@,
        "rule_name"@ => rule_name@,
        "target_arn"@ => target_arn@
    ]);
    put_attr(&mut attributes, "role_arn", role_arn);
    put_attr(&mut attributes, "input_path", input_path);
    let mut id = concat5("target/", bus_name, "/", rule_name, "/");
    id.append(target_id);
    summary(id, String::from_str(target_id), "target", String::from_str("attached"), None, None, attributes)
}

/// The attributes listed for an archive.
pub open spec fn archive_attributes(
    event_source_arn: Option<Seq<char>>,
    state_reason: Option<Seq<char>>,
    retention_days: Option<i64>,
    size_bytes: i64,
    event_count: i64,
) -> Map<Seq<char>, Seq<char>> {
    let m = with_attr(Map::empty(), "event_source_arn"@, event_source_arn);
    let m = with_attr(m, "state_reason"@, state_reason);
    let m = with_attr(m, "retention_days"@, number_text(retention_days));
    m.insert("size_bytes"@, decimal(size_bytes as int)).insert("event_count"@, decimal(event_count as int))
}

/// The resource listed for an archive, in its state (`unknown` when it reports none).
pub fn archive_summary(
    name: &str,
    state: Option<String>,
    created_at: Option<String>,
    event_source_arn: Option<String>,
    state_reason: Option<String>,
    retention_days: Option<i64>,
    size_bytes: i64,
    event_count: i64,
) -> (r: ResourceSummary)
    ensures
        r.wf(),
        shows(
            r@,
            "archive/"@ + name@,
            name@,
            "archive"@,
            text_or(state.deep_view(), "unknown"@),
            created_at.deep_view(),
            None,
            archive_attributes(event_source_arn.deep_view(), state_reason.deep_view(), retention_days, size_bytes, event_count),
        ),
{
    let ghost views = (event_source_arn.deep_view(), state_reason.deep_view());
    let status = match state {
        Some(s) => s,
        None => String::from_str("unknown"),
    };
    let mut attributes: TextMap<String> = TextMap::new();
    assert(texts_of(attributes@) =~= Map::<Seq<char>, Seq<char>>::empty());
    put_attr(&mut attributes, "event_source_arn", event_source_arn);
    put_attr(&mut attributes, "state_reason", state_reason);
    put_attr(&mut attributes, "retention_days", optional_number_text(retention_days));
    let ghost before = attributes@;
    let size = int_text(size_bytes);
    let count = int_text(event_count);
    let ghost texts = (size@, count@);
    attributes.insert(String::from_str("size_bytes"), size);
    attributes.insert(String::from_str("event_count"), count);
    assert(texts_of(attributes@) =~= texts_of(before).insert("size_bytes"@, texts.0).insert("event_count"@, texts.1));
    assert(texts_of(attributes@) == archive_attributes(views.0, views.1, retention_days, size_bytes, event_count));
    summary(concat2("archive/", name), String::from_str(name), "archive", status, created_at, None, attributes)
}

/// The resource listed for a replay: named by the last segment of its name,
/// in its state (`unknown` when it reports none), from its start to its end.
pub fn replay_summary(
    name: &str,
    state: Option<String>,
    started_at: Option<String>,
    ended_at: Option<String>,
    event_source_arn: Option<String>,
    state_reason: Option<String>,
    last_replayed_at: Option<String>,
) -> (r: ResourceSummary)
    ensures
        r.wf(),
        shows(
            r@,
            "replay/"@ + name@,
            last_segment(name@, ":/"@),
            "replay"@,
            text_or(state.deep_view(), "unknown"@),
            started_at.deep_view(),
            ended_at.deep_view(),
            with_attr(
                with_attr(
                    with_attr(Map::empty(), "event_source_arn"@, event_source_arn.deep_view()),
                    "state_reason"@,
                    state_reason.deep_view(),
                ),
                "last_replayed_at"@,
                last_replayed_at.deep_view(),
            ),
        ),
{
    let status = match state {
        Some(s) => s,
        None => String::from_str("unknown"),
    };
    let mut attributes: TextMap<String> = TextMap::new();
    assert(texts_of(attributes@) =~= Map::<Seq<char>, Seq<char>>::empty());
    put_attr(&mut attributes, "event_source_arn", event_source_arn);
    put_attr(&mut attributes, "state_reason", state_reason);
    put_attr(&mut attributes, "last_replayed_at", last_replayed_at);
    summary(
        concat2("replay/", name),
        resource_name_from_arn(name),
        "replay",
        status,
        started_at,
        ended_at,
        attributes,
    )
}

/// A call to EventBridge, with its validated inputs.
#[derive(Debug, Clone)]
pub enum Call {
    CreateEventBus { bus_name: String },
    DeleteEventBus { bus_name: String, bus_id: String },
    CreateRule { bus_name: String, rule_name: String, event_pattern: String },
    DeleteRule { rule_name: String, bus_name: String, rule_id: String },
    PutEvent { bus_name: String, source: String, detail_type: String, detail: String },
}

impl View for Call {
    type V = CallView;

    open spec fn view(&self) -> CallView {
        match self {
            Call::CreateEventBus { bus_name } => call_of(
                "create_event_bus"@,
                seq![bus_name@],
                seq![],
            ),
            Call::DeleteEventBus { bus_name, bus_id } => call_of(
                "delete_event_bus"@,
                seq![bus_name@, bus_id@],
                seq![],
            ),
            Call::CreateRule { bus_name, rule_name, event_pattern } => call_of(
                "create_rule"@,
                seq![bus_name@, rule_name@, event_pattern@],
                seq![],
            ),
            Call::DeleteRule { rule_name, bus_name, rule_id } => call_of(
                "delete_rule"@,
                seq![rule_name@, bus_name@, rule_id@],
                seq![],
            ),
            Call::PutEvent { bus_name, source, detail_type, detail } => call_of(
                "put_event"@,
                seq![bus_name@, source@, detail_type@, detail@],
                seq![],
            ),
        }
    }
}

/// What an action request on EventBridge asks for.
pub open spec fn action_plan(request: ServiceActionRequest) -> Result<PlannedView, ErrorView> {
    let a = request.action@;
    if a == "create_event_bus"@ {
        then_text(
            required_text(request, "event_bus_name"@),
            |bus_name: Seq<char>|
                planned_call(a, seq![bus_name], seq![]),
        )
    } else if a == "delete_event_bus"@ {
        then_text(
            typed_confirmation(request),
            |bus_name: Seq<char>|
                then_text(
                    selected_resource(request, "event-bus/"@),
                    |bus_id: Seq<char>|
                        planned_call(a, seq![bus_name, bus_id], seq![]),
                ),
        )
    } else if a == "create_rule"@ {
        then_text(
            selected_resource(request, "event-bus/"@),
            |bus_name: Seq<char>|
                then_text(
                    required_text(request, "rule_name"@),
                    |rule_name: Seq<char>|
                        then_text(
                            required_json(request, "event_pattern"@, DEFAULT_EVENT_PATTERN@),
                            |event_pattern: Seq<char>|
                                planned_call(a, seq![bus_name, rule_name, event_pattern], seq![]),
                        ),
                ),
        )
    } else if a == "delete_rule"@ {
        then_text(
            typed_confirmation(request),
            |rule_name: Seq<char>|
                match selected_rule(request) {
                    Ok(p) => {
                        let bus_name = p.0;
                        let rule_id = p.1;
                        planned_call(a, seq![rule_name, bus_name, rule_id], seq![])
                    },
                    Err(e) => Err(e),
                },
        )
    } else if a == "put_event"@ {
        then_text(
            selected_resource(request, "event-bus/"@),
            |bus_name: Seq<char>|
                then_text(
                    required_text(request, "source"@),
                    |source: Seq<char>|
                        then_text(
                            required_text(request, "detail_type"@),
                            |detail_type: Seq<char>|
                                then_text(
                                    required_json(request, "detail"@, "{}"@),
                                    |detail: Seq<char>|
                                        planned_call(a, seq![bus_name, source, detail_type, detail], seq![]),
                                ),
                        ),
                ),
        )
    } else if a == "refresh_event_bus"@ {
        then_text(
            selected_resource(request, "event-bus/"@),
            |bus_name: Seq<char>|
                planned_done(false, "Event bus refresh completed."@, Some("event-bus/"@ + bus_name)),
        )
    } else {
        Err(unsupported_action_error(request))
    }
}

/// Validates an action request on EventBridge and decides what to do.
pub fn plan_action(request: &ServiceActionRequest) -> (r: Result<Planned<Call>, ServiceManagementError>)
    requires
        request.payload.wf(),
    ensures
        planned_outcome(r) == action_plan(*request),
        r matches Ok(Planned::Call(Call::CreateEventBus { bus_name })) ==> {
            &&& request.action@ == "create_event_bus"@
            &&& required_text(*request, "event_bus_name"@) == Ok::<Seq<char>, ErrorView>(bus_name@)
        },
        r matches Ok(Planned::Call(Call::DeleteEventBus { bus_name, bus_id })) ==> {
            &&& request.action@ == "delete_event_bus"@
            &&& typed_confirmation(*request) == Ok::<Seq<char>, ErrorView>(bus_name@)
            &&& selected_resource(*request, "event-bus/"@) == Ok::<Seq<char>, ErrorView>(bus_id@)
        },
        r matches Ok(Planned::Call(Call::CreateRule { bus_name, rule_name, .. })) ==> {
            &&& request.action@ == "create_rule"@
            &&& selected_resource(*request, "event-bus/"@) == Ok::<Seq<char>, ErrorView>(bus_name@)
            &&& required_text(*request, "rule_name"@) == Ok::<Seq<char>, ErrorView>(rule_name@)
        },
        r matches Ok(Planned::Call(Call::DeleteRule { rule_name, .. })) ==> {
            &&& request.action@ == "delete_rule"@
            &&& typed_confirmation(*request) == Ok::<Seq<char>, ErrorView>(rule_name@)
        },
        r matches Ok(Planned::Call(Call::PutEvent { bus_name, source, detail_type, detail })) ==> {
            &&& request.action@ == "put_event"@
            &&& selected_resource(*request, "event-bus/"@) == Ok::<Seq<char>, ErrorView>(bus_name@)
            &&& required_text(*request, "source"@) == Ok::<Seq<char>, ErrorView>(source@)
            &&& required_text(*request, "detail_type"@) == Ok::<Seq<char>, ErrorView>(detail_type@)
            &&& required_json(*request, "detail"@, "{}"@) == Ok::<Seq<char>, ErrorView>(detail@)
        },
{
    let action = request.action.as_str();
    if text_eq(action, "create_event_bus") {
        let bus_name = require_name_payload(request, "event_bus_name")?;
        Ok(Planned::Call(Call::CreateEventBus { bus_name }))
    } else if text_eq(action, "delete_event_bus") {
        let bus_name = require_typed_confirmation(request)?;
        let bus_id = require_resource_id(request, "event-bus/")?;
        Ok(Planned::Call(Call::DeleteEventBus { bus_name, bus_id }))
    } else if text_eq(action, "create_rule") {
        let bus_name = require_resource_id(request, "event-bus/")?;
        let rule_name = require_payload_text(request, "rule_name")?;
        let event_pattern = require_json_payload_text(request, "event_pattern", DEFAULT_EVENT_PATTERN)?;
        Ok(Planned::Call(Call::CreateRule { bus_name, rule_name, event_pattern }))
    } else if text_eq(action, "delete_rule") {
        let rule_name = require_typed_confirmation(request)?;
        let (bus_name, rule_id) = require_rule_id(request)?;
        Ok(Planned::Call(Call::DeleteRule { rule_name, bus_name, rule_id }))
    } else if text_eq(action, "put_event") {
        let bus_name = require_resource_id(request, "event-bus/")?;
        let source = require_payload_text(request, "source")?;
        let detail_type = require_payload_text(request, "detail_type")?;
        let detail = require_json_payload_text(request, "detail", "{}")?;
        Ok(Planned::Call(Call::PutEvent { bus_name, source, detail_type, detail }))
    } else if text_eq(action, "refresh_event_bus") {
        let bus_name = require_resource_id(request, "event-bus/")?;
        let message = String::from_str("Event bus refresh completed.");
        let mut id = String::from_str("event-bus/");
        id.append(bus_name.as_str());
        Ok(Planned::Done(action_result(false, message, Some(id))))
    } else {
        Err(unsupported_action(request))
    }
}

/// The result of `call` once it succeeded with `reply`.
pub open spec fn result_of(call: Call, reply: CallReply) -> ActionResultView {
    match call {
        Call::CreateEventBus { bus_name } => result_view(
            true,
            "Created EventBridge bus `"@ + bus_name@ + "`."@,
            Some("event-bus/"@ + bus_name@),
        ),
        Call::DeleteEventBus { bus_name, bus_id } => result_view(
            true,
            "Deleted EventBridge bus `"@ + bus_name@ + "`."@,
            Some("event-bus/"@ + bus_id@),
        ),
        Call::CreateRule { rule_name, bus_name, .. } => result_view(
            true,
            "Created EventBridge rule `"@ + rule_name@ + "`."@,
            (if reply.value is Some {
                            Some("rule/"@ + bus_name@ + "/"@ + rule_name@)
                        } else {
                            None
                        }),
        ),
        Call::DeleteRule { rule_name, bus_name, rule_id } => result_view(
            true,
            "Deleted EventBridge rule `"@ + rule_name@ + "`."@,
            Some("rule/"@ + bus_name@ + "/"@ + rule_id@),
        ),
        Call::PutEvent { bus_name, .. } => result_view(
            true,
            "Put EventBridge event with "@ + digits_of(reply.count as nat) + " failed entries."@,
            Some("event-bus/"@ + bus_name@),
        ),
    }
}

/// The result reported once `call` succeeded with `reply`.
pub fn completed(call: &Call, reply: &CallReply) -> (r: ActionResult)
    ensures
        r@ == result_of(*call, *reply),
{
    match call {
        Call::CreateEventBus { bus_name } => {
            let mut message = String::from_str("Created EventBridge bus `");
            message.append(bus_name.as_str());
            message.append("`.");
            let mut id = String::from_str("event-bus/");
            id.append(bus_name.as_str());
            action_result(true, message, Some(id))
        },
        Call::DeleteEventBus { bus_name, bus_id } => {
            let mut message = String::from_str("Deleted EventBridge bus `");
            message.append(bus_name.as_str());
            message.append("`.");
            let mut id = String::from_str("event-bus/");
            id.append(bus_id.as_str());
            action_result(true, message, Some(id))
        },
        Call::CreateRule { rule_name, bus_name, .. } => {
            let mut message = String::from_str("Created EventBridge rule `");
            message.append(rule_name.as_str());
            message.append("`.");
            let t1 = if reply.value.is_some() {
                    let mut id = String::from_str("rule/");
                    id.append(bus_name.as_str());
                    id.append("/");
                    id.append(rule_name.as_str());
                    Some(id)
                } else {
                    None
                };
            action_result(true, message, t1)
        },
        Call::DeleteRule { rule_name, bus_name, rule_id } => {
            let mut message = String::from_str("Deleted EventBridge rule `");
            message.append(rule_name.as_str());
            message.append("`.");
            let mut id = String::from_str("rule/");
            id.append(bus_name.as_str());
            id.append("/");
            id.append(rule_id.as_str());
            action_result(true, message, Some(id))
        },
        Call::PutEvent { bus_name, .. } => {
            let t1 = nat_text(reply.count as u64);
            let mut message = String::from_str("Put EventBridge event with ");
            message.append(t1.as_str());
            message.append(" failed entries.");
            let mut id = String::from_str("event-bus/");
            id.append(bus_name.as_str());
            action_result(true, message, Some(id))
        },
    }
}

/// Every call planned for an action request performs the requested action.
pub proof fn lemma_plan_performs_requested_action(request: ServiceActionRequest)
    ensures
        action_plan(request) matches Ok(PlannedView::Call(c)) ==> c.name == request.action@,
{
}

/// A destructive action is only planned once the typed confirmation matches.
pub proof fn lemma_destructive_actions_are_confirmed(request: ServiceActionRequest)
    ensures
        action_plan(request) is Ok && destructive(request.action@) ==> typed_confirmation(request) is Ok,
{
    reveal_strlit("create_event_bus");
    lemma_not_destructive("create_event_bus"@);
    reveal_strlit("create_rule");
    lemma_not_destructive("create_rule"@);
    reveal_strlit("put_event");
    lemma_not_destructive("put_event"@);
    reveal_strlit("refresh_event_bus");
    lemma_not_destructive("refresh_event_bus"@);
}

/// The operations the EventBridge page lists as unavailable.
pub open spec fn unsupported_operations() -> Seq<Seq<char>> {
    seq!["put_target"@, "delete_target"@]
}

/// The name under which the service's inventory page is shown.
pub open spec fn label() -> Seq<char> {
    "EventBridge"@
}

/// How far this adapter supports the service: it manages its resources.
pub open spec fn support_level() -> ServiceSupportLevel {
    ServiceSupportLevel::Managed
}

/// The EventBridge inventory page: the listed `resources` under the EventBridge tabs, refreshed
/// at `refreshed_at`.
pub fn inventory(
    resources: Vec<ResourceSummary>,
    refreshed_at: String,
) -> (inv: ServiceInventory)
    ensures
        inv@ == (InventoryView {
            service_key: "eventbridge"@,
            service_label: label(),
            support_level: support_level(),
            refreshed_at: refreshed_at@,
            tabs: inventory_tabs(),
            resources: summary_views(resources@),
            unsupported_operations: unsupported_operations(),
        }),
{
    let mut ops: Vec<String> = Vec::new();
    ops.push(String::from_str("put_target"));
    ops.push(String::from_str("delete_target"));
    proof {
        assert(ops.deep_view() =~= unsupported_operations());
    }
    build_inventory(
        "eventbridge",
        "EventBridge",
        ServiceSupportLevel::Managed,
        refreshed_at,
        tabs(),
        resources,
        ops,
    )
}

} // verus!
