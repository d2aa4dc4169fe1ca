//! Elastic Load Balancing v2.
use vstd::prelude::*;
use vstd::string::*;

use crate::service_management::actions::{
    require_name_payload, require_typed_confirmation, required_text, typed_confirmation,
};
use crate::service_management::adapters::payload::{
    i32_or, optional_i32, optional_payload_i32, optional_payload_i32_or, optional_payload_text_or,
    optional_text, require_payload_text, require_resource_id, require_split, resource_name_from_arn,
    selected_resource, split_required,
};
use crate::service_management::adapters::{
    action_result, bool_to_text, build_inventory, call_of, destructive, flag_text,
    lemma_not_destructive, no_attributes, option_flag, option_value, planned_call, planned_outcome,
    put_attr, result_view, shows, summary, text_or, texts_of, then_text, unsupported_action,
    unsupported_action_error, with_attr, CallReply, CallView, Planned, PlannedView,
};
use crate::service_management::errors::{ErrorView, ServiceManagementError};
use crate::service_management::models::{
    single_kind_tab, summary_views, tab, tab_views, ActionResult, ActionResultView, InventoryView,
    ResourceSummary, ResourceTab, ServiceActionRequest, ServiceInventory, ServiceSupportLevel,
    TabView,
};
use crate::service_management::text_map::TextMap;
use crate::text::{
    concat2, concat4, decimal, int_text, last_segment, lower_text, lower_text_exec, text_eq,
    upper_text, upper_text_exec,
};
use crate::service_management::adapters::payload::pair_outcome;
use crate::text::{has_char, lemma_split_once_after};
use crate::service_management::adapters::network_observability::route53::{join_values, joined};

verus! {

/// The tabs of the Elastic Load Balancing v2 inventory page.
pub open spec fn inventory_tabs() -> Seq<TabView> {
    seq![
        single_kind_tab("load-balancers"@, "Load Balancers"@, "load-balancer"@, "No load balancers were found in the local emulator."@),
        single_kind_tab("listeners"@, "Listeners"@, "listener"@, "No listeners are loaded."@),
        single_kind_tab("rules"@, "Rules"@, "listener-rule"@, "No listener rules are loaded."@),
        single_kind_tab("target-groups"@, "Target Groups"@, "target-group"@, "No target groups were found in the local emulator."@),
        single_kind_tab("targets"@, "Targets"@, "target"@, "No registered targets are loaded."@),
    ]
}

/// The tabs of the Elastic Load Balancing v2 inventory page.
pub fn tabs() -> (t: Vec<ResourceTab>)
    ensures
        tab_views(t@) == inventory_tabs(),
{
    let mut t: Vec<ResourceTab> = Vec::new();
    t.push(tab("load-balancers", "Load Balancers", "load-balancer", "No load balancers were found in the local emulator."));
    t.push(tab("listeners", "Listeners", "listener", "No listeners are loaded."));
    t.push(tab("rules", "Rules", "listener-rule", "No listener rules are loaded."));
    t.push(tab("target-groups", "Target Groups", "target-group", "No target groups were found in the local emulator."));
    t.push(tab("targets", "Targets", "target", "No registered targets are loaded."));
    assert(tab_views(t@) =~= inventory_tabs());
    t
}

/// The target group and target named by the selected `target/<group>||<target>` id.
pub open spec fn target_selection(request: ServiceActionRequest) -> Result<(Seq<char>, Seq<char>), ErrorView> {
    match selected_resource(request, "target/"@) {
        Ok(v) => split_required(request, v, "||"@, "Select a registered target before running this action."@),
        Err(e) => Err(e),
    }
}

/// The target group ARN and target id of the selected target.
pub fn selected_target(request: &ServiceActionRequest) -> (r: Result<(String, String), ServiceManagementError>)
    ensures
        pair_outcome(r) == target_selection(*request),
{
    let selected = require_resource_id(request, "target/")?;
    require_split(request, selected.as_str(), "||", "Select a registered target before running this action.")
}

/// The id under which a registered target is listed: `target/<group>||<target>`.
pub open spec fn target_id_text(target_group_arn: Seq<char>, target_id: Seq<char>) -> Seq<char> {
    "target/"@ + target_group_arn + "||"@ + target_id
}

/// The id under which a registered target is listed.
pub fn target_resource_id(target_group_arn: &str, target_id: &str) -> (r: String)
    ensures
        r@ == target_id_text(target_group_arn@, target_id@),
{
    concat4("target/", target_group_arn, "||", target_id)
}

/// A target listed by the inventory is selected again by an action on it,
/// when its group ARN holds no `|`.
pub proof fn lemma_listed_target_is_selectable(
    request: ServiceActionRequest,
    target_group_arn: Seq<char>,
    target_id: Seq<char>,
)
    requires
        request.resource_id matches Some(id) && id@ == target_id_text(target_group_arn, target_id),
        !has_char(target_group_arn, '|'),
    ensures
        target_selection(request) == Ok::<(Seq<char>, Seq<char>), ErrorView>((target_group_arn, target_id)),
{
    reveal_strlit("target/");
    reveal_strlit("||");
    let id = request.resource_id->Some_0@;
    let body = target_group_arn + "||"@ + target_id;
    assert(id =~= "target/"@ + body);
    assert(id.subrange(0, 7) =~= "target/"@);
    assert(id.subrange(7, id.len() as int) =~= body);
    lemma_split_once_after(target_group_arn, "||"@, target_id);
}

/// The view of an optional `i32` as its decimal text.
pub open spec fn port_text(n: Option<i32>) -> Option<Seq<char>> {
    match n {
        Some(v) => Some(decimal(v as int)),
        None => None,
    }
}

/// The resource listed for a registered target; its status is its health
/// state, `registered` when none is known.
pub fn target_summary(
    target_group_arn: &str,
    target_id: &str,
    port: Option<i32>,
    health_check_port: Option<String>,
    state: Option<String>,
    reason: Option<String>,
    description: Option<String>,
) -> (r: ResourceSummary)
    ensures
        r.wf(),
        shows(
            r@,
            target_id_text(target_group_arn@, target_id@),
            target_id@,
            "target"@,
            text_or(state.deep_view(), "registered"@),
            None,
            None,
            with_attr(
                with_attr(
                    with_attr(
                        with_attr(
                            with_attr(map!["target_group_arn"@ => target_group_arn@], "port"@, port_text(port)),
                            "health_check_port"@,
                            health_check_port.deep_view(),
                        ),
                        "state"@,
                        state.deep_view(),
                    ),
                    "reason"@,
                    reason.deep_view(),
                ),
                "description"@,
                description.deep_view(),
            ),
        ),
{
    let status = match &state {
        Some(s) => s.clone(),
        None => String::from_str("registered"),
    };
    let mut attributes: TextMap<String> = TextMap::new();
    attributes.insert(String::from_str("target_group_arn"), String::from_str(target_group_arn));
    proof {
        assert(texts_of(attributes@) =~= map!["target_group_arn"@ => target_group_arn@]);
    }
    let port_value = match port {
        Some(p) => Some(int_text(p as i64)),
        None => None,
    };
    put_attr(&mut attributes, "port", port_value);
    put_attr(&mut attributes, "health_check_port", health_check_port);
    put_attr(&mut attributes, "state", state);
    put_attr(&mut attributes, "reason", reason);
    put_attr(&mut attributes, "description", description);
    summary(
        target_resource_id(target_group_arn, target_id),
        String::from_str(target_id),
        "target",
        status,
        None,
        None,
        attributes,
    )
}

/// The attributes listed for a load balancer.
pub open spec fn load_balancer_attributes(
    dns_name: Option<Seq<char>>,
    vpc_id: Option<Seq<char>>,
    scheme: Option<Seq<char>>,
    kind: Option<Seq<char>>,
    state: Option<Seq<char>>,
) -> Map<Seq<char>, Seq<char>> {
    let m = with_attr(Map::empty(), "dns_name"@, dns_name);
    let m = with_attr(m, "vpc_id"@, vpc_id);
    let m = with_attr(m, "scheme"@, scheme);
    let m = with_attr(m, "type"@, kind);
    with_attr(m, "state"@, state)
}

/// The resource listed for a load balancer: named by its name, or else by the
/// last segment of its ARN, with its state code as status (`available` when
/// it reports none).
pub fn load_balancer_summary(
    load_balancer_arn: &str,
    load_balancer_name: Option<String>,
    created_at: Option<String>,
    dns_name: Option<String>,
    vpc_id: Option<String>,
    scheme: Option<String>,
    kind: Option<String>,
    state: Option<String>,
) -> (r: ResourceSummary)
    ensures
        r.wf(),
        shows(
            r@,
            "load-balancer/"@ + load_balancer_arn@,
            text_or(load_balancer_name.deep_view(), last_segment(load_balancer_arn@, ":/"@)),
            "load-balancer"@,
            text_or(state.deep_view(), "available"@),
            created_at.deep_view(),
            None,
            load_balancer_attributes(
                dns_name.deep_view(),
                vpc_id.deep_view(),
                scheme.deep_view(),
                kind.deep_view(),
                state.deep_view(),
            ),
        ),
{
    let ghost views = (dns_name.deep_view(), vpc_id.deep_view(), scheme.deep_view(), kind.deep_view(), state.deep_view());
    let name = match load_balancer_name {
        Some(n) => n,
        None => resource_name_from_arn(load_balancer_arn),
    };
    let status = match &state {
        Some(s) => s.clone(),
        None => String::from_str("available"),
    };
    let mut attributes = no_attributes();
    put_attr(&mut attributes, "dns_name", dns_name);
    put_attr(&mut attributes, "vpc_id", vpc_id);
    put_attr(&mut attributes, "scheme", scheme);
    put_attr(&mut attributes, "type", kind);
    put_attr(&mut attributes, "state", state);
    assert(texts_of(attributes@) == load_balancer_attributes(views.0, views.1, views.2, views.3, views.4));
    summary(concat2("load-balancer/", load_balancer_arn), name, "load-balancer", status, created_at, None, attributes)
}

/// The name of a listener: its protocol (`listener` when it has none), a
/// colon, and its port (0 when it has none).
pub open spec fn listener_name(protocol: Option<Seq<char>>, port: Option<i32>) -> Seq<char> {
    text_or(protocol, "listener"@) + ":"@ + decimal(
        match port {
            Some(p) => p as int,
            None => 0,
        },
    )
}

/// The resource listed for a listener; its status is its protocol, `active`
/// when it has none.
pub fn listener_summary(
    listener_arn: &str,
    load_balancer_arn: Option<String>,
    protocol: Option<String>,
    port: Option<i32>,
) -> (r: ResourceSummary)
    ensures
        r.wf(),
        shows(
            r@,
            "listener/"@ + listener_arn@,
            listener_name(protocol.deep_view(), port),
            "listener"@,
            text_or(protocol.deep_view(), "active"@),
            None,
            None,
            with_attr(
                with_attr(
                    with_attr(Map::empty(), "load_balancer_arn"@, load_balancer_arn.deep_view()),
                    "port"@,
                    port_text(port),
                ),
                "protocol"@,
                protocol.deep_view(),
            ),
        ),
{
    let number: i64 = match port {
        Some(p) => p as i64,
        None => 0,
    };
    let mut name = match &protocol {
        Some(p) => p.clone(),
        None => String::from_str("listener"),
    };
    name.append(":");
    let digits = int_text(number);
    name.append(digits.as_str());
    let status = match &protocol {
        Some(p) => p.clone(),
        None => String::from_str("active"),
    };
    let port_value = match port {
        Some(p) => Some(int_text(p as i64)),
        None => None,
    };
    let mut attributes = no_attributes();
    put_attr(&mut attributes, "load_balancer_arn", load_balancer_arn);
    put_attr(&mut attributes, "port", port_value);
    put_attr(&mut attributes, "protocol", protocol);
    summary(concat2("listener/", listener_arn), name, "listener", status, None, None, attributes)
}

/// The resource listed for a listener rule: named `priority <priority>`
/// (`default` when it has none), with status `default` for the default rule
/// and `active` for the others.
pub fn listener_rule_summary(
    rule_arn: &str,
    listener_arn: &str,
    priority: Option<String>,
    is_default: Option<bool>,
) -> (r: ResourceSummary)
    ensures
        r.wf(),
        shows(
            r@,
            "listener-rule/"@ + rule_arn@,
            "priority "@ + text_or(priority.deep_view(), "default"@),
            "listener-rule"@,
            if is_default == Some(true) { "default"@ } else { "active"@ },
            None,
            None,
            with_attr(
                with_attr(map!["listener_arn"@ => listener_arn@], "priority"@, priority.deep_view()),
                "is_default"@,
                flag_text(is_default),
            ),
        ),
{
    let name = match &priority {
        Some(p) => concat2("priority ", p.as_str()),
        None => String::from_str("priority default"),
    };
    proof {
        reveal_strlit("priority ");
        reveal_strlit("default");
        reveal_strlit("priority default");
        assert("priority default"@ =~= "priority "@ + "default"@);
    }
    let status = match is_default {
        Some(true) => String::from_str("default"),
        _ => String::from_str("active"),
    };
    let flag = match is_default {
        Some(b) => Some(bool_to_text(b)),
        None => None,
    };
    let mut attributes: TextMap<String> = TextMap::new();
    attributes.insert(String::from_str("listener_arn"), String::from_str(listener_arn));
    assert(texts_of(attributes@) =~= map!["listener_arn"@ => listener_arn@]);
    put_attr(&mut attributes, "priority", priority);
    put_attr(&mut attributes, "is_default", flag);
    summary(concat2("listener-rule/", rule_arn), name, "listener-rule", status, None, None, attributes)
}

/// The attributes listed for a target group.
pub open spec fn target_group_attributes(
    vpc_id: Option<Seq<char>>,
    port: Option<i32>,
    health_check_port: Option<Seq<char>>,
    protocol_version: Option<Seq<char>>,
    load_balancer_arns: Seq<Seq<char>>,
    protocol: Option<Seq<char>>,
    target_type: Option<Seq<char>>,
) -> Map<Seq<char>, Seq<char>> {
    let m = with_attr(Map::empty(), "vpc_id"@, vpc_id);
    let m = with_attr(m, "port"@, port_text(port));
    let m = with_attr(m, "health_check_port"@, health_check_port);
    let m = with_attr(m, "protocol_version"@, protocol_version);
    let m = m.insert("load_balancer_arns"@, joined(load_balancer_arns));
    let m = with_attr(m, "protocol"@, protocol);
    with_attr(m, "target_type"@, target_type)
}

/// The resource listed for a target group: named by its name, or else by the
/// last segment of its ARN, with its target type as status (`available` when
/// it has none) and the load balancers it serves joined with `, `.
pub fn target_group_summary(
    target_group_arn: &str,
    target_group_name: Option<String>,
    vpc_id: Option<String>,
    port: Option<i32>,
    health_check_port: Option<String>,
    protocol_version: Option<String>,
    load_balancer_arns: &Vec<String>,
    protocol: Option<String>,
    target_type: Option<String>,
) -> (r: ResourceSummary)
    ensures
        r.wf(),
        shows(
            r@,
            "target-group/"@ + target_group_arn@,
            text_or(target_group_name.deep_view(), last_segment(target_group_arn@, ":/"@)),
            "target-group"@,
            text_or(target_type.deep_view(), "available"@),
            None,
            None,
            target_group_attributes(
                vpc_id.deep_view(),
                port,
                health_check_port.deep_view(),
                protocol_version.deep_view(),
                load_balancer_arns.deep_view(),
                protocol.deep_view(),
                target_type.deep_view(),
            ),
        ),
{
    let ghost views = (
        vpc_id.deep_view(),
        health_check_port.deep_view(),
        protocol_version.deep_view(),
        protocol.deep_view(),
        target_type.deep_view(),
    );
    let name = match target_group_name {
        Some(n) => n,
        None => resource_name_from_arn(target_group_arn),
    };
    let status = match &target_type {
        Some(t) => t.clone(),
        None => String::from_str("available"),
    };
    let port_value = match port {
        Some(p) => Some(int_text(p as i64)),
        None => None,
    };
    let mut attributes = no_attributes();
    put_attr(&mut attributes, "vpc_id", vpc_id);
    put_attr(&mut attributes, "port", port_value);
    put_attr(&mut attributes, "health_check_port", health_check_port);
    put_attr(&mut attributes, "protocol_version", protocol_version);
    let ghost before = attributes@;
    let arns = join_values(load_balancer_arns);
    let ghost arns_text = arns@;
    attributes.insert(String::from_str("load_balancer_arns"), arns);
    assert(texts_of(attributes@) =~= texts_of(before).insert("load_balancer_arns"@, arns_text));
    put_attr(&mut attributes, "protocol", protocol);
    put_attr(&mut attributes, "target_type", target_type);
    assert(texts_of(attributes@) == target_group_attributes(
        views.0,
        port,
        views.1,
        views.2,
        load_balancer_arns.deep_view(),
        views.3,
        views.4,
    ));
    summary(concat2("target-group/", target_group_arn), name, "target-group", status, None, None, attributes)
}

/// A call to Elastic Load Balancing, with its validated inputs.
#[derive(Debug, Clone)]
pub enum Call {
    CreateTargetGroup { target_group_name: String, vpc_id: String, protocol: String, port: i32, target_type: String },
    RegisterTarget { target_group_arn: String, target_id: String, port: Option<i32> },
    DeregisterTarget { target_name: String, target_group_arn: String, target_id: String, port: Option<i32> },
    DeleteListener { listener_name: String, listener_arn: String },
    DeleteLoadBalancer { load_balancer_name: String, load_balancer_arn: String },
}

impl View for Call {
    type V = CallView;

    open spec fn view(&self) -> CallView {
        match self {
            Call::CreateTargetGroup { target_group_name, vpc_id, protocol, port, target_type } => call_of(
                "create_target_group"@,
                seq![target_group_name@, vpc_id@, protocol@, target_type@],
                seq![*port as int],
            ),
            Call::RegisterTarget { target_group_arn, target_id, port } => call_of(
                "register_target"@,
                seq![target_group_arn@, target_id@],
                seq![option_flag(*port), option_value(*port)],
            ),
            Call::DeregisterTarget { target_name, target_group_arn, target_id, port } => call_of(
                "deregister_target"@,
                seq![target_name@, target_group_arn@, target_id@],
                seq![option_flag(*port), option_value(*port)],
            ),
            Call::DeleteListener { listener_name, listener_arn } => call_of(
                "delete_listener"@,
                seq![listener_name@, listener_arn@],
                seq![],
            ),
            Call::DeleteLoadBalancer { load_balancer_name, load_balancer_arn } => call_of(
                "delete_load_balancer"@,
                seq![load_balancer_name@, load_balancer_arn@],
                seq![],
            ),
        }
    }
}

/// What an action request on Elastic Load Balancing asks for.
pub open spec fn action_plan(request: ServiceActionRequest) -> Result<PlannedView, ErrorView> {
    let a = request.action@;
    if a == "create_target_group"@ {
        then_text(
            required_text(request, "target_group_name"@),
            |target_group_name: Seq<char>|
                then_text(
                    required_text(request, "vpc_id"@),
                    |vpc_id: Seq<char>|
                        {
                            let protocol = upper_text(text_or(optional_text(request, "protocol"@), "HTTP"@));
                            {
                                let port = i32_or(optional_i32(request, "port"@), 80);
                                {
                                    let target_type = lower_text(text_or(optional_text(request, "target_type"@), "instance"@));
                                    planned_call(a, seq![target_group_name, vpc_id, protocol, target_type], seq![port])
                                }
                            }
                        },
                ),
        )
    } else if a == "register_target"@ {
        then_text(
            selected_resource(request, "target-group/"@),
            |target_group_arn: Seq<char>|
                then_text(
                    required_text(request, "target_id"@),
                    |target_id: Seq<char>|
                        {
                            let port = optional_i32(request, "port"@);
                            planned_call(a, seq![target_group_arn, target_id], seq![option_flag(port), option_value(port)])
                        },
                ),
        )
    } else if a == "deregister_target"@ {
        then_text(
            typed_confirmation(request),
            |target_name: Seq<char>|
                match target_selection(request) {
                    Ok(p) => {
                        let target_group_arn = p.0;
                        let target_id = p.1;
                        {
                            let port = optional_i32(request, "port"@);
                            planned_call(a, seq![target_name, target_group_arn, target_id], seq![option_flag(port), option_value(port)])
                        }
                    },
                    Err(e) => Err(e),
                },
        )
    } else if a == "delete_listener"@ {
        then_text(
            typed_confirmation(request),
            |listener_name: Seq<char>|
                then_text(
                    selected_resource(request, "listener/"@),
                    |listener_arn: Seq<char>|
                        planned_call(a, seq![listener_name, listener_arn], seq![]),
                ),
        )
    } else if a == "delete_load_balancer"@ {
        then_text(
            typed_confirmation(request),
            |load_balancer_name: Seq<char>|
                then_text(
                    selected_resource(request, "load-balancer/"@),
                    |load_balancer_arn: Seq<char>|
                        planned_call(a, seq![load_balancer_name, load_balancer_arn], seq![]),
                ),
        )
    } else {
        Err(unsupported_action_error(request))
    }
}

/// Validates an action request on Elastic Load Balancing and decides what to do.
pub fn plan_action(request: &ServiceActionRequest) -> (r: Result<Planned<Call>, ServiceManagementError>)
    requires
        request.payload.wf(),
    ensures
        planned_outcome(r) == action_plan(*request),
        r matches Ok(Planned::Call(Call::CreateTargetGroup { target_group_name, vpc_id, .. })) ==> {
            &&& request.action@ == "create_target_group"@
            &&& required_text(*request, "target_group_name"@) == Ok::<Seq<char>, ErrorView>(target_group_name@)
            &&& required_text(*request, "vpc_id"@) == Ok::<Seq<char>, ErrorView>(vpc_id@)
        },
        r matches Ok(Planned::Call(Call::RegisterTarget { target_group_arn, target_id, .. })) ==> {
            &&& request.action@ == "register_target"@
            &&& selected_resource(*request, "target-group/"@) == Ok::<Seq<char>, ErrorView>(target_group_arn@)
            &&& required_text(*request, "target_id"@) == Ok::<Seq<char>, ErrorView>(target_id@)
        },
        r matches Ok(Planned::Call(Call::DeregisterTarget { target_name, .. })) ==> {
            &&& request.action@ == "deregister_target"@
            &&& typed_confirmation(*request) == Ok::<Seq<char>, ErrorView>(target_name@)
        },
        r matches Ok(Planned::Call(Call::DeleteListener { listener_name, listener_arn })) ==> {
            &&& request.action@ == "delete_listener"@
            &&& typed_confirmation(*request) == Ok::<Seq<char>, ErrorView>(listener_name@)
            &&& selected_resource(*request, "listener/"@) == Ok::<Seq<char>, ErrorView>(listener_arn@)
        },
        r matches Ok(Planned::Call(Call::DeleteLoadBalancer { load_balancer_name, load_balancer_arn })) ==> {
            &&& request.action@ == "delete_load_balancer"@
            &&& typed_confirmation(*request) == Ok::<Seq<char>, ErrorView>(load_balancer_name@)
            &&& selected_resource(*request, "load-balancer/"@) == Ok::<Seq<char>, ErrorView>(load_balancer_arn@)
        },
{
    let action = request.action.as_str();
    if text_eq(action, "create_target_group") {
        let target_group_name = require_name_payload(request, "target_group_name")?;
        let vpc_id = require_payload_text(request, "vpc_id")?;
        let protocol = optional_payload_text_or(request, "protocol", "HTTP");
        let protocol = upper_text_exec(protocol.as_str());
        let port: i32 = optional_payload_i32_or(request, "port", 80);
        let target_type = optional_payload_text_or(request, "target_type", "instance");
        let target_type = lower_text_exec(target_type.as_str());
        Ok(Planned::Call(Call::CreateTargetGroup { target_group_name, vpc_id, protocol, port, target_type }))
    } else if text_eq(action, "register_target") {
        let target_group_arn = require_resource_id(request, "target-group/")?;
        let target_id = require_payload_text(request, "target_id")?;
        let port = optional_payload_i32(request, "port");
        Ok(Planned::Call(Call::RegisterTarget { target_group_arn, target_id, port }))
    } else if text_eq(action, "deregister_target") {
        let target_name = require_typed_confirmation(request)?;
        let (target_group_arn, target_id) = selected_target(request)?;
        let port = optional_payload_i32(request, "port");
        Ok(Planned::Call(Call::DeregisterTarget { target_name, target_group_arn, target_id, port }))
    } else if text_eq(action, "delete_listener") {
        let listener_name = require_typed_confirmation(request)?;
        let listener_arn = require_resource_id(request, "listener/")?;
        Ok(Planned::Call(Call::DeleteListener { listener_name, listener_arn }))
    } else if text_eq(action, "delete_load_balancer") {
        let load_balancer_name = require_typed_confirmation(request)?;
        let load_balancer_arn = require_resource_id(request, "load-balancer/")?;
        Ok(Planned::Call(Call::DeleteLoadBalancer { load_balancer_name, load_balancer_arn }))
    } else {
        Err(unsupported_action(request))
    }
}

/// The result of `call` once it succeeded with `reply`.
pub open spec fn result_of(call: Call, reply: CallReply) -> ActionResultView {
    match call {
        Call::CreateTargetGroup { target_group_name, .. } => result_view(
            true,
            "Created target group `"@ + target_group_name@ + "`."@,
            (match reply.value.deep_view() {
                            Some(v) => Some("target-group/"@ + v),
                            None => None,
                        }),
        ),
        Call::RegisterTarget { target_id, target_group_arn, .. } => result_view(
            true,
            "Registered target `"@ + target_id@ + "`."@,
            Some("target/"@ + target_group_arn@ + "||"@ + target_id@),
        ),
        Call::DeregisterTarget { target_name, target_group_arn, target_id, .. } => result_view(
            true,
            "Deregistered target `"@ + target_name@ + "`."@,
            Some("target/"@ + target_group_arn@ + "||"@ + target_id@),
        ),
        Call::DeleteListener { listener_name, listener_arn } => result_view(
            true,
            "Deleted listener `"@ + listener_name@ + "`."@,
            Some("listener/"@ + listener_arn@),
        ),
        Call::DeleteLoadBalancer { load_balancer_name, load_balancer_arn } => result_view(
            true,
            "Deleted load balancer `"@ + load_balancer_name@ + "`."@,
            Some("load-balancer/"@ + load_balancer_arn@),
        ),
    }
}

/// The result reported once `call` succeeded with `reply`.
pub fn completed(call: &Call, reply: &CallReply) -> (r: ActionResult)
    ensures
        r@ == result_of(*call, *reply),
{
    match call {
        Call::CreateTargetGroup { target_group_name, .. } => {
            let mut message = String::from_str("Created target group `");
            message.append(target_group_name.as_str());
            message.append("`.");
            let t1 = match &reply.value {
                Some(v) => {
                    let mut id = String::from_str("target-group/");
                    id.append(v.as_str());
                    Some(id)
                },
                None => None,
            };
            action_result(true, message, t1)
        },
        Call::RegisterTarget { target_id, target_group_arn, .. } => {
            let mut message = String::from_str("Registered target `");
            message.append(target_id.as_str());
            message.append("`.");
            let mut id = String::from_str("target/");
            id.append(target_group_arn.as_str());
            id.append("||");
            id.append(target_id.as_str());
            action_result(true, message, Some(id))
        },
        Call::DeregisterTarget { target_name, target_group_arn, target_id, .. } => {
            let mut message = String::from_str("Deregistered target `");
            message.append(target_name.as_str());
            message.append("`.");
            let mut id = String::from_str("target/");
            id.append(target_group_arn.as_str());
            id.append("||");
            id.append(target_id.as_str());
            action_result(true, message, Some(id))
        },
        Call::DeleteListener { listener_name, listener_arn } => {
            let mut message = String::from_str("Deleted listener `");
            message.append(listener_name.as_str());
            message.append("`.");
            let mut id = String::from_str("listener/");
            id.append(listener_arn.as_str());
            action_result(true, message, Some(id))
        },
        Call::DeleteLoadBalancer { load_balancer_name, load_balancer_arn } => {
            let mut message = String::from_str("Deleted load balancer `");
            message.append(load_balancer_name.as_str());
            message.append("`.");
            let mut id = String::from_str("load-balancer/");
            id.append(load_balancer_arn.as_str());
            action_result(true, message, Some(id))
        },
    }
}

/// Every call planned for an action request performs the requested action.
pub proof fn lemma_plan_performs_requested_action(request: ServiceActionRequest)
    ensures
        action_plan(request) matches Ok(PlannedView::Call(c)) ==> c.name == request.action@,
{
}

/// A destructive action is only planned once the typed confirmation matches.
pub proof fn lemma_destructive_actions_are_confirmed(request: ServiceActionRequest)
    ensures
        action_plan(request) is Ok && destructive(request.action@) ==> typed_confirmation(request) is Ok,
{
    reveal_strlit("create_target_group");
    lemma_not_destructive("create_target_group"@);
    reveal_strlit("register_target");
    lemma_not_destructive("register_target"@);
}

/// The operations the Elastic Load Balancing v2 page lists as unavailable.
pub open spec fn unsupported_operations() -> Seq<Seq<char>> {
    Seq::empty()
}

/// The name under which the service's inventory page is shown.
pub open spec fn label() -> Seq<char> {
    "Elastic Load Balancing v2"@
}

/// How far this adapter supports the service: it manages its resources.
pub open spec fn support_level() -> ServiceSupportLevel {
    ServiceSupportLevel::Managed
}

/// The Elastic Load Balancing v2 inventory page: the listed `resources` under the Elastic Load Balancing v2 tabs, refreshed
/// at `refreshed_at`.
pub fn inventory(
    resources: Vec<ResourceSummary>,
    refreshed_at: String,
) -> (inv: ServiceInventory)
    ensures
        inv@ == (InventoryView {
            service_key: "elbv2"@,
            service_label: label(),
            support_level: support_level(),
            refreshed_at: refreshed_at@,
            tabs: inventory_tabs(),
            resources: summary_views(resources@),
            unsupported_operations: unsupported_operations(),
        }),
{
    let ops: Vec<String> = Vec::new();
    proof {
        assert(ops.deep_view() =~= unsupported_operations());
    }
    build_inventory(
        "elbv2",
        "Elastic Load Balancing v2",
        ServiceSupportLevel::Managed,
        refreshed_at,
        tabs(),
        resources,
        ops,
    )
}

} // verus!
