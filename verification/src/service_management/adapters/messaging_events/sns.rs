//! SNS.
use vstd::prelude::*;
use vstd::string::*;

use crate::service_management::actions::{
    require_name_payload, require_typed_confirmation, required_text, typed_confirmation,
};
use crate::service_management::adapters::payload::{
    require_payload_text, require_resource_id, resource_name_from_arn, selected_resource,
};
use crate::service_management::adapters::{
    action_result, attributes_from, build_inventory, call_of, destructive, lemma_not_destructive,
    pair_views, pairs_map, planned_call, planned_done, planned_outcome, result_view, shows, summary,
    text_or, texts_of, then_text, unsupported_action, unsupported_action_error, CallReply, CallView,
    Planned, PlannedView,
};
use crate::service_management::errors::{ErrorView, ServiceManagementError};
use crate::service_management::models::{
    single_kind_tab, summary_views, tab, tab_views, ActionResult, ActionResultView, InventoryView,
    ResourceSummary, ResourceTab, ServiceActionRequest, ServiceInventory, ServiceSupportLevel,
    SummaryView, TabView,
};
use crate::service_management::text_map::TextMap;
use crate::text::{concat2, last_segment, text_eq};
use crate::service_management::text_map::insert_attr;

verus! {

/// The tabs of the SNS inventory page.
pub open spec fn inventory_tabs() -> Seq<TabView> {
    seq![
        single_kind_tab("topics"@, "Topics"@, "topic"@, "No SNS topics were found in the local emulator."@),
        single_kind_tab("subscriptions"@, "Subscriptions"@, "subscription"@, "No SNS subscriptions are loaded."@),
        single_kind_tab("policies"@, "Policies"@, "policy"@, "No SNS policies are loaded."@),
        single_kind_tab("delivery"@, "Delivery"@, "delivery-policy"@, "No SNS delivery policies are loaded."@),
    ]
}

/// The tabs of the SNS inventory page.
pub fn tabs() -> (t: Vec<ResourceTab>)
    ensures
        tab_views(t@) == inventory_tabs(),
{
    let mut t: Vec<ResourceTab> = Vec::new();
    t.push(tab("topics", "Topics", "topic", "No SNS topics were found in the local emulator."));
    t.push(tab("subscriptions", "Subscriptions", "subscription", "No SNS subscriptions are loaded."));
    t.push(tab("policies", "Policies", "policy", "No SNS policies are loaded."));
    t.push(tab("delivery", "Delivery", "delivery-policy", "No SNS delivery policies are loaded."));
    assert(tab_views(t@) =~= inventory_tabs());
    t
}

/// The resources listed for one topic: the topic with its attributes, then
/// its access policy and its delivery policy when it has them.
pub open spec fn topic_listing(
    topic_arn: Seq<char>,
    attributes: Seq<(Seq<char>, Seq<char>)>,
    r: Seq<SummaryView>,
) -> bool {
    let name = last_segment(topic_arn, ":/"@);
    let all = pairs_map(attributes);
    let has_policy = all.contains_key("Policy"@);
    let has_delivery = all.contains_key("DeliveryPolicy"@);
    let d = if has_policy { 2int } else { 1int };
    &&& r.len() == 1 + (if has_policy { 1int } else { 0int }) + (if has_delivery { 1int } else { 0int })
    &&& shows(r[0], "topic/"@ + topic_arn, name, "topic"@, "available"@, None, None, all)
    &&& has_policy ==> shows(
        r[1],
        "policy/"@ + topic_arn,
        name + " policy"@,
        "policy"@,
        "attached"@,
        None,
        None,
        map!["topic_arn"@ => topic_arn, "policy"@ => all["Policy"@]],
    )
    &&& has_delivery ==> shows(
        r[d],
        "delivery-policy/"@ + topic_arn,
        name + " delivery"@,
        "delivery-policy"@,
        "configured"@,
        None,
        None,
        map!["topic_arn"@ => topic_arn, "delivery_policy"@ => all["DeliveryPolicy"@]],
    )
}

/// The resources listed for the topic `topic_arn` with the given attributes.
pub fn topic_resources(topic_arn: &str, attributes: &Vec<(String, String)>) -> (r: Vec<ResourceSummary>)
    ensures
        forall|i: int| 0 <= i < r@.len() ==> (#[trigger] r@[i]).wf(),
        topic_listing(topic_arn@, pair_views(attributes@), summary_views(r@)),
{
    let name = resource_name_from_arn(topic_arn);
    let all = attributes_from(attributes);
    let policy = match all.get("Policy") {
        Some(v) => Some(v.clone()),
        None => None,
    };
    let delivery = match all.get("DeliveryPolicy") {
        Some(v) => Some(v.clone()),
        None => None,
    };
    let mut out: Vec<ResourceSummary> = Vec::new();
    out.push(
        summary(
            concat2("topic/", topic_arn),
            name.clone(),
            "topic",
            String::from_str("available"),
            None,
            None,
            all,
        ),
    );
    if let Some(p) = policy {
        let ghost text = p@;
        let mut entry: TextMap<String> = TextMap::new();
        entry.insert(String::from_str("topic_arn"), String::from_str(topic_arn));
        entry.insert(String::from_str("policy"), p);
        proof {
            assert(texts_of(entry@) =~= map!["topic_arn"@ => topic_arn@, "policy"@ => text]);
        }
        out.push(
            summary(
                concat2("policy/", topic_arn),
                concat2(name.as_str(), " policy"),
                "policy",
                String::from_str("attached"),
                None,
                None,
                entry,
            ),
        );
    }
    if let Some(p) = delivery {
        let ghost text = p@;
        let mut entry: TextMap<String> = TextMap::new();
        entry.insert(String::from_str("topic_arn"), String::from_str(topic_arn));
        entry.insert(String::from_str("delivery_policy"), p);
        proof {
            assert(texts_of(entry@) =~= map!["topic_arn"@ => topic_arn@, "delivery_policy"@ => text]);
        }
        out.push(
            summary(
                concat2("delivery-policy/", topic_arn),
                concat2(name.as_str(), " delivery"),
                "delivery-policy",
                String::from_str("configured"),
                None,
                None,
                entry,
            ),
        );
    }
    proof {
        let v = summary_views(out@);
        assert forall|j: int| 0 <= j < out@.len() implies v[j] == out@[j]@ by {}
    }
    out
}

/// The attributes of a subscription: its topic, protocol and endpoint, when known.
pub open spec fn subscription_attributes(
    topic_arn: Option<Seq<char>>,
    protocol: Option<Seq<char>>,
    endpoint: Option<Seq<char>>,
) -> Map<Seq<char>, Seq<char>> {
    let a = match topic_arn {
        Some(t) => Map::empty().insert("topic_arn"@, t),
        None => Map::empty(),
    };
    let b = match protocol {
        Some(p) => a.insert("protocol"@, p),
        None => a,
    };
    match endpoint {
        Some(e) => b.insert("endpoint"@, e),
        None => b,
    }
}

/// The resource listed for a subscription.
pub fn subscription_summary(
    subscription_arn: &str,
    topic_arn: Option<String>,
    protocol: Option<String>,
    endpoint: Option<String>,
) -> (r: ResourceSummary)
    ensures
        r.wf(),
        shows(
            r@,
            "subscription/"@ + subscription_arn@,
            last_segment(subscription_arn@, ":/"@),
            "subscription"@,
            "subscribed"@,
            None,
            None,
            subscription_attributes(topic_arn.deep_view(), protocol.deep_view(), endpoint.deep_view()),
        ),
{
    let ghost expected = subscription_attributes(topic_arn.deep_view(), protocol.deep_view(), endpoint.deep_view());
    let mut attributes: TextMap<String> = TextMap::new();
    insert_attr(&mut attributes, "topic_arn", topic_arn);
    insert_attr(&mut attributes, "protocol", protocol);
    insert_attr(&mut attributes, "endpoint", endpoint);
    proof {
        assert(texts_of(attributes@) =~= expected);
    }
    summary(
        concat2("subscription/", subscription_arn),
        resource_name_from_arn(subscription_arn),
        "subscription",
        String::from_str("subscribed"),
        None,
        None,
        attributes,
    )
}

/// A call to SNS, with its validated inputs.
#[derive(Debug, Clone)]
pub enum Call {
    CreateTopic { topic_name: String },
    DeleteTopic { topic_name: String, topic_arn: String },
    PublishMessage { topic_arn: String, message: String },
    SubscribeEndpoint { topic_arn: String, protocol: String, endpoint: String },
    DeleteSubscription { subscription_name: String, subscription_arn: String },
}

impl View for Call {
    type V = CallView;

    open spec fn view(&self) -> CallView {
        match self {
            Call::CreateTopic { topic_name } => call_of(
                "create_topic"@,
                seq![topic_name@],
                seq![],
            ),
            Call::DeleteTopic { topic_name, topic_arn } => call_of(
                "delete_topic"@,
                seq![topic_name@, topic_arn@],
                seq![],
            ),
            Call::PublishMessage { topic_arn, message } => call_of(
                "publish_message"@,
                seq![topic_arn@, message@],
                seq![],
            ),
            Call::SubscribeEndpoint { topic_arn, protocol, endpoint } => call_of(
                "subscribe_endpoint"@,
                seq![topic_arn@, protocol@, endpoint@],
                seq![],
            ),
            Call::DeleteSubscription { subscription_name, subscription_arn } => call_of(
                "delete_subscription"@,
                seq![subscription_name@, subscription_arn@],
                seq![],
            ),
        }
    }
}

/// What an action request on SNS asks for.
pub open spec fn action_plan(request: ServiceActionRequest) -> Result<PlannedView, ErrorView> {
    let a = request.action@;
    if a == "create_topic"@ {
        then_text(
            required_text(request, "topic_name"@),
            |topic_name: Seq<char>|
                planned_call(a, seq![topic_name], seq![]),
        )
    } else if a == "delete_topic"@ {
        then_text(
            typed_confirmation(request),
            |topic_name: Seq<char>|
                then_text(
                    selected_resource(request, "topic/"@),
                    |topic_arn: Seq<char>|
                        planned_call(a, seq![topic_name, topic_arn], seq![]),
                ),
        )
    } else if a == "publish_message"@ {
        then_text(
            selected_resource(request, "topic/"@),
            |topic_arn: Seq<char>|
                then_text(
                    required_text(request, "message"@),
                    |message: Seq<char>|
                        planned_call(a, seq![topic_arn, message], seq![]),
                ),
        )
    } else if a == "subscribe_endpoint"@ {
        then_text(
            selected_resource(request, "topic/"@),
            |topic_arn: Seq<char>|
                then_text(
                    required_text(request, "protocol"@),
                    |protocol: Seq<char>|
                        then_text(
                            required_text(request, "endpoint"@),
                            |endpoint: Seq<char>|
                                planned_call(a, seq![topic_arn, protocol, endpoint], seq![]),
                        ),
                ),
        )
    } else if a == "delete_subscription"@ {
        then_text(
            typed_confirmation(request),
            |subscription_name: Seq<char>|
                then_text(
                    selected_resource(request, "subscription/"@),
                    |subscription_arn: Seq<char>|
                        planned_call(a, seq![subscription_name, subscription_arn], seq![]),
                ),
        )
    } else if a == "refresh_topic_metadata"@ {
        then_text(
            selected_resource(request, "topic/"@),
            |topic_arn: Seq<char>|
                planned_done(false, "Topic metadata refresh completed."@, Some("topic/"@ + topic_arn)),
        )
    } else {
        Err(unsupported_action_error(request))
    }
}

/// Validates an action request on SNS and decides what to do.
pub fn plan_action(request: &ServiceActionRequest) -> (r: Result<Planned<Call>, ServiceManagementError>)
    requires
        request.payload.wf(),
    ensures
        planned_outcome(r) == action_plan(*request),
        r matches Ok(Planned::Call(Call::CreateTopic { topic_name })) ==> {
            &&& request.action@ == "create_topic"@
            &&& required_text(*request, "topic_name"@) == Ok::<Seq<char>, ErrorView>(topic_name@)
        },
        r matches Ok(Planned::Call(Call::DeleteTopic { topic_name, topic_arn })) ==> {
            &&& request.action@ == "delete_topic"@
            &&& typed_confirmation(*request) == Ok::<Seq<char>, ErrorView>(topic_name@)
            &&& selected_resource(*request, "topic/"@) == Ok::<Seq<char>, ErrorView>(topic_arn@)
        },
        r matches Ok(Planned::Call(Call::PublishMessage { topic_arn, message })) ==> {
            &&& request.action@ == "publish_message"@
            &&& selected_resource(*request, "topic/"@) == Ok::<Seq<char>, ErrorView>(topic_arn@)
            &&& required_text(*request, "message"@) == Ok::<Seq<char>, ErrorView>(message@)
        },
        r matches Ok(Planned::Call(Call::SubscribeEndpoint { topic_arn, protocol, endpoint })) ==> {
            &&& request.action@ == "subscribe_endpoint"@
            &&& selected_resource(*request, "topic/"@) == Ok::<Seq<char>, ErrorView>(topic_arn@)
            &&& required_text(*request, "protocol"@) == Ok::<Seq<char>, ErrorView>(protocol@)
            &&& required_text(*request, "endpoint"@) == Ok::<Seq<char>, ErrorView>(endpoint@)
        },
        r matches Ok(Planned::Call(Call::DeleteSubscription { subscription_name, subscription_arn })) ==> {
            &&& request.action@ == "delete_subscription"@
            &&& typed_confirmation(*request) == Ok::<Seq<char>, ErrorView>(subscription_name@)
            &&& selected_resource(*request, "subscription/"@) == Ok::<Seq<char>, ErrorView>(subscription_arn@)
        },
{
    let action = request.action.as_str();
    if text_eq(action, "create_topic") {
        let topic_name = require_name_payload(request, "topic_name")?;
        Ok(Planned::Call(Call::CreateTopic { topic_name }))
    } else if text_eq(action, "delete_topic") {
        let topic_name = require_typed_confirmation(request)?;
        let topic_arn = require_resource_id(request, "topic/")?;
        Ok(Planned::Call(Call::DeleteTopic { topic_name, topic_arn }))
    } else if text_eq(action, "publish_message") {
        let topic_arn = require_resource_id(request, "topic/")?;
        let message = require_payload_text(request, "message")?;
        Ok(Planned::Call(Call::PublishMessage { topic_arn, message }))
    } else if text_eq(action, "subscribe_endpoint") {
        let topic_arn = require_resource_id(request, "topic/")?;
        let protocol = require_payload_text(request, "protocol")?;
        let endpoint = require_payload_text(request, "endpoint")?;
        Ok(Planned::Call(Call::SubscribeEndpoint { topic_arn, protocol, endpoint }))
    } else if text_eq(action, "delete_subscription") {
        let subscription_name = require_typed_confirmation(request)?;
        let subscription_arn = require_resource_id(request, "subscription/")?;
        Ok(Planned::Call(Call::DeleteSubscription { subscription_name, subscription_arn }))
    } else if text_eq(action, "refresh_topic_metadata") {
        let topic_arn = require_resource_id(request, "topic/")?;
        let message = String::from_str("Topic metadata refresh completed.");
        let mut id = String::from_str("topic/");
        id.append(topic_arn.as_str());
        Ok(Planned::Done(action_result(false, message, Some(id))))
    } else {
        Err(unsupported_action(request))
    }
}

/// The result of `call` once it succeeded with `reply`.
pub open spec fn result_of(call: Call, reply: CallReply) -> ActionResultView {
    match call {
        Call::CreateTopic { topic_name } => result_view(
            true,
            "Created SNS topic `"@ + topic_name@ + "`."@,
            (match reply.value.deep_view() {
                            Some(v) => Some("topic/"@ + v),
                            None => None,
                        }),
        ),
        Call::DeleteTopic { topic_name, topic_arn } => result_view(
            true,
            "Deleted SNS topic `"@ + topic_name@ + "`."@,
            Some("topic/"@ + topic_arn@),
        ),
        Call::PublishMessage { topic_arn, .. } => result_view(
            true,
            "Published SNS message `"@ + text_or(reply.value.deep_view(), "local-message"@) + "`."@,
            Some("topic/"@ + topic_arn@),
        ),
        Call::SubscribeEndpoint { protocol, .. } => result_view(
            true,
            "Subscribed `"@ + protocol@ + "` endpoint to SNS topic."@,
            (match reply.value.deep_view() {
                            Some(v) => Some("subscription/"@ + v),
                            None => None,
                        }),
        ),
        Call::DeleteSubscription { subscription_name, subscription_arn } => result_view(
            true,
            "Unsubscribed SNS endpoint `"@ + subscription_name@ + "`."@,
            Some("subscription/"@ + subscription_arn@),
        ),
    }
}

/// The result reported once `call` succeeded with `reply`.
pub fn completed(call: &Call, reply: &CallReply) -> (r: ActionResult)
    ensures
        r@ == result_of(*call, *reply),
{
    match call {
        Call::CreateTopic { topic_name } => {
            let mut message = String::from_str("Created SNS topic `");
            message.append(topic_name.as_str());
            message.append("`.");
            let t1 = match &reply.value {
                Some(v) => {
                    let mut id = String::from_str("topic/");
                    id.append(v.as_str());
                    Some(id)
                },
                None => None,
            };
            action_result(true, message, t1)
        },
        Call::DeleteTopic { topic_name, topic_arn } => {
            let mut message = String::from_str("Deleted SNS topic `");
            message.append(topic_name.as_str());
            message.append("`.");
            let mut id = String::from_str("topic/");
            id.append(topic_arn.as_str());
            action_result(true, message, Some(id))
        },
        Call::PublishMessage { topic_arn, .. } => {
            let t1 = match &reply.value {
                Some(v) => v.clone(),
                None => {
                    let t2 = String::from_str("local-message");
                    t2
                },
            };
            let mut message = String::from_str("Published SNS message `");
            message.append(t1.as_str());
            message.append("`.");
            let mut id = String::from_str("topic/");
            id.append(topic_arn.as_str());
            action_result(true, message, Some(id))
        },
        Call::SubscribeEndpoint { protocol, .. } => {
            let mut message = String::from_str("Subscribed `");
            message.append(protocol.as_str());
            message.append("` endpoint to SNS topic.");
            let t1 = match &reply.value {
                Some(v) => {
                    let mut id = String::from_str("subscription/");
                    id.append(v.as_str());
                    Some(id)
                },
                None => None,
            };
            action_result(true, message, t1)
        },
        Call::DeleteSubscription { subscription_name, subscription_arn } => {
            let mut message = String::from_str("Unsubscribed SNS endpoint `");
            message.append(subscription_name.as_str());
            message.append("`.");
            let mut id = String::from_str("subscription/");
            id.append(subscription_arn.as_str());
            action_result(true, message, Some(id))
        },
    }
}

/// Every call planned for an action request performs the requested action.
pub proof fn lemma_plan_performs_requested_action(request: ServiceActionRequest)
    ensures
        action_plan(request) matches Ok(PlannedView::Call(c)) ==> c.name == request.action@,
{
}

/// A destructive action is only planned once the typed confirmation matches.
pub proof fn lemma_destructive_actions_are_confirmed(request: ServiceActionRequest)
    ensures
        action_plan(request) is Ok && destructive(request.action@) ==> typed_confirmation(request) is Ok,
{
    reveal_strlit("create_topic");
    lemma_not_destructive("create_topic"@);
    reveal_strlit("publish_message");
    lemma_not_destructive("publish_message"@);
    reveal_strlit("subscribe_endpoint");
    lemma_not_destructive("subscribe_endpoint"@);
    reveal_strlit("refresh_topic_metadata");
    lemma_not_destructive("refresh_topic_metadata"@);
}

/// The operations the SNS page lists as unavailable.
pub open spec fn unsupported_operations() -> Seq<Seq<char>> {
    Seq::empty()
}

/// The name under which the service's inventory page is shown.
pub open spec fn label() -> Seq<char> {
    "SNS"@
}

/// How far this adapter supports the service: it manages its resources.
pub open spec fn support_level() -> ServiceSupportLevel {
    ServiceSupportLevel::Managed
}

/// The SNS inventory page: the listed `resources` under the SNS tabs, refreshed
/// at `refreshed_at`.
pub fn inventory(
    resources: Vec<ResourceSummary>,
    refreshed_at: String,
) -> (inv: ServiceInventory)
    ensures
        inv@ == (InventoryView {
            service_key: "sns"@,
            service_label: label(),
            support_level: support_level(),
            refreshed_at: refreshed_at@,
            tabs: inventory_tabs(),
            resources: summary_views(resources@),
            unsupported_operations: unsupported_operations(),
        }),
{
    let ops: Vec<String> = Vec::new();
    proof {
        assert(ops.deep_view() =~= unsupported_operations());
    }
    build_inventory(
        "sns",
        "SNS",
        ServiceSupportLevel::Managed,
        refreshed_at,
        tabs(),
        resources,
        ops,
    )
}

} // verus!
