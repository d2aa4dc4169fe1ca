//! SQS.
use vstd::prelude::*;
use vstd::string::*;

use crate::service_management::actions::{
    require_name_payload, require_typed_confirmation, required_text, typed_confirmation,
};
use crate::service_management::adapters::payload::{
    require_payload_text, require_resource_id, selected_resource,
};
use crate::service_management::adapters::{
    action_result, attributes_from, build_inventory, call_of, destructive, keys_unique,
    lemma_not_destructive, pair_views, pairs_map, planned_call, planned_done, planned_outcome,
    result_view, shows, summary, text_or, text_or_empty, texts_of, then_text, unsupported_action,
    unsupported_action_error, CallReply, CallView, Planned, PlannedView,
};
use crate::service_management::errors::{ErrorView, ServiceManagementError};
use crate::service_management::models::{
    single_kind_tab, summary_views, tab, tab_views, ActionResult, ActionResultView, InventoryView,
    ResourceSummary, ResourceTab, ServiceActionRequest, ServiceInventory, ServiceSupportLevel,
    SummaryView, TabView,
};
use crate::service_management::text_map::TextMap;
use crate::text::{concat2, concat3, last_segment, last_segment_text, text_eq};
use crate::service_management::errors::{not_found_error, text_outcome};
use crate::text::{starts_with, starts_with_text, trim};
use crate::service_management::models::payload_text_field;

verus! {

/// The tabs of the SQS inventory page.
pub open spec fn inventory_tabs() -> Seq<TabView> {
    seq![
        single_kind_tab("queues"@, "Queues"@, "queue"@, "No SQS queues were found in the local emulator."@),
        single_kind_tab("dead-letter-queues"@, "Dead Letter Queues"@, "dead-letter-queue"@, "No SQS dead-letter queue policies are loaded."@),
        single_kind_tab("attributes"@, "Attributes"@, "queue-attribute"@, "No SQS queue attributes are loaded."@),
        single_kind_tab("messages"@, "Messages Preview"@, "message"@, "Message previews are disabled by default."@),
    ]
}

/// The tabs of the SQS inventory page.
pub fn tabs() -> (t: Vec<ResourceTab>)
    ensures
        tab_views(t@) == inventory_tabs(),
{
    let mut t: Vec<ResourceTab> = Vec::new();
    t.push(tab("queues", "Queues", "queue", "No SQS queues were found in the local emulator."));
    t.push(tab("dead-letter-queues", "Dead Letter Queues", "dead-letter-queue", "No SQS dead-letter queue policies are loaded."));
    t.push(tab("attributes", "Attributes", "queue-attribute", "No SQS queue attributes are loaded."));
    t.push(tab("messages", "Messages Preview", "message", "Message previews are disabled by default."));
    assert(tab_views(t@) =~= inventory_tabs());
    t
}

/// The queue URL held by the selected `queue/<url>` resource, when it is one.
pub open spec fn known_queue_url(request: ServiceActionRequest) -> Option<Seq<char>> {
    match selected_resource(request, "queue/"@) {
        Ok(url) if starts_with(url, "http"@) => Some(url),
        _ => None,
    }
}

/// The queue URL of the selected resource, when it holds one; otherwise the
/// URL has to be looked up by the queue's name.
pub fn selected_queue_url(request: &ServiceActionRequest) -> (r: Option<String>)
    ensures
        r.deep_view() == known_queue_url(*request),
{
    match require_resource_id(request, "queue/") {
        Ok(url) => {
            if starts_with_text(url.as_str(), "http") {
                Some(url)
            } else {
                None
            }
        },
        Err(_) => None,
    }
}

/// The outcome of looking a queue URL up by name: the URL found, or an error.
pub open spec fn queue_lookup(queue_name: Seq<char>, found: Option<Seq<char>>) -> Result<Seq<char>, ErrorView> {
    match found {
        Some(url) => Ok(url),
        None => Err(not_found_error("sqs"@, "get_queue_url"@, "Queue `"@ + queue_name + "` was not found."@)),
    }
}

/// The URL that `get_queue_url` found for `queue_name`, or the error for a missing queue.
pub fn looked_up_queue_url(queue_name: &str, found: Option<String>) -> (r: Result<String, ServiceManagementError>)
    ensures
        text_outcome(r) == queue_lookup(queue_name@, found.deep_view()),
{
    match found {
        Some(url) => Ok(url),
        None => Err(
            ServiceManagementError::not_found(
                "sqs",
                "get_queue_url",
                concat3("Queue `", queue_name, "` was not found.").as_str(),
            ),
        ),
    }
}

/// The name of a queue: the last segment of its URL.
pub open spec fn queue_name_of(url: Seq<char>) -> Seq<char> {
    last_segment(url, "/"@)
}

/// The name of the queue at `queue_url`.
pub fn queue_name(queue_url: &str) -> (r: String)
    ensures
        r@ == queue_name_of(queue_url@),
{
    last_segment_text(queue_url, "/")
}

/// The resources listed for one queue: the queue with its attributes, one
/// entry per attribute in the given order, and its dead-letter policy when it
/// has a `RedrivePolicy` attribute.
pub open spec fn queue_listing(
    url: Seq<char>,
    attributes: Seq<(Seq<char>, Seq<char>)>,
    r: Seq<SummaryView>,
) -> bool {
    let name = queue_name_of(url);
    let all = pairs_map(attributes);
    let n = attributes.len() as int;
    let dead_letter = all.contains_key("RedrivePolicy"@);
    &&& r.len() == n + 1 + (if dead_letter { 1int } else { 0int })
    &&& shows(r[0], "queue/"@ + url, name, "queue"@, "available"@, None, None, all)
    &&& forall|i: int|
        1 <= i <= n ==> shows(
            #[trigger] r[i],
            "queue-attribute/"@ + name + "/"@ + attributes[i - 1].0,
            attributes[i - 1].0,
            "queue-attribute"@,
            "loaded"@,
            None,
            None,
            map!["queue_name"@ => name, "value"@ => attributes[i - 1].1],
        )
    &&& dead_letter ==> shows(
        r[n + 1],
        "dead-letter-queue/"@ + name,
        name + " DLQ policy"@,
        "dead-letter-queue"@,
        "configured"@,
        None,
        None,
        map!["queue_name"@ => name, "redrive_policy"@ => all["RedrivePolicy"@]],
    )
}

/// Whether every summary of `r` is well formed.
pub open spec fn all_wf(r: Seq<ResourceSummary>) -> bool {
    forall|i: int| 0 <= i < r.len() ==> (#[trigger] r[i]).wf()
}

/// The resources listed for the queue at `queue_url` with the given attributes.
pub fn queue_resources(queue_url: &str, attributes: &Vec<(String, String)>) -> (r: Vec<ResourceSummary>)
    requires
        keys_unique(pair_views(attributes@)),
    ensures
        all_wf(r@),
        queue_listing(queue_url@, pair_views(attributes@), summary_views(r@)),
{
    let name = queue_name(queue_url);
    let ghost pairs = pair_views(attributes@);
    let all = attributes_from(attributes);
    let redrive = match all.get("RedrivePolicy") {
        Some(v) => Some(v.clone()),
        None => None,
    };
    let mut out: Vec<ResourceSummary> = Vec::new();
    out.push(
        summary(
            concat2("queue/", queue_url),
            name.clone(),
            "queue",
            String::from_str("available"),
            None,
            None,
            all,
        ),
    );
    let mut i: usize = 0;
    while i < attributes.len()
        invariant
            0 <= i <= attributes.len(),
            pairs == pair_views(attributes@),
            name@ == queue_name_of(queue_url@),
            out.len() == i + 1,
            all_wf(out@),
            shows(out@[0]@, "queue/"@ + queue_url@, name@, "queue"@, "available"@, None, None, pairs_map(pairs)),
            forall|j: int|
                1 <= j <= i ==> shows(
                    #[trigger] out@[j]@,
                    "queue-attribute/"@ + name@ + "/"@ + pairs[j - 1].0,
                    pairs[j - 1].0,
                    "queue-attribute"@,
                    "loaded"@,
                    None,
                    None,
                    map!["queue_name"@ => name@, "value"@ => pairs[j - 1].1],
                ),
        decreases attributes.len() - i,
    {
        let key = &attributes[i].0;
        let value = &attributes[i].1;
        let mut entry: TextMap<String> = TextMap::new();
        entry.insert(String::from_str("queue_name"), name.clone());
        entry.insert(String::from_str("value"), value.clone());
        proof {
            assert(texts_of(entry@) =~= map!["queue_name"@ => name@, "value"@ => value@]);
        }
        let mut id = concat3("queue-attribute/", name.as_str(), "/");
        id.append(key.as_str());
        out.push(
            summary(id, key.clone(), "queue-attribute", String::from_str("loaded"), None, None, entry),
        );
        i = i + 1;
    }
    if let Some(policy) = redrive {
        let mut entry: TextMap<String> = TextMap::new();
        entry.insert(String::from_str("queue_name"), name.clone());
        entry.insert(String::from_str("redrive_policy"), policy);
        proof {
            assert(texts_of(entry@) =~= map!["queue_name"@ => name@, "redrive_policy"@ => pairs_map(pairs)["RedrivePolicy"@]]);
        }
        out.push(
            summary(
                concat2("dead-letter-queue/", name.as_str()),
                concat2(name.as_str(), " DLQ policy"),
                "dead-letter-queue",
                String::from_str("configured"),
                None,
                None,
                entry,
            ),
        );
    }
    proof {
        let v = summary_views(out@);
        assert forall|j: int| 0 <= j < out@.len() implies v[j] == out@[j]@ by {}
    }
    out
}

/// A call to SQS, with its validated inputs.
#[derive(Debug, Clone)]
pub enum Call {
    CreateQueue { queue_name: String },
    DeleteQueue { queue_name: String, queue_url: Option<String> },
    SendMessage { queue_url: String, message_body: String },
    PurgeQueue { queue_name: String, queue_url: Option<String> },
}

impl View for Call {
    type V = CallView;

    open spec fn view(&self) -> CallView {
        match self {
            Call::CreateQueue { queue_name } => call_of(
                "create_queue"@,
                seq![queue_name@],
                seq![],
            ),
            Call::DeleteQueue { queue_name, queue_url } => call_of(
                "delete_queue"@,
                seq![queue_name@, text_or_empty(queue_url.deep_view())],
                seq![],
            ),
            Call::SendMessage { queue_url, message_body } => call_of(
                "send_message"@,
                seq![queue_url@, message_body@],
                seq![],
            ),
            Call::PurgeQueue { queue_name, queue_url } => call_of(
                "purge_queue"@,
                seq![queue_name@, text_or_empty(queue_url.deep_view())],
                seq![],
            ),
        }
    }
}

/// What an action request on SQS asks for.
pub open spec fn action_plan(request: ServiceActionRequest) -> Result<PlannedView, ErrorView> {
    let a = request.action@;
    if a == "create_queue"@ {
        then_text(
            required_text(request, "queue_name"@),
            |queue_name: Seq<char>|
                planned_call(a, seq![queue_name], seq![]),
        )
    } else if a == "delete_queue"@ {
        then_text(
            typed_confirmation(request),
            |queue_name: Seq<char>|
                {
                    let queue_url = known_queue_url(request);
                    planned_call(a, seq![queue_name, text_or_empty(queue_url)], seq![])
                },
        )
    } else if a == "send_message"@ {
        then_text(
            selected_resource(request, "queue/"@),
            |queue_url: Seq<char>|
                then_text(
                    required_text(request, "message_body"@),
                    |message_body: Seq<char>|
                        planned_call(a, seq![queue_url, message_body], seq![]),
                ),
        )
    } else if a == "purge_queue"@ {
        then_text(
            typed_confirmation(request),
            |queue_name: Seq<char>|
                {
                    let queue_url = known_queue_url(request);
                    planned_call(a, seq![queue_name, text_or_empty(queue_url)], seq![])
                },
        )
    } else if a == "refresh_queue_attributes"@ {
        then_text(
            selected_resource(request, "queue/"@),
            |queue_url: Seq<char>|
                planned_done(false, "Queue attributes refresh completed."@, Some("queue/"@ + queue_url)),
        )
    } else {
        Err(unsupported_action_error(request))
    }
}

/// Validates an action request on SQS and decides what to do.
pub fn plan_action(request: &ServiceActionRequest) -> (r: Result<Planned<Call>, ServiceManagementError>)
    requires
        request.payload.wf(),
    ensures
        planned_outcome(r) == action_plan(*request),
        r matches Ok(Planned::Call(Call::SendMessage { queue_url, message_body })) ==> {
            &&& request.action@ == "send_message"@
            &&& (request.resource_id matches Some(id) && id@ == "queue/"@ + queue_url@)
            &&& (payload_text_field(request.payload@, "message_body"@) matches Some(t)
                && message_body@ == trim(t))
        },
{
    let action = request.action.as_str();
    if text_eq(action, "create_queue") {
        let queue_name = require_name_payload(request, "queue_name")?;
        Ok(Planned::Call(Call::CreateQueue { queue_name }))
    } else if text_eq(action, "delete_queue") {
        let queue_name = require_typed_confirmation(request)?;
        let queue_url = selected_queue_url(request);
        Ok(Planned::Call(Call::DeleteQueue { queue_name, queue_url }))
    } else if text_eq(action, "send_message") {
        let queue_url = require_resource_id(request, "queue/")?;
        let message_body = require_payload_text(request, "message_body")?;
        Ok(Planned::Call(Call::SendMessage { queue_url, message_body }))
    } else if text_eq(action, "purge_queue") {
        let queue_name = require_typed_confirmation(request)?;
        let queue_url = selected_queue_url(request);
        Ok(Planned::Call(Call::PurgeQueue { queue_name, queue_url }))
    } else if text_eq(action, "refresh_queue_attributes") {
        let queue_url = require_resource_id(request, "queue/")?;
        let message = String::from_str("Queue attributes refresh completed.");
        let mut id = String::from_str("queue/");
        id.append(queue_url.as_str());
        Ok(Planned::Done(action_result(false, message, Some(id))))
    } else {
        Err(unsupported_action(request))
    }
}

/// The result of `call` once it succeeded with `reply`.
pub open spec fn result_of(call: Call, reply: CallReply) -> ActionResultView {
    match call {
        Call::CreateQueue { queue_name } => result_view(
            true,
            "Created SQS queue `"@ + queue_name@ + "`."@,
            Some("queue/"@ + queue_name@),
        ),
        Call::DeleteQueue { queue_name, .. } => result_view(
            true,
            "Deleted SQS queue `"@ + queue_name@ + "`."@,
            Some("queue/"@ + text_or(reply.value.deep_view(), ""@)),
        ),
        Call::SendMessage { queue_url, .. } => result_view(
            true,
            "Sent SQS message `"@ + text_or(reply.value.deep_view(), "local-message"@) + "`."@,
            Some("queue/"@ + queue_url@),
        ),
        Call::PurgeQueue { queue_name, .. } => result_view(
            true,
            "Purged SQS queue `"@ + queue_name@ + "`."@,
            Some("queue/"@ + text_or(reply.value.deep_view(), ""@)),
        ),
    }
}

/// The result reported once `call` succeeded with `reply`.
pub fn completed(call: &Call, reply: &CallReply) -> (r: ActionResult)
    ensures
        r@ == result_of(*call, *reply),
{
    match call {
        Call::CreateQueue { queue_name } => {
            let mut message = String::from_str("Created SQS queue `");
            message.append(queue_name.as_str());
            message.append("`.");
            let mut id = String::from_str("queue/");
            id.append(queue_name.as_str());
            action_result(true, message, Some(id))
        },
        Call::DeleteQueue { queue_name, .. } => {
            let mut message = String::from_str("Deleted SQS queue `");
            message.append(queue_name.as_str());
            message.append("`.");
            let t1 = match &reply.value {
                Some(v) => v.clone(),
                None => {
                    let t2 = String::from_str("");
                    t2
                },
            };
            let mut id = String::from_str("queue/");
            id.append(t1.as_str());
            action_result(true, message, Some(id))
        },
        Call::SendMessage { queue_url, .. } => {
            let t1 = match &reply.value {
                Some(v) => v.clone(),
                None => {
                    let t2 = String::from_str("local-message");
                    t2
                },
            };
            let mut message = String::from_str("Sent SQS message `");
            message.append(t1.as_str());
            message.append("`.");
            let mut id = String::from_str("queue/");
            id.append(queue_url.as_str());
            action_result(true, message, Some(id))
        },
        Call::PurgeQueue { queue_name, .. } => {
            let mut message = String::from_str("Purged SQS queue `");
            message.append(queue_name.as_str());
            message.append("`.");
            let t1 = match &reply.value {
                Some(v) => v.clone(),
                None => {
                    let t2 = String::from_str("");
                    t2
                },
            };
            let mut id = String::from_str("queue/");
            id.append(t1.as_str());
            action_result(true, message, Some(id))
        },
    }
}

/// Every call planned for an action request performs the requested action.
pub proof fn lemma_plan_performs_requested_action(request: ServiceActionRequest)
    ensures
        action_plan(request) matches Ok(PlannedView::Call(c)) ==> c.name == request.action@,
{
}

/// A destructive action is only planned once the typed confirmation matches.
pub proof fn lemma_destructive_actions_are_confirmed(request: ServiceActionRequest)
    ensures
        action_plan(request) is Ok && destructive(request.action@) ==> typed_confirmation(request) is Ok,
{
    reveal_strlit("create_queue");
    lemma_not_destructive("create_queue"@);
    reveal_strlit("send_message");
    lemma_not_destructive("send_message"@);
    reveal_strlit("refresh_queue_attributes");
    lemma_not_destructive("refresh_queue_attributes"@);
}

/// The operations the SQS page lists as unavailable.
pub open spec fn unsupported_operations() -> Seq<Seq<char>> {
    seq!["message_preview"@]
}

/// The name under which the service's inventory page is shown.
pub open spec fn label() -> Seq<char> {
    "SQS"@
}

/// How far this adapter supports the service: it manages its resources.
pub open spec fn support_level() -> ServiceSupportLevel {
    ServiceSupportLevel::Managed
}

/// The SQS inventory page: the listed `resources` under the SQS tabs, refreshed
/// at `refreshed_at`.
pub fn inventory(
    resources: Vec<ResourceSummary>,
    refreshed_at: String,
) -> (inv: ServiceInventory)
    ensures
        inv@ == (InventoryView {
            service_key: "sqs"@,
            service_label: label(),
            support_level: support_level(),
            refreshed_at: refreshed_at@,
            tabs: inventory_tabs(),
            resources: summary_views(resources@),
            unsupported_operations: unsupported_operations(),
        }),
{
    let mut ops: Vec<String> = Vec::new();
    ops.push(String::from_str("message_preview"));
    proof {
        assert(ops.deep_view() =~= unsupported_operations());
    }
    build_inventory(
        "sqs",
        "SQS",
        ServiceSupportLevel::Managed,
        refreshed_at,
        tabs(),
        resources,
        ops,
    )
}

/// Sending a message goes to the queue the user selected and carries the
/// payload's `message_body`: a `send_message` request is planned exactly when a
/// `queue/` resource is selected and the payload has a non-blank
/// `message_body`, and the planned call names the queue URL that follows
/// `queue/` in the resource id first and the trimmed message body second.
pub proof fn lemma_send_message_targets_selected_queue(request: ServiceActionRequest)
    requires
        request.action@ == "send_message"@,
    ensures
        action_plan(request) is Ok <==> ((request.resource_id matches Some(id) && starts_with(
            id@,
            "queue/"@,
        )) && (payload_text_field(request.payload@, "message_body"@) matches Some(t) && trim(t).len()
            > 0)),
        action_plan(request) matches Ok(p) ==> (p matches PlannedView::Call(c) && c.name
            == "send_message"@ && c.texts.len() == 2 && (request.resource_id matches Some(id)
            && id@ == "queue/"@ + c.texts[0]) && (payload_text_field(
            request.payload@,
            "message_body"@,
        ) matches Some(t) && c.texts[1] == trim(t))),
{
    reveal_strlit("send_message");
    reveal_strlit("create_queue");
    reveal_strlit("delete_queue");
    assert("send_message"@[0] != "create_queue"@[0]);
    assert("send_message"@[0] != "delete_queue"@[0]);
    if let Some(id) = request.resource_id {
        if starts_with(id@, "queue/"@) {
            assert(id@ =~= "queue/"@ + id@.subrange("queue/"@.len() as int, id@.len() as int));
        }
    }
}

} // verus!
