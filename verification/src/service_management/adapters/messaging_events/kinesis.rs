//! Kinesis.
use vstd::prelude::*;
use vstd::string::*;

use crate::service_management::actions::{
    require_name_payload, require_typed_confirmation, required_text, typed_confirmation,
};
use crate::service_management::adapters::payload::{
    require_payload_text, require_resource_id, selected_resource,
};
use crate::service_management::adapters::{
    action_result, build_inventory, call_of, destructive, lemma_not_destructive, no_attributes,
    planned_call, planned_done, planned_outcome, put_attr, put_text, result_view, shows, summary,
    text_or, then_text, unsupported_action, unsupported_action_error, with_attr, CallReply,
    CallView, Planned, PlannedView,
};
use crate::service_management::errors::{ErrorView, ServiceManagementError};
use crate::service_management::models::{
    single_kind_tab, summary_views, tab, tab_views, ActionResult, ActionResultView, InventoryView,
    ResourceSummary, ResourceTab, ServiceActionRequest, ServiceInventory, ServiceSupportLevel,
    TabView,
};
use crate::text::{decimal, int_text, text_eq};

verus! {

/// The tabs of the Kinesis inventory page.
pub open spec fn inventory_tabs() -> Seq<TabView> {
    seq![
        single_kind_tab("streams"@, "Streams"@, "stream"@, "No Kinesis streams were found in the local emulator."@),
        single_kind_tab("shards"@, "Shards"@, "shard"@, "Shard discovery is summarized at stream level for now."@),
        single_kind_tab("consumers"@, "Consumers"@, "consumer"@, "No Kinesis consumers are loaded."@),
        single_kind_tab("metrics"@, "Metrics"@, "metric"@, "No Kinesis metrics are loaded."@),
    ]
}

/// The tabs of the Kinesis inventory page.
pub fn tabs() -> (t: Vec<ResourceTab>)
    ensures
        tab_views(t@) == inventory_tabs(),
{
    let mut t: Vec<ResourceTab> = Vec::new();
    t.push(tab("streams", "Streams", "stream", "No Kinesis streams were found in the local emulator."));
    t.push(tab("shards", "Shards", "shard", "Shard discovery is summarized at stream level for now."));
    t.push(tab("consumers", "Consumers", "consumer", "No Kinesis consumers are loaded."));
    t.push(tab("metrics", "Metrics", "metric", "No Kinesis metrics are loaded."));
    assert(tab_views(t@) =~= inventory_tabs());
    t
}

/// The attributes listed by [`stream_summary`].
pub open spec fn stream_attributes(
    stream_arn: Seq<char>,
    retention_hours: i64,
    open_shards: i64,
    stream_mode: Option<Seq<char>>,
) -> Map<Seq<char>, Seq<char>> {
    let m = Map::<Seq<char>, Seq<char>>::empty();
    let m = m.insert("stream_arn"@, stream_arn);
    let m = m.insert("retention_hours"@, decimal(retention_hours as int));
    let m = m.insert("open_shards"@, decimal(open_shards as int));
    with_attr(m, "stream_mode"@, stream_mode)
}

/// The resource listed for a data stream.
pub fn stream_summary(
    stream_name: &str,
    status: &str,
    created_at: Option<String>,
    stream_arn: &str,
    retention_hours: i64,
    open_shards: i64,
    stream_mode: Option<String>,
) -> (r: ResourceSummary)
    ensures
        r.wf(),
        shows(
            r@,
            "stream/"@ + stream_name@,
            stream_name@,
            "stream"@,
            status@,
            created_at.deep_view(),
            None,
            stream_attributes(
                stream_arn@,
                retention_hours,
                open_shards,
                stream_mode.deep_view(),
            ),
        ),
{
    let mut id = String::from_str("stream/");
    id.append(stream_name);
    let listed_name = String::from_str(stream_name);
    let listed_status = String::from_str(status);
    let mut attributes = no_attributes();
    put_text(&mut attributes, "stream_arn", String::from_str(stream_arn));
    put_text(&mut attributes, "retention_hours", int_text(retention_hours));
    put_text(&mut attributes, "open_shards", int_text(open_shards));
    put_attr(&mut attributes, "stream_mode", stream_mode);
    summary(id, listed_name, "stream", listed_status, created_at, None, attributes)
}

/// The attributes listed by [`stream_metrics_summary`].
pub open spec fn stream_metrics_attributes(
    open_shards: i64,
    retention_hours: i64,
) -> Map<Seq<char>, Seq<char>> {
    let m = Map::<Seq<char>, Seq<char>>::empty();
    let m = m.insert("open_shards"@, decimal(open_shards as int));
    m.insert("retention_hours"@, decimal(retention_hours as int))
}

/// The resource listed for the metrics of a data stream, named
/// `<stream> metrics`.
pub fn stream_metrics_summary(
    stream_name: &str,
    open_shards: i64,
    retention_hours: i64,
) -> (r: ResourceSummary)
    ensures
        r.wf(),
        shows(
            r@,
            "metrics/"@ + stream_name@,
            stream_name@ + " metrics"@,
            "metric"@,
            "available"@,
            None,
            None,
            stream_metrics_attributes(open_shards, retention_hours),
        ),
{
    let mut id = String::from_str("metrics/");
    id.append(stream_name);
    let mut listed_name = String::from_str(stream_name);
    listed_name.append(" metrics");
    let listed_status = String::from_str("available");
    let mut attributes = no_attributes();
    put_text(&mut attributes, "open_shards", int_text(open_shards));
    put_text(&mut attributes, "retention_hours", int_text(retention_hours));
    summary(id, listed_name, "metric", listed_status, None, None, attributes)
}

/// The attributes listed by [`shard_summary`].
pub open spec fn shard_attributes(
    stream_name: Seq<char>,
    parent_shard_id: Option<Seq<char>>,
    adjacent_parent_shard_id: Option<Seq<char>>,
) -> Map<Seq<char>, Seq<char>> {
    let m = Map::<Seq<char>, Seq<char>>::empty();
    let m = m.insert("stream_name"@, stream_name);
    let m = with_attr(m, "parent_shard_id"@, parent_shard_id);
    with_attr(m, "adjacent_parent_shard_id"@, adjacent_parent_shard_id)
}

/// The resource listed for a shard of a data stream.
pub fn shard_summary(
    stream_name: &str,
    shard_id: &str,
    parent_shard_id: Option<String>,
    adjacent_parent_shard_id: Option<String>,
) -> (r: ResourceSummary)
    ensures
        r.wf(),
        shows(
            r@,
            "shard/"@ + stream_name@ + "/"@ + shard_id@,
            shard_id@,
            "shard"@,
            "open"@,
            None,
            None,
            shard_attributes(
                stream_name@,
                parent_shard_id.deep_view(),
                adjacent_parent_shard_id.deep_view(),
            ),
        ),
{
    let mut id = String::from_str("shard/");
    id.append(stream_name);
    id.append("/");
    id.append(shard_id);
    let listed_name = String::from_str(shard_id);
    let listed_status = String::from_str("open");
    let mut attributes = no_attributes();
    put_text(&mut attributes, "stream_name", String::from_str(stream_name));
    put_attr(&mut attributes, "parent_shard_id", parent_shard_id);
    put_attr(&mut attributes, "adjacent_parent_shard_id", adjacent_parent_shard_id);
    summary(id, listed_name, "shard", listed_status, None, None, attributes)
}

/// The attributes listed by [`consumer_summary`].
pub open spec fn consumer_attributes(
    stream_arn: Seq<char>,
    consumer_arn: Seq<char>,
) -> Map<Seq<char>, Seq<char>> {
    let m = Map::<Seq<char>, Seq<char>>::empty();
    let m = m.insert("stream_arn"@, stream_arn);
    m.insert("consumer_arn"@, consumer_arn)
}

/// The resource listed for a consumer of a data stream.
pub fn consumer_summary(
    stream_arn: &str,
    consumer_arn: &str,
    consumer_name: &str,
    status: &str,
    created_at: Option<String>,
) -> (r: ResourceSummary)
    ensures
        r.wf(),
        shows(
            r@,
            "consumer/"@ + consumer_arn@,
            consumer_name@,
            "consumer"@,
            status@,
            created_at.deep_view(),
            None,
            consumer_attributes(stream_arn@, consumer_arn@),
        ),
{
    let mut id = String::from_str("consumer/");
    id.append(consumer_arn);
    let listed_name = String::from_str(consumer_name);
    let listed_status = String::from_str(status);
    let mut attributes = no_attributes();
    put_text(&mut attributes, "stream_arn", String::from_str(stream_arn));
    put_text(&mut attributes, "consumer_arn", String::from_str(consumer_arn));
    summary(id, listed_name, "consumer", listed_status, created_at, None, attributes)
}

/// A call to Kinesis, with its validated inputs.
#[derive(Debug, Clone)]
pub enum Call {
    CreateStream { stream_name: String },
    DeleteStream { stream_name: String, stream_id: String },
    PutRecord { stream_name: String, partition_key: String, data: String },
}

impl View for Call {
    type V = CallView;

    open spec fn view(&self) -> CallView {
        match self {
            Call::CreateStream { stream_name } => call_of(
                "create_stream"@,
                seq![stream_name@],
                seq![],
            ),
            Call::DeleteStream { stream_name, stream_id } => call_of(
                "delete_stream"@,
                seq![stream_name@, stream_id@],
                seq![],
            ),
            Call::PutRecord { stream_name, partition_key, data } => call_of(
                "put_record"@,
                seq![stream_name@, partition_key@, data@],
                seq![],
            ),
        }
    }
}

/// What an action request on Kinesis asks for.
pub open spec fn action_plan(request: ServiceActionRequest) -> Result<PlannedView, ErrorView> {
    let a = request.action@;
    if a == "create_stream"@ {
        then_text(
            required_text(request, "stream_name"@),
            |stream_name: Seq<char>|
                planned_call(a, seq![stream_name], seq![]),
        )
    } else if a == "delete_stream"@ {
        then_text(
            typed_confirmation(request),
            |stream_name: Seq<char>|
                then_text(
                    selected_resource(request, "stream/"@),
                    |stream_id: Seq<char>|
                        planned_call(a, seq![stream_name, stream_id], seq![]),
                ),
        )
    } else if a == "put_record"@ {
        then_text(
            selected_resource(request, "stream/"@),
            |stream_name: Seq<char>|
                then_text(
                    required_text(request, "partition_key"@),
                    |partition_key: Seq<char>|
                        then_text(
                            required_text(request, "data"@),
                            |data: Seq<char>|
                                planned_call(a, seq![stream_name, partition_key, data], seq![]),
                        ),
                ),
        )
    } else if a == "refresh_stream_summary"@ {
        then_text(
            selected_resource(request, "stream/"@),
            |stream_name: Seq<char>|
                planned_done(false, "Stream summary refresh completed."@, Some("stream/"@ + stream_name)),
        )
    } else {
        Err(unsupported_action_error(request))
    }
}

/// Validates an action request on Kinesis and decides what to do.
pub fn plan_action(request: &ServiceActionRequest) -> (r: Result<Planned<Call>, ServiceManagementError>)
    requires
        request.payload.wf(),
    ensures
        planned_outcome(r) == action_plan(*request),
        r matches Ok(Planned::Call(Call::CreateStream { stream_name })) ==> {
            &&& request.action@ == "create_stream"@
            &&& required_text(*request, "stream_name"@) == Ok::<Seq<char>, ErrorView>(stream_name@)
        },
        r matches Ok(Planned::Call(Call::DeleteStream { stream_name, stream_id })) ==> {
            &&& request.action@ == "delete_stream"@
            &&& typed_confirmation(*request) == Ok::<Seq<char>, ErrorView>(stream_name@)
            &&& selected_resource(*request, "stream/"@) == Ok::<Seq<char>, ErrorView>(stream_id@)
        },
        r matches Ok(Planned::Call(Call::PutRecord { stream_name, partition_key, data })) ==> {
            &&& request.action@ == "put_record"@
            &&& selected_resource(*request, "stream/"@) == Ok::<Seq<char>, ErrorView>(stream_name@)
            &&& required_text(*request, "partition_key"@) == Ok::<Seq<char>, ErrorView>(partition_key@)
            &&& required_text(*request, "data"@) == Ok::<Seq<char>, ErrorView>(data@)
        },
{
    let action = request.action.as_str();
    if text_eq(action, "create_stream") {
        let stream_name = require_name_payload(request, "stream_name")?;
        Ok(Planned::Call(Call::CreateStream { stream_name }))
    } else if text_eq(action, "delete_stream") {
        let stream_name = require_typed_confirmation(request)?;
        let stream_id = require_resource_id(request, "stream/")?;
        Ok(Planned::Call(Call::DeleteStream { stream_name, stream_id }))
    } else if text_eq(action, "put_record") {
        let stream_name = require_resource_id(request, "stream/")?;
        let partition_key = require_payload_text(request, "partition_key")?;
        let data = require_payload_text(request, "data")?;
        Ok(Planned::Call(Call::PutRecord { stream_name, partition_key, data }))
    } else if text_eq(action, "refresh_stream_summary") {
        let stream_name = require_resource_id(request, "stream/")?;
        let message = String::from_str("Stream summary refresh completed.");
        let mut id = String::from_str("stream/");
        id.append(stream_name.as_str());
        Ok(Planned::Done(action_result(false, message, Some(id))))
    } else {
        Err(unsupported_action(request))
    }
}

/// The result of `call` once it succeeded with `reply`.
pub open spec fn result_of(call: Call, reply: CallReply) -> ActionResultView {
    match call {
        Call::CreateStream { stream_name } => result_view(
            true,
            "Created Kinesis stream `"@ + stream_name@ + "`."@,
            Some("stream/"@ + stream_name@),
        ),
        Call::DeleteStream { stream_name, stream_id } => result_view(
            true,
            "Deleted Kinesis stream `"@ + stream_name@ + "`."@,
            Some("stream/"@ + stream_id@),
        ),
        Call::PutRecord { stream_name, .. } => result_view(
            true,
            "Put Kinesis record on shard `"@ + text_or(reply.value.deep_view(), ""@) + "`."@,
            Some("stream/"@ + stream_name@),
        ),
    }
}

/// The result reported once `call` succeeded with `reply`.
pub fn completed(call: &Call, reply: &CallReply) -> (r: ActionResult)
    ensures
        r@ == result_of(*call, *reply),
{
    match call {
        Call::CreateStream { stream_name } => {
            let mut message = String::from_str("Created Kinesis stream `");
            message.append(stream_name.as_str());
            message.append("`.");
            let mut id = String::from_str("stream/");
            id.append(stream_name.as_str());
            action_result(true, message, Some(id))
        },
        Call::DeleteStream { stream_name, stream_id } => {
            let mut message = String::from_str("Deleted Kinesis stream `");
            message.append(stream_name.as_str());
            message.append("`.");
            let mut id = String::from_str("stream/");
            id.append(stream_id.as_str());
            action_result(true, message, Some(id))
        },
        Call::PutRecord { stream_name, .. } => {
            let t1 = match &reply.value {
                Some(v) => v.clone(),
                None => {
                    let t2 = String::from_str("");
                    t2
                },
            };
            let mut message = String::from_str("Put Kinesis record on shard `");
            message.append(t1.as_str());
            message.append("`.");
            let mut id = String::from_str("stream/");
            id.append(stream_name.as_str());
            action_result(true, message, Some(id))
        },
    }
}

/// Every call planned for an action request performs the requested action.
pub proof fn lemma_plan_performs_requested_action(request: ServiceActionRequest)
    ensures
        action_plan(request) matches Ok(PlannedView::Call(c)) ==> c.name == request.action@,
{
}

/// A destructive action is only planned once the typed confirmation matches.
pub proof fn lemma_destructive_actions_are_confirmed(request: ServiceActionRequest)
    ensures
        action_plan(request) is Ok && destructive(request.action@) ==> typed_confirmation(request) is Ok,
{
    reveal_strlit("create_stream");
    lemma_not_destructive("create_stream"@);
    reveal_strlit("put_record");
    lemma_not_destructive("put_record"@);
    reveal_strlit("refresh_stream_summary");
    lemma_not_destructive("refresh_stream_summary"@);
}

/// The operations the Kinesis page lists as unavailable.
pub open spec fn unsupported_operations() -> Seq<Seq<char>> {
    seq!["register_consumer"@, "delete_consumer"@]
}

/// The name under which the service's inventory page is shown.
pub open spec fn label() -> Seq<char> {
    "Kinesis"@
}

/// How far this adapter supports the service: it manages its resources.
pub open spec fn support_level() -> ServiceSupportLevel {
    ServiceSupportLevel::Managed
}

/// The Kinesis inventory page: the listed `resources` under the Kinesis tabs, refreshed
/// at `refreshed_at`.
pub fn inventory(
    resources: Vec<ResourceSummary>,
    refreshed_at: String,
) -> (inv: ServiceInventory)
    ensures
        inv@ == (InventoryView {
            service_key: "kinesis"@,
            service_label: label(),
            support_level: support_level(),
            refreshed_at: refreshed_at@,
            tabs: inventory_tabs(),
            resources: summary_views(resources@),
            unsupported_operations: unsupported_operations(),
        }),
{
    let mut ops: Vec<String> = Vec::new();
    ops.push(String::from_str("register_consumer"));
    ops.push(String::from_str("delete_consumer"));
    proof {
        assert(ops.deep_view() =~= unsupported_operations());
    }
    build_inventory(
        "kinesis",
        "Kinesis",
        ServiceSupportLevel::Managed,
        refreshed_at,
        tabs(),
        resources,
        ops,
    )
}

} // verus!
