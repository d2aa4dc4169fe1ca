//! DynamoDB Streams.
use vstd::prelude::*;
use vstd::string::*;

use crate::service_management::adapters::{
    build_inventory, no_attributes, put_attr, put_text, read_only_operation_names,
    read_only_operations, shows, summary, text_or, text_or_default, with_attr,
};
use crate::service_management::models::{
    single_kind_tab, summary_views, tab, tab_views, InventoryView, ResourceSummary, ResourceTab,
    ServiceInventory, ServiceSupportLevel, TabView,
};
use crate::text::concat2;

verus! {

/// The tabs of the DynamoDB Streams inventory page.
pub open spec fn inventory_tabs() -> Seq<TabView> {
    seq![
        single_kind_tab("streams"@, "Streams"@, "stream"@, "No DynamoDB stream records are exposed by the local endpoint."@),
    ]
}

/// The tabs of the DynamoDB Streams inventory page.
pub fn tabs() -> (t: Vec<ResourceTab>)
    ensures
        tab_views(t@) == inventory_tabs(),
{
    let mut t: Vec<ResourceTab> = Vec::new();
    t.push(tab("streams", "Streams", "stream", "No DynamoDB stream records are exposed by the local endpoint."));
    assert(tab_views(t@) =~= inventory_tabs());
    t
}

/// What describing a stream reported of it: its label, status and creation time.
pub struct StreamDescription {
    pub label: Option<String>,
    pub status: Option<String>,
    pub created_at: Option<String>,
}

/// The name of a stream: the label its description reported, else the label
/// it was listed with, else its ARN.
pub open spec fn stream_name(stream_arn: Seq<char>, label: Option<Seq<char>>, description: Option<StreamDescription>) -> Seq<
    char,
> {
    let listed = text_or(label, stream_arn);
    match description {
        Some(d) => text_or(d.label.deep_view(), listed),
        None => listed,
    }
}

/// The status of a stream: the one its description reported (`unknown` when
/// none), or `listed` when it could not be described.
pub open spec fn stream_status(description: Option<StreamDescription>) -> Seq<char> {
    match description {
        Some(d) => text_or(d.status.deep_view(), "unknown"@),
        None => "listed"@,
    }
}

/// The resource listed for a stream; `description` is what describing it
/// reported, when that succeeded.
pub fn stream_summary(
    stream_arn: &str,
    label: Option<String>,
    table_name: Option<String>,
    description: Option<StreamDescription>,
) -> (r: ResourceSummary)
    ensures
        r.wf(),
        shows(
            r@,
            "stream/"@ + stream_arn@,
            stream_name(stream_arn@, label.deep_view(), description),
            "stream"@,
            stream_status(description),
            match description {
                Some(d) => d.created_at.deep_view(),
                None => None,
            },
            None,
            with_attr(map!["stream_arn"@ => stream_arn@], "table"@, table_name.deep_view()),
        ),
{
    let listed = text_or_default(label, stream_arn);
    let (name, status, created_at) = match description {
        Some(d) => (
            match d.label {
                Some(l) => l,
                None => listed,
            },
            text_or_default(d.status, "unknown"),
            d.created_at,
        ),
        None => (listed, String::from_str("listed"), None),
    };
    let mut attributes = no_attributes();
    put_text(&mut attributes, "stream_arn", String::from_str(stream_arn));
    put_attr(&mut attributes, "table", table_name);
    summary(concat2("stream/", stream_arn), name, "stream", status, created_at, None, attributes)
}

/// The name under which the service's inventory page is shown.
pub open spec fn label() -> Seq<char> {
    "DynamoDB Streams"@
}

/// How far this adapter supports the service: it only reads its resources.
pub open spec fn support_level() -> ServiceSupportLevel {
    ServiceSupportLevel::ReadOnly
}

/// The DynamoDB Streams inventory page: the listed `resources` under the DynamoDB Streams tabs, refreshed
/// at `refreshed_at`.
pub fn inventory(
    resources: Vec<ResourceSummary>,
    refreshed_at: String,
) -> (inv: ServiceInventory)
    ensures
        inv@ == (InventoryView {
            service_key: "dynamodbstreams"@,
            service_label: label(),
            support_level: support_level(),
            refreshed_at: refreshed_at@,
            tabs: inventory_tabs(),
            resources: summary_views(resources@),
            unsupported_operations: read_only_operations(),
        }),
{
    build_inventory(
        "dynamodbstreams",
        "DynamoDB Streams",
        ServiceSupportLevel::ReadOnly,
        refreshed_at,
        tabs(),
        resources,
        read_only_operation_names(),
    )
}

} // verus!
