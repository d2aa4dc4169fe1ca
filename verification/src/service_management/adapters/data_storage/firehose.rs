//! Data Firehose.
use vstd::prelude::*;
use vstd::string::*;

use crate::service_management::adapters::{
    bool_text, bool_to_text, build_inventory, no_attributes, put_text, read_only_operation_names,
    read_only_operations, shows, summary,
};
use crate::service_management::models::{
    single_kind_tab, summary_views, tab, tab_views, InventoryView, ResourceSummary, ResourceTab,
    ServiceInventory, ServiceSupportLevel, TabView,
};
use crate::text::{digits_of, nat_text};

verus! {

/// The tabs of the Data Firehose inventory page.
pub open spec fn inventory_tabs() -> Seq<TabView> {
    seq![
        single_kind_tab("streams"@, "Streams"@, "delivery-stream"@, "No Firehose delivery streams were found."@),
        single_kind_tab("destinations"@, "Destinations"@, "destination"@, "No Firehose destinations are loaded."@),
    ]
}

/// The tabs of the Data Firehose inventory page.
pub fn tabs() -> (t: Vec<ResourceTab>)
    ensures
        tab_views(t@) == inventory_tabs(),
{
    let mut t: Vec<ResourceTab> = Vec::new();
    t.push(tab("streams", "Streams", "delivery-stream", "No Firehose delivery streams were found."));
    t.push(tab("destinations", "Destinations", "destination", "No Firehose destinations are loaded."));
    assert(tab_views(t@) =~= inventory_tabs());
    t
}

/// The attributes listed by [`delivery_stream_summary`].
pub open spec fn delivery_stream_attributes(
    stream_arn: Seq<char>,
    stream_type: Seq<char>,
    version: Seq<char>,
    destination_count: nat,
    has_more_destinations: bool,
) -> Map<Seq<char>, Seq<char>> {
    let m = Map::<Seq<char>, Seq<char>>::empty();
    let m = m.insert("stream_arn"@, stream_arn);
    let m = m.insert("stream_type"@, stream_type);
    let m = m.insert("version"@, version);
    let m = m.insert("destination_count"@, digits_of(destination_count));
    m.insert("has_more_destinations"@, bool_text(has_more_destinations))
}

/// The resource listed for a delivery stream, with the number of its
/// destinations.
pub fn delivery_stream_summary(
    name: &str,
    status: &str,
    created_at: Option<String>,
    updated_at: Option<String>,
    stream_arn: &str,
    stream_type: &str,
    version: &str,
    destination_count: usize,
    has_more_destinations: bool,
) -> (r: ResourceSummary)
    ensures
        r.wf(),
        shows(
            r@,
            "delivery-stream/"@ + name@,
            name@,
            "delivery-stream"@,
            status@,
            created_at.deep_view(),
            updated_at.deep_view(),
            delivery_stream_attributes(
                stream_arn@,
                stream_type@,
                version@,
                destination_count as nat,
                has_more_destinations,
            ),
        ),
{
    let mut id = String::from_str("delivery-stream/");
    id.append(name);
    let listed_name = String::from_str(name);
    let listed_status = String::from_str(status);
    let mut attributes = no_attributes();
    put_text(&mut attributes, "stream_arn", String::from_str(stream_arn));
    put_text(&mut attributes, "stream_type", String::from_str(stream_type));
    put_text(&mut attributes, "version", String::from_str(version));
    put_text(&mut attributes, "destination_count", nat_text(destination_count as u64));
    put_text(&mut attributes, "has_more_destinations", bool_to_text(has_more_destinations));
    summary(id, listed_name, "delivery-stream", listed_status, created_at, updated_at, attributes)
}

/// The attributes listed by [`destination_summary`].
pub open spec fn destination_attributes(stream_name: Seq<char>) -> Map<Seq<char>, Seq<char>> {
    let m = Map::<Seq<char>, Seq<char>>::empty();
    m.insert("stream"@, stream_name)
}

/// The resource listed for a destination of a delivery stream.
pub fn destination_summary(
    stream_name: &str,
    destination_id: &str,
) -> (r: ResourceSummary)
    ensures
        r.wf(),
        shows(
            r@,
            "destination/"@ + stream_name@ + "/"@ + destination_id@,
            destination_id@,
            "destination"@,
            "configured"@,
            None,
            None,
            destination_attributes(stream_name@),
        ),
{
    let mut id = String::from_str("destination/");
    id.append(stream_name);
    id.append("/");
    id.append(destination_id);
    let listed_name = String::from_str(destination_id);
    let listed_status = String::from_str("configured");
    let mut attributes = no_attributes();
    put_text(&mut attributes, "stream", String::from_str(stream_name));
    summary(id, listed_name, "destination", listed_status, None, None, attributes)
}

/// The name under which the service's inventory page is shown.
pub open spec fn label() -> Seq<char> {
    "Data Firehose"@
}

/// How far this adapter supports the service: it only reads its resources.
pub open spec fn support_level() -> ServiceSupportLevel {
    ServiceSupportLevel::ReadOnly
}

/// The Data Firehose inventory page: the listed `resources` under the Data Firehose tabs, refreshed
/// at `refreshed_at`.
pub fn inventory(
    resources: Vec<ResourceSummary>,
    refreshed_at: String,
) -> (inv: ServiceInventory)
    ensures
        inv@ == (InventoryView {
            service_key: "firehose"@,
            service_label: label(),
            support_level: support_level(),
            refreshed_at: refreshed_at@,
            tabs: inventory_tabs(),
            resources: summary_views(resources@),
            unsupported_operations: read_only_operations(),
        }),
{
    build_inventory(
        "firehose",
        "Data Firehose",
        ServiceSupportLevel::ReadOnly,
        refreshed_at,
        tabs(),
        resources,
        read_only_operation_names(),
    )
}

} // verus!
