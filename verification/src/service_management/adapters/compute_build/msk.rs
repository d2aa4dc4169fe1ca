//! MSK.
use vstd::prelude::*;
use vstd::string::*;

use crate::service_management::adapters::{
    build_inventory, no_attributes, put_attr, put_text, read_only_operation_names,
    read_only_operations, shows, summary, text_or, text_or_default, with_attr,
};
use crate::service_management::models::{
    single_kind_tab, summary_views, tab, tab_views, InventoryView, ResourceSummary, ResourceTab,
    ServiceInventory, ServiceSupportLevel, TabView,
};

verus! {

/// The tabs of the MSK inventory page.
pub open spec fn inventory_tabs() -> Seq<TabView> {
    seq![
        single_kind_tab("clusters"@, "Clusters"@, "cluster"@, "No MSK clusters were found."@),
        single_kind_tab("brokers"@, "Brokers"@, "broker"@, "No MSK brokers are loaded."@),
        single_kind_tab("configurations"@, "Configurations"@, "configuration"@, "No MSK configurations are loaded."@),
    ]
}

/// The tabs of the MSK inventory page.
pub fn tabs() -> (t: Vec<ResourceTab>)
    ensures
        tab_views(t@) == inventory_tabs(),
{
    let mut t: Vec<ResourceTab> = Vec::new();
    t.push(tab("clusters", "Clusters", "cluster", "No MSK clusters were found."));
    t.push(tab("brokers", "Brokers", "broker", "No MSK brokers are loaded."));
    t.push(tab("configurations", "Configurations", "configuration", "No MSK configurations are loaded."));
    assert(tab_views(t@) =~= inventory_tabs());
    t
}

/// The attributes listed by [`cluster_summary`].
pub open spec fn cluster_attributes(
    cluster_arn: Option<Seq<char>>,
    cluster_name: Seq<char>,
    cluster_type: Option<Seq<char>>,
) -> Map<Seq<char>, Seq<char>> {
    let m = Map::<Seq<char>, Seq<char>>::empty();
    let m = m.insert("cluster_arn"@, text_or(cluster_arn, cluster_name));
    with_attr(m, "cluster_type"@, cluster_type)
}

/// The resource listed for a cluster, under its ARN (its name when it has
/// none), in its state (`active` when none).
pub fn cluster_summary(
    cluster_name: &str,
    cluster_arn: Option<String>,
    state: Option<String>,
    cluster_type: Option<String>,
) -> (r: ResourceSummary)
    ensures
        r.wf(),
        shows(
            r@,
            "cluster/"@ + text_or(cluster_arn.deep_view(), cluster_name@),
            cluster_name@,
            "cluster"@,
            text_or(state.deep_view(), "active"@),
            None,
            None,
            cluster_attributes(cluster_arn.deep_view(), cluster_name@, cluster_type.deep_view()),
        ),
{
    let mut id = String::from_str("cluster/");
    let piece = text_or_default(cluster_arn.clone(), cluster_name);
    id.append(piece.as_str());
    let listed_name = String::from_str(cluster_name);
    let listed_status = text_or_default(state, "active");
    let mut attributes = no_attributes();
    put_text(&mut attributes, "cluster_arn", text_or_default(cluster_arn.clone(), cluster_name));
    put_attr(&mut attributes, "cluster_type", cluster_type);
    summary(id, listed_name, "cluster", listed_status, None, None, attributes)
}

/// The attributes listed by [`broker_summary`].
pub open spec fn broker_attributes(
    cluster_arn: Seq<char>,
    broker_id: Option<Seq<char>>,
    client_vpc_ip: Option<Seq<char>>,
    client_subnet: Option<Seq<char>>,
) -> Map<Seq<char>, Seq<char>> {
    let m = Map::<Seq<char>, Seq<char>>::empty();
    let m = m.insert("cluster_arn"@, cluster_arn);
    let m = with_attr(m, "broker_id"@, broker_id);
    let m = with_attr(m, "client_vpc_ip"@, client_vpc_ip);
    with_attr(m, "subnet"@, client_subnet)
}

/// The resource listed for a broker node of a cluster, named by its client
/// subnet (`broker` when it has none).
pub fn broker_summary(
    cluster_arn: &str,
    client_subnet: Option<String>,
    broker_id: Option<String>,
    client_vpc_ip: Option<String>,
) -> (r: ResourceSummary)
    ensures
        r.wf(),
        shows(
            r@,
            "broker/"@ + cluster_arn@ + "/"@ + text_or(client_subnet.deep_view(), "broker"@),
            text_or(client_subnet.deep_view(), "broker"@),
            "broker"@,
            "available"@,
            None,
            None,
            broker_attributes(
                cluster_arn@,
                broker_id.deep_view(),
                client_vpc_ip.deep_view(),
                client_subnet.deep_view(),
            ),
        ),
{
    let mut id = String::from_str("broker/");
    id.append(cluster_arn);
    id.append("/");
    let piece = text_or_default(client_subnet.clone(), "broker");
    id.append(piece.as_str());
    let listed_name = text_or_default(client_subnet.clone(), "broker");
    let listed_status = String::from_str("available");
    let mut attributes = no_attributes();
    put_text(&mut attributes, "cluster_arn", String::from_str(cluster_arn));
    put_attr(&mut attributes, "broker_id", broker_id);
    put_attr(&mut attributes, "client_vpc_ip", client_vpc_ip);
    put_attr(&mut attributes, "subnet", client_subnet);
    summary(id, listed_name, "broker", listed_status, None, None, attributes)
}

/// The attributes listed by [`configuration_summary`].
pub open spec fn configuration_attributes(arn: Seq<char>) -> Map<Seq<char>, Seq<char>> {
    let m = Map::<Seq<char>, Seq<char>>::empty();
    m.insert("arn"@, arn)
}

/// The resource listed for a configuration, named by its name or else its ARN.
pub fn configuration_summary(
    arn: &str,
    name: Option<String>,
) -> (r: ResourceSummary)
    ensures
        r.wf(),
        shows(
            r@,
            "configuration/"@ + arn@,
            text_or(name.deep_view(), arn@),
            "configuration"@,
            "available"@,
            None,
            None,
            configuration_attributes(arn@),
        ),
{
    let mut id = String::from_str("configuration/");
    id.append(arn);
    let listed_name = text_or_default(name.clone(), arn);
    let listed_status = String::from_str("available");
    let mut attributes = no_attributes();
    put_text(&mut attributes, "arn", String::from_str(arn));
    summary(id, listed_name, "configuration", listed_status, None, None, attributes)
}

/// The name under which the service's inventory page is shown.
pub open spec fn label() -> Seq<char> {
    "MSK"@
}

/// How far this adapter supports the service: it only reads its resources.
pub open spec fn support_level() -> ServiceSupportLevel {
    ServiceSupportLevel::ReadOnly
}

/// The MSK inventory page: the listed `resources` under the MSK tabs, refreshed
/// at `refreshed_at`.
pub fn inventory(
    resources: Vec<ResourceSummary>,
    refreshed_at: String,
) -> (inv: ServiceInventory)
    ensures
        inv@ == (InventoryView {
            service_key: "msk"@,
            service_label: label(),
            support_level: support_level(),
            refreshed_at: refreshed_at@,
            tabs: inventory_tabs(),
            resources: summary_views(resources@),
            unsupported_operations: read_only_operations(),
        }),
{
    build_inventory(
        "msk",
        "MSK",
        ServiceSupportLevel::ReadOnly,
        refreshed_at,
        tabs(),
        resources,
        read_only_operation_names(),
    )
}

} // verus!
