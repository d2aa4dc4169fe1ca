//! EKS.
use vstd::prelude::*;
use vstd::string::*;

use crate::service_management::adapters::{
    attributes_from, build_inventory, no_attributes, pair_views, pairs_map, put_attr, put_text,
    read_only_operation_names, read_only_operations, shows, shows_tagged, summary, tagged_summary,
    text_or, text_or_default, with_attr,
};
use crate::service_management::models::{
    single_kind_tab, summary_views, tab, tab_views, InventoryView, ResourceSummary, ResourceTab,
    ServiceInventory, ServiceSupportLevel, TabView,
};

verus! {

/// The tabs of the EKS inventory page.
pub open spec fn inventory_tabs() -> Seq<TabView> {
    seq![
        single_kind_tab("clusters"@, "Clusters"@, "cluster"@, "No EKS clusters were found."@),
        single_kind_tab("node-groups"@, "Node Groups"@, "node-group"@, "No EKS node groups are loaded."@),
        single_kind_tab("addons"@, "Add-ons"@, "addon"@, "No EKS add-ons are loaded."@),
    ]
}

/// The tabs of the EKS inventory page.
pub fn tabs() -> (t: Vec<ResourceTab>)
    ensures
        tab_views(t@) == inventory_tabs(),
{
    let mut t: Vec<ResourceTab> = Vec::new();
    t.push(tab("clusters", "Clusters", "cluster", "No EKS clusters were found."));
    t.push(tab("node-groups", "Node Groups", "node-group", "No EKS node groups are loaded."));
    t.push(tab("addons", "Add-ons", "addon", "No EKS add-ons are loaded."));
    assert(tab_views(t@) =~= inventory_tabs());
    t
}

/// The attributes listed by [`cluster_summary`].
pub open spec fn cluster_attributes(
    arn: Option<Seq<char>>,
    endpoint: Option<Seq<char>>,
    version: Option<Seq<char>>,
    platform_version: Option<Seq<char>>,
) -> Map<Seq<char>, Seq<char>> {
    let m = Map::<Seq<char>, Seq<char>>::empty();
    let m = with_attr(m, "arn"@, arn);
    let m = with_attr(m, "endpoint"@, endpoint);
    let m = with_attr(m, "version"@, version);
    with_attr(m, "platform_version"@, platform_version)
}

/// The resource listed for a cluster, in its status (`active` when none), with
/// its tags.
pub fn cluster_summary(
    cluster_name: &str,
    status: Option<String>,
    created_at: Option<String>,
    arn: Option<String>,
    endpoint: Option<String>,
    version: Option<String>,
    platform_version: Option<String>,
    tags: &Vec<(String, String)>,
) -> (r: ResourceSummary)
    ensures
        r.wf(),
        shows_tagged(
            r@,
            "cluster/"@ + cluster_name@,
            cluster_name@,
            "cluster"@,
            text_or(status.deep_view(), "active"@),
            created_at.deep_view(),
            pairs_map(pair_views(tags@)),
            cluster_attributes(
                arn.deep_view(),
                endpoint.deep_view(),
                version.deep_view(),
                platform_version.deep_view(),
            ),
        ),
{
    let mut id = String::from_str("cluster/");
    id.append(cluster_name);
    let listed_name = String::from_str(cluster_name);
    let listed_status = text_or_default(status, "active");
    let mut attributes = no_attributes();
    put_attr(&mut attributes, "arn", arn);
    put_attr(&mut attributes, "endpoint", endpoint);
    put_attr(&mut attributes, "version", version);
    put_attr(&mut attributes, "platform_version", platform_version);
    tagged_summary(id, listed_name, "cluster", listed_status, created_at, attributes_from(tags), attributes)
}

/// The attributes listed by [`node_group_summary`].
pub open spec fn node_group_attributes(
    cluster_name: Seq<char>,
    nodegroup_arn: Option<Seq<char>>,
    capacity_type: Option<Seq<char>>,
) -> Map<Seq<char>, Seq<char>> {
    let m = Map::<Seq<char>, Seq<char>>::empty();
    let m = m.insert("cluster_name"@, cluster_name);
    let m = with_attr(m, "nodegroup_arn"@, nodegroup_arn);
    with_attr(m, "capacity_type"@, capacity_type)
}

/// The resource listed for a node group of a cluster; its ARN and capacity
/// type come from describing it, when that succeeded.
pub fn node_group_summary(
    cluster_name: &str,
    nodegroup_name: &str,
    nodegroup_arn: Option<String>,
    capacity_type: Option<String>,
) -> (r: ResourceSummary)
    ensures
        r.wf(),
        shows(
            r@,
            "node-group/"@ + cluster_name@ + "/"@ + nodegroup_name@,
            nodegroup_name@,
            "node-group"@,
            "available"@,
            None,
            None,
            node_group_attributes(
                cluster_name@,
                nodegroup_arn.deep_view(),
                capacity_type.deep_view(),
            ),
        ),
{
    let mut id = String::from_str("node-group/");
    id.append(cluster_name);
    id.append("/");
    id.append(nodegroup_name);
    let listed_name = String::from_str(nodegroup_name);
    let listed_status = String::from_str("available");
    let mut attributes = no_attributes();
    put_text(&mut attributes, "cluster_name", String::from_str(cluster_name));
    put_attr(&mut attributes, "nodegroup_arn", nodegroup_arn);
    put_attr(&mut attributes, "capacity_type", capacity_type);
    summary(id, listed_name, "node-group", listed_status, None, None, attributes)
}

/// The attributes listed by [`addon_summary`].
pub open spec fn addon_attributes(cluster_name: Seq<char>) -> Map<Seq<char>, Seq<char>> {
    let m = Map::<Seq<char>, Seq<char>>::empty();
    m.insert("cluster_name"@, cluster_name)
}

/// The resource listed for an add-on of a cluster.
pub fn addon_summary(
    cluster_name: &str,
    addon_name: &str,
) -> (r: ResourceSummary)
    ensures
        r.wf(),
        shows(
            r@,
            "addon/"@ + cluster_name@ + "/"@ + addon_name@,
            addon_name@,
            "addon"@,
            "available"@,
            None,
            None,
            addon_attributes(cluster_name@),
        ),
{
    let mut id = String::from_str("addon/");
    id.append(cluster_name);
    id.append("/");
    id.append(addon_name);
    let listed_name = String::from_str(addon_name);
    let listed_status = String::from_str("available");
    let mut attributes = no_attributes();
    put_text(&mut attributes, "cluster_name", String::from_str(cluster_name));
    summary(id, listed_name, "addon", listed_status, None, None, attributes)
}

/// The name under which the service's inventory page is shown.
pub open spec fn label() -> Seq<char> {
    "EKS"@
}

/// How far this adapter supports the service: it only reads its resources.
pub open spec fn support_level() -> ServiceSupportLevel {
    ServiceSupportLevel::ReadOnly
}

/// The EKS inventory page: the listed `resources` under the EKS tabs, refreshed
/// at `refreshed_at`.
pub fn inventory(
    resources: Vec<ResourceSummary>,
    refreshed_at: String,
) -> (inv: ServiceInventory)
    ensures
        inv@ == (InventoryView {
            service_key: "eks"@,
            service_label: label(),
            support_level: support_level(),
            refreshed_at: refreshed_at@,
            tabs: inventory_tabs(),
            resources: summary_views(resources@),
            unsupported_operations: read_only_operations(),
        }),
{
    build_inventory(
        "eks",
        "EKS",
        ServiceSupportLevel::ReadOnly,
        refreshed_at,
        tabs(),
        resources,
        read_only_operation_names(),
    )
}

} // verus!
