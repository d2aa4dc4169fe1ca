//! ElastiCache.
use vstd::prelude::*;
use vstd::string::*;

use crate::service_management::adapters::{
    build_inventory, no_attributes, put_attr, put_text, read_only_operation_names,
    read_only_operations, shows, summary, text_or, text_or_default, with_attr,
};
use crate::service_management::models::{
    single_kind_tab, summary_views, tab, tab_views, InventoryView, ResourceSummary, ResourceTab,
    ServiceInventory, ServiceSupportLevel, TabView,
};
use crate::text::{digits_of, nat_text};

verus! {

/// The tabs of the ElastiCache inventory page.
pub open spec fn inventory_tabs() -> Seq<TabView> {
    seq![
        single_kind_tab("clusters"@, "Clusters"@, "cache-cluster"@, "No ElastiCache clusters were found."@),
        single_kind_tab("replication-groups"@, "Replication Groups"@, "replication-group"@, "No ElastiCache replication groups were found."@),
        single_kind_tab("users"@, "Users"@, "user"@, "No ElastiCache users were found."@),
        single_kind_tab("subnet-groups"@, "Subnet Groups"@, "subnet-group"@, "No ElastiCache subnet groups were found."@),
    ]
}

/// The tabs of the ElastiCache inventory page.
pub fn tabs() -> (t: Vec<ResourceTab>)
    ensures
        tab_views(t@) == inventory_tabs(),
{
    let mut t: Vec<ResourceTab> = Vec::new();
    t.push(tab("clusters", "Clusters", "cache-cluster", "No ElastiCache clusters were found."));
    t.push(tab("replication-groups", "Replication Groups", "replication-group", "No ElastiCache replication groups were found."));
    t.push(tab("users", "Users", "user", "No ElastiCache users were found."));
    t.push(tab("subnet-groups", "Subnet Groups", "subnet-group", "No ElastiCache subnet groups were found."));
    assert(tab_views(t@) =~= inventory_tabs());
    t
}

/// The attributes listed by [`cache_cluster_summary`].
pub open spec fn cache_cluster_attributes(
    engine: Option<Seq<char>>,
    subnet_group: Option<Seq<char>>,
    replication_group: Option<Seq<char>>,
) -> Map<Seq<char>, Seq<char>> {
    let m = Map::<Seq<char>, Seq<char>>::empty();
    let m = with_attr(m, "engine"@, engine);
    let m = with_attr(m, "subnet_group"@, subnet_group);
    with_attr(m, "replication_group"@, replication_group)
}

/// The resource listed for a cache cluster, in its status (`unknown` when
/// none).
pub fn cache_cluster_summary(
    name: &str,
    status: Option<String>,
    created_at: Option<String>,
    engine: Option<String>,
    subnet_group: Option<String>,
    replication_group: Option<String>,
) -> (r: ResourceSummary)
    ensures
        r.wf(),
        shows(
            r@,
            "cache-cluster/"@ + name@,
            name@,
            "cache-cluster"@,
            text_or(status.deep_view(), "unknown"@),
            created_at.deep_view(),
            None,
            cache_cluster_attributes(
                engine.deep_view(),
                subnet_group.deep_view(),
                replication_group.deep_view(),
            ),
        ),
{
    let mut id = String::from_str("cache-cluster/");
    id.append(name);
    let listed_name = String::from_str(name);
    let listed_status = text_or_default(status, "unknown");
    let mut attributes = no_attributes();
    put_attr(&mut attributes, "engine", engine);
    put_attr(&mut attributes, "subnet_group", subnet_group);
    put_attr(&mut attributes, "replication_group", replication_group);
    summary(id, listed_name, "cache-cluster", listed_status, created_at, None, attributes)
}

/// The attributes listed by [`replication_group_summary`].
pub open spec fn replication_group_attributes(
    engine: Option<Seq<char>>,
    node_type: Option<Seq<char>>,
    member_cluster_count: nat,
    node_group_count: nat,
) -> Map<Seq<char>, Seq<char>> {
    let m = Map::<Seq<char>, Seq<char>>::empty();
    let m = with_attr(m, "engine"@, engine);
    let m = with_attr(m, "node_type"@, node_type);
    let m = m.insert("member_cluster_count"@, digits_of(member_cluster_count));
    m.insert("node_group_count"@, digits_of(node_group_count))
}

/// The resource listed for a replication group, with the number of its member
/// clusters and node groups.
pub fn replication_group_summary(
    name: &str,
    status: Option<String>,
    created_at: Option<String>,
    engine: Option<String>,
    node_type: Option<String>,
    member_cluster_count: usize,
    node_group_count: usize,
) -> (r: ResourceSummary)
    ensures
        r.wf(),
        shows(
            r@,
            "replication-group/"@ + name@,
            name@,
            "replication-group"@,
            text_or(status.deep_view(), "unknown"@),
            created_at.deep_view(),
            None,
            replication_group_attributes(
                engine.deep_view(),
                node_type.deep_view(),
                member_cluster_count as nat,
                node_group_count as nat,
            ),
        ),
{
    let mut id = String::from_str("replication-group/");
    id.append(name);
    let listed_name = String::from_str(name);
    let listed_status = text_or_default(status, "unknown");
    let mut attributes = no_attributes();
    put_attr(&mut attributes, "engine", engine);
    put_attr(&mut attributes, "node_type", node_type);
    put_text(&mut attributes, "member_cluster_count", nat_text(member_cluster_count as u64));
    put_text(&mut attributes, "node_group_count", nat_text(node_group_count as u64));
    summary(id, listed_name, "replication-group", listed_status, created_at, None, attributes)
}

/// The attributes listed by [`cache_user_summary`].
pub open spec fn cache_user_attributes(
    user_name: Option<Seq<char>>,
    engine: Option<Seq<char>>,
    access: Option<Seq<char>>,
) -> Map<Seq<char>, Seq<char>> {
    let m = Map::<Seq<char>, Seq<char>>::empty();
    let m = with_attr(m, "user_name"@, user_name);
    let m = with_attr(m, "engine"@, engine);
    with_attr(m, "access"@, access)
}

/// The resource listed for a cache user, in its status (`unknown` when none).
pub fn cache_user_summary(
    user_id: &str,
    status: Option<String>,
    user_name: Option<String>,
    engine: Option<String>,
    access: Option<String>,
) -> (r: ResourceSummary)
    ensures
        r.wf(),
        shows(
            r@,
            "user/"@ + user_id@,
            user_id@,
            "user"@,
            text_or(status.deep_view(), "unknown"@),
            None,
            None,
            cache_user_attributes(user_name.deep_view(), engine.deep_view(), access.deep_view()),
        ),
{
    let mut id = String::from_str("user/");
    id.append(user_id);
    let listed_name = String::from_str(user_id);
    let listed_status = text_or_default(status, "unknown");
    let mut attributes = no_attributes();
    put_attr(&mut attributes, "user_name", user_name);
    put_attr(&mut attributes, "engine", engine);
    put_attr(&mut attributes, "access", access);
    summary(id, listed_name, "user", listed_status, None, None, attributes)
}

/// The attributes listed by [`cache_subnet_group_summary`].
pub open spec fn cache_subnet_group_attributes(
    description: Option<Seq<char>>,
    vpc: Option<Seq<char>>,
    subnet_count: nat,
) -> Map<Seq<char>, Seq<char>> {
    let m = Map::<Seq<char>, Seq<char>>::empty();
    let m = with_attr(m, "description"@, description);
    let m = with_attr(m, "vpc"@, vpc);
    m.insert("subnet_count"@, digits_of(subnet_count))
}

/// The resource listed for a cache subnet group, with the number of its
/// subnets.
pub fn cache_subnet_group_summary(
    name: &str,
    description: Option<String>,
    vpc: Option<String>,
    subnet_count: usize,
) -> (r: ResourceSummary)
    ensures
        r.wf(),
        shows(
            r@,
            "subnet-group/"@ + name@,
            name@,
            "subnet-group"@,
            "available"@,
            None,
            None,
            cache_subnet_group_attributes(
                description.deep_view(),
                vpc.deep_view(),
                subnet_count as nat,
            ),
        ),
{
    let mut id = String::from_str("subnet-group/");
    id.append(name);
    let listed_name = String::from_str(name);
    let listed_status = String::from_str("available");
    let mut attributes = no_attributes();
    put_attr(&mut attributes, "description", description);
    put_attr(&mut attributes, "vpc", vpc);
    put_text(&mut attributes, "subnet_count", nat_text(subnet_count as u64));
    summary(id, listed_name, "subnet-group", listed_status, None, None, attributes)
}

/// The name under which the service's inventory page is shown.
pub open spec fn label() -> Seq<char> {
    "ElastiCache"@
}

/// How far this adapter supports the service: it only reads its resources.
pub open spec fn support_level() -> ServiceSupportLevel {
    ServiceSupportLevel::ReadOnly
}

/// The ElastiCache inventory page: the listed `resources` under the ElastiCache tabs, refreshed
/// at `refreshed_at`.
pub fn inventory(
    resources: Vec<ResourceSummary>,
    refreshed_at: String,
) -> (inv: ServiceInventory)
    ensures
        inv@ == (InventoryView {
            service_key: "elasticache"@,
            service_label: label(),
            support_level: support_level(),
            refreshed_at: refreshed_at@,
            tabs: inventory_tabs(),
            resources: summary_views(resources@),
            unsupported_operations: read_only_operations(),
        }),
{
    build_inventory(
        "elasticache",
        "ElastiCache",
        ServiceSupportLevel::ReadOnly,
        refreshed_at,
        tabs(),
        resources,
        read_only_operation_names(),
    )
}

} // verus!
