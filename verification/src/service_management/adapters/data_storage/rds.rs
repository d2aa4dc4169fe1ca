//! RDS.
use vstd::prelude::*;
use vstd::string::*;

use crate::service_management::adapters::{
    build_inventory, no_attributes, number_text, optional_number_text, put_attr, put_text,
    read_only_operation_names, read_only_operations, shows, summary, text_or, text_or_default,
    with_attr,
};
use crate::service_management::models::{
    single_kind_tab, summary_views, tab, tab_views, InventoryView, ResourceSummary, ResourceTab,
    ServiceInventory, ServiceSupportLevel, TabView,
};
use crate::text::{digits_of, nat_text};

verus! {

/// The tabs of the RDS inventory page.
pub open spec fn inventory_tabs() -> Seq<TabView> {
    seq![
        single_kind_tab("instances"@, "Instances"@, "db-instance"@, "No RDS DB instances were found."@),
        single_kind_tab("clusters"@, "Clusters"@, "db-cluster"@, "No RDS DB clusters were found."@),
        single_kind_tab("snapshots"@, "Snapshots"@, "snapshot"@, "No RDS snapshots were found."@),
        single_kind_tab("subnet-groups"@, "Subnet Groups"@, "subnet-group"@, "No RDS subnet groups were found."@),
        single_kind_tab("parameter-groups"@, "Parameter Groups"@, "parameter-group"@, "No RDS parameter groups were found."@),
    ]
}

/// The tabs of the RDS inventory page.
pub fn tabs() -> (t: Vec<ResourceTab>)
    ensures
        tab_views(t@) == inventory_tabs(),
{
    let mut t: Vec<ResourceTab> = Vec::new();
    t.push(tab("instances", "Instances", "db-instance", "No RDS DB instances were found."));
    t.push(tab("clusters", "Clusters", "db-cluster", "No RDS DB clusters were found."));
    t.push(tab("snapshots", "Snapshots", "snapshot", "No RDS snapshots were found."));
    t.push(tab("subnet-groups", "Subnet Groups", "subnet-group", "No RDS subnet groups were found."));
    t.push(tab("parameter-groups", "Parameter Groups", "parameter-group", "No RDS parameter groups were found."));
    assert(tab_views(t@) =~= inventory_tabs());
    t
}

/// The attributes listed by [`db_instance_summary`].
pub open spec fn db_instance_attributes(
    engine: Option<Seq<char>>,
    cluster: Option<Seq<char>>,
    storage_type: Option<Seq<char>>,
    allocated_storage: Option<i64>,
) -> Map<Seq<char>, Seq<char>> {
    let m = Map::<Seq<char>, Seq<char>>::empty();
    let m = with_attr(m, "engine"@, engine);
    let m = with_attr(m, "cluster"@, cluster);
    let m = with_attr(m, "storage_type"@, storage_type);
    with_attr(m, "allocated_storage"@, number_text(allocated_storage))
}

/// The resource listed for a database instance, in its reported status
/// (`unknown` when none).
pub fn db_instance_summary(
    name: &str,
    status: Option<String>,
    created_at: Option<String>,
    engine: Option<String>,
    cluster: Option<String>,
    storage_type: Option<String>,
    allocated_storage: Option<i64>,
) -> (r: ResourceSummary)
    ensures
        r.wf(),
        shows(
            r@,
            "db-instance/"@ + name@,
            name@,
            "db-instance"@,
            text_or(status.deep_view(), "unknown"@),
            created_at.deep_view(),
            None,
            db_instance_attributes(
                engine.deep_view(),
                cluster.deep_view(),
                storage_type.deep_view(),
                allocated_storage,
            ),
        ),
{
    let mut id = String::from_str("db-instance/");
    id.append(name);
    let listed_name = String::from_str(name);
    let listed_status = text_or_default(status, "unknown");
    let mut attributes = no_attributes();
    put_attr(&mut attributes, "engine", engine);
    put_attr(&mut attributes, "cluster", cluster);
    put_attr(&mut attributes, "storage_type", storage_type);
    put_attr(&mut attributes, "allocated_storage", optional_number_text(allocated_storage));
    summary(id, listed_name, "db-instance", listed_status, created_at, None, attributes)
}

/// The attributes listed by [`db_cluster_summary`].
pub open spec fn db_cluster_attributes(
    engine: Option<Seq<char>>,
    engine_version: Option<Seq<char>>,
    endpoint: Option<Seq<char>>,
    reader_endpoint: Option<Seq<char>>,
) -> Map<Seq<char>, Seq<char>> {
    let m = Map::<Seq<char>, Seq<char>>::empty();
    let m = with_attr(m, "engine"@, engine);
    let m = with_attr(m, "engine_version"@, engine_version);
    let m = with_attr(m, "endpoint"@, endpoint);
    with_attr(m, "reader_endpoint"@, reader_endpoint)
}

/// The resource listed for a database cluster, in its reported status
/// (`unknown` when none).
pub fn db_cluster_summary(
    name: &str,
    status: Option<String>,
    created_at: Option<String>,
    engine: Option<String>,
    engine_version: Option<String>,
    endpoint: Option<String>,
    reader_endpoint: Option<String>,
) -> (r: ResourceSummary)
    ensures
        r.wf(),
        shows(
            r@,
            "db-cluster/"@ + name@,
            name@,
            "db-cluster"@,
            text_or(status.deep_view(), "unknown"@),
            created_at.deep_view(),
            None,
            db_cluster_attributes(
                engine.deep_view(),
                engine_version.deep_view(),
                endpoint.deep_view(),
                reader_endpoint.deep_view(),
            ),
        ),
{
    let mut id = String::from_str("db-cluster/");
    id.append(name);
    let listed_name = String::from_str(name);
    let listed_status = text_or_default(status, "unknown");
    let mut attributes = no_attributes();
    put_attr(&mut attributes, "engine", engine);
    put_attr(&mut attributes, "engine_version", engine_version);
    put_attr(&mut attributes, "endpoint", endpoint);
    put_attr(&mut attributes, "reader_endpoint", reader_endpoint);
    summary(id, listed_name, "db-cluster", listed_status, created_at, None, attributes)
}

/// The attributes listed by [`db_snapshot_summary`].
pub open spec fn db_snapshot_attributes(
    instance: Option<Seq<char>>,
    engine: Option<Seq<char>>,
    snapshot_type: Option<Seq<char>>,
    allocated_storage: Option<i64>,
) -> Map<Seq<char>, Seq<char>> {
    let m = Map::<Seq<char>, Seq<char>>::empty();
    let m = with_attr(m, "instance"@, instance);
    let m = with_attr(m, "engine"@, engine);
    let m = with_attr(m, "snapshot_type"@, snapshot_type);
    with_attr(m, "allocated_storage"@, number_text(allocated_storage))
}

/// The resource listed for a database snapshot, in its reported status
/// (`unknown` when none).
pub fn db_snapshot_summary(
    name: &str,
    status: Option<String>,
    created_at: Option<String>,
    instance: Option<String>,
    engine: Option<String>,
    snapshot_type: Option<String>,
    allocated_storage: Option<i64>,
) -> (r: ResourceSummary)
    ensures
        r.wf(),
        shows(
            r@,
            "snapshot/"@ + name@,
            name@,
            "snapshot"@,
            text_or(status.deep_view(), "unknown"@),
            created_at.deep_view(),
            None,
            db_snapshot_attributes(
                instance.deep_view(),
                engine.deep_view(),
                snapshot_type.deep_view(),
                allocated_storage,
            ),
        ),
{
    let mut id = String::from_str("snapshot/");
    id.append(name);
    let listed_name = String::from_str(name);
    let listed_status = text_or_default(status, "unknown");
    let mut attributes = no_attributes();
    put_attr(&mut attributes, "instance", instance);
    put_attr(&mut attributes, "engine", engine);
    put_attr(&mut attributes, "snapshot_type", snapshot_type);
    put_attr(&mut attributes, "allocated_storage", optional_number_text(allocated_storage));
    summary(id, listed_name, "snapshot", listed_status, created_at, None, attributes)
}

/// The attributes listed by [`db_subnet_group_summary`].
pub open spec fn db_subnet_group_attributes(
    description: Option<Seq<char>>,
    vpc: Option<Seq<char>>,
    subnet_count: nat,
) -> Map<Seq<char>, Seq<char>> {
    let m = Map::<Seq<char>, Seq<char>>::empty();
    let m = with_attr(m, "description"@, description);
    let m = with_attr(m, "vpc"@, vpc);
    m.insert("subnet_count"@, digits_of(subnet_count))
}

/// The resource listed for a subnet group, with the number of its subnets.
pub fn db_subnet_group_summary(
    name: &str,
    status: Option<String>,
    description: Option<String>,
    vpc: Option<String>,
    subnet_count: usize,
) -> (r: ResourceSummary)
    ensures
        r.wf(),
        shows(
            r@,
            "subnet-group/"@ + name@,
            name@,
            "subnet-group"@,
            text_or(status.deep_view(), "unknown"@),
            None,
            None,
            db_subnet_group_attributes(
                description.deep_view(),
                vpc.deep_view(),
                subnet_count as nat,
            ),
        ),
{
    let mut id = String::from_str("subnet-group/");
    id.append(name);
    let listed_name = String::from_str(name);
    let listed_status = text_or_default(status, "unknown");
    let mut attributes = no_attributes();
    put_attr(&mut attributes, "description", description);
    put_attr(&mut attributes, "vpc", vpc);
    put_text(&mut attributes, "subnet_count", nat_text(subnet_count as u64));
    summary(id, listed_name, "subnet-group", listed_status, None, None, attributes)
}

/// The attributes listed by [`db_parameter_group_summary`].
pub open spec fn db_parameter_group_attributes(
    family: Option<Seq<char>>,
    description: Option<Seq<char>>,
) -> Map<Seq<char>, Seq<char>> {
    let m = Map::<Seq<char>, Seq<char>>::empty();
    let m = with_attr(m, "family"@, family);
    with_attr(m, "description"@, description)
}

/// The resource listed for a parameter group.
pub fn db_parameter_group_summary(
    name: &str,
    family: Option<String>,
    description: Option<String>,
) -> (r: ResourceSummary)
    ensures
        r.wf(),
        shows(
            r@,
            "parameter-group/"@ + name@,
            name@,
            "parameter-group"@,
            "available"@,
            None,
            None,
            db_parameter_group_attributes(family.deep_view(), description.deep_view()),
        ),
{
    let mut id = String::from_str("parameter-group/");
    id.append(name);
    let listed_name = String::from_str(name);
    let listed_status = String::from_str("available");
    let mut attributes = no_attributes();
    put_attr(&mut attributes, "family", family);
    put_attr(&mut attributes, "description", description);
    summary(id, listed_name, "parameter-group", listed_status, None, None, attributes)
}

/// The name under which the service's inventory page is shown.
pub open spec fn label() -> Seq<char> {
    "RDS"@
}

/// How far this adapter supports the service: it only reads its resources.
pub open spec fn support_level() -> ServiceSupportLevel {
    ServiceSupportLevel::ReadOnly
}

/// The RDS inventory page: the listed `resources` under the RDS tabs, refreshed
/// at `refreshed_at`.
pub fn inventory(
    resources: Vec<ResourceSummary>,
    refreshed_at: String,
) -> (inv: ServiceInventory)
    ensures
        inv@ == (InventoryView {
            service_key: "rds"@,
            service_label: label(),
            support_level: support_level(),
            refreshed_at: refreshed_at@,
            tabs: inventory_tabs(),
            resources: summary_views(resources@),
            unsupported_operations: read_only_operations(),
        }),
{
    build_inventory(
        "rds",
        "RDS",
        ServiceSupportLevel::ReadOnly,
        refreshed_at,
        tabs(),
        resources,
        read_only_operation_names(),
    )
}

} // verus!
