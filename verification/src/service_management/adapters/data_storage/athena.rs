//! Athena.
use vstd::prelude::*;
use vstd::string::*;

use crate::service_management::adapters::{
    build_inventory, no_attributes, put_attr, put_text, read_only_operation_names,
    read_only_operations, shows, summary, text_or, text_or_default, with_attr,
};
use crate::service_management::models::{
    single_kind_tab, summary_views, tab, tab_views, InventoryView, ResourceSummary, ResourceTab,
    ServiceInventory, ServiceSupportLevel, TabView,
};

verus! {

/// The tabs of the Athena inventory page.
pub open spec fn inventory_tabs() -> Seq<TabView> {
    seq![
        single_kind_tab("workgroups"@, "Workgroups"@, "workgroup"@, "No Athena workgroups were found."@),
        single_kind_tab("queries"@, "Queries"@, "named-query"@, "No Athena named queries were found."@),
        single_kind_tab("results-metadata"@, "Results Metadata"@, "result-metadata"@, "No Athena result metadata is loaded."@),
        single_kind_tab("catalog"@, "Catalog"@, "data-catalog"@, "No Athena data catalogs were found."@),
    ]
}

/// The tabs of the Athena inventory page.
pub fn tabs() -> (t: Vec<ResourceTab>)
    ensures
        tab_views(t@) == inventory_tabs(),
{
    let mut t: Vec<ResourceTab> = Vec::new();
    t.push(tab("workgroups", "Workgroups", "workgroup", "No Athena workgroups were found."));
    t.push(tab("queries", "Queries", "named-query", "No Athena named queries were found."));
    t.push(tab("results-metadata", "Results Metadata", "result-metadata", "No Athena result metadata is loaded."));
    t.push(tab("catalog", "Catalog", "data-catalog", "No Athena data catalogs were found."));
    assert(tab_views(t@) =~= inventory_tabs());
    t
}

/// The attributes listed by [`workgroup_summary`].
pub open spec fn workgroup_attributes(description: Option<Seq<char>>) -> Map<Seq<char>, Seq<char>> {
    let m = Map::<Seq<char>, Seq<char>>::empty();
    with_attr(m, "description"@, description)
}

/// The resource listed for a workgroup, in its state (`unknown` when none).
pub fn workgroup_summary(
    name: &str,
    state: Option<String>,
    description: Option<String>,
) -> (r: ResourceSummary)
    ensures
        r.wf(),
        shows(
            r@,
            "workgroup/"@ + name@,
            name@,
            "workgroup"@,
            text_or(state.deep_view(), "unknown"@),
            None,
            None,
            workgroup_attributes(description.deep_view()),
        ),
{
    let mut id = String::from_str("workgroup/");
    id.append(name);
    let listed_name = String::from_str(name);
    let listed_status = text_or_default(state, "unknown");
    let mut attributes = no_attributes();
    put_attr(&mut attributes, "description", description);
    summary(id, listed_name, "workgroup", listed_status, None, None, attributes)
}

/// The attributes listed by [`data_catalog_summary`].
pub open spec fn data_catalog_attributes(
    catalog_type: Option<Seq<char>>,
    connection_type: Option<Seq<char>>,
    error: Option<Seq<char>>,
) -> Map<Seq<char>, Seq<char>> {
    let m = Map::<Seq<char>, Seq<char>>::empty();
    let m = with_attr(m, "catalog_type"@, catalog_type);
    let m = with_attr(m, "connection_type"@, connection_type);
    with_attr(m, "error"@, error)
}

/// The resource listed for a data catalog, in its status (`available` when
/// none).
pub fn data_catalog_summary(
    name: &str,
    status: Option<String>,
    catalog_type: Option<String>,
    connection_type: Option<String>,
    error: Option<String>,
) -> (r: ResourceSummary)
    ensures
        r.wf(),
        shows(
            r@,
            "data-catalog/"@ + name@,
            name@,
            "data-catalog"@,
            text_or(status.deep_view(), "available"@),
            None,
            None,
            data_catalog_attributes(
                catalog_type.deep_view(),
                connection_type.deep_view(),
                error.deep_view(),
            ),
        ),
{
    let mut id = String::from_str("data-catalog/");
    id.append(name);
    let listed_name = String::from_str(name);
    let listed_status = text_or_default(status, "available");
    let mut attributes = no_attributes();
    put_attr(&mut attributes, "catalog_type", catalog_type);
    put_attr(&mut attributes, "connection_type", connection_type);
    put_attr(&mut attributes, "error", error);
    summary(id, listed_name, "data-catalog", listed_status, None, None, attributes)
}

/// The attributes listed by [`named_query_summary`].
pub open spec fn named_query_attributes(
    description: Option<Seq<char>>,
    database: Seq<char>,
    workgroup: Option<Seq<char>>,
) -> Map<Seq<char>, Seq<char>> {
    let m = Map::<Seq<char>, Seq<char>>::empty();
    let m = with_attr(m, "description"@, description);
    let m = m.insert("database"@, database);
    with_attr(m, "workgroup"@, workgroup)
}

/// The resource listed for a saved query, under its id (its name when it has
/// none).
pub fn named_query_summary(
    name: &str,
    query_id: Option<String>,
    description: Option<String>,
    database: &str,
    workgroup: Option<String>,
) -> (r: ResourceSummary)
    ensures
        r.wf(),
        shows(
            r@,
            "named-query/"@ + text_or(query_id.deep_view(), name@),
            name@,
            "named-query"@,
            "saved"@,
            None,
            None,
            named_query_attributes(description.deep_view(), database@, workgroup.deep_view()),
        ),
{
    let mut id = String::from_str("named-query/");
    let piece = text_or_default(query_id.clone(), name);
    id.append(piece.as_str());
    let listed_name = String::from_str(name);
    let listed_status = String::from_str("saved");
    let mut attributes = no_attributes();
    put_attr(&mut attributes, "description", description);
    put_text(&mut attributes, "database", String::from_str(database));
    put_attr(&mut attributes, "workgroup", workgroup);
    summary(id, listed_name, "named-query", listed_status, None, None, attributes)
}

/// The name under which the service's inventory page is shown.
pub open spec fn label() -> Seq<char> {
    "Athena"@
}

/// How far this adapter supports the service: it only reads its resources.
pub open spec fn support_level() -> ServiceSupportLevel {
    ServiceSupportLevel::ReadOnly
}

/// The Athena inventory page: the listed `resources` under the Athena tabs, refreshed
/// at `refreshed_at`.
pub fn inventory(
    resources: Vec<ResourceSummary>,
    refreshed_at: String,
) -> (inv: ServiceInventory)
    ensures
        inv@ == (InventoryView {
            service_key: "athena"@,
            service_label: label(),
            support_level: support_level(),
            refreshed_at: refreshed_at@,
            tabs: inventory_tabs(),
            resources: summary_views(resources@),
            unsupported_operations: read_only_operations(),
        }),
{
    build_inventory(
        "athena",
        "Athena",
        ServiceSupportLevel::ReadOnly,
        refreshed_at,
        tabs(),
        resources,
        read_only_operation_names(),
    )
}

} // verus!
