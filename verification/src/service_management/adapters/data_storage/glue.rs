//! Glue.
use vstd::prelude::*;
use vstd::string::*;

use crate::service_management::adapters::{
    build_inventory, no_attributes, put_attr, put_text, read_only_operation_names,
    read_only_operations, shows, summary, text_or, text_or_default, with_attr,
};
use crate::service_management::models::{
    single_kind_tab, summary_views, tab, tab_of_kinds, tab_views, InventoryView, ResourceSummary,
    ResourceTab, ServiceInventory, ServiceSupportLevel, TabView,
};

verus! {

/// The tabs of the Glue inventory page.
pub open spec fn inventory_tabs() -> Seq<TabView> {
    seq![
        TabView {
            key: "catalog"@,
            label: "Catalog"@,
            kinds: seq!["database"@, "table"@, "connection"@],
            empty_message: "No Glue catalog databases, tables, or connections were found."@,
        },
        single_kind_tab("jobs"@, "Jobs"@, "job"@, "No Glue jobs were found."@),
        single_kind_tab("crawlers"@, "Crawlers"@, "crawler"@, "No Glue crawlers were found."@),
    ]
}

/// The tabs of the Glue inventory page.
pub fn tabs() -> (t: Vec<ResourceTab>)
    ensures
        tab_views(t@) == inventory_tabs(),
{
    let mut t: Vec<ResourceTab> = Vec::new();
    let mut kinds: Vec<String> = Vec::new();
    kinds.push(String::from_str("database"));
    kinds.push(String::from_str("table"));
    kinds.push(String::from_str("connection"));
    assert(kinds.deep_view() =~= seq!["database"@, "table"@, "connection"@]);
    t.push(tab_of_kinds("catalog", "Catalog", kinds, "No Glue catalog databases, tables, or connections were found."));
    t.push(tab("jobs", "Jobs", "job", "No Glue jobs were found."));
    t.push(tab("crawlers", "Crawlers", "crawler", "No Glue crawlers were found."));
    assert(tab_views(t@) =~= inventory_tabs());
    t
}

/// The attributes listed by [`database_summary`].
pub open spec fn database_attributes(description: Option<Seq<char>>) -> Map<Seq<char>, Seq<char>> {
    let m = Map::<Seq<char>, Seq<char>>::empty();
    with_attr(m, "description"@, description)
}

/// The resource listed for a database.
pub fn database_summary(
    name: &str,
    created_at: Option<String>,
    description: Option<String>,
) -> (r: ResourceSummary)
    ensures
        r.wf(),
        shows(
            r@,
            "database/"@ + name@,
            name@,
            "database"@,
            "available"@,
            created_at.deep_view(),
            None,
            database_attributes(description.deep_view()),
        ),
{
    let mut id = String::from_str("database/");
    id.append(name);
    let listed_name = String::from_str(name);
    let listed_status = String::from_str("available");
    let mut attributes = no_attributes();
    put_attr(&mut attributes, "description", description);
    summary(id, listed_name, "database", listed_status, created_at, None, attributes)
}

/// The attributes listed by [`table_summary`].
pub open spec fn table_attributes(
    database_name: Option<Seq<char>>,
    description: Option<Seq<char>>,
    table_type: Option<Seq<char>>,
    created_by: Option<Seq<char>>,
) -> Map<Seq<char>, Seq<char>> {
    let m = Map::<Seq<char>, Seq<char>>::empty();
    let m = m.insert("database"@, text_or(database_name, "unknown"@));
    let m = with_attr(m, "description"@, description);
    let m = with_attr(m, "table_type"@, table_type);
    with_attr(m, "created_by"@, created_by)
}

/// The resource listed for a table of a database (`unknown` when none is named).
pub fn table_summary(
    name: &str,
    database_name: Option<String>,
    created_at: Option<String>,
    updated_at: Option<String>,
    description: Option<String>,
    table_type: Option<String>,
    created_by: Option<String>,
) -> (r: ResourceSummary)
    ensures
        r.wf(),
        shows(
            r@,
            "table/"@ + text_or(database_name.deep_view(), "unknown"@) + "/"@ + name@,
            name@,
            "table"@,
            "available"@,
            created_at.deep_view(),
            updated_at.deep_view(),
            table_attributes(
                database_name.deep_view(),
                description.deep_view(),
                table_type.deep_view(),
                created_by.deep_view(),
            ),
        ),
{
    let mut id = String::from_str("table/");
    let piece = text_or_default(database_name.clone(), "unknown");
    id.append(piece.as_str());
    id.append("/");
    id.append(name);
    let listed_name = String::from_str(name);
    let listed_status = String::from_str("available");
    let mut attributes = no_attributes();
    put_text(&mut attributes, "database", text_or_default(database_name.clone(), "unknown"));
    put_attr(&mut attributes, "description", description);
    put_attr(&mut attributes, "table_type", table_type);
    put_attr(&mut attributes, "created_by", created_by);
    summary(id, listed_name, "table", listed_status, created_at, updated_at, attributes)
}

/// The attributes listed by [`crawler_summary`].
pub open spec fn crawler_attributes(
    role: Option<Seq<char>>,
    description: Option<Seq<char>>,
) -> Map<Seq<char>, Seq<char>> {
    let m = Map::<Seq<char>, Seq<char>>::empty();
    let m = with_attr(m, "role"@, role);
    with_attr(m, "description"@, description)
}

/// The resource listed for a crawler, in its state (`unknown` when none).
pub fn crawler_summary(
    name: &str,
    state: Option<String>,
    created_at: Option<String>,
    updated_at: Option<String>,
    role: Option<String>,
    description: Option<String>,
) -> (r: ResourceSummary)
    ensures
        r.wf(),
        shows(
            r@,
            "crawler/"@ + name@,
            name@,
            "crawler"@,
            text_or(state.deep_view(), "unknown"@),
            created_at.deep_view(),
            updated_at.deep_view(),
            crawler_attributes(role.deep_view(), description.deep_view()),
        ),
{
    let mut id = String::from_str("crawler/");
    id.append(name);
    let listed_name = String::from_str(name);
    let listed_status = text_or_default(state, "unknown");
    let mut attributes = no_attributes();
    put_attr(&mut attributes, "role", role);
    put_attr(&mut attributes, "description", description);
    summary(id, listed_name, "crawler", listed_status, created_at, updated_at, attributes)
}

/// The attributes listed by [`job_summary`].
pub open spec fn job_attributes(
    role: Option<Seq<char>>,
    description: Option<Seq<char>>,
) -> Map<Seq<char>, Seq<char>> {
    let m = Map::<Seq<char>, Seq<char>>::empty();
    let m = with_attr(m, "role"@, role);
    with_attr(m, "description"@, description)
}

/// The resource listed for a job.
pub fn job_summary(
    name: &str,
    role: Option<String>,
    description: Option<String>,
) -> (r: ResourceSummary)
    ensures
        r.wf(),
        shows(
            r@,
            "job/"@ + name@,
            name@,
            "job"@,
            "defined"@,
            None,
            None,
            job_attributes(role.deep_view(), description.deep_view()),
        ),
{
    let mut id = String::from_str("job/");
    id.append(name);
    let listed_name = String::from_str(name);
    let listed_status = String::from_str("defined");
    let mut attributes = no_attributes();
    put_attr(&mut attributes, "role", role);
    put_attr(&mut attributes, "description", description);
    summary(id, listed_name, "job", listed_status, None, None, attributes)
}

/// The attributes listed by [`connection_summary`].
pub open spec fn connection_attributes(
    description: Option<Seq<char>>,
    connection_type: Option<Seq<char>>,
    last_updated_by: Option<Seq<char>>,
) -> Map<Seq<char>, Seq<char>> {
    let m = Map::<Seq<char>, Seq<char>>::empty();
    let m = with_attr(m, "description"@, description);
    let m = with_attr(m, "connection_type"@, connection_type);
    with_attr(m, "last_updated_by"@, last_updated_by)
}

/// The resource listed for a connection.
pub fn connection_summary(
    name: &str,
    created_at: Option<String>,
    updated_at: Option<String>,
    description: Option<String>,
    connection_type: Option<String>,
    last_updated_by: Option<String>,
) -> (r: ResourceSummary)
    ensures
        r.wf(),
        shows(
            r@,
            "connection/"@ + name@,
            name@,
            "connection"@,
            "available"@,
            created_at.deep_view(),
            updated_at.deep_view(),
            connection_attributes(
                description.deep_view(),
                connection_type.deep_view(),
                last_updated_by.deep_view(),
            ),
        ),
{
    let mut id = String::from_str("connection/");
    id.append(name);
    let listed_name = String::from_str(name);
    let listed_status = String::from_str("available");
    let mut attributes = no_attributes();
    put_attr(&mut attributes, "description", description);
    put_attr(&mut attributes, "connection_type", connection_type);
    put_attr(&mut attributes, "last_updated_by", last_updated_by);
    summary(id, listed_name, "connection", listed_status, created_at, updated_at, attributes)
}

/// The name under which the service's inventory page is shown.
pub open spec fn label() -> Seq<char> {
    "Glue"@
}

/// How far this adapter supports the service: it only reads its resources.
pub open spec fn support_level() -> ServiceSupportLevel {
    ServiceSupportLevel::ReadOnly
}

/// The Glue inventory page: the listed `resources` under the Glue tabs, refreshed
/// at `refreshed_at`.
pub fn inventory(
    resources: Vec<ResourceSummary>,
    refreshed_at: String,
) -> (inv: ServiceInventory)
    ensures
        inv@ == (InventoryView {
            service_key: "glue"@,
            service_label: label(),
            support_level: support_level(),
            refreshed_at: refreshed_at@,
            tabs: inventory_tabs(),
            resources: summary_views(resources@),
            unsupported_operations: read_only_operations(),
        }),
{
    build_inventory(
        "glue",
        "Glue",
        ServiceSupportLevel::ReadOnly,
        refreshed_at,
        tabs(),
        resources,
        read_only_operation_names(),
    )
}

} // verus!
