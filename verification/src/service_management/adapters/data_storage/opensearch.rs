//! OpenSearch.
use vstd::prelude::*;
use vstd::string::*;

use crate::service_management::adapters::{
    build_inventory, no_attributes, number_text, optional_number_text, put_attr, put_text,
    read_only_operation_names, read_only_operations, shows, summary, texts_of, with_attr,
};
use crate::service_management::text_map::TextMap;
use crate::text::{concat2, concat4};

use crate::service_management::models::{
    single_kind_tab, summary_views, tab, tab_views, InventoryView, ResourceSummary, ResourceTab,
    ServiceInventory, ServiceSupportLevel, TabView,
};

verus! {

/// The tabs of the OpenSearch inventory page.
pub open spec fn inventory_tabs() -> Seq<TabView> {
    seq![
        single_kind_tab("domains"@, "Domains"@, "domain"@, "No OpenSearch domains were found."@),
        single_kind_tab("endpoints"@, "Endpoints"@, "endpoint"@, "No OpenSearch endpoints are loaded."@),
        single_kind_tab("index-hints"@, "Index Hints"@, "index-hint"@, "No OpenSearch index hints are loaded."@),
        single_kind_tab("access-policies"@, "Access Policies"@, "access-policy"@, "No OpenSearch access policies are loaded."@),
    ]
}

/// The tabs of the OpenSearch inventory page.
pub fn tabs() -> (t: Vec<ResourceTab>)
    ensures
        tab_views(t@) == inventory_tabs(),
{
    let mut t: Vec<ResourceTab> = Vec::new();
    t.push(tab("domains", "Domains", "domain", "No OpenSearch domains were found."));
    t.push(tab("endpoints", "Endpoints", "endpoint", "No OpenSearch endpoints are loaded."));
    t.push(tab("index-hints", "Index Hints", "index-hint", "No OpenSearch index hints are loaded."));
    t.push(tab("access-policies", "Access Policies", "access-policy", "No OpenSearch access policies are loaded."));
    assert(tab_views(t@) =~= inventory_tabs());
    t
}

/// The status a domain is listed with, from its `created`, `deleted` and
/// `processing` flags (a missing flag counts as false).
pub open spec fn domain_state(created: Option<bool>, deleted: Option<bool>, processing: Option<bool>) -> Seq<char> {
    if deleted == Some(true) {
        "deleted"@
    } else if processing == Some(true) {
        "processing"@
    } else if created == Some(true) {
        "active"@
    } else {
        "listed"@
    }
}

/// The status a domain is listed with.
pub fn domain_status(created: Option<bool>, deleted: Option<bool>, processing: Option<bool>) -> (r: String)
    ensures
        r@ == domain_state(created, deleted, processing),
{
    if deleted == Some(true) {
        String::from_str("deleted")
    } else if processing == Some(true) {
        String::from_str("processing")
    } else if created == Some(true) {
        String::from_str("active")
    } else {
        String::from_str("listed")
    }
}

/// The resource listed for one endpoint of a domain.
pub fn endpoint_resource(domain_name: &str, endpoint_type: &str, endpoint: &str) -> (r: ResourceSummary)
    ensures
        r.wf(),
        shows(
            r@,
            "endpoint/"@ + domain_name@ + "/"@ + endpoint_type@,
            endpoint@,
            "endpoint"@,
            "available"@,
            None,
            None,
            map!["domain"@ => domain_name@, "endpoint_type"@ => endpoint_type@],
        ),
{
    let mut attributes: TextMap<String> = TextMap::new();
    attributes.insert(String::from_str("domain"), String::from_str(domain_name));
    attributes.insert(String::from_str("endpoint_type"), String::from_str(endpoint_type));
    proof {
        assert(texts_of(attributes@) =~= map!["domain"@ => domain_name@, "endpoint_type"@ => endpoint_type@]);
    }
    summary(
        concat4("endpoint/", domain_name, "/", endpoint_type),
        String::from_str(endpoint),
        "endpoint",
        String::from_str("available"),
        None,
        None,
        attributes,
    )
}

/// The attributes listed for a domain; the number of its endpoints is shown
/// when it reports an endpoint map.
pub open spec fn domain_attributes(
    domain_id: Seq<char>,
    arn: Seq<char>,
    engine_version: Option<Seq<char>>,
    endpoint: Option<Seq<char>>,
    endpoint_v2: Option<Seq<char>>,
    endpoint_count: Option<i64>,
) -> Map<Seq<char>, Seq<char>> {
    let m = map!["domain_id"@ => domain_id, "arn"@ => arn];
    let m = with_attr(m, "engine_version"@, engine_version);
    let m = with_attr(m, "endpoint"@, endpoint);
    let m = with_attr(m, "endpoint_v2"@, endpoint_v2);
    with_attr(m, "endpoint_count"@, number_text(endpoint_count))
}

/// The resource listed for a domain, with the status its flags give.
pub fn domain_summary(
    name: &str,
    domain_id: &str,
    arn: &str,
    created: Option<bool>,
    deleted: Option<bool>,
    processing: Option<bool>,
    engine_version: Option<String>,
    endpoint: Option<String>,
    endpoint_v2: Option<String>,
    endpoint_count: Option<i64>,
) -> (r: ResourceSummary)
    ensures
        r.wf(),
        shows(
            r@,
            "domain/"@ + name@,
            name@,
            "domain"@,
            domain_state(created, deleted, processing),
            None,
            None,
            domain_attributes(
                domain_id@,
                arn@,
                engine_version.deep_view(),
                endpoint.deep_view(),
                endpoint_v2.deep_view(),
                endpoint_count,
            ),
        ),
{
    let mut attributes = no_attributes();
    put_text(&mut attributes, "domain_id", String::from_str(domain_id));
    put_text(&mut attributes, "arn", String::from_str(arn));
    put_attr(&mut attributes, "engine_version", engine_version);
    put_attr(&mut attributes, "endpoint", endpoint);
    put_attr(&mut attributes, "endpoint_v2", endpoint_v2);
    put_attr(&mut attributes, "endpoint_count", optional_number_text(endpoint_count));
    assert(texts_of(attributes@) == domain_attributes(
        domain_id@,
        arn@,
        engine_version.deep_view(),
        endpoint.deep_view(),
        endpoint_v2.deep_view(),
        endpoint_count,
    ));
    summary(
        concat2("domain/", name),
        String::from_str(name),
        "domain",
        domain_status(created, deleted, processing),
        None,
        None,
        attributes,
    )
}

/// The name under which the service's inventory page is shown.
pub open spec fn label() -> Seq<char> {
    "OpenSearch"@
}

/// How far this adapter supports the service: it only reads its resources.
pub open spec fn support_level() -> ServiceSupportLevel {
    ServiceSupportLevel::ReadOnly
}

/// The OpenSearch inventory page: the listed `resources` under the OpenSearch tabs, refreshed
/// at `refreshed_at`.
pub fn inventory(
    resources: Vec<ResourceSummary>,
    refreshed_at: String,
) -> (inv: ServiceInventory)
    ensures
        inv@ == (InventoryView {
            service_key: "opensearch"@,
            service_label: label(),
            support_level: support_level(),
            refreshed_at: refreshed_at@,
            tabs: inventory_tabs(),
            resources: summary_views(resources@),
            unsupported_operations: read_only_operations(),
        }),
{
    build_inventory(
        "opensearch",
        "OpenSearch",
        ServiceSupportLevel::ReadOnly,
        refreshed_at,
        tabs(),
        resources,
        read_only_operation_names(),
    )
}

} // verus!
