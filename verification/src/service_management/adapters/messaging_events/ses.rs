//! SES.
use vstd::prelude::*;
use vstd::string::*;

use crate::service_management::adapters::{
    build_inventory, no_attributes, put_text, read_only_operation_names, read_only_operations,
    shows, summary, text_or, texts_of,
};
use crate::service_management::models::{
    single_kind_tab, summary_views, tab, tab_views, InventoryView, ResourceSummary, ResourceTab,
    ServiceInventory, ServiceSupportLevel, TabView,
};
use crate::text::{concat2, decimal, digits_of, int_text, nat_text};

verus! {

/// The tabs of the SES inventory page.
pub open spec fn inventory_tabs() -> Seq<TabView> {
    seq![
        single_kind_tab("identities"@, "Identities"@, "identity"@, "No SES identities were found."@),
        single_kind_tab("templates"@, "Templates"@, "template"@, "No SES templates are loaded."@),
        single_kind_tab("configuration-sets"@, "Configuration Sets"@, "configuration-set"@, "No SES configuration sets are loaded."@),
        single_kind_tab("suppression"@, "Suppression"@, "suppression"@, "No SES suppression entries are loaded."@),
        single_kind_tab("send-statistics"@, "Send Statistics"@, "send-statistic"@, "No SES send statistics are loaded."@),
    ]
}

/// The tabs of the SES inventory page.
pub fn tabs() -> (t: Vec<ResourceTab>)
    ensures
        tab_views(t@) == inventory_tabs(),
{
    let mut t: Vec<ResourceTab> = Vec::new();
    t.push(tab("identities", "Identities", "identity", "No SES identities were found."));
    t.push(tab("templates", "Templates", "template", "No SES templates are loaded."));
    t.push(tab("configuration-sets", "Configuration Sets", "configuration-set", "No SES configuration sets are loaded."));
    t.push(tab("suppression", "Suppression", "suppression", "No SES suppression entries are loaded."));
    t.push(tab("send-statistics", "Send Statistics", "send-statistic", "No SES send statistics are loaded."));
    assert(tab_views(t@) =~= inventory_tabs());
    t
}

/// The attributes listed for a point of the sending statistics.
pub open spec fn send_statistic_attributes(delivery_attempts: i64, bounces: i64, complaints: i64, rejects: i64) -> Map<
    Seq<char>,
    Seq<char>,
> {
    map![
        "delivery_attempts"@ => decimal(delivery_attempts as int),
        "bounces"@ => decimal(bounces as int),
        "complaints"@ => decimal(complaints as int),
        "rejects"@ => decimal(rejects as int)
    ]
}

/// The resource listed for the point at `index` of the sending statistics,
/// named by its time, or `send-statistic-<index>` when it has none.
pub fn send_statistic_summary(
    index: usize,
    timestamp: Option<String>,
    delivery_attempts: i64,
    bounces: i64,
    complaints: i64,
    rejects: i64,
) -> (r: ResourceSummary)
    ensures
        r.wf(),
        shows(
            r@,
            "send-statistic/"@ + digits_of(index as nat),
            text_or(timestamp.deep_view(), "send-statistic-"@ + digits_of(index as nat)),
            "send-statistic"@,
            "available"@,
            timestamp.deep_view(),
            None,
            send_statistic_attributes(delivery_attempts, bounces, complaints, rejects),
        ),
{
    let digits = nat_text(index as u64);
    let name = match &timestamp {
        Some(t) => t.clone(),
        None => concat2("send-statistic-", digits.as_str()),
    };
    let mut attributes = no_attributes();
    put_text(&mut attributes, "delivery_attempts", int_text(delivery_attempts));
    put_text(&mut attributes, "bounces", int_text(bounces));
    put_text(&mut attributes, "complaints", int_text(complaints));
    put_text(&mut attributes, "rejects", int_text(rejects));
    assert(texts_of(attributes@) =~= send_statistic_attributes(delivery_attempts, bounces, complaints, rejects));
    summary(
        concat2("send-statistic/", digits.as_str()),
        name,
        "send-statistic",
        String::from_str("available"),
        timestamp,
        None,
        attributes,
    )
}

/// The attributes listed by [`identity_summary`].
pub open spec fn identity_attributes() -> Map<Seq<char>, Seq<char>> {
    let m = Map::<Seq<char>, Seq<char>>::empty();
    m
}

/// The resource listed for a verified identity.
pub fn identity_summary(
    identity: &str,
) -> (r: ResourceSummary)
    ensures
        r.wf(),
        shows(
            r@,
            "identity/"@ + identity@,
            identity@,
            "identity"@,
            "listed"@,
            None,
            None,
            identity_attributes(),
        ),
{
    let mut id = String::from_str("identity/");
    id.append(identity);
    let listed_name = String::from_str(identity);
    let listed_status = String::from_str("listed");
    let mut attributes = no_attributes();
    summary(id, listed_name, "identity", listed_status, None, None, attributes)
}

/// The attributes listed by [`template_summary`].
pub open spec fn template_attributes() -> Map<Seq<char>, Seq<char>> {
    let m = Map::<Seq<char>, Seq<char>>::empty();
    m
}

/// The resource listed for an email template.
pub fn template_summary(
    name: &str,
) -> (r: ResourceSummary)
    ensures
        r.wf(),
        shows(
            r@,
            "template/"@ + name@,
            name@,
            "template"@,
            "available"@,
            None,
            None,
            template_attributes(),
        ),
{
    let mut id = String::from_str("template/");
    id.append(name);
    let listed_name = String::from_str(name);
    let listed_status = String::from_str("available");
    let mut attributes = no_attributes();
    summary(id, listed_name, "template", listed_status, None, None, attributes)
}

/// The attributes listed by [`configuration_set_summary`].
pub open spec fn configuration_set_attributes() -> Map<Seq<char>, Seq<char>> {
    let m = Map::<Seq<char>, Seq<char>>::empty();
    m
}

/// The resource listed for a configuration set.
pub fn configuration_set_summary(
    name: &str,
) -> (r: ResourceSummary)
    ensures
        r.wf(),
        shows(
            r@,
            "configuration-set/"@ + name@,
            name@,
            "configuration-set"@,
            "available"@,
            None,
            None,
            configuration_set_attributes(),
        ),
{
    let mut id = String::from_str("configuration-set/");
    id.append(name);
    let listed_name = String::from_str(name);
    let listed_status = String::from_str("available");
    let mut attributes = no_attributes();
    summary(id, listed_name, "configuration-set", listed_status, None, None, attributes)
}

/// The name under which the service's inventory page is shown.
pub open spec fn label() -> Seq<char> {
    "SES"@
}

/// How far this adapter supports the service: it only reads its resources.
pub open spec fn support_level() -> ServiceSupportLevel {
    ServiceSupportLevel::ReadOnly
}

/// The SES inventory page: the listed `resources` under the SES tabs, refreshed
/// at `refreshed_at`.
pub fn inventory(
    resources: Vec<ResourceSummary>,
    refreshed_at: String,
) -> (inv: ServiceInventory)
    ensures
        inv@ == (InventoryView {
            service_key: "ses"@,
            service_label: label(),
            support_level: support_level(),
            refreshed_at: refreshed_at@,
            tabs: inventory_tabs(),
            resources: summary_views(resources@),
            unsupported_operations: read_only_operations(),
        }),
{
    build_inventory(
        "ses",
        "SES",
        ServiceSupportLevel::ReadOnly,
        refreshed_at,
        tabs(),
        resources,
        read_only_operation_names(),
    )
}

} // verus!
