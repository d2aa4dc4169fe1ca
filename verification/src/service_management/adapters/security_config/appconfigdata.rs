//! AppConfig Data.
use vstd::prelude::*;
use vstd::string::*;

use crate::service_management::adapters::{
    build_inventory, no_attributes, put_text, read_only_operation_names, read_only_operations,
    shows, summary,
};
use crate::service_management::models::{
    single_kind_tab, summary_views, tab, tab_views, InventoryView, ResourceSummary, ResourceTab,
    ServiceInventory, ServiceSupportLevel, TabView,
};
use crate::config::AppConfig;

verus! {

/// The tabs of the AppConfig Data inventory page.
pub open spec fn inventory_tabs() -> Seq<TabView> {
    seq![
        single_kind_tab("session-preview"@, "Session Preview"@, "session-preview"@, "No AppConfigData session preview is loaded."@),
        single_kind_tab("configuration-preview"@, "Configuration Preview"@, "configuration-preview"@, "No AppConfigData configuration preview is loaded."@),
    ]
}

/// The tabs of the AppConfig Data inventory page.
pub fn tabs() -> (t: Vec<ResourceTab>)
    ensures
        tab_views(t@) == inventory_tabs(),
{
    let mut t: Vec<ResourceTab> = Vec::new();
    t.push(tab("session-preview", "Session Preview", "session-preview", "No AppConfigData session preview is loaded."));
    t.push(tab("configuration-preview", "Configuration Preview", "configuration-preview", "No AppConfigData configuration preview is loaded."));
    assert(tab_views(t@) =~= inventory_tabs());
    t
}

/// The resources the AppConfig Data inventory lists: a session preview for
/// the configured endpoint and region, and a configuration preview whose
/// payload is never fetched.
pub fn preview_resources(config: &AppConfig) -> (r: Vec<ResourceSummary>)
    ensures
        r.len() == 2,
        forall|i: int| 0 <= i < r.len() ==> (#[trigger] r[i]).wf(),
        shows(
            r[0]@,
            "session-preview/local"@,
            "Local session preview"@,
            "session-preview"@,
            "metadata-only"@,
            None,
            None,
            map![
                "endpoint"@ => config.endpoint_url@,
                "region"@ => config.region@,
                "token_storage"@ => "configuration tokens are not persisted in the UI"@
            ],
        ),
        shows(
            r[1]@,
            "configuration-preview/local"@,
            "Configuration payload preview"@,
            "configuration-preview"@,
            "redacted"@,
            None,
            None,
            map![
                "payload"@ => "not fetched until an explicit AppConfigData session is supported"@,
                "client"@ => "aws-sdk-appconfigdata"@
            ],
        ),
{
    let mut session = no_attributes();
    put_text(&mut session, "endpoint", config.endpoint_url.clone());
    put_text(&mut session, "region", config.region.clone());
    put_text(&mut session, "token_storage", String::from_str("configuration tokens are not persisted in the UI"));
    let mut payload = no_attributes();
    put_text(
        &mut payload,
        "payload",
        String::from_str("not fetched until an explicit AppConfigData session is supported"),
    );
    put_text(&mut payload, "client", String::from_str("aws-sdk-appconfigdata"));
    let mut r: Vec<ResourceSummary> = Vec::new();
    r.push(
        summary(
            String::from_str("session-preview/local"),
            String::from_str("Local session preview"),
            "session-preview",
            String::from_str("metadata-only"),
            None,
            None,
            session,
        ),
    );
    r.push(
        summary(
            String::from_str("configuration-preview/local"),
            String::from_str("Configuration payload preview"),
            "configuration-preview",
            String::from_str("redacted"),
            None,
            None,
            payload,
        ),
    );
    r
}

/// The name under which the service's inventory page is shown.
pub open spec fn label() -> Seq<char> {
    "AppConfig Data"@
}

/// How far this adapter supports the service: it only reads its resources.
pub open spec fn support_level() -> ServiceSupportLevel {
    ServiceSupportLevel::ReadOnly
}

/// The AppConfig Data inventory page: the listed `resources` under the AppConfig Data tabs, refreshed
/// at `refreshed_at`.
pub fn inventory(
    resources: Vec<ResourceSummary>,
    refreshed_at: String,
) -> (inv: ServiceInventory)
    ensures
        inv@ == (InventoryView {
            service_key: "appconfigdata"@,
            service_label: label(),
            support_level: support_level(),
            refreshed_at: refreshed_at@,
            tabs: inventory_tabs(),
            resources: summary_views(resources@),
            unsupported_operations: read_only_operations(),
        }),
{
    build_inventory(
        "appconfigdata",
        "AppConfig Data",
        ServiceSupportLevel::ReadOnly,
        refreshed_at,
        tabs(),
        resources,
        read_only_operation_names(),
    )
}

} // verus!
