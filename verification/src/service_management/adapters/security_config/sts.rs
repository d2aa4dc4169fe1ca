//! STS.
use vstd::prelude::*;
use vstd::string::*;

use crate::service_management::adapters::{
    build_inventory, no_attributes, put_text, read_only_operation_names, read_only_operations,
    shows, summary, text_or, text_or_default,
};
use crate::service_management::models::{
    single_kind_tab, summary_views, tab, tab_views, InventoryView, ResourceSummary, ResourceTab,
    ServiceInventory, ServiceSupportLevel, TabView,
};
use crate::config::AppConfig;

verus! {

/// The tabs of the STS inventory page.
pub open spec fn inventory_tabs() -> Seq<TabView> {
    seq![
        single_kind_tab("caller-identity"@, "Caller Identity"@, "caller-identity"@, "No STS caller identity is available."@),
        single_kind_tab("sessions"@, "Session Context"@, "session"@, "No local session context is available."@),
    ]
}

/// The tabs of the STS inventory page.
pub fn tabs() -> (t: Vec<ResourceTab>)
    ensures
        tab_views(t@) == inventory_tabs(),
{
    let mut t: Vec<ResourceTab> = Vec::new();
    t.push(tab("caller-identity", "Caller Identity", "caller-identity", "No STS caller identity is available."));
    t.push(tab("sessions", "Session Context", "session", "No local session context is available."));
    assert(tab_views(t@) =~= inventory_tabs());
    t
}

/// The resources the STS inventory lists: the caller identity (with local
/// defaults for what the endpoint does not report) and the session context.
/// Credentials are never shown: those attributes always read `redacted`.
pub fn identity_resources(
    config: &AppConfig,
    account: Option<String>,
    arn: Option<String>,
    user_id: Option<String>,
) -> (r: Vec<ResourceSummary>)
    ensures
        r.len() == 2,
        forall|i: int| 0 <= i < r.len() ==> (#[trigger] r[i]).wf(),
        shows(
            r[0]@,
            "caller-identity/current"@,
            text_or(account.deep_view(), "000000000000"@),
            "caller-identity"@,
            "resolved"@,
            None,
            None,
            map![
                "account"@ => text_or(account.deep_view(), "000000000000"@),
                "arn"@ => text_or(arn.deep_view(), "arn:aws:sts::000000000000:assumed-role/local/floci"@),
                "user_id"@ => text_or(user_id.deep_view(), "local"@),
                "region"@ => config.region@,
                "credentials"@ => "redacted"@
            ],
        ),
        shows(
            r[1]@,
            "session/local"@,
            "Local session context"@,
            "session"@,
            "local"@,
            None,
            None,
            map![
                "endpoint"@ => config.endpoint_url@,
                "region"@ => config.region@,
                "access_key_id"@ => "redacted"@,
                "secret_access_key"@ => "redacted"@
            ],
        ),
{
    let account = text_or_default(account, "000000000000");
    let mut identity = no_attributes();
    put_text(&mut identity, "account", account.clone());
    put_text(&mut identity, "arn", text_or_default(arn, "arn:aws:sts::000000000000:assumed-role/local/floci"));
    put_text(&mut identity, "user_id", text_or_default(user_id, "local"));
    put_text(&mut identity, "region", config.region.clone());
    put_text(&mut identity, "credentials", String::from_str("redacted"));
    let mut session = no_attributes();
    put_text(&mut session, "endpoint", config.endpoint_url.clone());
    put_text(&mut session, "region", config.region.clone());
    put_text(&mut session, "access_key_id", String::from_str("redacted"));
    put_text(&mut session, "secret_access_key", String::from_str("redacted"));
    let mut r: Vec<ResourceSummary> = Vec::new();
    r.push(
        summary(
            String::from_str("caller-identity/current"),
            account,
            "caller-identity",
            String::from_str("resolved"),
            None,
            None,
            identity,
        ),
    );
    r.push(
        summary(
            String::from_str("session/local"),
            String::from_str("Local session context"),
            "session",
            String::from_str("local"),
            None,
            None,
            session,
        ),
    );
    r
}

/// The name under which the service's inventory page is shown.
pub open spec fn label() -> Seq<char> {
    "STS"@
}

/// How far this adapter supports the service: it only reads its resources.
pub open spec fn support_level() -> ServiceSupportLevel {
    ServiceSupportLevel::ReadOnly
}

/// The STS inventory page: the listed `resources` under the STS tabs, refreshed
/// at `refreshed_at`.
pub fn inventory(
    resources: Vec<ResourceSummary>,
    refreshed_at: String,
) -> (inv: ServiceInventory)
    ensures
        inv@ == (InventoryView {
            service_key: "sts"@,
            service_label: label(),
            support_level: support_level(),
            refreshed_at: refreshed_at@,
            tabs: inventory_tabs(),
            resources: summary_views(resources@),
            unsupported_operations: read_only_operations(),
        }),
{
    build_inventory(
        "sts",
        "STS",
        ServiceSupportLevel::ReadOnly,
        refreshed_at,
        tabs(),
        resources,
        read_only_operation_names(),
    )
}

} // verus!
