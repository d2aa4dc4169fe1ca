//! SES v2.
use vstd::prelude::*;
use vstd::string::*;

use crate::service_management::adapters::{
    bool_text, bool_to_text, build_inventory, no_attributes, put_attr, put_text,
    read_only_operation_names, read_only_operations, shows, summary, text_or, text_or_default,
    texts_of, with_attr,
};
use crate::service_management::models::{
    single_kind_tab, summary_views, tab, tab_views, InventoryView, ResourceSummary, ResourceTab,
    ServiceInventory, ServiceSupportLevel, TabView,
};

verus! {

/// The tabs of the SES v2 inventory page.
pub open spec fn inventory_tabs() -> Seq<TabView> {
    seq![
        single_kind_tab("email-identities"@, "Identities"@, "email-identity"@, "No SES v2 email identities were found."@),
        single_kind_tab("templates"@, "Templates"@, "template"@, "No SES v2 templates are loaded."@),
        single_kind_tab("configuration-sets"@, "Configuration Sets"@, "configuration-set"@, "No SES v2 configuration sets are loaded."@),
        single_kind_tab("contact-lists"@, "Contact Lists"@, "contact-list"@, "No SES v2 contact lists are loaded."@),
        single_kind_tab("account-settings"@, "Account Settings"@, "account-setting"@, "SES v2 account settings are not available."@),
        single_kind_tab("suppression"@, "Suppression"@, "suppression"@, "No SES v2 suppression entries are loaded."@),
    ]
}

/// The tabs of the SES v2 inventory page.
pub fn tabs() -> (t: Vec<ResourceTab>)
    ensures
        tab_views(t@) == inventory_tabs(),
{
    let mut t: Vec<ResourceTab> = Vec::new();
    t.push(tab("email-identities", "Identities", "email-identity", "No SES v2 email identities were found."));
    t.push(tab("templates", "Templates", "template", "No SES v2 templates are loaded."));
    t.push(tab("configuration-sets", "Configuration Sets", "configuration-set", "No SES v2 configuration sets are loaded."));
    t.push(tab("contact-lists", "Contact Lists", "contact-list", "No SES v2 contact lists are loaded."));
    t.push(tab("account-settings", "Account Settings", "account-setting", "SES v2 account settings are not available."));
    t.push(tab("suppression", "Suppression", "suppression", "No SES v2 suppression entries are loaded."));
    assert(tab_views(t@) =~= inventory_tabs());
    t
}

/// The sending limits of the account, as texts.
pub struct SendQuota {
    pub max24_hour_send: String,
    pub max_send_rate: String,
    pub sent_last24_hours: String,
}

/// The attributes listed for the account settings; the sending limits are
/// shown when the account reports them.
pub open spec fn account_attributes(
    dedicated_ip_auto_warmup_enabled: bool,
    production_access_enabled: bool,
    sending_enabled: bool,
    enforcement_status: Option<Seq<char>>,
    quota: Option<SendQuota>,
) -> Map<Seq<char>, Seq<char>> {
    let m = map![
        "dedicated_ip_auto_warmup_enabled"@ => bool_text(dedicated_ip_auto_warmup_enabled),
        "production_access_enabled"@ => bool_text(production_access_enabled),
        "sending_enabled"@ => bool_text(sending_enabled)
    ];
    let m = with_attr(m, "enforcement_status"@, enforcement_status);
    match quota {
        Some(q) => m.insert("max24_hour_send"@, q.max24_hour_send@).insert("max_send_rate"@, q.max_send_rate@).insert(
            "sent_last24_hours"@,
            q.sent_last24_hours@,
        ),
        None => m,
    }
}

/// The resource listed for the account settings: `sending-enabled` or
/// `sending-disabled`.
pub fn account_summary(
    dedicated_ip_auto_warmup_enabled: bool,
    production_access_enabled: bool,
    sending_enabled: bool,
    enforcement_status: Option<String>,
    quota: Option<SendQuota>,
) -> (r: ResourceSummary)
    ensures
        r.wf(),
        shows(
            r@,
            "account/default"@,
            "Account settings"@,
            "account-setting"@,
            if sending_enabled {
                "sending-enabled"@
            } else {
                "sending-disabled"@
            },
            None,
            None,
            account_attributes(
                dedicated_ip_auto_warmup_enabled,
                production_access_enabled,
                sending_enabled,
                enforcement_status.deep_view(),
                quota,
            ),
        ),
{
    let ghost status_view = enforcement_status.deep_view();
    let mut attributes = no_attributes();
    put_text(&mut attributes, "dedicated_ip_auto_warmup_enabled", bool_to_text(dedicated_ip_auto_warmup_enabled));
    put_text(&mut attributes, "production_access_enabled", bool_to_text(production_access_enabled));
    put_text(&mut attributes, "sending_enabled", bool_to_text(sending_enabled));
    put_attr(&mut attributes, "enforcement_status", enforcement_status);
    match quota {
        Some(q) => {
            put_text(&mut attributes, "max24_hour_send", q.max24_hour_send);
            put_text(&mut attributes, "max_send_rate", q.max_send_rate);
            put_text(&mut attributes, "sent_last24_hours", q.sent_last24_hours);
        },
        None => {},
    }
    assert(texts_of(attributes@) =~= account_attributes(
        dedicated_ip_auto_warmup_enabled,
        production_access_enabled,
        sending_enabled,
        status_view,
        quota,
    ));
    let status = if sending_enabled {
        String::from_str("sending-enabled")
    } else {
        String::from_str("sending-disabled")
    };
    summary(
        String::from_str("account/default"),
        String::from_str("Account settings"),
        "account-setting",
        status,
        None,
        None,
        attributes,
    )
}

/// The attributes listed by [`email_identity_summary`].
pub open spec fn email_identity_attributes() -> Map<Seq<char>, Seq<char>> {
    let m = Map::<Seq<char>, Seq<char>>::empty();
    m
}

/// The resource listed for an email identity, in its verification status
/// (`listed` when none).
pub fn email_identity_summary(
    name: &str,
    verification_status: Option<String>,
) -> (r: ResourceSummary)
    ensures
        r.wf(),
        shows(
            r@,
            "email-identity/"@ + name@,
            name@,
            "email-identity"@,
            text_or(verification_status.deep_view(), "listed"@),
            None,
            None,
            email_identity_attributes(),
        ),
{
    let mut id = String::from_str("email-identity/");
    id.append(name);
    let listed_name = String::from_str(name);
    let listed_status = text_or_default(verification_status, "listed");
    let mut attributes = no_attributes();
    summary(id, listed_name, "email-identity", listed_status, None, None, attributes)
}

/// The attributes listed by [`configuration_set_summary`].
pub open spec fn configuration_set_attributes() -> Map<Seq<char>, Seq<char>> {
    let m = Map::<Seq<char>, Seq<char>>::empty();
    m
}

/// The resource listed for a configuration set.
pub fn configuration_set_summary(
    name: &str,
) -> (r: ResourceSummary)
    ensures
        r.wf(),
        shows(
            r@,
            "configuration-set/"@ + name@,
            name@,
            "configuration-set"@,
            "available"@,
            None,
            None,
            configuration_set_attributes(),
        ),
{
    let mut id = String::from_str("configuration-set/");
    id.append(name);
    let listed_name = String::from_str(name);
    let listed_status = String::from_str("available");
    let mut attributes = no_attributes();
    summary(id, listed_name, "configuration-set", listed_status, None, None, attributes)
}

/// The attributes listed by [`template_summary`].
pub open spec fn template_attributes() -> Map<Seq<char>, Seq<char>> {
    let m = Map::<Seq<char>, Seq<char>>::empty();
    m
}

/// The resource listed for an email template.
pub fn template_summary(
    name: &str,
    created_at: Option<String>,
) -> (r: ResourceSummary)
    ensures
        r.wf(),
        shows(
            r@,
            "template/"@ + name@,
            name@,
            "template"@,
            "available"@,
            created_at.deep_view(),
            None,
            template_attributes(),
        ),
{
    let mut id = String::from_str("template/");
    id.append(name);
    let listed_name = String::from_str(name);
    let listed_status = String::from_str("available");
    let mut attributes = no_attributes();
    summary(id, listed_name, "template", listed_status, created_at, None, attributes)
}

/// The attributes listed by [`contact_list_summary`].
pub open spec fn contact_list_attributes() -> Map<Seq<char>, Seq<char>> {
    let m = Map::<Seq<char>, Seq<char>>::empty();
    m
}

/// The resource listed for a contact list.
pub fn contact_list_summary(
    name: &str,
) -> (r: ResourceSummary)
    ensures
        r.wf(),
        shows(
            r@,
            "contact-list/"@ + name@,
            name@,
            "contact-list"@,
            "available"@,
            None,
            None,
            contact_list_attributes(),
        ),
{
    let mut id = String::from_str("contact-list/");
    id.append(name);
    let listed_name = String::from_str(name);
    let listed_status = String::from_str("available");
    let mut attributes = no_attributes();
    summary(id, listed_name, "contact-list", listed_status, None, None, attributes)
}

/// The name under which the service's inventory page is shown.
pub open spec fn label() -> Seq<char> {
    "SES v2"@
}

/// How far this adapter supports the service: it only reads its resources.
pub open spec fn support_level() -> ServiceSupportLevel {
    ServiceSupportLevel::ReadOnly
}

/// The SES v2 inventory page: the listed `resources` under the SES v2 tabs, refreshed
/// at `refreshed_at`.
pub fn inventory(
    resources: Vec<ResourceSummary>,
    refreshed_at: String,
) -> (inv: ServiceInventory)
    ensures
        inv@ == (InventoryView {
            service_key: "sesv2"@,
            service_label: label(),
            support_level: support_level(),
            refreshed_at: refreshed_at@,
            tabs: inventory_tabs(),
            resources: summary_views(resources@),
            unsupported_operations: read_only_operations(),
        }),
{
    build_inventory(
        "sesv2",
        "SES v2",
        ServiceSupportLevel::ReadOnly,
        refreshed_at,
        tabs(),
        resources,
        read_only_operation_names(),
    )
}

} // verus!
