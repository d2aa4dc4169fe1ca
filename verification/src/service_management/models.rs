//! Requests, inventories and results exchanged with the desktop shell.
use vstd::prelude::*;
use vstd::string::*;

use crate::service_management::text_map::TextMap;

verus! {

/// How far the desktop shell can manage a service.
#[derive(Debug, Clone, Copy, PartialEq, Eq, Structural)]
pub enum ServiceSupportLevel {
    Managed,
    ReadOnly,
    Unsupported,
}

/// A value found in a request payload. Numbers that fit an `i64` are kept as
/// such; every other kind of JSON value is `Other`.
#[derive(Debug, Clone)]
pub enum PayloadValue {
    Text(String),
    Integer(i64),
    Other,
}

/// The fields of a request's JSON payload object, by name.
pub type Payload = TextMap<PayloadValue>;

/// The text stored in field `field` of payload `p`, when that field holds text.
pub open spec fn payload_text_field(p: Map<Seq<char>, PayloadValue>, field: Seq<char>) -> Option<
    Seq<char>,
> {
    if p.contains_key(field) {
        match p[field] {
            PayloadValue::Text(s) => Some(s@),
            _ => None,
        }
    } else {
        None
    }
}

/// The text of field `field`, when the payload holds text there.
pub fn payload_text(payload: &Payload, field: &str) -> (r: Option<String>)
    requires
        payload.wf(),
    ensures
        r.deep_view() == payload_text_field(payload@, field@),
{
    match payload.get(field) {
        Some(PayloadValue::Text(s)) => Some(s.clone()),
        _ => None,
    }
}

/// One tab of a service's inventory page.
#[derive(Debug, Clone)]
pub struct ResourceTab {
    pub key: String,
    pub label: String,
    pub kinds: Vec<String>,
    pub empty_message: String,
}

pub struct TabView {
    pub key: Seq<char>,
    pub label: Seq<char>,
    pub kinds: Seq<Seq<char>>,
    pub empty_message: Seq<char>,
}

impl View for ResourceTab {
    type V = TabView;

    open spec fn view(&self) -> TabView {
        TabView {
            key: self.key@,
            label: self.label@,
            kinds: self.kinds.deep_view(),
            empty_message: self.empty_message@,
        }
    }
}

/// The views of a list of tabs.
pub open spec fn tab_views(tabs: Seq<ResourceTab>) -> Seq<TabView> {
    tabs.map_values(|t: ResourceTab| t@)
}

/// A tab with one kind of resource.
pub open spec fn single_kind_tab(
    key: Seq<char>,
    label: Seq<char>,
    kind: Seq<char>,
    empty_message: Seq<char>,
) -> TabView {
    TabView { key, label, kinds: seq![kind], empty_message }
}

/// A tab with one kind of resource, built from text literals.
pub fn tab(key: &str, label: &str, kind: &str, empty_message: &str) -> (t: ResourceTab)
    ensures
        t@ == single_kind_tab(key@, label@, kind@, empty_message@),
{
    let mut kinds: Vec<String> = Vec::new();
    kinds.push(String::from_str(kind));
    let t = ResourceTab {
        key: String::from_str(key),
        label: String::from_str(label),
        kinds,
        empty_message: String::from_str(empty_message),
    };
    assert(t.kinds.deep_view() =~= seq![kind@]);
    t
}

/// A tab that gathers several kinds of resources.
pub fn tab_of_kinds(key: &str, label: &str, kinds: Vec<String>, empty_message: &str) -> (t:
    ResourceTab)
    ensures
        t@ == (TabView {
            key: key@,
            label: label@,
            kinds: kinds.deep_view(),
            empty_message: empty_message@,
        }),
{
    ResourceTab {
        key: String::from_str(key),
        label: String::from_str(label),
        kinds,
        empty_message: String::from_str(empty_message),
    }
}

/// One resource of an inventory.
#[derive(Debug, Clone)]
pub struct ResourceSummary {
    pub id: String,
    pub name: String,
    pub kind: String,
    pub status: String,
    pub created_at: Option<String>,
    pub updated_at: Option<String>,
    pub tags: TextMap<String>,
    pub attributes: TextMap<String>,
}

impl ResourceSummary {
    /// Both maps are well formed.
    pub open spec fn wf(&self) -> bool {
        self.tags.wf() && self.attributes.wf()
    }
}

/// The content of a [`ResourceSummary`].
pub struct SummaryView {
    pub id: Seq<char>,
    pub name: Seq<char>,
    pub kind: Seq<char>,
    pub status: Seq<char>,
    pub created_at: Option<Seq<char>>,
    pub updated_at: Option<Seq<char>>,
    pub tags: Map<Seq<char>, String>,
    pub attributes: Map<Seq<char>, String>,
}

impl View for ResourceSummary {
    type V = SummaryView;

    open spec fn view(&self) -> SummaryView {
        SummaryView {
            id: self.id@,
            name: self.name@,
            kind: self.kind@,
            status: self.status@,
            created_at: self.created_at.deep_view(),
            updated_at: self.updated_at.deep_view(),
            tags: self.tags@,
            attributes: self.attributes@,
        }
    }
}

/// The views of a list of resources.
pub open spec fn summary_views(v: Seq<ResourceSummary>) -> Seq<SummaryView> {
    v.map_values(|r: ResourceSummary| r@)
}

/// The resources of one service, as one inventory page shows them.
#[derive(Debug, Clone)]
pub struct ServiceInventory {
    pub service_key: String,
    pub service_label: String,
    pub support_level: ServiceSupportLevel,
    pub refreshed_at: String,
    pub tabs: Vec<ResourceTab>,
    pub resources: Vec<ResourceSummary>,
    pub unsupported_operations: Vec<String>,
}

/// The content of a [`ServiceInventory`].
pub struct InventoryView {
    pub service_key: Seq<char>,
    pub service_label: Seq<char>,
    pub support_level: ServiceSupportLevel,
    pub refreshed_at: Seq<char>,
    pub tabs: Seq<TabView>,
    pub resources: Seq<SummaryView>,
    pub unsupported_operations: Seq<Seq<char>>,
}

impl View for ServiceInventory {
    type V = InventoryView;

    open spec fn view(&self) -> InventoryView {
        InventoryView {
            service_key: self.service_key@,
            service_label: self.service_label@,
            support_level: self.support_level,
            refreshed_at: self.refreshed_at@,
            tabs: tab_views(self.tabs@),
            resources: summary_views(self.resources@),
            unsupported_operations: self.unsupported_operations.deep_view(),
        }
    }
}

/// The outcome of an action that succeeded.
#[derive(Debug, Clone)]
pub struct ActionResult {
    pub changed: bool,
    pub message: String,
    pub resource_id: Option<String>,
}

pub struct ActionResultView {
    pub changed: bool,
    pub message: Seq<char>,
    pub resource_id: Option<Seq<char>>,
}

impl View for ActionResult {
    type V = ActionResultView;

    open spec fn view(&self) -> ActionResultView {
        ActionResultView {
            changed: self.changed,
            message: self.message@,
            resource_id: self.resource_id.deep_view(),
        }
    }
}

/// An action requested on a service, possibly on a selected resource.
#[derive(Debug, Clone)]
pub struct ServiceActionRequest {
    pub service_key: String,
    pub action: String,
    pub resource_id: Option<String>,
    pub resource_name: Option<String>,
    pub confirmation: Option<String>,
    pub payload: Payload,
}

/// A request for the inventory of one service.
#[derive(Debug, Clone)]
pub struct ServiceInventoryRequest {
    pub service_key: String,
}

/// A request for the details of one resource.
#[derive(Debug, Clone)]
pub struct ResourceDetailRequest {
    pub service_key: String,
    pub resource_id: String,
}

} // verus!
