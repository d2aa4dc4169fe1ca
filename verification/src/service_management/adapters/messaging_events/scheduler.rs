//! EventBridge Scheduler.
use vstd::prelude::*;
use vstd::string::*;

use crate::service_management::adapters::{
    build_inventory, no_attributes, put_attr, put_text, read_only_operation_names,
    read_only_operations, shows, summary, text_or, text_or_default, with_attr,
};
use crate::service_management::models::{
    single_kind_tab, summary_views, tab, tab_views, InventoryView, ResourceSummary, ResourceTab,
    ServiceInventory, ServiceSupportLevel, TabView,
};

verus! {

/// The tabs of the EventBridge Scheduler inventory page.
pub open spec fn inventory_tabs() -> Seq<TabView> {
    seq![
        single_kind_tab("schedules"@, "Schedules"@, "schedule"@, "No EventBridge Scheduler schedules were found."@),
        single_kind_tab("schedule-groups"@, "Groups"@, "schedule-group"@, "No EventBridge Scheduler groups are loaded."@),
        single_kind_tab("targets"@, "Targets"@, "target"@, "Schedule targets are summarized on schedule resources."@),
    ]
}

/// The tabs of the EventBridge Scheduler inventory page.
pub fn tabs() -> (t: Vec<ResourceTab>)
    ensures
        tab_views(t@) == inventory_tabs(),
{
    let mut t: Vec<ResourceTab> = Vec::new();
    t.push(tab("schedules", "Schedules", "schedule", "No EventBridge Scheduler schedules were found."));
    t.push(tab("schedule-groups", "Groups", "schedule-group", "No EventBridge Scheduler groups are loaded."));
    t.push(tab("targets", "Targets", "target", "Schedule targets are summarized on schedule resources."));
    assert(tab_views(t@) =~= inventory_tabs());
    t
}

/// The attributes listed by [`schedule_group_summary`].
pub open spec fn schedule_group_attributes(arn: Option<Seq<char>>) -> Map<Seq<char>, Seq<char>> {
    let m = Map::<Seq<char>, Seq<char>>::empty();
    with_attr(m, "arn"@, arn)
}

/// The resource listed for a schedule group, in its state (`unknown` when
/// none).
pub fn schedule_group_summary(
    name: &str,
    state: Option<String>,
    created_at: Option<String>,
    updated_at: Option<String>,
    arn: Option<String>,
) -> (r: ResourceSummary)
    ensures
        r.wf(),
        shows(
            r@,
            "schedule-group/"@ + name@,
            name@,
            "schedule-group"@,
            text_or(state.deep_view(), "unknown"@),
            created_at.deep_view(),
            updated_at.deep_view(),
            schedule_group_attributes(arn.deep_view()),
        ),
{
    let mut id = String::from_str("schedule-group/");
    id.append(name);
    let listed_name = String::from_str(name);
    let listed_status = text_or_default(state, "unknown");
    let mut attributes = no_attributes();
    put_attr(&mut attributes, "arn", arn);
    summary(id, listed_name, "schedule-group", listed_status, created_at, updated_at, attributes)
}

/// The attributes listed by [`schedule_summary`].
pub open spec fn schedule_attributes(
    group: Option<Seq<char>>,
    arn: Option<Seq<char>>,
    target_arn: Option<Seq<char>>,
) -> Map<Seq<char>, Seq<char>> {
    let m = Map::<Seq<char>, Seq<char>>::empty();
    let m = m.insert("group"@, text_or(group, "default"@));
    let m = with_attr(m, "arn"@, arn);
    with_attr(m, "target_arn"@, target_arn)
}

/// The resource listed for a schedule of a group (`default` when none is
/// named), in its state (`unknown` when none).
pub fn schedule_summary(
    name: &str,
    group: Option<String>,
    state: Option<String>,
    created_at: Option<String>,
    updated_at: Option<String>,
    arn: Option<String>,
    target_arn: Option<String>,
) -> (r: ResourceSummary)
    ensures
        r.wf(),
        shows(
            r@,
            "schedule/"@ + text_or(group.deep_view(), "default"@) + "/"@ + name@,
            name@,
            "schedule"@,
            text_or(state.deep_view(), "unknown"@),
            created_at.deep_view(),
            updated_at.deep_view(),
            schedule_attributes(group.deep_view(), arn.deep_view(), target_arn.deep_view()),
        ),
{
    let mut id = String::from_str("schedule/");
    let piece = text_or_default(group.clone(), "default");
    id.append(piece.as_str());
    id.append("/");
    id.append(name);
    let listed_name = String::from_str(name);
    let listed_status = text_or_default(state, "unknown");
    let mut attributes = no_attributes();
    put_text(&mut attributes, "group", text_or_default(group.clone(), "default"));
    put_attr(&mut attributes, "arn", arn);
    put_attr(&mut attributes, "target_arn", target_arn);
    summary(id, listed_name, "schedule", listed_status, created_at, updated_at, attributes)
}

/// The attributes listed by [`schedule_target_summary`].
pub open spec fn schedule_target_attributes(
    group: Option<Seq<char>>,
    name: Seq<char>,
    target_arn: Seq<char>,
) -> Map<Seq<char>, Seq<char>> {
    let m = Map::<Seq<char>, Seq<char>>::empty();
    let m = m.insert("schedule_group"@, text_or(group, "default"@));
    let m = m.insert("schedule_name"@, name);
    m.insert("target_arn"@, target_arn)
}

/// The resource listed for the target of a schedule, named by its ARN.
pub fn schedule_target_summary(
    name: &str,
    group: Option<String>,
    target_arn: &str,
) -> (r: ResourceSummary)
    ensures
        r.wf(),
        shows(
            r@,
            "target/"@ + text_or(group.deep_view(), "default"@) + "/"@ + name@,
            target_arn@,
            "target"@,
            "attached"@,
            None,
            None,
            schedule_target_attributes(group.deep_view(), name@, target_arn@),
        ),
{
    let mut id = String::from_str("target/");
    let piece = text_or_default(group.clone(), "default");
    id.append(piece.as_str());
    id.append("/");
    id.append(name);
    let listed_name = String::from_str(target_arn);
    let listed_status = String::from_str("attached");
    let mut attributes = no_attributes();
    put_text(&mut attributes, "schedule_group", text_or_default(group.clone(), "default"));
    put_text(&mut attributes, "schedule_name", String::from_str(name));
    put_text(&mut attributes, "target_arn", String::from_str(target_arn));
    summary(id, listed_name, "target", listed_status, None, None, attributes)
}

/// The name under which the service's inventory page is shown.
pub open spec fn label() -> Seq<char> {
    "EventBridge Scheduler"@
}

/// How far this adapter supports the service: it only reads its resources.
pub open spec fn support_level() -> ServiceSupportLevel {
    ServiceSupportLevel::ReadOnly
}

/// The EventBridge Scheduler inventory page: the listed `resources` under the EventBridge Scheduler tabs, refreshed
/// at `refreshed_at`.
pub fn inventory(
    resources: Vec<ResourceSummary>,
    refreshed_at: String,
) -> (inv: ServiceInventory)
    ensures
        inv@ == (InventoryView {
            service_key: "scheduler"@,
            service_label: label(),
            support_level: support_level(),
            refreshed_at: refreshed_at@,
            tabs: inventory_tabs(),
            resources: summary_views(resources@),
            unsupported_operations: read_only_operations(),
        }),
{
    build_inventory(
        "scheduler",
        "EventBridge Scheduler",
        ServiceSupportLevel::ReadOnly,
        refreshed_at,
        tabs(),
        resources,
        read_only_operation_names(),
    )
}

} // verus!
