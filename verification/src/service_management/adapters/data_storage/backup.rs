//! AWS Backup.
use vstd::prelude::*;
use vstd::string::*;

use crate::service_management::adapters::{
    build_inventory, flag_text, no_attributes, optional_flag_text, put_attr, put_text,
    read_only_operation_names, read_only_operations, shows, summary, text_or, text_or_default,
    with_attr,
};
use crate::service_management::models::{
    single_kind_tab, summary_views, tab, tab_views, InventoryView, ResourceSummary, ResourceTab,
    ServiceInventory, ServiceSupportLevel, TabView,
};
use crate::text::{decimal, int_text};

verus! {

/// The tabs of the AWS Backup inventory page.
pub open spec fn inventory_tabs() -> Seq<TabView> {
    seq![
        single_kind_tab("vaults"@, "Vaults"@, "backup-vault"@, "No AWS Backup vaults were found."@),
        single_kind_tab("plans"@, "Plans"@, "backup-plan"@, "No AWS Backup plans were found."@),
        single_kind_tab("jobs"@, "Jobs"@, "backup-job"@, "No AWS Backup jobs were found."@),
        single_kind_tab("recovery-points"@, "Recovery Points"@, "recovery-point"@, "No AWS Backup recovery points were found."@),
    ]
}

/// The tabs of the AWS Backup inventory page.
pub fn tabs() -> (t: Vec<ResourceTab>)
    ensures
        tab_views(t@) == inventory_tabs(),
{
    let mut t: Vec<ResourceTab> = Vec::new();
    t.push(tab("vaults", "Vaults", "backup-vault", "No AWS Backup vaults were found."));
    t.push(tab("plans", "Plans", "backup-plan", "No AWS Backup plans were found."));
    t.push(tab("jobs", "Jobs", "backup-job", "No AWS Backup jobs were found."));
    t.push(tab("recovery-points", "Recovery Points", "recovery-point", "No AWS Backup recovery points were found."));
    assert(tab_views(t@) =~= inventory_tabs());
    t
}

/// The attributes listed by [`vault_summary`].
pub open spec fn vault_attributes(
    vault_arn: Option<Seq<char>>,
    encryption_key: Option<Seq<char>>,
    recovery_points: i64,
    locked: Option<bool>,
) -> Map<Seq<char>, Seq<char>> {
    let m = Map::<Seq<char>, Seq<char>>::empty();
    let m = with_attr(m, "vault_arn"@, vault_arn);
    let m = with_attr(m, "encryption_key"@, encryption_key);
    let m = m.insert("recovery_points"@, decimal(recovery_points as int));
    with_attr(m, "locked"@, flag_text(locked))
}

/// The resource listed for a backup vault, with the number of its recovery
/// points.
pub fn vault_summary(
    name: &str,
    created_at: Option<String>,
    vault_arn: Option<String>,
    encryption_key: Option<String>,
    recovery_points: i64,
    locked: Option<bool>,
) -> (r: ResourceSummary)
    ensures
        r.wf(),
        shows(
            r@,
            "backup-vault/"@ + name@,
            name@,
            "backup-vault"@,
            "available"@,
            created_at.deep_view(),
            None,
            vault_attributes(
                vault_arn.deep_view(),
                encryption_key.deep_view(),
                recovery_points,
                locked,
            ),
        ),
{
    let mut id = String::from_str("backup-vault/");
    id.append(name);
    let listed_name = String::from_str(name);
    let listed_status = String::from_str("available");
    let mut attributes = no_attributes();
    put_attr(&mut attributes, "vault_arn", vault_arn);
    put_attr(&mut attributes, "encryption_key", encryption_key);
    put_text(&mut attributes, "recovery_points", int_text(recovery_points));
    put_attr(&mut attributes, "locked", optional_flag_text(locked));
    summary(id, listed_name, "backup-vault", listed_status, created_at, None, attributes)
}

/// The attributes listed by [`plan_summary`].
pub open spec fn plan_attributes(
    version: Option<Seq<char>>,
    creator_request_id: Option<Seq<char>>,
) -> Map<Seq<char>, Seq<char>> {
    let m = Map::<Seq<char>, Seq<char>>::empty();
    let m = with_attr(m, "version"@, version);
    with_attr(m, "creator_request_id"@, creator_request_id)
}

/// The resource listed for a backup plan, named by its name or else its id.
pub fn plan_summary(
    plan_id: &str,
    name: Option<String>,
    created_at: Option<String>,
    last_execution: Option<String>,
    version: Option<String>,
    creator_request_id: Option<String>,
) -> (r: ResourceSummary)
    ensures
        r.wf(),
        shows(
            r@,
            "backup-plan/"@ + plan_id@,
            text_or(name.deep_view(), plan_id@),
            "backup-plan"@,
            "available"@,
            created_at.deep_view(),
            last_execution.deep_view(),
            plan_attributes(version.deep_view(), creator_request_id.deep_view()),
        ),
{
    let mut id = String::from_str("backup-plan/");
    id.append(plan_id);
    let listed_name = text_or_default(name.clone(), plan_id);
    let listed_status = String::from_str("available");
    let mut attributes = no_attributes();
    put_attr(&mut attributes, "version", version);
    put_attr(&mut attributes, "creator_request_id", creator_request_id);
    summary(id, listed_name, "backup-plan", listed_status, created_at, last_execution, attributes)
}

/// The attributes listed by [`job_summary`].
pub open spec fn job_attributes(
    vault: Option<Seq<char>>,
    resource_arn: Option<Seq<char>>,
    status_message: Option<Seq<char>>,
) -> Map<Seq<char>, Seq<char>> {
    let m = Map::<Seq<char>, Seq<char>>::empty();
    let m = with_attr(m, "vault"@, vault);
    let m = with_attr(m, "resource_arn"@, resource_arn);
    with_attr(m, "status_message"@, status_message)
}

/// The resource listed for a backup job, in its state (`unknown` when none).
pub fn job_summary(
    job_id: &str,
    state: Option<String>,
    created_at: Option<String>,
    completed_at: Option<String>,
    vault: Option<String>,
    resource_arn: Option<String>,
    status_message: Option<String>,
) -> (r: ResourceSummary)
    ensures
        r.wf(),
        shows(
            r@,
            "backup-job/"@ + job_id@,
            job_id@,
            "backup-job"@,
            text_or(state.deep_view(), "unknown"@),
            created_at.deep_view(),
            completed_at.deep_view(),
            job_attributes(
                vault.deep_view(),
                resource_arn.deep_view(),
                status_message.deep_view(),
            ),
        ),
{
    let mut id = String::from_str("backup-job/");
    id.append(job_id);
    let listed_name = String::from_str(job_id);
    let listed_status = text_or_default(state, "unknown");
    let mut attributes = no_attributes();
    put_attr(&mut attributes, "vault", vault);
    put_attr(&mut attributes, "resource_arn", resource_arn);
    put_attr(&mut attributes, "status_message", status_message);
    summary(id, listed_name, "backup-job", listed_status, created_at, completed_at, attributes)
}

/// The attributes listed by [`recovery_point_summary`].
pub open spec fn recovery_point_attributes(
    vault: Option<Seq<char>>,
    resource_arn: Option<Seq<char>>,
    resource_type: Option<Seq<char>>,
    status_message: Option<Seq<char>>,
) -> Map<Seq<char>, Seq<char>> {
    let m = Map::<Seq<char>, Seq<char>>::empty();
    let m = with_attr(m, "vault"@, vault);
    let m = with_attr(m, "resource_arn"@, resource_arn);
    let m = with_attr(m, "resource_type"@, resource_type);
    with_attr(m, "status_message"@, status_message)
}

/// The resource listed for a recovery point, in its status (`unknown` when
/// none).
pub fn recovery_point_summary(
    point_arn: &str,
    status: Option<String>,
    created_at: Option<String>,
    completed_at: Option<String>,
    vault: Option<String>,
    resource_arn: Option<String>,
    resource_type: Option<String>,
    status_message: Option<String>,
) -> (r: ResourceSummary)
    ensures
        r.wf(),
        shows(
            r@,
            "recovery-point/"@ + point_arn@,
            point_arn@,
            "recovery-point"@,
            text_or(status.deep_view(), "unknown"@),
            created_at.deep_view(),
            completed_at.deep_view(),
            recovery_point_attributes(
                vault.deep_view(),
                resource_arn.deep_view(),
                resource_type.deep_view(),
                status_message.deep_view(),
            ),
        ),
{
    let mut id = String::from_str("recovery-point/");
    id.append(point_arn);
    let listed_name = String::from_str(point_arn);
    let listed_status = text_or_default(status, "unknown");
    let mut attributes = no_attributes();
    put_attr(&mut attributes, "vault", vault);
    put_attr(&mut attributes, "resource_arn", resource_arn);
    put_attr(&mut attributes, "resource_type", resource_type);
    put_attr(&mut attributes, "status_message", status_message);
    summary(id, listed_name, "recovery-point", listed_status, created_at, completed_at, attributes)
}

/// The name under which the service's inventory page is shown.
pub open spec fn label() -> Seq<char> {
    "AWS Backup"@
}

/// How far this adapter supports the service: it only reads its resources.
pub open spec fn support_level() -> ServiceSupportLevel {
    ServiceSupportLevel::ReadOnly
}

/// The AWS Backup inventory page: the listed `resources` under the AWS Backup tabs, refreshed
/// at `refreshed_at`.
pub fn inventory(
    resources: Vec<ResourceSummary>,
    refreshed_at: String,
) -> (inv: ServiceInventory)
    ensures
        inv@ == (InventoryView {
            service_key: "backup"@,
            service_label: label(),
            support_level: support_level(),
            refreshed_at: refreshed_at@,
            tabs: inventory_tabs(),
            resources: summary_views(resources@),
            unsupported_operations: read_only_operations(),
        }),
{
    build_inventory(
        "backup",
        "AWS Backup",
        ServiceSupportLevel::ReadOnly,
        refreshed_at,
        tabs(),
        resources,
        read_only_operation_names(),
    )
}

} // verus!
