//! Secrets Manager.
use vstd::prelude::*;
use vstd::string::*;

use crate::service_management::actions::{require_typed_confirmation, typed_confirmation};
use crate::service_management::adapters::payload::{require_resource_id, selected_resource};
use crate::service_management::adapters::{
    action_result, build_inventory, call_of, destructive, flag_text, lemma_not_destructive,
    no_attributes, optional_flag_text, planned_call, planned_outcome, put_attr, put_text,
    result_view, shows, summary, text_or, text_or_default, texts_of, then_text, unsupported_action,
    unsupported_action_error, with_attr, CallReply, CallView, Planned, PlannedView,
};
use crate::service_management::errors::{ErrorView, ServiceManagementError};
use crate::service_management::models::{
    single_kind_tab, summary_views, tab, tab_views, ActionResult, ActionResultView, InventoryView,
    ResourceSummary, ResourceTab, ServiceActionRequest, ServiceInventory, ServiceSupportLevel,
    TabView,
};
use crate::text::{concat2, concat4, digits_of, nat_text, text_eq};
use crate::service_management::adapters::security_config::{
    hidden_value_note, redacted_value_marker,
};
use crate::service_management::adapters::network_observability::route53::{join_values, joined};
use crate::text::{contains, contains_text};

verus! {

/// The tabs of the Secrets Manager inventory page.
pub open spec fn inventory_tabs() -> Seq<TabView> {
    seq![
        single_kind_tab("secrets"@, "Secrets"@, "secret"@, "No secrets were found."@),
        single_kind_tab("versions"@, "Versions"@, "secret-version"@, "No secret versions were found."@),
        single_kind_tab("rotation"@, "Rotation"@, "rotation"@, "No secret rotation metadata is available."@),
        single_kind_tab("tags"@, "Tags"@, "tag-set"@, "Secret tags are folded into resource metadata."@),
    ]
}

/// The tabs of the Secrets Manager inventory page.
pub fn tabs() -> (t: Vec<ResourceTab>)
    ensures
        tab_views(t@) == inventory_tabs(),
{
    let mut t: Vec<ResourceTab> = Vec::new();
    t.push(tab("secrets", "Secrets", "secret", "No secrets were found."));
    t.push(tab("versions", "Versions", "secret-version", "No secret versions were found."));
    t.push(tab("rotation", "Rotation", "rotation", "No secret rotation metadata is available."));
    t.push(tab("tags", "Tags", "tag-set", "Secret tags are folded into resource metadata."));
    assert(tab_views(t@) =~= inventory_tabs());
    t
}

/// The status of a secret: `deleting` once deletion is scheduled, else
/// `rotation-enabled` when rotation is on, else `active`.
pub open spec fn secret_status(deleted: bool, rotation_enabled: Option<bool>) -> Seq<char> {
    if deleted {
        "deleting"@
    } else if rotation_enabled == Some(true) {
        "rotation-enabled"@
    } else {
        "active"@
    }
}

/// The attributes listed for a secret; its value is never shown.
pub open spec fn secret_attributes(
    arn: Seq<char>,
    description: Option<Seq<char>>,
    kms_key_id: Option<Seq<char>>,
    rotation_enabled: Option<bool>,
    last_accessed: Option<Seq<char>>,
    last_rotated: Option<Seq<char>>,
) -> Map<Seq<char>, Seq<char>> {
    let m = map!["arn"@ => arn, "secret_value"@ => hidden_value_note()];
    let m = with_attr(m, "description"@, description);
    let m = with_attr(m, "kms_key_id"@, kms_key_id);
    let m = with_attr(m, "rotation_enabled"@, flag_text(rotation_enabled));
    let m = with_attr(m, "last_accessed_date"@, last_accessed);
    with_attr(m, "last_rotated_date"@, last_rotated)
}

/// The resource listed for a secret, under its ARN (its name when it has
/// none). Its value is never shown: the attribute always holds the note.
pub fn secret_summary(
    name: &str,
    arn: Option<String>,
    deleted: bool,
    created_at: Option<String>,
    last_changed: Option<String>,
    description: Option<String>,
    kms_key_id: Option<String>,
    rotation_enabled: Option<bool>,
    last_accessed: Option<String>,
    last_rotated: Option<String>,
) -> (r: ResourceSummary)
    ensures
        r.wf(),
        shows(
            r@,
            "secret/"@ + text_or(arn.deep_view(), name@),
            name@,
            "secret"@,
            secret_status(deleted, rotation_enabled),
            created_at.deep_view(),
            last_changed.deep_view(),
            secret_attributes(
                text_or(arn.deep_view(), name@),
                description.deep_view(),
                kms_key_id.deep_view(),
                rotation_enabled,
                last_accessed.deep_view(),
                last_rotated.deep_view(),
            ),
        ),
{
    let secret_id = text_or_default(arn, name);
    let status = if deleted {
        String::from_str("deleting")
    } else if rotation_enabled == Some(true) {
        String::from_str("rotation-enabled")
    } else {
        String::from_str("active")
    };
    let mut attributes = no_attributes();
    put_text(&mut attributes, "arn", secret_id.clone());
    put_text(&mut attributes, "secret_value", redacted_value_marker());
    put_attr(&mut attributes, "description", description);
    put_attr(&mut attributes, "kms_key_id", kms_key_id);
    put_attr(&mut attributes, "rotation_enabled", optional_flag_text(rotation_enabled));
    put_attr(&mut attributes, "last_accessed_date", last_accessed);
    put_attr(&mut attributes, "last_rotated_date", last_rotated);
    summary(
        concat2("secret/", secret_id.as_str()),
        String::from_str(name),
        "secret",
        status,
        created_at,
        last_changed,
        attributes,
    )
}

/// The resource listed for a version of a secret: `current` when its stages,
/// joined with `, `, mention `AWSCURRENT`, `versioned` otherwise. Its value is
/// never shown.
pub fn secret_version_summary(
    secret_id: &str,
    version_id: &str,
    stages: &Vec<String>,
    created_at: Option<String>,
    last_accessed: Option<String>,
) -> (r: ResourceSummary)
    ensures
        r.wf(),
        shows(
            r@,
            "secret-version/"@ + secret_id@ + "/"@ + version_id@,
            version_id@,
            "secret-version"@,
            if contains(joined(stages.deep_view()), "AWSCURRENT"@) {
                "current"@
            } else {
                "versioned"@
            },
            created_at.deep_view(),
            last_accessed.deep_view(),
            map![
                "secret_id"@ => secret_id@,
                "version_id"@ => version_id@,
                "version_stages"@ => joined(stages.deep_view()),
                "secret_value"@ => hidden_value_note()
            ],
        ),
{
    let joined_stages = join_values(stages);
    let status = if contains_text(joined_stages.as_str(), "AWSCURRENT") {
        String::from_str("current")
    } else {
        String::from_str("versioned")
    };
    let mut attributes = no_attributes();
    put_text(&mut attributes, "secret_id", String::from_str(secret_id));
    put_text(&mut attributes, "version_id", String::from_str(version_id));
    put_text(&mut attributes, "version_stages", joined_stages);
    put_text(&mut attributes, "secret_value", redacted_value_marker());
    assert(texts_of(attributes@) =~= map![
        "secret_id"@ => secret_id@,
        "version_id"@ => version_id@,
        "version_stages"@ => joined(stages.deep_view()),
        "secret_value"@ => hidden_value_note()
    ]);
    summary(
        concat4("secret-version/", secret_id, "/", version_id),
        String::from_str(version_id),
        "secret-version",
        status,
        created_at,
        last_accessed,
        attributes,
    )
}

/// The resource listed for the rotation of a secret, named `<name> rotation`:
/// `enabled` when rotation is on, `disabled` otherwise.
pub fn rotation_summary(
    name: &str,
    secret_id: &str,
    rotation_enabled: Option<bool>,
    rotation_lambda_arn: Option<String>,
    created_at: Option<String>,
    last_rotated: Option<String>,
) -> (r: ResourceSummary)
    ensures
        r.wf(),
        shows(
            r@,
            "rotation/"@ + secret_id@,
            name@ + " rotation"@,
            "rotation"@,
            if rotation_enabled == Some(true) {
                "enabled"@
            } else {
                "disabled"@
            },
            created_at.deep_view(),
            last_rotated.deep_view(),
            map![
                "secret_id"@ => secret_id@,
                "rotation_lambda_arn"@ => text_or(rotation_lambda_arn.deep_view(), "not configured"@)
            ],
        ),
{
    let status = if rotation_enabled == Some(true) {
        String::from_str("enabled")
    } else {
        String::from_str("disabled")
    };
    let mut label = String::from_str(name);
    label.append(" rotation");
    let mut attributes = no_attributes();
    put_text(&mut attributes, "secret_id", String::from_str(secret_id));
    put_text(&mut attributes, "rotation_lambda_arn", text_or_default(rotation_lambda_arn, "not configured"));
    assert(texts_of(attributes@) =~= map![
        "secret_id"@ => secret_id@,
        "rotation_lambda_arn"@ => text_or(rotation_lambda_arn.deep_view(), "not configured"@)
    ]);
    summary(concat2("rotation/", secret_id), label, "rotation", status, created_at, last_rotated, attributes)
}

/// A call to Secrets Manager, with its validated inputs.
#[derive(Debug, Clone)]
pub enum Call {
    RevealSecretValue { secret_id: String },
    RotateSecret { secret_name: String, secret_id: String },
}

impl View for Call {
    type V = CallView;

    open spec fn view(&self) -> CallView {
        match self {
            Call::RevealSecretValue { secret_id } => call_of(
                "reveal_secret_value"@,
                seq![secret_id@],
                seq![],
            ),
            Call::RotateSecret { secret_name, secret_id } => call_of(
                "rotate_secret"@,
                seq![secret_name@, secret_id@],
                seq![],
            ),
        }
    }
}

/// What an action request on Secrets Manager asks for.
pub open spec fn action_plan(request: ServiceActionRequest) -> Result<PlannedView, ErrorView> {
    let a = request.action@;
    if a == "reveal_secret_value"@ {
        then_text(
            selected_resource(request, "secret/"@),
            |secret_id: Seq<char>|
                planned_call(a, seq![secret_id], seq![]),
        )
    } else if a == "rotate_secret"@ {
        then_text(
            typed_confirmation(request),
            |secret_name: Seq<char>|
                then_text(
                    selected_resource(request, "secret/"@),
                    |secret_id: Seq<char>|
                        planned_call(a, seq![secret_name, secret_id], seq![]),
                ),
        )
    } else {
        Err(unsupported_action_error(request))
    }
}

/// Validates an action request on Secrets Manager and decides what to do.
pub fn plan_action(request: &ServiceActionRequest) -> (r: Result<Planned<Call>, ServiceManagementError>)
    requires
        request.payload.wf(),
    ensures
        planned_outcome(r) == action_plan(*request),
        r matches Ok(Planned::Call(Call::RevealSecretValue { secret_id })) ==> {
            &&& request.action@ == "reveal_secret_value"@
            &&& selected_resource(*request, "secret/"@) == Ok::<Seq<char>, ErrorView>(secret_id@)
        },
        r matches Ok(Planned::Call(Call::RotateSecret { secret_name, secret_id })) ==> {
            &&& request.action@ == "rotate_secret"@
            &&& typed_confirmation(*request) == Ok::<Seq<char>, ErrorView>(secret_name@)
            &&& selected_resource(*request, "secret/"@) == Ok::<Seq<char>, ErrorView>(secret_id@)
        },
{
    let action = request.action.as_str();
    if text_eq(action, "reveal_secret_value") {
        let secret_id = require_resource_id(request, "secret/")?;
        Ok(Planned::Call(Call::RevealSecretValue { secret_id }))
    } else if text_eq(action, "rotate_secret") {
        let secret_name = require_typed_confirmation(request)?;
        let secret_id = require_resource_id(request, "secret/")?;
        Ok(Planned::Call(Call::RotateSecret { secret_name, secret_id }))
    } else {
        Err(unsupported_action(request))
    }
}

/// The result of `call` once it succeeded with `reply`.
pub open spec fn result_of(call: Call, reply: CallReply) -> ActionResultView {
    match call {
        Call::RevealSecretValue { secret_id } => result_view(
            false,
            "Secret value was fetched for `"@ + text_or(reply.value.deep_view(), secret_id@) + "` and immediately cleared from the UI action state. Type: "@ + text_or(reply.detail.deep_view(), "empty"@) + "; length: "@ + digits_of(reply.count as nat) + " bytes. The value is not stored in inventory, logs, or screenshots."@,
            Some("secret/"@ + secret_id@),
        ),
        Call::RotateSecret { secret_name, secret_id } => result_view(
            true,
            "Started rotation for Secrets Manager secret `"@ + secret_name@ + "`."@,
            Some("secret/"@ + secret_id@),
        ),
    }
}

/// The result reported once `call` succeeded with `reply`.
pub fn completed(call: &Call, reply: &CallReply) -> (r: ActionResult)
    ensures
        r@ == result_of(*call, *reply),
{
    match call {
        Call::RevealSecretValue { secret_id } => {
            let t1 = match &reply.value {
                Some(v) => v.clone(),
                None => {
                    let t2 = String::from_str(secret_id.as_str());
                    t2
                },
            };
            let t3 = match &reply.detail {
                Some(v) => v.clone(),
                None => {
                    let t4 = String::from_str("empty");
                    t4
                },
            };
            let t5 = nat_text(reply.count as u64);
            let mut message = String::from_str("Secret value was fetched for `");
            message.append(t1.as_str());
            message.append("` and immediately cleared from the UI action state. Type: ");
            message.append(t3.as_str());
            message.append("; length: ");
            message.append(t5.as_str());
            message.append(" bytes. The value is not stored in inventory, logs, or screenshots.");
            let mut id = String::from_str("secret/");
            id.append(secret_id.as_str());
            action_result(false, message, Some(id))
        },
        Call::RotateSecret { secret_name, secret_id } => {
            let mut message = String::from_str("Started rotation for Secrets Manager secret `");
            message.append(secret_name.as_str());
            message.append("`.");
            let mut id = String::from_str("secret/");
            id.append(secret_id.as_str());
            action_result(true, message, Some(id))
        },
    }
}

/// Every call planned for an action request performs the requested action.
pub proof fn lemma_plan_performs_requested_action(request: ServiceActionRequest)
    ensures
        action_plan(request) matches Ok(PlannedView::Call(c)) ==> c.name == request.action@,
{
}

/// A destructive action is only planned once the typed confirmation matches.
pub proof fn lemma_destructive_actions_are_confirmed(request: ServiceActionRequest)
    ensures
        action_plan(request) is Ok && destructive(request.action@) ==> typed_confirmation(request) is Ok,
{
    reveal_strlit("reveal_secret_value");
    lemma_not_destructive("reveal_secret_value"@);
}

/// The operations the Secrets Manager page lists as unavailable.
pub open spec fn unsupported_operations() -> Seq<Seq<char>> {
    seq!["create_secret"@, "put_secret_value"@, "delete_secret"@]
}

/// The name under which the service's inventory page is shown.
pub open spec fn label() -> Seq<char> {
    "Secrets Manager"@
}

/// How far this adapter supports the service: it manages its resources.
pub open spec fn support_level() -> ServiceSupportLevel {
    ServiceSupportLevel::Managed
}

/// The Secrets Manager inventory page: the listed `resources` under the Secrets Manager tabs, refreshed
/// at `refreshed_at`.
pub fn inventory(
    resources: Vec<ResourceSummary>,
    refreshed_at: String,
) -> (inv: ServiceInventory)
    ensures
        inv@ == (InventoryView {
            service_key: "secretsmanager"@,
            service_label: label(),
            support_level: support_level(),
            refreshed_at: refreshed_at@,
            tabs: inventory_tabs(),
            resources: summary_views(resources@),
            unsupported_operations: unsupported_operations(),
        }),
{
    let mut ops: Vec<String> = Vec::new();
    ops.push(String::from_str("create_secret"));
    ops.push(String::from_str("put_secret_value"));
    ops.push(String::from_str("delete_secret"));
    proof {
        assert(ops.deep_view() =~= unsupported_operations());
    }
    build_inventory(
        "secretsmanager",
        "Secrets Manager",
        ServiceSupportLevel::Managed,
        refreshed_at,
        tabs(),
        resources,
        ops,
    )
}

} // verus!
