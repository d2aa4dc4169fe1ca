//! IAM.
use vstd::prelude::*;
use vstd::string::*;

use crate::service_management::actions::{
    require_name_payload, require_typed_confirmation, required_text, typed_confirmation,
};
use crate::service_management::adapters::payload::{
    optional_text_or_resource, require_json_payload_text, require_resource_id, required_json,
    resource_name_from_arn, selected_resource, split_or_whole, split_path, text_or_selected,
};
use crate::service_management::adapters::{
    action_result, bool_text, bool_to_text, build_inventory, call_of, destructive,
    lemma_not_destructive, number_text, optional_number_text, planned_call, planned_outcome,
    put_attr, result_view, shows, summary, text_or, texts_of, then_text, unsupported_action,
    unsupported_action_error, with_attr, CallReply, CallView, Planned, PlannedView,
};
use crate::service_management::errors::{ErrorView, ServiceManagementError};
use crate::service_management::models::{
    single_kind_tab, summary_views, tab, tab_views, ActionResult, ActionResultView, InventoryView,
    ResourceSummary, ResourceTab, ServiceActionRequest, ServiceInventory, ServiceSupportLevel,
    TabView,
};
use crate::service_management::text_map::TextMap;
use crate::text::{concat2, concat4, decimal, int_text, last_segment, text_eq};
use crate::service_management::adapters::network_observability::route53::{join_values, joined};

verus! {

/// The trust policy of a role created without one: Lambda may assume it.
pub const DEFAULT_ASSUME_ROLE_POLICY: &'static str = "{\n  \"Version\": \"2012-10-17\",\n  \"Statement\": [\n    {\n      \"Effect\": \"Allow\",\n      \"Principal\": { \"Service\": \"lambda.amazonaws.com\" },\n      \"Action\": \"sts:AssumeRole\"\n    }\n  ]\n}";

/// The document of a policy created without one: everything is allowed.
pub const DEFAULT_POLICY_DOCUMENT: &'static str = "{\n  \"Version\": \"2012-10-17\",\n  \"Statement\": [\n    {\n      \"Effect\": \"Allow\",\n      \"Action\": \"*\",\n      \"Resource\": \"*\"\n    }\n  ]\n}";

/// The tabs of the IAM inventory page.
pub open spec fn inventory_tabs() -> Seq<TabView> {
    seq![
        single_kind_tab("users"@, "Users"@, "user"@, "No IAM users were found."@),
        single_kind_tab("roles"@, "Roles"@, "role"@, "No IAM roles were found."@),
        single_kind_tab("groups"@, "Groups"@, "group"@, "No IAM groups were found."@),
        single_kind_tab("policies"@, "Policies"@, "policy"@, "No IAM policies were found."@),
        single_kind_tab("access-keys"@, "Access Keys"@, "access-key"@, "No IAM access keys were found."@),
        single_kind_tab("instance-profiles"@, "Instance Profiles"@, "instance-profile"@, "No IAM instance profiles were found."@),
    ]
}

/// The kinds of the resources the IAM summary builders list: users, access
/// keys, roles, groups, policies and instance profiles.
pub open spec fn listed_kind(kind: Seq<char>) -> bool {
    ||| kind == "user"@
    ||| kind == "access-key"@
    ||| kind == "role"@
    ||| kind == "group"@
    ||| kind == "policy"@
    ||| kind == "instance-profile"@
}

/// Whether some tab of `tabs` shows resources of `kind`.
pub open spec fn has_tab_for(tabs: Seq<TabView>, kind: Seq<char>) -> bool {
    exists|i: int| 0 <= i < tabs.len() && #[trigger] tabs[i].kinds.contains(kind)
}

/// The tabs of the IAM inventory page.
pub fn tabs() -> (t: Vec<ResourceTab>)
    ensures
        tab_views(t@) == inventory_tabs(),
{
    let mut t: Vec<ResourceTab> = Vec::new();
    t.push(tab("users", "Users", "user", "No IAM users were found."));
    t.push(tab("roles", "Roles", "role", "No IAM roles were found."));
    t.push(tab("groups", "Groups", "group", "No IAM groups were found."));
    t.push(tab("policies", "Policies", "policy", "No IAM policies were found."));
    t.push(tab("access-keys", "Access Keys", "access-key", "No IAM access keys were found."));
    t.push(tab("instance-profiles", "Instance Profiles", "instance-profile", "No IAM instance profiles were found."));
    assert(tab_views(t@) =~= inventory_tabs());
    t
}

/// The resource listed for an IAM user.
pub fn user_summary(
    user_name: &str,
    arn: &str,
    user_id: &str,
    path: &str,
    created_at: Option<String>,
    password_last_used: Option<String>,
) -> (r: ResourceSummary)
    ensures
        r.wf(),
        listed_kind(r@.kind),
        shows(
            r@,
            "user/"@ + user_name@,
            user_name@,
            "user"@,
            "active"@,
            created_at.deep_view(),
            None,
            with_attr(
                map!["arn"@ => arn@, "user_id"@ => user_id@, "path"@ => path@],
                "password_last_used"@,
                password_last_used.deep_view(),
            ),
        ),
{
    let mut attributes: TextMap<String> = TextMap::new();
    attributes.insert(String::from_str("arn"), String::from_str(arn));
    attributes.insert(String::from_str("user_id"), String::from_str(user_id));
    attributes.insert(String::from_str("path"), String::from_str(path));
    proof {
        assert(texts_of(attributes@) =~= map!["arn"@ => arn@, "user_id"@ => user_id@, "path"@ => path@]);
    }
    put_attr(&mut attributes, "password_last_used", password_last_used);
    summary(
        concat2("user/", user_name),
        String::from_str(user_name),
        "user",
        String::from_str("active"),
        created_at,
        None,
        attributes,
    )
}

/// The resource listed for an access key. Its secret is never shown: the
/// `secret_access_key` attribute always reads `redacted`.
pub fn access_key_summary(
    owner: &str,
    access_key_id: &str,
    status: Option<String>,
    created_at: Option<String>,
) -> (r: ResourceSummary)
    ensures
        r.wf(),
        listed_kind(r@.kind),
        shows(
            r@,
            "access-key/"@ + owner@ + "/"@ + access_key_id@,
            access_key_id@,
            "access-key"@,
            text_or(status.deep_view(), "unknown"@),
            created_at.deep_view(),
            None,
            map![
                "user_name"@ => owner@,
                "access_key_id"@ => access_key_id@,
                "secret_access_key"@ => "redacted"@
            ],
        ),
{
    let status = match status {
        Some(s) => s,
        None => String::from_str("unknown"),
    };
    let mut attributes: TextMap<String> = TextMap::new();
    attributes.insert(String::from_str("user_name"), String::from_str(owner));
    attributes.insert(String::from_str("access_key_id"), String::from_str(access_key_id));
    attributes.insert(String::from_str("secret_access_key"), String::from_str("redacted"));
    proof {
        assert(texts_of(attributes@) =~= map![
            "user_name"@ => owner@,
            "access_key_id"@ => access_key_id@,
            "secret_access_key"@ => "redacted"@
        ]);
    }
    summary(
        concat4("access-key/", owner, "/", access_key_id),
        String::from_str(access_key_id),
        "access-key",
        status,
        created_at,
        None,
        attributes,
    )
}

/// The note shown in place of a role's trust policy.
pub open spec fn policy_note() -> Seq<char> {
    "available in AWS metadata; not expanded in inventory"@
}

/// The resource listed for an IAM role; its trust policy is never expanded,
/// only noted as present.
pub fn role_summary(
    role_name: &str,
    arn: &str,
    role_id: &str,
    path: &str,
    created_at: Option<String>,
    description: Option<String>,
    max_session_duration: Option<i32>,
    has_trust_policy: bool,
) -> (r: ResourceSummary)
    ensures
        r.wf(),
        listed_kind(r@.kind),
        shows(
            r@,
            "role/"@ + role_name@,
            role_name@,
            "role"@,
            "available"@,
            created_at.deep_view(),
            None,
            with_attr(
                with_attr(
                    with_attr(
                        map!["arn"@ => arn@, "role_id"@ => role_id@, "path"@ => path@],
                        "description"@,
                        description.deep_view(),
                    ),
                    "max_session_duration"@,
                    match max_session_duration {
                        Some(d) => Some(decimal(d as int)),
                        None => None,
                    },
                ),
                "assume_role_policy_document"@,
                if has_trust_policy { Some(policy_note()) } else { None },
            ),
        ),
{
    let mut attributes: TextMap<String> = TextMap::new();
    attributes.insert(String::from_str("arn"), String::from_str(arn));
    attributes.insert(String::from_str("role_id"), String::from_str(role_id));
    attributes.insert(String::from_str("path"), String::from_str(path));
    proof {
        assert(texts_of(attributes@) =~= map!["arn"@ => arn@, "role_id"@ => role_id@, "path"@ => path@]);
    }
    put_attr(&mut attributes, "description", description);
    let duration = match max_session_duration {
        Some(d) => Some(int_text(d as i64)),
        None => None,
    };
    put_attr(&mut attributes, "max_session_duration", duration);
    let note = if has_trust_policy {
        Some(String::from_str("available in AWS metadata; not expanded in inventory"))
    } else {
        None
    };
    put_attr(&mut attributes, "assume_role_policy_document", note);
    summary(
        concat2("role/", role_name),
        String::from_str(role_name),
        "role",
        String::from_str("available"),
        created_at,
        None,
        attributes,
    )
}

/// The resource listed for a group.
pub fn group_summary(group_name: &str, arn: &str, group_id: &str, path: &str, created_at: Option<String>) -> (r:
    ResourceSummary)
    ensures
        r.wf(),
        listed_kind(r@.kind),
        shows(
            r@,
            "group/"@ + group_name@,
            group_name@,
            "group"@,
            "available"@,
            created_at.deep_view(),
            None,
            map!["arn"@ => arn@, "group_id"@ => group_id@, "path"@ => path@],
        ),
{
    let mut attributes: TextMap<String> = TextMap::new();
    attributes.insert(String::from_str("arn"), String::from_str(arn));
    attributes.insert(String::from_str("group_id"), String::from_str(group_id));
    attributes.insert(String::from_str("path"), String::from_str(path));
    assert(texts_of(attributes@) =~= map!["arn"@ => arn@, "group_id"@ => group_id@, "path"@ => path@]);
    summary(
        concat2("group/", group_name),
        String::from_str(group_name),
        "group",
        String::from_str("available"),
        created_at,
        None,
        attributes,
    )
}

/// The attributes listed for a managed policy.
pub open spec fn policy_attributes(
    arn: Seq<char>,
    policy_id: Option<Seq<char>>,
    default_version_id: Option<Seq<char>>,
    attachment_count: Option<i64>,
    is_attachable: bool,
    description: Option<Seq<char>>,
) -> Map<Seq<char>, Seq<char>> {
    let m = with_attr(map!["arn"@ => arn], "policy_id"@, policy_id);
    let m = with_attr(m, "default_version_id"@, default_version_id);
    let m = with_attr(m, "attachment_count"@, number_text(attachment_count));
    let m = m.insert("is_attachable"@, bool_text(is_attachable));
    with_attr(m, "description"@, description)
}

/// The resource listed for a managed policy: named by its name, or else by
/// the last segment of its ARN.
pub fn policy_summary(
    arn: &str,
    policy_name: Option<String>,
    created_at: Option<String>,
    updated_at: Option<String>,
    policy_id: Option<String>,
    default_version_id: Option<String>,
    attachment_count: Option<i64>,
    is_attachable: bool,
    description: Option<String>,
) -> (r: ResourceSummary)
    ensures
        r.wf(),
        listed_kind(r@.kind),
        shows(
            r@,
            "policy/"@ + arn@,
            text_or(policy_name.deep_view(), last_segment(arn@, ":/"@)),
            "policy"@,
            "available"@,
            created_at.deep_view(),
            updated_at.deep_view(),
            policy_attributes(
                arn@,
                policy_id.deep_view(),
                default_version_id.deep_view(),
                attachment_count,
                is_attachable,
                description.deep_view(),
            ),
        ),
{
    let ghost views = (policy_id.deep_view(), default_version_id.deep_view(), description.deep_view());
    let name = match policy_name {
        Some(n) => n,
        None => resource_name_from_arn(arn),
    };
    let mut attributes: TextMap<String> = TextMap::new();
    attributes.insert(String::from_str("arn"), String::from_str(arn));
    assert(texts_of(attributes@) =~= map!["arn"@ => arn@]);
    put_attr(&mut attributes, "policy_id", policy_id);
    put_attr(&mut attributes, "default_version_id", default_version_id);
    put_attr(&mut attributes, "attachment_count", optional_number_text(attachment_count));
    let ghost before = attributes@;
    let flag = bool_to_text(is_attachable);
    let ghost f = flag@;
    attributes.insert(String::from_str("is_attachable"), flag);
    assert(texts_of(attributes@) =~= texts_of(before).insert("is_attachable"@, f));
    put_attr(&mut attributes, "description", description);
    assert(texts_of(attributes@) == policy_attributes(arn@, views.0, views.1, attachment_count, is_attachable, views.2));
    summary(concat2("policy/", arn), name, "policy", String::from_str("available"), created_at, updated_at, attributes)
}

/// The resource listed for an instance profile, with the names of its roles
/// joined with `, `.
pub fn instance_profile_summary(
    instance_profile_name: &str,
    arn: &str,
    instance_profile_id: &str,
    path: &str,
    role_names: &Vec<String>,
    created_at: Option<String>,
) -> (r: ResourceSummary)
    ensures
        r.wf(),
        listed_kind(r@.kind),
        shows(
            r@,
            "instance-profile/"@ + instance_profile_name@,
            instance_profile_name@,
            "instance-profile"@,
            "available"@,
            created_at.deep_view(),
            None,
            map![
                "arn"@ => arn@,
                "instance_profile_id"@ => instance_profile_id@,
                "path"@ => path@,
                "roles"@ => joined(role_names.deep_view())
            ],
        ),
{
    let roles = join_values(role_names);
    let ghost r = roles@;
    let mut attributes: TextMap<String> = TextMap::new();
    attributes.insert(String::from_str("arn"), String::from_str(arn));
    attributes.insert(String::from_str("instance_profile_id"), String::from_str(instance_profile_id));
    attributes.insert(String::from_str("path"), String::from_str(path));
    attributes.insert(String::from_str("roles"), roles);
    assert(texts_of(attributes@) =~= map![
        "arn"@ => arn@,
        "instance_profile_id"@ => instance_profile_id@,
        "path"@ => path@,
        "roles"@ => r
    ]);
    summary(
        concat2("instance-profile/", instance_profile_name),
        String::from_str(instance_profile_name),
        "instance-profile",
        String::from_str("available"),
        created_at,
        None,
        attributes,
    )
}

/// A call to IAM, with its validated inputs.
#[derive(Debug, Clone)]
pub enum Call {
    CreateUser { user_name: String },
    DeleteUser { user_name: String },
    CreateRole { role_name: String, assume_role_policy_document: String },
    DeleteRole { role_name: String },
    CreatePolicy { policy_name: String, policy_document: String },
    DeletePolicy { policy_name: String, policy_arn: String },
    CreateAccessKey { user_name: String },
    DeleteAccessKey { access_key_name: String, user_name: String, access_key_id: String },
}

impl View for Call {
    type V = CallView;

    open spec fn view(&self) -> CallView {
        match self {
            Call::CreateUser { user_name } => call_of(
                "create_user"@,
                seq![user_name@],
                seq![],
            ),
            Call::DeleteUser { user_name } => call_of(
                "delete_user"@,
                seq![user_name@],
                seq![],
            ),
            Call::CreateRole { role_name, assume_role_policy_document } => call_of(
                "create_role"@,
                seq![role_name@, assume_role_policy_document@],
                seq![],
            ),
            Call::DeleteRole { role_name } => call_of(
                "delete_role"@,
                seq![role_name@],
                seq![],
            ),
            Call::CreatePolicy { policy_name, policy_document } => call_of(
                "create_policy"@,
                seq![policy_name@, policy_document@],
                seq![],
            ),
            Call::DeletePolicy { policy_name, policy_arn } => call_of(
                "delete_policy"@,
                seq![policy_name@, policy_arn@],
                seq![],
            ),
            Call::CreateAccessKey { user_name } => call_of(
                "create_access_key"@,
                seq![user_name@],
                seq![],
            ),
            Call::DeleteAccessKey { access_key_name, user_name, access_key_id } => call_of(
                "delete_access_key"@,
                seq![access_key_name@, user_name@, access_key_id@],
                seq![],
            ),
        }
    }
}

/// What an action request on IAM asks for.
pub open spec fn action_plan(request: ServiceActionRequest) -> Result<PlannedView, ErrorView> {
    let a = request.action@;
    if a == "create_user"@ {
        then_text(
            required_text(request, "user_name"@),
            |user_name: Seq<char>|
                planned_call(a, seq![user_name], seq![]),
        )
    } else if a == "delete_user"@ {
        then_text(
            typed_confirmation(request),
            |user_name: Seq<char>|
                planned_call(a, seq![user_name], seq![]),
        )
    } else if a == "create_role"@ {
        then_text(
            required_text(request, "role_name"@),
            |role_name: Seq<char>|
                then_text(
                    required_json(request, "assume_role_policy_document"@, DEFAULT_ASSUME_ROLE_POLICY@),
                    |assume_role_policy_document: Seq<char>|
                        planned_call(a, seq![role_name, assume_role_policy_document], seq![]),
                ),
        )
    } else if a == "delete_role"@ {
        then_text(
            typed_confirmation(request),
            |role_name: Seq<char>|
                planned_call(a, seq![role_name], seq![]),
        )
    } else if a == "create_policy"@ {
        then_text(
            required_text(request, "policy_name"@),
            |policy_name: Seq<char>|
                then_text(
                    required_json(request, "policy_document"@, DEFAULT_POLICY_DOCUMENT@),
                    |policy_document: Seq<char>|
                        planned_call(a, seq![policy_name, policy_document], seq![]),
                ),
        )
    } else if a == "delete_policy"@ {
        then_text(
            typed_confirmation(request),
            |policy_name: Seq<char>|
                then_text(
                    selected_resource(request, "policy/"@),
                    |policy_arn: Seq<char>|
                        planned_call(a, seq![policy_name, policy_arn], seq![]),
                ),
        )
    } else if a == "create_access_key"@ {
        then_text(
            text_or_selected(request, "user_name"@, "user/"@, "Select a user or provide `user_name`."@),
            |user_name: Seq<char>|
                planned_call(a, seq![user_name], seq![]),
        )
    } else if a == "delete_access_key"@ {
        then_text(
            typed_confirmation(request),
            |access_key_name: Seq<char>|
                then_text(
                    selected_resource(request, "access-key/"@),
                    |key_path: Seq<char>|
                        {
                            let p = split_or_whole(key_path, "/"@);
                            let user_name = p.0;
                            let access_key_id = p.1;
                            planned_call(a, seq![access_key_name, user_name, access_key_id], seq![])
                        },
                ),
        )
    } else {
        Err(unsupported_action_error(request))
    }
}

/// Validates an action request on IAM and decides what to do.
pub fn plan_action(request: &ServiceActionRequest) -> (r: Result<Planned<Call>, ServiceManagementError>)
    requires
        request.payload.wf(),
    ensures
        planned_outcome(r) == action_plan(*request),
        r matches Ok(Planned::Call(Call::CreateUser { user_name })) ==> {
            &&& request.action@ == "create_user"@
            &&& required_text(*request, "user_name"@) == Ok::<Seq<char>, ErrorView>(user_name@)
        },
        r matches Ok(Planned::Call(Call::DeleteUser { user_name })) ==> {
            &&& request.action@ == "delete_user"@
            &&& typed_confirmation(*request) == Ok::<Seq<char>, ErrorView>(user_name@)
        },
        r matches Ok(Planned::Call(Call::CreateRole { role_name, .. })) ==> {
            &&& request.action@ == "create_role"@
            &&& required_text(*request, "role_name"@) == Ok::<Seq<char>, ErrorView>(role_name@)
        },
        r matches Ok(Planned::Call(Call::DeleteRole { role_name })) ==> {
            &&& request.action@ == "delete_role"@
            &&& typed_confirmation(*request) == Ok::<Seq<char>, ErrorView>(role_name@)
        },
        r matches Ok(Planned::Call(Call::CreatePolicy { policy_name, .. })) ==> {
            &&& request.action@ == "create_policy"@
            &&& required_text(*request, "policy_name"@) == Ok::<Seq<char>, ErrorView>(policy_name@)
        },
        r matches Ok(Planned::Call(Call::DeletePolicy { policy_name, policy_arn })) ==> {
            &&& request.action@ == "delete_policy"@
            &&& typed_confirmation(*request) == Ok::<Seq<char>, ErrorView>(policy_name@)
            &&& selected_resource(*request, "policy/"@) == Ok::<Seq<char>, ErrorView>(policy_arn@)
        },
        r matches Ok(Planned::Call(Call::CreateAccessKey { user_name })) ==> {
            &&& request.action@ == "create_access_key"@
            &&& text_or_selected(*request, "user_name"@, "user/"@, "Select a user or provide `user_name`."@) == Ok::<Seq<char>, ErrorView>(user_name@)
        },
        r matches Ok(Planned::Call(Call::DeleteAccessKey { access_key_name, .. })) ==> {
            &&& request.action@ == "delete_access_key"@
            &&& typed_confirmation(*request) == Ok::<Seq<char>, ErrorView>(access_key_name@)
        },
{
    let action = request.action.as_str();
    if text_eq(action, "create_user") {
        let user_name = require_name_payload(request, "user_name")?;
        Ok(Planned::Call(Call::CreateUser { user_name }))
    } else if text_eq(action, "delete_user") {
        let user_name = require_typed_confirmation(request)?;
        Ok(Planned::Call(Call::DeleteUser { user_name }))
    } else if text_eq(action, "create_role") {
        let role_name = require_name_payload(request, "role_name")?;
        let assume_role_policy_document = require_json_payload_text(request, "assume_role_policy_document", DEFAULT_ASSUME_ROLE_POLICY)?;
        Ok(Planned::Call(Call::CreateRole { role_name, assume_role_policy_document }))
    } else if text_eq(action, "delete_role") {
        let role_name = require_typed_confirmation(request)?;
        Ok(Planned::Call(Call::DeleteRole { role_name }))
    } else if text_eq(action, "create_policy") {
        let policy_name = require_name_payload(request, "policy_name")?;
        let policy_document = require_json_payload_text(request, "policy_document", DEFAULT_POLICY_DOCUMENT)?;
        Ok(Planned::Call(Call::CreatePolicy { policy_name, policy_document }))
    } else if text_eq(action, "delete_policy") {
        let policy_name = require_typed_confirmation(request)?;
        let policy_arn = require_resource_id(request, "policy/")?;
        Ok(Planned::Call(Call::DeletePolicy { policy_name, policy_arn }))
    } else if text_eq(action, "create_access_key") {
        let user_name = optional_text_or_resource(request, "user_name", "user/", "Select a user or provide `user_name`.")?;
        Ok(Planned::Call(Call::CreateAccessKey { user_name }))
    } else if text_eq(action, "delete_access_key") {
        let access_key_name = require_typed_confirmation(request)?;
        let key_path = require_resource_id(request, "access-key/")?;
        let (user_name, access_key_id) = split_path(key_path.as_str(), "/");
        Ok(Planned::Call(Call::DeleteAccessKey { access_key_name, user_name, access_key_id }))
    } else {
        Err(unsupported_action(request))
    }
}

/// The result of `call` once it succeeded with `reply`.
pub open spec fn result_of(call: Call, reply: CallReply) -> ActionResultView {
    match call {
        Call::CreateUser { user_name } => result_view(
            true,
            "Created IAM user `"@ + user_name@ + "`."@,
            Some("user/"@ + user_name@),
        ),
        Call::DeleteUser { user_name } => result_view(
            true,
            "Deleted IAM user `"@ + user_name@ + "`."@,
            Some("user/"@ + user_name@),
        ),
        Call::CreateRole { role_name, .. } => result_view(
            true,
            "Created IAM role `"@ + role_name@ + "`."@,
            Some("role/"@ + role_name@),
        ),
        Call::DeleteRole { role_name } => result_view(
            true,
            "Deleted IAM role `"@ + role_name@ + "`."@,
            Some("role/"@ + role_name@),
        ),
        Call::CreatePolicy { policy_name, .. } => result_view(
            true,
            "Created IAM policy `"@ + policy_name@ + "`."@,
            Some("policy/"@ + text_or(reply.value.deep_view(), "local/"@ + policy_name@)),
        ),
        Call::DeletePolicy { policy_name, policy_arn } => result_view(
            true,
            "Deleted IAM policy `"@ + policy_name@ + "`."@,
            Some("policy/"@ + policy_arn@),
        ),
        Call::CreateAccessKey { user_name } => result_view(
            true,
            "Created IAM access key `"@ + text_or(reply.value.deep_view(), "created"@) + "` for `"@ + user_name@ + "`. Secret access key was received from the local emulator and immediately discarded."@,
            Some("access-key/"@ + user_name@ + "/"@ + text_or(reply.value.deep_view(), "created"@)),
        ),
        Call::DeleteAccessKey { access_key_name, user_name, access_key_id } => result_view(
            true,
            "Deleted IAM access key `"@ + access_key_name@ + "`."@,
            Some("access-key/"@ + user_name@ + "/"@ + access_key_id@),
        ),
    }
}

/// The result reported once `call` succeeded with `reply`.
pub fn completed(call: &Call, reply: &CallReply) -> (r: ActionResult)
    ensures
        r@ == result_of(*call, *reply),
{
    match call {
        Call::CreateUser { user_name } => {
            let mut message = String::from_str("Created IAM user `");
            message.append(user_name.as_str());
            message.append("`.");
            let mut id = String::from_str("user/");
            id.append(user_name.as_str());
            action_result(true, message, Some(id))
        },
        Call::DeleteUser { user_name } => {
            let mut message = String::from_str("Deleted IAM user `");
            message.append(user_name.as_str());
            message.append("`.");
            let mut id = String::from_str("user/");
            id.append(user_name.as_str());
            action_result(true, message, Some(id))
        },
        Call::CreateRole { role_name, .. } => {
            let mut message = String::from_str("Created IAM role `");
            message.append(role_name.as_str());
            message.append("`.");
            let mut id = String::from_str("role/");
            id.append(role_name.as_str());
            action_result(true, message, Some(id))
        },
        Call::DeleteRole { role_name } => {
            let mut message = String::from_str("Deleted IAM role `");
            message.append(role_name.as_str());
            message.append("`.");
            let mut id = String::from_str("role/");
            id.append(role_name.as_str());
            action_result(true, message, Some(id))
        },
        Call::CreatePolicy { policy_name, .. } => {
            let mut message = String::from_str("Created IAM policy `");
            message.append(policy_name.as_str());
            message.append("`.");
            let t1 = match &reply.value {
                Some(v) => v.clone(),
                None => {
                    let mut t2 = String::from_str("local/");
                    t2.append(policy_name.as_str());
                    t2
                },
            };
            let mut id = String::from_str("policy/");
            id.append(t1.as_str());
            action_result(true, message, Some(id))
        },
        Call::DeletePolicy { policy_name, policy_arn } => {
            let mut message = String::from_str("Deleted IAM policy `");
            message.append(policy_name.as_str());
            message.append("`.");
            let mut id = String::from_str("policy/");
            id.append(policy_arn.as_str());
            action_result(true, message, Some(id))
        },
        Call::CreateAccessKey { user_name } => {
            let t1 = match &reply.value {
                Some(v) => v.clone(),
                None => {
                    let t2 = String::from_str("created");
                    t2
                },
            };
            let mut message = String::from_str("Created IAM access key `");
            message.append(t1.as_str());
            message.append("` for `");
            message.append(user_name.as_str());
            message.append("`. Secret access key was received from the local emulator and immediately discarded.");
            let t3 = match &reply.value {
                Some(v) => v.clone(),
                None => {
                    let t4 = String::from_str("created");
                    t4
                },
            };
            let mut id = String::from_str("access-key/");
            id.append(user_name.as_str());
            id.append("/");
            id.append(t3.as_str());
            action_result(true, message, Some(id))
        },
        Call::DeleteAccessKey { access_key_name, user_name, access_key_id } => {
            let mut message = String::from_str("Deleted IAM access key `");
            message.append(access_key_name.as_str());
            message.append("`.");
            let mut id = String::from_str("access-key/");
            id.append(user_name.as_str());
            id.append("/");
            id.append(access_key_id.as_str());
            action_result(true, message, Some(id))
        },
    }
}

/// Every call planned for an action request performs the requested action.
pub proof fn lemma_plan_performs_requested_action(request: ServiceActionRequest)
    ensures
        action_plan(request) matches Ok(PlannedView::Call(c)) ==> c.name == request.action@,
{
}

/// A destructive action is only planned once the typed confirmation matches.
pub proof fn lemma_destructive_actions_are_confirmed(request: ServiceActionRequest)
    ensures
        action_plan(request) is Ok && destructive(request.action@) ==> typed_confirmation(request) is Ok,
{
    reveal_strlit("create_user");
    lemma_not_destructive("create_user"@);
    reveal_strlit("create_role");
    lemma_not_destructive("create_role"@);
    reveal_strlit("create_policy");
    lemma_not_destructive("create_policy"@);
    reveal_strlit("create_access_key");
    lemma_not_destructive("create_access_key"@);
}

/// Every kind of resource that the IAM summary builders list is shown by some
/// tab of the IAM inventory page (the tabs that `tabs` returns).
pub proof fn lemma_every_listed_kind_has_a_tab(kind: Seq<char>)
    requires
        listed_kind(kind),
    ensures
        has_tab_for(inventory_tabs(), kind),
{
    let t = inventory_tabs();
    let i: int = if kind == "user"@ {
        0
    } else if kind == "role"@ {
        1
    } else if kind == "group"@ {
        2
    } else if kind == "policy"@ {
        3
    } else if kind == "access-key"@ {
        4
    } else {
        5
    };
    assert(t[i].kinds[0] == kind);
    assert(t[i].kinds.contains(kind));
}

/// On an IAM inventory page whose resources all come from the IAM summary
/// builders, every resource is shown by some tab of the page.
pub proof fn lemma_inventory_resources_have_tabs(inv: InventoryView)
    requires
        inv.tabs == inventory_tabs(),
        forall|i: int| 0 <= i < inv.resources.len() ==> listed_kind(#[trigger] inv.resources[i].kind),
    ensures
        forall|i: int|
            0 <= i < inv.resources.len() ==> has_tab_for(inv.tabs, #[trigger] inv.resources[i].kind),
{
    assert forall|i: int| 0 <= i < inv.resources.len() implies has_tab_for(
        inv.tabs,
        #[trigger] inv.resources[i].kind,
    ) by {
        lemma_every_listed_kind_has_a_tab(inv.resources[i].kind);
    }
}

/// The operations the IAM page lists as unavailable.
pub open spec fn unsupported_operations() -> Seq<Seq<char>> {
    seq!["attach_policy"@, "detach_policy"@, "delete_group"@]
}

/// The name under which the service's inventory page is shown.
pub open spec fn label() -> Seq<char> {
    "IAM"@
}

/// How far this adapter supports the service: it manages its resources.
pub open spec fn support_level() -> ServiceSupportLevel {
    ServiceSupportLevel::Managed
}

/// The IAM inventory page: the listed `resources` under the IAM tabs, refreshed
/// at `refreshed_at`.
pub fn inventory(
    resources: Vec<ResourceSummary>,
    refreshed_at: String,
) -> (inv: ServiceInventory)
    ensures
        inv@ == (InventoryView {
            service_key: "iam"@,
            service_label: label(),
            support_level: support_level(),
            refreshed_at: refreshed_at@,
            tabs: inventory_tabs(),
            resources: summary_views(resources@),
            unsupported_operations: unsupported_operations(),
        }),
{
    let mut ops: Vec<String> = Vec::new();
    ops.push(String::from_str("attach_policy"));
    ops.push(String::from_str("detach_policy"));
    ops.push(String::from_str("delete_group"));
    proof {
        assert(ops.deep_view() =~= unsupported_operations());
    }
    build_inventory(
        "iam",
        "IAM",
        ServiceSupportLevel::Managed,
        refreshed_at,
        tabs(),
        resources,
        ops,
    )
}

} // verus!

