//! Cognito.
use vstd::prelude::*;
use vstd::string::*;

use crate::service_management::actions::{
    require_name_payload, require_typed_confirmation, required_text, typed_confirmation,
};
use crate::service_management::adapters::payload::{
    optional_payload_text_or, optional_text, require_resource_id, selected_resource, split_or_whole,
    split_path,
};
use crate::service_management::adapters::{
    action_result, bool_text, bool_to_text, build_inventory, call_of, destructive,
    lemma_not_destructive, no_attributes, planned_call, planned_outcome, put_attr, put_text,
    result_view, shows, summary, text_or, text_or_default, then_text, unsupported_action,
    unsupported_action_error, with_attr, CallReply, CallView, Planned, PlannedView,
};
use crate::service_management::errors::{ErrorView, ServiceManagementError};
use crate::service_management::models::{
    single_kind_tab, summary_views, tab, tab_views, ActionResult, ActionResultView, InventoryView,
    ResourceSummary, ResourceTab, ServiceActionRequest, ServiceInventory, ServiceSupportLevel,
    TabView,
};
use crate::text::text_eq;

verus! {

/// The tabs of the Cognito inventory page.
pub open spec fn inventory_tabs() -> Seq<TabView> {
    seq![
        single_kind_tab("user-pools"@, "User Pools"@, "user-pool"@, "No Cognito user pools were found."@),
        single_kind_tab("app-clients"@, "App Clients"@, "app-client"@, "No Cognito app clients were found."@),
        single_kind_tab("users"@, "Users"@, "user"@, "No Cognito users were found."@),
        single_kind_tab("groups"@, "Groups"@, "group"@, "No Cognito groups were found."@),
        single_kind_tab("providers"@, "Providers"@, "identity-provider"@, "No Cognito identity providers were found."@),
    ]
}

/// The tabs of the Cognito inventory page.
pub fn tabs() -> (t: Vec<ResourceTab>)
    ensures
        tab_views(t@) == inventory_tabs(),
{
    let mut t: Vec<ResourceTab> = Vec::new();
    t.push(tab("user-pools", "User Pools", "user-pool", "No Cognito user pools were found."));
    t.push(tab("app-clients", "App Clients", "app-client", "No Cognito app clients were found."));
    t.push(tab("users", "Users", "user", "No Cognito users were found."));
    t.push(tab("groups", "Groups", "group", "No Cognito groups were found."));
    t.push(tab("providers", "Providers", "identity-provider", "No Cognito identity providers were found."));
    assert(tab_views(t@) =~= inventory_tabs());
    t
}

/// The attributes listed by [`user_pool_summary`].
pub open spec fn user_pool_attributes(
    pool_id: Seq<char>,
    has_lambda_config: bool,
) -> Map<Seq<char>, Seq<char>> {
    let m = Map::<Seq<char>, Seq<char>>::empty();
    let m = m.insert("user_pool_id"@, pool_id);
    with_attr(m, "lambda_config"@, if has_lambda_config { Some("present"@) } else { None })
}

/// The resource listed for a user pool, named by its name or else its id; it
/// only shows whether Lambda triggers are configured, not what they are.
pub fn user_pool_summary(
    pool_id: &str,
    name: Option<String>,
    has_lambda_config: bool,
    created_at: Option<String>,
    updated_at: Option<String>,
) -> (r: ResourceSummary)
    ensures
        r.wf(),
        shows(
            r@,
            "user-pool/"@ + pool_id@,
            text_or(name.deep_view(), pool_id@),
            "user-pool"@,
            "available"@,
            created_at.deep_view(),
            updated_at.deep_view(),
            user_pool_attributes(pool_id@, has_lambda_config),
        ),
{
    let mut id = String::from_str("user-pool/");
    id.append(pool_id);
    let listed_name = text_or_default(name.clone(), pool_id);
    let listed_status = String::from_str("available");
    let mut attributes = no_attributes();
    put_text(&mut attributes, "user_pool_id", String::from_str(pool_id));
    let note = if has_lambda_config { Some(String::from_str("present")) } else { None };
    put_attr(&mut attributes, "lambda_config", note);
    summary(id, listed_name, "user-pool", listed_status, created_at, updated_at, attributes)
}

/// The attributes listed by [`app_client_summary`].
pub open spec fn app_client_attributes(
    pool_id: Seq<char>,
    client_id: Seq<char>,
) -> Map<Seq<char>, Seq<char>> {
    let m = Map::<Seq<char>, Seq<char>>::empty();
    let m = m.insert("user_pool_id"@, pool_id);
    let m = m.insert("client_id"@, client_id);
    m.insert("client_secret"@, "redacted"@)
}

/// The resource listed for an app client of a user pool, named by its name or
/// else its id. Its secret is never shown: the attribute always reads
/// `redacted`.
pub fn app_client_summary(
    pool_id: &str,
    client_id: &str,
    client_name: Option<String>,
) -> (r: ResourceSummary)
    ensures
        r.wf(),
        shows(
            r@,
            "app-client/"@ + pool_id@ + "/"@ + client_id@,
            text_or(client_name.deep_view(), client_id@),
            "app-client"@,
            "available"@,
            None,
            None,
            app_client_attributes(pool_id@, client_id@),
        ),
{
    let mut id = String::from_str("app-client/");
    id.append(pool_id);
    id.append("/");
    id.append(client_id);
    let listed_name = text_or_default(client_name.clone(), client_id);
    let listed_status = String::from_str("available");
    let mut attributes = no_attributes();
    put_text(&mut attributes, "user_pool_id", String::from_str(pool_id));
    put_text(&mut attributes, "client_id", String::from_str(client_id));
    put_text(&mut attributes, "client_secret", String::from_str("redacted"));
    summary(id, listed_name, "app-client", listed_status, None, None, attributes)
}

/// The attributes listed by [`pool_user_summary`].
pub open spec fn pool_user_attributes(
    pool_id: Seq<char>,
    enabled: bool,
) -> Map<Seq<char>, Seq<char>> {
    let m = Map::<Seq<char>, Seq<char>>::empty();
    let m = m.insert("user_pool_id"@, pool_id);
    m.insert("enabled"@, bool_text(enabled))
}

/// The resource listed for a user of a user pool, in its status (`unknown`
/// when none).
pub fn pool_user_summary(
    pool_id: &str,
    username: &str,
    status: Option<String>,
    enabled: bool,
    created_at: Option<String>,
    updated_at: Option<String>,
) -> (r: ResourceSummary)
    ensures
        r.wf(),
        shows(
            r@,
            "user/"@ + pool_id@ + "/"@ + username@,
            username@,
            "user"@,
            text_or(status.deep_view(), "unknown"@),
            created_at.deep_view(),
            updated_at.deep_view(),
            pool_user_attributes(pool_id@, enabled),
        ),
{
    let mut id = String::from_str("user/");
    id.append(pool_id);
    id.append("/");
    id.append(username);
    let listed_name = String::from_str(username);
    let listed_status = text_or_default(status, "unknown");
    let mut attributes = no_attributes();
    put_text(&mut attributes, "user_pool_id", String::from_str(pool_id));
    put_text(&mut attributes, "enabled", bool_to_text(enabled));
    summary(id, listed_name, "user", listed_status, created_at, updated_at, attributes)
}

/// The attributes listed by [`pool_group_summary`].
pub open spec fn pool_group_attributes(
    pool_id: Seq<char>,
    description: Option<Seq<char>>,
    role_arn: Option<Seq<char>>,
) -> Map<Seq<char>, Seq<char>> {
    let m = Map::<Seq<char>, Seq<char>>::empty();
    let m = m.insert("user_pool_id"@, pool_id);
    let m = with_attr(m, "description"@, description);
    with_attr(m, "role_arn"@, role_arn)
}

/// The resource listed for a group of a user pool.
pub fn pool_group_summary(
    pool_id: &str,
    group_name: &str,
    description: Option<String>,
    role_arn: Option<String>,
    created_at: Option<String>,
    updated_at: Option<String>,
) -> (r: ResourceSummary)
    ensures
        r.wf(),
        shows(
            r@,
            "group/"@ + pool_id@ + "/"@ + group_name@,
            group_name@,
            "group"@,
            "available"@,
            created_at.deep_view(),
            updated_at.deep_view(),
            pool_group_attributes(pool_id@, description.deep_view(), role_arn.deep_view()),
        ),
{
    let mut id = String::from_str("group/");
    id.append(pool_id);
    id.append("/");
    id.append(group_name);
    let listed_name = String::from_str(group_name);
    let listed_status = String::from_str("available");
    let mut attributes = no_attributes();
    put_text(&mut attributes, "user_pool_id", String::from_str(pool_id));
    put_attr(&mut attributes, "description", description);
    put_attr(&mut attributes, "role_arn", role_arn);
    summary(id, listed_name, "group", listed_status, created_at, updated_at, attributes)
}

/// The attributes listed by [`identity_provider_summary`].
pub open spec fn identity_provider_attributes(
    pool_id: Seq<char>,
    provider_type: Option<Seq<char>>,
) -> Map<Seq<char>, Seq<char>> {
    let m = Map::<Seq<char>, Seq<char>>::empty();
    let m = m.insert("user_pool_id"@, pool_id);
    with_attr(m, "provider_type"@, provider_type)
}

/// The resource listed for an identity provider of a user pool.
pub fn identity_provider_summary(
    pool_id: &str,
    provider_name: &str,
    provider_type: Option<String>,
    created_at: Option<String>,
    updated_at: Option<String>,
) -> (r: ResourceSummary)
    ensures
        r.wf(),
        shows(
            r@,
            "identity-provider/"@ + pool_id@ + "/"@ + provider_name@,
            provider_name@,
            "identity-provider"@,
            "available"@,
            created_at.deep_view(),
            updated_at.deep_view(),
            identity_provider_attributes(pool_id@, provider_type.deep_view()),
        ),
{
    let mut id = String::from_str("identity-provider/");
    id.append(pool_id);
    id.append("/");
    id.append(provider_name);
    let listed_name = String::from_str(provider_name);
    let listed_status = String::from_str("available");
    let mut attributes = no_attributes();
    put_text(&mut attributes, "user_pool_id", String::from_str(pool_id));
    put_attr(&mut attributes, "provider_type", provider_type);
    summary(id, listed_name, "identity-provider", listed_status, created_at, updated_at, attributes)
}

/// A call to Cognito, with its validated inputs.
#[derive(Debug, Clone)]
pub enum Call {
    CreateUserPool { pool_name: String },
    DeleteUserPool { pool_name: String, pool_id: String },
    CreateUserPoolClient { client_name: String, pool_id: String },
    DeleteUserPoolClient { client_name: String, pool_id: String, client_id: String },
}

impl View for Call {
    type V = CallView;

    open spec fn view(&self) -> CallView {
        match self {
            Call::CreateUserPool { pool_name } => call_of(
                "create_user_pool"@,
                seq![pool_name@],
                seq![],
            ),
            Call::DeleteUserPool { pool_name, pool_id } => call_of(
                "delete_user_pool"@,
                seq![pool_name@, pool_id@],
                seq![],
            ),
            Call::CreateUserPoolClient { client_name, pool_id } => call_of(
                "create_user_pool_client"@,
                seq![client_name@, pool_id@],
                seq![],
            ),
            Call::DeleteUserPoolClient { client_name, pool_id, client_id } => call_of(
                "delete_user_pool_client"@,
                seq![client_name@, pool_id@, client_id@],
                seq![],
            ),
        }
    }
}

/// What an action request on Cognito asks for.
pub open spec fn action_plan(request: ServiceActionRequest) -> Result<PlannedView, ErrorView> {
    let a = request.action@;
    if a == "create_user_pool"@ {
        then_text(
            required_text(request, "pool_name"@),
            |pool_name: Seq<char>|
                planned_call(a, seq![pool_name], seq![]),
        )
    } else if a == "delete_user_pool"@ {
        then_text(
            typed_confirmation(request),
            |pool_name: Seq<char>|
                then_text(
                    selected_resource(request, "user-pool/"@),
                    |pool_id: Seq<char>|
                        planned_call(a, seq![pool_name, pool_id], seq![]),
                ),
        )
    } else if a == "create_user_pool_client"@ {
        {
            let client_name = text_or(optional_text(request, "client_name"@), "floci-local-client"@);
            then_text(
                selected_resource(request, "user-pool/"@),
                |pool_id: Seq<char>|
                    planned_call(a, seq![client_name, pool_id], seq![]),
            )
        }
    } else if a == "delete_user_pool_client"@ {
        then_text(
            typed_confirmation(request),
            |client_name: Seq<char>|
                then_text(
                    selected_resource(request, "app-client/"@),
                    |key_path: Seq<char>|
                        {
                            let p = split_or_whole(key_path, "/"@);
                            let pool_id = p.0;
                            let client_id = p.1;
                            planned_call(a, seq![client_name, pool_id, client_id], seq![])
                        },
                ),
        )
    } else {
        Err(unsupported_action_error(request))
    }
}

/// Validates an action request on Cognito and decides what to do.
pub fn plan_action(request: &ServiceActionRequest) -> (r: Result<Planned<Call>, ServiceManagementError>)
    requires
        request.payload.wf(),
    ensures
        planned_outcome(r) == action_plan(*request),
        r matches Ok(Planned::Call(Call::CreateUserPool { pool_name })) ==> {
            &&& request.action@ == "create_user_pool"@
            &&& required_text(*request, "pool_name"@) == Ok::<Seq<char>, ErrorView>(pool_name@)
        },
        r matches Ok(Planned::Call(Call::DeleteUserPool { pool_name, pool_id })) ==> {
            &&& request.action@ == "delete_user_pool"@
            &&& typed_confirmation(*request) == Ok::<Seq<char>, ErrorView>(pool_name@)
            &&& selected_resource(*request, "user-pool/"@) == Ok::<Seq<char>, ErrorView>(pool_id@)
        },
        r matches Ok(Planned::Call(Call::CreateUserPoolClient { pool_id, .. })) ==> {
            &&& request.action@ == "create_user_pool_client"@
            &&& selected_resource(*request, "user-pool/"@) == Ok::<Seq<char>, ErrorView>(pool_id@)
        },
        r matches Ok(Planned::Call(Call::DeleteUserPoolClient { client_name, .. })) ==> {
            &&& request.action@ == "delete_user_pool_client"@
            &&& typed_confirmation(*request) == Ok::<Seq<char>, ErrorView>(client_name@)
        },
{
    let action = request.action.as_str();
    if text_eq(action, "create_user_pool") {
        let pool_name = require_name_payload(request, "pool_name")?;
        Ok(Planned::Call(Call::CreateUserPool { pool_name }))
    } else if text_eq(action, "delete_user_pool") {
        let pool_name = require_typed_confirmation(request)?;
        let pool_id = require_resource_id(request, "user-pool/")?;
        Ok(Planned::Call(Call::DeleteUserPool { pool_name, pool_id }))
    } else if text_eq(action, "create_user_pool_client") {
        let client_name = optional_payload_text_or(request, "client_name", "floci-local-client");
        let pool_id = require_resource_id(request, "user-pool/")?;
        Ok(Planned::Call(Call::CreateUserPoolClient { client_name, pool_id }))
    } else if text_eq(action, "delete_user_pool_client") {
        let client_name = require_typed_confirmation(request)?;
        let key_path = require_resource_id(request, "app-client/")?;
        let (pool_id, client_id) = split_path(key_path.as_str(), "/");
        Ok(Planned::Call(Call::DeleteUserPoolClient { client_name, pool_id, client_id }))
    } else {
        Err(unsupported_action(request))
    }
}

/// The result of `call` once it succeeded with `reply`.
pub open spec fn result_of(call: Call, reply: CallReply) -> ActionResultView {
    match call {
        Call::CreateUserPool { pool_name } => result_view(
            true,
            "Created Cognito user pool `"@ + pool_name@ + "`."@,
            Some("user-pool/"@ + text_or(reply.value.deep_view(), pool_name@)),
        ),
        Call::DeleteUserPool { pool_name, pool_id } => result_view(
            true,
            "Deleted Cognito user pool `"@ + pool_name@ + "`."@,
            Some("user-pool/"@ + pool_id@),
        ),
        Call::CreateUserPoolClient { client_name, pool_id } => result_view(
            true,
            "Created Cognito app client `"@ + client_name@ + "`."@,
            Some("app-client/"@ + pool_id@ + "/"@ + text_or(reply.value.deep_view(), client_name@)),
        ),
        Call::DeleteUserPoolClient { client_name, pool_id, client_id } => result_view(
            true,
            "Deleted Cognito app client `"@ + client_name@ + "`."@,
            Some("app-client/"@ + pool_id@ + "/"@ + client_id@),
        ),
    }
}

/// The result reported once `call` succeeded with `reply`.
pub fn completed(call: &Call, reply: &CallReply) -> (r: ActionResult)
    ensures
        r@ == result_of(*call, *reply),
{
    match call {
        Call::CreateUserPool { pool_name } => {
            let mut message = String::from_str("Created Cognito user pool `");
            message.append(pool_name.as_str());
            message.append("`.");
            let t1 = match &reply.value {
                Some(v) => v.clone(),
                None => {
                    let t2 = String::from_str(pool_name.as_str());
                    t2
                },
            };
            let mut id = String::from_str("user-pool/");
            id.append(t1.as_str());
            action_result(true, message, Some(id))
        },
        Call::DeleteUserPool { pool_name, pool_id } => {
            let mut message = String::from_str("Deleted Cognito user pool `");
            message.append(pool_name.as_str());
            message.append("`.");
            let mut id = String::from_str("user-pool/");
            id.append(pool_id.as_str());
            action_result(true, message, Some(id))
        },
        Call::CreateUserPoolClient { client_name, pool_id } => {
            let mut message = String::from_str("Created Cognito app client `");
            message.append(client_name.as_str());
            message.append("`.");
            let t1 = match &reply.value {
                Some(v) => v.clone(),
                None => {
                    let t2 = String::from_str(client_name.as_str());
                    t2
                },
            };
            let mut id = String::from_str("app-client/");
            id.append(pool_id.as_str());
            id.append("/");
            id.append(t1.as_str());
            action_result(true, message, Some(id))
        },
        Call::DeleteUserPoolClient { client_name, pool_id, client_id } => {
            let mut message = String::from_str("Deleted Cognito app client `");
            message.append(client_name.as_str());
            message.append("`.");
            let mut id = String::from_str("app-client/");
            id.append(pool_id.as_str());
            id.append("/");
            id.append(client_id.as_str());
            action_result(true, message, Some(id))
        },
    }
}

/// Every call planned for an action request performs the requested action.
pub proof fn lemma_plan_performs_requested_action(request: ServiceActionRequest)
    ensures
        action_plan(request) matches Ok(PlannedView::Call(c)) ==> c.name == request.action@,
{
}

/// A destructive action is only planned once the typed confirmation matches.
pub proof fn lemma_destructive_actions_are_confirmed(request: ServiceActionRequest)
    ensures
        action_plan(request) is Ok && destructive(request.action@) ==> typed_confirmation(request) is Ok,
{
    reveal_strlit("create_user_pool");
    lemma_not_destructive("create_user_pool"@);
    reveal_strlit("create_user_pool_client");
    lemma_not_destructive("create_user_pool_client"@);
}

/// The operations the Cognito page lists as unavailable.
pub open spec fn unsupported_operations() -> Seq<Seq<char>> {
    seq!["create_group"@, "delete_group"@]
}

/// The name under which the service's inventory page is shown.
pub open spec fn label() -> Seq<char> {
    "Cognito"@
}

/// How far this adapter supports the service: it manages its resources.
pub open spec fn support_level() -> ServiceSupportLevel {
    ServiceSupportLevel::Managed
}

/// The Cognito inventory page: the listed `resources` under the Cognito tabs, refreshed
/// at `refreshed_at`.
pub fn inventory(
    resources: Vec<ResourceSummary>,
    refreshed_at: String,
) -> (inv: ServiceInventory)
    ensures
        inv@ == (InventoryView {
            service_key: "cognito"@,
            service_label: label(),
            support_level: support_level(),
            refreshed_at: refreshed_at@,
            tabs: inventory_tabs(),
            resources: summary_views(resources@),
            unsupported_operations: unsupported_operations(),
        }),
{
    let mut ops: Vec<String> = Vec::new();
    ops.push(String::from_str("create_group"));
    ops.push(String::from_str("delete_group"));
    proof {
        assert(ops.deep_view() =~= unsupported_operations());
    }
    build_inventory(
        "cognito",
        "Cognito",
        ServiceSupportLevel::Managed,
        refreshed_at,
        tabs(),
        resources,
        ops,
    )
}

} // verus!
