//! API Gateway v2.
use vstd::prelude::*;
use vstd::string::*;

use crate::service_management::actions::{
    require_name_payload, require_typed_confirmation, required_text, typed_confirmation,
};
use crate::service_management::adapters::payload::{
    optional_payload_text, optional_payload_text_or, optional_text, require_payload_text,
    require_resource_id, selected_resource,
};
use crate::service_management::adapters::{
    action_result, attributes_from, bool_to_text, build_inventory, call_of, destructive, flag_text,
    lemma_not_destructive, pair_views, pairs_map, planned_call, planned_outcome, put_attr,
    result_view, shows, shows_tagged, summary, tagged_summary, text_or, text_or_default,
    text_or_empty, texts_of, then_text, unsupported_action, unsupported_action_error, with_attr,
    CallReply, CallView, Planned, PlannedView,
};
use crate::service_management::errors::{ErrorView, ServiceManagementError};
use crate::service_management::models::{
    single_kind_tab, summary_views, tab, tab_views, ActionResult, ActionResultView, InventoryView,
    ResourceSummary, ResourceTab, ServiceActionRequest, ServiceInventory, ServiceSupportLevel,
    TabView,
};
use crate::service_management::text_map::TextMap;
use crate::text::{concat2, concat3, concat4, text_eq, upper_text, upper_text_exec};
use crate::service_management::adapters::network_observability::{
    redacted_note, redacted_value_marker,
};

verus! {

/// The tabs of the API Gateway v2 inventory page.
pub open spec fn inventory_tabs() -> Seq<TabView> {
    seq![
        single_kind_tab("apis"@, "APIs"@, "api"@, "No API Gateway v2 APIs were found in the local emulator."@),
        single_kind_tab("routes"@, "Routes"@, "route"@, "No API Gateway v2 routes are loaded."@),
        single_kind_tab("integrations"@, "Integrations"@, "integration"@, "No API Gateway v2 integrations are loaded."@),
        single_kind_tab("deployments"@, "Deployments"@, "deployment"@, "No API Gateway v2 deployments are loaded."@),
        single_kind_tab("stages"@, "Stages"@, "stage"@, "No API Gateway v2 stages are loaded."@),
        single_kind_tab("authorizers"@, "Authorizers"@, "authorizer"@, "No API Gateway v2 authorizers are loaded."@),
    ]
}

/// The tabs of the API Gateway v2 inventory page.
pub fn tabs() -> (t: Vec<ResourceTab>)
    ensures
        tab_views(t@) == inventory_tabs(),
{
    let mut t: Vec<ResourceTab> = Vec::new();
    t.push(tab("apis", "APIs", "api", "No API Gateway v2 APIs were found in the local emulator."));
    t.push(tab("routes", "Routes", "route", "No API Gateway v2 routes are loaded."));
    t.push(tab("integrations", "Integrations", "integration", "No API Gateway v2 integrations are loaded."));
    t.push(tab("deployments", "Deployments", "deployment", "No API Gateway v2 deployments are loaded."));
    t.push(tab("stages", "Stages", "stage", "No API Gateway v2 stages are loaded."));
    t.push(tab("authorizers", "Authorizers", "authorizer", "No API Gateway v2 authorizers are loaded."));
    assert(tab_views(t@) =~= inventory_tabs());
    t
}

/// The resource listed for an integration of an HTTP or WebSocket API, named
/// by its URI or else its id. Credentials are never shown: when the
/// integration has a credentials ARN, the attribute only holds the redaction note.
pub fn integration_summary(
    api_id: &str,
    integration_id: &str,
    integration_method: Option<String>,
    integration_uri: Option<String>,
    integration_type: Option<String>,
    has_credentials: bool,
) -> (r: ResourceSummary)
    ensures
        r.wf(),
        shows(
            r@,
            "integration/"@ + api_id@ + "/"@ + integration_id@,
            text_or(integration_uri.deep_view(), integration_id@),
            "integration"@,
            text_or(integration_type.deep_view(), "configured"@),
            None,
            None,
            with_attr(
                with_attr(
                    with_attr(
                        with_attr(map!["api_id"@ => api_id@], "integration_method"@, integration_method.deep_view()),
                        "integration_uri"@,
                        integration_uri.deep_view(),
                    ),
                    "credentials_arn"@,
                    if has_credentials { Some(redacted_note()) } else { None },
                ),
                "integration_type"@,
                integration_type.deep_view(),
            ),
        ),
{
    let name = match &integration_uri {
        Some(u) => u.clone(),
        None => String::from_str(integration_id),
    };
    let status = match &integration_type {
        Some(t) => t.clone(),
        None => String::from_str("configured"),
    };
    let mut attributes: TextMap<String> = TextMap::new();
    attributes.insert(String::from_str("api_id"), String::from_str(api_id));
    proof {
        assert(texts_of(attributes@) =~= map!["api_id"@ => api_id@]);
    }
    put_attr(&mut attributes, "integration_method", integration_method);
    put_attr(&mut attributes, "integration_uri", integration_uri);
    let note = if has_credentials {
        Some(redacted_value_marker())
    } else {
        None
    };
    put_attr(&mut attributes, "credentials_arn", note);
    put_attr(&mut attributes, "integration_type", integration_type);
    let mut id = concat3("integration/", api_id, "/");
    id.append(integration_id);
    summary(id, name, "integration", status, None, None, attributes)
}

/// The attributes listed for an HTTP or WebSocket API.
pub open spec fn api_attributes(
    protocol_type: Option<Seq<char>>,
    api_endpoint: Option<Seq<char>>,
    version: Option<Seq<char>>,
) -> Map<Seq<char>, Seq<char>> {
    let m = with_attr(Map::empty(), "protocol_type"@, protocol_type);
    let m = with_attr(m, "api_endpoint"@, api_endpoint);
    with_attr(m, "version"@, version)
}

/// The resource listed for an HTTP or WebSocket API: named by its name, or
/// else its id, with its protocol as status (`available` when it has none)
/// and its tags.
pub fn api_summary(
    api_id: &str,
    name: Option<String>,
    protocol_type: Option<String>,
    created_at: Option<String>,
    api_endpoint: Option<String>,
    version: Option<String>,
    tags: &Vec<(String, String)>,
) -> (r: ResourceSummary)
    ensures
        r.wf(),
        shows_tagged(
            r@,
            "api/"@ + api_id@,
            text_or(name.deep_view(), api_id@),
            "api"@,
            text_or(protocol_type.deep_view(), "available"@),
            created_at.deep_view(),
            pairs_map(pair_views(tags@)),
            api_attributes(protocol_type.deep_view(), api_endpoint.deep_view(), version.deep_view()),
        ),
{
    let ghost views = (protocol_type.deep_view(), api_endpoint.deep_view(), version.deep_view());
    let status = match &protocol_type {
        Some(p) => p.clone(),
        None => String::from_str("available"),
    };
    let mut attributes: TextMap<String> = TextMap::new();
    assert(texts_of(attributes@) =~= Map::<Seq<char>, Seq<char>>::empty());
    put_attr(&mut attributes, "protocol_type", protocol_type);
    put_attr(&mut attributes, "api_endpoint", api_endpoint);
    put_attr(&mut attributes, "version", version);
    assert(texts_of(attributes@) == api_attributes(views.0, views.1, views.2));
    tagged_summary(
        concat2("api/", api_id),
        text_or_default(name, api_id),
        "api",
        status,
        created_at,
        attributes_from(tags),
        attributes,
    )
}

/// The attributes listed for a route.
pub open spec fn route_attributes(
    api_id: Seq<char>,
    route_key: Option<Seq<char>>,
    target: Option<Seq<char>>,
    authorizer_id: Option<Seq<char>>,
    authorization_type: Option<Seq<char>>,
) -> Map<Seq<char>, Seq<char>> {
    let m = with_attr(map!["api_id"@ => api_id], "route_key"@, route_key);
    let m = with_attr(m, "target"@, target);
    let m = with_attr(m, "authorizer_id"@, authorizer_id);
    with_attr(m, "authorization_type"@, authorization_type)
}

/// The resource listed for a route: named by its route key, or else its id,
/// with its authorization type as status (`NONE` when it has none).
pub fn route_summary(
    api_id: &str,
    route_id: &str,
    route_key: Option<String>,
    target: Option<String>,
    authorizer_id: Option<String>,
    authorization_type: Option<String>,
) -> (r: ResourceSummary)
    ensures
        r.wf(),
        shows(
            r@,
            "route/"@ + api_id@ + "/"@ + route_id@,
            text_or(route_key.deep_view(), route_id@),
            "route"@,
            text_or(authorization_type.deep_view(), "NONE"@),
            None,
            None,
            route_attributes(
                api_id@,
                route_key.deep_view(),
                target.deep_view(),
                authorizer_id.deep_view(),
                authorization_type.deep_view(),
            ),
        ),
{
    let ghost views = (route_key.deep_view(), target.deep_view(), authorizer_id.deep_view(), authorization_type.deep_view());
    let name = match &route_key {
        Some(k) => k.clone(),
        None => String::from_str(route_id),
    };
    let status = match &authorization_type {
        Some(t) => t.clone(),
        None => String::from_str("NONE"),
    };
    let mut attributes: TextMap<String> = TextMap::new();
    attributes.insert(String::from_str("api_id"), String::from_str(api_id));
    assert(texts_of(attributes@) =~= map!["api_id"@ => api_id@]);
    put_attr(&mut attributes, "route_key", route_key);
    put_attr(&mut attributes, "target", target);
    put_attr(&mut attributes, "authorizer_id", authorizer_id);
    put_attr(&mut attributes, "authorization_type", authorization_type);
    assert(texts_of(attributes@) == route_attributes(api_id@, views.0, views.1, views.2, views.3));
    summary(concat4("route/", api_id, "/", route_id), name, "route", status, None, None, attributes)
}

/// The resource listed for a stage: `auto-deploy` when it deploys itself,
/// `manual` otherwise.
pub fn stage_summary(
    api_id: &str,
    stage_name: &str,
    deployment_id: Option<String>,
    auto_deploy: Option<bool>,
    last_updated: Option<String>,
) -> (r: ResourceSummary)
    ensures
        r.wf(),
        shows(
            r@,
            "stage/"@ + api_id@ + "/"@ + stage_name@,
            stage_name@,
            "stage"@,
            if auto_deploy == Some(true) { "auto-deploy"@ } else { "manual"@ },
            None,
            last_updated.deep_view(),
            with_attr(
                with_attr(map!["api_id"@ => api_id@], "deployment_id"@, deployment_id.deep_view()),
                "auto_deploy"@,
                flag_text(auto_deploy),
            ),
        ),
{
    let status = match auto_deploy {
        Some(true) => String::from_str("auto-deploy"),
        _ => String::from_str("manual"),
    };
    let flag = match auto_deploy {
        Some(b) => Some(bool_to_text(b)),
        None => None,
    };
    let mut attributes: TextMap<String> = TextMap::new();
    attributes.insert(String::from_str("api_id"), String::from_str(api_id));
    assert(texts_of(attributes@) =~= map!["api_id"@ => api_id@]);
    put_attr(&mut attributes, "deployment_id", deployment_id);
    put_attr(&mut attributes, "auto_deploy", flag);
    summary(
        concat4("stage/", api_id, "/", stage_name),
        String::from_str(stage_name),
        "stage",
        status,
        None,
        last_updated,
        attributes,
    )
}

/// The resource listed for an authorizer: named by its name, or else its id,
/// with its type as status (`configured` when it has none). Its identity
/// sources are never shown: the attribute only holds the redaction note.
pub fn authorizer_summary(
    api_id: &str,
    authorizer_id: &str,
    name: Option<String>,
    authorizer_type: Option<String>,
) -> (r: ResourceSummary)
    ensures
        r.wf(),
        shows(
            r@,
            "authorizer/"@ + api_id@ + "/"@ + authorizer_id@,
            text_or(name.deep_view(), authorizer_id@),
            "authorizer"@,
            text_or(authorizer_type.deep_view(), "configured"@),
            None,
            None,
            with_attr(map!["api_id"@ => api_id@], "authorizer_type"@, authorizer_type.deep_view()).insert(
                "identity_sources"@,
                redacted_note(),
            ),
        ),
{
    let status = match &authorizer_type {
        Some(t) => t.clone(),
        None => String::from_str("configured"),
    };
    let mut attributes: TextMap<String> = TextMap::new();
    attributes.insert(String::from_str("api_id"), String::from_str(api_id));
    assert(texts_of(attributes@) =~= map!["api_id"@ => api_id@]);
    put_attr(&mut attributes, "authorizer_type", authorizer_type);
    let ghost before = attributes@;
    attributes.insert(String::from_str("identity_sources"), redacted_value_marker());
    assert(texts_of(attributes@) =~= texts_of(before).insert("identity_sources"@, redacted_note()));
    summary(
        concat4("authorizer/", api_id, "/", authorizer_id),
        text_or_default(name, authorizer_id),
        "authorizer",
        status,
        None,
        None,
        attributes,
    )
}

/// A call to API Gateway v2, with its validated inputs.
#[derive(Debug, Clone)]
pub enum Call {
    CreateApi { api_name: String, protocol_type: String },
    CreateRoute { api_id: String, route_key: String, target: Option<String> },
    CreateIntegration { api_id: String, integration_uri: String, integration_method: String },
    CreateDeployment { api_id: String },
    DeleteApi { api_name: String, api_id: String },
}

impl View for Call {
    type V = CallView;

    open spec fn view(&self) -> CallView {
        match self {
            Call::CreateApi { api_name, protocol_type } => call_of(
                "create_api"@,
                seq![api_name@, protocol_type@],
                seq![],
            ),
            Call::CreateRoute { api_id, route_key, target } => call_of(
                "create_route"@,
                seq![api_id@, route_key@, text_or_empty(target.deep_view())],
                seq![],
            ),
            Call::CreateIntegration { api_id, integration_uri, integration_method } => call_of(
                "create_integration"@,
                seq![api_id@, integration_uri@, integration_method@],
                seq![],
            ),
            Call::CreateDeployment { api_id } => call_of(
                "create_deployment"@,
                seq![api_id@],
                seq![],
            ),
            Call::DeleteApi { api_name, api_id } => call_of(
                "delete_api"@,
                seq![api_name@, api_id@],
                seq![],
            ),
        }
    }
}

/// What an action request on API Gateway v2 asks for.
pub open spec fn action_plan(request: ServiceActionRequest) -> Result<PlannedView, ErrorView> {
    let a = request.action@;
    if a == "create_api"@ {
        then_text(
            required_text(request, "api_name"@),
            |api_name: Seq<char>|
                {
                    let protocol_type = upper_text(text_or(optional_text(request, "protocol_type"@), "HTTP"@));
                    planned_call(a, seq![api_name, protocol_type], seq![])
                },
        )
    } else if a == "create_route"@ {
        then_text(
            selected_resource(request, "api/"@),
            |api_id: Seq<char>|
                then_text(
                    required_text(request, "route_key"@),
                    |route_key: Seq<char>|
                        {
                            let target = optional_text(request, "target"@);
                            planned_call(a, seq![api_id, route_key, text_or_empty(target)], seq![])
                        },
                ),
        )
    } else if a == "create_integration"@ {
        then_text(
            selected_resource(request, "api/"@),
            |api_id: Seq<char>|
                then_text(
                    required_text(request, "integration_uri"@),
                    |integration_uri: Seq<char>|
                        {
                            let integration_method = upper_text(text_or(optional_text(request, "integration_method"@), "POST"@));
                            planned_call(a, seq![api_id, integration_uri, integration_method], seq![])
                        },
                ),
        )
    } else if a == "create_deployment"@ {
        then_text(
            selected_resource(request, "api/"@),
            |api_id: Seq<char>|
                planned_call(a, seq![api_id], seq![]),
        )
    } else if a == "delete_api"@ {
        then_text(
            typed_confirmation(request),
            |api_name: Seq<char>|
                then_text(
                    selected_resource(request, "api/"@),
                    |api_id: Seq<char>|
                        planned_call(a, seq![api_name, api_id], seq![]),
                ),
        )
    } else {
        Err(unsupported_action_error(request))
    }
}

/// Validates an action request on API Gateway v2 and decides what to do.
pub fn plan_action(request: &ServiceActionRequest) -> (r: Result<Planned<Call>, ServiceManagementError>)
    requires
        request.payload.wf(),
    ensures
        planned_outcome(r) == action_plan(*request),
        r matches Ok(Planned::Call(Call::CreateApi { api_name, .. })) ==> {
            &&& request.action@ == "create_api"@
            &&& required_text(*request, "api_name"@) == Ok::<Seq<char>, ErrorView>(api_name@)
        },
        r matches Ok(Planned::Call(Call::CreateRoute { api_id, route_key, .. })) ==> {
            &&& request.action@ == "create_route"@
            &&& selected_resource(*request, "api/"@) == Ok::<Seq<char>, ErrorView>(api_id@)
            &&& required_text(*request, "route_key"@) == Ok::<Seq<char>, ErrorView>(route_key@)
        },
        r matches Ok(Planned::Call(Call::CreateIntegration { api_id, integration_uri, .. })) ==> {
            &&& request.action@ == "create_integration"@
            &&& selected_resource(*request, "api/"@) == Ok::<Seq<char>, ErrorView>(api_id@)
            &&& required_text(*request, "integration_uri"@) == Ok::<Seq<char>, ErrorView>(integration_uri@)
        },
        r matches Ok(Planned::Call(Call::CreateDeployment { api_id })) ==> {
            &&& request.action@ == "create_deployment"@
            &&& selected_resource(*request, "api/"@) == Ok::<Seq<char>, ErrorView>(api_id@)
        },
        r matches Ok(Planned::Call(Call::DeleteApi { api_name, api_id })) ==> {
            &&& request.action@ == "delete_api"@
            &&& typed_confirmation(*request) == Ok::<Seq<char>, ErrorView>(api_name@)
            &&& selected_resource(*request, "api/"@) == Ok::<Seq<char>, ErrorView>(api_id@)
        },
{
    let action = request.action.as_str();
    if text_eq(action, "create_api") {
        let api_name = require_name_payload(request, "api_name")?;
        let protocol_type = optional_payload_text_or(request, "protocol_type", "HTTP");
        let protocol_type = upper_text_exec(protocol_type.as_str());
        Ok(Planned::Call(Call::CreateApi { api_name, protocol_type }))
    } else if text_eq(action, "create_route") {
        let api_id = require_resource_id(request, "api/")?;
        let route_key = require_payload_text(request, "route_key")?;
        let target = optional_payload_text(request, "target");
        Ok(Planned::Call(Call::CreateRoute { api_id, route_key, target }))
    } else if text_eq(action, "create_integration") {
        let api_id = require_resource_id(request, "api/")?;
        let integration_uri = require_payload_text(request, "integration_uri")?;
        let integration_method = optional_payload_text_or(request, "integration_method", "POST");
        let integration_method = upper_text_exec(integration_method.as_str());
        Ok(Planned::Call(Call::CreateIntegration { api_id, integration_uri, integration_method }))
    } else if text_eq(action, "create_deployment") {
        let api_id = require_resource_id(request, "api/")?;
        Ok(Planned::Call(Call::CreateDeployment { api_id }))
    } else if text_eq(action, "delete_api") {
        let api_name = require_typed_confirmation(request)?;
        let api_id = require_resource_id(request, "api/")?;
        Ok(Planned::Call(Call::DeleteApi { api_name, api_id }))
    } else {
        Err(unsupported_action(request))
    }
}

/// The result of `call` once it succeeded with `reply`.
pub open spec fn result_of(call: Call, reply: CallReply) -> ActionResultView {
    match call {
        Call::CreateApi { api_name, .. } => result_view(
            true,
            "Created API Gateway v2 API `"@ + api_name@ + "`."@,
            (match reply.value.deep_view() {
                            Some(v) => Some("api/"@ + v),
                            None => None,
                        }),
        ),
        Call::CreateRoute { route_key, api_id, .. } => result_view(
            true,
            "Created API Gateway route `"@ + route_key@ + "`."@,
            (match reply.value.deep_view() {
                            Some(v) => Some("route/"@ + api_id@ + "/"@ + v),
                            None => None,
                        }),
        ),
        Call::CreateIntegration { integration_method, api_id, .. } => result_view(
            true,
            "Created `"@ + integration_method@ + "` integration."@,
            (match reply.value.deep_view() {
                            Some(v) => Some("integration/"@ + api_id@ + "/"@ + v),
                            None => None,
                        }),
        ),
        Call::CreateDeployment { api_id } => result_view(
            true,
            "Created API Gateway v2 deployment."@,
            (match reply.value.deep_view() {
                            Some(v) => Some("deployment/"@ + api_id@ + "/"@ + v),
                            None => None,
                        }),
        ),
        Call::DeleteApi { api_name, api_id } => result_view(
            true,
            "Deleted API Gateway v2 API `"@ + api_name@ + "`."@,
            Some("api/"@ + api_id@),
        ),
    }
}

/// The result reported once `call` succeeded with `reply`.
pub fn completed(call: &Call, reply: &CallReply) -> (r: ActionResult)
    ensures
        r@ == result_of(*call, *reply),
{
    match call {
        Call::CreateApi { api_name, .. } => {
            let mut message = String::from_str("Created API Gateway v2 API `");
            message.append(api_name.as_str());
            message.append("`.");
            let t1 = match &reply.value {
                Some(v) => {
                    let mut id = String::from_str("api/");
                    id.append(v.as_str());
                    Some(id)
                },
                None => None,
            };
            action_result(true, message, t1)
        },
        Call::CreateRoute { route_key, api_id, .. } => {
            let mut message = String::from_str("Created API Gateway route `");
            message.append(route_key.as_str());
            message.append("`.");
            let t1 = match &reply.value {
                Some(v) => {
                    let mut id = String::from_str("route/");
                    id.append(api_id.as_str());
                    id.append("/");
                    id.append(v.as_str());
                    Some(id)
                },
                None => None,
            };
            action_result(true, message, t1)
        },
        Call::CreateIntegration { integration_method, api_id, .. } => {
            let mut message = String::from_str("Created `");
            message.append(integration_method.as_str());
            message.append("` integration.");
            let t1 = match &reply.value {
                Some(v) => {
                    let mut id = String::from_str("integration/");
                    id.append(api_id.as_str());
                    id.append("/");
                    id.append(v.as_str());
                    Some(id)
                },
                None => None,
            };
            action_result(true, message, t1)
        },
        Call::CreateDeployment { api_id } => {
            let message = String::from_str("Created API Gateway v2 deployment.");
            let t1 = match &reply.value {
                Some(v) => {
                    let mut id = String::from_str("deployment/");
                    id.append(api_id.as_str());
                    id.append("/");
                    id.append(v.as_str());
                    Some(id)
                },
                None => None,
            };
            action_result(true, message, t1)
        },
        Call::DeleteApi { api_name, api_id } => {
            let mut message = String::from_str("Deleted API Gateway v2 API `");
            message.append(api_name.as_str());
            message.append("`.");
            let mut id = String::from_str("api/");
            id.append(api_id.as_str());
            action_result(true, message, Some(id))
        },
    }
}

/// Every call planned for an action request performs the requested action.
pub proof fn lemma_plan_performs_requested_action(request: ServiceActionRequest)
    ensures
        action_plan(request) matches Ok(PlannedView::Call(c)) ==> c.name == request.action@,
{
}

/// A destructive action is only planned once the typed confirmation matches.
pub proof fn lemma_destructive_actions_are_confirmed(request: ServiceActionRequest)
    ensures
        action_plan(request) is Ok && destructive(request.action@) ==> typed_confirmation(request) is Ok,
{
    reveal_strlit("create_api");
    lemma_not_destructive("create_api"@);
    reveal_strlit("create_route");
    lemma_not_destructive("create_route"@);
    reveal_strlit("create_integration");
    lemma_not_destructive("create_integration"@);
    reveal_strlit("create_deployment");
    lemma_not_destructive("create_deployment"@);
}

/// The operations the API Gateway v2 page lists as unavailable.
pub open spec fn unsupported_operations() -> Seq<Seq<char>> {
    seq!["authorizer_identity_redacted"@]
}

/// The name under which the service's inventory page is shown.
pub open spec fn label() -> Seq<char> {
    "API Gateway v2"@
}

/// How far this adapter supports the service: it manages its resources.
pub open spec fn support_level() -> ServiceSupportLevel {
    ServiceSupportLevel::Managed
}

/// The API Gateway v2 inventory page: the listed `resources` under the API Gateway v2 tabs, refreshed
/// at `refreshed_at`.
pub fn inventory(
    resources: Vec<ResourceSummary>,
    refreshed_at: String,
) -> (inv: ServiceInventory)
    ensures
        inv@ == (InventoryView {
            service_key: "apigatewayv2"@,
            service_label: label(),
            support_level: support_level(),
            refreshed_at: refreshed_at@,
            tabs: inventory_tabs(),
            resources: summary_views(resources@),
            unsupported_operations: unsupported_operations(),
        }),
{
    let mut ops: Vec<String> = Vec::new();
    ops.push(String::from_str("authorizer_identity_redacted"));
    proof {
        assert(ops.deep_view() =~= unsupported_operations());
    }
    build_inventory(
        "apigatewayv2",
        "API Gateway v2",
        ServiceSupportLevel::Managed,
        refreshed_at,
        tabs(),
        resources,
        ops,
    )
}

} // verus!
