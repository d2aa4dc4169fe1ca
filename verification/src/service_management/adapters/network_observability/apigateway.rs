//! API Gateway.
use vstd::prelude::*;
use vstd::string::*;

use crate::service_management::actions::{
    require_name_payload, require_typed_confirmation, required_text, typed_confirmation,
};
use crate::service_management::adapters::payload::{
    optional_payload_text_or, optional_text, require_payload_text, require_resource_id,
    selected_resource,
};
use crate::service_management::adapters::{
    action_result, attributes_from, bool_text, bool_to_text, build_inventory, call_of, destructive,
    lemma_not_destructive, pair_views, pairs_map, planned_call, planned_outcome, put_attr,
    result_view, shows, shows_tagged, summary, tagged_summary, text_or, text_or_default, texts_of,
    then_text, unsupported_action, unsupported_action_error, with_attr, CallReply, CallView,
    Planned, PlannedView,
};
use crate::service_management::errors::{ErrorView, ServiceManagementError};
use crate::service_management::models::{
    single_kind_tab, summary_views, tab, tab_views, ActionResult, ActionResultView, InventoryView,
    ResourceSummary, ResourceTab, ServiceActionRequest, ServiceInventory, ServiceSupportLevel,
    TabView,
};
use crate::service_management::text_map::TextMap;
use crate::text::{concat2, concat3, concat4, concat5, text_eq, upper_text, upper_text_exec};
use crate::service_management::adapters::payload::pair_outcome;
use crate::service_management::errors::invalid_input_error;
use crate::text::{head_piece, split_head, tail_piece};
use crate::text::{has_char, lemma_split_once_after};
use crate::service_management::adapters::network_observability::{
    redacted_note, redacted_value_marker,
};

verus! {

/// The tabs of the API Gateway inventory page.
pub open spec fn inventory_tabs() -> Seq<TabView> {
    seq![
        single_kind_tab("rest-apis"@, "REST APIs"@, "rest-api"@, "No REST APIs were found in the local emulator."@),
        single_kind_tab("resources"@, "Resources"@, "resource"@, "No REST API resources are loaded."@),
        single_kind_tab("methods"@, "Methods"@, "method"@, "No REST API methods are loaded."@),
        single_kind_tab("integrations"@, "Integrations"@, "integration"@, "No REST API integrations are loaded."@),
        single_kind_tab("deployments"@, "Deployments"@, "deployment"@, "No REST API deployments are loaded."@),
        single_kind_tab("stages"@, "Stages"@, "stage"@, "No REST API stages are loaded."@),
    ]
}

/// The tabs of the API Gateway inventory page.
pub fn tabs() -> (t: Vec<ResourceTab>)
    ensures
        tab_views(t@) == inventory_tabs(),
{
    let mut t: Vec<ResourceTab> = Vec::new();
    t.push(tab("rest-apis", "REST APIs", "rest-api", "No REST APIs were found in the local emulator."));
    t.push(tab("resources", "Resources", "resource", "No REST API resources are loaded."));
    t.push(tab("methods", "Methods", "method", "No REST API methods are loaded."));
    t.push(tab("integrations", "Integrations", "integration", "No REST API integrations are loaded."));
    t.push(tab("deployments", "Deployments", "deployment", "No REST API deployments are loaded."));
    t.push(tab("stages", "Stages", "stage", "No REST API stages are loaded."));
    assert(tab_views(t@) =~= inventory_tabs());
    t
}

/// The REST API and resource named by the selected `resource/<api>/<resource>` id.
pub open spec fn api_resource_selection(request: ServiceActionRequest) -> Result<(Seq<char>, Seq<char>), ErrorView> {
    match selected_resource(request, "resource/"@) {
        Ok(v) => {
            let api_id = head_piece(v, "/"@);
            let resource_id = tail_piece(v, "/"@);
            if api_id.len() == 0 || resource_id.len() == 0 {
                Err(
                    invalid_input_error(
                        request.service_key@,
                        request.action@,
                        "Select a REST API resource before running this action."@,
                    ),
                )
            } else {
                Ok((api_id, resource_id))
            }
        },
        Err(e) => Err(e),
    }
}

/// The REST API and resource of the selected resource.
pub fn selected_api_resource(request: &ServiceActionRequest) -> (r: Result<(String, String), ServiceManagementError>)
    ensures
        pair_outcome(r) == api_resource_selection(*request),
{
    let selected = require_resource_id(request, "resource/")?;
    let (api_id, resource_id) = split_head(selected.as_str(), "/");
    if api_id.unicode_len() == 0 || resource_id.unicode_len() == 0 {
        return Err(
            ServiceManagementError::invalid_input(
                request.service_key.as_str(),
                request.action.as_str(),
                "Select a REST API resource before running this action.",
            ),
        );
    }
    Ok((api_id, resource_id))
}

/// The REST API, resource and HTTP method named by the selected
/// `method/<api>/<resource>/<method>` id.
pub open spec fn method_selection(request: ServiceActionRequest) -> Result<
    (Seq<char>, Seq<char>, Seq<char>),
    ErrorView,
> {
    match selected_resource(request, "method/"@) {
        Ok(v) => {
            let api_id = head_piece(v, "/"@);
            let rest = tail_piece(v, "/"@);
            let resource_id = head_piece(rest, "/"@);
            let http_method = tail_piece(rest, "/"@);
            if api_id.len() == 0 || resource_id.len() == 0 || http_method.len() == 0 {
                Err(
                    invalid_input_error(
                        request.service_key@,
                        request.action@,
                        "Select a REST API method before running this action."@,
                    ),
                )
            } else {
                Ok((api_id, resource_id, http_method))
            }
        },
        Err(e) => Err(e),
    }
}

/// The view of a triple-or-error outcome.
pub open spec fn triple_outcome(r: Result<(String, String, String), ServiceManagementError>) -> Result<
    (Seq<char>, Seq<char>, Seq<char>),
    ErrorView,
> {
    match r {
        Ok(t) => Ok((t.0@, t.1@, t.2@)),
        Err(e) => Err(e@),
    }
}

/// The REST API, resource and HTTP method of the selected method.
pub fn selected_method(request: &ServiceActionRequest) -> (r: Result<(String, String, String), ServiceManagementError>)
    ensures
        triple_outcome(r) == method_selection(*request),
{
    let selected = require_resource_id(request, "method/")?;
    let (api_id, rest) = split_head(selected.as_str(), "/");
    let (resource_id, http_method) = split_head(rest.as_str(), "/");
    if api_id.unicode_len() == 0 || resource_id.unicode_len() == 0 || http_method.unicode_len() == 0 {
        return Err(
            ServiceManagementError::invalid_input(
                request.service_key.as_str(),
                request.action.as_str(),
                "Select a REST API method before running this action.",
            ),
        );
    }
    Ok((api_id, resource_id, http_method))
}

/// The id under which a method is listed: `method/<api>/<resource>/<method>`.
pub open spec fn method_id_text(api_id: Seq<char>, resource_id: Seq<char>, http_method: Seq<char>) -> Seq<char> {
    "method/"@ + api_id + "/"@ + resource_id + "/"@ + http_method
}

/// A method listed by the inventory, or added by an action, is selected again
/// by an action on it, when the API and resource ids hold no `/` and no part is empty.
pub proof fn lemma_listed_method_is_selectable(
    request: ServiceActionRequest,
    api_id: Seq<char>,
    resource_id: Seq<char>,
    http_method: Seq<char>,
)
    requires
        request.resource_id matches Some(id) && id@ == method_id_text(api_id, resource_id, http_method),
        !has_char(api_id, '/'),
        !has_char(resource_id, '/'),
        api_id.len() > 0,
        resource_id.len() > 0,
        http_method.len() > 0,
    ensures
        method_selection(request) == Ok::<(Seq<char>, Seq<char>, Seq<char>), ErrorView>(
            (api_id, resource_id, http_method),
        ),
{
    reveal_strlit("method/");
    reveal_strlit("/");
    let id = request.resource_id->Some_0@;
    let rest = resource_id + "/"@ + http_method;
    let body = api_id + "/"@ + rest;
    assert(id =~= "method/"@ + body);
    assert(id.subrange(0, 7) =~= "method/"@);
    assert(id.subrange(7, id.len() as int) =~= body);
    lemma_split_once_after(api_id, "/"@, rest);
    lemma_split_once_after(resource_id, "/"@, http_method);
}

/// The resource listed for one resource of a REST API: named by its path,
/// or by its id when it has none.
pub fn rest_resource_summary(
    api_id: &str,
    resource_id: &str,
    parent_id: Option<String>,
    path_part: Option<String>,
    path: Option<String>,
) -> (r: ResourceSummary)
    ensures
        r.wf(),
        shows(
            r@,
            "resource/"@ + api_id@ + "/"@ + resource_id@,
            text_or(path.deep_view(), resource_id@),
            "resource"@,
            "available"@,
            None,
            None,
            with_attr(
                with_attr(
                    with_attr(map!["api_id"@ => api_id@], "parent_id"@, parent_id.deep_view()),
                    "path_part"@,
                    path_part.deep_view(),
                ),
                "path"@,
                path.deep_view(),
            ),
        ),
{
    let name = match &path {
        Some(p) => p.clone(),
        None => String::from_str(resource_id),
    };
    let mut attributes: TextMap<String> = TextMap::new();
    attributes.insert(String::from_str("api_id"), String::from_str(api_id));
    proof {
        assert(texts_of(attributes@) =~= map!["api_id"@ => api_id@]);
    }
    put_attr(&mut attributes, "parent_id", parent_id);
    put_attr(&mut attributes, "path_part", path_part);
    put_attr(&mut attributes, "path", path);
    let mut id = concat3("resource/", api_id, "/");
    id.append(resource_id);
    summary(id, name, "resource", String::from_str("available"), None, None, attributes)
}

/// The attributes every method entry of a resource carries.
pub open spec fn method_base(api_id: Seq<char>, resource_id: Seq<char>, path: Seq<char>) -> Map<Seq<char>, Seq<char>> {
    map!["api_id"@ => api_id, "resource_id"@ => resource_id, "path"@ => path]
}

fn method_base_attributes(api_id: &str, resource_id: &str, path: &str) -> (m: TextMap<String>)
    ensures
        m.wf(),
        texts_of(m@) == method_base(api_id@, resource_id@, path@),
{
    let mut m: TextMap<String> = TextMap::new();
    m.insert(String::from_str("api_id"), String::from_str(api_id));
    m.insert(String::from_str("resource_id"), String::from_str(resource_id));
    m.insert(String::from_str("path"), String::from_str(path));
    proof {
        assert(texts_of(m@) =~= method_base(api_id@, resource_id@, path@));
    }
    m
}

/// The resource listed for one HTTP method of a REST API resource; its status
/// is the method's authorization type, `NONE` when it has none.
pub fn method_summary(
    api_id: &str,
    resource_id: &str,
    path: &str,
    http_method: &str,
    authorization_type: Option<String>,
    api_key_required: Option<bool>,
) -> (r: ResourceSummary)
    ensures
        r.wf(),
        shows(
            r@,
            method_id_text(api_id@, resource_id@, http_method@),
            http_method@ + " "@ + path@,
            "method"@,
            text_or(authorization_type.deep_view(), "NONE"@),
            None,
            None,
            with_attr(
                with_attr(method_base(api_id@, resource_id@, path@), "authorization_type"@, authorization_type.deep_view()),
                "api_key_required"@,
                match api_key_required {
                    Some(b) => Some(bool_text(b)),
                    None => None,
                },
            ),
        ),
{
    let status = match &authorization_type {
        Some(a) => a.clone(),
        None => String::from_str("NONE"),
    };
    let mut attributes = method_base_attributes(api_id, resource_id, path);
    put_attr(&mut attributes, "authorization_type", authorization_type);
    let key_required = match api_key_required {
        Some(b) => Some(bool_to_text(b)),
        None => None,
    };
    put_attr(&mut attributes, "api_key_required", key_required);
    let mut id = concat5("method/", api_id, "/", resource_id, "/");
    id.append(http_method);
    summary(id, concat3(http_method, " ", path), "method", status, None, None, attributes)
}

/// The resource listed for the integration of a method. Credentials are never
/// shown: when the integration has some, the `credentials` attribute only holds
/// the redaction note.
pub fn integration_summary(
    api_id: &str,
    resource_id: &str,
    path: &str,
    http_method: &str,
    integration_type: Option<String>,
    integration_method: Option<String>,
    uri: Option<String>,
    has_credentials: bool,
) -> (r: ResourceSummary)
    ensures
        r.wf(),
        shows(
            r@,
            "integration/"@ + api_id@ + "/"@ + resource_id@ + "/"@ + http_method@,
            http_method@ + " "@ + path@ + " integration"@,
            "integration"@,
            text_or(integration_type.deep_view(), "configured"@),
            None,
            None,
            with_attr(
                with_attr(
                    with_attr(
                        with_attr(
                            method_base(api_id@, resource_id@, path@).insert("http_method"@, http_method@),
                            "integration_type"@,
                            integration_type.deep_view(),
                        ),
                        "integration_method"@,
                        integration_method.deep_view(),
                    ),
                    "uri"@,
                    uri.deep_view(),
                ),
                "credentials"@,
                if has_credentials { Some(redacted_note()) } else { None },
            ),
        ),
{
    let status = match &integration_type {
        Some(t) => t.clone(),
        None => String::from_str("configured"),
    };
    let mut attributes = method_base_attributes(api_id, resource_id, path);
    let ghost before = attributes@;
    attributes.insert(String::from_str("http_method"), String::from_str(http_method));
    proof {
        assert(texts_of(attributes@) =~= texts_of(before).insert("http_method"@, http_method@));
    }
    put_attr(&mut attributes, "integration_type", integration_type);
    put_attr(&mut attributes, "integration_method", integration_method);
    put_attr(&mut attributes, "uri", uri);
    let note = if has_credentials {
        Some(redacted_value_marker())
    } else {
        None
    };
    put_attr(&mut attributes, "credentials", note);
    let mut id = concat5("integration/", api_id, "/", resource_id, "/");
    id.append(http_method);
    let mut name = concat3(http_method, " ", path);
    name.append(" integration");
    summary(id, name, "integration", status, None, None, attributes)
}

/// The attributes listed for a REST API.
pub open spec fn rest_api_attributes(
    description: Option<Seq<char>>,
    version: Option<Seq<char>>,
    root_resource_id: Option<Seq<char>>,
    disable_execute_api_endpoint: bool,
    api_status: Option<Seq<char>>,
) -> Map<Seq<char>, Seq<char>> {
    let m = with_attr(Map::empty(), "description"@, description);
    let m = with_attr(m, "version"@, version);
    let m = with_attr(m, "root_resource_id"@, root_resource_id);
    let m = m.insert("disable_execute_api_endpoint"@, bool_text(disable_execute_api_endpoint));
    with_attr(m, "api_status"@, api_status)
}

/// The resource listed for a REST API: named by its name, or else its id, in
/// its API status (`available` when it reports none), with its tags.
pub fn rest_api_summary(
    api_id: &str,
    name: Option<String>,
    api_status: Option<String>,
    created_at: Option<String>,
    description: Option<String>,
    version: Option<String>,
    root_resource_id: Option<String>,
    disable_execute_api_endpoint: bool,
    tags: &Vec<(String, String)>,
) -> (r: ResourceSummary)
    ensures
        r.wf(),
        shows_tagged(
            r@,
            "rest-api/"@ + api_id@,
            text_or(name.deep_view(), api_id@),
            "rest-api"@,
            text_or(api_status.deep_view(), "available"@),
            created_at.deep_view(),
            pairs_map(pair_views(tags@)),
            rest_api_attributes(
                description.deep_view(),
                version.deep_view(),
                root_resource_id.deep_view(),
                disable_execute_api_endpoint,
                api_status.deep_view(),
            ),
        ),
{
    let ghost views = (description.deep_view(), version.deep_view(), root_resource_id.deep_view(), api_status.deep_view());
    let status = match &api_status {
        Some(s) => s.clone(),
        None => String::from_str("available"),
    };
    let mut attributes: TextMap<String> = TextMap::new();
    assert(texts_of(attributes@) =~= Map::<Seq<char>, Seq<char>>::empty());
    put_attr(&mut attributes, "description", description);
    put_attr(&mut attributes, "version", version);
    put_attr(&mut attributes, "root_resource_id", root_resource_id);
    let ghost before = attributes@;
    let flag = bool_to_text(disable_execute_api_endpoint);
    let ghost f = flag@;
    attributes.insert(String::from_str("disable_execute_api_endpoint"), flag);
    assert(texts_of(attributes@) =~= texts_of(before).insert("disable_execute_api_endpoint"@, f));
    put_attr(&mut attributes, "api_status", api_status);
    assert(texts_of(attributes@) == rest_api_attributes(views.0, views.1, views.2, disable_execute_api_endpoint, views.3));
    tagged_summary(
        concat2("rest-api/", api_id),
        text_or_default(name, api_id),
        "rest-api",
        status,
        created_at,
        attributes_from(tags),
        attributes,
    )
}

/// The resource listed for a stage of a REST API; its last update is shown as
/// the update time.
pub fn stage_summary(
    api_id: &str,
    stage_name: &str,
    deployment_id: Option<String>,
    description: Option<String>,
    last_updated: Option<String>,
) -> (r: ResourceSummary)
    ensures
        r.wf(),
        shows(
            r@,
            "stage/"@ + api_id@ + "/"@ + stage_name@,
            stage_name@,
            "stage"@,
            "deployed"@,
            None,
            last_updated.deep_view(),
            with_attr(
                with_attr(map!["api_id"@ => api_id@], "deployment_id"@, deployment_id.deep_view()),
                "description"@,
                description.deep_view(),
            ),
        ),
{
    let mut attributes: TextMap<String> = TextMap::new();
    attributes.insert(String::from_str("api_id"), String::from_str(api_id));
    assert(texts_of(attributes@) =~= map!["api_id"@ => api_id@]);
    put_attr(&mut attributes, "deployment_id", deployment_id);
    put_attr(&mut attributes, "description", description);
    summary(
        concat4("stage/", api_id, "/", stage_name),
        String::from_str(stage_name),
        "stage",
        String::from_str("deployed"),
        None,
        last_updated,
        attributes,
    )
}

/// A call to API Gateway, with its validated inputs.
#[derive(Debug, Clone)]
pub enum Call {
    CreateRestApi { api_name: String },
    CreateResource { api_id: String, parent_id: String, path_part: String },
    PutMethod { api_id: String, resource_id: String, http_method: String },
    PutIntegration { api_id: String, resource_id: String, http_method: String, integration_uri: String, integration_method: String },
    CreateDeployment { api_id: String, stage_name: String },
    DeleteRestApi { api_name: String, api_id: String },
}

impl View for Call {
    type V = CallView;

    open spec fn view(&self) -> CallView {
        match self {
            Call::CreateRestApi { api_name } => call_of(
                "create_rest_api"@,
                seq![api_name@],
                seq![],
            ),
            Call::CreateResource { api_id, parent_id, path_part } => call_of(
                "create_resource"@,
                seq![api_id@, parent_id@, path_part@],
                seq![],
            ),
            Call::PutMethod { api_id, resource_id, http_method } => call_of(
                "put_method"@,
                seq![api_id@, resource_id@, http_method@],
                seq![],
            ),
            Call::PutIntegration { api_id, resource_id, http_method, integration_uri, integration_method } => call_of(
                "put_integration"@,
                seq![api_id@, resource_id@, http_method@, integration_uri@, integration_method@],
                seq![],
            ),
            Call::CreateDeployment { api_id, stage_name } => call_of(
                "create_deployment"@,
                seq![api_id@, stage_name@],
                seq![],
            ),
            Call::DeleteRestApi { api_name, api_id } => call_of(
                "delete_rest_api"@,
                seq![api_name@, api_id@],
                seq![],
            ),
        }
    }
}

/// What an action request on API Gateway asks for.
pub open spec fn action_plan(request: ServiceActionRequest) -> Result<PlannedView, ErrorView> {
    let a = request.action@;
    if a == "create_rest_api"@ {
        then_text(
            required_text(request, "api_name"@),
            |api_name: Seq<char>|
                planned_call(a, seq![api_name], seq![]),
        )
    } else if a == "create_resource"@ {
        match api_resource_selection(request) {
            Ok(p) => {
                let api_id = p.0;
                let parent_id = p.1;
                then_text(
                    required_text(request, "path_part"@),
                    |path_part: Seq<char>|
                        planned_call(a, seq![api_id, parent_id, path_part], seq![]),
                )
            },
            Err(e) => Err(e),
        }
    } else if a == "put_method"@ {
        match api_resource_selection(request) {
            Ok(p) => {
                let api_id = p.0;
                let resource_id = p.1;
                {
                    let http_method = upper_text(text_or(optional_text(request, "http_method"@), "GET"@));
                    planned_call(a, seq![api_id, resource_id, http_method], seq![])
                }
            },
            Err(e) => Err(e),
        }
    } else if a == "put_integration"@ {
        match method_selection(request) {
            Ok(p) => {
                let api_id = p.0;
                let resource_id = p.1;
                let http_method = p.2;
                then_text(
                    required_text(request, "integration_uri"@),
                    |integration_uri: Seq<char>|
                        {
                            let integration_method = upper_text(text_or(optional_text(request, "integration_method"@), "POST"@));
                            planned_call(a, seq![api_id, resource_id, http_method, integration_uri, integration_method], seq![])
                        },
                )
            },
            Err(e) => Err(e),
        }
    } else if a == "create_deployment"@ {
        then_text(
            selected_resource(request, "rest-api/"@),
            |api_id: Seq<char>|
                {
                    let stage_name = text_or(optional_text(request, "stage_name"@), "local"@);
                    planned_call(a, seq![api_id, stage_name], seq![])
                },
        )
    } else if a == "delete_rest_api"@ {
        then_text(
            typed_confirmation(request),
            |api_name: Seq<char>|
                then_text(
                    selected_resource(request, "rest-api/"@),
                    |api_id: Seq<char>|
                        planned_call(a, seq![api_name, api_id], seq![]),
                ),
        )
    } else {
        Err(unsupported_action_error(request))
    }
}

/// Validates an action request on API Gateway and decides what to do.
pub fn plan_action(request: &ServiceActionRequest) -> (r: Result<Planned<Call>, ServiceManagementError>)
    requires
        request.payload.wf(),
    ensures
        planned_outcome(r) == action_plan(*request),
        r matches Ok(Planned::Call(Call::CreateRestApi { api_name })) ==> {
            &&& request.action@ == "create_rest_api"@
            &&& required_text(*request, "api_name"@) == Ok::<Seq<char>, ErrorView>(api_name@)
        },
        r matches Ok(Planned::Call(Call::CreateResource { path_part, .. })) ==> {
            &&& request.action@ == "create_resource"@
            &&& required_text(*request, "path_part"@) == Ok::<Seq<char>, ErrorView>(path_part@)
        },
        r matches Ok(Planned::Call(Call::PutIntegration { integration_uri, .. })) ==> {
            &&& request.action@ == "put_integration"@
            &&& required_text(*request, "integration_uri"@) == Ok::<Seq<char>, ErrorView>(integration_uri@)
        },
        r matches Ok(Planned::Call(Call::CreateDeployment { api_id, .. })) ==> {
            &&& request.action@ == "create_deployment"@
            &&& selected_resource(*request, "rest-api/"@) == Ok::<Seq<char>, ErrorView>(api_id@)
        },
        r matches Ok(Planned::Call(Call::DeleteRestApi { api_name, api_id })) ==> {
            &&& request.action@ == "delete_rest_api"@
            &&& typed_confirmation(*request) == Ok::<Seq<char>, ErrorView>(api_name@)
            &&& selected_resource(*request, "rest-api/"@) == Ok::<Seq<char>, ErrorView>(api_id@)
        },
{
    let action = request.action.as_str();
    if text_eq(action, "create_rest_api") {
        let api_name = require_name_payload(request, "api_name")?;
        Ok(Planned::Call(Call::CreateRestApi { api_name }))
    } else if text_eq(action, "create_resource") {
        let (api_id, parent_id) = selected_api_resource(request)?;
        let path_part = require_payload_text(request, "path_part")?;
        Ok(Planned::Call(Call::CreateResource { api_id, parent_id, path_part }))
    } else if text_eq(action, "put_method") {
        let (api_id, resource_id) = selected_api_resource(request)?;
        let http_method = optional_payload_text_or(request, "http_method", "GET");
        let http_method = upper_text_exec(http_method.as_str());
        Ok(Planned::Call(Call::PutMethod { api_id, resource_id, http_method }))
    } else if text_eq(action, "put_integration") {
        let (api_id, resource_id, http_method) = selected_method(request)?;
        let integration_uri = require_payload_text(request, "integration_uri")?;
        let integration_method = optional_payload_text_or(request, "integration_method", "POST");
        let integration_method = upper_text_exec(integration_method.as_str());
        Ok(Planned::Call(Call::PutIntegration { api_id, resource_id, http_method, integration_uri, integration_method }))
    } else if text_eq(action, "create_deployment") {
        let api_id = require_resource_id(request, "rest-api/")?;
        let stage_name = optional_payload_text_or(request, "stage_name", "local");
        Ok(Planned::Call(Call::CreateDeployment { api_id, stage_name }))
    } else if text_eq(action, "delete_rest_api") {
        let api_name = require_typed_confirmation(request)?;
        let api_id = require_resource_id(request, "rest-api/")?;
        Ok(Planned::Call(Call::DeleteRestApi { api_name, api_id }))
    } else {
        Err(unsupported_action(request))
    }
}

/// The result of `call` once it succeeded with `reply`.
pub open spec fn result_of(call: Call, reply: CallReply) -> ActionResultView {
    match call {
        Call::CreateRestApi { api_name } => result_view(
            true,
            "Created REST API `"@ + api_name@ + "`."@,
            (match reply.value.deep_view() {
                            Some(v) => Some("rest-api/"@ + v),
                            None => None,
                        }),
        ),
        Call::CreateResource { path_part, api_id, .. } => result_view(
            true,
            "Created REST resource `"@ + path_part@ + "`."@,
            (match reply.value.deep_view() {
                            Some(v) => Some("resource/"@ + api_id@ + "/"@ + v),
                            None => None,
                        }),
        ),
        Call::PutMethod { http_method, api_id, resource_id } => result_view(
            true,
            "Added `"@ + http_method@ + "` method."@,
            Some("method/"@ + api_id@ + "/"@ + resource_id@ + "/"@ + http_method@),
        ),
        Call::PutIntegration { integration_method, api_id, resource_id, http_method, .. } => result_view(
            true,
            "Added `"@ + integration_method@ + "` integration."@,
            Some("integration/"@ + api_id@ + "/"@ + resource_id@ + "/"@ + http_method@),
        ),
        Call::CreateDeployment { stage_name, api_id } => result_view(
            true,
            "Deployed REST API to stage `"@ + stage_name@ + "`."@,
            (match reply.value.deep_view() {
                            Some(v) => Some("deployment/"@ + api_id@ + "/"@ + v),
                            None => None,
                        }),
        ),
        Call::DeleteRestApi { api_name, api_id } => result_view(
            true,
            "Deleted REST API `"@ + api_name@ + "`."@,
            Some("rest-api/"@ + api_id@),
        ),
    }
}

/// The result reported once `call` succeeded with `reply`.
pub fn completed(call: &Call, reply: &CallReply) -> (r: ActionResult)
    ensures
        r@ == result_of(*call, *reply),
{
    match call {
        Call::CreateRestApi { api_name } => {
            let mut message = String::from_str("Created REST API `");
            message.append(api_name.as_str());
            message.append("`.");
            let t1 = match &reply.value {
                Some(v) => {
                    let mut id = String::from_str("rest-api/");
                    id.append(v.as_str());
                    Some(id)
                },
                None => None,
            };
            action_result(true, message, t1)
        },
        Call::CreateResource { path_part, api_id, .. } => {
            let mut message = String::from_str("Created REST resource `");
            message.append(path_part.as_str());
            message.append("`.");
            let t1 = match &reply.value {
                Some(v) => {
                    let mut id = String::from_str("resource/");
                    id.append(api_id.as_str());
                    id.append("/");
                    id.append(v.as_str());
                    Some(id)
                },
                None => None,
            };
            action_result(true, message, t1)
        },
        Call::PutMethod { http_method, api_id, resource_id } => {
            let mut message = String::from_str("Added `");
            message.append(http_method.as_str());
            message.append("` method.");
            let mut id = String::from_str("method/");
            id.append(api_id.as_str());
            id.append("/");
            id.append(resource_id.as_str());
            id.append("/");
            id.append(http_method.as_str());
            action_result(true, message, Some(id))
        },
        Call::PutIntegration { integration_method, api_id, resource_id, http_method, .. } => {
            let mut message = String::from_str("Added `");
            message.append(integration_method.as_str());
            message.append("` integration.");
            let mut id = String::from_str("integration/");
            id.append(api_id.as_str());
            id.append("/");
            id.append(resource_id.as_str());
            id.append("/");
            id.append(http_method.as_str());
            action_result(true, message, Some(id))
        },
        Call::CreateDeployment { stage_name, api_id } => {
            let mut message = String::from_str("Deployed REST API to stage `");
            message.append(stage_name.as_str());
            message.append("`.");
            let t1 = match &reply.value {
                Some(v) => {
                    let mut id = String::from_str("deployment/");
                    id.append(api_id.as_str());
                    id.append("/");
                    id.append(v.as_str());
                    Some(id)
                },
                None => None,
            };
            action_result(true, message, t1)
        },
        Call::DeleteRestApi { api_name, api_id } => {
            let mut message = String::from_str("Deleted REST API `");
            message.append(api_name.as_str());
            message.append("`.");
            let mut id = String::from_str("rest-api/");
            id.append(api_id.as_str());
            action_result(true, message, Some(id))
        },
    }
}

/// Every call planned for an action request performs the requested action.
pub proof fn lemma_plan_performs_requested_action(request: ServiceActionRequest)
    ensures
        action_plan(request) matches Ok(PlannedView::Call(c)) ==> c.name == request.action@,
{
}

/// A destructive action is only planned once the typed confirmation matches.
pub proof fn lemma_destructive_actions_are_confirmed(request: ServiceActionRequest)
    ensures
        action_plan(request) is Ok && destructive(request.action@) ==> typed_confirmation(request) is Ok,
{
    reveal_strlit("create_rest_api");
    lemma_not_destructive("create_rest_api"@);
    reveal_strlit("create_resource");
    lemma_not_destructive("create_resource"@);
    reveal_strlit("put_method");
    lemma_not_destructive("put_method"@);
    reveal_strlit("put_integration");
    lemma_not_destructive("put_integration"@);
    reveal_strlit("create_deployment");
    lemma_not_destructive("create_deployment"@);
}

/// The operations the API Gateway page lists as unavailable.
pub open spec fn unsupported_operations() -> Seq<Seq<char>> {
    seq!["api_keys_redacted"@]
}

/// The name under which the service's inventory page is shown.
pub open spec fn label() -> Seq<char> {
    "API Gateway"@
}

/// How far this adapter supports the service: it manages its resources.
pub open spec fn support_level() -> ServiceSupportLevel {
    ServiceSupportLevel::Managed
}

/// The API Gateway inventory page: the listed `resources` under the API Gateway tabs, refreshed
/// at `refreshed_at`.
pub fn inventory(
    resources: Vec<ResourceSummary>,
    refreshed_at: String,
) -> (inv: ServiceInventory)
    ensures
        inv@ == (InventoryView {
            service_key: "apigateway"@,
            service_label: label(),
            support_level: support_level(),
            refreshed_at: refreshed_at@,
            tabs: inventory_tabs(),
            resources: summary_views(resources@),
            unsupported_operations: unsupported_operations(),
        }),
{
    let mut ops: Vec<String> = Vec::new();
    ops.push(String::from_str("api_keys_redacted"));
    proof {
        assert(ops.deep_view() =~= unsupported_operations());
    }
    build_inventory(
        "apigateway",
        "API Gateway",
        ServiceSupportLevel::Managed,
        refreshed_at,
        tabs(),
        resources,
        ops,
    )
}

} // verus!
