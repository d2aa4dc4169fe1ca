//! AppConfig.
use vstd::prelude::*;
use vstd::string::*;

use crate::service_management::actions::{require_name_payload, required_text, typed_confirmation};
use crate::service_management::adapters::payload::{
    optional_payload_text_or, optional_text, require_json_payload_text, require_optional_text,
    require_resource_id, required_json, required_optional, selected_resource, split_or_whole,
    split_path,
};
use crate::service_management::adapters::{
    action_result, build_inventory, call_of, destructive, lemma_not_destructive, no_attributes,
    planned_call, planned_outcome, put_attr, put_text, result_view, shows, summary, text_or,
    text_or_default, then_text, unsupported_action, unsupported_action_error, with_attr, CallReply,
    CallView, Planned, PlannedView,
};
use crate::service_management::errors::{ErrorView, ServiceManagementError};
use crate::service_management::models::{
    single_kind_tab, summary_views, tab, tab_views, ActionResult, ActionResultView, InventoryView,
    ResourceSummary, ResourceTab, ServiceActionRequest, ServiceInventory, ServiceSupportLevel,
    TabView,
};
use crate::text::{decimal, int_text, text_eq};
use crate::text::{head_piece, split_head, split_once, split_once_text, tail_piece};
use crate::text::{has_char, lemma_split_once_after};

verus! {

/// The tabs of the AppConfig inventory page.
pub open spec fn inventory_tabs() -> Seq<TabView> {
    seq![
        single_kind_tab("applications"@, "Applications"@, "application"@, "No AppConfig applications were found."@),
        single_kind_tab("environments"@, "Environments"@, "environment"@, "No AppConfig environments were found."@),
        single_kind_tab("profiles"@, "Profiles"@, "configuration-profile"@, "No AppConfig configuration profiles were found."@),
        single_kind_tab("versions"@, "Versions"@, "hosted-version"@, "No hosted configuration versions were found."@),
        single_kind_tab("deployments"@, "Deployments"@, "deployment"@, "No AppConfig deployments were found."@),
    ]
}

/// The tabs of the AppConfig inventory page.
pub fn tabs() -> (t: Vec<ResourceTab>)
    ensures
        tab_views(t@) == inventory_tabs(),
{
    let mut t: Vec<ResourceTab> = Vec::new();
    t.push(tab("applications", "Applications", "application", "No AppConfig applications were found."));
    t.push(tab("environments", "Environments", "environment", "No AppConfig environments were found."));
    t.push(tab("profiles", "Profiles", "configuration-profile", "No AppConfig configuration profiles were found."));
    t.push(tab("versions", "Versions", "hosted-version", "No hosted configuration versions were found."));
    t.push(tab("deployments", "Deployments", "deployment", "No AppConfig deployments were found."));
    assert(tab_views(t@) =~= inventory_tabs());
    t
}

/// Application, configuration profile and version of a hosted version id
/// `<application>/<profile>/<version>`: the pieces of `splitn(3, '/')`, with
/// an empty profile and version `1` for missing pieces.
pub open spec fn version_parts(path: Seq<char>) -> (Seq<char>, Seq<char>, Seq<char>) {
    let rest = tail_piece(path, "/"@);
    let version = match split_once(rest, "/"@) {
        Some(parts) => parts.1,
        None => "1"@,
    };
    (head_piece(path, "/"@), head_piece(rest, "/"@), version)
}

/// Splits a hosted version id into application, profile and version.
pub fn split_version_path(path: &str) -> (r: (String, String, String))
    ensures
        (r.0@, r.1@, r.2@) == version_parts(path@),
{
    let (application_id, rest) = split_head(path, "/");
    let (profile_id, _) = split_head(rest.as_str(), "/");
    let version = match split_once_text(rest.as_str(), "/") {
        Some(parts) => parts.1,
        None => String::from_str("1"),
    };
    (application_id, profile_id, version)
}

/// The id body of a listed hosted version splits back into its application,
/// profile and version number, when neither id holds a `/`.
pub proof fn lemma_listed_version_splits_back(application_id: Seq<char>, profile_id: Seq<char>, version_number: int)
    requires
        !has_char(application_id, '/'),
        !has_char(profile_id, '/'),
    ensures
        version_parts(application_id + "/"@ + profile_id + "/"@ + decimal(version_number)) == (
            application_id,
            profile_id,
            decimal(version_number),
        ),
{
    reveal_strlit("/");
    let version = decimal(version_number);
    let rest = profile_id + "/"@ + version;
    assert(application_id + "/"@ + profile_id + "/"@ + version =~= application_id + "/"@ + rest);
    lemma_split_once_after(application_id, "/"@, rest);
    lemma_split_once_after(profile_id, "/"@, version);
}

/// The attributes listed by [`application_summary`].
pub open spec fn application_attributes(
    description: Option<Seq<char>>,
) -> Map<Seq<char>, Seq<char>> {
    let m = Map::<Seq<char>, Seq<char>>::empty();
    with_attr(m, "description"@, description)
}

/// The resource listed for an application, named by its name or else its id.
pub fn application_summary(
    application_id: &str,
    name: Option<String>,
    description: Option<String>,
) -> (r: ResourceSummary)
    ensures
        r.wf(),
        shows(
            r@,
            "application/"@ + application_id@,
            text_or(name.deep_view(), application_id@),
            "application"@,
            "available"@,
            None,
            None,
            application_attributes(description.deep_view()),
        ),
{
    let mut id = String::from_str("application/");
    id.append(application_id);
    let listed_name = text_or_default(name.clone(), application_id);
    let listed_status = String::from_str("available");
    let mut attributes = no_attributes();
    put_attr(&mut attributes, "description", description);
    summary(id, listed_name, "application", listed_status, None, None, attributes)
}

/// The attributes listed by [`environment_summary`].
pub open spec fn environment_attributes(
    application_id: Seq<char>,
    description: Option<Seq<char>>,
    state: Option<Seq<char>>,
) -> Map<Seq<char>, Seq<char>> {
    let m = Map::<Seq<char>, Seq<char>>::empty();
    let m = m.insert("application_id"@, application_id);
    let m = with_attr(m, "description"@, description);
    with_attr(m, "state"@, state)
}

/// The resource listed for an environment of an application, named by its
/// name or else its id, in its state (`available` when it reports none).
pub fn environment_summary(
    application_id: &str,
    environment_id: &str,
    name: Option<String>,
    description: Option<String>,
    state: Option<String>,
) -> (r: ResourceSummary)
    ensures
        r.wf(),
        shows(
            r@,
            "environment/"@ + application_id@ + "/"@ + environment_id@,
            text_or(name.deep_view(), environment_id@),
            "environment"@,
            text_or(state.deep_view(), "available"@),
            None,
            None,
            environment_attributes(application_id@, description.deep_view(), state.deep_view()),
        ),
{
    let mut id = String::from_str("environment/");
    id.append(application_id);
    id.append("/");
    id.append(environment_id);
    let listed_name = text_or_default(name.clone(), environment_id);
    let listed_status = text_or_default(state.clone(), "available");
    let mut attributes = no_attributes();
    put_text(&mut attributes, "application_id", String::from_str(application_id));
    put_attr(&mut attributes, "description", description);
    put_attr(&mut attributes, "state", state);
    summary(id, listed_name, "environment", listed_status, None, None, attributes)
}

/// The attributes listed by [`deployment_summary`].
pub open spec fn deployment_attributes(
    application_id: Seq<char>,
    environment_id: Seq<char>,
    configuration_version: Option<Seq<char>>,
) -> Map<Seq<char>, Seq<char>> {
    let m = Map::<Seq<char>, Seq<char>>::empty();
    let m = m.insert("application_id"@, application_id);
    let m = m.insert("environment_id"@, environment_id);
    m.insert("configuration_version"@, text_or(configuration_version, "unknown"@))
}

/// The resource listed for a deployment to an environment, named
/// `#<number>`, in its state (`unknown` when it reports none).
pub fn deployment_summary(
    application_id: &str,
    environment_id: &str,
    deployment_number: i64,
    state: Option<String>,
    started_at: Option<String>,
    completed_at: Option<String>,
    configuration_version: Option<String>,
) -> (r: ResourceSummary)
    ensures
        r.wf(),
        shows(
            r@,
            "deployment/"@ + application_id@ + "/"@ + environment_id@ + "/"@ + decimal(deployment_number as int),
            "#"@ + decimal(deployment_number as int),
            "deployment"@,
            text_or(state.deep_view(), "unknown"@),
            started_at.deep_view(),
            completed_at.deep_view(),
            deployment_attributes(
                application_id@,
                environment_id@,
                configuration_version.deep_view(),
            ),
        ),
{
    let mut id = String::from_str("deployment/");
    id.append(application_id);
    id.append("/");
    id.append(environment_id);
    id.append("/");
    let digits = int_text(deployment_number);
    id.append(digits.as_str());
    let mut listed_name = String::from_str("#");
    let digits = int_text(deployment_number);
    listed_name.append(digits.as_str());
    let listed_status = text_or_default(state, "unknown");
    let mut attributes = no_attributes();
    put_text(&mut attributes, "application_id", String::from_str(application_id));
    put_text(&mut attributes, "environment_id", String::from_str(environment_id));
    put_text(&mut attributes, "configuration_version", text_or_default(configuration_version, "unknown"));
    summary(id, listed_name, "deployment", listed_status, started_at, completed_at, attributes)
}

/// The attributes listed by [`configuration_profile_summary`].
pub open spec fn configuration_profile_attributes(
    application_id: Seq<char>,
    location_uri: Option<Seq<char>>,
    profile_type: Option<Seq<char>>,
) -> Map<Seq<char>, Seq<char>> {
    let m = Map::<Seq<char>, Seq<char>>::empty();
    let m = m.insert("application_id"@, application_id);
    let m = with_attr(m, "location_uri"@, location_uri);
    with_attr(m, "type"@, profile_type)
}

/// The resource listed for a configuration profile, named by its name or
/// else its id.
pub fn configuration_profile_summary(
    application_id: &str,
    profile_id: &str,
    name: Option<String>,
    location_uri: Option<String>,
    profile_type: Option<String>,
) -> (r: ResourceSummary)
    ensures
        r.wf(),
        shows(
            r@,
            "configuration-profile/"@ + application_id@ + "/"@ + profile_id@,
            text_or(name.deep_view(), profile_id@),
            "configuration-profile"@,
            "available"@,
            None,
            None,
            configuration_profile_attributes(
                application_id@,
                location_uri.deep_view(),
                profile_type.deep_view(),
            ),
        ),
{
    let mut id = String::from_str("configuration-profile/");
    id.append(application_id);
    id.append("/");
    id.append(profile_id);
    let listed_name = text_or_default(name.clone(), profile_id);
    let listed_status = String::from_str("available");
    let mut attributes = no_attributes();
    put_text(&mut attributes, "application_id", String::from_str(application_id));
    put_attr(&mut attributes, "location_uri", location_uri);
    put_attr(&mut attributes, "type", profile_type);
    summary(id, listed_name, "configuration-profile", listed_status, None, None, attributes)
}

/// The attributes listed by [`hosted_version_summary`].
pub open spec fn hosted_version_attributes(
    application_id: Seq<char>,
    profile_id: Seq<char>,
    content_type: Option<Seq<char>>,
) -> Map<Seq<char>, Seq<char>> {
    let m = Map::<Seq<char>, Seq<char>>::empty();
    let m = m.insert("application_id"@, application_id);
    let m = m.insert("configuration_profile_id"@, profile_id);
    let m = m.insert("content_type"@, text_or(content_type, "application/json"@));
    m.insert("content"@, "metadata only"@)
}

/// The resource listed for a hosted configuration version, named
/// `v<number>`; its content is never read, only its type (`application/json`
/// when none is given).
pub fn hosted_version_summary(
    application_id: &str,
    profile_id: &str,
    version_number: i64,
    content_type: Option<String>,
) -> (r: ResourceSummary)
    ensures
        r.wf(),
        shows(
            r@,
            "hosted-version/"@ + application_id@ + "/"@ + profile_id@ + "/"@ + decimal(version_number as int),
            "v"@ + decimal(version_number as int),
            "hosted-version"@,
            "available"@,
            None,
            None,
            hosted_version_attributes(application_id@, profile_id@, content_type.deep_view()),
        ),
{
    let mut id = String::from_str("hosted-version/");
    id.append(application_id);
    id.append("/");
    id.append(profile_id);
    id.append("/");
    let digits = int_text(version_number);
    id.append(digits.as_str());
    let mut listed_name = String::from_str("v");
    let digits = int_text(version_number);
    listed_name.append(digits.as_str());
    let listed_status = String::from_str("available");
    let mut attributes = no_attributes();
    put_text(&mut attributes, "application_id", String::from_str(application_id));
    put_text(&mut attributes, "configuration_profile_id", String::from_str(profile_id));
    put_text(&mut attributes, "content_type", text_or_default(content_type, "application/json"));
    put_text(&mut attributes, "content", String::from_str("metadata only"));
    summary(id, listed_name, "hosted-version", listed_status, None, None, attributes)
}

/// A call to AppConfig, with its validated inputs.
#[derive(Debug, Clone)]
pub enum Call {
    CreateApplication { name: String },
    CreateEnvironment { name: String, application_id: String },
    CreateConfigurationProfile { name: String, application_id: String, location_uri: String },
    CreateHostedVersion { content: String, application_id: String, profile_id: String, content_type: String },
    StartDeployment { application_id: String, profile_id: String, version: String, environment_id: String, strategy_id: String },
}

impl View for Call {
    type V = CallView;

    open spec fn view(&self) -> CallView {
        match self {
            Call::CreateApplication { name } => call_of(
                "create_application"@,
                seq![name@],
                seq![],
            ),
            Call::CreateEnvironment { name, application_id } => call_of(
                "create_environment"@,
                seq![name@, application_id@],
                seq![],
            ),
            Call::CreateConfigurationProfile { name, application_id, location_uri } => call_of(
                "create_configuration_profile"@,
                seq![name@, application_id@, location_uri@],
                seq![],
            ),
            Call::CreateHostedVersion { content, application_id, profile_id, content_type } => call_of(
                "create_hosted_version"@,
                seq![content@, application_id@, profile_id@, content_type@],
                seq![],
            ),
            Call::StartDeployment { application_id, profile_id, version, environment_id, strategy_id } => call_of(
                "start_deployment"@,
                seq![application_id@, profile_id@, version@, environment_id@, strategy_id@],
                seq![],
            ),
        }
    }
}

/// What an action request on AppConfig asks for.
pub open spec fn action_plan(request: ServiceActionRequest) -> Result<PlannedView, ErrorView> {
    let a = request.action@;
    if a == "create_application"@ {
        then_text(
            required_text(request, "application_name"@),
            |name: Seq<char>|
                planned_call(a, seq![name], seq![]),
        )
    } else if a == "create_environment"@ {
        then_text(
            required_text(request, "environment_name"@),
            |name: Seq<char>|
                then_text(
                    selected_resource(request, "application/"@),
                    |application_id: Seq<char>|
                        planned_call(a, seq![name, application_id], seq![]),
                ),
        )
    } else if a == "create_configuration_profile"@ {
        then_text(
            required_text(request, "profile_name"@),
            |name: Seq<char>|
                then_text(
                    selected_resource(request, "application/"@),
                    |application_id: Seq<char>|
                        {
                            let location_uri = text_or(optional_text(request, "location_uri"@), "hosted"@);
                            planned_call(a, seq![name, application_id, location_uri], seq![])
                        },
                ),
        )
    } else if a == "create_hosted_version"@ {
        then_text(
            required_json(request, "content"@, "{}"@),
            |content: Seq<char>|
                then_text(
                    selected_resource(request, "configuration-profile/"@),
                    |profile_path: Seq<char>|
                        {
                            let p = split_or_whole(profile_path, "/"@);
                            let application_id = p.0;
                            let profile_id = p.1;
                            {
                                let content_type = text_or(optional_text(request, "content_type"@), "application/json"@);
                                planned_call(a, seq![content, application_id, profile_id, content_type], seq![])
                            }
                        },
                ),
        )
    } else if a == "start_deployment"@ {
        then_text(
            selected_resource(request, "hosted-version/"@),
            |version_path: Seq<char>|
                {
                    let p = version_parts(version_path);
                    let application_id = p.0;
                    let profile_id = p.1;
                    let version = p.2;
                    then_text(
                        required_optional(request, "environment_id"@, "`environment_id` is required."@),
                        |environment_id: Seq<char>|
                            {
                                let strategy_id = text_or(optional_text(request, "deployment_strategy_id"@), "AppConfig.AllAtOnce"@);
                                planned_call(a, seq![application_id, profile_id, version, environment_id, strategy_id], seq![])
                            },
                    )
                },
        )
    } else {
        Err(unsupported_action_error(request))
    }
}

/// Validates an action request on AppConfig and decides what to do.
pub fn plan_action(request: &ServiceActionRequest) -> (r: Result<Planned<Call>, ServiceManagementError>)
    requires
        request.payload.wf(),
    ensures
        planned_outcome(r) == action_plan(*request),
        r matches Ok(Planned::Call(Call::CreateApplication { name })) ==> {
            &&& request.action@ == "create_application"@
            &&& required_text(*request, "application_name"@) == Ok::<Seq<char>, ErrorView>(name@)
        },
        r matches Ok(Planned::Call(Call::CreateEnvironment { name, application_id })) ==> {
            &&& request.action@ == "create_environment"@
            &&& required_text(*request, "environment_name"@) == Ok::<Seq<char>, ErrorView>(name@)
            &&& selected_resource(*request, "application/"@) == Ok::<Seq<char>, ErrorView>(application_id@)
        },
        r matches Ok(Planned::Call(Call::CreateConfigurationProfile { name, application_id, .. })) ==> {
            &&& request.action@ == "create_configuration_profile"@
            &&& required_text(*request, "profile_name"@) == Ok::<Seq<char>, ErrorView>(name@)
            &&& selected_resource(*request, "application/"@) == Ok::<Seq<char>, ErrorView>(application_id@)
        },
        r matches Ok(Planned::Call(Call::CreateHostedVersion { content, .. })) ==> {
            &&& request.action@ == "create_hosted_version"@
            &&& required_json(*request, "content"@, "{}"@) == Ok::<Seq<char>, ErrorView>(content@)
        },
        r matches Ok(Planned::Call(Call::StartDeployment { environment_id, .. })) ==> {
            &&& request.action@ == "start_deployment"@
            &&& required_optional(*request, "environment_id"@, "`environment_id` is required."@) == Ok::<Seq<char>, ErrorView>(environment_id@)
        },
{
    let action = request.action.as_str();
    if text_eq(action, "create_application") {
        let name = require_name_payload(request, "application_name")?;
        Ok(Planned::Call(Call::CreateApplication { name }))
    } else if text_eq(action, "create_environment") {
        let name = require_name_payload(request, "environment_name")?;
        let application_id = require_resource_id(request, "application/")?;
        Ok(Planned::Call(Call::CreateEnvironment { name, application_id }))
    } else if text_eq(action, "create_configuration_profile") {
        let name = require_name_payload(request, "profile_name")?;
        let application_id = require_resource_id(request, "application/")?;
        let location_uri = optional_payload_text_or(request, "location_uri", "hosted");
        Ok(Planned::Call(Call::CreateConfigurationProfile { name, application_id, location_uri }))
    } else if text_eq(action, "create_hosted_version") {
        let content = require_json_payload_text(request, "content", "{}")?;
        let profile_path = require_resource_id(request, "configuration-profile/")?;
        let (application_id, profile_id) = split_path(profile_path.as_str(), "/");
        let content_type = optional_payload_text_or(request, "content_type", "application/json");
        Ok(Planned::Call(Call::CreateHostedVersion { content, application_id, profile_id, content_type }))
    } else if text_eq(action, "start_deployment") {
        let version_path = require_resource_id(request, "hosted-version/")?;
        let (application_id, profile_id, version) = split_version_path(version_path.as_str());
        let environment_id = require_optional_text(request, "environment_id", "`environment_id` is required.")?;
        let strategy_id = optional_payload_text_or(request, "deployment_strategy_id", "AppConfig.AllAtOnce");
        Ok(Planned::Call(Call::StartDeployment { application_id, profile_id, version, environment_id, strategy_id }))
    } else {
        Err(unsupported_action(request))
    }
}

/// The result of `call` once it succeeded with `reply`.
pub open spec fn result_of(call: Call, reply: CallReply) -> ActionResultView {
    match call {
        Call::CreateApplication { name } => result_view(
            true,
            "Created AppConfig application `"@ + name@ + "`."@,
            Some("application/"@ + text_or(reply.value.deep_view(), name@)),
        ),
        Call::CreateEnvironment { name, application_id } => result_view(
            true,
            "Created AppConfig environment `"@ + name@ + "`."@,
            Some("environment/"@ + application_id@ + "/"@ + text_or(reply.value.deep_view(), name@)),
        ),
        Call::CreateConfigurationProfile { name, application_id, .. } => result_view(
            true,
            "Created AppConfig configuration profile `"@ + name@ + "`."@,
            Some("configuration-profile/"@ + application_id@ + "/"@ + text_or(reply.value.deep_view(), name@)),
        ),
        Call::CreateHostedVersion { application_id, profile_id, .. } => result_view(
            true,
            "Created AppConfig hosted configuration version `"@ + text_or(reply.value.deep_view(), ""@) + "`."@,
            Some("hosted-version/"@ + application_id@ + "/"@ + profile_id@ + "/"@ + text_or(reply.value.deep_view(), ""@)),
        ),
        Call::StartDeployment { environment_id, application_id, .. } => result_view(
            true,
            "Started AppConfig deployment #"@ + text_or(reply.value.deep_view(), ""@) + " for environment `"@ + environment_id@ + "`."@,
            Some("deployment/"@ + application_id@ + "/"@ + environment_id@ + "/"@ + text_or(reply.value.deep_view(), ""@)),
        ),
    }
}

/// The result reported once `call` succeeded with `reply`.
pub fn completed(call: &Call, reply: &CallReply) -> (r: ActionResult)
    ensures
        r@ == result_of(*call, *reply),
{
    match call {
        Call::CreateApplication { name } => {
            let mut message = String::from_str("Created AppConfig application `");
            message.append(name.as_str());
            message.append("`.");
            let t1 = match &reply.value {
                Some(v) => v.clone(),
                None => {
                    let t2 = String::from_str(name.as_str());
                    t2
                },
            };
            let mut id = String::from_str("application/");
            id.append(t1.as_str());
            action_result(true, message, Some(id))
        },
        Call::CreateEnvironment { name, application_id } => {
            let mut message = String::from_str("Created AppConfig environment `");
            message.append(name.as_str());
            message.append("`.");
            let t1 = match &reply.value {
                Some(v) => v.clone(),
                None => {
                    let t2 = String::from_str(name.as_str());
                    t2
                },
            };
            let mut id = String::from_str("environment/");
            id.append(application_id.as_str());
            id.append("/");
            id.append(t1.as_str());
            action_result(true, message, Some(id))
        },
        Call::CreateConfigurationProfile { name, application_id, .. } => {
            let mut message = String::from_str("Created AppConfig configuration profile `");
            message.append(name.as_str());
            message.append("`.");
            let t1 = match &reply.value {
                Some(v) => v.clone(),
                None => {
                    let t2 = String::from_str(name.as_str());
                    t2
                },
            };
            let mut id = String::from_str("configuration-profile/");
            id.append(application_id.as_str());
            id.append("/");
            id.append(t1.as_str());
            action_result(true, message, Some(id))
        },
        Call::CreateHostedVersion { application_id, profile_id, .. } => {
            let t1 = match &reply.value {
                Some(v) => v.clone(),
                None => {
                    let t2 = String::from_str("");
                    t2
                },
            };
            let mut message = String::from_str("Created AppConfig hosted configuration version `");
            message.append(t1.as_str());
            message.append("`.");
            let t3 = match &reply.value {
                Some(v) => v.clone(),
                None => {
                    let t4 = String::from_str("");
                    t4
                },
            };
            let mut id = String::from_str("hosted-version/");
            id.append(application_id.as_str());
            id.append("/");
            id.append(profile_id.as_str());
            id.append("/");
            id.append(t3.as_str());
            action_result(true, message, Some(id))
        },
        Call::StartDeployment { environment_id, application_id, .. } => {
            let t1 = match &reply.value {
                Some(v) => v.clone(),
                None => {
                    let t2 = String::from_str("");
                    t2
                },
            };
            let mut message = String::from_str("Started AppConfig deployment #");
            message.append(t1.as_str());
            message.append(" for environment `");
            message.append(environment_id.as_str());
            message.append("`.");
            let t3 = match &reply.value {
                Some(v) => v.clone(),
                None => {
                    let t4 = String::from_str("");
                    t4
                },
            };
            let mut id = String::from_str("deployment/");
            id.append(application_id.as_str());
            id.append("/");
            id.append(environment_id.as_str());
            id.append("/");
            id.append(t3.as_str());
            action_result(true, message, Some(id))
        },
    }
}

/// Every call planned for an action request performs the requested action.
pub proof fn lemma_plan_performs_requested_action(request: ServiceActionRequest)
    ensures
        action_plan(request) matches Ok(PlannedView::Call(c)) ==> c.name == request.action@,
{
}

/// A destructive action is only planned once the typed confirmation matches.
pub proof fn lemma_destructive_actions_are_confirmed(request: ServiceActionRequest)
    ensures
        action_plan(request) is Ok && destructive(request.action@) ==> typed_confirmation(request) is Ok,
{
    reveal_strlit("create_application");
    lemma_not_destructive("create_application"@);
    reveal_strlit("create_environment");
    lemma_not_destructive("create_environment"@);
    reveal_strlit("create_configuration_profile");
    lemma_not_destructive("create_configuration_profile"@);
    reveal_strlit("create_hosted_version");
    lemma_not_destructive("create_hosted_version"@);
    reveal_strlit("start_deployment");
    lemma_not_destructive("start_deployment"@);
}

/// The operations the AppConfig page lists as unavailable.
pub open spec fn unsupported_operations() -> Seq<Seq<char>> {
    seq!["delete_application"@, "delete_environment"@]
}

/// The name under which the service's inventory page is shown.
pub open spec fn label() -> Seq<char> {
    "AppConfig"@
}

/// How far this adapter supports the service: it manages its resources.
pub open spec fn support_level() -> ServiceSupportLevel {
    ServiceSupportLevel::Managed
}

/// The AppConfig inventory page: the listed `resources` under the AppConfig tabs, refreshed
/// at `refreshed_at`.
pub fn inventory(
    resources: Vec<ResourceSummary>,
    refreshed_at: String,
) -> (inv: ServiceInventory)
    ensures
        inv@ == (InventoryView {
            service_key: "appconfig"@,
            service_label: label(),
            support_level: support_level(),
            refreshed_at: refreshed_at@,
            tabs: inventory_tabs(),
            resources: summary_views(resources@),
            unsupported_operations: unsupported_operations(),
        }),
{
    let mut ops: Vec<String> = Vec::new();
    ops.push(String::from_str("delete_application"));
    ops.push(String::from_str("delete_environment"));
    proof {
        assert(ops.deep_view() =~= unsupported_operations());
    }
    build_inventory(
        "appconfig",
        "AppConfig",
        ServiceSupportLevel::Managed,
        refreshed_at,
        tabs(),
        resources,
        ops,
    )
}

} // verus!
