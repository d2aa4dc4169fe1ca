//! Lambda.
use vstd::prelude::*;
use vstd::string::*;

use crate::service_management::actions::{
    require_name_payload, require_typed_confirmation, required_text, typed_confirmation,
};
use crate::service_management::adapters::payload::{
    optional_payload_text_or, optional_text, require_json_payload_text, require_resource_id,
    required_json, resource_name_from_arn, selected_resource,
};
use crate::service_management::adapters::{
    action_result, build_inventory, call_of, destructive, lemma_not_destructive, nonempty_or,
    number_text, optional_number_text, planned_call, planned_done, planned_outcome, put_attr,
    result_view, shows, summary, text_or, text_or_default, texts_of, then_text, unsupported_action,
    unsupported_action_error, with_attr, CallReply, CallView, Planned, PlannedView,
};
use crate::service_management::errors::{ErrorView, ServiceManagementError};
use crate::service_management::models::{
    single_kind_tab, summary_views, tab, tab_views, ActionResult, ActionResultView, InventoryView,
    ResourceSummary, ResourceTab, ServiceActionRequest, ServiceInventory, ServiceSupportLevel,
    TabView,
};
use crate::service_management::text_map::TextMap;
use crate::text::{
    concat2, concat4, decimal, int_text, last_segment, take_chars, take_chars_text, text_eq,
};

verus! {

/// The handler of a function created without one.
pub const DEFAULT_HANDLER: &'static str = "bootstrap";

/// The role of a function created without one.
pub const DEFAULT_ROLE_ARN: &'static str = "arn:aws:iam::000000000000:role/floci-lambda-local";

/// The tabs of the Lambda inventory page.
pub open spec fn inventory_tabs() -> Seq<TabView> {
    seq![
        single_kind_tab("functions"@, "Functions"@, "function"@, "No Lambda functions were found in the local emulator."@),
        single_kind_tab("versions"@, "Versions"@, "version"@, "No Lambda published versions are loaded."@),
        single_kind_tab("aliases"@, "Aliases"@, "alias"@, "No Lambda aliases are loaded."@),
        single_kind_tab("event-sources"@, "Event Sources"@, "event-source-mapping"@, "No Lambda event source mappings are loaded."@),
        single_kind_tab("environment"@, "Environment"@, "configuration"@, "Configuration summaries exclude environment variable values."@),
    ]
}

/// The tabs of the Lambda inventory page.
pub fn tabs() -> (t: Vec<ResourceTab>)
    ensures
        tab_views(t@) == inventory_tabs(),
{
    let mut t: Vec<ResourceTab> = Vec::new();
    t.push(tab("functions", "Functions", "function", "No Lambda functions were found in the local emulator."));
    t.push(tab("versions", "Versions", "version", "No Lambda published versions are loaded."));
    t.push(tab("aliases", "Aliases", "alias", "No Lambda aliases are loaded."));
    t.push(tab("event-sources", "Event Sources", "event-source-mapping", "No Lambda event source mappings are loaded."));
    t.push(tab("environment", "Environment", "configuration", "Configuration summaries exclude environment variable values."));
    assert(tab_views(t@) =~= inventory_tabs());
    t
}

/// The attributes listed for a function and for its configuration; the ARN
/// falls back to the function name.
pub open spec fn function_attribute_texts(
    function_name: Seq<char>,
    function_arn: Option<Seq<char>>,
    runtime: Option<Seq<char>>,
    handler: Option<Seq<char>>,
    version: Option<Seq<char>>,
    code_size: i64,
    memory_size: Option<i64>,
    timeout: Option<i64>,
) -> Map<Seq<char>, Seq<char>> {
    let m = map!["function_arn"@ => text_or(function_arn, function_name)];
    let m = with_attr(m, "runtime"@, runtime);
    let m = with_attr(m, "handler"@, handler);
    let m = with_attr(m, "version"@, version);
    let m = m.insert("code_size"@, decimal(code_size as int));
    let m = with_attr(m, "memory_size"@, number_text(memory_size));
    with_attr(m, "timeout"@, number_text(timeout))
}

/// The attributes listed for a function and for its configuration.
pub fn function_attributes(
    function_name: &str,
    function_arn: Option<String>,
    runtime: Option<String>,
    handler: Option<String>,
    version: Option<String>,
    code_size: i64,
    memory_size: Option<i64>,
    timeout: Option<i64>,
) -> (m: TextMap<String>)
    ensures
        m.wf(),
        texts_of(m@) == function_attribute_texts(
            function_name@,
            function_arn.deep_view(),
            runtime.deep_view(),
            handler.deep_view(),
            version.deep_view(),
            code_size,
            memory_size,
            timeout,
        ),
{
    let ghost views = (function_arn.deep_view(), runtime.deep_view(), handler.deep_view(), version.deep_view());
    let arn = text_or_default(function_arn, function_name);
    let ghost a = arn@;
    let mut m: TextMap<String> = TextMap::new();
    m.insert(String::from_str("function_arn"), arn);
    assert(texts_of(m@) =~= map!["function_arn"@ => a]);
    put_attr(&mut m, "runtime", runtime);
    put_attr(&mut m, "handler", handler);
    put_attr(&mut m, "version", version);
    let ghost before = m@;
    let size = int_text(code_size);
    let ghost s = size@;
    m.insert(String::from_str("code_size"), size);
    assert(texts_of(m@) =~= texts_of(before).insert("code_size"@, s));
    put_attr(&mut m, "memory_size", optional_number_text(memory_size));
    put_attr(&mut m, "timeout", optional_number_text(timeout));
    assert(texts_of(m@) == function_attribute_texts(
        function_name@,
        views.0,
        views.1,
        views.2,
        views.3,
        code_size,
        memory_size,
        timeout,
    ));
    m
}

/// The resource listed for a function, in its state (`available` when it
/// reports none), created and updated at its last modification.
pub fn function_summary(
    function_name: &str,
    state: Option<String>,
    last_modified: Option<String>,
    attributes: TextMap<String>,
) -> (r: ResourceSummary)
    requires
        attributes.wf(),
    ensures
        r.wf(),
        shows(
            r@,
            "function/"@ + function_name@,
            function_name@,
            "function"@,
            text_or(state.deep_view(), "available"@),
            last_modified.deep_view(),
            last_modified.deep_view(),
            texts_of(attributes@),
        ),
{
    let status = match state {
        Some(s) => s,
        None => String::from_str("available"),
    };
    let updated = last_modified.clone();
    summary(
        concat2("function/", function_name),
        String::from_str(function_name),
        "function",
        status,
        last_modified,
        updated,
        attributes,
    )
}

/// The resource listed for a function's configuration, named
/// `<function> configuration`.
pub fn configuration_summary(function_name: &str, last_modified: Option<String>, attributes: TextMap<String>) -> (r:
    ResourceSummary)
    requires
        attributes.wf(),
    ensures
        r.wf(),
        shows(
            r@,
            "configuration/"@ + function_name@,
            function_name@ + " configuration"@,
            "configuration"@,
            "loaded"@,
            last_modified.deep_view(),
            last_modified.deep_view(),
            texts_of(attributes@),
        ),
{
    let updated = last_modified.clone();
    let mut name = String::from_str(function_name);
    name.append(" configuration");
    summary(
        concat2("configuration/", function_name),
        name,
        "configuration",
        String::from_str("loaded"),
        last_modified,
        updated,
        attributes,
    )
}

/// The resource listed for an alias of a function.
pub fn alias_summary(
    function_name: &str,
    alias_name: &str,
    alias_arn: Option<String>,
    function_version: Option<String>,
) -> (r: ResourceSummary)
    ensures
        r.wf(),
        shows(
            r@,
            "alias/"@ + function_name@ + "/"@ + alias_name@,
            alias_name@,
            "alias"@,
            "available"@,
            None,
            None,
            with_attr(
                with_attr(map!["function_name"@ => function_name@], "alias_arn"@, alias_arn.deep_view()),
                "function_version"@,
                function_version.deep_view(),
            ),
        ),
{
    let mut attributes: TextMap<String> = TextMap::new();
    attributes.insert(String::from_str("function_name"), String::from_str(function_name));
    assert(texts_of(attributes@) =~= map!["function_name"@ => function_name@]);
    put_attr(&mut attributes, "alias_arn", alias_arn);
    put_attr(&mut attributes, "function_version", function_version);
    summary(
        concat4("alias/", function_name, "/", alias_name),
        String::from_str(alias_name),
        "alias",
        String::from_str("available"),
        None,
        None,
        attributes,
    )
}

/// The resource listed for a published version of a function; the unpublished
/// `$LATEST` version is not listed.
pub fn version_summary(
    function_name: &str,
    function_arn: &str,
    version_name: &str,
    state: Option<String>,
    last_modified: Option<String>,
) -> (r: Option<ResourceSummary>)
    ensures
        r is None <==> version_name@ == "$LATEST"@,
        r matches Some(s) ==> s.wf() && shows(
            s@,
            "version/"@ + function_name@ + "/"@ + version_name@,
            version_name@,
            "version"@,
            text_or(state.deep_view(), "available"@),
            last_modified.deep_view(),
            last_modified.deep_view(),
            map!["function_name"@ => function_name@, "function_arn"@ => function_arn@],
        ),
{
    if text_eq(version_name, "$LATEST") {
        return None;
    }
    let status = match state {
        Some(s) => s,
        None => String::from_str("available"),
    };
    let updated = last_modified.clone();
    let mut attributes: TextMap<String> = TextMap::new();
    attributes.insert(String::from_str("function_name"), String::from_str(function_name));
    attributes.insert(String::from_str("function_arn"), String::from_str(function_arn));
    assert(texts_of(attributes@) =~= map!["function_name"@ => function_name@, "function_arn"@ => function_arn@]);
    Some(
        summary(
            concat4("version/", function_name, "/", version_name),
            String::from_str(version_name),
            "version",
            status,
            last_modified,
            updated,
            attributes,
        ),
    )
}

/// The resource listed for an event source mapping, in its state (`enabled`
/// when it reports none).
pub fn event_source_mapping_summary(
    uuid: &str,
    state: Option<String>,
    last_modified: Option<String>,
    function_arn: Option<String>,
    event_source_arn: Option<String>,
    batch_size: Option<i64>,
) -> (r: ResourceSummary)
    ensures
        r.wf(),
        shows(
            r@,
            "event-source-mapping/"@ + uuid@,
            uuid@,
            "event-source-mapping"@,
            text_or(state.deep_view(), "enabled"@),
            last_modified.deep_view(),
            last_modified.deep_view(),
            with_attr(
                with_attr(
                    with_attr(Map::empty(), "function_arn"@, function_arn.deep_view()),
                    "event_source_arn"@,
                    event_source_arn.deep_view(),
                ),
                "batch_size"@,
                number_text(batch_size),
            ),
        ),
{
    let status = match state {
        Some(s) => s,
        None => String::from_str("enabled"),
    };
    let updated = last_modified.clone();
    let mut attributes: TextMap<String> = TextMap::new();
    assert(texts_of(attributes@) =~= Map::<Seq<char>, Seq<char>>::empty());
    put_attr(&mut attributes, "function_arn", function_arn);
    put_attr(&mut attributes, "event_source_arn", event_source_arn);
    put_attr(&mut attributes, "batch_size", optional_number_text(batch_size));
    summary(
        concat2("event-source-mapping/", uuid),
        String::from_str(uuid),
        "event-source-mapping",
        status,
        last_modified,
        updated,
        attributes,
    )
}

/// A call to Lambda, with its validated inputs.
#[derive(Debug, Clone)]
pub enum Call {
    CreateFunction { function_name: String, role_arn: String, handler: String },
    DeleteFunction { function_name: String },
    InvokeFunction { function_name: String, payload: String },
}

impl View for Call {
    type V = CallView;

    open spec fn view(&self) -> CallView {
        match self {
            Call::CreateFunction { function_name, role_arn, handler } => call_of(
                "create_function"@,
                seq![function_name@, role_arn@, handler@],
                seq![],
            ),
            Call::DeleteFunction { function_name } => call_of(
                "delete_function"@,
                seq![function_name@],
                seq![],
            ),
            Call::InvokeFunction { function_name, payload } => call_of(
                "invoke_function"@,
                seq![function_name@, payload@],
                seq![],
            ),
        }
    }
}

/// What an action request on Lambda asks for.
pub open spec fn action_plan(request: ServiceActionRequest) -> Result<PlannedView, ErrorView> {
    let a = request.action@;
    if a == "create_function"@ {
        then_text(
            required_text(request, "function_name"@),
            |function_name: Seq<char>|
                {
                    let role_arn = text_or(optional_text(request, "role_arn"@), DEFAULT_ROLE_ARN@);
                    {
                        let handler = text_or(optional_text(request, "handler"@), DEFAULT_HANDLER@);
                        planned_call(a, seq![function_name, role_arn, handler], seq![])
                    }
                },
        )
    } else if a == "delete_function"@ {
        then_text(
            typed_confirmation(request),
            |function_name: Seq<char>|
                planned_call(a, seq![function_name], seq![]),
        )
    } else if a == "invoke_function"@ {
        then_text(
            selected_resource(request, "function/"@),
            |function_name: Seq<char>|
                then_text(
                    required_json(request, "payload"@, "{}"@),
                    |payload: Seq<char>|
                        planned_call(a, seq![function_name, payload], seq![]),
                ),
        )
    } else if a == "refresh_function_configuration"@ {
        then_text(
            selected_resource(request, "function/"@),
            |function_name: Seq<char>|
                planned_done(false, "Refreshed Lambda configuration for `"@ + function_name + "`."@, Some("function/"@ + function_name)),
        )
    } else {
        Err(unsupported_action_error(request))
    }
}

/// Validates an action request on Lambda and decides what to do.
pub fn plan_action(request: &ServiceActionRequest) -> (r: Result<Planned<Call>, ServiceManagementError>)
    requires
        request.payload.wf(),
    ensures
        planned_outcome(r) == action_plan(*request),
        r matches Ok(Planned::Call(Call::CreateFunction { function_name, .. })) ==> {
            &&& request.action@ == "create_function"@
            &&& required_text(*request, "function_name"@) == Ok::<Seq<char>, ErrorView>(function_name@)
        },
        r matches Ok(Planned::Call(Call::DeleteFunction { function_name })) ==> {
            &&& request.action@ == "delete_function"@
            &&& typed_confirmation(*request) == Ok::<Seq<char>, ErrorView>(function_name@)
        },
        r matches Ok(Planned::Call(Call::InvokeFunction { function_name, payload })) ==> {
            &&& request.action@ == "invoke_function"@
            &&& selected_resource(*request, "function/"@) == Ok::<Seq<char>, ErrorView>(function_name@)
            &&& required_json(*request, "payload"@, "{}"@) == Ok::<Seq<char>, ErrorView>(payload@)
        },
{
    let action = request.action.as_str();
    if text_eq(action, "create_function") {
        let function_name = require_name_payload(request, "function_name")?;
        let role_arn = optional_payload_text_or(request, "role_arn", DEFAULT_ROLE_ARN);
        let handler = optional_payload_text_or(request, "handler", DEFAULT_HANDLER);
        Ok(Planned::Call(Call::CreateFunction { function_name, role_arn, handler }))
    } else if text_eq(action, "delete_function") {
        let function_name = require_typed_confirmation(request)?;
        Ok(Planned::Call(Call::DeleteFunction { function_name }))
    } else if text_eq(action, "invoke_function") {
        let function_name = require_resource_id(request, "function/")?;
        let payload = require_json_payload_text(request, "payload", "{}")?;
        Ok(Planned::Call(Call::InvokeFunction { function_name, payload }))
    } else if text_eq(action, "refresh_function_configuration") {
        let function_name = require_resource_id(request, "function/")?;
        let mut message = String::from_str("Refreshed Lambda configuration for `");
        message.append(function_name.as_str());
        message.append("`.");
        let mut id = String::from_str("function/");
        id.append(function_name.as_str());
        Ok(Planned::Done(action_result(false, message, Some(id))))
    } else {
        Err(unsupported_action(request))
    }
}

/// The result of `call` once it succeeded with `reply`.
pub open spec fn result_of(call: Call, reply: CallReply) -> ActionResultView {
    match call {
        Call::CreateFunction { function_name, .. } => result_view(
            true,
            "Created Lambda function metadata for `"@ + function_name@ + "`."@,
            Some("function/"@ + function_name@),
        ),
        Call::DeleteFunction { function_name } => result_view(
            true,
            "Deleted Lambda function `"@ + function_name@ + "`."@,
            Some("function/"@ + function_name@),
        ),
        Call::InvokeFunction { function_name, .. } => result_view(
            false,
            "Invoked Lambda `"@ + last_segment(function_name@, ":/"@) + "` with status "@ + decimal(reply.code as int) + " and function error `"@ + text_or(reply.detail.deep_view(), "none"@) + "`. Response preview: "@ + take_chars(nonempty_or(reply.value.deep_view(), "{}"@), 240),
            Some("function/"@ + function_name@),
        ),
    }
}

/// The result reported once `call` succeeded with `reply`.
pub fn completed(call: &Call, reply: &CallReply) -> (r: ActionResult)
    ensures
        r@ == result_of(*call, *reply),
{
    match call {
        Call::CreateFunction { function_name, .. } => {
            let mut message = String::from_str("Created Lambda function metadata for `");
            message.append(function_name.as_str());
            message.append("`.");
            let mut id = String::from_str("function/");
            id.append(function_name.as_str());
            action_result(true, message, Some(id))
        },
        Call::DeleteFunction { function_name } => {
            let mut message = String::from_str("Deleted Lambda function `");
            message.append(function_name.as_str());
            message.append("`.");
            let mut id = String::from_str("function/");
            id.append(function_name.as_str());
            action_result(true, message, Some(id))
        },
        Call::InvokeFunction { function_name, .. } => {
            let t1 = resource_name_from_arn(function_name.as_str());
            let t2 = int_text(reply.code);
            let t3 = match &reply.detail {
                Some(v) => v.clone(),
                None => {
                    let t4 = String::from_str("none");
                    t4
                },
            };
            let t5 = match &reply.value {
                Some(v) if v.as_str().unicode_len() > 0 => v.clone(),
                _ => {
                    let t6 = String::from_str("{}");
                    t6
                },
            };
            let t7 = take_chars_text(t5.as_str(), 240);
            let mut message = String::from_str("Invoked Lambda `");
            message.append(t1.as_str());
            message.append("` with status ");
            message.append(t2.as_str());
            message.append(" and function error `");
            message.append(t3.as_str());
            message.append("`. Response preview: ");
            message.append(t7.as_str());
            let mut id = String::from_str("function/");
            id.append(function_name.as_str());
            action_result(false, message, Some(id))
        },
    }
}

/// Every call planned for an action request performs the requested action.
pub proof fn lemma_plan_performs_requested_action(request: ServiceActionRequest)
    ensures
        action_plan(request) matches Ok(PlannedView::Call(c)) ==> c.name == request.action@,
{
}

/// A destructive action is only planned once the typed confirmation matches.
pub proof fn lemma_destructive_actions_are_confirmed(request: ServiceActionRequest)
    ensures
        action_plan(request) is Ok && destructive(request.action@) ==> typed_confirmation(request) is Ok,
{
    reveal_strlit("create_function");
    lemma_not_destructive("create_function"@);
    reveal_strlit("invoke_function");
    lemma_not_destructive("invoke_function"@);
    reveal_strlit("refresh_function_configuration");
    lemma_not_destructive("refresh_function_configuration"@);
}

/// The operations the Lambda page lists as unavailable.
pub open spec fn unsupported_operations() -> Seq<Seq<char>> {
    seq!["update_function_code"@, "publish_version"@, "create_alias"@, "delete_alias"@]
}

/// The name under which the service's inventory page is shown.
pub open spec fn label() -> Seq<char> {
    "Lambda"@
}

/// How far this adapter supports the service: it manages its resources.
pub open spec fn support_level() -> ServiceSupportLevel {
    ServiceSupportLevel::Managed
}

/// The Lambda inventory page: the listed `resources` under the Lambda tabs, refreshed
/// at `refreshed_at`.
pub fn inventory(
    resources: Vec<ResourceSummary>,
    refreshed_at: String,
) -> (inv: ServiceInventory)
    ensures
        inv@ == (InventoryView {
            service_key: "lambda"@,
            service_label: label(),
            support_level: support_level(),
            refreshed_at: refreshed_at@,
            tabs: inventory_tabs(),
            resources: summary_views(resources@),
            unsupported_operations: unsupported_operations(),
        }),
{
    let mut ops: Vec<String> = Vec::new();
    ops.push(String::from_str("update_function_code"));
    ops.push(String::from_str("publish_version"));
    ops.push(String::from_str("create_alias"));
    ops.push(String::from_str("delete_alias"));
    proof {
        assert(ops.deep_view() =~= unsupported_operations());
    }
    build_inventory(
        "lambda",
        "Lambda",
        ServiceSupportLevel::Managed,
        refreshed_at,
        tabs(),
        resources,
        ops,
    )
}

} // verus!
