//! Bedrock Runtime.
use vstd::prelude::*;
use vstd::string::*;
use vstd::utf8::encode_utf8;

use crate::service_management::actions::{required_text, typed_confirmation};
use crate::service_management::adapters::payload::{
    optional_payload_text, optional_payload_text_or, optional_text, optional_text_or_resource,
    require_json_payload_text, require_payload_text, required_json, text_or_selected,
};
use crate::service_management::adapters::{
    action_result, build_inventory, call_of, destructive, lemma_not_destructive, no_attributes,
    nonempty_or, planned_call, planned_done, planned_outcome, put_text, result_view, shows, summary,
    text_or, then_text, unsupported_action, unsupported_action_error, CallReply, CallView, Planned,
    PlannedView,
};
use crate::service_management::errors::{ErrorView, ServiceManagementError};
use crate::service_management::models::{
    single_kind_tab, summary_views, tab, tab_views, ActionResult, ActionResultView, InventoryView,
    ResourceSummary, ResourceTab, ServiceActionRequest, ServiceInventory, ServiceSupportLevel,
    TabView,
};
use crate::text::{digits_of, nat_text, take_chars, take_chars_text, text_eq};

verus! {

/// The tabs of the Bedrock Runtime inventory page.
pub open spec fn inventory_tabs() -> Seq<TabView> {
    seq![
        single_kind_tab("models"@, "Models"@, "model"@, "No local Bedrock Runtime metadata is loaded."@),
        single_kind_tab("invocations"@, "Invocations"@, "invocation"@, "No invocation summaries are loaded."@),
        single_kind_tab("request-template"@, "Request Template"@, "request-template"@, "No request templates are loaded."@),
        single_kind_tab("response-preview"@, "Response Preview"@, "response-preview"@, "No response preview is available."@),
    ]
}

/// The tabs of the Bedrock Runtime inventory page.
pub fn tabs() -> (t: Vec<ResourceTab>)
    ensures
        tab_views(t@) == inventory_tabs(),
{
    let mut t: Vec<ResourceTab> = Vec::new();
    t.push(tab("models", "Models", "model", "No local Bedrock Runtime metadata is loaded."));
    t.push(tab("invocations", "Invocations", "invocation", "No invocation summaries are loaded."));
    t.push(tab("request-template", "Request Template", "request-template", "No request templates are loaded."));
    t.push(tab("response-preview", "Response Preview", "response-preview", "No response preview is available."));
    assert(tab_views(t@) =~= inventory_tabs());
    t
}

/// The resources the Bedrock Runtime inventory lists: a local model, a JSON
/// request template and an empty response preview.
pub fn runtime_resources() -> (r: Vec<ResourceSummary>)
    ensures
        r.len() == 3,
        forall|i: int| 0 <= i < r.len() ==> (#[trigger] r[i]).wf(),
        shows(
            r[0]@,
            "model/local-bedrock-runtime"@,
            "local-bedrock-runtime"@,
            "model"@,
            "configured"@,
            None,
            None,
            map![
                "execution_context"@ => "Local Floci endpoint only"@,
                "inventory_note"@ => "Bedrock Runtime is action-first; model catalog is supplied by Bedrock APIs."@
            ],
        ),
        shows(
            r[1]@,
            "request-template/json-invoke"@,
            "JSON invoke template"@,
            "request-template"@,
            "available"@,
            None,
            None,
            map!["template"@ => "{\"prompt\":\"hello from floci-ui\"}"@],
        ),
        shows(
            r[2]@,
            "response-preview/latest"@,
            "Latest response preview"@,
            "response-preview"@,
            "empty"@,
            None,
            None,
            map!["large_outputs"@ => "Invocation responses are summarized instead of streamed."@],
        ),
{
    let mut model = no_attributes();
    put_text(&mut model, "execution_context", String::from_str("Local Floci endpoint only"));
    put_text(
        &mut model,
        "inventory_note",
        String::from_str("Bedrock Runtime is action-first; model catalog is supplied by Bedrock APIs."),
    );
    let mut template = no_attributes();
    put_text(&mut template, "template", String::from_str("{\"prompt\":\"hello from floci-ui\"}"));
    let mut preview = no_attributes();
    put_text(&mut preview, "large_outputs", String::from_str("Invocation responses are summarized instead of streamed."));
    let mut r: Vec<ResourceSummary> = Vec::new();
    r.push(
        summary(
            String::from_str("model/local-bedrock-runtime"),
            String::from_str("local-bedrock-runtime"),
            "model",
            String::from_str("configured"),
            None,
            None,
            model,
        ),
    );
    r.push(
        summary(
            String::from_str("request-template/json-invoke"),
            String::from_str("JSON invoke template"),
            "request-template",
            String::from_str("available"),
            None,
            None,
            template,
        ),
    );
    r.push(
        summary(
            String::from_str("response-preview/latest"),
            String::from_str("Latest response preview"),
            "response-preview",
            String::from_str("empty"),
            None,
            None,
            preview,
        ),
    );
    r
}

/// A call to Bedrock Runtime, with its validated inputs.
#[derive(Debug, Clone)]
pub enum Call {
    InvokeModel { model_id: String, body: String, content_type: String, accept: String },
}

impl View for Call {
    type V = CallView;

    open spec fn view(&self) -> CallView {
        match self {
            Call::InvokeModel { model_id, body, content_type, accept } => call_of(
                "invoke_model"@,
                seq![model_id@, body@, content_type@, accept@],
                seq![],
            ),
        }
    }
}

/// What an action request on Bedrock Runtime asks for.
pub open spec fn action_plan(request: ServiceActionRequest) -> Result<PlannedView, ErrorView> {
    let a = request.action@;
    if a == "invoke_model"@ {
        then_text(
            text_or_selected(request, "model_id"@, "model/"@, "`model_id` is required."@),
            |model_id: Seq<char>|
                then_text(
                    required_json(request, "body"@, "{}"@),
                    |body: Seq<char>|
                        {
                            let content_type = text_or(optional_text(request, "content_type"@), "application/json"@);
                            {
                                let accept = text_or(optional_text(request, "accept"@), content_type);
                                planned_call(a, seq![model_id, body, content_type, accept], seq![])
                            }
                        },
                ),
        )
    } else if a == "validate_request_template"@ {
        then_text(
            required_json(request, "body"@, "{}"@),
            |_body: Seq<char>|
                then_text(
                    required_text(request, "body"@),
                    |template: Seq<char>|
                        planned_done(false, "Validated Bedrock Runtime request template ("@ + digits_of(encode_utf8(template).len()) + " bytes)."@, request.resource_id.deep_view()),
                ),
        )
    } else {
        Err(unsupported_action_error(request))
    }
}

/// Validates an action request on Bedrock Runtime and decides what to do.
pub fn plan_action(request: &ServiceActionRequest) -> (r: Result<Planned<Call>, ServiceManagementError>)
    requires
        request.payload.wf(),
    ensures
        planned_outcome(r) == action_plan(*request),
        r matches Ok(Planned::Call(Call::InvokeModel { model_id, body, .. })) ==> {
            &&& request.action@ == "invoke_model"@
            &&& text_or_selected(*request, "model_id"@, "model/"@, "`model_id` is required."@) == Ok::<Seq<char>, ErrorView>(model_id@)
            &&& required_json(*request, "body"@, "{}"@) == Ok::<Seq<char>, ErrorView>(body@)
        },
{
    let action = request.action.as_str();
    if text_eq(action, "invoke_model") {
        let model_id = optional_text_or_resource(request, "model_id", "model/", "`model_id` is required.")?;
        let body = require_json_payload_text(request, "body", "{}")?;
        let content_type = optional_payload_text_or(request, "content_type", "application/json");
        let accept = match optional_payload_text(request, "accept") {
                    Some(t) => t,
                    None => content_type.clone(),
                };
        Ok(Planned::Call(Call::InvokeModel { model_id, body, content_type, accept }))
    } else if text_eq(action, "validate_request_template") {
        require_json_payload_text(request, "body", "{}")?;
        let template = require_payload_text(request, "body")?;
        let t1 = nat_text(template.as_str().as_bytes().len() as u64);
        let mut message = String::from_str("Validated Bedrock Runtime request template (");
        message.append(t1.as_str());
        message.append(" bytes).");
        Ok(Planned::Done(action_result(false, message, request.resource_id.clone())))
    } else {
        Err(unsupported_action(request))
    }
}

/// The result of `call` once it succeeded with `reply`.
pub open spec fn result_of(call: Call, reply: CallReply) -> ActionResultView {
    match call {
        Call::InvokeModel { model_id, .. } => result_view(
            false,
            "Invoked Bedrock Runtime model `"@ + model_id@ + "`. Response preview: "@ + take_chars(nonempty_or(reply.value.deep_view(), ""@), 240),
            Some("model/"@ + model_id@),
        ),
    }
}

/// The result reported once `call` succeeded with `reply`.
pub fn completed(call: &Call, reply: &CallReply) -> (r: ActionResult)
    ensures
        r@ == result_of(*call, *reply),
{
    match call {
        Call::InvokeModel { model_id, .. } => {
            let t1 = match &reply.value {
                Some(v) if v.as_str().unicode_len() > 0 => v.clone(),
                _ => {
                    let t2 = String::from_str("");
                    t2
                },
            };
            let t3 = take_chars_text(t1.as_str(), 240);
            let mut message = String::from_str("Invoked Bedrock Runtime model `");
            message.append(model_id.as_str());
            message.append("`. Response preview: ");
            message.append(t3.as_str());
            let mut id = String::from_str("model/");
            id.append(model_id.as_str());
            action_result(false, message, Some(id))
        },
    }
}

/// Every call planned for an action request performs the requested action.
pub proof fn lemma_plan_performs_requested_action(request: ServiceActionRequest)
    ensures
        action_plan(request) matches Ok(PlannedView::Call(c)) ==> c.name == request.action@,
{
}

/// A destructive action is only planned once the typed confirmation matches.
pub proof fn lemma_destructive_actions_are_confirmed(request: ServiceActionRequest)
    ensures
        action_plan(request) is Ok && destructive(request.action@) ==> typed_confirmation(request) is Ok,
{
    reveal_strlit("invoke_model");
    lemma_not_destructive("invoke_model"@);
    reveal_strlit("validate_request_template");
    lemma_not_destructive("validate_request_template"@);
}

/// The operations the Bedrock Runtime page lists as unavailable.
pub open spec fn unsupported_operations() -> Seq<Seq<char>> {
    seq!["stream_invoke_model"@]
}

/// The name under which the service's inventory page is shown.
pub open spec fn label() -> Seq<char> {
    "Bedrock Runtime"@
}

/// How far this adapter supports the service: it manages its resources.
pub open spec fn support_level() -> ServiceSupportLevel {
    ServiceSupportLevel::Managed
}

/// The Bedrock Runtime inventory page: the listed `resources` under the Bedrock Runtime tabs, refreshed
/// at `refreshed_at`.
pub fn inventory(
    resources: Vec<ResourceSummary>,
    refreshed_at: String,
) -> (inv: ServiceInventory)
    ensures
        inv@ == (InventoryView {
            service_key: "bedrockruntime"@,
            service_label: label(),
            support_level: support_level(),
            refreshed_at: refreshed_at@,
            tabs: inventory_tabs(),
            resources: summary_views(resources@),
            unsupported_operations: unsupported_operations(),
        }),
{
    let mut ops: Vec<String> = Vec::new();
    ops.push(String::from_str("stream_invoke_model"));
    proof {
        assert(ops.deep_view() =~= unsupported_operations());
    }
    build_inventory(
        "bedrockruntime",
        "Bedrock Runtime",
        ServiceSupportLevel::Managed,
        refreshed_at,
        tabs(),
        resources,
        ops,
    )
}

} // verus!
