//! S3.
use vstd::prelude::*;
use vstd::string::*;

use crate::service_management::actions::{
    require_name_payload, require_typed_confirmation, required_text, typed_confirmation,
};
use crate::service_management::adapters::{
    action_result, build_inventory, call_of, destructive, lemma_not_destructive, planned_call,
    planned_done, planned_outcome, result_view, shows, summary, texts_of, then_text, CallReply,
    CallView, Planned, PlannedView,
};
use crate::service_management::errors::{
    unsupported_operation_error, ErrorView, ServiceManagementError,
};
use crate::service_management::models::{
    single_kind_tab, summary_views, tab, tab_views, ActionResult, ActionResultView, InventoryView,
    ResourceSummary, ResourceTab, ServiceActionRequest, ServiceInventory, ServiceSupportLevel,
    TabView,
};
use crate::service_management::text_map::TextMap;
use crate::text::{concat2, concat3, text_eq};

verus! {

/// The tabs of the S3 inventory page.
pub open spec fn inventory_tabs() -> Seq<TabView> {
    seq![
        single_kind_tab("buckets"@, "Buckets"@, "bucket"@, "No S3 buckets were found in the local emulator."@),
        single_kind_tab("object-prefixes"@, "Object Prefixes"@, "object-prefix"@, "Object prefix discovery is metadata-only for now."@),
        single_kind_tab("policies"@, "Policies"@, "bucket-policy"@, "No bucket policies are loaded."@),
        single_kind_tab("lifecycle"@, "Lifecycle"@, "lifecycle-rule"@, "No lifecycle rules are loaded."@),
        single_kind_tab("tags"@, "Tags"@, "tag-set"@, "No S3 tag sets are loaded."@),
    ]
}

/// The tabs of the S3 inventory page.
pub fn tabs() -> (t: Vec<ResourceTab>)
    ensures
        tab_views(t@) == inventory_tabs(),
{
    let mut t: Vec<ResourceTab> = Vec::new();
    t.push(tab("buckets", "Buckets", "bucket", "No S3 buckets were found in the local emulator."));
    t.push(tab("object-prefixes", "Object Prefixes", "object-prefix", "Object prefix discovery is metadata-only for now."));
    t.push(tab("policies", "Policies", "bucket-policy", "No bucket policies are loaded."));
    t.push(tab("lifecycle", "Lifecycle", "lifecycle-rule", "No lifecycle rules are loaded."));
    t.push(tab("tags", "Tags", "tag-set", "No S3 tag sets are loaded."));
    assert(tab_views(t@) =~= inventory_tabs());
    t
}

/// The note every bucket carries about object previews.
pub open spec fn preview_note() -> Seq<char> {
    "Object body preview is metadata-only by default."@
}

/// The resource listed for the bucket `name`; `created_at` is its creation date as the client prints it.
pub fn bucket_summary(name: String, created_at: Option<String>) -> (r: ResourceSummary)
    ensures
        r.wf(),
        shows(
            r@,
            "bucket/"@ + name@,
            name@,
            "bucket"@,
            "available"@,
            created_at.deep_view(),
            None,
            map!["preview"@ => preview_note()],
        ),
{
    let mut attributes: TextMap<String> = TextMap::new();
    attributes.insert(String::from_str("preview"), String::from_str("Object body preview is metadata-only by default."));
    proof {
        assert(texts_of(attributes@) =~= map!["preview"@ => preview_note()]);
    }
    summary(concat2("bucket/", name.as_str()), name, "bucket", String::from_str("available"), created_at, None, attributes)
}

/// A call to S3, with its validated inputs.
#[derive(Debug, Clone)]
pub enum Call {
    CreateBucket { bucket_name: String },
    DeleteBucket { bucket_name: String },
}

impl View for Call {
    type V = CallView;

    open spec fn view(&self) -> CallView {
        match self {
            Call::CreateBucket { bucket_name } => call_of(
                "create_bucket"@,
                seq![bucket_name@],
                seq![],
            ),
            Call::DeleteBucket { bucket_name } => call_of(
                "delete_bucket"@,
                seq![bucket_name@],
                seq![],
            ),
        }
    }
}

/// What an action request on S3 asks for.
pub open spec fn action_plan(request: ServiceActionRequest) -> Result<PlannedView, ErrorView> {
    let a = request.action@;
    if a == "create_bucket"@ {
        then_text(
            required_text(request, "bucket_name"@),
            |bucket_name: Seq<char>|
                planned_call(a, seq![bucket_name], seq![]),
        )
    } else if a == "delete_bucket"@ {
        then_text(
            typed_confirmation(request),
            |bucket_name: Seq<char>|
                planned_call(a, seq![bucket_name], seq![]),
        )
    } else if a == "refresh_bucket_metadata"@ {
        planned_done(false, "Bucket metadata refresh completed."@, request.resource_id.deep_view())
    } else if a == "empty_bucket"@ {
        Err(unsupported_operation_error("s3"@, a, "Empty bucket is intentionally blocked until object listing and typed object deletion are implemented."@))
    } else {
        Err(unsupported_operation_error("s3"@, a, "S3 action `"@ + a + "` is not supported."@))
    }
}

/// Validates an action request on S3 and decides what to do.
pub fn plan_action(request: &ServiceActionRequest) -> (r: Result<Planned<Call>, ServiceManagementError>)
    requires
        request.payload.wf(),
    ensures
        planned_outcome(r) == action_plan(*request),
        r matches Ok(Planned::Call(Call::CreateBucket { bucket_name })) ==> {
            &&& request.action@ == "create_bucket"@
            &&& required_text(*request, "bucket_name"@) == Ok::<Seq<char>, ErrorView>(bucket_name@)
        },
        r matches Ok(Planned::Call(Call::DeleteBucket { bucket_name })) ==> {
            &&& request.action@ == "delete_bucket"@
            &&& typed_confirmation(*request) == Ok::<Seq<char>, ErrorView>(bucket_name@)
        },
{
    let action = request.action.as_str();
    if text_eq(action, "create_bucket") {
        let bucket_name = require_name_payload(request, "bucket_name")?;
        Ok(Planned::Call(Call::CreateBucket { bucket_name }))
    } else if text_eq(action, "delete_bucket") {
        let bucket_name = require_typed_confirmation(request)?;
        Ok(Planned::Call(Call::DeleteBucket { bucket_name }))
    } else if text_eq(action, "refresh_bucket_metadata") {
        let message = String::from_str("Bucket metadata refresh completed.");
        Ok(Planned::Done(action_result(false, message, request.resource_id.clone())))
    } else if text_eq(action, "empty_bucket") {
        Err(ServiceManagementError::unsupported_operation("s3", action, "Empty bucket is intentionally blocked until object listing and typed object deletion are implemented."))
    } else {
        Err(ServiceManagementError::unsupported_operation("s3", action, concat3("S3 action `", action, "` is not supported.").as_str()))
    }
}

/// The result of `call` once it succeeded with `reply`.
pub open spec fn result_of(call: Call, _reply: CallReply) -> ActionResultView {
    match call {
        Call::CreateBucket { bucket_name } => result_view(
            true,
            "Created S3 bucket `"@ + bucket_name@ + "`."@,
            Some("bucket/"@ + bucket_name@),
        ),
        Call::DeleteBucket { bucket_name } => result_view(
            true,
            "Deleted S3 bucket `"@ + bucket_name@ + "`."@,
            Some("bucket/"@ + bucket_name@),
        ),
    }
}

/// The result reported once `call` succeeded with `reply`.
pub fn completed(call: &Call, _reply: &CallReply) -> (r: ActionResult)
    ensures
        r@ == result_of(*call, *_reply),
{
    match call {
        Call::CreateBucket { bucket_name } => {
            let mut message = String::from_str("Created S3 bucket `");
            message.append(bucket_name.as_str());
            message.append("`.");
            let mut id = String::from_str("bucket/");
            id.append(bucket_name.as_str());
            action_result(true, message, Some(id))
        },
        Call::DeleteBucket { bucket_name } => {
            let mut message = String::from_str("Deleted S3 bucket `");
            message.append(bucket_name.as_str());
            message.append("`.");
            let mut id = String::from_str("bucket/");
            id.append(bucket_name.as_str());
            action_result(true, message, Some(id))
        },
    }
}

/// Every call planned for an action request performs the requested action.
pub proof fn lemma_plan_performs_requested_action(request: ServiceActionRequest)
    ensures
        action_plan(request) matches Ok(PlannedView::Call(c)) ==> c.name == request.action@,
{
}

/// A destructive action is only planned once the typed confirmation matches.
pub proof fn lemma_destructive_actions_are_confirmed(request: ServiceActionRequest)
    ensures
        action_plan(request) is Ok && destructive(request.action@) ==> typed_confirmation(request) is Ok,
{
    reveal_strlit("create_bucket");
    lemma_not_destructive("create_bucket"@);
    reveal_strlit("refresh_bucket_metadata");
    lemma_not_destructive("refresh_bucket_metadata"@);
}

/// The operations the S3 page lists as unavailable.
pub open spec fn unsupported_operations() -> Seq<Seq<char>> {
    seq!["empty_bucket"@, "object_body_preview"@]
}

/// The name under which the service's inventory page is shown.
pub open spec fn label() -> Seq<char> {
    "S3"@
}

/// How far this adapter supports the service: it manages its resources.
pub open spec fn support_level() -> ServiceSupportLevel {
    ServiceSupportLevel::Managed
}

/// The S3 inventory page: the listed `resources` under the S3 tabs, refreshed
/// at `refreshed_at`.
pub fn inventory(
    resources: Vec<ResourceSummary>,
    refreshed_at: String,
) -> (inv: ServiceInventory)
    ensures
        inv@ == (InventoryView {
            service_key: "s3"@,
            service_label: label(),
            support_level: support_level(),
            refreshed_at: refreshed_at@,
            tabs: inventory_tabs(),
            resources: summary_views(resources@),
            unsupported_operations: unsupported_operations(),
        }),
{
    let mut ops: Vec<String> = Vec::new();
    ops.push(String::from_str("empty_bucket"));
    ops.push(String::from_str("object_body_preview"));
    proof {
        assert(ops.deep_view() =~= unsupported_operations());
    }
    build_inventory(
        "s3",
        "S3",
        ServiceSupportLevel::Managed,
        refreshed_at,
        tabs(),
        resources,
        ops,
    )
}

} // verus!
