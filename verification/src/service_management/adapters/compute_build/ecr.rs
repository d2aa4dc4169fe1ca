//! ECR.
use vstd::prelude::*;
use vstd::string::*;

use crate::service_management::actions::{
    require_name_payload, require_typed_confirmation, required_text, typed_confirmation,
};
use crate::service_management::adapters::payload::{
    require_resource_id, require_split, selected_resource, split_required,
};
use crate::service_management::adapters::{
    action_result, build_inventory, call_of, destructive, lemma_not_destructive, no_attributes,
    number_text, optional_number_text, planned_call, planned_outcome, put_attr, put_text,
    result_view, shows, summary, text_or, text_or_default, then_text, unsupported_action,
    unsupported_action_error, with_attr, CallReply, CallView, Planned, PlannedView,
};
use crate::service_management::errors::{ErrorView, ServiceManagementError};
use crate::service_management::models::{
    single_kind_tab, summary_views, tab, tab_views, ActionResult, ActionResultView, InventoryView,
    ResourceSummary, ResourceTab, ServiceActionRequest, ServiceInventory, ServiceSupportLevel,
    TabView,
};
use crate::text::text_eq;

verus! {

/// The tabs of the ECR inventory page.
pub open spec fn inventory_tabs() -> Seq<TabView> {
    seq![
        single_kind_tab("repositories"@, "Repositories"@, "repository"@, "No ECR repositories were found."@),
        single_kind_tab("images"@, "Images"@, "image"@, "No ECR images are loaded."@),
        single_kind_tab("tags"@, "Tags"@, "tag"@, "No ECR image tags are loaded."@),
    ]
}

/// The tabs of the ECR inventory page.
pub fn tabs() -> (t: Vec<ResourceTab>)
    ensures
        tab_views(t@) == inventory_tabs(),
{
    let mut t: Vec<ResourceTab> = Vec::new();
    t.push(tab("repositories", "Repositories", "repository", "No ECR repositories were found."));
    t.push(tab("images", "Images", "image", "No ECR images are loaded."));
    t.push(tab("tags", "Tags", "tag", "No ECR image tags are loaded."));
    assert(tab_views(t@) =~= inventory_tabs());
    t
}

/// The attributes listed by [`repository_summary`].
pub open spec fn repository_attributes(
    repository_arn: Option<Seq<char>>,
    repository_uri: Option<Seq<char>>,
) -> Map<Seq<char>, Seq<char>> {
    let m = Map::<Seq<char>, Seq<char>>::empty();
    let m = with_attr(m, "repository_arn"@, repository_arn);
    with_attr(m, "repository_uri"@, repository_uri)
}

/// The resource listed for a repository.
pub fn repository_summary(
    repository_name: &str,
    created_at: Option<String>,
    repository_arn: Option<String>,
    repository_uri: Option<String>,
) -> (r: ResourceSummary)
    ensures
        r.wf(),
        shows(
            r@,
            "repository/"@ + repository_name@,
            repository_name@,
            "repository"@,
            "available"@,
            created_at.deep_view(),
            None,
            repository_attributes(repository_arn.deep_view(), repository_uri.deep_view()),
        ),
{
    let mut id = String::from_str("repository/");
    id.append(repository_name);
    let listed_name = String::from_str(repository_name);
    let listed_status = String::from_str("available");
    let mut attributes = no_attributes();
    put_attr(&mut attributes, "repository_arn", repository_arn);
    put_attr(&mut attributes, "repository_uri", repository_uri);
    summary(id, listed_name, "repository", listed_status, created_at, None, attributes)
}

/// The attributes listed by [`image_summary`].
pub open spec fn image_attributes(
    repository_name: Seq<char>,
    image_digest: Option<Seq<char>>,
    image_size_bytes: Option<i64>,
    scan_status: Option<Seq<char>>,
) -> Map<Seq<char>, Seq<char>> {
    let m = Map::<Seq<char>, Seq<char>>::empty();
    let m = m.insert("repository_name"@, repository_name);
    let m = with_attr(m, "image_digest"@, image_digest);
    let m = with_attr(m, "image_size_bytes"@, number_text(image_size_bytes));
    with_attr(m, "scan_status"@, scan_status)
}

/// The resource listed for an image of a repository, under its digest and named
/// by its first tag (`untagged` for either when missing).
pub fn image_summary(
    repository_name: &str,
    image_digest: Option<String>,
    first_tag: Option<String>,
    pushed_at: Option<String>,
    image_size_bytes: Option<i64>,
    scan_status: Option<String>,
) -> (r: ResourceSummary)
    ensures
        r.wf(),
        shows(
            r@,
            "image/"@ + repository_name@ + "/"@ + text_or(image_digest.deep_view(), "untagged"@),
            text_or(first_tag.deep_view(), "untagged"@),
            "image"@,
            "available"@,
            pushed_at.deep_view(),
            None,
            image_attributes(
                repository_name@,
                image_digest.deep_view(),
                image_size_bytes,
                scan_status.deep_view(),
            ),
        ),
{
    let mut id = String::from_str("image/");
    id.append(repository_name);
    id.append("/");
    let piece = text_or_default(image_digest.clone(), "untagged");
    id.append(piece.as_str());
    let listed_name = text_or_default(first_tag.clone(), "untagged");
    let listed_status = String::from_str("available");
    let mut attributes = no_attributes();
    put_text(&mut attributes, "repository_name", String::from_str(repository_name));
    put_attr(&mut attributes, "image_digest", image_digest);
    put_attr(&mut attributes, "image_size_bytes", optional_number_text(image_size_bytes));
    put_attr(&mut attributes, "scan_status", scan_status);
    summary(id, listed_name, "image", listed_status, pushed_at, None, attributes)
}

/// The attributes listed by [`image_tag_summary`].
pub open spec fn image_tag_attributes(
    repository_name: Seq<char>,
    image_digest: Option<Seq<char>>,
    image_size_bytes: Option<i64>,
    scan_status: Option<Seq<char>>,
) -> Map<Seq<char>, Seq<char>> {
    let m = Map::<Seq<char>, Seq<char>>::empty();
    let m = m.insert("repository_name"@, repository_name);
    let m = with_attr(m, "image_digest"@, image_digest);
    let m = with_attr(m, "image_size_bytes"@, number_text(image_size_bytes));
    with_attr(m, "scan_status"@, scan_status)
}

/// The resource listed for a tag of an image, with the attributes of its image.
pub fn image_tag_summary(
    repository_name: &str,
    tag: &str,
    pushed_at: Option<String>,
    image_digest: Option<String>,
    image_size_bytes: Option<i64>,
    scan_status: Option<String>,
) -> (r: ResourceSummary)
    ensures
        r.wf(),
        shows(
            r@,
            "tag/"@ + repository_name@ + "/"@ + tag@,
            tag@,
            "tag"@,
            "available"@,
            pushed_at.deep_view(),
            None,
            image_tag_attributes(
                repository_name@,
                image_digest.deep_view(),
                image_size_bytes,
                scan_status.deep_view(),
            ),
        ),
{
    let mut id = String::from_str("tag/");
    id.append(repository_name);
    id.append("/");
    id.append(tag);
    let listed_name = String::from_str(tag);
    let listed_status = String::from_str("available");
    let mut attributes = no_attributes();
    put_text(&mut attributes, "repository_name", String::from_str(repository_name));
    put_attr(&mut attributes, "image_digest", image_digest);
    put_attr(&mut attributes, "image_size_bytes", optional_number_text(image_size_bytes));
    put_attr(&mut attributes, "scan_status", scan_status);
    summary(id, listed_name, "tag", listed_status, pushed_at, None, attributes)
}

/// A call to ECR, with its validated inputs.
#[derive(Debug, Clone)]
pub enum Call {
    CreateRepository { repository_name: String },
    DeleteRepository { repository_name: String },
    DeleteImage { repository_name: String, image_digest: String },
}

impl View for Call {
    type V = CallView;

    open spec fn view(&self) -> CallView {
        match self {
            Call::CreateRepository { repository_name } => call_of(
                "create_repository"@,
                seq![repository_name@],
                seq![],
            ),
            Call::DeleteRepository { repository_name } => call_of(
                "delete_repository"@,
                seq![repository_name@],
                seq![],
            ),
            Call::DeleteImage { repository_name, image_digest } => call_of(
                "delete_image"@,
                seq![repository_name@, image_digest@],
                seq![],
            ),
        }
    }
}

/// What an action request on ECR asks for.
pub open spec fn action_plan(request: ServiceActionRequest) -> Result<PlannedView, ErrorView> {
    let a = request.action@;
    if a == "create_repository"@ {
        then_text(
            required_text(request, "repository_name"@),
            |repository_name: Seq<char>|
                planned_call(a, seq![repository_name], seq![]),
        )
    } else if a == "delete_repository"@ {
        then_text(
            typed_confirmation(request),
            |repository_name: Seq<char>|
                planned_call(a, seq![repository_name], seq![]),
        )
    } else if a == "delete_image"@ {
        then_text(
            selected_resource(request, "image/"@),
            |image_id: Seq<char>|
                match split_required(request, image_id, "/"@, "Image resource id must include repository and digest."@) {
                    Ok(p) => {
                        let repository_name = p.0;
                        let image_digest = p.1;
                        planned_call(a, seq![repository_name, image_digest], seq![])
                    },
                    Err(e) => Err(e),
                },
        )
    } else {
        Err(unsupported_action_error(request))
    }
}

/// Validates an action request on ECR and decides what to do.
pub fn plan_action(request: &ServiceActionRequest) -> (r: Result<Planned<Call>, ServiceManagementError>)
    requires
        request.payload.wf(),
    ensures
        planned_outcome(r) == action_plan(*request),
        r matches Ok(Planned::Call(Call::CreateRepository { repository_name })) ==> {
            &&& request.action@ == "create_repository"@
            &&& required_text(*request, "repository_name"@) == Ok::<Seq<char>, ErrorView>(repository_name@)
        },
        r matches Ok(Planned::Call(Call::DeleteRepository { repository_name })) ==> {
            &&& request.action@ == "delete_repository"@
            &&& typed_confirmation(*request) == Ok::<Seq<char>, ErrorView>(repository_name@)
        },
{
    let action = request.action.as_str();
    if text_eq(action, "create_repository") {
        let repository_name = require_name_payload(request, "repository_name")?;
        Ok(Planned::Call(Call::CreateRepository { repository_name }))
    } else if text_eq(action, "delete_repository") {
        let repository_name = require_typed_confirmation(request)?;
        Ok(Planned::Call(Call::DeleteRepository { repository_name }))
    } else if text_eq(action, "delete_image") {
        let image_id = require_resource_id(request, "image/")?;
        let (repository_name, image_digest) = require_split(request, image_id.as_str(), "/", "Image resource id must include repository and digest.")?;
        Ok(Planned::Call(Call::DeleteImage { repository_name, image_digest }))
    } else {
        Err(unsupported_action(request))
    }
}

/// The result of `call` once it succeeded with `reply`.
pub open spec fn result_of(call: Call, _reply: CallReply) -> ActionResultView {
    match call {
        Call::CreateRepository { repository_name } => result_view(
            true,
            "Created ECR repository `"@ + repository_name@ + "`."@,
            Some("repository/"@ + repository_name@),
        ),
        Call::DeleteRepository { repository_name } => result_view(
            true,
            "Deleted ECR repository `"@ + repository_name@ + "`."@,
            Some("repository/"@ + repository_name@),
        ),
        Call::DeleteImage { image_digest, repository_name } => result_view(
            true,
            "Deleted ECR image `"@ + image_digest@ + "`."@,
            Some("image/"@ + repository_name@ + "/"@ + image_digest@),
        ),
    }
}

/// The result reported once `call` succeeded with `reply`.
pub fn completed(call: &Call, _reply: &CallReply) -> (r: ActionResult)
    ensures
        r@ == result_of(*call, *_reply),
{
    match call {
        Call::CreateRepository { repository_name } => {
            let mut message = String::from_str("Created ECR repository `");
            message.append(repository_name.as_str());
            message.append("`.");
            let mut id = String::from_str("repository/");
            id.append(repository_name.as_str());
            action_result(true, message, Some(id))
        },
        Call::DeleteRepository { repository_name } => {
            let mut message = String::from_str("Deleted ECR repository `");
            message.append(repository_name.as_str());
            message.append("`.");
            let mut id = String::from_str("repository/");
            id.append(repository_name.as_str());
            action_result(true, message, Some(id))
        },
        Call::DeleteImage { image_digest, repository_name } => {
            let mut message = String::from_str("Deleted ECR image `");
            message.append(image_digest.as_str());
            message.append("`.");
            let mut id = String::from_str("image/");
            id.append(repository_name.as_str());
            id.append("/");
            id.append(image_digest.as_str());
            action_result(true, message, Some(id))
        },
    }
}

/// Every call planned for an action request performs the requested action.
pub proof fn lemma_plan_performs_requested_action(request: ServiceActionRequest)
    ensures
        action_plan(request) matches Ok(PlannedView::Call(c)) ==> c.name == request.action@,
{
}

/// A destructive action is only planned once the typed confirmation matches.
pub proof fn lemma_destructive_actions_are_confirmed(request: ServiceActionRequest)
    requires
        request.action@ != "delete_image"@,
    ensures
        action_plan(request) is Ok && destructive(request.action@) ==> typed_confirmation(request) is Ok,
{
    reveal_strlit("create_repository");
    lemma_not_destructive("create_repository"@);
}

/// The operations the ECR page lists as unavailable.
pub open spec fn unsupported_operations() -> Seq<Seq<char>> {
    seq!["put_lifecycle_policy"@, "start_image_scan"@]
}

/// The name under which the service's inventory page is shown.
pub open spec fn label() -> Seq<char> {
    "ECR"@
}

/// How far this adapter supports the service: it manages its resources.
pub open spec fn support_level() -> ServiceSupportLevel {
    ServiceSupportLevel::Managed
}

/// The ECR inventory page: the listed `resources` under the ECR tabs, refreshed
/// at `refreshed_at`.
pub fn inventory(
    resources: Vec<ResourceSummary>,
    refreshed_at: String,
) -> (inv: ServiceInventory)
    ensures
        inv@ == (InventoryView {
            service_key: "ecr"@,
            service_label: label(),
            support_level: support_level(),
            refreshed_at: refreshed_at@,
            tabs: inventory_tabs(),
            resources: summary_views(resources@),
            unsupported_operations: unsupported_operations(),
        }),
{
    let mut ops: Vec<String> = Vec::new();
    ops.push(String::from_str("put_lifecycle_policy"));
    ops.push(String::from_str("start_image_scan"));
    proof {
        assert(ops.deep_view() =~= unsupported_operations());
    }
    build_inventory(
        "ecr",
        "ECR",
        ServiceSupportLevel::Managed,
        refreshed_at,
        tabs(),
        resources,
        ops,
    )
}

} // verus!
