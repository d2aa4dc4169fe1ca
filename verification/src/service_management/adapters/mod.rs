//! Service adapters, grouped by family, and what the families share.
use vstd::prelude::*;
use vstd::string::*;

use crate::service_management::errors::{
    error_with, invalid_input_error, not_found_error, unsupported_operation_error, ErrorView,
    ServiceManagementError,
};
use crate::service_management::models::{
    summary_views, tab_views, ActionResult, ActionResultView, InventoryView, ResourceDetailRequest,
    ResourceSummary, ResourceTab, ServiceActionRequest, ServiceInventory, ServiceSupportLevel,
    SummaryView,
};
use crate::service_management::text_map::{insert_attr, TextMap};
use crate::service_management::actions::rfc3339_utc_text;
use crate::text::{concat2, concat3, concat5, decimal, int_text, starts_with, text_eq};

pub mod compute_build;
pub mod data_storage;
pub mod messaging_events;
pub mod network_observability;
pub mod payload;
pub mod security_config;

verus! {

/// Whether `key` is one of the texts of `keys`.
pub fn key_listed(keys: &Vec<&'static str>, key: &str) -> (r: bool)
    ensures
        r == keys@.map_values(|k: &str| k@).contains(key@),
{
    let ghost views = keys@.map_values(|k: &str| k@);
    let mut i: usize = 0;
    while i < keys.len()
        invariant
            0 <= i <= keys@.len(),
            views == keys@.map_values(|k: &str| k@),
            forall|k: int| 0 <= k < i ==> views[k] != key@,
        decreases keys@.len() - i,
    {
        if text_eq(keys[i], key) {
            assert(views[i as int] == key@);
            return true;
        }
        i = i + 1;
    }
    assert(!views.contains(key@)) by {
        if views.contains(key@) {
            let k = choose|k: int| 0 <= k < views.len() && views[k] == key@;
            assert(views[k] != key@);
        }
    }
    false
}

/// The first resource of `resources`, from position `i` on, whose id is `id`.
pub open spec fn find_summary_from(resources: Seq<SummaryView>, id: Seq<char>, i: int) -> Option<
    SummaryView,
>
    decreases resources.len() - i,
{
    if i < 0 || i >= resources.len() {
        None
    } else if resources[i].id == id {
        Some(resources[i])
    } else {
        find_summary_from(resources, id, i + 1)
    }
}

/// The outcome of looking up the resource a detail request names.
pub open spec fn resource_lookup(resources: Seq<SummaryView>, service_key: Seq<char>, resource_id: Seq<
    char,
>) -> Result<SummaryView, ErrorView> {
    match find_summary_from(resources, resource_id, 0) {
        Some(s) => Ok(s),
        None => Err(
            not_found_error(
                service_key,
                "resource_detail"@,
                "Resource `"@ + resource_id + "` was not found."@,
            ),
        ),
    }
}

/// The resource of an inventory that a detail request names.
#[verifier::loop_isolation(false)]
pub fn find_resource(resources: Vec<ResourceSummary>, request: &ResourceDetailRequest) -> (r: Result<
    ResourceSummary,
    ServiceManagementError,
>)
    ensures
        (match r {
            Ok(s) => Ok(s@),
            Err(e) => Err(e@),
        }) == resource_lookup(summary_views(resources@), request.service_key@, request.resource_id@),
{
    let ghost views = summary_views(resources@);
    let mut list = resources;
    let mut i: usize = 0;
    while i < list.len()
        invariant
            0 <= i <= list@.len(),
            views == summary_views(list@),
            find_summary_from(views, request.resource_id@, i as int) == find_summary_from(
                views,
                request.resource_id@,
                0,
            ),
        decreases list@.len() - i,
    {
        if text_eq(list[i].id.as_str(), request.resource_id.as_str()) {
            let found = list.remove(i);
            assert(found@ == views[i as int]);
            assert(views[i as int].id == request.resource_id@);
            return Ok(found);
        }
        i = i + 1;
    }
    Err(
        ServiceManagementError::not_found(
            request.service_key.as_str(),
            "resource_detail",
            concat3("Resource `", request.resource_id.as_str(), "` was not found.").as_str(),
        ),
    )
}

/// An inventory with every field given.
pub open spec fn inventory_view(
    service_key: Seq<char>,
    service_label: Seq<char>,
    support_level: ServiceSupportLevel,
    refreshed_at: Seq<char>,
    tabs: Seq<ResourceTab>,
    resources: Seq<ResourceSummary>,
    unsupported_operations: Seq<Seq<char>>,
) -> InventoryView {
    InventoryView {
        service_key,
        service_label,
        support_level,
        refreshed_at,
        tabs: tab_views(tabs),
        resources: summary_views(resources),
        unsupported_operations,
    }
}

/// Assembles an inventory page.
pub fn build_inventory(
    service_key: &str,
    service_label: &str,
    support_level: ServiceSupportLevel,
    refreshed_at: String,
    tabs: Vec<ResourceTab>,
    resources: Vec<ResourceSummary>,
    unsupported_operations: Vec<String>,
) -> (inv: ServiceInventory)
    ensures
        inv@ == inventory_view(
            service_key@,
            service_label@,
            support_level,
            refreshed_at@,
            tabs@,
            resources@,
            unsupported_operations.deep_view(),
        ),
{
    ServiceInventory {
        service_key: String::from_str(service_key),
        service_label: String::from_str(service_label),
        support_level,
        refreshed_at,
        tabs,
        resources,
        unsupported_operations,
    }
}

/// Operations a read-only inventory lists as unavailable.
pub open spec fn read_only_operations() -> Seq<Seq<char>> {
    seq!["create"@, "update"@, "delete"@]
}

pub(crate) fn read_only_operation_names() -> (v: Vec<String>)
    ensures
        v.deep_view() == read_only_operations(),
{
    let mut v: Vec<String> = Vec::new();
    v.push(String::from_str("create"));
    v.push(String::from_str("update"));
    v.push(String::from_str("delete"));
    assert(v.deep_view() =~= read_only_operations());
    v
}

/// A read-only inventory page, refreshed now.
pub fn read_only_inventory(
    service_key: &str,
    service_label: &str,
    tabs: Vec<ResourceTab>,
    resources: Vec<ResourceSummary>,
) -> (inv: ServiceInventory)
    ensures
        inv@ == inventory_view(
            service_key@,
            service_label@,
            ServiceSupportLevel::ReadOnly,
            inv.refreshed_at@,
            tabs@,
            resources@,
            read_only_operations(),
        ),
        rfc3339_utc_text(inv.refreshed_at@),
{
    build_inventory(
        service_key,
        service_label,
        ServiceSupportLevel::ReadOnly,
        crate::service_management::actions::now_rfc3339(),
        tabs,
        resources,
        read_only_operation_names(),
    )
}

/// A managed inventory page, refreshed now.
pub fn managed_inventory(
    service_key: &str,
    service_label: &str,
    tabs: Vec<ResourceTab>,
    resources: Vec<ResourceSummary>,
    unsupported_operations: Vec<String>,
) -> (inv: ServiceInventory)
    ensures
        inv@ == inventory_view(
            service_key@,
            service_label@,
            ServiceSupportLevel::Managed,
            inv.refreshed_at@,
            tabs@,
            resources@,
            unsupported_operations.deep_view(),
        ),
        rfc3339_utc_text(inv.refreshed_at@),
{
    build_inventory(
        service_key,
        service_label,
        ServiceSupportLevel::Managed,
        crate::service_management::actions::now_rfc3339(),
        tabs,
        resources,
        unsupported_operations,
    )
}

/// The error for an action a known service does not enable.
pub open spec fn unsupported_action_error(request: ServiceActionRequest) -> ErrorView {
    unsupported_operation_error(
        request.service_key@,
        request.action@,
        "`"@ + request.action@ + "` is not enabled for `"@ + request.service_key@
            + "` until Floci reports successful local API support."@,
    )
}

/// The error for an action a known service does not enable.
pub fn unsupported_action(request: &ServiceActionRequest) -> (e: ServiceManagementError)
    ensures
        e@ == unsupported_action_error(*request),
{
    ServiceManagementError::unsupported_operation(
        request.service_key.as_str(),
        request.action.as_str(),
        concat5(
            "`",
            request.action.as_str(),
            "` is not enabled for `",
            request.service_key.as_str(),
            "` until Floci reports successful local API support.",
        ).as_str(),
    )
}

/// Where a service family sends an action.
pub enum ActionRoute {
    /// The service's adapter performs the action.
    Adapter,
    /// Nothing to perform; the action already has its result.
    Done(ActionResult),
}

/// The view of an action route.
pub enum ActionRouteView {
    Adapter,
    Done(ActionResultView),
}

/// The view of a route-or-error outcome.
pub open spec fn route_outcome(r: Result<ActionRoute, ServiceManagementError>) -> Result<
    ActionRouteView,
    ErrorView,
> {
    match r {
        Ok(ActionRoute::Adapter) => Ok(ActionRouteView::Adapter),
        Ok(ActionRoute::Done(a)) => Ok(ActionRouteView::Done(a@)),
        Err(e) => Err(e@),
    }
}

/// The result of the `refresh_inventory` action: nothing changes.
pub open spec fn refreshed_result(service_key: Seq<char>, resource_id: Option<Seq<char>>) -> ActionResultView {
    ActionResultView {
        changed: false,
        message: "Refreshed `"@ + service_key + "` inventory."@,
        resource_id,
    }
}

/// The result of the `refresh_inventory` action.
pub fn refreshed(service_key: &str, resource_id: Option<String>) -> (a: ActionResult)
    ensures
        a@ == refreshed_result(service_key@, resource_id.deep_view()),
{
    ActionResult {
        changed: false,
        message: concat3("Refreshed `", service_key, "` inventory."),
        resource_id,
    }
}

/// The error for a payload field or built value that the AWS client refused;
/// `error_text` is the client's description.
pub open spec fn build_error_view(request: ServiceActionRequest, field: Seq<char>, error_text: Seq<
    char,
>) -> ErrorView {
    invalid_input_error(
        request.service_key@,
        request.action@,
        "`"@ + field + "` is invalid: "@ + error_text,
    )
}

/// The inputs of an AWS call that an adapter is to make: the action it
/// performs, its text arguments and its numeric arguments, in order.
pub struct CallView {
    pub name: Seq<char>,
    pub texts: Seq<Seq<char>>,
    pub numbers: Seq<int>,
}

pub open spec fn call_of(name: Seq<char>, texts: Seq<Seq<char>>, numbers: Seq<int>) -> CallView {
    CallView { name, texts, numbers }
}

/// What planning an action decided: an AWS call for the adapter to make, or
/// the answer itself when no call is needed.
pub enum Planned<C> {
    Call(C),
    Done(ActionResult),
}

pub enum PlannedView {
    Call(CallView),
    Done(ActionResultView),
}

/// The view of a plan-or-error outcome.
pub open spec fn planned_outcome<C: View<V = CallView>>(r: Result<Planned<C>, ServiceManagementError>) -> Result<
    PlannedView,
    ErrorView,
> {
    match r {
        Ok(Planned::Call(c)) => Ok(PlannedView::Call(c@)),
        Ok(Planned::Done(a)) => Ok(PlannedView::Done(a@)),
        Err(e) => Err(e@),
    }
}

/// Goes on with `f` when step `o` produced a text, and stops with its error otherwise.
pub open spec fn then_text(
    o: Result<Seq<char>, ErrorView>,
    f: spec_fn(Seq<char>) -> Result<PlannedView, ErrorView>,
) -> Result<PlannedView, ErrorView> {
    match o {
        Ok(t) => f(t),
        Err(e) => Err(e),
    }
}

/// A planned call.
pub open spec fn planned_call(name: Seq<char>, texts: Seq<Seq<char>>, numbers: Seq<int>) -> Result<
    PlannedView,
    ErrorView,
> {
    Ok(PlannedView::Call(call_of(name, texts, numbers)))
}

/// A planned answer that needs no call.
pub open spec fn planned_done(changed: bool, message: Seq<char>, resource_id: Option<Seq<char>>) -> Result<
    PlannedView,
    ErrorView,
> {
    Ok(PlannedView::Done(result_view(changed, message, resource_id)))
}

/// The content of an action result.
pub open spec fn result_view(changed: bool, message: Seq<char>, resource_id: Option<Seq<char>>) -> ActionResultView {
    ActionResultView { changed, message, resource_id }
}

/// An action result.
pub fn action_result(changed: bool, message: String, resource_id: Option<String>) -> (a: ActionResult)
    ensures
        a@ == result_view(changed, message@, resource_id.deep_view()),
{
    ActionResult { changed, message, resource_id }
}

/// Plain values read from the reply to an AWS call: the identifier, name or
/// text it returned, a second such text, how many items it returned, a status
/// number, and the text of each returned item.
#[derive(Debug, Clone)]
pub struct CallReply {
    pub value: Option<String>,
    pub detail: Option<String>,
    pub count: usize,
    pub code: i64,
    pub messages: Vec<Option<String>>,
}

/// Whether an optional number is present, as a number: 1 or 0.
pub open spec fn option_flag(o: Option<i32>) -> int {
    match o {
        Some(_) => 1,
        None => 0,
    }
}

/// An optional number, with 0 for `None`.
pub open spec fn option_value(o: Option<i32>) -> int {
    match o {
        Some(n) => n as int,
        None => 0,
    }
}

/// A text that is present and not empty, or `default`.
pub open spec fn nonempty_or(o: Option<Seq<char>>, default: Seq<char>) -> Seq<char> {
    match o {
        Some(t) if t.len() > 0 => t,
        _ => default,
    }
}

/// `max(low, min(high, v))`, as `i32::clamp` gives it.
pub open spec fn clamp(v: int, low: int, high: int) -> int {
    if v < low {
        low
    } else if v > high {
        high
    } else {
        v
    }
}

/// Goes on with `f` when step `o` produced two texts.
pub open spec fn then_pair(
    o: Result<(Seq<char>, Seq<char>), ErrorView>,
    f: spec_fn(Seq<char>, Seq<char>) -> Result<PlannedView, ErrorView>,
) -> Result<PlannedView, ErrorView> {
    match o {
        Ok(p) => f(p.0, p.1),
        Err(e) => Err(e),
    }
}

/// Goes on with `f` when step `o` produced three texts.
pub open spec fn then_triple(
    o: Result<(Seq<char>, Seq<char>, Seq<char>), ErrorView>,
    f: spec_fn(Seq<char>, Seq<char>, Seq<char>) -> Result<PlannedView, ErrorView>,
) -> Result<PlannedView, ErrorView> {
    match o {
        Ok(p) => f(p.0, p.1, p.2),
        Err(e) => Err(e),
    }
}

/// Goes on with `f` when step `o` produced a number.
pub open spec fn then_number(
    o: Result<int, ErrorView>,
    f: spec_fn(int) -> Result<PlannedView, ErrorView>,
) -> Result<PlannedView, ErrorView> {
    match o {
        Ok(n) => f(n),
        Err(e) => Err(e),
    }
}

/// An optional text, with the empty text for `None`. Optional payload texts
/// are never empty when present, so nothing is lost.
pub open spec fn text_or_empty(o: Option<Seq<char>>) -> Seq<char> {
    match o {
        Some(t) => t,
        None => Seq::empty(),
    }
}

/// An optional text, with `default` for `None`.
pub open spec fn text_or(o: Option<Seq<char>>, default: Seq<char>) -> Seq<char> {
    match o {
        Some(t) => t,
        None => default,
    }
}

/// The value the reply carries, or `default`.
pub fn reply_text_or(reply: &CallReply, default: &str) -> (r: String)
    ensures
        r@ == text_or(reply.value.deep_view(), default@),
{
    match &reply.value {
        Some(v) => v.clone(),
        None => String::from_str(default),
    }
}

/// The detail the reply carries, or `default`.
pub fn reply_detail_or(reply: &CallReply, default: &str) -> (r: String)
    ensures
        r@ == text_or(reply.detail.deep_view(), default@),
{
    match &reply.detail {
        Some(v) => v.clone(),
        None => String::from_str(default),
    }
}

/// `prefix` followed by the value the reply carries, when it carries one.
pub fn reply_id(reply: &CallReply, prefix: &str) -> (r: Option<String>)
    ensures
        r.deep_view() == (match reply.value.deep_view() {
            Some(v) => Some(prefix@ + v),
            None => None,
        }),
{
    match &reply.value {
        Some(v) => Some(concat2(prefix, v.as_str())),
        None => None,
    }
}

/// Actions that remove, stop or disable something, or rotate a secret: those
/// that a user confirms by typing the name of the resource.
pub open spec fn destructive(action: Seq<char>) -> bool {
    ||| starts_with(action, "delete_"@)
    ||| action == "stop_instance"@
    ||| action == "terminate_instance"@
    ||| action == "purge_queue"@
    ||| action == "disable_key"@
    ||| action == "schedule_key_deletion"@
    ||| action == "rotate_secret"@
    ||| action == "stop_execution"@
    ||| action == "deregister_target"@
}

/// An action whose name does not begin like a destructive one is not destructive.
pub proof fn lemma_not_destructive(action: Seq<char>)
    requires
        action.len() >= 3,
        !(action[0] == 'd' && action[1] == 'e'),
        !(action[0] == 'd' && action[1] == 'i' && action[2] == 's'),
        !(action.len() >= 6 && action[0] == 's' && action[1] == 't' && action[2] == 'o' && action[3]
            == 'p' && action[4] == '_' && (action[5] == 'i' || action[5] == 'e')),
        !(action[0] == 't' && action[1] == 'e' && action[2] == 'r'),
        !(action[0] == 'p' && action[1] == 'u' && action[2] == 'r'),
        !(action[0] == 's' && action[1] == 'c' && action[2] == 'h'),
        !(action[0] == 'r' && action[1] == 'o' && action[2] == 't'),
    ensures
        !destructive(action),
{
    reveal_strlit("delete_");
    reveal_strlit("stop_instance");
    reveal_strlit("terminate_instance");
    reveal_strlit("purge_queue");
    reveal_strlit("disable_key");
    reveal_strlit("schedule_key_deletion");
    reveal_strlit("rotate_secret");
    reveal_strlit("stop_execution");
    reveal_strlit("deregister_target");
    if starts_with(action, "delete_"@) {
        assert(action.subrange(0, 7)[0] == action[0]);
        assert(action.subrange(0, 7)[1] == action[1]);
    }
}

/// The texts a map of attributes holds.
pub open spec fn texts_of(m: Map<Seq<char>, String>) -> Map<Seq<char>, Seq<char>> {
    m.map_values(|v: String| v@)
}

/// Whether `r` shows the given fields, no tags, and attributes with the given texts.
pub open spec fn shows(
    r: SummaryView,
    id: Seq<char>,
    name: Seq<char>,
    kind: Seq<char>,
    status: Seq<char>,
    created_at: Option<Seq<char>>,
    updated_at: Option<Seq<char>>,
    attributes: Map<Seq<char>, Seq<char>>,
) -> bool {
    &&& r.id == id
    &&& r.name == name
    &&& r.kind == kind
    &&& r.status == status
    &&& r.created_at == created_at
    &&& r.updated_at == updated_at
    &&& r.tags == Map::<Seq<char>, String>::empty()
    &&& texts_of(r.attributes) == attributes
}

/// A resource summary without tags.
pub fn summary(
    id: String,
    name: String,
    kind: &str,
    status: String,
    created_at: Option<String>,
    updated_at: Option<String>,
    attributes: TextMap<String>,
) -> (r: ResourceSummary)
    requires
        attributes.wf(),
    ensures
        r.wf(),
        shows(
            r@,
            id@,
            name@,
            kind@,
            status@,
            created_at.deep_view(),
            updated_at.deep_view(),
            texts_of(attributes@),
        ),
{
    ResourceSummary {
        id,
        name,
        kind: String::from_str(kind),
        status,
        created_at,
        updated_at,
        tags: TextMap::new(),
        attributes,
    }
}

/// Whether `r` shows the given fields, tags and attributes, each map given by its texts.
pub open spec fn shows_tagged(
    r: SummaryView,
    id: Seq<char>,
    name: Seq<char>,
    kind: Seq<char>,
    status: Seq<char>,
    created_at: Option<Seq<char>>,
    tags: Map<Seq<char>, Seq<char>>,
    attributes: Map<Seq<char>, Seq<char>>,
) -> bool {
    &&& r.id == id
    &&& r.name == name
    &&& r.kind == kind
    &&& r.status == status
    &&& r.created_at == created_at
    &&& r.updated_at is None
    &&& texts_of(r.tags) == tags
    &&& texts_of(r.attributes) == attributes
}

/// A resource summary with tags and no update time.
pub fn tagged_summary(
    id: String,
    name: String,
    kind: &str,
    status: String,
    created_at: Option<String>,
    tags: TextMap<String>,
    attributes: TextMap<String>,
) -> (r: ResourceSummary)
    requires
        tags.wf(),
        attributes.wf(),
    ensures
        r.wf(),
        shows_tagged(
            r@,
            id@,
            name@,
            kind@,
            status@,
            created_at.deep_view(),
            texts_of(tags@),
            texts_of(attributes@),
        ),
{
    ResourceSummary {
        id,
        name,
        kind: String::from_str(kind),
        status,
        created_at,
        updated_at: None,
        tags,
        attributes,
    }
}

/// The text held, or `default` when there is none.
pub fn text_or_default(value: Option<String>, default: &str) -> (r: String)
    ensures
        r@ == text_or(value.deep_view(), default@),
{
    match value {
        Some(t) => t,
        None => String::from_str(default),
    }
}

/// An empty map of attributes.
pub fn no_attributes() -> (m: TextMap<String>)
    ensures
        m.wf(),
        texts_of(m@) == Map::<Seq<char>, Seq<char>>::empty(),
{
    let m: TextMap<String> = TextMap::new();
    assert(texts_of(m@) =~= Map::<Seq<char>, Seq<char>>::empty());
    m
}

/// Sets attribute `key` to `value`.
pub fn put_text(attributes: &mut TextMap<String>, key: &str, value: String)
    requires
        old(attributes).wf(),
    ensures
        final(attributes).wf(),
        texts_of(final(attributes)@) == texts_of(old(attributes)@).insert(key@, value@),
{
    let ghost before = attributes@;
    let ghost v = value@;
    attributes.insert(String::from_str(key), value);
    assert(texts_of(attributes@) =~= texts_of(before).insert(key@, v));
}

/// The view of an optional flag as the text `to_string` gives it.
pub open spec fn flag_text(flag: Option<bool>) -> Option<Seq<char>> {
    match flag {
        Some(b) => Some(bool_text(b)),
        None => None,
    }
}

/// An optional flag as the text `to_string` gives it.
pub fn optional_flag_text(flag: Option<bool>) -> (r: Option<String>)
    ensures
        r.deep_view() == flag_text(flag),
{
    match flag {
        Some(b) => Some(bool_to_text(b)),
        None => None,
    }
}

/// The view of an optional number as its decimal text.
pub open spec fn number_text(n: Option<i64>) -> Option<Seq<char>> {
    match n {
        Some(v) => Some(decimal(v as int)),
        None => None,
    }
}

/// An optional number as its decimal text, as `to_string` writes it.
pub fn optional_number_text(n: Option<i64>) -> (r: Option<String>)
    ensures
        r.deep_view() == number_text(n),
{
    match n {
        Some(v) => Some(int_text(v)),
        None => None,
    }
}

/// The map that a list of key and text pairs spells out; a later pair wins.
pub open spec fn pairs_map(pairs: Seq<(Seq<char>, Seq<char>)>) -> Map<Seq<char>, Seq<char>>
    decreases pairs.len(),
{
    if pairs.len() == 0 {
        Map::empty()
    } else {
        pairs_map(pairs.drop_last()).insert(pairs.last().0, pairs.last().1)
    }
}

/// The views of a list of key and text pairs.
pub open spec fn pair_views(pairs: Seq<(String, String)>) -> Seq<(Seq<char>, Seq<char>)> {
    pairs.map_values(|p: (String, String)| (p.0@, p.1@))
}

/// A map of attributes holding the given pairs.
pub fn attributes_from(pairs: &Vec<(String, String)>) -> (m: TextMap<String>)
    ensures
        m.wf(),
        texts_of(m@) == pairs_map(pair_views(pairs@)),
{
    let mut m: TextMap<String> = TextMap::new();
    let mut i: usize = 0;
    while i < pairs.len()
        invariant
            0 <= i <= pairs.len(),
            m.wf(),
            texts_of(m@) == pairs_map(pair_views(pairs@.subrange(0, i as int))),
        decreases pairs.len() - i,
    {
        proof {
            let v = pair_views(pairs@.subrange(0, i + 1));
            assert(v.drop_last() =~= pair_views(pairs@.subrange(0, i as int)));
            assert(v.last() == (pairs@[i as int].0@, pairs@[i as int].1@));
        }
        let ghost before = m@;
        m.insert(pairs[i].0.clone(), pairs[i].1.clone());
        proof {
            assert(texts_of(m@) =~= texts_of(before).insert(pairs@[i as int].0@, pairs@[i as int].1@));
        }
        i = i + 1;
    }
    assert(pairs@.subrange(0, pairs.len() as int) =~= pairs@);
    m
}

/// No key occurs twice among `pairs`.
pub open spec fn keys_unique(pairs: Seq<(Seq<char>, Seq<char>)>) -> bool {
    forall|i: int, j: int| 0 <= i < j < pairs.len() ==> #[trigger] pairs[i].0 != #[trigger] pairs[j].0
}

/// `m` with `key` set to `value` when there is a value.
pub open spec fn with_attr(m: Map<Seq<char>, Seq<char>>, key: Seq<char>, value: Option<Seq<char>>) -> Map<
    Seq<char>,
    Seq<char>,
> {
    match value {
        Some(v) => m.insert(key, v),
        None => m,
    }
}

/// Sets attribute `key` to `value` when there is a value.
pub fn put_attr(attributes: &mut TextMap<String>, key: &str, value: Option<String>)
    requires
        old(attributes).wf(),
    ensures
        final(attributes).wf(),
        texts_of(final(attributes)@) == with_attr(texts_of(old(attributes)@), key@, value.deep_view()),
{
    let ghost before = attributes@;
    let ghost v = value.deep_view();
    insert_attr(attributes, key, value);
    proof {
        assert(texts_of(attributes@) =~= with_attr(texts_of(before), key@, v));
    }
}

/// The text `to_string` gives for a `bool`.
pub open spec fn bool_text(b: bool) -> Seq<char> {
    if b {
        "true"@
    } else {
        "false"@
    }
}

/// The text `to_string` gives for a `bool`.
pub fn bool_to_text(b: bool) -> (r: String)
    ensures
        r@ == bool_text(b),
{
    if b {
        String::from_str("true")
    } else {
        String::from_str("false")
    }
}

} // verus!
