//! CloudWatch Logs.
use vstd::prelude::*;
use vstd::string::*;
use vstd::utf8::{decode_utf8, encode_utf8, encode_utf8_decode_utf8, is_char_boundary};

use crate::service_management::actions::{
    require_name_payload, require_typed_confirmation, required_text, typed_confirmation,
};
use crate::service_management::adapters::payload::{
    optional_i32, optional_payload_i32, require_resource_id, selected_resource,
};
use crate::service_management::adapters::{
    action_result, build_inventory, call_of, clamp, destructive, lemma_not_destructive,
    planned_call, planned_outcome, put_attr, result_view, shows, summary, texts_of, then_text,
    unsupported_action, unsupported_action_error, with_attr, CallReply, CallView, Planned,
    PlannedView,
};
use crate::service_management::errors::{ErrorView, ServiceManagementError};
use crate::service_management::models::{
    single_kind_tab, summary_views, tab, tab_views, ActionResult, ActionResultView, InventoryView,
    ResourceSummary, ResourceTab, ServiceActionRequest, ServiceInventory, ServiceSupportLevel,
    TabView,
};
use crate::text::{
    concat2, concat3, contains, contains_text, decimal, digits_of, int_text, lower_text,
    lower_text_exec, nat_text, text_eq,
};
use crate::service_management::text_map::TextMap;

verus! {

/// The tabs of the CloudWatch Logs inventory page.
pub open spec fn inventory_tabs() -> Seq<TabView> {
    seq![
        single_kind_tab("log-groups"@, "Log Groups"@, "log-group"@, "No CloudWatch log groups were found in the local emulator."@),
        single_kind_tab("streams"@, "Streams"@, "log-stream"@, "No CloudWatch log streams are loaded."@),
        single_kind_tab("events"@, "Events"@, "log-event"@, "Choose Tail recent events on a log group to fetch log events."@),
        single_kind_tab("filters"@, "Filters"@, "metric-filter"@, "No CloudWatch Logs metric filters are loaded."@),
        single_kind_tab("subscriptions"@, "Subscriptions"@, "subscription-filter"@, "No CloudWatch Logs subscription filters are loaded."@),
    ]
}

/// The tabs of the CloudWatch Logs inventory page.
pub fn tabs() -> (t: Vec<ResourceTab>)
    ensures
        tab_views(t@) == inventory_tabs(),
{
    let mut t: Vec<ResourceTab> = Vec::new();
    t.push(tab("log-groups", "Log Groups", "log-group", "No CloudWatch log groups were found in the local emulator."));
    t.push(tab("streams", "Streams", "log-stream", "No CloudWatch log streams are loaded."));
    t.push(tab("events", "Events", "log-event", "Choose Tail recent events on a log group to fetch log events."));
    t.push(tab("filters", "Filters", "metric-filter", "No CloudWatch Logs metric filters are loaded."));
    t.push(tab("subscriptions", "Subscriptions", "subscription-filter", "No CloudWatch Logs subscription filters are loaded."));
    assert(tab_views(t@) =~= inventory_tabs());
    t
}

/// A CloudWatch Logs call, with its validated inputs.
#[derive(Debug, Clone)]
pub enum Call {
    CreateLogGroup { log_group_name: String },
    TailRecentEvents { log_group_name: String, limit: i32 },
    DeleteLogGroup { confirmed_name: String, log_group_name: String },
}

impl View for Call {
    type V = CallView;

    open spec fn view(&self) -> CallView {
        match self {
            Call::CreateLogGroup { log_group_name } => call_of(
                "create_log_group"@,
                seq![log_group_name@],
                seq![],
            ),
            Call::TailRecentEvents { log_group_name, limit } => call_of(
                "tail_recent_events"@,
                seq![log_group_name@],
                seq![*limit as int],
            ),
            Call::DeleteLogGroup { confirmed_name, log_group_name } => call_of(
                "delete_log_group"@,
                seq![confirmed_name@, log_group_name@],
                seq![],
            ),
        }
    }
}

/// How many recent events to load: the `limit` field, 20 by default, kept within 1 to 100.
pub open spec fn tail_limit(request: ServiceActionRequest) -> int {
    clamp(
        match optional_i32(request, "limit"@) {
            Some(n) => n as int,
            None => 20,
        },
        1,
        100,
    )
}

/// What an action request on CloudWatch Logs asks for.
pub open spec fn action_plan(request: ServiceActionRequest) -> Result<PlannedView, ErrorView> {
    let a = request.action@;
    if a == "create_log_group"@ {
        then_text(
            required_text(request, "log_group_name"@),
            |name: Seq<char>| planned_call(a, seq![name], seq![]),
        )
    } else if a == "tail_recent_events"@ {
        then_text(
            selected_resource(request, "log-group/"@),
            |group: Seq<char>| planned_call(a, seq![group], seq![tail_limit(request)]),
        )
    } else if a == "delete_log_group"@ {
        then_text(
            typed_confirmation(request),
            |name: Seq<char>|
                then_text(
                    selected_resource(request, "log-group/"@),
                    |group: Seq<char>| planned_call(a, seq![name, group], seq![]),
                ),
        )
    } else {
        Err(unsupported_action_error(request))
    }
}

/// Validates an action request on CloudWatch Logs and decides the call to make.
pub fn plan_action(request: &ServiceActionRequest) -> (r: Result<Planned<Call>, ServiceManagementError>)
    requires
        request.payload.wf(),
    ensures
        planned_outcome(r) == action_plan(*request),
        r matches Ok(Planned::Call(Call::CreateLogGroup { log_group_name })) ==> {
            &&& request.action@ == "create_log_group"@
            &&& required_text(*request, "log_group_name"@) == Ok::<Seq<char>, ErrorView>(log_group_name@)
        },
        r matches Ok(Planned::Call(Call::TailRecentEvents { log_group_name, .. })) ==> {
            &&& request.action@ == "tail_recent_events"@
            &&& selected_resource(*request, "log-group/"@) == Ok::<Seq<char>, ErrorView>(log_group_name@)
        },
        r matches Ok(Planned::Call(Call::DeleteLogGroup { confirmed_name, log_group_name })) ==> {
            &&& request.action@ == "delete_log_group"@
            &&& typed_confirmation(*request) == Ok::<Seq<char>, ErrorView>(confirmed_name@)
            &&& selected_resource(*request, "log-group/"@) == Ok::<Seq<char>, ErrorView>(log_group_name@)
        },
{
    let action = request.action.as_str();
    if text_eq(action, "create_log_group") {
        let log_group_name = require_name_payload(request, "log_group_name")?;
        Ok(Planned::Call(Call::CreateLogGroup { log_group_name }))
    } else if text_eq(action, "tail_recent_events") {
        let log_group_name = require_resource_id(request, "log-group/")?;
        let requested: i32 = match optional_payload_i32(request, "limit") {
            Some(n) => n,
            None => 20,
        };
        let limit: i32 = if requested < 1 {
            1
        } else if requested > 100 {
            100
        } else {
            requested
        };
        Ok(Planned::Call(Call::TailRecentEvents { log_group_name, limit }))
    } else if text_eq(action, "delete_log_group") {
        let confirmed_name = require_typed_confirmation(request)?;
        let log_group_name = require_resource_id(request, "log-group/")?;
        Ok(Planned::Call(Call::DeleteLogGroup { confirmed_name, log_group_name }))
    } else {
        Err(unsupported_action(request))
    }
}

/// Words whose presence in a log message, in any ASCII case, hides the message.
pub open spec fn mentions_secret(message: Seq<char>) -> bool {
    let lower = lower_text(message);
    ||| contains(lower, "authorization"@)
    ||| contains(lower, "x-api-key"@)
    ||| contains(lower, "api_key"@)
    ||| contains(lower, "apikey"@)
    ||| contains(lower, "secret"@)
    ||| contains(lower, "token"@)
}

/// Longest preview of a log message, in bytes.
pub open spec fn max_preview_bytes() -> int {
    120
}

/// Whether a preview of `message` can be cut without splitting a character.
pub open spec fn previewable(message: Seq<char>) -> bool {
    encode_utf8(message).len() <= max_preview_bytes() || is_char_boundary(
        encode_utf8(message),
        max_preview_bytes(),
    )
}

/// Whether a preview of `message` can be cut at 120 bytes without splitting a
/// character, the condition under which `redact_log_message` may be called.
pub fn is_previewable(message: &str) -> (b: bool)
    ensures
        b == previewable(message@),
{
    message.as_bytes().len() <= 120 || message.is_char_boundary(120)
}

/// A log message as the inventory may show it: hidden when it mentions a
/// secret, cut to its first 120 bytes (followed by `...`) when longer.
pub open spec fn redacted_message(message: Seq<char>) -> Seq<char> {
    if mentions_secret(message) {
        "[redacted log event]"@
    } else if encode_utf8(message).len() <= max_preview_bytes() {
        message
    } else {
        decode_utf8(encode_utf8(message).subrange(0, max_preview_bytes())) + "..."@
    }
}

/// A log message that mentions, in any ASCII case, `authorization`,
/// `x-api-key`, `api_key`, `apikey`, `secret` or `token` is never shown: its
/// preview is the fixed text `[redacted log event]`. Any other message of at
/// most 120 bytes is shown whole, and a longer one is cut after its first 120
/// bytes and marked with `...`.
pub proof fn lemma_secret_messages_are_hidden(message: Seq<char>)
    ensures
        (contains(lower_text(message), "authorization"@) || contains(
            lower_text(message),
            "x-api-key"@,
        ) || contains(lower_text(message), "api_key"@) || contains(lower_text(message), "apikey"@)
            || contains(lower_text(message), "secret"@) || contains(lower_text(message), "token"@))
            ==> redacted_message(message) == "[redacted log event]"@,
        !mentions_secret(message) && encode_utf8(message).len() <= 120 ==> redacted_message(message)
            == message,
        !mentions_secret(message) && encode_utf8(message).len() > 120 ==> redacted_message(message)
            == decode_utf8(encode_utf8(message).subrange(0, 120)) + "..."@,
{
}

/// Hides log messages that mention secrets and shortens long ones.
pub fn redact_log_message(message: &str) -> (r: String)
    requires
        previewable(message@),
    ensures
        r@ == redacted_message(message@),
{
    let lower = lower_text_exec(message);
    let l = lower.as_str();
    if contains_text(l, "authorization") || contains_text(l, "x-api-key") || contains_text(
        l,
        "api_key",
    ) || contains_text(l, "apikey") || contains_text(l, "secret") || contains_text(l, "token") {
        return String::from_str("[redacted log event]");
    }
    let byte_len = message.as_bytes().len();
    if byte_len <= 120 {
        return String::from_str(message);
    }
    let (head, _) = message.split_at(120);
    proof {
        assert(encode_utf8(head@) =~= head.spec_bytes());
        encode_utf8_decode_utf8(head@);
    }
    concat2(head, "...")
}

/// The redacted message of the most recent event that has one, or a note
/// that there was none.
pub open spec fn latest_message(messages: Seq<Option<String>>) -> Seq<char>
    decreases messages.len(),
{
    if messages.len() == 0 {
        "No recent log events were returned."@
    } else {
        match messages.last() {
            Some(m) => redacted_message(m@),
            None => latest_message(messages.drop_last()),
        }
    }
}

/// Whether every message can be previewed.
pub open spec fn all_previewable(messages: Seq<Option<String>>) -> bool {
    forall|i: int|
        0 <= i < messages.len() ==> (#[trigger] messages[i] matches Some(m) ==> previewable(m@))
}

/// The redacted message of the most recent event that has one.
pub fn latest_event_message(messages: &Vec<Option<String>>) -> (r: String)
    requires
        all_previewable(messages@),
    ensures
        r@ == latest_message(messages@),
{
    let mut i: usize = messages.len();
    assert(messages@.subrange(0, i as int) =~= messages@);
    while i > 0
        invariant
            0 <= i <= messages@.len(),
            all_previewable(messages@),
            latest_message(messages@.subrange(0, i as int)) == latest_message(messages@),
        decreases i,
    {
        match &messages[i - 1] {
            Some(m) => {
                let r = redact_log_message(m.as_str());
                proof {
                    let pre = messages@.subrange(0, i as int);
                    assert(pre.last() == messages@[i - 1]);
                }
                return r;
            },
            None => {
                proof {
                    let pre = messages@.subrange(0, i as int);
                    assert(pre.drop_last() =~= messages@.subrange(0, i - 1));
                }
            },
        }
        i = i - 1;
    }
    String::from_str("No recent log events were returned.")
}

/// The result of `call` once it succeeded with `reply`; for
/// `tail_recent_events` the reply holds the messages of the returned events,
/// oldest first.
pub open spec fn result_of(call: Call, reply: CallReply) -> ActionResultView {
    match call {
        Call::CreateLogGroup { log_group_name } => result_view(
            true,
            "Created log group `"@ + log_group_name@ + "`."@,
            Some("log-group/"@ + log_group_name@),
        ),
        Call::TailRecentEvents { log_group_name, .. } => result_view(
            false,
            "Loaded "@ + digits_of(reply.messages@.len()) + " recent log event(s). Latest: "@
                + latest_message(reply.messages@),
            Some("log-group/"@ + log_group_name@),
        ),
        Call::DeleteLogGroup { confirmed_name, log_group_name } => result_view(
            true,
            "Deleted log group `"@ + confirmed_name@ + "`."@,
            Some("log-group/"@ + log_group_name@),
        ),
    }
}

/// The result reported once `call` succeeded with `reply`.
pub fn completed(call: &Call, reply: &CallReply) -> (r: ActionResult)
    requires
        all_previewable(reply.messages@),
    ensures
        r@ == result_of(*call, *reply),
{
    match call {
        Call::CreateLogGroup { log_group_name } => action_result(
            true,
            concat3("Created log group `", log_group_name.as_str(), "`."),
            Some(concat2("log-group/", log_group_name.as_str())),
        ),
        Call::TailRecentEvents { log_group_name, .. } => {
            let latest = latest_event_message(&reply.messages);
            let count = nat_text(reply.messages.len() as u64);
            let mut message = concat3("Loaded ", count.as_str(), " recent log event(s). Latest: ");
            message.append(latest.as_str());
            action_result(false, message, Some(concat2("log-group/", log_group_name.as_str())))
        },
        Call::DeleteLogGroup { confirmed_name, log_group_name } => action_result(
            true,
            concat3("Deleted log group `", confirmed_name.as_str(), "`."),
            Some(concat2("log-group/", log_group_name.as_str())),
        ),
    }
}

/// Every call planned for an action request performs the requested action.
pub proof fn lemma_plan_performs_requested_action(request: ServiceActionRequest)
    ensures
        action_plan(request) matches Ok(PlannedView::Call(c)) ==> c.name == request.action@,
{
}

/// A destructive action is only planned once the typed confirmation matches.
pub proof fn lemma_destructive_actions_are_confirmed(request: ServiceActionRequest)
    ensures
        action_plan(request) is Ok && destructive(request.action@) ==> typed_confirmation(request) is Ok,
{
    reveal_strlit("create_log_group");
    lemma_not_destructive("create_log_group"@);
    reveal_strlit("tail_recent_events");
    lemma_not_destructive("tail_recent_events"@);
}

/// A time in milliseconds as the inventory shows it: `<n> ms`.
pub open spec fn millis_text(t: Option<i64>) -> Option<Seq<char>> {
    match t {
        Some(v) => Some(decimal(v as int) + " ms"@),
        None => None,
    }
}

fn millis(t: Option<i64>) -> (r: Option<String>)
    ensures
        r.deep_view() == millis_text(t),
{
    match t {
        Some(v) => {
            let mut text = int_text(v);
            text.append(" ms");
            Some(text)
        },
        None => None,
    }
}

/// The resource listed for a log stream: `active` once it has an event, `idle` before.
pub fn stream_summary(
    log_group_name: &str,
    log_stream_name: &str,
    creation_time: Option<i64>,
    last_event_timestamp: Option<i64>,
    last_ingestion_time: Option<i64>,
) -> (r: ResourceSummary)
    ensures
        r.wf(),
        shows(
            r@,
            "log-stream/"@ + log_group_name@ + "/"@ + log_stream_name@,
            log_stream_name@,
            "log-stream"@,
            if last_event_timestamp is Some {
                "active"@
            } else {
                "idle"@
            },
            millis_text(creation_time),
            millis_text(last_event_timestamp),
            with_attr(
                with_attr(
                    with_attr(
                        map!["log_group_name"@ => log_group_name@],
                        "creation_time"@,
                        millis_text(creation_time),
                    ),
                    "last_event_timestamp"@,
                    millis_text(last_event_timestamp),
                ),
                "last_ingestion_time"@,
                millis_text(last_ingestion_time),
            ),
        ),
{
    let status = if last_event_timestamp.is_some() {
        String::from_str("active")
    } else {
        String::from_str("idle")
    };
    let mut attributes: TextMap<String> = TextMap::new();
    attributes.insert(String::from_str("log_group_name"), String::from_str(log_group_name));
    proof {
        assert(texts_of(attributes@) =~= map!["log_group_name"@ => log_group_name@]);
    }
    put_attr(&mut attributes, "creation_time", millis(creation_time));
    put_attr(&mut attributes, "last_event_timestamp", millis(last_event_timestamp));
    put_attr(&mut attributes, "last_ingestion_time", millis(last_ingestion_time));
    let mut id = concat3("log-stream/", log_group_name, "/");
    id.append(log_stream_name);
    summary(
        id,
        String::from_str(log_stream_name),
        "log-stream",
        status,
        millis(creation_time),
        millis(last_event_timestamp),
        attributes,
    )
}

/// The status of a log group: `<days>d retention`, or `never expire` when it
/// keeps its events for good.
pub open spec fn retention_text(retention_in_days: Option<i32>) -> Seq<char> {
    match retention_in_days {
        Some(days) => decimal(days as int) + "d retention"@,
        None => "never expire"@,
    }
}

/// The attributes listed for a log group.
pub open spec fn log_group_attributes(
    arn: Option<Seq<char>>,
    log_group_arn: Option<Seq<char>>,
    retention_in_days: Option<i32>,
    stored_bytes: Option<i64>,
    creation_time: Option<i64>,
) -> Map<Seq<char>, Seq<char>> {
    let m = with_attr(Map::empty(), "arn"@, arn);
    let m = with_attr(m, "log_group_arn"@, log_group_arn);
    let m = with_attr(
        m,
        "retention_in_days"@,
        match retention_in_days {
            Some(d) => Some(decimal(d as int)),
            None => None,
        },
    );
    let m = with_attr(
        m,
        "stored_bytes"@,
        match stored_bytes {
            Some(b) => Some(decimal(b as int)),
            None => None,
        },
    );
    with_attr(m, "creation_time"@, millis_text(creation_time))
}

fn optional_decimal(n: Option<i64>) -> (r: Option<String>)
    ensures
        r.deep_view() == (match n {
            Some(v) => Some(decimal(v as int)),
            None => None::<Seq<char>>,
        }),
{
    match n {
        Some(v) => Some(int_text(v)),
        None => None,
    }
}

/// The resource listed for a log group.
pub fn log_group_summary(
    log_group_name: &str,
    arn: Option<String>,
    log_group_arn: Option<String>,
    retention_in_days: Option<i32>,
    stored_bytes: Option<i64>,
    creation_time: Option<i64>,
) -> (r: ResourceSummary)
    ensures
        r.wf(),
        shows(
            r@,
            "log-group/"@ + log_group_name@,
            log_group_name@,
            "log-group"@,
            retention_text(retention_in_days),
            millis_text(creation_time),
            None,
            log_group_attributes(arn.deep_view(), log_group_arn.deep_view(), retention_in_days, stored_bytes, creation_time),
        ),
{
    let ghost views = (arn.deep_view(), log_group_arn.deep_view());
    let status = match retention_in_days {
        Some(days) => {
            let mut text = int_text(days as i64);
            text.append("d retention");
            text
        },
        None => String::from_str("never expire"),
    };
    let days = match retention_in_days {
        Some(d) => Some(d as i64),
        None => None,
    };
    let mut attributes: TextMap<String> = TextMap::new();
    assert(texts_of(attributes@) =~= Map::<Seq<char>, Seq<char>>::empty());
    put_attr(&mut attributes, "arn", arn);
    put_attr(&mut attributes, "log_group_arn", log_group_arn);
    put_attr(&mut attributes, "retention_in_days", optional_decimal(days));
    put_attr(&mut attributes, "stored_bytes", optional_decimal(stored_bytes));
    put_attr(&mut attributes, "creation_time", millis(creation_time));
    assert(texts_of(attributes@) == log_group_attributes(views.0, views.1, retention_in_days, stored_bytes, creation_time));
    summary(
        concat2("log-group/", log_group_name),
        String::from_str(log_group_name),
        "log-group",
        status,
        millis(creation_time),
        None,
        attributes,
    )
}

/// The resource listed for a metric filter of a log group, with the number of
/// its metric transformations.
pub fn metric_filter_summary(
    log_group_name: &str,
    filter_name: &str,
    filter_log_group: Option<String>,
    filter_pattern: Option<String>,
    metric_transformations: usize,
    creation_time: Option<i64>,
) -> (r: ResourceSummary)
    ensures
        r.wf(),
        shows(
            r@,
            "metric-filter/"@ + log_group_name@ + "/"@ + filter_name@,
            filter_name@,
            "metric-filter"@,
            "configured"@,
            millis_text(creation_time),
            None,
            with_attr(
                with_attr(Map::empty(), "log_group_name"@, filter_log_group.deep_view()),
                "filter_pattern"@,
                filter_pattern.deep_view(),
            ).insert("metric_transformations"@, digits_of(metric_transformations as nat)),
        ),
{
    let mut attributes: TextMap<String> = TextMap::new();
    assert(texts_of(attributes@) =~= Map::<Seq<char>, Seq<char>>::empty());
    put_attr(&mut attributes, "log_group_name", filter_log_group);
    put_attr(&mut attributes, "filter_pattern", filter_pattern);
    let ghost before = attributes@;
    let count = nat_text(metric_transformations as u64);
    let ghost c = count@;
    attributes.insert(String::from_str("metric_transformations"), count);
    assert(texts_of(attributes@) =~= texts_of(before).insert("metric_transformations"@, c));
    let mut id = concat3("metric-filter/", log_group_name, "/");
    id.append(filter_name);
    summary(
        id,
        String::from_str(filter_name),
        "metric-filter",
        String::from_str("configured"),
        millis(creation_time),
        None,
        attributes,
    )
}

/// The note shown in place of a subscription filter's role ARN.
pub open spec fn role_note() -> Seq<char> {
    "Sensitive role ARN redacted from inventory."@
}

/// The resource listed for a subscription filter of a log group. Its role ARN
/// is never shown: when it has one, the attribute only holds the redaction note.
pub fn subscription_filter_summary(
    log_group_name: &str,
    filter_name: &str,
    filter_log_group: Option<String>,
    filter_pattern: Option<String>,
    destination_arn: Option<String>,
    has_role: bool,
    creation_time: Option<i64>,
) -> (r: ResourceSummary)
    ensures
        r.wf(),
        shows(
            r@,
            "subscription-filter/"@ + log_group_name@ + "/"@ + filter_name@,
            filter_name@,
            "subscription-filter"@,
            "configured"@,
            millis_text(creation_time),
            None,
            with_attr(
                with_attr(
                    with_attr(
                        with_attr(Map::empty(), "log_group_name"@, filter_log_group.deep_view()),
                        "filter_pattern"@,
                        filter_pattern.deep_view(),
                    ),
                    "destination_arn"@,
                    destination_arn.deep_view(),
                ),
                "role_arn"@,
                if has_role { Some(role_note()) } else { None },
            ),
        ),
{
    let mut attributes: TextMap<String> = TextMap::new();
    assert(texts_of(attributes@) =~= Map::<Seq<char>, Seq<char>>::empty());
    put_attr(&mut attributes, "log_group_name", filter_log_group);
    put_attr(&mut attributes, "filter_pattern", filter_pattern);
    put_attr(&mut attributes, "destination_arn", destination_arn);
    let note = if has_role {
        Some(String::from_str("Sensitive role ARN redacted from inventory."))
    } else {
        None
    };
    put_attr(&mut attributes, "role_arn", note);
    let mut id = concat3("subscription-filter/", log_group_name, "/");
    id.append(filter_name);
    summary(
        id,
        String::from_str(filter_name),
        "subscription-filter",
        String::from_str("configured"),
        millis(creation_time),
        None,
        attributes,
    )
}

/// The operations the CloudWatch Logs page lists as unavailable.
pub open spec fn unsupported_operations() -> Seq<Seq<char>> {
    seq!["events_require_explicit_tail"@]
}

/// The name under which the service's inventory page is shown.
pub open spec fn label() -> Seq<char> {
    "CloudWatch Logs"@
}

/// How far this adapter supports the service: it manages its resources.
pub open spec fn support_level() -> ServiceSupportLevel {
    ServiceSupportLevel::Managed
}

/// The CloudWatch Logs inventory page: the listed `resources` under the CloudWatch Logs tabs, refreshed
/// at `refreshed_at`.
pub fn inventory(
    resources: Vec<ResourceSummary>,
    refreshed_at: String,
) -> (inv: ServiceInventory)
    ensures
        inv@ == (InventoryView {
            service_key: "cloudwatchlogs"@,
            service_label: label(),
            support_level: support_level(),
            refreshed_at: refreshed_at@,
            tabs: inventory_tabs(),
            resources: summary_views(resources@),
            unsupported_operations: unsupported_operations(),
        }),
{
    let mut ops: Vec<String> = Vec::new();
    ops.push(String::from_str("events_require_explicit_tail"));
    proof {
        assert(ops.deep_view() =~= unsupported_operations());
    }
    build_inventory(
        "cloudwatchlogs",
        "CloudWatch Logs",
        ServiceSupportLevel::Managed,
        refreshed_at,
        tabs(),
        resources,
        ops,
    )
}

} // verus!
