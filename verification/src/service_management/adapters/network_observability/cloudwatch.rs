//! CloudWatch.
use vstd::prelude::*;
use vstd::string::*;

use crate::service_management::actions::{
    require_name_payload, require_typed_confirmation, required_text, typed_confirmation,
};
use crate::service_management::adapters::payload::{
    clamp_i32, i32_or, optional_i32, optional_payload_i32_or, require_payload_text,
    require_resource_id, selected_resource,
};
use crate::service_management::adapters::{
    action_result, build_inventory, call_of, clamp, destructive, lemma_not_destructive, number_text,
    optional_number_text, planned_call, planned_outcome, put_attr, result_view, shows, summary,
    text_or, texts_of, then_text, unsupported_action, unsupported_action_error, with_attr,
    CallReply, CallView, Planned, PlannedView,
};
use crate::service_management::errors::{ErrorView, ServiceManagementError};
use crate::service_management::models::{
    single_kind_tab, summary_views, tab, tab_views, ActionResult, ActionResultView, InventoryView,
    ResourceSummary, ResourceTab, ServiceActionRequest, ServiceInventory, ServiceSupportLevel,
    TabView,
};
use crate::service_management::text_map::TextMap;
use crate::text::{concat2, concat4, concat5, decimal, digits_of, int_text, nat_text, text_eq};
use crate::service_management::errors::invalid_input_error;
use crate::text::{
    head_piece, push_char, slice_chars, split_head, split_once, split_once_text, tail_piece, trim,
    trim_text,
};
use crate::text::{has_char, lemma_split_once_after};

verus! {

/// The tabs of the CloudWatch inventory page.
pub open spec fn inventory_tabs() -> Seq<TabView> {
    seq![
        single_kind_tab("metrics"@, "Metrics"@, "metric"@, "No CloudWatch metrics found."@),
        single_kind_tab("alarms"@, "Alarms"@, "alarm"@, "No CloudWatch alarms found."@),
        single_kind_tab("dashboards"@, "Dashboards"@, "dashboard"@, "No CloudWatch dashboards found."@),
        single_kind_tab("queries"@, "Queries"@, "query-result"@, "Metric query results are loaded through explicit actions."@),
    ]
}

/// The tabs of the CloudWatch inventory page.
pub fn tabs() -> (t: Vec<ResourceTab>)
    ensures
        tab_views(t@) == inventory_tabs(),
{
    let mut t: Vec<ResourceTab> = Vec::new();
    t.push(tab("metrics", "Metrics", "metric", "No CloudWatch metrics found."));
    t.push(tab("alarms", "Alarms", "alarm", "No CloudWatch alarms found."));
    t.push(tab("dashboards", "Dashboards", "dashboard", "No CloudWatch dashboards found."));
    t.push(tab("queries", "Queries", "query-result", "Metric query results are loaded through explicit actions."));
    assert(tab_views(t@) =~= inventory_tabs());
    t
}

/// The pieces of `s` between commas, as `str::split(',')` yields them.
pub open spec fn comma_pieces(s: Seq<char>) -> Seq<Seq<char>>
    decreases s.len(),
{
    if s.len() == 0 {
        seq![Seq::empty()]
    } else {
        let prev = comma_pieces(s.drop_last());
        if s.last() == ',' {
            prev.push(Seq::empty())
        } else {
            prev.update(prev.len() - 1, prev.last().push(s.last()))
        }
    }
}

proof fn lemma_comma_pieces_len(s: Seq<char>)
    ensures
        comma_pieces(s).len() >= 1,
    decreases s.len(),
{
    if s.len() > 0 {
        lemma_comma_pieces_len(s.drop_last());
    }
}

/// The dimension that one `name=value` piece stands for: both sides trimmed
/// and not empty.
pub open spec fn dimension_of(piece: Seq<char>) -> Option<(Seq<char>, Seq<char>)> {
    match split_once(piece, "="@) {
        Some(parts) => if trim(parts.0).len() > 0 && trim(parts.1).len() > 0 {
            Some((trim(parts.0), trim(parts.1)))
        } else {
            None
        },
        None => None,
    }
}

/// The dimensions that the pieces stand for, in order.
pub open spec fn dimensions_of(pieces: Seq<Seq<char>>) -> Seq<(Seq<char>, Seq<char>)>
    decreases pieces.len(),
{
    if pieces.len() == 0 {
        seq![]
    } else {
        let rest = dimensions_of(pieces.drop_last());
        match dimension_of(pieces.last()) {
            Some(d) => rest.push(d),
            None => rest,
        }
    }
}

/// The view of a list of dimensions.
pub open spec fn dimension_views(v: Seq<(String, String)>) -> Seq<(Seq<char>, Seq<char>)> {
    v.map_values(|d: (String, String)| (d.0@, d.1@))
}

/// Reads the `name=value` pairs of a comma-separated dimension list, skipping
/// pieces without `=` or with an empty side.
pub fn parse_dimensions(value: &str) -> (r: Vec<(String, String)>)
    ensures
        dimension_views(r@) == dimensions_of(comma_pieces(value@)),
{
    let n = value.unicode_len();
    let mut pieces: Vec<String> = Vec::new();
    let mut current = String::new();
    let mut i: usize = 0;
    while i < n
        invariant
            n == value@.len(),
            0 <= i <= n,
            pieces.deep_view().push(current@) == comma_pieces(value@.subrange(0, i as int)),
        decreases n - i,
    {
        let c = value.get_char(i);
        proof {
            let s = value@.subrange(0, i + 1);
            assert(s.drop_last() =~= value@.subrange(0, i as int));
            assert(s.last() == c);
            lemma_comma_pieces_len(value@.subrange(0, i as int));
        }
        if c == ',' {
            pieces.push(current);
            current = String::new();
            proof {
                assert(pieces.deep_view().push(current@) =~= comma_pieces(value@.subrange(0, i + 1)));
            }
        } else {
            let ghost before = pieces.deep_view().push(current@);
            push_char(&mut current, c);
            proof {
                assert(pieces.deep_view().push(current@) =~= before.update(
                    before.len() - 1,
                    before.last().push(c),
                ));
            }
        }
        i = i + 1;
    }
    pieces.push(current);
    assert(value@.subrange(0, n as int) =~= value@);
    let mut out: Vec<(String, String)> = Vec::new();
    let mut j: usize = 0;
    while j < pieces.len()
        invariant
            0 <= j <= pieces.len(),
            pieces.deep_view() == comma_pieces(value@),
            dimension_views(out@) == dimensions_of(pieces.deep_view().subrange(0, j as int)),
        decreases pieces.len() - j,
    {
        proof {
            let ps = pieces.deep_view().subrange(0, j + 1);
            assert(ps.drop_last() =~= pieces.deep_view().subrange(0, j as int));
            assert(ps.last() == pieces[j as int]@);
        }
        match split_once_text(pieces[j].as_str(), "=") {
            Some(parts) => {
                let name = trim_text(parts.0.as_str());
                let v = trim_text(parts.1.as_str());
                if name.as_str().unicode_len() > 0 && v.as_str().unicode_len() > 0 {
                    let ghost prev = out@;
                    let ghost d = (name@, v@);
                    out.push((name, v));
                    proof {
                        assert(dimension_views(out@) =~= dimension_views(prev).push(d));
                    }
                }
            },
            None => {},
        }
        j = j + 1;
    }
    assert(pieces.deep_view().subrange(0, pieces.len() as int) =~= pieces.deep_view());
    out
}

/// The namespace, metric name and dimension list of a selected metric id
/// `<namespace>||<metric>||<dimensions>`; namespace and name must not be empty.
pub open spec fn metric_parts(request: ServiceActionRequest, metric_id: Seq<char>) -> Result<
    (Seq<char>, Seq<char>, Seq<char>),
    ErrorView,
> {
    let namespace = head_piece(metric_id, "||"@);
    let rest = tail_piece(metric_id, "||"@);
    let metric_name = head_piece(rest, "||"@);
    let dimensions = tail_piece(rest, "||"@);
    if namespace.len() == 0 || metric_name.len() == 0 {
        Err(
            invalid_input_error(
                request.service_key@,
                request.action@,
                "Select a CloudWatch metric before running this action."@,
            ),
        )
    } else {
        Ok((namespace, metric_name, dimensions))
    }
}

/// The view of a triple-or-error outcome.
pub open spec fn triple_outcome(r: Result<(String, String, String), ServiceManagementError>) -> Result<
    (Seq<char>, Seq<char>, Seq<char>),
    ErrorView,
> {
    match r {
        Ok(t) => Ok((t.0@, t.1@, t.2@)),
        Err(e) => Err(e@),
    }
}

/// Splits a selected metric id into namespace, metric name and dimension list.
pub fn selected_metric(request: &ServiceActionRequest, metric_id: &str) -> (r: Result<
    (String, String, String),
    ServiceManagementError,
>)
    ensures
        triple_outcome(r) == metric_parts(*request, metric_id@),
{
    let (namespace, rest) = split_head(metric_id, "||");
    let (metric_name, dimensions) = split_head(rest.as_str(), "||");
    if namespace.unicode_len() == 0 || metric_name.unicode_len() == 0 {
        return Err(
            ServiceManagementError::invalid_input(
                request.service_key.as_str(),
                request.action.as_str(),
                "Select a CloudWatch metric before running this action.",
            ),
        );
    }
    Ok((namespace, metric_name, dimensions))
}

/// The `name=value` pairs of dimensions joined with commas, as metric ids hold them.
pub open spec fn dimension_key_of(dims: Seq<(Seq<char>, Seq<char>)>) -> Seq<char>
    decreases dims.len(),
{
    if dims.len() == 0 {
        Seq::empty()
    } else if dims.len() == 1 {
        dims[0].0 + "="@ + dims[0].1
    } else {
        dimension_key_of(dims.drop_last()) + ","@ + dims.last().0 + "="@ + dims.last().1
    }
}

/// Joins dimensions as `name=value` pairs separated by commas.
pub fn dimension_key(dims: &Vec<(String, String)>) -> (r: String)
    ensures
        r@ == dimension_key_of(dimension_views(dims@)),
{
    let mut out = String::new();
    let mut i: usize = 0;
    while i < dims.len()
        invariant
            0 <= i <= dims.len(),
            out@ == dimension_key_of(dimension_views(dims@.subrange(0, i as int))),
        decreases dims.len() - i,
    {
        proof {
            let d = dimension_views(dims@.subrange(0, i + 1));
            assert(d.drop_last() =~= dimension_views(dims@.subrange(0, i as int)));
            assert(d.last() == (dims@[i as int].0@, dims@[i as int].1@));
        }
        if i > 0 {
            out.append(",");
        } else {
            proof {
                assert(out@ =~= Seq::<char>::empty());
            }
        }
        out.append(dims[i].0.as_str());
        out.append("=");
        out.append(dims[i].1.as_str());
        proof {
            if i == 0 {
                assert(out@ =~= dims@[0].0@ + "="@ + dims@[0].1@);
            }
        }
        i = i + 1;
    }
    assert(dims@.subrange(0, dims.len() as int) =~= dims@);
    out
}

/// A preview of at most `max_chars` characters, marked with `...` when shortened.
pub open spec fn preview(value: Seq<char>, max_chars: nat) -> Seq<char> {
    if value.len() <= max_chars {
        value
    } else {
        value.subrange(0, max_chars as int) + "..."@
    }
}

/// Shortens `value` to `max_chars` characters followed by `...` when it is longer.
pub fn trim_preview(value: &str, max_chars: usize) -> (r: String)
    ensures
        r@ == preview(value@, max_chars as nat),
{
    if value.unicode_len() <= max_chars {
        return String::from_str(value);
    }
    let mut out = slice_chars(value, 0, max_chars);
    out.append("...");
    out
}

/// The description given to alarms created from the app.
pub open spec fn alarm_description(namespace: Seq<char>, metric_name: Seq<char>) -> Seq<char> {
    "Managed by Floci UI for "@ + namespace + "/"@ + metric_name + "."@
}

/// The id under which a metric is listed:
/// `metric/<namespace>||<metric name>||<dimensions>`.
pub open spec fn metric_id_text(namespace: Seq<char>, metric_name: Seq<char>, dimensions: Seq<char>) -> Seq<char> {
    "metric/"@ + namespace + "||"@ + metric_name + "||"@ + dimensions
}

/// The attributes listed for a metric: its namespace, how many dimensions it
/// has, and the dimensions themselves when there are any.
pub open spec fn metric_attributes(namespace: Seq<char>, dimension_count: nat, dimensions: Seq<char>) -> Map<
    Seq<char>,
    Seq<char>,
> {
    let m = map!["namespace"@ => namespace, "dimension_count"@ => digits_of(dimension_count)];
    if dimensions.len() > 0 {
        m.insert("dimensions"@, dimensions)
    } else {
        m
    }
}

/// The resource listed for a metric.
pub fn metric_summary(namespace: &str, metric_name: &str, dimensions: &Vec<(String, String)>) -> (r: ResourceSummary)
    ensures
        r.wf(),
        shows(
            r@,
            metric_id_text(namespace@, metric_name@, dimension_key_of(dimension_views(dimensions@))),
            metric_name@,
            "metric"@,
            "available"@,
            None,
            None,
            metric_attributes(
                namespace@,
                dimensions.len() as nat,
                dimension_key_of(dimension_views(dimensions@)),
            ),
        ),
{
    let key = dimension_key(dimensions);
    let ghost k = key@;
    let count: u64 = dimensions.len() as u64;
    let mut attributes: TextMap<String> = TextMap::new();
    attributes.insert(String::from_str("namespace"), String::from_str(namespace));
    let digits = nat_text(count);
    let ghost d = digits@;
    attributes.insert(String::from_str("dimension_count"), digits);
    assert(texts_of(attributes@) =~= map!["namespace"@ => namespace@, "dimension_count"@ => d]);
    let mut id = concat4("metric/", namespace, "||", metric_name);
    id.append("||");
    id.append(key.as_str());
    if key.unicode_len() > 0 {
        let ghost before = attributes@;
        attributes.insert(String::from_str("dimensions"), key);
        assert(texts_of(attributes@) =~= texts_of(before).insert("dimensions"@, k));
    }
    summary(id, String::from_str(metric_name), "metric", String::from_str("available"), None, None, attributes)
}

/// A metric id listed by the inventory splits back into the metric's
/// namespace, name and dimensions, when neither namespace nor name is empty or
/// holds a `|`.
pub proof fn lemma_listed_metric_is_selectable(
    request: ServiceActionRequest,
    namespace: Seq<char>,
    metric_name: Seq<char>,
    dimensions: Seq<char>,
)
    requires
        namespace.len() > 0,
        metric_name.len() > 0,
        !has_char(namespace, '|'),
        !has_char(metric_name, '|'),
    ensures
        metric_parts(request, namespace + "||"@ + metric_name + "||"@ + dimensions) == Ok::<
            (Seq<char>, Seq<char>, Seq<char>),
            ErrorView,
        >((namespace, metric_name, dimensions)),
{
    reveal_strlit("||");
    let rest = metric_name + "||"@ + dimensions;
    assert(namespace + "||"@ + metric_name + "||"@ + dimensions =~= namespace + "||"@ + rest);
    lemma_split_once_after(namespace, "||"@, rest);
    lemma_split_once_after(metric_name, "||"@, dimensions);
}

/// The attributes listed for an alarm.
pub open spec fn alarm_attributes(
    metric_name: Option<Seq<char>>,
    namespace: Option<Seq<char>>,
    threshold: Option<Seq<char>>,
    comparison_operator: Option<Seq<char>>,
    dimension_count: nat,
    state_reason: Option<Seq<char>>,
) -> Map<Seq<char>, Seq<char>> {
    let m = with_attr(Map::empty(), "metric_name"@, metric_name);
    let m = with_attr(m, "namespace"@, namespace);
    let m = with_attr(m, "threshold"@, threshold);
    let m = with_attr(m, "comparison_operator"@, comparison_operator);
    let m = m.insert("dimension_count"@, digits_of(dimension_count));
    with_attr(
        m,
        "state_reason"@,
        match state_reason {
            Some(reason) => Some(preview(reason, 160)),
            None => None,
        },
    )
}

/// The resource listed for a metric alarm: its status is its state (`unknown`
/// when it reports none), and the reason for that state is cut to 160 characters.
pub fn alarm_summary(
    alarm_name: &str,
    state: Option<String>,
    configured_at: Option<String>,
    state_updated_at: Option<String>,
    metric_name: Option<String>,
    namespace: Option<String>,
    threshold: Option<String>,
    comparison_operator: Option<String>,
    dimension_count: usize,
    state_reason: Option<String>,
) -> (r: ResourceSummary)
    ensures
        r.wf(),
        shows(
            r@,
            "alarm/"@ + alarm_name@,
            alarm_name@,
            "alarm"@,
            text_or(state.deep_view(), "unknown"@),
            configured_at.deep_view(),
            state_updated_at.deep_view(),
            alarm_attributes(
                metric_name.deep_view(),
                namespace.deep_view(),
                threshold.deep_view(),
                comparison_operator.deep_view(),
                dimension_count as nat,
                state_reason.deep_view(),
            ),
        ),
{
    let ghost views = (
        metric_name.deep_view(),
        namespace.deep_view(),
        threshold.deep_view(),
        comparison_operator.deep_view(),
        state_reason.deep_view(),
    );
    let status = match state {
        Some(s) => s,
        None => String::from_str("unknown"),
    };
    let mut attributes: TextMap<String> = TextMap::new();
    assert(texts_of(attributes@) =~= Map::<Seq<char>, Seq<char>>::empty());
    put_attr(&mut attributes, "metric_name", metric_name);
    put_attr(&mut attributes, "namespace", namespace);
    put_attr(&mut attributes, "threshold", threshold);
    put_attr(&mut attributes, "comparison_operator", comparison_operator);
    let ghost before = attributes@;
    let count = nat_text(dimension_count as u64);
    let ghost c = count@;
    attributes.insert(String::from_str("dimension_count"), count);
    assert(texts_of(attributes@) =~= texts_of(before).insert("dimension_count"@, c));
    let reason = match &state_reason {
        Some(text) => Some(trim_preview(text.as_str(), 160)),
        None => None,
    };
    put_attr(&mut attributes, "state_reason", reason);
    assert(texts_of(attributes@) == alarm_attributes(
        views.0,
        views.1,
        views.2,
        views.3,
        dimension_count as nat,
        views.4,
    ));
    summary(
        concat2("alarm/", alarm_name),
        String::from_str(alarm_name),
        "alarm",
        status,
        configured_at,
        state_updated_at,
        attributes,
    )
}

/// The resource listed for a dashboard.
pub fn dashboard_summary(
    dashboard_name: &str,
    dashboard_arn: Option<String>,
    size_bytes: Option<i64>,
    last_modified: Option<String>,
) -> (r: ResourceSummary)
    ensures
        r.wf(),
        shows(
            r@,
            "dashboard/"@ + dashboard_name@,
            dashboard_name@,
            "dashboard"@,
            "available"@,
            None,
            last_modified.deep_view(),
            with_attr(
                with_attr(Map::empty(), "dashboard_arn"@, dashboard_arn.deep_view()),
                "size_bytes"@,
                number_text(size_bytes),
            ),
        ),
{
    let mut attributes: TextMap<String> = TextMap::new();
    assert(texts_of(attributes@) =~= Map::<Seq<char>, Seq<char>>::empty());
    put_attr(&mut attributes, "dashboard_arn", dashboard_arn);
    put_attr(&mut attributes, "size_bytes", optional_number_text(size_bytes));
    summary(
        concat2("dashboard/", dashboard_name),
        String::from_str(dashboard_name),
        "dashboard",
        String::from_str("available"),
        None,
        last_modified,
        attributes,
    )
}

/// A call to CloudWatch, with its validated inputs.
#[derive(Debug, Clone)]
pub enum Call {
    QueryMetricData { metric_id: String, namespace: String, metric_name: String, dimensions: String, period: i32, window_seconds: i32 },
    CreateAlarm { namespace: String, metric_name: String, dimensions: String, alarm_name: String, threshold: String, description: String, period: i32, evaluation_periods: i32 },
    DeleteAlarm { alarm_name: String },
}

impl View for Call {
    type V = CallView;

    open spec fn view(&self) -> CallView {
        match self {
            Call::QueryMetricData { metric_id, namespace, metric_name, dimensions, period, window_seconds } => call_of(
                "query_metric_data"@,
                seq![metric_id@, namespace@, metric_name@, dimensions@],
                seq![*period as int, *window_seconds as int],
            ),
            Call::CreateAlarm { namespace, metric_name, dimensions, alarm_name, threshold, description, period, evaluation_periods } => call_of(
                "create_alarm"@,
                seq![namespace@, metric_name@, dimensions@, alarm_name@, threshold@, description@],
                seq![*period as int, *evaluation_periods as int],
            ),
            Call::DeleteAlarm { alarm_name } => call_of(
                "delete_alarm"@,
                seq![alarm_name@],
                seq![],
            ),
        }
    }
}

/// What an action request on CloudWatch asks for.
pub open spec fn action_plan(request: ServiceActionRequest) -> Result<PlannedView, ErrorView> {
    let a = request.action@;
    if a == "query_metric_data"@ {
        then_text(
            selected_resource(request, "metric/"@),
            |metric_id: Seq<char>|
                match metric_parts(request, metric_id) {
                    Ok(p) => {
                        let namespace = p.0;
                        let metric_name = p.1;
                        let dimensions = p.2;
                        {
                            let period = clamp(i32_or(optional_i32(request, "period"@), 60), 1, 86400);
                            {
                                let window_seconds = clamp(i32_or(optional_i32(request, "window_seconds"@), 3600), period, 604800);
                                planned_call(a, seq![metric_id, namespace, metric_name, dimensions], seq![period, window_seconds])
                            }
                        }
                    },
                    Err(e) => Err(e),
                },
        )
    } else if a == "create_alarm"@ {
        then_text(
            selected_resource(request, "metric/"@),
            |metric_id: Seq<char>|
                match metric_parts(request, metric_id) {
                    Ok(p) => {
                        let namespace = p.0;
                        let metric_name = p.1;
                        let dimensions = p.2;
                        then_text(
                            required_text(request, "alarm_name"@),
                            |alarm_name: Seq<char>|
                                then_text(
                                    required_text(request, "threshold"@),
                                    |threshold: Seq<char>|
                                        {
                                            let period = clamp(i32_or(optional_i32(request, "period"@), 60), 1, 86400);
                                            {
                                                let evaluation_periods = clamp(i32_or(optional_i32(request, "evaluation_periods"@), 1), 1, 100);
                                                {
                                                    let description = alarm_description(namespace, metric_name);
                                                    planned_call(a, seq![namespace, metric_name, dimensions, alarm_name, threshold, description], seq![period, evaluation_periods])
                                                }
                                            }
                                        },
                                ),
                        )
                    },
                    Err(e) => Err(e),
                },
        )
    } else if a == "delete_alarm"@ {
        then_text(
            selected_resource(request, "alarm/"@),
            |alarm_name: Seq<char>|
                then_text(
                    typed_confirmation(request),
                    |_confirmed: Seq<char>|
                        planned_call(a, seq![alarm_name], seq![]),
                ),
        )
    } else {
        Err(unsupported_action_error(request))
    }
}

/// Validates an action request on CloudWatch and decides what to do.
pub fn plan_action(request: &ServiceActionRequest) -> (r: Result<Planned<Call>, ServiceManagementError>)
    requires
        request.payload.wf(),
    ensures
        planned_outcome(r) == action_plan(*request),
        r matches Ok(Planned::Call(Call::QueryMetricData { metric_id, .. })) ==> {
            &&& request.action@ == "query_metric_data"@
            &&& selected_resource(*request, "metric/"@) == Ok::<Seq<char>, ErrorView>(metric_id@)
        },
        r matches Ok(Planned::Call(Call::CreateAlarm { alarm_name, threshold, .. })) ==> {
            &&& request.action@ == "create_alarm"@
            &&& required_text(*request, "alarm_name"@) == Ok::<Seq<char>, ErrorView>(alarm_name@)
            &&& required_text(*request, "threshold"@) == Ok::<Seq<char>, ErrorView>(threshold@)
        },
        r matches Ok(Planned::Call(Call::DeleteAlarm { alarm_name })) ==> {
            &&& request.action@ == "delete_alarm"@
            &&& selected_resource(*request, "alarm/"@) == Ok::<Seq<char>, ErrorView>(alarm_name@)
        },
{
    let action = request.action.as_str();
    if text_eq(action, "query_metric_data") {
        let metric_id = require_resource_id(request, "metric/")?;
        let (namespace, metric_name, dimensions) = selected_metric(request, metric_id.as_str())?;
        let period: i32 = optional_payload_i32_or(request, "period", 60);
        let period: i32 = clamp_i32(period, 1, 86400);
        let window_seconds: i32 = optional_payload_i32_or(request, "window_seconds", 3600);
        let window_seconds: i32 = clamp_i32(window_seconds, period, 604800);
        Ok(Planned::Call(Call::QueryMetricData { metric_id, namespace, metric_name, dimensions, period, window_seconds }))
    } else if text_eq(action, "create_alarm") {
        let metric_id = require_resource_id(request, "metric/")?;
        let (namespace, metric_name, dimensions) = selected_metric(request, metric_id.as_str())?;
        let alarm_name = require_name_payload(request, "alarm_name")?;
        let threshold = require_payload_text(request, "threshold")?;
        let period: i32 = optional_payload_i32_or(request, "period", 60);
        let period: i32 = clamp_i32(period, 1, 86400);
        let evaluation_periods: i32 = optional_payload_i32_or(request, "evaluation_periods", 1);
        let evaluation_periods: i32 = clamp_i32(evaluation_periods, 1, 100);
        let description = concat5("Managed by Floci UI for ", namespace.as_str(), "/", metric_name.as_str(), ".");
        Ok(Planned::Call(Call::CreateAlarm { namespace, metric_name, dimensions, alarm_name, threshold, description, period, evaluation_periods }))
    } else if text_eq(action, "delete_alarm") {
        let alarm_name = require_resource_id(request, "alarm/")?;
        require_typed_confirmation(request)?;
        Ok(Planned::Call(Call::DeleteAlarm { alarm_name }))
    } else {
        Err(unsupported_action(request))
    }
}

/// The result of `call` once it succeeded with `reply`.
pub open spec fn result_of(call: Call, reply: CallReply) -> ActionResultView {
    match call {
        Call::QueryMetricData { metric_name, window_seconds, metric_id, .. } => result_view(
            false,
            "Queried `"@ + metric_name@ + "` over "@ + decimal(window_seconds as int) + " second(s): "@ + digits_of(reply.count as nat) + " datapoint(s), latest "@ + text_or(reply.detail.deep_view(), "no datapoints returned"@) + "."@,
            Some("metric/"@ + metric_id@),
        ),
        Call::CreateAlarm { alarm_name, .. } => result_view(
            true,
            "Created CloudWatch alarm `"@ + alarm_name@ + "`."@,
            Some("alarm/"@ + alarm_name@),
        ),
        Call::DeleteAlarm { alarm_name } => result_view(
            true,
            "Deleted CloudWatch alarm `"@ + alarm_name@ + "`."@,
            Some("alarm/"@ + alarm_name@),
        ),
    }
}

/// The result reported once `call` succeeded with `reply`.
pub fn completed(call: &Call, reply: &CallReply) -> (r: ActionResult)
    ensures
        r@ == result_of(*call, *reply),
{
    match call {
        Call::QueryMetricData { metric_name, window_seconds, metric_id, .. } => {
            let t1 = int_text(*window_seconds as i64);
            let t2 = nat_text(reply.count as u64);
            let t3 = match &reply.detail {
                Some(v) => v.clone(),
                None => {
                    let t4 = String::from_str("no datapoints returned");
                    t4
                },
            };
            let mut message = String::from_str("Queried `");
            message.append(metric_name.as_str());
            message.append("` over ");
            message.append(t1.as_str());
            message.append(" second(s): ");
            message.append(t2.as_str());
            message.append(" datapoint(s), latest ");
            message.append(t3.as_str());
            message.append(".");
            let mut id = String::from_str("metric/");
            id.append(metric_id.as_str());
            action_result(false, message, Some(id))
        },
        Call::CreateAlarm { alarm_name, .. } => {
            let mut message = String::from_str("Created CloudWatch alarm `");
            message.append(alarm_name.as_str());
            message.append("`.");
            let mut id = String::from_str("alarm/");
            id.append(alarm_name.as_str());
            action_result(true, message, Some(id))
        },
        Call::DeleteAlarm { alarm_name } => {
            let mut message = String::from_str("Deleted CloudWatch alarm `");
            message.append(alarm_name.as_str());
            message.append("`.");
            let mut id = String::from_str("alarm/");
            id.append(alarm_name.as_str());
            action_result(true, message, Some(id))
        },
    }
}

/// Every call planned for an action request performs the requested action.
pub proof fn lemma_plan_performs_requested_action(request: ServiceActionRequest)
    ensures
        action_plan(request) matches Ok(PlannedView::Call(c)) ==> c.name == request.action@,
{
}

/// A destructive action is only planned once the typed confirmation matches.
pub proof fn lemma_destructive_actions_are_confirmed(request: ServiceActionRequest)
    ensures
        action_plan(request) is Ok && destructive(request.action@) ==> typed_confirmation(request) is Ok,
{
    reveal_strlit("query_metric_data");
    lemma_not_destructive("query_metric_data"@);
    reveal_strlit("create_alarm");
    lemma_not_destructive("create_alarm"@);
}

/// The operations the CloudWatch page lists as unavailable.
pub open spec fn unsupported_operations() -> Seq<Seq<char>> {
    seq!["alarm_history_requires_explicit_query"@]
}

/// The name under which the service's inventory page is shown.
pub open spec fn label() -> Seq<char> {
    "CloudWatch"@
}

/// How far this adapter supports the service: it manages its resources.
pub open spec fn support_level() -> ServiceSupportLevel {
    ServiceSupportLevel::Managed
}

/// The CloudWatch inventory page: the listed `resources` under the CloudWatch tabs, refreshed
/// at `refreshed_at`.
pub fn inventory(
    resources: Vec<ResourceSummary>,
    refreshed_at: String,
) -> (inv: ServiceInventory)
    ensures
        inv@ == (InventoryView {
            service_key: "cloudwatch"@,
            service_label: label(),
            support_level: support_level(),
            refreshed_at: refreshed_at@,
            tabs: inventory_tabs(),
            resources: summary_views(resources@),
            unsupported_operations: unsupported_operations(),
        }),
{
    let mut ops: Vec<String> = Vec::new();
    ops.push(String::from_str("alarm_history_requires_explicit_query"));
    proof {
        assert(ops.deep_view() =~= unsupported_operations());
    }
    build_inventory(
        "cloudwatch",
        "CloudWatch",
        ServiceSupportLevel::Managed,
        refreshed_at,
        tabs(),
        resources,
        ops,
    )
}

} // verus!
