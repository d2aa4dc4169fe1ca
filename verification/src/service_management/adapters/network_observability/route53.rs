//! Route 53.
use vstd::prelude::*;
use vstd::string::*;

use crate::service_management::actions::{
    require_name_payload, require_typed_confirmation, required_text, typed_confirmation,
};
use crate::service_management::adapters::payload::{
    i32_or, optional_i32, optional_payload_i32_or, optional_payload_text_or, optional_text,
    require_payload_text, require_resource_id, selected_resource,
};
use crate::service_management::adapters::{
    action_result, bool_text, bool_to_text, build_inventory, call_of, destructive,
    lemma_not_destructive, number_text, optional_number_text, planned_call, planned_outcome,
    put_attr, result_view, shows, summary, text_or, texts_of, then_text, unsupported_action,
    unsupported_action_error, with_attr, CallReply, CallView, Planned, PlannedView,
};
use crate::service_management::errors::{ErrorView, ServiceManagementError};
use crate::service_management::models::{
    single_kind_tab, summary_views, tab, tab_views, ActionResult, ActionResultView, InventoryView,
    ResourceSummary, ResourceTab, ServiceActionRequest, ServiceInventory, ServiceSupportLevel,
    TabView,
};
use crate::service_management::text_map::TextMap;
use crate::text::{
    concat2, concat3, concat5, decimal, digits_of, int_text, text_eq, upper_text, upper_text_exec,
};
use crate::service_management::adapters::payload::{parse_i64, parse_i64_text};
use crate::service_management::errors::invalid_input_error;
use crate::text::{head_piece, split_head, starts_with, strip_prefix_text, tail_piece};
use crate::service_management::adapters::payload::{
    lemma_decimal_parses_back, lemma_digits_round_trip,
};
use crate::text::{has_char, lemma_split_once_after};

verus! {

/// The tabs of the Route 53 inventory page.
pub open spec fn inventory_tabs() -> Seq<TabView> {
    seq![
        single_kind_tab("hosted-zones"@, "Hosted Zones"@, "hosted-zone"@, "No Route 53 hosted zones were found in the local emulator."@),
        single_kind_tab("records"@, "Records"@, "record-set"@, "No Route 53 record sets are loaded."@),
        single_kind_tab("health-checks"@, "Health Checks"@, "health-check"@, "No Route 53 health checks are loaded."@),
        single_kind_tab("changes"@, "Changes"@, "change-batch"@, "Change history is not exposed by this local Route 53 API."@),
    ]
}

/// The tabs of the Route 53 inventory page.
pub fn tabs() -> (t: Vec<ResourceTab>)
    ensures
        tab_views(t@) == inventory_tabs(),
{
    let mut t: Vec<ResourceTab> = Vec::new();
    t.push(tab("hosted-zones", "Hosted Zones", "hosted-zone", "No Route 53 hosted zones were found in the local emulator."));
    t.push(tab("records", "Records", "record-set", "No Route 53 record sets are loaded."));
    t.push(tab("health-checks", "Health Checks", "health-check", "No Route 53 health checks are loaded."));
    t.push(tab("changes", "Changes", "change-batch", "Change history is not exposed by this local Route 53 API."));
    assert(tab_views(t@) =~= inventory_tabs());
    t
}

/// A hosted zone id without its `/hostedzone/` or `hostedzone/` prefix.
pub open spec fn clean_zone(hosted_zone_id: Seq<char>) -> Seq<char> {
    if starts_with(hosted_zone_id, "/hostedzone/"@) {
        hosted_zone_id.subrange(12, hosted_zone_id.len() as int)
    } else if starts_with(hosted_zone_id, "hostedzone/"@) {
        hosted_zone_id.subrange(11, hosted_zone_id.len() as int)
    } else {
        hosted_zone_id
    }
}

/// A hosted zone id without its `/hostedzone/` or `hostedzone/` prefix.
pub fn clean_zone_id(hosted_zone_id: &str) -> (r: String)
    ensures
        r@ == clean_zone(hosted_zone_id@),
{
    proof {
        reveal_strlit("/hostedzone/");
        reveal_strlit("hostedzone/");
    }
    match strip_prefix_text(hosted_zone_id, "/hostedzone/") {
        Some(rest) => rest,
        None => match strip_prefix_text(hosted_zone_id, "hostedzone/") {
            Some(rest) => rest,
            None => String::from_str(hosted_zone_id),
        },
    }
}

/// The hosted zone, name, type, TTL and value of the record named by the
/// selected `record-set/<zone>||<name>||<type>||<ttl>||<value>` id; a TTL that
/// does not parse is 300.
pub open spec fn record_selection(request: ServiceActionRequest) -> Result<
    (Seq<char>, Seq<char>, Seq<char>, int, Seq<char>),
    ErrorView,
> {
    match selected_resource(request, "record-set/"@) {
        Ok(v) => {
            let zone = head_piece(v, "||"@);
            let r1 = tail_piece(v, "||"@);
            let name = head_piece(r1, "||"@);
            let r2 = tail_piece(r1, "||"@);
            let record_type = head_piece(r2, "||"@);
            let r3 = tail_piece(r2, "||"@);
            let ttl = match parse_i64(head_piece(r3, "||"@)) {
                Some(n) => n as int,
                None => 300,
            };
            let value = tail_piece(r3, "||"@);
            if zone.len() == 0 || name.len() == 0 || record_type.len() == 0 || value.len() == 0 {
                Err(
                    invalid_input_error(
                        request.service_key@,
                        request.action@,
                        "Select a Route 53 record before running this action."@,
                    ),
                )
            } else {
                Ok((zone, name, record_type, ttl, value))
            }
        },
        Err(e) => Err(e),
    }
}

/// The view of a selected-record outcome.
pub open spec fn record_outcome(r: Result<(String, String, String, i64, String), ServiceManagementError>) -> Result<
    (Seq<char>, Seq<char>, Seq<char>, int, Seq<char>),
    ErrorView,
> {
    match r {
        Ok(t) => Ok((t.0@, t.1@, t.2@, t.3 as int, t.4@)),
        Err(e) => Err(e@),
    }
}

/// The hosted zone, name, type, TTL and value of the selected record.
pub fn selected_record(request: &ServiceActionRequest) -> (r: Result<
    (String, String, String, i64, String),
    ServiceManagementError,
>)
    ensures
        record_outcome(r) == record_selection(*request),
{
    let selected = require_resource_id(request, "record-set/")?;
    let (zone, r1) = split_head(selected.as_str(), "||");
    let (name, r2) = split_head(r1.as_str(), "||");
    let (record_type, r3) = split_head(r2.as_str(), "||");
    let (ttl_text, value) = split_head(r3.as_str(), "||");
    let ttl: i64 = match parse_i64_text(ttl_text.as_str()) {
        Some(n) => n,
        None => 300,
    };
    if zone.unicode_len() == 0 || name.unicode_len() == 0 || record_type.unicode_len() == 0
        || value.unicode_len() == 0 {
        return Err(
            ServiceManagementError::invalid_input(
                request.service_key.as_str(),
                request.action.as_str(),
                "Select a Route 53 record before running this action.",
            ),
        );
    }
    Ok((zone, name, record_type, ttl, value))
}

/// The id under which a record set is listed:
/// `record-set/<zone>||<name>||<type>||<ttl>||<value>`.
pub open spec fn record_id_text(
    hosted_zone_id: Seq<char>,
    name: Seq<char>,
    record_type: Seq<char>,
    ttl: int,
    value: Seq<char>,
) -> Seq<char> {
    "record-set/"@ + hosted_zone_id + "||"@ + name + "||"@ + record_type + "||"@ + decimal(ttl)
        + "||"@ + value
}

/// The id under which a record set is listed.
pub fn record_set_id(hosted_zone_id: &str, name: &str, record_type: &str, ttl: i64, value: &str) -> (r:
    String)
    ensures
        r@ == record_id_text(hosted_zone_id@, name@, record_type@, ttl as int, value@),
{
    let ttl_text = int_text(ttl);
    let mut id = concat5("record-set/", hosted_zone_id, "||", name, "||");
    id.append(record_type);
    id.append("||");
    id.append(ttl_text.as_str());
    id.append("||");
    id.append(value);
    id
}

/// A record set listed by the inventory is selected again, piece for piece,
/// by an action on it: zone, name and type must hold no `|` and, like the
/// value, must not be empty.
pub proof fn lemma_listed_record_is_selectable(
    request: ServiceActionRequest,
    hosted_zone_id: Seq<char>,
    name: Seq<char>,
    record_type: Seq<char>,
    ttl: i64,
    value: Seq<char>,
)
    requires
        request.resource_id matches Some(id) && id@ == record_id_text(
            hosted_zone_id,
            name,
            record_type,
            ttl as int,
            value,
        ),
        !has_char(hosted_zone_id, '|'),
        !has_char(name, '|'),
        !has_char(record_type, '|'),
        hosted_zone_id.len() > 0,
        name.len() > 0,
        record_type.len() > 0,
        value.len() > 0,
    ensures
        record_selection(request) == Ok::<(Seq<char>, Seq<char>, Seq<char>, int, Seq<char>), ErrorView>(
            (hosted_zone_id, name, record_type, ttl as int, value),
        ),
{
    reveal_strlit("record-set/");
    reveal_strlit("||");
    let sep = "||"@;
    let dec = decimal(ttl as int);
    let r3 = dec + sep + value;
    let r2 = record_type + sep + r3;
    let r1 = name + sep + r2;
    let body = hosted_zone_id + sep + r1;
    let id = request.resource_id->Some_0@;
    assert(id =~= "record-set/"@ + body);
    assert(id.subrange(0, 11) =~= "record-set/"@);
    assert(id.subrange(11, id.len() as int) =~= body);
    lemma_split_once_after(hosted_zone_id, sep, r1);
    lemma_split_once_after(name, sep, r2);
    lemma_split_once_after(record_type, sep, r3);
    lemma_decimal_parses_back(ttl);
    lemma_digits_round_trip(if ttl < 0 { (-(ttl as int)) as nat } else { ttl as nat });
    assert forall|k: int| 0 <= k < dec.len() implies dec[k] != sep[0] by {
        if ttl < 0 {
            let m = (-(ttl as int)) as nat;
            if k > 0 {
                assert(dec[k] == digits_of(m)[k - 1]);
            }
        }
    }
    lemma_split_once_after(dec, sep, value);
}

/// Texts joined with `, `.
pub open spec fn joined(values: Seq<Seq<char>>) -> Seq<char>
    decreases values.len(),
{
    if values.len() == 0 {
        Seq::empty()
    } else if values.len() == 1 {
        values[0]
    } else {
        joined(values.drop_last()) + ", "@ + values.last()
    }
}

/// Joins texts with `, `.
pub fn join_values(values: &Vec<String>) -> (r: String)
    ensures
        r@ == joined(values.deep_view()),
{
    let ghost all = values.deep_view();
    let mut out = String::new();
    let mut i: usize = 0;
    while i < values.len()
        invariant
            0 <= i <= values.len(),
            all == values.deep_view(),
            out@ == joined(all.subrange(0, i as int)),
        decreases values.len() - i,
    {
        proof {
            let p = all.subrange(0, i + 1);
            assert(p.drop_last() =~= all.subrange(0, i as int));
            assert(p.last() == values@[i as int]@);
            if i == 0 {
                assert(p =~= seq![values@[0]@]);
            }
        }
        if i > 0 {
            out.append(", ");
        } else {
            assert(out@ =~= Seq::<char>::empty());
        }
        out.append(values[i].as_str());
        proof {
            if i == 0 {
                assert(out@ =~= values@[0]@);
            }
        }
        i = i + 1;
    }
    assert(all.subrange(0, values.len() as int) =~= all);
    out
}

/// The first of some texts, or the empty text.
pub open spec fn first_or_empty(values: Seq<Seq<char>>) -> Seq<char> {
    if values.len() > 0 {
        values[0]
    } else {
        Seq::empty()
    }
}

/// The resource listed for a record set: its id carries the zone, name, type,
/// TTL (0 when it has none) and first value, so that an action can select it.
pub fn record_set_summary(
    hosted_zone_id: &str,
    name: &str,
    record_type: &str,
    ttl: Option<i64>,
    set_identifier: Option<String>,
    health_check_id: Option<String>,
    values: &Vec<String>,
) -> (r: ResourceSummary)
    ensures
        r.wf(),
        shows(
            r@,
            record_id_text(
                hosted_zone_id@,
                name@,
                record_type@,
                match ttl {
                    Some(t) => t as int,
                    None => 0,
                },
                first_or_empty(values.deep_view()),
            ),
            name@ + " "@ + record_type@,
            "record-set"@,
            record_type@,
            None,
            None,
            with_attr(
                with_attr(
                    with_attr(
                        map!["hosted_zone_id"@ => hosted_zone_id@, "record_type"@ => record_type@],
                        "ttl"@,
                        number_text(ttl),
                    ),
                    "set_identifier"@,
                    set_identifier.deep_view(),
                ),
                "health_check_id"@,
                health_check_id.deep_view(),
            ).insert("values"@, joined(values.deep_view())),
        ),
{
    let ttl_value: i64 = match ttl {
        Some(t) => t,
        None => 0,
    };
    let first = if values.len() > 0 {
        values[0].clone()
    } else {
        String::new()
    };
    let id = record_set_id(hosted_zone_id, name, record_type, ttl_value, first.as_str());
    let mut attributes: TextMap<String> = TextMap::new();
    attributes.insert(String::from_str("hosted_zone_id"), String::from_str(hosted_zone_id));
    attributes.insert(String::from_str("record_type"), String::from_str(record_type));
    proof {
        assert(texts_of(attributes@) =~= map!["hosted_zone_id"@ => hosted_zone_id@, "record_type"@ => record_type@]);
    }
    let ttl_text = match ttl {
        Some(t) => Some(int_text(t)),
        None => None,
    };
    put_attr(&mut attributes, "ttl", ttl_text);
    put_attr(&mut attributes, "set_identifier", set_identifier);
    put_attr(&mut attributes, "health_check_id", health_check_id);
    let ghost before = attributes@;
    let all_values = join_values(values);
    let ghost joined_text = all_values@;
    attributes.insert(String::from_str("values"), all_values);
    proof {
        assert(texts_of(attributes@) =~= texts_of(before).insert("values"@, joined_text));
    }
    summary(id, concat3(name, " ", record_type), "record-set", String::from_str(record_type), None, None, attributes)
}

/// The attributes listed for a hosted zone; its comment and whether it is
/// private come from its configuration, when it has one.
pub open spec fn hosted_zone_attributes(
    caller_reference: Seq<char>,
    record_set_count: Option<i64>,
    config: Option<(Option<Seq<char>>, bool)>,
) -> Map<Seq<char>, Seq<char>> {
    let m = with_attr(map!["caller_reference"@ => caller_reference], "resource_record_set_count"@, number_text(record_set_count));
    match config {
        Some((comment, private_zone)) => with_attr(m, "comment"@, comment).insert("private_zone"@, bool_text(private_zone)),
        None => m,
    }
}

/// The status of a hosted zone: `private` or `public` as its configuration
/// says, `available` when it has none.
pub open spec fn zone_status(config: Option<(Option<Seq<char>>, bool)>) -> Seq<char> {
    match config {
        Some((_, true)) => "private"@,
        Some((_, false)) => "public"@,
        None => "available"@,
    }
}

/// The view of a hosted zone's configuration.
pub open spec fn zone_config_view(config: Option<(Option<String>, bool)>) -> Option<(Option<Seq<char>>, bool)> {
    match config {
        Some((comment, private_zone)) => Some((comment.deep_view(), private_zone)),
        None => None,
    }
}

/// The resource listed for a hosted zone.
pub fn hosted_zone_summary(
    zone_id: &str,
    name: &str,
    caller_reference: &str,
    record_set_count: Option<i64>,
    config: Option<(Option<String>, bool)>,
) -> (r: ResourceSummary)
    ensures
        r.wf(),
        shows(
            r@,
            "hosted-zone/"@ + zone_id@,
            name@,
            "hosted-zone"@,
            zone_status(zone_config_view(config)),
            None,
            None,
            hosted_zone_attributes(caller_reference@, record_set_count, zone_config_view(config)),
        ),
{
    let ghost view = zone_config_view(config);
    let mut attributes: TextMap<String> = TextMap::new();
    attributes.insert(String::from_str("caller_reference"), String::from_str(caller_reference));
    assert(texts_of(attributes@) =~= map!["caller_reference"@ => caller_reference@]);
    put_attr(&mut attributes, "resource_record_set_count", optional_number_text(record_set_count));
    let status = match config {
        Some((comment, private_zone)) => {
            put_attr(&mut attributes, "comment", comment);
            let ghost before = attributes@;
            let flag = bool_to_text(private_zone);
            let ghost f = flag@;
            attributes.insert(String::from_str("private_zone"), flag);
            assert(texts_of(attributes@) =~= texts_of(before).insert("private_zone"@, f));
            if private_zone {
                String::from_str("private")
            } else {
                String::from_str("public")
            }
        },
        None => String::from_str("available"),
    };
    assert(texts_of(attributes@) == hosted_zone_attributes(caller_reference@, record_set_count, view));
    summary(concat2("hosted-zone/", zone_id), String::from_str(name), "hosted-zone", status, None, None, attributes)
}

/// The resource listed for a health check.
pub fn health_check_summary(health_check_id: &str, caller_reference: &str) -> (r: ResourceSummary)
    ensures
        r.wf(),
        shows(
            r@,
            "health-check/"@ + health_check_id@,
            health_check_id@,
            "health-check"@,
            "configured"@,
            None,
            None,
            map!["caller_reference"@ => caller_reference@],
        ),
{
    let mut attributes: TextMap<String> = TextMap::new();
    attributes.insert(String::from_str("caller_reference"), String::from_str(caller_reference));
    assert(texts_of(attributes@) =~= map!["caller_reference"@ => caller_reference@]);
    summary(
        concat2("health-check/", health_check_id),
        String::from_str(health_check_id),
        "health-check",
        String::from_str("configured"),
        None,
        None,
        attributes,
    )
}

/// A call to Route 53, with its validated inputs.
#[derive(Debug, Clone)]
pub enum Call {
    CreateHostedZone { zone_name: String },
    UpsertRecord { zone_id: String, record_name: String, record_type: String, record_value: String, ttl: i32 },
    DeleteRecord { record_name: String, zone_id: String, encoded_name: String, encoded_type: String, value: String, ttl: i64 },
}

impl View for Call {
    type V = CallView;

    open spec fn view(&self) -> CallView {
        match self {
            Call::CreateHostedZone { zone_name } => call_of(
                "create_hosted_zone"@,
                seq![zone_name@],
                seq![],
            ),
            Call::UpsertRecord { zone_id, record_name, record_type, record_value, ttl } => call_of(
                "upsert_record"@,
                seq![zone_id@, record_name@, record_type@, record_value@],
                seq![*ttl as int],
            ),
            Call::DeleteRecord { record_name, zone_id, encoded_name, encoded_type, value, ttl } => call_of(
                "delete_record"@,
                seq![record_name@, zone_id@, encoded_name@, encoded_type@, value@],
                seq![*ttl as int],
            ),
        }
    }
}

/// What an action request on Route 53 asks for.
pub open spec fn action_plan(request: ServiceActionRequest) -> Result<PlannedView, ErrorView> {
    let a = request.action@;
    if a == "create_hosted_zone"@ {
        then_text(
            required_text(request, "zone_name"@),
            |zone_name: Seq<char>|
                planned_call(a, seq![zone_name], seq![]),
        )
    } else if a == "upsert_record"@ {
        then_text(
            selected_resource(request, "hosted-zone/"@),
            |hosted_zone_id: Seq<char>|
                then_text(
                    required_text(request, "record_name"@),
                    |record_name: Seq<char>|
                        {
                            let record_type = upper_text(text_or(optional_text(request, "record_type"@), "A"@));
                            then_text(
                                required_text(request, "record_value"@),
                                |record_value: Seq<char>|
                                    {
                                        let ttl = i32_or(optional_i32(request, "ttl"@), 300);
                                        {
                                            let zone_id = clean_zone(hosted_zone_id);
                                            planned_call(a, seq![zone_id, record_name, record_type, record_value], seq![ttl])
                                        }
                                    },
                            )
                        },
                ),
        )
    } else if a == "delete_record"@ {
        then_text(
            typed_confirmation(request),
            |record_name: Seq<char>|
                match record_selection(request) {
                    Ok(p) => {
                        let hosted_zone_id = p.0;
                        let encoded_name = p.1;
                        let encoded_type = p.2;
                        let ttl = p.3;
                        let value = p.4;
                        {
                            let zone_id = clean_zone(hosted_zone_id);
                            planned_call(a, seq![record_name, zone_id, encoded_name, encoded_type, value], seq![ttl])
                        }
                    },
                    Err(e) => Err(e),
                },
        )
    } else {
        Err(unsupported_action_error(request))
    }
}

/// Validates an action request on Route 53 and decides what to do.
pub fn plan_action(request: &ServiceActionRequest) -> (r: Result<Planned<Call>, ServiceManagementError>)
    requires
        request.payload.wf(),
    ensures
        planned_outcome(r) == action_plan(*request),
        r matches Ok(Planned::Call(Call::CreateHostedZone { zone_name })) ==> {
            &&& request.action@ == "create_hosted_zone"@
            &&& required_text(*request, "zone_name"@) == Ok::<Seq<char>, ErrorView>(zone_name@)
        },
        r matches Ok(Planned::Call(Call::UpsertRecord { record_name, record_value, .. })) ==> {
            &&& request.action@ == "upsert_record"@
            &&& required_text(*request, "record_name"@) == Ok::<Seq<char>, ErrorView>(record_name@)
            &&& required_text(*request, "record_value"@) == Ok::<Seq<char>, ErrorView>(record_value@)
        },
        r matches Ok(Planned::Call(Call::DeleteRecord { record_name, .. })) ==> {
            &&& request.action@ == "delete_record"@
            &&& typed_confirmation(*request) == Ok::<Seq<char>, ErrorView>(record_name@)
        },
{
    let action = request.action.as_str();
    if text_eq(action, "create_hosted_zone") {
        let zone_name = require_name_payload(request, "zone_name")?;
        Ok(Planned::Call(Call::CreateHostedZone { zone_name }))
    } else if text_eq(action, "upsert_record") {
        let hosted_zone_id = require_resource_id(request, "hosted-zone/")?;
        let record_name = require_payload_text(request, "record_name")?;
        let record_type = optional_payload_text_or(request, "record_type", "A");
        let record_type = upper_text_exec(record_type.as_str());
        let record_value = require_payload_text(request, "record_value")?;
        let ttl: i32 = optional_payload_i32_or(request, "ttl", 300);
        let zone_id = clean_zone_id(hosted_zone_id.as_str());
        Ok(Planned::Call(Call::UpsertRecord { zone_id, record_name, record_type, record_value, ttl }))
    } else if text_eq(action, "delete_record") {
        let record_name = require_typed_confirmation(request)?;
        let (hosted_zone_id, encoded_name, encoded_type, ttl, value) = selected_record(request)?;
        let zone_id = clean_zone_id(hosted_zone_id.as_str());
        Ok(Planned::Call(Call::DeleteRecord { record_name, zone_id, encoded_name, encoded_type, value, ttl }))
    } else {
        Err(unsupported_action(request))
    }
}

/// The result of `call` once it succeeded with `reply`.
pub open spec fn result_of(call: Call, reply: CallReply) -> ActionResultView {
    match call {
        Call::CreateHostedZone { zone_name } => result_view(
            true,
            "Created hosted zone `"@ + zone_name@ + "`."@,
            (match reply.value.deep_view() {
                            Some(v) => Some("hosted-zone/"@ + v),
                            None => None,
                        }),
        ),
        Call::UpsertRecord { record_name, .. } => result_view(
            true,
            "Submitted Route 53 record upsert `"@ + record_name@ + "` ("@ + text_or(reply.detail.deep_view(), ""@) + ")."@,
            (match reply.value.deep_view() {
                            Some(v) => Some("change-batch/"@ + v),
                            None => None,
                        }),
        ),
        Call::DeleteRecord { record_name, .. } => result_view(
            true,
            "Submitted Route 53 record delete `"@ + record_name@ + "`."@,
            (match reply.value.deep_view() {
                            Some(v) => Some("change-batch/"@ + v),
                            None => None,
                        }),
        ),
    }
}

/// The result reported once `call` succeeded with `reply`.
pub fn completed(call: &Call, reply: &CallReply) -> (r: ActionResult)
    ensures
        r@ == result_of(*call, *reply),
{
    match call {
        Call::CreateHostedZone { zone_name } => {
            let mut message = String::from_str("Created hosted zone `");
            message.append(zone_name.as_str());
            message.append("`.");
            let t1 = match &reply.value {
                Some(v) => {
                    let mut id = String::from_str("hosted-zone/");
                    id.append(v.as_str());
                    Some(id)
                },
                None => None,
            };
            action_result(true, message, t1)
        },
        Call::UpsertRecord { record_name, .. } => {
            let t1 = match &reply.detail {
                Some(v) => v.clone(),
                None => {
                    let t2 = String::from_str("");
                    t2
                },
            };
            let mut message = String::from_str("Submitted Route 53 record upsert `");
            message.append(record_name.as_str());
            message.append("` (");
            message.append(t1.as_str());
            message.append(").");
            let t3 = match &reply.value {
                Some(v) => {
                    let mut id = String::from_str("change-batch/");
                    id.append(v.as_str());
                    Some(id)
                },
                None => None,
            };
            action_result(true, message, t3)
        },
        Call::DeleteRecord { record_name, .. } => {
            let mut message = String::from_str("Submitted Route 53 record delete `");
            message.append(record_name.as_str());
            message.append("`.");
            let t1 = match &reply.value {
                Some(v) => {
                    let mut id = String::from_str("change-batch/");
                    id.append(v.as_str());
                    Some(id)
                },
                None => None,
            };
            action_result(true, message, t1)
        },
    }
}

/// Every call planned for an action request performs the requested action.
pub proof fn lemma_plan_performs_requested_action(request: ServiceActionRequest)
    ensures
        action_plan(request) matches Ok(PlannedView::Call(c)) ==> c.name == request.action@,
{
}

/// A destructive action is only planned once the typed confirmation matches.
pub proof fn lemma_destructive_actions_are_confirmed(request: ServiceActionRequest)
    ensures
        action_plan(request) is Ok && destructive(request.action@) ==> typed_confirmation(request) is Ok,
{
    reveal_strlit("create_hosted_zone");
    lemma_not_destructive("create_hosted_zone"@);
    reveal_strlit("upsert_record");
    lemma_not_destructive("upsert_record"@);
}

/// The operations the Route 53 page lists as unavailable.
pub open spec fn unsupported_operations() -> Seq<Seq<char>> {
    seq!["change_history_not_available"@]
}

/// The name under which the service's inventory page is shown.
pub open spec fn label() -> Seq<char> {
    "Route 53"@
}

/// How far this adapter supports the service: it manages its resources.
pub open spec fn support_level() -> ServiceSupportLevel {
    ServiceSupportLevel::Managed
}

/// The Route 53 inventory page: the listed `resources` under the Route 53 tabs, refreshed
/// at `refreshed_at`.
pub fn inventory(
    resources: Vec<ResourceSummary>,
    refreshed_at: String,
) -> (inv: ServiceInventory)
    ensures
        inv@ == (InventoryView {
            service_key: "route53"@,
            service_label: label(),
            support_level: support_level(),
            refreshed_at: refreshed_at@,
            tabs: inventory_tabs(),
            resources: summary_views(resources@),
            unsupported_operations: unsupported_operations(),
        }),
{
    let mut ops: Vec<String> = Vec::new();
    ops.push(String::from_str("change_history_not_available"));
    proof {
        assert(ops.deep_view() =~= unsupported_operations());
    }
    build_inventory(
        "route53",
        "Route 53",
        ServiceSupportLevel::Managed,
        refreshed_at,
        tabs(),
        resources,
        ops,
    )
}

} // verus!
