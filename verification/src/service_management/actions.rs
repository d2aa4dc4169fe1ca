//! Request validation shared by every service, and the routing of requests
//! to the service families.
use vstd::prelude::*;
use vstd::string::*;

use crate::service_management::adapters::payload::is_digit;
use crate::service_management::adapters::{
    compute_build, data_storage, key_listed, messaging_events, security_config,
};
use crate::service_management::errors::{
    invalid_input_error, text_outcome, unsupported_operation_error, unsupported_service_error,
    ErrorView, ServiceManagementError,
};
use crate::service_management::models::{
    payload_text, payload_text_field, InventoryView, ResourceDetailRequest, ServiceActionRequest,
    ServiceInventory,
};
use crate::service_management::registry::{
    descriptor, find_descriptor, unsupported_inventory_at, unsupported_inventory_outcome,
};
use crate::text::{
    concat3, drop_white_space_back, is_white_space, skip_white_space, text_eq, trim, trim_text,
};

verus! {

/// Whether `s` is an RFC 3339 timestamp in UTC as the `time` crate writes one:
/// `YYYY-MM-DDTHH:MM:SS`, then optionally `.` and one to nine fraction digits,
/// then `Z`.
pub open spec fn rfc3339_utc_text(s: Seq<char>) -> bool {
    &&& s.len() >= 20
    &&& is_digit(s[0]) && is_digit(s[1]) && is_digit(s[2]) && is_digit(s[3])
    &&& s[4] == '-'
    &&& is_digit(s[5]) && is_digit(s[6])
    &&& s[7] == '-'
    &&& is_digit(s[8]) && is_digit(s[9])
    &&& s[10] == 'T'
    &&& is_digit(s[11]) && is_digit(s[12])
    &&& s[13] == ':'
    &&& is_digit(s[14]) && is_digit(s[15])
    &&& s[16] == ':'
    &&& is_digit(s[17]) && is_digit(s[18])
    &&& s[s.len() - 1] == 'Z'
    &&& (s.len() == 20 || (s[19] == '.' && 22 <= s.len() <= 30 && forall|i: int|
        20 <= i < s.len() - 1 ==> #[trigger] is_digit(s[i])))
}

/// The current UTC time in RFC 3339 form: `OffsetDateTime::now_utc` formatted
/// with `time::format_description::well_known::Rfc3339`, `None` when formatting
/// fails (a year outside `0..=9999`). The `time` source writes a four-digit year,
/// two-digit month, day, hour, minute and second, the nonzero fraction of a second
/// as `.` and one to nine digits, and `Z` for the UTC offset that `now_utc` carries;
/// which instant is read is not stated.
#[verifier::external_body]
fn current_time_rfc3339() -> (r: Option<String>)
    ensures
        r matches Some(t) ==> rfc3339_utc_text(t@),
{
    time::OffsetDateTime::now_utc().format(&time::format_description::well_known::Rfc3339).ok()
}

/// The current UTC time in RFC 3339 form, or the Unix epoch when the clock
/// cannot be formatted.
pub fn now_rfc3339() -> (r: String)
    ensures
        rfc3339_utc_text(r@),
{
    proof {
        reveal_strlit("1970-01-01T00:00:00Z");
    }
    match current_time_rfc3339() {
        Some(text) => text,
        None => String::from_str("1970-01-01T00:00:00Z"),
    }
}

/// Characters allowed in a service key.
pub open spec fn is_key_char(c: char) -> bool {
    ('a' <= c <= 'z') || ('0' <= c <= '9')
}

/// Whether every character of `s` is allowed in a service key.
pub open spec fn all_key_chars(s: Seq<char>) -> bool {
    forall|i: int| 0 <= i < s.len() ==> is_key_char(#[trigger] s[i])
}

/// The outcome of normalizing `service_key` for `operation`.
pub open spec fn normalized_key(service_key: Seq<char>, operation: Seq<char>) -> Result<
    Seq<char>,
    ErrorView,
> {
    let trimmed = trim(service_key);
    if trimmed.len() == 0 {
        Err(invalid_input_error(service_key, operation, "Service key cannot be empty."@))
    } else if !all_key_chars(trimmed) {
        Err(
            invalid_input_error(
                trimmed,
                operation,
                "Service key must use lowercase ASCII letters and digits."@,
            ),
        )
    } else {
        Ok(trimmed)
    }
}

fn all_key_chars_exec(s: &str) -> (r: bool)
    ensures
        r == all_key_chars(s@),
{
    let n = s.unicode_len();
    let mut i: usize = 0;
    while i < n
        invariant
            n == s@.len(),
            0 <= i <= n,
            forall|k: int| 0 <= k < i ==> is_key_char(#[trigger] s@[k]),
        decreases n - i,
    {
        let c = s.get_char(i);
        if !(('a' <= c && c <= 'z') || ('0' <= c && c <= '9')) {
            return false;
        }
        i = i + 1;
    }
    true
}

/// Trims a service key and checks that it only uses lowercase ASCII letters and digits.
pub fn normalize_service_key(service_key: &str, operation: &str) -> (r: Result<
    String,
    ServiceManagementError,
>)
    ensures
        text_outcome(r) == normalized_key(service_key@, operation@),
{
    let trimmed = trim_text(service_key);
    if trimmed.as_str().unicode_len() == 0 {
        return Err(
            ServiceManagementError::invalid_input(
                service_key,
                operation,
                "Service key cannot be empty.",
            ),
        );
    }
    if !all_key_chars_exec(trimmed.as_str()) {
        return Err(
            ServiceManagementError::invalid_input(
                trimmed.as_str(),
                operation,
                "Service key must use lowercase ASCII letters and digits.",
            ),
        );
    }
    Ok(trimmed)
}

/// A service key that normalization accepted is accepted again, unchanged:
/// normalizing is idempotent.
pub proof fn lemma_normalized_key_is_stable(service_key: Seq<char>, operation: Seq<char>)
    requires
        normalized_key(service_key, operation) is Ok,
    ensures
        normalized_key(trim(service_key), operation) == normalized_key(service_key, operation),
        normalized_key(service_key, operation) == Ok::<Seq<char>, ErrorView>(trim(service_key)),
{
    let t = trim(service_key);
    assert(is_key_char(t[0]));
    assert(is_key_char(t[t.len() - 1]));
    assert(!is_white_space(t[0]));
    assert(!is_white_space(t[t.len() - 1]));
    assert(skip_white_space(t, 0) == 0);
    assert(drop_white_space_back(t, 0, t.len() as int) == t.len());
    assert(t.subrange(0, t.len() as int) =~= t);
}

/// The outcome of requiring a non-blank text field `field` in the payload of `request`.
pub open spec fn required_text(request: ServiceActionRequest, field: Seq<char>) -> Result<
    Seq<char>,
    ErrorView,
> {
    match payload_text_field(request.payload@, field) {
        None => Err(
            invalid_input_error(
                request.service_key@,
                request.action@,
                "`"@ + field + "` is required."@,
            ),
        ),
        Some(t) => if trim(t).len() == 0 {
            Err(
                invalid_input_error(
                    request.service_key@,
                    request.action@,
                    "`"@ + field + "` cannot be empty."@,
                ),
            )
        } else {
            Ok(trim(t))
        },
    }
}

/// The trimmed text of payload field `field_name`, which must be present and not blank.
pub fn require_name_payload(request: &ServiceActionRequest, field_name: &str) -> (r: Result<
    String,
    ServiceManagementError,
>)
    requires
        request.payload.wf(),
    ensures
        text_outcome(r) == required_text(*request, field_name@),
{
    let Some(name) = payload_text(&request.payload, field_name) else {
        return Err(
            ServiceManagementError::invalid_input(
                request.service_key.as_str(),
                request.action.as_str(),
                concat3("`", field_name, "` is required.").as_str(),
            ),
        );
    };
    let name = trim_text(name.as_str());
    if name.as_str().unicode_len() == 0 {
        return Err(
            ServiceManagementError::invalid_input(
                request.service_key.as_str(),
                request.action.as_str(),
                concat3("`", field_name, "` cannot be empty.").as_str(),
            ),
        );
    }
    Ok(name)
}

/// The name a destructive action must be confirmed with: the selected
/// resource's name, or its id when it has no name.
pub open spec fn confirmation_target(request: ServiceActionRequest) -> Option<Seq<char>> {
    match request.resource_name {
        Some(name) => Some(name@),
        None => request.resource_id.deep_view(),
    }
}

/// The outcome of checking the typed confirmation of `request`.
pub open spec fn typed_confirmation(request: ServiceActionRequest) -> Result<
    Seq<char>,
    ErrorView,
> {
    match confirmation_target(request) {
        None => Err(
            invalid_input_error(
                request.service_key@,
                request.action@,
                "A resource name is required for typed confirmation."@,
            ),
        ),
        Some(expected) => {
            let actual = match request.confirmation {
                Some(c) => trim(c@),
                None => Seq::<char>::empty(),
            };
            if actual == expected {
                Ok(expected)
            } else {
                Err(
                    invalid_input_error(
                        request.service_key@,
                        request.action@,
                        "Type `"@ + expected + "` to confirm this action."@,
                    ),
                )
            }
        },
    }
}

/// Checks that the user typed the selected resource's name to confirm a destructive action.
pub fn require_typed_confirmation(request: &ServiceActionRequest) -> (r: Result<
    String,
    ServiceManagementError,
>)
    ensures
        text_outcome(r) == typed_confirmation(*request),
{
    let expected = match &request.resource_name {
        Some(name) => name,
        None => match &request.resource_id {
            Some(id) => id,
            None => {
                return Err(
                    ServiceManagementError::invalid_input(
                        request.service_key.as_str(),
                        request.action.as_str(),
                        "A resource name is required for typed confirmation.",
                    ),
                );
            },
        },
    };
    let actual = match &request.confirmation {
        Some(c) => trim_text(c.as_str()),
        None => String::new(),
    };
    if !text_eq(actual.as_str(), expected.as_str()) {
        return Err(
            ServiceManagementError::invalid_input(
                request.service_key.as_str(),
                request.action.as_str(),
                concat3("Type `", expected.as_str(), "` to confirm this action.").as_str(),
            ),
        );
    }
    Ok(expected.clone())
}

/// A service key is accepted exactly when, trimmed of surrounding white space,
/// it is non-empty and made only of the ASCII letters `a` to `z` and the digits
/// `0` to `9`; the accepted key is the trimmed text. A refusal is an
/// `invalid_input` error for the requested operation.
pub proof fn lemma_service_key_rules(service_key: Seq<char>, operation: Seq<char>)
    ensures
        normalized_key(service_key, operation) is Ok <==> (trim(service_key).len() > 0
            && forall|i: int|
            0 <= i < trim(service_key).len() ==> ('a' <= #[trigger] trim(service_key)[i] <= 'z'
                || '0' <= trim(service_key)[i] <= '9')),
        normalized_key(service_key, operation) matches Ok(k) ==> k == trim(service_key),
        normalized_key(service_key, operation) matches Err(e) ==> e.code == "invalid_input"@
            && e.operation == Some(operation),
{
}

/// What the user typed to confirm `request`, without surrounding white space;
/// nothing typed reads as empty text.
pub open spec fn typed_text(request: ServiceActionRequest) -> Seq<char> {
    match request.confirmation {
        Some(c) => trim(c@),
        None => Seq::<char>::empty(),
    }
}

/// A destructive action is confirmed exactly when the user typed the selected
/// resource's name (its id only when it has no name), and the confirmation gives
/// back that name. Otherwise the answer is an `invalid_input` error that says
/// what to type, or that a resource must be selected.
pub proof fn lemma_typed_confirmation_requires_the_name(request: ServiceActionRequest)
    ensures
        request.resource_name matches Some(name) ==> {
            &&& (typed_confirmation(request) is Ok <==> typed_text(request) == name@)
            &&& (typed_confirmation(request) matches Ok(t) ==> t == name@)
            &&& (typed_confirmation(request) matches Err(e) ==> e.code == "invalid_input"@
                && e.message == "Type `"@ + name@ + "` to confirm this action."@)
        },
        request.resource_name is None ==> (request.resource_id matches Some(id) ==> {
            &&& (typed_confirmation(request) is Ok <==> typed_text(request) == id@)
            &&& (typed_confirmation(request) matches Ok(t) ==> t == id@)
        }),
        request.resource_name is None && request.resource_id is None ==> (typed_confirmation(
            request,
        ) matches Err(e) && e.code == "invalid_input"@ && e.message
            == "A resource name is required for typed confirmation."@),
{
}

/// The service families that have adapters.
#[derive(Debug, Clone, Copy, PartialEq, Eq, Structural)]
pub enum ServiceFamily {
    DataStorage,
    MessagingEvents,
    ComputeBuild,
    SecurityConfig,
}

/// The family whose adapters serve the service `key`, checked in this order.
pub open spec fn routed_family(key: Seq<char>) -> Option<ServiceFamily> {
    if data_storage::family_keys().contains(key) {
        Some(ServiceFamily::DataStorage)
    } else if messaging_events::family_keys().contains(key) {
        Some(ServiceFamily::MessagingEvents)
    } else if compute_build::family_keys().contains(key) {
        Some(ServiceFamily::ComputeBuild)
    } else if security_config::family_keys().contains(key) {
        Some(ServiceFamily::SecurityConfig)
    } else {
        None
    }
}

/// The family whose adapters serve the service `key`.
pub fn family_of(key: &str) -> (r: Option<ServiceFamily>)
    ensures
        r == routed_family(key@),
{
    if key_listed(&data_storage::service_keys(), key) {
        Some(ServiceFamily::DataStorage)
    } else if key_listed(&messaging_events::service_keys(), key) {
        Some(ServiceFamily::MessagingEvents)
    } else if key_listed(&compute_build::service_keys(), key) {
        Some(ServiceFamily::ComputeBuild)
    } else if key_listed(&security_config::service_keys(), key) {
        Some(ServiceFamily::SecurityConfig)
    } else {
        None
    }
}

/// Where an inventory request goes.
pub enum InventoryRoute {
    /// The family's adapter for the (normalized) service key lists the resources.
    Family(ServiceFamily, String),
    /// The service has no adapter; this is its inventory.
    Unsupported(ServiceInventory),
}

pub enum InventoryRouteView {
    Family(ServiceFamily, Seq<char>),
    Unsupported(InventoryView),
}

pub open spec fn inventory_route_outcome(r: Result<InventoryRoute, ServiceManagementError>) -> Result<
    InventoryRouteView,
    ErrorView,
> {
    match r {
        Ok(InventoryRoute::Family(f, k)) => Ok(InventoryRouteView::Family(f, k@)),
        Ok(InventoryRoute::Unsupported(inv)) => Ok(InventoryRouteView::Unsupported(inv@)),
        Err(e) => Err(e@),
    }
}

/// Where an inventory request for `service_key` goes, for an answer refreshed at `refreshed_at`.
pub open spec fn inventory_route(service_key: Seq<char>, refreshed_at: Seq<char>) -> Result<
    InventoryRouteView,
    ErrorView,
> {
    match normalized_key(service_key, "list_resources"@) {
        Err(e) => Err(e),
        Ok(key) => match routed_family(key) {
            Some(f) => Ok(InventoryRouteView::Family(f, key)),
            None => match unsupported_inventory_outcome(key, refreshed_at) {
                Ok(inv) => Ok(InventoryRouteView::Unsupported(inv)),
                Err(e) => Err(e),
            },
        },
    }
}

/// Validates an inventory request and decides which family answers it.
pub fn route_inventory(service_key: &str, refreshed_at: String) -> (r: Result<
    InventoryRoute,
    ServiceManagementError,
>)
    ensures
        inventory_route_outcome(r) == inventory_route(service_key@, refreshed_at@),
{
    let key = normalize_service_key(service_key, "list_resources")?;
    match family_of(key.as_str()) {
        Some(f) => Ok(InventoryRoute::Family(f, key)),
        None => match unsupported_inventory_at(key.as_str(), refreshed_at) {
            Ok(inv) => Ok(InventoryRoute::Unsupported(inv)),
            Err(e) => Err(e),
        },
    }
}

/// Where a detail request goes: the family and the request with its normalized key.
pub open spec fn detail_route(request: ResourceDetailRequest) -> Result<
    (ServiceFamily, Seq<char>, Seq<char>),
    ErrorView,
> {
    match normalized_key(request.service_key@, "resource_detail"@) {
        Err(e) => Err(e),
        Ok(key) => match routed_family(key) {
            Some(f) => Ok((f, key, request.resource_id@)),
            None => if find_descriptor(key) is Some {
                Err(
                    unsupported_operation_error(
                        key,
                        "resource_detail"@,
                        "Resource detail is not available until this service adapter is implemented."@,
                    ),
                )
            } else {
                Err(unsupported_service_error(key))
            },
        },
    }
}

/// Validates a detail request and decides which family answers it.
pub fn route_resource_detail(request: ResourceDetailRequest) -> (r: Result<
    (ServiceFamily, ResourceDetailRequest),
    ServiceManagementError,
>)
    ensures
        (match r {
            Ok((f, req)) => Ok((f, req.service_key@, req.resource_id@)),
            Err(e) => Err(e@),
        }) == detail_route(request),
{
    let key = normalize_service_key(request.service_key.as_str(), "resource_detail")?;
    match family_of(key.as_str()) {
        Some(f) => Ok((f, ResourceDetailRequest { service_key: key, resource_id: request.resource_id })),
        None => {
            if descriptor(key.as_str()).is_some() {
                Err(
                    ServiceManagementError::unsupported_operation(
                        key.as_str(),
                        "resource_detail",
                        "Resource detail is not available until this service adapter is implemented.",
                    ),
                )
            } else {
                Err(ServiceManagementError::unsupported_service(key.as_str()))
            }
        },
    }
}

/// Where an action request goes: the family, the normalized key and the trimmed action.
pub open spec fn action_route(request: ServiceActionRequest) -> Result<
    (ServiceFamily, Seq<char>, Seq<char>),
    ErrorView,
> {
    match normalized_key(request.service_key@, "execute_action"@) {
        Err(e) => Err(e),
        Ok(key) => {
            let action = trim(request.action@);
            if action.len() == 0 {
                Err(invalid_input_error(key, "execute_action"@, "Action cannot be empty."@))
            } else {
                match routed_family(key) {
                    Some(f) => Ok((f, key, action)),
                    None => if find_descriptor(key) is Some {
                        Err(
                            unsupported_operation_error(
                                key,
                                action,
                                "Actions are not available until this service adapter is implemented."@,
                            ),
                        )
                    } else {
                        Err(unsupported_service_error(key))
                    },
                }
            }
        },
    }
}

/// Validates an action request and decides which family performs it. The
/// request goes on with its normalized key and trimmed action, and otherwise unchanged.
pub fn route_service_action(request: ServiceActionRequest) -> (r: Result<
    (ServiceFamily, ServiceActionRequest),
    ServiceManagementError,
>)
    ensures
        (match r {
            Ok((f, req)) => Ok((f, req.service_key@, req.action@)),
            Err(e) => Err(e@),
        }) == action_route(request),
        r matches Ok((f, req)) ==> req.resource_id == request.resource_id && req.resource_name
            == request.resource_name && req.confirmation == request.confirmation && req.payload
            == request.payload,
{
    let key = normalize_service_key(request.service_key.as_str(), "execute_action")?;
    let action = trim_text(request.action.as_str());
    if action.as_str().unicode_len() == 0 {
        return Err(
            ServiceManagementError::invalid_input(
                key.as_str(),
                "execute_action",
                "Action cannot be empty.",
            ),
        );
    }
    match family_of(key.as_str()) {
        Some(f) => Ok(
            (
                f,
                ServiceActionRequest {
                    service_key: key,
                    action,
                    resource_id: request.resource_id,
                    resource_name: request.resource_name,
                    confirmation: request.confirmation,
                    payload: request.payload,
                },
            ),
        ),
        None => {
            if descriptor(key.as_str()).is_some() {
                Err(
                    ServiceManagementError::unsupported_operation(
                        key.as_str(),
                        action.as_str(),
                        "Actions are not available until this service adapter is implemented.",
                    ),
                )
            } else {
                Err(ServiceManagementError::unsupported_service(key.as_str()))
            }
        },
    }
}

} // verus!
