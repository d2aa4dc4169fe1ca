//! Reading the selected resource and the payload fields of an action request.
use vstd::prelude::*;
use vstd::string::*;

use crate::service_management::actions::{require_name_payload, required_text};
use crate::service_management::errors::{invalid_input_error, text_outcome, ErrorView, ServiceManagementError};
use crate::service_management::models::{
    payload_text, payload_text_field, PayloadValue, ServiceActionRequest,
};
use crate::service_management::adapters::{clamp, text_or};
use crate::text::{
    concat4, decimal, digits_of, last_segment, last_segment_text, split_once, split_once_text, starts_with,
    strip_prefix_text, trim, trim_text,
};

verus! {

/// The outcome of requiring a selected resource whose id starts with `prefix`.
pub open spec fn selected_resource(request: ServiceActionRequest, prefix: Seq<char>) -> Result<
    Seq<char>,
    ErrorView,
> {
    match request.resource_id {
        Some(id) if starts_with(id@, prefix) => Ok(id@.subrange(prefix.len() as int, id@.len() as int)),
        _ => Err(
            invalid_input_error(
                request.service_key@,
                request.action@,
                "A selected resource is required for this action."@,
            ),
        ),
    }
}

/// The selected resource id without its `prefix`.
pub fn require_resource_id(request: &ServiceActionRequest, prefix: &str) -> (r: Result<
    String,
    ServiceManagementError,
>)
    ensures
        text_outcome(r) == selected_resource(*request, prefix@),
{
    let stripped = match &request.resource_id {
        Some(id) => strip_prefix_text(id.as_str(), prefix),
        None => None,
    };
    match stripped {
        Some(rest) => Ok(rest),
        None => Err(
            ServiceManagementError::invalid_input(
                request.service_key.as_str(),
                request.action.as_str(),
                "A selected resource is required for this action.",
            ),
        ),
    }
}

/// The trimmed text of payload field `field_name`, which must be present and not blank.
pub fn require_payload_text(request: &ServiceActionRequest, field_name: &str) -> (r: Result<
    String,
    ServiceManagementError,
>)
    requires
        request.payload.wf(),
    ensures
        text_outcome(r) == required_text(*request, field_name@),
{
    require_name_payload(request, field_name)
}

/// The trimmed text of payload field `field`, when it holds text that is not blank.
pub open spec fn optional_text(request: ServiceActionRequest, field: Seq<char>) -> Option<Seq<char>> {
    match payload_text_field(request.payload@, field) {
        Some(t) if trim(t).len() > 0 => Some(trim(t)),
        _ => None,
    }
}

/// The trimmed text of payload field `field_name`, unless it is missing or blank.
pub fn optional_payload_text(request: &ServiceActionRequest, field_name: &str) -> (r: Option<String>)
    requires
        request.payload.wf(),
    ensures
        r.deep_view() == optional_text(*request, field_name@),
{
    match payload_text(&request.payload, field_name) {
        Some(t) => {
            let t = trim_text(t.as_str());
            if t.as_str().unicode_len() > 0 {
                Some(t)
            } else {
                None
            }
        },
        None => None,
    }
}

/// Whether `c` is an ASCII digit.
pub open spec fn is_digit(c: char) -> bool {
    '0' <= c <= '9'
}

/// The value of a run of decimal digits.
pub open spec fn digits_value(d: Seq<char>) -> int
    decreases d.len(),
{
    if d.len() == 0 {
        0
    } else {
        digits_value(d.drop_last()) * 10 + (d.last() as int - '0' as int)
    }
}

/// Whether `s` starts with a sign.
pub open spec fn has_sign(s: Seq<char>) -> bool {
    s.len() > 0 && (s[0] == '-' || s[0] == '+')
}

/// `s` without its sign.
pub open spec fn unsigned_part(s: Seq<char>) -> Seq<char> {
    if has_sign(s) {
        s.drop_first()
    } else {
        s
    }
}

/// Whether `d` consists of ASCII digits only.
pub open spec fn all_digits(d: Seq<char>) -> bool {
    forall|i: int| 0 <= i < d.len() ==> is_digit(#[trigger] d[i])
}

/// What `i32::from_str` gives for `s`: an optional sign, then at least one
/// digit, and a value within range.
pub open spec fn parse_i32(s: Seq<char>) -> Option<i32> {
    let d = unsigned_part(s);
    if d.len() == 0 || !all_digits(d) {
        None
    } else {
        let v = if s.len() > 0 && s[0] == '-' {
            -digits_value(d)
        } else {
            digits_value(d)
        };
        if i32::MIN <= v <= i32::MAX {
            Some(v as i32)
        } else {
            None
        }
    }
}

proof fn lemma_digits_value_grows(d: Seq<char>, k: int)
    requires
        0 <= k <= d.len(),
        forall|i: int| 0 <= i < d.len() ==> is_digit(#[trigger] d[i]),
    ensures
        0 <= digits_value(d.subrange(0, k)) <= digits_value(d),
    decreases d.len() - k,
{
    if k < d.len() {
        lemma_digits_value_grows(d, k + 1);
        let p = d.subrange(0, k + 1);
        assert(p.drop_last() =~= d.subrange(0, k));
        assert(is_digit(p.last()));
    } else {
        assert(d.subrange(0, k) =~= d);
        lemma_digits_value_nonneg(d);
    }
}

proof fn lemma_digits_value_nonneg(d: Seq<char>)
    requires
        forall|i: int| 0 <= i < d.len() ==> is_digit(#[trigger] d[i]),
    ensures
        digits_value(d) >= 0,
    decreases d.len(),
{
    if d.len() > 0 {
        assert(is_digit(d[d.len() - 1]));
        lemma_digits_value_nonneg(d.drop_last());
    }
}

/// Same as `str::parse::<i32>`.
pub fn parse_i32_text(s: &str) -> (r: Option<i32>)
    ensures
        r == parse_i32(s@),
{
    let n = s.unicode_len();
    let negative = n > 0 && s.get_char(0) == '-';
    let signed = n > 0 && (s.get_char(0) == '-' || s.get_char(0) == '+');
    let start: usize = if signed {
        1
    } else {
        0
    };
    let ghost d = unsigned_part(s@);
    if start == n {
        return None;
    }
    let mut i: usize = start;
    while i < n
        invariant
            n == s@.len(),
            start <= i <= n,
            d =~= s@.subrange(start as int, n as int),
            d == unsigned_part(s@),
            negative == (s@.len() > 0 && s@[0] == '-'),
            forall|k: int| start <= k < i ==> is_digit(#[trigger] s@[k]),
        decreases n - i,
    {
        let c = s.get_char(i);
        if !('0' <= c && c <= '9') {
            assert(d[i - start] == s@[i as int]);
            assert(!is_digit(d[i - start]));
            assert(!all_digits(d));
            return None;
        }
        i = i + 1;
    }
    assert(all_digits(d)) by {
        assert forall|k: int| 0 <= k < d.len() implies is_digit(#[trigger] d[k]) by {
            assert(d[k] == s@[start + k]);
        }
    }
    let mut acc: i64 = 0;
    let mut j: usize = start;
    while j < n
        invariant
            n == s@.len(),
            start <= j <= n,
            d =~= s@.subrange(start as int, n as int),
            d == unsigned_part(s@),
            negative == (s@.len() > 0 && s@[0] == '-'),
            all_digits(d),
            acc == digits_value(d.subrange(0, j - start)),
            0 <= acc <= 2147483648,
        decreases n - j,
    {
        let c = s.get_char(j);
        proof {
            let p = d.subrange(0, j - start + 1);
            assert(p.drop_last() =~= d.subrange(0, j - start));
            assert(p.last() == c);
            assert(is_digit(d[j - start]));
        }
        let digit: i64 = (c as u32 - '0' as u32) as i64;
        acc = acc * 10 + digit;
        if acc > 2147483648 {
            proof {
                assert(acc == digits_value(d.subrange(0, j - start + 1)));
                lemma_digits_value_grows(d, j - start + 1);
                assert(digits_value(d) > 2147483648);
            }
            return None;
        }
        j = j + 1;
    }
    assert(d.subrange(0, n - start) =~= d);
    if negative {
        Some((0 - acc) as i32)
    } else if acc > 2147483647 {
        None
    } else {
        Some(acc as i32)
    }
}

/// What `i64::from_str` gives for `s`: an optional sign, then at least one
/// digit, and a value within range.
pub open spec fn parse_i64(s: Seq<char>) -> Option<i64> {
    let d = unsigned_part(s);
    if d.len() == 0 || !all_digits(d) {
        None
    } else {
        let v = if s.len() > 0 && s[0] == '-' {
            -digits_value(d)
        } else {
            digits_value(d)
        };
        if i64::MIN <= v <= i64::MAX {
            Some(v as i64)
        } else {
            None
        }
    }
}

/// The digits that `Display` writes for a natural number read back as that number.
pub proof fn lemma_digits_round_trip(n: nat)
    ensures
        digits_of(n).len() > 0,
        all_digits(digits_of(n)),
        digits_value(digits_of(n)) == n,
    decreases n,
{
    let d = digits_of(n);
    if n < 10 {
        let c = ((n as int) + ('0' as int)) as char;
        assert(c as int == n + 48);
        assert(d.drop_last() =~= Seq::<char>::empty());
        assert(d.last() == c);
        assert(digits_value(Seq::<char>::empty()) == 0);
        assert(digits_value(d) == digits_value(d.drop_last()) * 10 + (c as int - '0' as int));
        assert(digits_value(d) == n);
    } else {
        lemma_digits_round_trip(n / 10);
        let c = (((n % 10) as int) + ('0' as int)) as char;
        assert(c as int == n % 10 + 48);
        assert(d.drop_last() =~= digits_of(n / 10));
        assert(d.last() == c);
        assert(digits_value(d) == digits_value(d.drop_last()) * 10 + (c as int - '0' as int));
        assert(digits_value(d) == digits_value(digits_of(n / 10)) * 10 + (n % 10));
        assert((n / 10) * 10 + n % 10 == n) by (nonlinear_arith);
        assert(digits_value(d) == n);
        assert forall|i: int| 0 <= i < d.len() implies is_digit(#[trigger] d[i]) by {
            if i < d.len() - 1 {
                assert(d[i] == digits_of(n / 10)[i]);
            }
        }
    }
}

/// An `i64` written as `Display` writes it parses back to itself.
pub proof fn lemma_decimal_parses_back(v: i64)
    ensures
        parse_i64(decimal(v as int)) == Some(v),
{
    let s = decimal(v as int);
    if v < 0 {
        let m = (-(v as int)) as nat;
        lemma_digits_round_trip(m);
        assert(s.drop_first() =~= digits_of(m));
        assert(unsigned_part(s) == digits_of(m));
    } else {
        lemma_digits_round_trip(v as nat);
        let d = digits_of(v as nat);
        assert(is_digit(d[0]));
        assert(unsigned_part(s) == s);
    }
}

/// Same as `str::parse::<i64>`.
pub fn parse_i64_text(s: &str) -> (r: Option<i64>)
    ensures
        r == parse_i64(s@),
{
    let n = s.unicode_len();
    let negative = n > 0 && s.get_char(0) == '-';
    let signed = n > 0 && (s.get_char(0) == '-' || s.get_char(0) == '+');
    let start: usize = if signed {
        1
    } else {
        0
    };
    let ghost d = unsigned_part(s@);
    if start == n {
        return None;
    }
    let mut i: usize = start;
    while i < n
        invariant
            n == s@.len(),
            start <= i <= n,
            d =~= s@.subrange(start as int, n as int),
            d == unsigned_part(s@),
            negative == (s@.len() > 0 && s@[0] == '-'),
            forall|k: int| start <= k < i ==> is_digit(#[trigger] s@[k]),
        decreases n - i,
    {
        let c = s.get_char(i);
        if !('0' <= c && c <= '9') {
            assert(d[i - start] == s@[i as int]);
            assert(!is_digit(d[i - start]));
            assert(!all_digits(d));
            return None;
        }
        i = i + 1;
    }
    assert(all_digits(d)) by {
        assert forall|k: int| 0 <= k < d.len() implies is_digit(#[trigger] d[k]) by {
            assert(d[k] == s@[start + k]);
        }
    }
    let mut acc: i128 = 0;
    let mut j: usize = start;
    while j < n
        invariant
            n == s@.len(),
            start <= j <= n,
            d =~= s@.subrange(start as int, n as int),
            d == unsigned_part(s@),
            negative == (s@.len() > 0 && s@[0] == '-'),
            all_digits(d),
            acc == digits_value(d.subrange(0, j - start)),
            0 <= acc <= 9223372036854775808,
        decreases n - j,
    {
        let c = s.get_char(j);
        proof {
            let p = d.subrange(0, j - start + 1);
            assert(p.drop_last() =~= d.subrange(0, j - start));
            assert(p.last() == c);
            assert(is_digit(d[j - start]));
        }
        let digit: i128 = (c as u32 - '0' as u32) as i128;
        acc = acc * 10 + digit;
        if acc > 9223372036854775808 {
            proof {
                assert(acc == digits_value(d.subrange(0, j - start + 1)));
                lemma_digits_value_grows(d, j - start + 1);
                assert(digits_value(d) > 9223372036854775808);
            }
            return None;
        }
        j = j + 1;
    }
    assert(d.subrange(0, n - start) =~= d);
    if negative {
        Some((0 - acc) as i64)
    } else if acc > 9223372036854775807 {
        None
    } else {
        Some(acc as i64)
    }
}

/// What `optional_payload_i32` reads from field `field`: an integer within
/// `i32` range, or text that parses as one once trimmed.
pub open spec fn optional_i32(request: ServiceActionRequest, field: Seq<char>) -> Option<i32> {
    let p = request.payload@;
    if p.contains_key(field) {
        match p[field] {
            PayloadValue::Integer(n) => if i32::MIN <= n <= i32::MAX {
                Some(n as i32)
            } else {
                None
            },
            PayloadValue::Text(t) => parse_i32(trim(t@)),
            PayloadValue::Other => None,
        }
    } else {
        None
    }
}

/// Payload field `field_name` as an `i32`, when it holds one.
pub fn optional_payload_i32(request: &ServiceActionRequest, field_name: &str) -> (r: Option<i32>)
    requires
        request.payload.wf(),
    ensures
        r == optional_i32(*request, field_name@),
{
    match request.payload.get(field_name) {
        Some(PayloadValue::Integer(n)) => {
            let n = *n;
            if -2147483648 <= n && n <= 2147483647 {
                Some(n as i32)
            } else {
                None
            }
        },
        Some(PayloadValue::Text(t)) => parse_i32_text(trim_text(t.as_str()).as_str()),
        _ => None,
    }
}

/// The trimmed text of field `field`, or else the selected resource id without
/// `prefix`; `message` is the error when there is neither.
pub open spec fn text_or_selected(
    request: ServiceActionRequest,
    field: Seq<char>,
    prefix: Seq<char>,
    message: Seq<char>,
) -> Result<Seq<char>, ErrorView> {
    match optional_text(request, field) {
        Some(t) => Ok(t),
        None => match request.resource_id {
            Some(id) if starts_with(id@, prefix) => Ok(
                id@.subrange(prefix.len() as int, id@.len() as int),
            ),
            _ => Err(invalid_input_error(request.service_key@, request.action@, message)),
        },
    }
}

/// Payload field `field_name`, or else the selected resource id without `prefix`.
pub fn optional_text_or_resource(
    request: &ServiceActionRequest,
    field_name: &str,
    prefix: &str,
    message: &str,
) -> (r: Result<String, ServiceManagementError>)
    requires
        request.payload.wf(),
    ensures
        text_outcome(r) == text_or_selected(*request, field_name@, prefix@, message@),
{
    match optional_payload_text(request, field_name) {
        Some(t) => Ok(t),
        None => {
            let stripped = match &request.resource_id {
                Some(id) => strip_prefix_text(id.as_str(), prefix),
                None => None,
            };
            match stripped {
                Some(rest) => Ok(rest),
                None => Err(
                    ServiceManagementError::invalid_input(
                        request.service_key.as_str(),
                        request.action.as_str(),
                        message,
                    ),
                ),
            }
        },
    }
}

/// The trimmed text of field `field`; `message` is the error when it is missing or blank.
pub open spec fn required_optional(
    request: ServiceActionRequest,
    field: Seq<char>,
    message: Seq<char>,
) -> Result<Seq<char>, ErrorView> {
    match optional_text(request, field) {
        Some(t) => Ok(t),
        None => Err(invalid_input_error(request.service_key@, request.action@, message)),
    }
}

/// Payload field `field_name`, failing with `message` when it is missing or blank.
pub fn require_optional_text(request: &ServiceActionRequest, field_name: &str, message: &str) -> (r:
    Result<String, ServiceManagementError>)
    requires
        request.payload.wf(),
    ensures
        text_outcome(r) == required_optional(*request, field_name@, message@),
{
    match optional_payload_text(request, field_name) {
        Some(t) => Ok(t),
        None => Err(
            ServiceManagementError::invalid_input(
                request.service_key.as_str(),
                request.action.as_str(),
                message,
            ),
        ),
    }
}

/// The integer in field `field`; `message` is the error when there is none.
pub open spec fn required_i32(request: ServiceActionRequest, field: Seq<char>, message: Seq<char>) -> Result<
    int,
    ErrorView,
> {
    match optional_i32(request, field) {
        Some(n) => Ok(n as int),
        None => Err(invalid_input_error(request.service_key@, request.action@, message)),
    }
}

/// The view of a number-or-error outcome.
pub open spec fn number_outcome(r: Result<i32, ServiceManagementError>) -> Result<int, ErrorView> {
    match r {
        Ok(n) => Ok(n as int),
        Err(e) => Err(e@),
    }
}

/// Payload field `field_name` as an `i32`, failing with `message` when it holds none.
pub fn require_payload_i32(request: &ServiceActionRequest, field_name: &str, message: &str) -> (r:
    Result<i32, ServiceManagementError>)
    requires
        request.payload.wf(),
    ensures
        number_outcome(r) == required_i32(*request, field_name@, message@),
{
    match optional_payload_i32(request, field_name) {
        Some(n) => Ok(n),
        None => Err(
            ServiceManagementError::invalid_input(
                request.service_key.as_str(),
                request.action.as_str(),
                message,
            ),
        ),
    }
}

/// An optional number, with `default` for `None`.
pub open spec fn i32_or(o: Option<i32>, default: int) -> int {
    match o {
        Some(n) => n as int,
        None => default,
    }
}

/// Payload field `field_name` as an `i32`, or `default`.
pub fn optional_payload_i32_or(request: &ServiceActionRequest, field_name: &str, default: i32) -> (r:
    i32)
    requires
        request.payload.wf(),
    ensures
        r as int == i32_or(optional_i32(*request, field_name@), default as int),
{
    match optional_payload_i32(request, field_name) {
        Some(n) => n,
        None => default,
    }
}

/// Same as `i32::clamp`.
pub fn clamp_i32(v: i32, low: i32, high: i32) -> (r: i32)
    requires
        low <= high,
    ensures
        r as int == clamp(v as int, low as int, high as int),
{
    if v < low {
        low
    } else if v > high {
        high
    } else {
        v
    }
}

/// Payload field `field_name`, or `default` when it is missing or blank.
pub fn optional_payload_text_or(request: &ServiceActionRequest, field_name: &str, default: &str) -> (r:
    String)
    requires
        request.payload.wf(),
    ensures
        r@ == text_or(optional_text(*request, field_name@), default@),
{
    match optional_payload_text(request, field_name) {
        Some(t) => t,
        None => String::from_str(default),
    }
}

/// The two parts of `s` around the first `sep`, as the first two pieces of
/// `splitn(2, sep)`, with the whole text standing for a missing second part.
pub open spec fn split_or_whole(s: Seq<char>, sep: Seq<char>) -> (Seq<char>, Seq<char>) {
    match split_once(s, sep) {
        Some(parts) => parts,
        None => (s, s),
    }
}

/// The two parts of `s` around the first `sep`, or `s` twice when it has none.
pub fn split_path(s: &str, sep: &str) -> (r: (String, String))
    ensures
        (r.0@, r.1@) == split_or_whole(s@, sep@),
{
    match split_once_text(s, sep) {
        Some(parts) => parts,
        None => (String::from_str(s), String::from_str(s)),
    }
}

/// The two parts of `s` around the first `sep`; `message` is the error when it has none.
pub open spec fn split_required(
    request: ServiceActionRequest,
    s: Seq<char>,
    sep: Seq<char>,
    message: Seq<char>,
) -> Result<(Seq<char>, Seq<char>), ErrorView> {
    match split_once(s, sep) {
        Some(parts) => Ok(parts),
        None => Err(invalid_input_error(request.service_key@, request.action@, message)),
    }
}

/// The view of a pair-or-error outcome.
pub open spec fn pair_outcome(r: Result<(String, String), ServiceManagementError>) -> Result<
    (Seq<char>, Seq<char>),
    ErrorView,
> {
    match r {
        Ok(p) => Ok((p.0@, p.1@)),
        Err(e) => Err(e@),
    }
}

/// Splits `s` at its first `sep`, failing with `message` when there is none.
pub fn require_split(request: &ServiceActionRequest, s: &str, sep: &str, message: &str) -> (r: Result<
    (String, String),
    ServiceManagementError,
>)
    ensures
        pair_outcome(r) == split_required(*request, s@, sep@, message@),
{
    match split_once_text(s, sep) {
        Some(parts) => Ok(parts),
        None => Err(
            ServiceManagementError::invalid_input(
                request.service_key.as_str(),
                request.action.as_str(),
                message,
            ),
        ),
    }
}

/// What `serde_json` reports when `text` is not valid JSON: `None` when it is.
pub uninterp spec fn json_syntax_error(text: Seq<char>) -> Option<Seq<char>>;

/// Parses `text` with `serde_json::from_str::<serde_json::Value>` and keeps only
/// the error's description. The contract names the outcome; what counts as
/// valid JSON is left to `serde_json`.
#[verifier::external_body]
fn json_check(text: &str) -> (r: Option<String>)
    ensures
        r.deep_view() == json_syntax_error(text@),
{
    match serde_json::from_str::<serde_json::Value>(text) {
        Ok(_) => None,
        Err(err) => Some(err.to_string()),
    }
}

/// The outcome of requiring JSON text in field `field`, with `default_value` when it is blank.
pub open spec fn required_json(
    request: ServiceActionRequest,
    field: Seq<char>,
    default_value: Seq<char>,
) -> Result<Seq<char>, ErrorView> {
    let value = match optional_text(request, field) {
        Some(t) => t,
        None => default_value,
    };
    match json_syntax_error(value) {
        None => Ok(value),
        Some(err) => Err(
            invalid_input_error(
                request.service_key@,
                request.action@,
                "`"@ + field + "` must be valid JSON: "@ + err,
            ),
        ),
    }
}

/// The JSON text of payload field `field_name`, or `default_value` when it is blank.
pub fn require_json_payload_text(
    request: &ServiceActionRequest,
    field_name: &str,
    default_value: &str,
) -> (r: Result<String, ServiceManagementError>)
    requires
        request.payload.wf(),
    ensures
        text_outcome(r) == required_json(*request, field_name@, default_value@),
{
    let value = match optional_payload_text(request, field_name) {
        Some(t) => t,
        None => String::from_str(default_value),
    };
    match json_check(value.as_str()) {
        None => Ok(value),
        Some(err) => Err(
            ServiceManagementError::invalid_input(
                request.service_key.as_str(),
                request.action.as_str(),
                concat4("`", field_name, "` must be valid JSON: ", err.as_str()).as_str(),
            ),
        ),
    }
}

/// The part of an ARN after its last `:` or `/`.
pub fn resource_name_from_arn(arn: &str) -> (r: String)
    ensures
        r@ == last_segment(arn@, ":/"@),
{
    last_segment_text(arn, ":/")
}

/// The error for a value the AWS client refused to build; `error_text` is its description.
pub fn build_error(request: &ServiceActionRequest, field_name: &str, error_text: &str) -> (e:
    ServiceManagementError)
    ensures
        e@ == invalid_input_error(
            request.service_key@,
            request.action@,
            "`"@ + field_name@ + "` is invalid: "@ + error_text@,
        ),
{
    ServiceManagementError::invalid_input(
        request.service_key.as_str(),
        request.action.as_str(),
        concat4("`", field_name, "` is invalid: ", error_text).as_str(),
    )
}

} // verus!
