//! Reading the health report of the local Floci endpoint.
use vstd::prelude::*;
use vstd::string::*;

use crate::service_management::text_map::TextMap;
use crate::text::concat2;

verus! {

/// What the health logic reads from the JSON body of a health response: the
/// top-level fields whose values are text, and the text found at
/// `/floci/version` and `/floci/status`.
#[derive(Debug, Clone)]
pub struct HealthBody {
    pub text_fields: TextMap<String>,
    pub floci_version: Option<String>,
    pub floci_status: Option<String>,
}

/// The text of the first of `keys` that names a text field of `fields`.
pub open spec fn first_text_field(fields: Map<Seq<char>, String>, keys: Seq<Seq<char>>) -> Option<
    Seq<char>,
>
    decreases keys.len(),
{
    if keys.len() == 0 {
        None
    } else if fields.contains_key(keys[0]) {
        Some(fields[keys[0]]@)
    } else {
        first_text_field(fields, keys.drop_first())
    }
}

/// The text of the first of `keys` that names a text field of the body.
pub fn string_field(body: &HealthBody, keys: &Vec<&str>) -> (r: Option<String>)
    requires
        body.text_fields.wf(),
    ensures
        r.deep_view() == first_text_field(body.text_fields@, keys@.map_values(|k: &str| k@)),
{
    let ghost all = keys@.map_values(|k: &str| k@);
    assert(all.subrange(0, all.len() as int) =~= all);
    let mut i: usize = 0;
    while i < keys.len()
        invariant
            body.text_fields.wf(),
            0 <= i <= keys@.len(),
            all == keys@.map_values(|k: &str| k@),
            first_text_field(body.text_fields@, all.subrange(i as int, all.len() as int))
                == first_text_field(body.text_fields@, all),
        decreases keys@.len() - i,
    {
        assert(all.subrange(i as int, all.len() as int).drop_first() =~= all.subrange(
            i + 1,
            all.len() as int,
        ));
        if let Some(v) = body.text_fields.get(keys[i]) {
            return Some(v.clone());
        }
        i = i + 1;
    }
    None
}

/// Field names that may carry the Floci version, in order of preference.
pub open spec fn version_keys() -> Seq<Seq<char>> {
    seq!["floci_version"@, "version"@]
}

/// Field names that may carry the health status, in order of preference.
pub open spec fn status_keys() -> Seq<Seq<char>> {
    seq!["health_status"@, "status"@, "state"@]
}

/// The version and the health status a health body reports.
pub open spec fn health_fields(body: HealthBody, ok: bool) -> (Option<Seq<char>>, Seq<char>) {
    let version = match first_text_field(body.text_fields@, version_keys()) {
        Some(v) => Some(v),
        None => body.floci_version.deep_view(),
    };
    let status = match first_text_field(body.text_fields@, status_keys()) {
        Some(s) => s,
        None => match body.floci_status {
            Some(s) => s@,
            None => if ok {
                "healthy"@
            } else {
                "unavailable"@
            },
        },
    };
    (version, status)
}

/// The Floci version and health status found in a health body.
pub fn health_metadata(body: &HealthBody, ok: bool) -> (r: (Option<String>, String))
    requires
        body.text_fields.wf(),
    ensures
        (r.0.deep_view(), r.1@) == health_fields(*body, ok),
{
    let mut version_names: Vec<&str> = Vec::new();
    version_names.push("floci_version");
    version_names.push("version");
    assert(version_names@.map_values(|k: &str| k@) =~= version_keys());
    let mut status_names: Vec<&str> = Vec::new();
    status_names.push("health_status");
    status_names.push("status");
    status_names.push("state");
    assert(status_names@.map_values(|k: &str| k@) =~= status_keys());
    let floci_version = match string_field(body, &version_names) {
        Some(v) => Some(v),
        None => body.floci_version.clone(),
    };
    let health_status = match string_field(body, &status_names) {
        Some(s) => s,
        None => match &body.floci_status {
            Some(s) => s.clone(),
            None => if ok {
                String::from_str("healthy")
            } else {
                String::from_str("unavailable")
            },
        },
    };
    (floci_version, health_status)
}

/// What the dashboard shows about the endpoint's health, apart from the raw body.
#[derive(Debug, Clone)]
pub struct HealthSummary {
    pub ok: bool,
    pub status: Option<u16>,
    pub floci_version: Option<String>,
    pub health_status: String,
    pub error: Option<String>,
}

/// Whether an HTTP status code reports success.
pub open spec fn is_success(status: u16) -> bool {
    200 <= status <= 299
}

/// The summary of a health response with status `status`: `body` is what was
/// read from its JSON body, or the description of why it was not JSON.
pub fn health_from_response(status: u16, body: Result<HealthBody, String>) -> (r: HealthSummary)
    requires
        body matches Ok(b) ==> b.text_fields.wf(),
    ensures
        r.status == Some(status),
        match body {
            Ok(b) => {
                &&& r.ok == is_success(status)
                &&& (r.floci_version.deep_view(), r.health_status@) == health_fields(b, is_success(status))
                &&& r.error is None
            },
            Err(e) => {
                &&& !r.ok
                &&& r.floci_version is None
                &&& r.health_status@ == "invalid-json"@
                &&& r.error.deep_view() == Some("health response was not JSON: "@ + e@)
            },
        },
{
    match body {
        Ok(b) => {
            let ok = 200 <= status && status <= 299;
            let (floci_version, health_status) = health_metadata(&b, ok);
            HealthSummary { ok, status: Some(status), floci_version, health_status, error: None }
        },
        Err(e) => HealthSummary {
            ok: false,
            status: Some(status),
            floci_version: None,
            health_status: String::from_str("invalid-json"),
            error: Some(concat2("health response was not JSON: ", e.as_str())),
        },
    }
}

/// The summary when the endpoint could not be reached; `error` says why.
pub fn health_unavailable(error: String) -> (r: HealthSummary)
    ensures
        !r.ok,
        r.status == Some(503u16),
        r.floci_version is None,
        r.health_status@ == "unavailable"@,
        r.error.deep_view() == Some(error@),
{
    HealthSummary {
        ok: false,
        status: Some(503),
        floci_version: None,
        health_status: String::from_str("unavailable"),
        error: Some(error),
    }
}

/// The text of `path` without its leading slashes, as `trim_start_matches('/')` gives it.
pub open spec fn without_leading_slashes(path: Seq<char>) -> Seq<char>
    decreases path.len(),
{
    if path.len() > 0 && path[0] == '/' {
        without_leading_slashes(path.drop_first())
    } else {
        path
    }
}

/// What the `url` crate writes for `endpoint` once its path is set to `path`
/// and its query and fragment are removed, or `None` when `endpoint` does not parse.
pub uninterp spec fn url_with_path(endpoint: Seq<char>, path: Seq<char>) -> Option<Seq<char>>;

/// Parses `endpoint` with `url::Url::parse`, then calls `set_path`,
/// `set_query(None)` and `set_fragment(None)` and writes the URL out. The text
/// is named by `url_with_path`; how paths are escaped is left to the `url` crate.
#[verifier::external_body]
fn replace_url_path(endpoint: &str, path: &str) -> (r: Option<String>)
    ensures
        r.deep_view() == url_with_path(endpoint@, path@),
{
    let mut url = url::Url::parse(endpoint).ok()?;
    url.set_path(path);
    url.set_query(None);
    url.set_fragment(None);
    Some(url.to_string())
}

/// The URL of `path` on the endpoint, without query or fragment.
pub fn endpoint_path(endpoint: &str, path: &str) -> (r: Option<String>)
    ensures
        r.deep_view() == url_with_path(endpoint@, without_leading_slashes(path@)),
{
    let n = path.unicode_len();
    assert(path@.subrange(0, n as int) =~= path@);
    let mut i: usize = 0;
    while i < n && path.get_char(i) == '/'
        invariant
            n == path@.len(),
            0 <= i <= n,
            without_leading_slashes(path@.subrange(i as int, n as int)) == without_leading_slashes(path@),
        decreases n - i,
    {
        assert(path@.subrange(i as int, n as int).drop_first() =~= path@.subrange(i + 1, n as int));
        i = i + 1;
    }
    let trimmed = crate::text::slice_chars(path, i, n);
    assert(path@.subrange(i as int, n as int) == trimmed@);
    replace_url_path(endpoint, trimmed.as_str())
}

/// The health status a body reports is the text of its `health_status` field,
/// else of its `status` field, else of its `state` field, else the text at
/// `/floci/status`, else `healthy` for a successful response and `unavailable`
/// otherwise. The version is likewise the `floci_version` field, else the
/// `version` field, else the text at `/floci/version`.
pub proof fn lemma_health_fields_preference(body: HealthBody, ok: bool)
    ensures
        body.text_fields@.contains_key("health_status"@) ==> health_fields(body, ok).1
            == body.text_fields@["health_status"@]@,
        !body.text_fields@.contains_key("health_status"@) && body.text_fields@.contains_key(
            "status"@,
        ) ==> health_fields(body, ok).1 == body.text_fields@["status"@]@,
        !body.text_fields@.contains_key("health_status"@) && !body.text_fields@.contains_key(
            "status"@,
        ) && body.text_fields@.contains_key("state"@) ==> health_fields(body, ok).1
            == body.text_fields@["state"@]@,
        !body.text_fields@.contains_key("health_status"@) && !body.text_fields@.contains_key(
            "status"@,
        ) && !body.text_fields@.contains_key("state"@) ==> health_fields(body, ok).1 == (
        match body.floci_status {
            Some(s) => s@,
            None => if ok {
                "healthy"@
            } else {
                "unavailable"@
            },
        }),
        body.text_fields@.contains_key("floci_version"@) ==> health_fields(body, ok).0 == Some(
            body.text_fields@["floci_version"@]@,
        ),
        !body.text_fields@.contains_key("floci_version"@) && body.text_fields@.contains_key(
            "version"@,
        ) ==> health_fields(body, ok).0 == Some(body.text_fields@["version"@]@),
        !body.text_fields@.contains_key("floci_version"@) && !body.text_fields@.contains_key(
            "version"@,
        ) ==> health_fields(body, ok).0 == body.floci_version.deep_view(),
{
    let f = body.text_fields@;
    reveal_with_fuel(first_text_field, 4);
    let sk = status_keys();
    assert(sk.drop_first() =~= seq!["status"@, "state"@]);
    assert(sk.drop_first().drop_first() =~= seq!["state"@]);
    assert(sk.drop_first().drop_first().drop_first() =~= Seq::<Seq<char>>::empty());
    let vk = version_keys();
    assert(vk.drop_first() =~= seq!["version"@]);
    assert(vk.drop_first().drop_first() =~= Seq::<Seq<char>>::empty());
}

} // verus!
