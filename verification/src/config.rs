//! Connection settings, and the rule that the desktop shell only talks to a
//! local Floci endpoint.
use vstd::prelude::*;
use vstd::string::*;

use crate::text::{ends_with, ends_with_text, eq_ignore_ascii_case_text, lower_text};

verus! {

/// Endpoint used when none is configured.
pub const DEFAULT_ENDPOINT_URL: &'static str = "http://localhost:4566";

/// Region used when none is configured.
pub const DEFAULT_REGION: &'static str = "us-east-1";

/// Access key id used when none is configured.
pub const DEFAULT_ACCESS_KEY_ID: &'static str = "test";

/// Secret access key used when none is configured.
pub const DEFAULT_SECRET_ACCESS_KEY: &'static str = "test";

/// The host of a URL, as the `url` crate parses it.
#[derive(Debug, Clone)]
pub enum EndpointHost {
    Domain(String),
    /// The four octets of an IPv4 address.
    Ipv4(Vec<u8>),
    /// The eight 16-bit segments of an IPv6 address.
    Ipv6(Vec<u16>),
}

pub enum HostView {
    Domain(Seq<char>),
    Ipv4(Seq<u8>),
    Ipv6(Seq<u16>),
}

impl View for EndpointHost {
    type V = HostView;

    open spec fn view(&self) -> HostView {
        match self {
            EndpointHost::Domain(d) => HostView::Domain(d@),
            EndpointHost::Ipv4(o) => HostView::Ipv4(o@),
            EndpointHost::Ipv6(s) => HostView::Ipv6(s@),
        }
    }
}

/// A parsed endpoint URL: its serialization, its host, and the host as the URL writes it.
#[derive(Debug, Clone)]
pub struct ParsedEndpoint {
    pub url: String,
    pub host: Option<EndpointHost>,
    pub host_text: Option<String>,
}

pub struct EndpointView {
    pub url: Seq<char>,
    pub host: Option<HostView>,
    pub host_text: Option<Seq<char>>,
}

impl View for ParsedEndpoint {
    type V = EndpointView;

    open spec fn view(&self) -> EndpointView {
        EndpointView {
            url: self.url@,
            host: match self.host {
                Some(h) => Some(h@),
                None => None,
            },
            host_text: self.host_text.deep_view(),
        }
    }
}

/// What `url::Url::parse` makes of `input`: the parsed endpoint, or the
/// description of the parse error.
pub uninterp spec fn url_parse(input: Seq<char>) -> Result<EndpointView, Seq<char>>;

/// Parses an endpoint URL with `url::Url::parse` and reads its serialization
/// (`Url::to_string`), its host (`Url::host`, with the octets and segments of
/// IP addresses) and its host text (`Url::host_str`). The result is named by
/// `url_parse`; beside that, the contract states what the `url` source shows:
/// a URL has a host text exactly when it has a host, the host text of a
/// domain is the domain, IPv4 hosts have four octets and IPv6 hosts eight segments.
#[verifier::external_body]
fn parse_endpoint_url(input: &str) -> (r: Result<ParsedEndpoint, String>)
    ensures
        (match r {
            Ok(p) => Ok(p@),
            Err(e) => Err(e@),
        }) == url_parse(input@),
        r matches Ok(p) ==> {
            &&& (p@.host is Some <==> p@.host_text is Some)
            &&& (p@.host matches Some(HostView::Domain(d)) ==> p@.host_text == Some(d))
            &&& (p@.host matches Some(HostView::Ipv4(o)) ==> o.len() == 4)
            &&& (p@.host matches Some(HostView::Ipv6(s)) ==> s.len() == 8)
        },
{
    match url::Url::parse(input) {
        Ok(url) => Ok(ParsedEndpoint {
            host: url.host().map(|host| match host {
                url::Host::Domain(d) => EndpointHost::Domain(d.to_owned()),
                url::Host::Ipv4(a) => EndpointHost::Ipv4(a.octets().to_vec()),
                url::Host::Ipv6(a) => EndpointHost::Ipv6(a.segments().to_vec()),
            }),
            host_text: url.host_str().map(|h| h.to_owned()),
            url: url.to_string(),
        }),
        Err(err) => Err(err.to_string()),
    }
}

/// Host names that always point at a local Floci: compared without regard to
/// ASCII case, and any subdomain of the two local wildcard domains.
pub open spec fn allowed_domain(host: Seq<char>) -> bool {
    ||| lower_text(host) == lower_text("localhost"@)
    ||| lower_text(host) == lower_text("floci"@)
    ||| lower_text(host) == lower_text("host.docker.internal"@)
    ||| lower_text(host) == lower_text("localhost.floci.io"@)
    ||| lower_text(host) == lower_text("localhost.localstack.cloud"@)
    ||| ends_with(host, ".localhost.floci.io"@)
    ||| ends_with(host, ".localhost.localstack.cloud"@)
}

/// Whether `host` names a local Floci endpoint.
pub fn is_allowed_domain(host: &str) -> (r: bool)
    ensures
        r == allowed_domain(host@),
{
    eq_ignore_ascii_case_text(host, "localhost") || eq_ignore_ascii_case_text(host, "floci")
        || eq_ignore_ascii_case_text(host, "host.docker.internal") || eq_ignore_ascii_case_text(
        host,
        "localhost.floci.io",
    ) || eq_ignore_ascii_case_text(host, "localhost.localstack.cloud") || ends_with_text(
        host,
        ".localhost.floci.io",
    ) || ends_with_text(host, ".localhost.localstack.cloud")
}

/// Why an endpoint is refused.
#[derive(Debug, Clone)]
pub enum ConfigError {
    /// The URL does not parse; the text is the parser's description.
    InvalidEndpointUrl(String),
    /// The URL has no host.
    MissingEndpointHost,
    /// The host is not local; the text is the host.
    RemoteEndpoint(String),
}

pub enum ConfigErrorView {
    InvalidEndpointUrl(Seq<char>),
    MissingEndpointHost,
    RemoteEndpoint(Seq<char>),
}

impl View for ConfigError {
    type V = ConfigErrorView;

    open spec fn view(&self) -> ConfigErrorView {
        match self {
            ConfigError::InvalidEndpointUrl(e) => ConfigErrorView::InvalidEndpointUrl(e@),
            ConfigError::MissingEndpointHost => ConfigErrorView::MissingEndpointHost,
            ConfigError::RemoteEndpoint(h) => ConfigErrorView::RemoteEndpoint(h@),
        }
    }
}

impl ConfigError {
    /// The text shown for the error.
    pub fn to_display_string(&self) -> (s: String)
        ensures
            s@ == (match self@ {
                ConfigErrorView::InvalidEndpointUrl(_) => "FLOCI_AWS_ENDPOINT_URL is invalid"@,
                ConfigErrorView::MissingEndpointHost => "FLOCI_AWS_ENDPOINT_URL must include a host"@,
                ConfigErrorView::RemoteEndpoint(h) => "refusing to connect to non-local Floci endpoint: "@
                    + h,
            }),
    {
        match self {
            ConfigError::InvalidEndpointUrl(_) => String::from_str("FLOCI_AWS_ENDPOINT_URL is invalid"),
            ConfigError::MissingEndpointHost => String::from_str(
                "FLOCI_AWS_ENDPOINT_URL must include a host",
            ),
            ConfigError::RemoteEndpoint(h) => crate::text::concat2(
                "refusing to connect to non-local Floci endpoint: ",
                h.as_str(),
            ),
        }
    }
}

/// Loopback IPv4 addresses: `127.0.0.0/8`.
pub open spec fn ipv4_loopback(octets: Seq<u8>) -> bool {
    octets.len() == 4 && octets[0] == 127
}

/// The loopback IPv6 address `::1`.
pub open spec fn ipv6_loopback(segments: Seq<u16>) -> bool {
    segments =~= seq![0u16, 0u16, 0u16, 0u16, 0u16, 0u16, 0u16, 1u16]
}

/// The outcome of checking that a parsed endpoint is local.
pub open spec fn local_endpoint_check(endpoint: EndpointView) -> Result<(), ConfigErrorView> {
    match endpoint.host {
        Some(HostView::Domain(h)) if allowed_domain(h) => Ok(()),
        Some(HostView::Ipv4(o)) if ipv4_loopback(o) => Ok(()),
        Some(HostView::Ipv6(s)) if ipv6_loopback(s) => Ok(()),
        Some(_) => Err(
            ConfigErrorView::RemoteEndpoint(
                match endpoint.host_text {
                    Some(t) => t,
                    None => Seq::empty(),
                },
            ),
        ),
        None => Err(ConfigErrorView::MissingEndpointHost),
    }
}

fn is_ipv6_loopback(segments: &Vec<u16>) -> (r: bool)
    ensures
        r == ipv6_loopback(segments@),
{
    if segments.len() != 8 {
        return false;
    }
    let mut i: usize = 0;
    while i < 7
        invariant
            segments@.len() == 8,
            0 <= i <= 7,
            forall|k: int| 0 <= k < i ==> segments@[k] == 0,
        decreases 7 - i,
    {
        if segments[i] != 0 {
            return false;
        }
        i = i + 1;
    }
    let r = segments[7] == 1;
    if r {
        assert(segments@ =~= seq![0u16, 0u16, 0u16, 0u16, 0u16, 0u16, 0u16, 1u16]);
    }
    r
}

/// Accepts only endpoints whose host is local: an allowed domain or a loopback address.
pub fn validate_local_endpoint(endpoint: &ParsedEndpoint) -> (r: Result<(), ConfigError>)
    ensures
        (match r {
            Ok(()) => Ok(()),
            Err(e) => Err(e@),
        }) == local_endpoint_check(endpoint@),
{
    let remote = match &endpoint.host_text {
        Some(t) => t.clone(),
        None => String::new(),
    };
    match &endpoint.host {
        Some(EndpointHost::Domain(h)) => {
            if is_allowed_domain(h.as_str()) {
                Ok(())
            } else {
                Err(ConfigError::RemoteEndpoint(remote))
            }
        },
        Some(EndpointHost::Ipv4(o)) => {
            if o.len() == 4 && o[0] == 127 {
                Ok(())
            } else {
                Err(ConfigError::RemoteEndpoint(remote))
            }
        },
        Some(EndpointHost::Ipv6(s)) => {
            if is_ipv6_loopback(s) {
                Ok(())
            } else {
                Err(ConfigError::RemoteEndpoint(remote))
            }
        },
        None => Err(ConfigError::MissingEndpointHost),
    }
}

/// The outcome of accepting `text` as the endpoint URL.
pub open spec fn local_endpoint_outcome(text: Seq<char>) -> Result<EndpointView, ConfigErrorView> {
    match url_parse(text) {
        Err(e) => Err(ConfigErrorView::InvalidEndpointUrl(e)),
        Ok(p) => match local_endpoint_check(p) {
            Ok(()) => Ok(p),
            Err(e) => Err(e),
        },
    }
}

/// Parses the configured endpoint URL and accepts it only when it is local.
pub fn local_endpoint(text: &str) -> (r: Result<ParsedEndpoint, ConfigError>)
    ensures
        (match r {
            Ok(p) => Ok(p@),
            Err(e) => Err(e@),
        }) == local_endpoint_outcome(text@),
{
    let endpoint = match parse_endpoint_url(text) {
        Ok(p) => p,
        Err(e) => {
            return Err(ConfigError::InvalidEndpointUrl(e));
        },
    };
    validate_local_endpoint(&endpoint)?;
    Ok(endpoint)
}

/// Where and as whom the desktop shell connects.
#[derive(Debug, Clone)]
pub struct AppConfig {
    pub endpoint_url: String,
    pub region: String,
    pub access_key_id: String,
    pub secret_access_key: String,
}

impl AppConfig {
    /// `Missing` when either credential is empty, `Configured` otherwise.
    pub fn credentials_status(&self) -> (status: &'static str)
        ensures
            status@ == (if self.access_key_id@.len() == 0 || self.secret_access_key@.len() == 0 {
                "Missing"@
            } else {
                "Configured"@
            }),
    {
        if self.access_key_id.as_str().unicode_len() == 0
            || self.secret_access_key.as_str().unicode_len() == 0 {
            "Missing"
        } else {
            "Configured"
        }
    }
}

/// The documented local host names (`localhost`, `floci`,
/// `host.docker.internal`, `localhost.floci.io`, `localhost.localstack.cloud`),
/// written in any ASCII case, and every subdomain of `.localhost.floci.io` and
/// `.localhost.localstack.cloud` name a local endpoint: an endpoint whose host
/// is such a domain passes the local check.
pub proof fn lemma_documented_local_hosts_are_accepted(endpoint: EndpointView, h: Seq<char>)
    requires
        endpoint.host == Some(HostView::Domain(h)),
        lower_text(h) == "localhost"@ || lower_text(h) == "floci"@ || lower_text(h)
            == "host.docker.internal"@ || lower_text(h) == "localhost.floci.io"@ || lower_text(h)
            == "localhost.localstack.cloud"@ || ends_with(h, ".localhost.floci.io"@) || ends_with(
            h,
            ".localhost.localstack.cloud"@,
        ),
    ensures
        allowed_domain(h),
        local_endpoint_check(endpoint) == Ok::<(), ConfigErrorView>(()),
{
    reveal_strlit("localhost");
    reveal_strlit("floci");
    reveal_strlit("host.docker.internal");
    reveal_strlit("localhost.floci.io");
    reveal_strlit("localhost.localstack.cloud");
    assert(lower_text("localhost"@) =~= "localhost"@);
    assert(lower_text("floci"@) =~= "floci"@);
    assert(lower_text("host.docker.internal"@) =~= "host.docker.internal"@);
    assert(lower_text("localhost.floci.io"@) =~= "localhost.floci.io"@);
    assert(lower_text("localhost.localstack.cloud"@) =~= "localhost.localstack.cloud"@);
}

/// No other host name is local: a host that passes the check is one of the
/// documented names in some ASCII case, or a subdomain of one of the two local
/// wildcard domains.
pub proof fn lemma_only_documented_hosts_are_local(h: Seq<char>)
    requires
        allowed_domain(h),
    ensures
        lower_text(h) == "localhost"@ || lower_text(h) == "floci"@ || lower_text(h)
            == "host.docker.internal"@ || lower_text(h) == "localhost.floci.io"@ || lower_text(h)
            == "localhost.localstack.cloud"@ || ends_with(h, ".localhost.floci.io"@) || ends_with(
            h,
            ".localhost.localstack.cloud"@,
        ),
{
    reveal_strlit("localhost");
    reveal_strlit("floci");
    reveal_strlit("host.docker.internal");
    reveal_strlit("localhost.floci.io");
    reveal_strlit("localhost.localstack.cloud");
    assert(lower_text("localhost"@) =~= "localhost"@);
    assert(lower_text("floci"@) =~= "floci"@);
    assert(lower_text("host.docker.internal"@) =~= "host.docker.internal"@);
    assert(lower_text("localhost.floci.io"@) =~= "localhost.floci.io"@);
    assert(lower_text("localhost.localstack.cloud"@) =~= "localhost.localstack.cloud"@);
}

/// An endpoint is local when its host is an IPv4 address in `127.0.0.0/8` or
/// the IPv6 address `::1`; any other address, and any domain that is not a
/// local name, is refused as remote, naming the host as written in the URL; an
/// endpoint without a host is refused for that.
pub proof fn lemma_local_endpoint_hosts(endpoint: EndpointView)
    ensures
        endpoint.host is None ==> local_endpoint_check(endpoint)
            == Err::<(), ConfigErrorView>(ConfigErrorView::MissingEndpointHost),
        (endpoint.host matches Some(HostView::Ipv4(o)) && o.len() == 4 && o[0] == 127)
            ==> local_endpoint_check(endpoint) == Ok::<(), ConfigErrorView>(()),
        (endpoint.host matches Some(HostView::Ipv6(g)) && g == seq![0u16, 0u16, 0u16, 0u16, 0u16, 0u16, 0u16, 1u16])
            ==> local_endpoint_check(endpoint) == Ok::<(), ConfigErrorView>(()),
        ((endpoint.host matches Some(HostView::Ipv4(o)) && (o.len() != 4 || o[0] != 127))
            || (endpoint.host matches Some(HostView::Ipv6(g)) && g != seq![0u16, 0u16, 0u16, 0u16, 0u16, 0u16, 0u16, 1u16])
            || (endpoint.host matches Some(HostView::Domain(h)) && !allowed_domain(h)))
            ==> local_endpoint_check(endpoint) == Err::<(), ConfigErrorView>(
            ConfigErrorView::RemoteEndpoint(
                match endpoint.host_text {
                    Some(t) => t,
                    None => Seq::empty(),
                },
            ),
        ),
{
}

} // verus!
