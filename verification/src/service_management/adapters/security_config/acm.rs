//! ACM.
use vstd::prelude::*;
use vstd::string::*;

use crate::service_management::adapters::{
    build_inventory, flag_text, no_attributes, optional_flag_text, put_attr, put_text, shows,
    summary, text_or, text_or_default, texts_of, unsupported_action, unsupported_action_error,
    with_attr,
};
use crate::service_management::adapters::network_observability::route53::{join_values, joined};
use crate::text::{concat2, concat3, concat4};
use crate::service_management::errors::{
    unsupported_operation_error, ErrorView, ServiceManagementError,
};
use crate::text::text_eq;

use crate::service_management::models::{
    single_kind_tab, summary_views, tab, tab_views, InventoryView, ResourceSummary, ResourceTab,
    ServiceActionRequest, ServiceInventory, ServiceSupportLevel, TabView,
};

verus! {

/// The tabs of the ACM inventory page.
pub open spec fn inventory_tabs() -> Seq<TabView> {
    seq![
        single_kind_tab("certificates"@, "Certificates"@, "certificate"@, "No ACM certificates were found."@),
        single_kind_tab("domains"@, "Domains"@, "domain"@, "No ACM certificate domains were found."@),
        single_kind_tab("validation"@, "Validation"@, "validation"@, "No ACM validation metadata was found."@),
        single_kind_tab("tags"@, "Tags"@, "tag-set"@, "ACM tags are folded into resource metadata."@),
    ]
}

/// The tabs of the ACM inventory page.
pub fn tabs() -> (t: Vec<ResourceTab>)
    ensures
        tab_views(t@) == inventory_tabs(),
{
    let mut t: Vec<ResourceTab> = Vec::new();
    t.push(tab("certificates", "Certificates", "certificate", "No ACM certificates were found."));
    t.push(tab("domains", "Domains", "domain", "No ACM certificate domains were found."));
    t.push(tab("validation", "Validation", "validation", "No ACM validation metadata was found."));
    t.push(tab("tags", "Tags", "tag-set", "ACM tags are folded into resource metadata."));
    assert(tab_views(t@) =~= inventory_tabs());
    t
}

/// Why an action request on ACM is refused: certificate import is disabled,
/// and ACM has no other action.
pub open spec fn action_error(request: ServiceActionRequest) -> ErrorView {
    if request.action@ == "import_certificate"@ {
        unsupported_operation_error(
            "acm"@,
            "import_certificate"@,
            "ACM certificate import is disabled because the current action contract would place private key material in frontend state."@,
        )
    } else {
        unsupported_action_error(request)
    }
}

/// The error every action request on ACM gets.
pub fn refuse_action(request: &ServiceActionRequest) -> (e: ServiceManagementError)
    ensures
        e@ == action_error(*request),
{
    if text_eq(request.action.as_str(), "import_certificate") {
        ServiceManagementError::unsupported_operation(
            "acm",
            "import_certificate",
            "ACM certificate import is disabled because the current action contract would place private key material in frontend state.",
        )
    } else {
        unsupported_action(request)
    }
}

/// What describing a certificate reported of it.
pub struct CertificateDetail {
    pub status: Option<String>,
    pub created_at: Option<String>,
    pub issued_at: Option<String>,
    pub imported_at: Option<String>,
    pub subject: Option<String>,
    pub issuer: Option<String>,
    pub serial: Option<String>,
    pub signature_algorithm: Option<String>,
    pub not_before: Option<String>,
    pub not_after: Option<String>,
}

/// The attributes listed for a certificate: what its summary holds, its
/// alternative names joined with `, ` when that is not empty, and what
/// describing it reported. Its private key is never loaded.
pub open spec fn certificate_attributes(
    arn: Seq<char>,
    certificate_type: Option<Seq<char>>,
    key_algorithm: Option<Seq<char>>,
    in_use: Option<bool>,
    renewal_eligibility: Option<Seq<char>>,
    alternative_names: Seq<Seq<char>>,
    detail: Option<CertificateDetail>,
) -> Map<Seq<char>, Seq<char>> {
    let m = map!["certificate_arn"@ => arn, "private_key_material"@ => "not loaded"@];
    let m = with_attr(m, "type"@, certificate_type);
    let m = with_attr(m, "key_algorithm"@, key_algorithm);
    let m = with_attr(m, "in_use"@, flag_text(in_use));
    let m = with_attr(m, "renewal_eligibility"@, renewal_eligibility);
    let names = joined(alternative_names);
    let m = if names.len() > 0 {
        m.insert("subject_alternative_names"@, names)
    } else {
        m
    };
    match detail {
        Some(d) => {
            let m = with_attr(m, "subject"@, d.subject.deep_view());
            let m = with_attr(m, "issuer"@, d.issuer.deep_view());
            let m = with_attr(m, "serial"@, d.serial.deep_view());
            let m = with_attr(m, "signature_algorithm"@, d.signature_algorithm.deep_view());
            let m = with_attr(m, "not_before"@, d.not_before.deep_view());
            with_attr(m, "not_after"@, d.not_after.deep_view())
        },
        None => m,
    }
}

/// The status of a certificate: the one its description reported, else the
/// one its summary reported, else `unknown`.
pub open spec fn certificate_status(status: Option<Seq<char>>, detail: Option<CertificateDetail>) -> Seq<char> {
    let listed = text_or(status, "unknown"@);
    match detail {
        Some(d) => text_or(d.status.deep_view(), listed),
        None => listed,
    }
}

/// When a certificate was created and last issued or imported: as its
/// description reported, else as its summary reported.
pub open spec fn certificate_times(
    created_at: Option<Seq<char>>,
    issued_at: Option<Seq<char>>,
    detail: Option<CertificateDetail>,
) -> (Option<Seq<char>>, Option<Seq<char>>) {
    match detail {
        Some(d) => (
            d.created_at.deep_view(),
            match d.issued_at.deep_view() {
                Some(t) => Some(t),
                None => d.imported_at.deep_view(),
            },
        ),
        None => (created_at, issued_at),
    }
}

/// The resource listed for a certificate, named by its domain (its ARN when it
/// has none); `detail` is what describing it reported, when that succeeded.
pub fn certificate_summary(
    arn: &str,
    domain_name: Option<String>,
    status: Option<String>,
    created_at: Option<String>,
    issued_at: Option<String>,
    certificate_type: Option<String>,
    key_algorithm: Option<String>,
    in_use: Option<bool>,
    renewal_eligibility: Option<String>,
    alternative_names: &Vec<String>,
    detail: Option<CertificateDetail>,
) -> (r: ResourceSummary)
    ensures
        r.wf(),
        shows(
            r@,
            "certificate/"@ + arn@,
            text_or(domain_name.deep_view(), arn@),
            "certificate"@,
            certificate_status(status.deep_view(), detail),
            certificate_times(created_at.deep_view(), issued_at.deep_view(), detail).0,
            certificate_times(created_at.deep_view(), issued_at.deep_view(), detail).1,
            certificate_attributes(
                arn@,
                certificate_type.deep_view(),
                key_algorithm.deep_view(),
                in_use,
                renewal_eligibility.deep_view(),
                alternative_names.deep_view(),
                detail,
            ),
        ),
{
    let ghost views = (certificate_type.deep_view(), key_algorithm.deep_view(), renewal_eligibility.deep_view());
    let mut attributes = no_attributes();
    put_text(&mut attributes, "certificate_arn", String::from_str(arn));
    put_text(&mut attributes, "private_key_material", String::from_str("not loaded"));
    put_attr(&mut attributes, "type", certificate_type);
    put_attr(&mut attributes, "key_algorithm", key_algorithm);
    put_attr(&mut attributes, "in_use", optional_flag_text(in_use));
    put_attr(&mut attributes, "renewal_eligibility", renewal_eligibility);
    let names = join_values(alternative_names);
    if names.unicode_len() > 0 {
        put_text(&mut attributes, "subject_alternative_names", names);
    }
    let listed_status = text_or_default(status, "unknown");
    let (status, created, updated) = match detail {
        Some(d) => {
            put_attr(&mut attributes, "subject", d.subject);
            put_attr(&mut attributes, "issuer", d.issuer);
            put_attr(&mut attributes, "serial", d.serial);
            put_attr(&mut attributes, "signature_algorithm", d.signature_algorithm);
            put_attr(&mut attributes, "not_before", d.not_before);
            put_attr(&mut attributes, "not_after", d.not_after);
            let updated = match d.issued_at {
                Some(t) => Some(t),
                None => d.imported_at,
            };
            (
                match d.status {
                    Some(s) => s,
                    None => listed_status,
                },
                d.created_at,
                updated,
            )
        },
        None => (listed_status, created_at, issued_at),
    };
    assert(texts_of(attributes@) == certificate_attributes(
        arn@,
        views.0,
        views.1,
        in_use,
        views.2,
        alternative_names.deep_view(),
        detail,
    ));
    summary(
        concat2("certificate/", arn),
        text_or_default(domain_name, arn),
        "certificate",
        status,
        created,
        updated,
        attributes,
    )
}

/// The DNS record that proves control of a domain: its name, type and value.
pub open spec fn record_attributes(m: Map<Seq<char>, Seq<char>>, record: Option<(String, String, String)>) -> Map<
    Seq<char>,
    Seq<char>,
> {
    match record {
        Some((name, kind, value)) => m.insert("record_name"@, name@).insert("record_type"@, kind@).insert(
            "record_value"@,
            value@,
        ),
        None => m,
    }
}

/// The resource listed for the validation of a domain of a certificate, in
/// its status (`unknown` when none).
pub fn validation_summary(
    arn: &str,
    domain: &str,
    status: Option<String>,
    validation_domain: Option<String>,
    validation_method: Option<String>,
    record: Option<(String, String, String)>,
) -> (r: ResourceSummary)
    ensures
        r.wf(),
        shows(
            r@,
            "validation/"@ + arn@ + "/"@ + domain@,
            domain@,
            "validation"@,
            text_or(status.deep_view(), "unknown"@),
            None,
            None,
            record_attributes(
                with_attr(
                    with_attr(
                        map!["certificate_arn"@ => arn@, "domain_name"@ => domain@],
                        "validation_domain"@,
                        validation_domain.deep_view(),
                    ),
                    "validation_method"@,
                    validation_method.deep_view(),
                ),
                record,
            ),
        ),
{
    let ghost views = (validation_domain.deep_view(), validation_method.deep_view());
    let mut attributes = no_attributes();
    put_text(&mut attributes, "certificate_arn", String::from_str(arn));
    put_text(&mut attributes, "domain_name", String::from_str(domain));
    put_attr(&mut attributes, "validation_domain", validation_domain);
    put_attr(&mut attributes, "validation_method", validation_method);
    let ghost before = texts_of(attributes@);
    match record {
        Some((name, kind, value)) => {
            put_text(&mut attributes, "record_name", name);
            put_text(&mut attributes, "record_type", kind);
            put_text(&mut attributes, "record_value", value);
        },
        None => {},
    }
    assert(before =~= with_attr(
        with_attr(map!["certificate_arn"@ => arn@, "domain_name"@ => domain@], "validation_domain"@, views.0),
        "validation_method"@,
        views.1,
    ));
    summary(
        concat4("validation/", arn, "/", domain),
        String::from_str(domain),
        "validation",
        text_or_default(status, "unknown"),
        None,
        None,
        attributes,
    )
}

/// The resource listed for the domain a certificate covers (its ARN when it
/// names none).
pub fn domain_summary(arn: &str, domain_name: Option<String>) -> (r: ResourceSummary)
    ensures
        r.wf(),
        shows(
            r@,
            "domain/"@ + arn@ + "/"@ + text_or(domain_name.deep_view(), arn@),
            text_or(domain_name.deep_view(), arn@),
            "domain"@,
            "covered"@,
            None,
            None,
            map!["certificate_arn"@ => arn@],
        ),
{
    let domain = text_or_default(domain_name, arn);
    let mut id = concat3("domain/", arn, "/");
    id.append(domain.as_str());
    let mut attributes = no_attributes();
    put_text(&mut attributes, "certificate_arn", String::from_str(arn));
    assert(texts_of(attributes@) =~= map!["certificate_arn"@ => arn@]);
    summary(id, domain, "domain", String::from_str("covered"), None, None, attributes)
}

/// The operations the ACM page lists as unavailable.
pub open spec fn unsupported_operations() -> Seq<Seq<char>> {
    seq!["import_certificate"@, "delete_certificate"@, "export_certificate"@]
}

/// The name under which the service's inventory page is shown.
pub open spec fn label() -> Seq<char> {
    "ACM"@
}

/// How far this adapter supports the service: it manages its resources.
pub open spec fn support_level() -> ServiceSupportLevel {
    ServiceSupportLevel::Managed
}

/// The ACM inventory page: the listed `resources` under the ACM tabs, refreshed
/// at `refreshed_at`.
pub fn inventory(
    resources: Vec<ResourceSummary>,
    refreshed_at: String,
) -> (inv: ServiceInventory)
    ensures
        inv@ == (InventoryView {
            service_key: "acm"@,
            service_label: label(),
            support_level: support_level(),
            refreshed_at: refreshed_at@,
            tabs: inventory_tabs(),
            resources: summary_views(resources@),
            unsupported_operations: unsupported_operations(),
        }),
{
    let mut ops: Vec<String> = Vec::new();
    ops.push(String::from_str("import_certificate"));
    ops.push(String::from_str("delete_certificate"));
    ops.push(String::from_str("export_certificate"));
    proof {
        assert(ops.deep_view() =~= unsupported_operations());
    }
    build_inventory(
        "acm",
        "ACM",
        ServiceSupportLevel::Managed,
        refreshed_at,
        tabs(),
        resources,
        ops,
    )
}

} // verus!
