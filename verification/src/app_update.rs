//! What the desktop shell reports about available updates of itself.
use vstd::prelude::*;
use vstd::string::*;

verus! {

/// The version of this package, which an update is compared against.
pub const PACKAGE_VERSION: &'static str = "0.1.0";

/// What an update check found.
#[derive(Debug, Clone)]
pub struct AppUpdateSnapshot {
    pub available: bool,
    pub current_version: String,
    pub version: Option<String>,
    pub date: Option<String>,
    pub body: Option<String>,
}

pub struct SnapshotView {
    pub available: bool,
    pub current_version: Seq<char>,
    pub version: Option<Seq<char>>,
    pub date: Option<Seq<char>>,
    pub body: Option<Seq<char>>,
}

impl View for AppUpdateSnapshot {
    type V = SnapshotView;

    open spec fn view(&self) -> SnapshotView {
        SnapshotView {
            available: self.available,
            current_version: self.current_version@,
            version: self.version.deep_view(),
            date: self.date.deep_view(),
            body: self.body.deep_view(),
        }
    }
}

/// The outcome of installing an update.
#[derive(Debug, Clone)]
pub struct AppUpdateInstallResult {
    pub installed: bool,
    pub message: String,
}

/// Why an update could not be checked or installed.
#[derive(Debug, Clone)]
pub struct AppUpdateError {
    pub code: String,
    pub message: String,
}

impl AppUpdateInstallResult {
    /// The result of an installed update; the application restarts next.
    pub fn installed() -> (r: Self)
        ensures
            r.installed,
            r.message@ == "Update installed. Floci UI is restarting."@,
    {
        AppUpdateInstallResult {
            installed: true,
            message: String::from_str("Update installed. Floci UI is restarting."),
        }
    }
}

impl AppUpdateError {
    /// An error with the given code and message.
    pub fn new(code: &str, message: &str) -> (e: Self)
        ensures
            e.code@ == code@,
            e.message@ == message@,
    {
        AppUpdateError { code: String::from_str(code), message: String::from_str(message) }
    }

    /// Installing was asked for before any update was found.
    pub fn no_pending_update() -> (e: Self)
        ensures
            e.code@ == "no_pending_update"@,
            e.message@ == "No pending update is available. Check for updates before installing."@,
    {
        Self::new(
            "no_pending_update",
            "No pending update is available. Check for updates before installing.",
        )
    }

    /// The updater failed; `error_text` is its description.
    pub fn updater_failed(error_text: &str) -> (e: Self)
        ensures
            e.code@ == "updater_failed"@,
            e.message@ == error_text@,
    {
        Self::new("updater_failed", error_text)
    }

    /// The error as the desktop shell shows it: its message.
    pub fn to_display_string(&self) -> (s: String)
        ensures
            s@ == self.message@,
    {
        self.message.clone()
    }
}

/// The snapshot when no update is available.
pub fn unavailable_snapshot() -> (s: AppUpdateSnapshot)
    ensures
        s@ == (SnapshotView {
            available: false,
            current_version: PACKAGE_VERSION@,
            version: None,
            date: None,
            body: None,
        }),
{
    AppUpdateSnapshot {
        available: false,
        current_version: String::from_str(PACKAGE_VERSION),
        version: None,
        date: None,
        body: None,
    }
}

/// A release date: seconds since the Unix epoch, the nanosecond within the
/// second, and the offset from UTC in seconds it was published with.
#[derive(Debug, Clone, Copy)]
pub struct UpdateDate {
    pub unix_timestamp: i64,
    pub nanosecond: u32,
    pub offset_seconds: i32,
}

/// The RFC 3339 text that the `time` crate writes for a date, or `None` when
/// the parts do not make a date or the date cannot be written.
pub uninterp spec fn rfc3339_text(unix_timestamp: i64, nanosecond: u32, offset_seconds: i32) -> Option<
    Seq<char>,
>;

/// Builds the date with `UtcOffset::from_whole_seconds`,
/// `OffsetDateTime::from_unix_timestamp`, `replace_nanosecond` and
/// `checked_to_offset`, and writes it with `format(&Rfc3339)`. The text is
/// named by `rfc3339_text`; the rules of RFC 3339 are left to the `time` crate.
#[verifier::external_body]
fn format_rfc3339(unix_timestamp: i64, nanosecond: u32, offset_seconds: i32) -> (r: Option<String>)
    ensures
        r.deep_view() == rfc3339_text(unix_timestamp, nanosecond, offset_seconds),
{
    let offset = time::UtcOffset::from_whole_seconds(offset_seconds).ok()?;
    time::OffsetDateTime::from_unix_timestamp(unix_timestamp).ok()?.replace_nanosecond(nanosecond).ok()?.checked_to_offset(
        offset,
    )?.format(&time::format_description::well_known::Rfc3339).ok()
}

/// The outcome of writing an optional release date.
pub open spec fn update_date_text(date: Option<UpdateDate>) -> Result<Option<Seq<char>>, (Seq<char>, Seq<char>)> {
    match date {
        None => Ok(None),
        Some(d) => match rfc3339_text(d.unix_timestamp, d.nanosecond, d.offset_seconds) {
            Some(t) => Ok(Some(t)),
            None => Err(
                (
                    "invalid_update_date"@,
                    "Update metadata included a date that could not be formatted."@,
                ),
            ),
        },
    }
}

/// Writes an optional release date in RFC 3339 form.
pub fn format_update_date(date: Option<UpdateDate>) -> (r: Result<Option<String>, AppUpdateError>)
    ensures
        (match r {
            Ok(t) => Ok(t.deep_view()),
            Err(e) => Err((e.code@, e.message@)),
        }) == update_date_text(date),
{
    match date {
        None => Ok(None),
        Some(d) => match format_rfc3339(d.unix_timestamp, d.nanosecond, d.offset_seconds) {
            Some(t) => Ok(Some(t)),
            None => Err(
                AppUpdateError::new(
                    "invalid_update_date",
                    "Update metadata included a date that could not be formatted.",
                ),
            ),
        },
    }
}

/// The snapshot of an available update.
pub fn available_snapshot(
    current_version: String,
    version: String,
    date: Option<UpdateDate>,
    body: Option<String>,
) -> (r: Result<AppUpdateSnapshot, AppUpdateError>)
    ensures
        (match r {
            Ok(s) => Ok(s@),
            Err(e) => Err((e.code@, e.message@)),
        }) == (match update_date_text(date) {
            Ok(d) => Ok(
                SnapshotView {
                    available: true,
                    current_version: current_version@,
                    version: Some(version@),
                    date: d,
                    body: body.deep_view(),
                },
            ),
            Err(e) => Err(e),
        }),
{
    let date = format_update_date(date)?;
    Ok(
        AppUpdateSnapshot {
            available: true,
            current_version,
            version: Some(version),
            date,
            body,
        },
    )
}

} // verus!
