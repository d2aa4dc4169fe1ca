//! What the desktop shell's commands compute before they answer.
use vstd::prelude::*;
use vstd::string::*;

use crate::config::AppConfig;
use crate::models::{descriptor_views, DashboardSnapshot, SnapshotView};
use crate::service_management::registry::registry;

verus! {

/// An error a command answers with.
#[derive(Debug, Clone)]
pub struct CommandError {
    pub code: String,
    pub message: String,
}

impl CommandError {
    /// An error with the given code and message.
    pub fn new(code: &str, message: &str) -> (e: Self)
        ensures
            e.code@ == code@,
            e.message@ == message@,
    {
        CommandError { code: String::from_str(code), message: String::from_str(message) }
    }
}

/// What the dashboard shows for `config` at `refreshed_at`: the snapshot, or
/// the code and message of the error when the endpoint URL is empty. The secret
/// access key only decides whether the credentials read as configured.
pub open spec fn catalog_outcome(config: AppConfig, refreshed_at: Seq<char>) -> Result<
    SnapshotView,
    (Seq<char>, Seq<char>),
> {
    if config.endpoint_url@.len() == 0 {
        Err(("invalid_endpoint"@, "Floci endpoint URL cannot be empty."@))
    } else {
        Ok(
            SnapshotView {
                endpoint_url: config.endpoint_url@,
                region: config.region@,
                access_key_id: config.access_key_id@,
                credentials_status: if config.access_key_id@.len() == 0
                    || config.secret_access_key@.len() == 0 {
                    "Missing"@
                } else {
                    "Configured"@
                },
                last_refreshed_at: refreshed_at,
                services: registry(),
            },
        )
    }
}

/// The view of a command's answer.
pub open spec fn snapshot_outcome(r: Result<DashboardSnapshot, CommandError>) -> Result<
    SnapshotView,
    (Seq<char>, Seq<char>),
> {
    match r {
        Ok(s) => Ok(s@),
        Err(e) => Err((e.code@, e.message@)),
    }
}

/// The dashboard snapshot for `config`, refreshed at `refreshed_at`; refused
/// when the endpoint URL is empty.
pub fn catalog_snapshot(config: &AppConfig, refreshed_at: String) -> (r: Result<
    DashboardSnapshot,
    CommandError,
>)
    ensures
        config.endpoint_url@.len() == 0 <==> r is Err,
        r matches Err(e) ==> e.code@ == "invalid_endpoint"@ && e.message@
            == "Floci endpoint URL cannot be empty."@,
        r matches Ok(s) ==> {
            &&& s.endpoint_url@ == config.endpoint_url@
            &&& s.region@ == config.region@
            &&& s.access_key_id@ == config.access_key_id@
            &&& s.credentials_status@ == (if config.access_key_id@.len() == 0
                || config.secret_access_key@.len() == 0 {
                "Missing"@
            } else {
                "Configured"@
            })
            &&& s.last_refreshed_at@ == refreshed_at@
            &&& descriptor_views(s.services@) == registry()
        },
        snapshot_outcome(r) == catalog_outcome(*config, refreshed_at@),
{
    if config.endpoint_url.as_str().unicode_len() == 0 {
        return Err(CommandError::new("invalid_endpoint", "Floci endpoint URL cannot be empty."));
    }
    Ok(
        DashboardSnapshot {
            endpoint_url: config.endpoint_url.clone(),
            region: config.region.clone(),
            access_key_id: config.access_key_id.clone(),
            credentials_status: String::from_str(config.credentials_status()),
            last_refreshed_at: refreshed_at,
            services: crate::services::services(),
        },
    )
}

/// The secret access key never reaches the dashboard: two configurations that
/// differ only in their secret access keys, both non-empty, get the same answer
/// at the same refresh time, a snapshot whenever the endpoint URL is set.
pub proof fn lemma_snapshot_ignores_secret(a: AppConfig, b: AppConfig, refreshed_at: Seq<char>)
    requires
        a.endpoint_url@ == b.endpoint_url@,
        a.region@ == b.region@,
        a.access_key_id@ == b.access_key_id@,
        a.secret_access_key@.len() > 0,
        b.secret_access_key@.len() > 0,
    ensures
        catalog_outcome(a, refreshed_at) == catalog_outcome(b, refreshed_at),
        a.endpoint_url@.len() > 0 ==> catalog_outcome(a, refreshed_at) is Ok,
{
}

} // verus!
