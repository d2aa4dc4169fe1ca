use floci_ui::app_update::{
    available_snapshot, format_update_date, unavailable_snapshot, AppUpdateError,
    AppUpdateInstallResult, UpdateDate, PACKAGE_VERSION,
};

#[test]
fn unavailable_snapshot_uses_current_package_version() {
    let snapshot = unavailable_snapshot();

    assert!(!snapshot.available);
    assert_eq!(snapshot.current_version, PACKAGE_VERSION);
    assert_eq!(snapshot.version, None);
    assert_eq!(snapshot.date, None);
    assert_eq!(snapshot.body, None);
}

#[test]
fn available_snapshot_formats_release_metadata() {
    let date = UpdateDate {
        unix_timestamp: 1_800_000_000,
        nanosecond: 0,
        offset_seconds: 0,
    };
    let snapshot = available_snapshot(
        "0.1.0".to_owned(),
        "0.2.0".to_owned(),
        Some(date),
        Some("Release notes".to_owned()),
    )
    .expect("snapshot should format");

    assert!(snapshot.available);
    assert_eq!(snapshot.current_version, "0.1.0");
    assert_eq!(snapshot.version.as_deref(), Some("0.2.0"));
    assert_eq!(snapshot.date.as_deref(), Some("2027-01-15T08:00:00Z"));
    assert_eq!(snapshot.body.as_deref(), Some("Release notes"));
}

#[test]
fn update_dates_keep_their_offset() {
    let date = UpdateDate {
        unix_timestamp: 1_800_000_000,
        nanosecond: 0,
        offset_seconds: 3600,
    };
    assert_eq!(
        format_update_date(Some(date)).expect("date formats").as_deref(),
        Some("2027-01-15T09:00:00+01:00")
    );
    assert_eq!(format_update_date(None).expect("no date"), None);
}

#[test]
fn unformattable_update_date_is_reported() {
    let date = UpdateDate {
        unix_timestamp: i64::MAX,
        nanosecond: 0,
        offset_seconds: 0,
    };
    let error = format_update_date(Some(date)).expect_err("date is out of range");
    assert_eq!(error.code, "invalid_update_date");
}

#[test]
fn no_pending_update_error_carries_message() {
    let error = AppUpdateError::no_pending_update();
    assert_eq!(error.code, "no_pending_update");
    assert_eq!(
        error.to_display_string(),
        "No pending update is available. Check for updates before installing."
    );
}

#[test]
fn install_result_has_stable_success_payload() {
    let result = AppUpdateInstallResult::installed();

    assert!(result.installed);
    assert_eq!(result.message, "Update installed. Floci UI is restarting.");
}
