use rustynotes::update::{
    background_decision, current_version, evaluate_release, restart_on_change, strip_leading_v,
    ChangeDebounce, Release, ReleaseAsset, StatusEvent, UpdateBanner, UpdateError, UpdateInfo,
    UpdatePanel, UpdatePhase, UpdateState, UpdateStatus, DEBOUNCE_MS,
};

#[test]
fn test_update_error_display_network() {
    let err = UpdateError::NetworkError("connection refused".into());
    assert_eq!(err.message(), "Couldn\u{2019}t reach GitHub \u{2014} check your connection");
}

#[test]
fn test_update_error_display_verification_failed() {
    let err = UpdateError::VerificationFailed { expected: "0.4.0".into(), found: "0.3.1".into() };
    assert_eq!(
        err.message(),
        "Update installed but version doesn\u{2019}t match \u{2014} try updating manually"
    );
}

#[test]
fn test_update_error_display_all_variants() {
    let variants: Vec<UpdateError> = vec![
        UpdateError::NetworkError("test".into()),
        UpdateError::ApiError("test".into()),
        UpdateError::ParseError("test".into()),
        UpdateError::AssetNotFound,
        UpdateError::VersionParseError("test".into()),
        UpdateError::DownloadFailed("test".into()),
        UpdateError::DmgMountFailed("test".into()),
        UpdateError::AppNotFoundInDmg,
        UpdateError::CopyFailed("test".into()),
        UpdateError::VerificationFailed { expected: "1.0".into(), found: "0.9".into() },
    ];
    for v in variants {
        assert!(!v.message().is_empty(), "Empty display for {v:?}");
    }
}

#[test]
fn test_current_version_is_valid_semver() {
    let v = semver::Version::parse(current_version());
    assert!(v.is_ok(), "version is not valid semver: {}", current_version());
}

#[test]
fn error_messages_of_each_kind() {
    assert_eq!(UpdateError::ApiError("x".into()).message(), "GitHub API error \u{2014} try again later");
    assert_eq!(UpdateError::ParseError("x".into()).message(), "Unexpected response from GitHub");
    assert_eq!(UpdateError::AssetNotFound.message(), "No macOS update found in this release");
    assert_eq!(UpdateError::AppNotFoundInDmg.message(), "Update file is damaged or incomplete");
}

fn asset(name: Option<&str>, url: Option<&str>) -> ReleaseAsset {
    ReleaseAsset { name: name.map(String::from), browser_download_url: url.map(String::from) }
}

fn release(tag: Option<&str>, assets: Option<Vec<ReleaseAsset>>) -> Release {
    Release { tag_name: tag.map(String::from), assets }
}

#[test]
fn newer_release_with_disk_image_is_offered() {
    let r = release(
        Some("v1.0.0"),
        Some(vec![
            asset(Some("RustyNotes-1.0.0.zip"), Some("https://x/zip")),
            asset(None, Some("https://x/none")),
            asset(Some("RustyNotes-1.0.0-macos-universal.dmg"), Some("https://x/dmg")),
            asset(Some("other-macos-universal.dmg"), Some("https://x/second")),
        ]),
    );
    assert_eq!(
        evaluate_release(&r, "0.4.0"),
        Ok(Some(UpdateInfo { version: "1.0.0".into(), download_url: "https://x/dmg".into() }))
    );
}

#[test]
fn release_not_newer_is_no_update() {
    assert_eq!(evaluate_release(&release(Some("v0.4.0"), None), "0.4.0"), Ok(None));
    assert_eq!(evaluate_release(&release(Some("0.3.9"), None), "0.4.0"), Ok(None));
    assert_eq!(evaluate_release(&release(Some("vv0.4.0-rc.1"), None), "0.4.0"), Ok(None));
}

#[test]
fn release_data_errors() {
    assert_eq!(
        evaluate_release(&release(None, None), "0.4.0"),
        Err(UpdateError::ParseError("missing tag_name".into()))
    );
    assert_eq!(
        evaluate_release(&release(Some("v0.5.0"), None), "0.4.0"),
        Err(UpdateError::ParseError("missing assets array".into()))
    );
    assert_eq!(
        evaluate_release(&release(Some("v0.5.0"), Some(vec![asset(Some("a.zip"), None)])), "0.4.0"),
        Err(UpdateError::AssetNotFound)
    );
    assert_eq!(
        evaluate_release(
            &release(Some("v0.5.0"), Some(vec![asset(Some("a-macos-universal.dmg"), None)])),
            "0.4.0"
        ),
        Err(UpdateError::ParseError("missing download URL".into()))
    );
    assert!(matches!(
        evaluate_release(&release(Some("banana"), None), "0.4.0"),
        Err(UpdateError::VersionParseError(_))
    ));
    assert!(matches!(
        evaluate_release(&release(Some("v1.0.0"), None), "not-a-version"),
        Err(UpdateError::VersionParseError(_))
    ));
}

#[test]
fn leading_v_removal() {
    assert_eq!(strip_leading_v("vv1.2.3"), "1.2.3");
    assert_eq!(strip_leading_v("1.2.3v"), "1.2.3v");
    assert_eq!(strip_leading_v(""), "");
}

#[test]
fn check_cycle_updates_state() {
    let mut s = UpdateState::new();
    assert_eq!(s.current_status(), UpdateStatus::Idle);
    assert_eq!(s.begin_check(), StatusEvent { status: UpdateStatus::Checking });
    let info = UpdateInfo { version: "1.0.0".into(), download_url: "u".into() };
    let (found, ev) = s.finish_check(Ok(Some(info.clone())));
    assert_eq!(found, Some(info.clone()));
    assert_eq!(ev.status, UpdateStatus::Available { version: "1.0.0".into() });
    assert_eq!(s.pending_install(), Ok(info));
    assert_eq!(s.dismiss(), Some("1.0.0".to_string()));
    assert_eq!(s.current_status(), UpdateStatus::Idle);
    assert_eq!(s.pending_install(), Err("No update available".to_string()));
    let (found, ev) = s.finish_check(Err(UpdateError::AssetNotFound));
    assert_eq!(found, None);
    assert_eq!(ev.status, UpdateStatus::Error("No macOS update found in this release".into()));
    let (found, ev) = s.finish_check(Ok(None));
    assert_eq!((found, ev.status), (None, UpdateStatus::Idle));
}

#[test]
fn install_cycle_updates_state() {
    let mut s = UpdateState::new();
    assert_eq!(s.begin_install().status, UpdateStatus::Downloading);
    assert!(s.update_in_progress);
    assert_eq!(s.current_status(), UpdateStatus::Idle);
    assert!(!restart_on_change(&s));
    assert_eq!(s.finish_install(Err("disk full".into())).status, UpdateStatus::Error("disk full".into()));
    assert!(!s.update_in_progress);
    assert!(restart_on_change(&s));
    s.begin_install();
    assert_eq!(s.finish_install(Ok(())).status, UpdateStatus::Ready);
    assert!(s.update_in_progress);
}

#[test]
fn background_check_decisions() {
    let d = background_decision("1.0.0", &Some("1.0.0".to_string()), true);
    assert!(!d.install && !d.clear_dismissed);
    let d = background_decision("1.1.0", &Some("1.0.0".to_string()), true);
    assert!(d.install && d.clear_dismissed);
    let d = background_decision("1.1.0", &None, false);
    assert!(!d.install && !d.clear_dismissed);
}

#[test]
fn debounce_waits_for_quiet() {
    let mut d = ChangeDebounce::new();
    assert!(!d.poll(false, 0));
    assert!(!d.poll(true, 1000));
    assert!(!d.poll(false, 1000 + DEBOUNCE_MS - 1));
    assert!(!d.poll(true, 1400));
    assert!(!d.poll(false, 1899));
    assert!(d.poll(false, 1900));
    assert!(!d.poll(false, 5000));
}

#[test]
fn banner_follows_status_events() {
    let mut b = UpdateBanner::new();
    assert!(!b.visible());
    assert_eq!(b.text(), None);
    b.on_status(&UpdateStatus::Checking);
    assert!(!b.visible());
    b.on_status(&UpdateStatus::Available { version: "2.0.0".into() });
    assert!(b.visible());
    assert_eq!(b.text(), Some("v2.0.0 available".to_string()));
    b.on_status(&UpdateStatus::Downloading);
    assert_eq!(b.text(), Some("Downloading...".to_string()));
    b.on_status(&UpdateStatus::Ready);
    assert_eq!(b.text(), Some("Update ready".to_string()));
    b.on_status(&UpdateStatus::Error("x".into()));
    assert_eq!(b.text(), Some("Update failed".to_string()));
    b.dismiss();
    assert_eq!((b.phase, b.version.clone()), (UpdatePhase::Idle, None));
}

#[test]
fn settings_panel_reports_checks() {
    let mut p = UpdatePanel::new();
    p.begin_check();
    assert_eq!(p.check_result.as_deref(), Some("Checking..."));
    p.finish_check(Ok(Some("1.2.0".into())));
    assert_eq!(p.check_result.as_deref(), Some("v1.2.0 available!"));
    assert!(p.shows_update_button());
    p.request_install(None);
    assert_eq!(p.available_version, None);
    p.on_status(&UpdateStatus::Downloading);
    assert_eq!(p.check_result.as_deref(), Some("Downloading..."));
    p.on_status(&UpdateStatus::Ready);
    assert!(p.shows_restart_button());
    assert_eq!(p.check_result.as_deref(), Some("Update ready \u{2014} restart to apply."));
    p.on_status(&UpdateStatus::Error("boom".into()));
    assert_eq!(p.check_result.as_deref(), Some("Error: boom"));
    p.finish_check(Ok(None));
    assert_eq!(p.check_result.as_deref(), Some("You're up to date."));
    p.finish_check(Err("offline".into()));
    assert_eq!(p.check_result.as_deref(), Some("Error: offline"));
}
