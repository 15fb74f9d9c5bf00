use x360ce::updater::{
    check_downloaded_executable, check_for_update, check_latest_prerelease, check_latest_stable,
    ensure_updates_enabled, install_source, is_windows_asset_name, parse_release_version,
    release_check_refused, release_feed_url, release_request_url, replacer_script, select_prerelease, update_check_from_release,
    update_installable, update_status, GitHubAsset, GitHubRelease, ReleaseFeed, UpdateCheck,
    UpdateError, LATEST_RELEASE_API, RELEASES_API,
};

fn asset(name: &str) -> GitHubAsset {
    GitHubAsset {
        name: name.to_string(),
        browser_download_url: format!("https://example.invalid/{name}"),
    }
}

fn release(tag: &str, draft: bool, prerelease: bool, assets: Vec<GitHubAsset>) -> GitHubRelease {
    GitHubRelease {
        tag_name: tag.to_string(),
        draft,
        prerelease,
        assets,
    }
}

#[test]
fn development_builds_do_not_update() {
    assert!(matches!(
        ensure_updates_enabled(true),
        Err(UpdateError::UpdatesDisabled)
    ));
    assert!(ensure_updates_enabled(false).is_ok());
}

#[test]
fn release_tags_lose_leading_v() {
    assert!(parse_release_version("v1.2.3").is_some());
    assert!(parse_release_version("vv1.2.3").is_some());
    assert!(parse_release_version("1.2.3").is_some());
    assert!(parse_release_version("V1.2.3").is_none());
    assert!(parse_release_version("v1.2").is_none());
    assert!(parse_release_version("").is_none());
}

#[test]
fn windows_asset_names() {
    assert!(is_windows_asset_name("x360ce.exe"));
    assert!(is_windows_asset_name("X360CE.EXE"));
    assert!(is_windows_asset_name("x360ce-windows-x64.exe"));
    assert!(is_windows_asset_name("x360ce-1.3.0-Windows-x64.exe"));
    assert!(!is_windows_asset_name("x360ce-linux-x64"));
    assert!(!is_windows_asset_name("setup.exe"));
    assert!(!is_windows_asset_name("x360ce-windows-x64.exe.sha256"));
}

#[test]
fn newer_stable_release_is_offered() {
    let r = release(
        "v1.3.0",
        false,
        false,
        vec![asset("notes.txt"), asset("x360ce-windows-x64.exe"), asset("x360ce.exe")],
    );
    let check = check_latest_stable(false, r, "1.2.0").unwrap();
    assert_eq!(check.current_version, "1.2.0");
    assert_eq!(check.latest_version, "1.3.0");
    assert!(check.is_update_available);
    assert!(!check.prerelease);
    assert_eq!(check.asset_name.as_deref(), Some("x360ce-windows-x64.exe"));
    assert_eq!(
        check.asset_download_url.as_deref(),
        Some("https://example.invalid/x360ce-windows-x64.exe")
    );
    assert!(update_installable(&check));
    assert_eq!(
        update_status(&check),
        "Update available: v1.3.0 (stable, x360ce-windows-x64.exe)."
    );
}

#[test]
fn same_version_is_not_an_update() {
    let r = release("v1.2.0", false, false, vec![]);
    let check = update_check_from_release(&r, "1.2.0").unwrap();
    assert!(!check.is_update_available);
    assert_eq!(check.asset_name, None);
    assert!(!update_installable(&check));
    assert_eq!(
        update_status(&check),
        "Current version is latest: v1.2.0 (stable)."
    );
    let older = release("v1.1.9", false, false, vec![]);
    assert!(!update_check_from_release(&older, "1.2.0").unwrap().is_update_available);
}

#[test]
fn version_texts_are_canonical() {
    let r = release("v1.3.0-beta.2+build.5", false, true, vec![]);
    let check = update_check_from_release(&r, "1.3.0-beta.1").unwrap();
    assert_eq!(check.latest_version, "1.3.0-beta.2+build.5");
    assert!(check.is_update_available);
    assert_eq!(
        update_status(&check),
        "Update available: v1.3.0-beta.2+build.5 (prerelease), but no Windows asset was found."
    );
    let stable_over_pre = release("v1.3.0", false, false, vec![]);
    assert!(update_check_from_release(&stable_over_pre, "1.3.0-rc.1")
        .unwrap()
        .is_update_available);
}

#[test]
fn invalid_versions_are_errors() {
    let r = release("nightly", false, false, vec![]);
    match update_check_from_release(&r, "1.0.0") {
        Err(UpdateError::InvalidReleaseVersion(tag)) => assert_eq!(tag, "nightly"),
        other => panic!("unexpected {other:?}"),
    }
    let good = release("v2.0.0", false, false, vec![]);
    assert!(matches!(
        update_check_from_release(&good, "not-a-version"),
        Err(UpdateError::InvalidCurrentVersion)
    ));
}

#[test]
fn newest_prerelease_is_chosen() {
    let releases = vec![
        release("v1.4.0-beta.1", false, true, vec![asset("x360ce.exe")]),
        release("v9.0.0-beta.1", true, true, vec![]),
        release("v1.5.0", false, false, vec![]),
        release("v1.4.0-beta.10", false, true, vec![]),
        release("garbage", false, true, vec![]),
        release("v1.4.0-beta.2", false, true, vec![]),
    ];
    assert_eq!(select_prerelease(&releases), Some(3));
    let check = check_latest_prerelease(false, releases.clone(), "1.3.0").unwrap();
    assert_eq!(check.latest_version, "1.4.0-beta.10");
    assert!(check.prerelease);
    let feed = check_for_update(false, ReleaseFeed::All(releases), "1.3.0").unwrap();
    assert_eq!(feed.latest_version, "1.4.0-beta.10");
}

#[test]
fn equal_prereleases_keep_the_first_listed() {
    let releases = vec![
        release("v2.0.0-rc.1", false, true, vec![asset("x360ce.exe")]),
        release("2.0.0-rc.1", false, true, vec![]),
    ];
    assert_eq!(select_prerelease(&releases), Some(0));
}

#[test]
fn no_prerelease_is_an_error() {
    let releases = vec![release("v1.0.0", false, false, vec![])];
    assert!(matches!(
        check_latest_prerelease(false, releases, "1.0.0"),
        Err(UpdateError::NoPrerelease)
    ));
    assert_eq!(select_prerelease(&Vec::new()), None);
}

#[test]
fn feed_follows_the_prerelease_setting() {
    assert_eq!(release_feed_url(true), RELEASES_API);
    assert_eq!(release_feed_url(false), LATEST_RELEASE_API);
    let stable = check_for_update(
        false,
        ReleaseFeed::Latest(release("v0.9.0", false, false, vec![])),
        "1.0.0",
    )
    .unwrap();
    assert!(!stable.is_update_available);
}

#[test]
fn install_needs_an_executable() {
    let check = UpdateCheck {
        current_version: "1.0.0".to_string(),
        latest_version: "1.1.0".to_string(),
        asset_name: None,
        asset_download_url: None,
        is_update_available: true,
        prerelease: false,
    };
    assert!(matches!(install_source(&check), Err(UpdateError::NoWindowsAsset)));
    let with_url = UpdateCheck {
        asset_download_url: Some("u".to_string()),
        ..check
    };
    assert_eq!(install_source(&with_url).unwrap(), "u");
    assert!(check_downloaded_executable(b"MZ\x90\x00").is_ok());
    assert!(matches!(
        check_downloaded_executable(b"M"),
        Err(UpdateError::NotAnExecutable)
    ));
    assert!(check_downloaded_executable(b"PK\x03\x04").is_err());
}

#[test]
fn replacer_script_quotes_paths() {
    let script = replacer_script("C:\\it's\\new.exe", "C:\\app\\x360ce.exe");
    assert!(script.starts_with(
        "$ErrorActionPreference = 'SilentlyContinue'\r\n$newExe = 'C:\\it''s\\new.exe'\r\n$currentExe = 'C:\\app\\x360ce.exe'\r\nfor ($i = 0; $i -lt 40; $i++) {\r\ntry {\r\n"
    ));
    assert!(script.ends_with("}\r\n}\r\nexit 1\r\n"));
}

#[test]
fn development_builds_never_check() {
    assert!(matches!(
        release_request_url(true, true),
        Err(UpdateError::UpdatesDisabled)
    ));
    assert!(matches!(
        release_request_url(true, false),
        Err(UpdateError::UpdatesDisabled)
    ));
    assert_eq!(release_request_url(false, true).unwrap(), RELEASES_API);
    assert_eq!(release_request_url(false, false).unwrap(), LATEST_RELEASE_API);
    let newer = || release("v9.0.0", false, false, vec![asset("x360ce.exe")]);
    for feed in [
        ReleaseFeed::Latest(newer()),
        ReleaseFeed::All(vec![release("v9.0.0-beta.1", false, true, vec![])]),
    ] {
        assert!(matches!(
            check_for_update(true, feed, "1.0.0"),
            Err(UpdateError::UpdatesDisabled)
        ));
    }
    assert!(matches!(
        check_latest_stable(true, newer(), "1.0.0"),
        Err(UpdateError::UpdatesDisabled)
    ));
    assert!(matches!(
        check_latest_prerelease(true, vec![], "1.0.0"),
        Err(UpdateError::UpdatesDisabled)
    ));
    assert!(check_for_update(false, ReleaseFeed::Latest(newer()), "1.0.0")
        .unwrap()
        .is_update_available);
}

#[test]
fn refused_release_checks() {
    assert!(release_check_refused(403));
    assert!(release_check_refused(429));
    for status in [200, 304, 401, 404, 428, 430, 500] {
        assert!(!release_check_refused(status));
    }
}
