//! Versions, the release document, and the update flow.

use openlogi::config::AppSettings;
use openlogi::updater::{
    conclude_cli_update, fetch_latest, install, install_error, latest_release_url, new_entity,
    parse_version, pick_release, relaunch_command, run_cli_update, version_at_most, CliUpdate,
    Fetched, InstallStep, Release, ReleaseAsset, ReleaseDocument, UpdateStatus, REPO,
};

fn body(json: &str) -> Fetched {
    Fetched::Body(json.as_bytes().to_vec())
}

const RELEASE: &str = r#"{
    "tag_name": "v1.3.0",
    "draft": false,
    "assets": [
        {"name": "notes.txt", "browser_download_url": "https://x/notes.txt", "size": 10},
        {"name": null},
        {"name": "OpenLogi.exe", "browser_download_url": "https://x/OpenLogi.exe"},
        {"name": "Other.exe", "browser_download_url": "https://x/Other.exe"}
    ]
}"#;

#[test]
fn versions_parse() {
    assert_eq!(parse_version("1.2.3"), (1, 2, 3));
    assert_eq!(parse_version("v1.2.3"), (1, 2, 3));
    assert_eq!(parse_version("vv1.2"), (1, 2, 0));
    assert_eq!(parse_version("7"), (7, 0, 0));
    assert_eq!(parse_version(""), (0, 0, 0));
    assert_eq!(parse_version("1.2.3.4"), (1, 2, 3));
    assert_eq!(parse_version("1.x.3"), (1, 3, 0));
    assert_eq!(parse_version("18446744073709551615.0.18446744073709551616"), (u64::MAX, 0, 0));
}

#[test]
fn suffixes_are_ignored() {
    assert_eq!(parse_version("1.2.3-rc.1"), (1, 2, 3));
    assert_eq!(parse_version("1.2.3+build.7"), (1, 2, 3));
    assert_eq!(parse_version("v1.2-4"), (1, 2, 0));
    assert_eq!(parse_version("v1.2-4"), parse_version("v1.2"));
    assert_eq!(parse_version("-5"), (0, 0, 0));
}

#[test]
fn leading_v_is_ignored() {
    assert_eq!(parse_version("v10.20.30"), parse_version("10.20.30"));
}

#[test]
fn version_round_trip() {
    for (x, y, z) in [(0, 0, 0), (1, 20, 300), (u64::MAX, 0, u64::MAX)] {
        assert_eq!(parse_version(&format!("{x}.{y}.{z}")), (x, y, z));
    }
}

#[test]
fn versions_compare_part_by_part() {
    let versions = [(0, 9, 9), (1, 0, 0), (1, 0, 1), (1, 2, 0), (2, 0, 0)];
    for (i, a) in versions.iter().enumerate() {
        for (j, b) in versions.iter().enumerate() {
            assert_eq!(version_at_most(*a, *b), i <= j);
            assert_eq!(version_at_most(*a, *b), a <= b);
        }
    }
}

#[test]
fn newer_release_is_found() {
    let release = fetch_latest(&body(RELEASE), "1.2.9").unwrap().unwrap();
    assert_eq!(release.version, "1.3.0");
    assert_eq!(release.asset_url, "https://x/OpenLogi.exe");
}

#[test]
fn same_or_older_release_is_no_update() {
    assert!(fetch_latest(&body(RELEASE), "1.3.0").unwrap().is_none());
    assert!(fetch_latest(&body(RELEASE), "v1.3.0-dev").unwrap().is_none());
    assert!(fetch_latest(&body(RELEASE), "2.0.0").unwrap().is_none());
    // The assets of a release that is not newer do not matter.
    assert!(fetch_latest(&body(r#"{"tag_name":"v1"}"#), "1.0.0").unwrap().is_none());
}

#[test]
fn offer_settles_once_installed() {
    let release = fetch_latest(&body(RELEASE), "0.1.0").unwrap().unwrap();
    assert!(!version_at_most(parse_version(&release.version), parse_version("0.1.0")));
    assert!(fetch_latest(&body(RELEASE), &release.version).unwrap().is_none());
}

#[test]
fn every_failure_of_the_check_has_its_message() {
    let error = |fetched: Fetched| fetch_latest(&fetched, "0.1.0").unwrap_err();
    assert_eq!(error(Fetched::RequestFailed("no route".to_string())), "request failed: no route");
    assert_eq!(error(Fetched::ReadFailed("cut off".to_string())), "read failed: cut off");
    let parse = serde_json::from_slice::<serde_json::Value>(b"{oops").unwrap_err();
    assert_eq!(error(body("{oops")), format!("parse failed: {parse}"));
    assert_eq!(error(body("{}")), "release has no tag_name");
    assert_eq!(error(body("[1, 2]")), "release has no tag_name");
    assert_eq!(error(body(r#"{"tag_name": 3}"#)), "release has no tag_name");
    for doc in [
        r#"{"tag_name":"v9"}"#,
        r#"{"tag_name":"v9","assets":{}}"#,
        r#"{"tag_name":"v9","assets":[]}"#,
        r#"{"tag_name":"v9","assets":[{"name":"a.zip","browser_download_url":"u"}]}"#,
        r#"{"tag_name":"v9","assets":[{"name":"a.exe"},{"name":"b.exe","browser_download_url":"u"}]}"#,
    ] {
        assert_eq!(error(body(doc)), "latest release has no .exe asset");
    }
}

#[test]
fn first_executable_wins() {
    let asset = |name: &str, url: &str| ReleaseAsset {
        name: Some(name.to_string()),
        url: Some(url.to_string()),
    };
    let doc = ReleaseDocument {
        tag_name: Some("vv2.0.0".to_string()),
        assets: Some(vec![asset("a.exe.sig", "0"), asset("b.exe", "1"), asset("c.exe", "2")]),
    };
    let release = pick_release(&doc, "1.0.0").unwrap().unwrap();
    assert_eq!((release.version.as_str(), release.asset_url.as_str()), ("2.0.0", "1"));
}

#[test]
fn address_of_the_latest_release() {
    assert_eq!(REPO, "ChrisPrefect/OpenLogi");
    assert_eq!(
        latest_release_url(),
        "https://api.github.com/repos/ChrisPrefect/OpenLogi/releases/latest"
    );
}

fn release() -> Release {
    Release { version: "1.3.0".to_string(), asset_url: "https://x/OpenLogi.exe".to_string() }
}

#[test]
fn found_release_is_staged() {
    let mut updater = new_entity();
    assert!(matches!(updater.status(), UpdateStatus::Idle));
    assert!(updater.download_and_install().is_none());
    assert!(matches!(updater.status(), UpdateStatus::Idle));
    assert!(updater.check());
    assert!(matches!(updater.status(), UpdateStatus::Checking));
    assert!(!updater.check());
    updater.conclude_check(Ok(Some(release())));
    assert!(matches!(updater.status(), UpdateStatus::Available(v) if v == "1.3.0"));
    let handed_out = updater.download_and_install().unwrap();
    assert_eq!(handed_out.asset_url, "https://x/OpenLogi.exe");
    assert!(matches!(updater.status(), UpdateStatus::Installing));
    assert!(!updater.check());
    updater.conclude_install(handed_out.version, Ok(()));
    assert!(matches!(updater.status(), UpdateStatus::Staged(v) if v == "1.3.0"));
}

#[test]
fn failure_keeps_the_pending_release() {
    let mut updater = new_entity();
    updater.check();
    updater.conclude_check(Ok(Some(release())));
    updater.download_and_install();
    updater.conclude_install("1.3.0".to_string(), Err("replace: locked".to_string()));
    assert!(matches!(updater.status(), UpdateStatus::Errored(e) if e == "replace: locked"));
    assert!(updater.check());
    updater.conclude_check(Err("request failed: no route".to_string()));
    assert!(matches!(updater.status(), UpdateStatus::Errored(e) if e == "request failed: no route"));
    assert_eq!(updater.download_and_install().unwrap().version, "1.3.0");
}

#[test]
fn no_newer_release_is_up_to_date() {
    let mut updater = new_entity();
    updater.check();
    updater.conclude_check(Ok(None));
    assert!(matches!(updater.status(), UpdateStatus::UpToDate));
    assert!(matches!(UpdateStatus::default(), UpdateStatus::Idle));
    let errored = UpdateStatus::Errored("x".to_string());
    assert!(matches!(errored.clone(), UpdateStatus::Errored(e) if e == "x"));
    let staged = UpdateStatus::Staged("1.3.0".to_string());
    assert!(matches!(staged.clone(), UpdateStatus::Staged(v) if v == "1.3.0"));
}

#[test]
fn launch_checks_only_when_opted_in() {
    let settings = |check_for_updates| AppSettings {
        language: None,
        launch_at_login: false,
        check_for_updates,
        show_in_menu_bar: false,
        key_repeat_enabled: true,
        key_repeat_delay_ms: 400,
        key_repeat_interval_ms: 60,
    };
    let (updater, query) = install(&settings(false));
    assert!(!query && matches!(updater.status(), UpdateStatus::Idle));
    let (updater, query) = install(&settings(true));
    assert!(query && matches!(updater.status(), UpdateStatus::Checking));
}

#[test]
fn installation_errors_name_their_step() {
    assert_eq!(install_error(InstallStep::Download, "404"), "download failed: 404");
    assert_eq!(install_error(InstallStep::CurrentExe, "e"), "current_exe: e");
    assert_eq!(install_error(InstallStep::CreateTemp, "e"), "create temp: e");
    assert_eq!(install_error(InstallStep::WriteTemp, "e"), "write temp: e");
    assert_eq!(install_error(InstallStep::Replace, "e"), "replace: e");
}

#[test]
fn relaunch_waits_and_starts() {
    assert_eq!(
        relaunch_command("C:\\OpenLogi.exe"),
        "ping 127.0.0.1 -n 2 >nul & start \"\" \"C:\\OpenLogi.exe\""
    );
}

#[test]
fn headless_update_reports() {
    match run_cli_update(Ok(None), "1.2.3") {
        CliUpdate::Exit(o) => {
            assert_eq!(
                (o.code, o.to_stderr, o.message.as_str()),
                (0, false, "OpenLogi is up to date (v1.2.3).")
            );
        }
        other => panic!("{other:?}"),
    }
    match run_cli_update(Err("read failed: x".to_string()), "1.2.3") {
        CliUpdate::Exit(o) => {
            assert_eq!(
                (o.code, o.to_stderr, o.message.as_str()),
                (1, true, "Update check failed: read failed: x")
            );
        }
        other => panic!("{other:?}"),
    }
    match run_cli_update(Ok(Some(release())), "1.2.3") {
        CliUpdate::Download { announce, release } => {
            assert_eq!(announce, "Updating to v1.3.0…");
            assert_eq!(release.version, "1.3.0");
        }
        other => panic!("{other:?}"),
    }
    let done = conclude_cli_update("1.3.0", Ok(()));
    assert_eq!(
        (done.code, done.to_stderr, done.message.as_str()),
        (0, false, "Updated to v1.3.0. Restart OpenLogi to run it.")
    );
    let failed = conclude_cli_update("1.3.0", Err("replace: locked".to_string()));
    assert_eq!(
        (failed.code, failed.to_stderr, failed.message.as_str()),
        (1, true, "Update failed: replace: locked")
    );
}
