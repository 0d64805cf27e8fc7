use mod_updater::ledger::{Release, UpdateInfo, VersionError};
use mod_updater::notice::{check_updates, Notice};
use mod_updater::version::Version;

fn v(text: &str) -> Version {
    Version::parse(text).expect("a version")
}

fn archives(needed: Result<Vec<Release>, VersionError>) -> Vec<String> {
    needed.expect("a plan").into_iter().map(|release| release.archive).collect()
}

fn manifest() -> UpdateInfo {
    UpdateInfo {
        latest: "2.1.0".to_string(),
        least: "1.0.0".to_string(),
        updates: vec![
            ("v2.1.0".to_string(), "/b.zip".to_string()),
            ("v1.5.0".to_string(), "/a.zip".to_string()),
        ],
    }
}

#[test]
fn without_an_installed_version_nothing_is_compared() {
    let check = check_updates(false, None, &manifest());
    assert_eq!(check.notice, None);
    assert_eq!(archives(check.needed), Vec::<String>::new());
    let corrupt = UpdateInfo { latest: "x".to_string(), least: "y".to_string(), updates: vec![] };
    let check = check_updates(true, None, &corrupt);
    assert_eq!(check.notice, None);
    assert_eq!(archives(check.needed), Vec::<String>::new());
}

#[test]
fn an_old_installation_is_told_of_the_new_version() {
    let local = v("1.0.0");
    let check = check_updates(false, Some(&local), &manifest());
    assert_eq!(
        check.notice,
        Some(Notice {
            title: "New version available".to_string(),
            message: "A new version is available: 2.1.0 (current: 1.0.0)".to_string(),
        })
    );
    assert_eq!(archives(check.needed), vec!["/a.zip".to_string(), "/b.zip".to_string()]);
}

#[test]
fn nothing_is_said_while_downloading() {
    let local = v("1.0.0");
    let check = check_updates(true, Some(&local), &manifest());
    assert_eq!(check.notice, None);
    assert_eq!(archives(check.needed), vec!["/a.zip".to_string(), "/b.zip".to_string()]);
    let current = v("2.1.0");
    assert_eq!(check_updates(true, Some(&current), &manifest()).notice, None);
    let ahead = v("9");
    assert_eq!(check_updates(true, Some(&ahead), &manifest()).notice, None);
}

#[test]
fn a_current_installation_is_told_so() {
    let local = v("v2.1.0");
    let check = check_updates(false, Some(&local), &manifest());
    assert_eq!(
        check.notice,
        Some(Notice {
            title: "New version available".to_string(),
            message: "You are using the latest version: 2.1.0".to_string(),
        })
    );
    assert!(archives(check.needed).is_empty());
}

#[test]
fn an_unsupported_installation_is_told_so_even_while_downloading() {
    let local = v("0.5.0");
    for downloading in [false, true] {
        let check = check_updates(downloading, Some(&local), &manifest());
        assert_eq!(
            check.notice,
            Some(Notice {
                title: "Unsupported Version".to_string(),
                message: "You're using an older version: 0.5.0 that is not supported by the \
                          downloader (last supported version: 1.0.0)\n Your version can't be \
                          updated."
                    .to_string(),
            })
        );
        assert!(matches!(check.needed, Err(VersionError::Unsupported(_, _))));
    }
}

#[test]
fn an_installation_ahead_of_the_manifest_is_an_error() {
    let local = v("3.0");
    let check = check_updates(false, Some(&local), &manifest());
    assert_eq!(
        check.notice,
        Some(Notice {
            title: "New version available".to_string(),
            message: "You are using a newer version: 3.0, latest: 2.1.0.\n How..???".to_string(),
        })
    );
    assert!(matches!(check.needed, Err(VersionError::VersionInFuture(_, _))));
}

#[test]
fn a_corrupt_manifest_is_an_error_without_a_notice() {
    let local = v("1.0.0");
    let corrupt = UpdateInfo {
        latest: "2.1.0".to_string(),
        least: "1.0.0".to_string(),
        updates: vec![("first".to_string(), "/a.zip".to_string())],
    };
    let check = check_updates(false, Some(&local), &corrupt);
    assert_eq!(check.notice, None);
    assert!(matches!(check.needed, Err(VersionError::ManifestCorrupt)));
}

#[test]
fn behind_with_nothing_newer_is_still_told_of_the_latest_version() {
    let local = v("1.5.0");
    let sparse = UpdateInfo {
        latest: "2.1.0".to_string(),
        least: "1.0.0".to_string(),
        updates: vec![("v1.5.0".to_string(), "/a.zip".to_string())],
    };
    let check = check_updates(false, Some(&local), &sparse);
    assert_eq!(
        check.notice.expect("a notice").message,
        "A new version is available: 2.1.0 (current: 1.5.0)"
    );
    assert!(archives(check.needed).is_empty());
}
