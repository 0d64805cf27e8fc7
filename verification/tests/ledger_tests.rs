use mod_updater::ledger::{
    compute_needed, needed_archives, needed_releases, read_manifest, standing_of, Release,
    Standing, UpdateInfo, UpdateManifest, VersionError,
};
use mod_updater::version::Version;

fn v(text: &str) -> Version {
    Version::parse(text).expect("a version")
}

fn info(latest: &str, least: &str, updates: &[(&str, &str)]) -> UpdateInfo {
    UpdateInfo {
        latest: latest.to_string(),
        least: least.to_string(),
        updates: updates.iter().map(|(k, a)| (k.to_string(), a.to_string())).collect(),
    }
}

fn two_step_manifest() -> UpdateInfo {
    info("2.1.0", "1.0.0", &[("v1.5.0", "/a.zip"), ("v2.1.0", "/b.zip")])
}

#[test]
fn needed_from_the_least_version_is_every_archive_in_order() {
    let local = v("1.0.0");
    let needed = compute_needed(Some(&local), &two_step_manifest()).expect("a list");
    assert_eq!(needed, vec!["/a.zip".to_string(), "/b.zip".to_string()]);
}

#[test]
fn needed_does_not_depend_on_the_order_of_the_manifest() {
    let local = v("1.0.0");
    let listed = info("2.1.0", "1.0.0", &[("v2.1.0", "/b.zip"), ("v1.5.0", "/a.zip")]);
    let needed = compute_needed(Some(&local), &listed).expect("a list");
    assert_eq!(needed, vec!["/a.zip".to_string(), "/b.zip".to_string()]);
}

#[test]
fn needed_twice_is_the_same_list() {
    let local = v("1.2.0");
    let manifest = info(
        "3.0.0",
        "1.0.0",
        &[("v3.0.0", "/e.zip"), ("v1.10.0", "/c.zip"), ("v1.2.0", "/b.zip"), ("v2.0", "/d.zip")],
    );
    let first = compute_needed(Some(&local), &manifest).expect("a list");
    let second = compute_needed(Some(&local), &manifest).expect("a list");
    assert_eq!(first, second);
    assert_eq!(first, vec!["/c.zip".to_string(), "/d.zip".to_string(), "/e.zip".to_string()]);
}

#[test]
fn unsupported_below_the_least_version() {
    let local = v("0.5.0");
    match compute_needed(Some(&local), &two_step_manifest()) {
        Err(VersionError::Unsupported(installed, least)) => {
            assert_eq!(installed.text(), "0.5.0");
            assert_eq!(least.text(), "1.0.0");
        }
        other => panic!("expected Unsupported, got {:?}", other),
    }
}

#[test]
fn nothing_needed_at_the_latest_version() {
    let local = v("2.1.0");
    let needed = compute_needed(Some(&local), &two_step_manifest()).expect("a list");
    assert!(needed.is_empty());
    let same = v("v2.1");
    let needed = compute_needed(Some(&same), &two_step_manifest()).expect("a list");
    assert!(needed.is_empty());
}

#[test]
fn version_in_future_above_the_latest_version() {
    let local = v("2.2.0");
    match compute_needed(Some(&local), &two_step_manifest()) {
        Err(VersionError::VersionInFuture(installed, latest)) => {
            assert_eq!(installed.text(), "2.2.0");
            assert_eq!(latest.text(), "2.1.0");
        }
        other => panic!("expected VersionInFuture, got {:?}", other),
    }
}

#[test]
fn manifest_corrupt_for_an_unreadable_key() {
    let local = v("1.0.0");
    let manifest = info("2.1.0", "1.0.0", &[("v1.5.0", "/a.zip"), ("latest", "/b.zip")]);
    assert!(matches!(
        compute_needed(Some(&local), &manifest),
        Err(VersionError::ManifestCorrupt)
    ));
}

#[test]
fn manifest_corrupt_comes_before_any_other_answer() {
    let old = v("0.5.0");
    let manifest = info("2.1.0", "1.0.0", &[("one", "/a.zip")]);
    assert!(matches!(compute_needed(Some(&old), &manifest), Err(VersionError::ManifestCorrupt)));
    let current = v("2.1.0");
    assert!(matches!(
        compute_needed(Some(&current), &manifest),
        Err(VersionError::ManifestCorrupt)
    ));
    let bad_latest = info("newest", "1.0.0", &[]);
    assert!(matches!(
        compute_needed(Some(&current), &bad_latest),
        Err(VersionError::ManifestCorrupt)
    ));
    let bad_least = info("2.1.0", "oldest", &[]);
    assert!(matches!(
        compute_needed(Some(&current), &bad_least),
        Err(VersionError::ManifestCorrupt)
    ));
}

#[test]
fn without_a_local_version_every_archive_is_needed() {
    let manifest = info(
        "2.1.0",
        "1.0.0",
        &[("v2.1.0", "/c.zip"), ("v0.9", "/a.zip"), ("v1.5.0", "/b.zip")],
    );
    let needed = compute_needed(None, &manifest).expect("a list");
    assert_eq!(needed, vec!["/a.zip".to_string(), "/b.zip".to_string(), "/c.zip".to_string()]);
}

#[test]
fn only_newer_archives_are_needed() {
    let local = v("1.5.0");
    let needed = compute_needed(Some(&local), &two_step_manifest()).expect("a list");
    assert_eq!(needed, vec!["/b.zip".to_string()]);
}

#[test]
fn archives_above_the_latest_version_are_needed_too() {
    let local = v("1.0.0");
    let manifest = info("2.0.0", "1.0.0", &[("3.0.0", "/c.zip"), ("2.0.0", "/b.zip")]);
    let needed = compute_needed(Some(&local), &manifest).expect("a list");
    assert_eq!(needed, vec!["/b.zip".to_string(), "/c.zip".to_string()]);
}

#[test]
fn behind_with_nothing_newer_needs_nothing() {
    let local = v("1.5.0");
    let manifest = info("2.0.0", "1.0.0", &[("1.5.0", "/a.zip")]);
    let needed = compute_needed(Some(&local), &manifest).expect("a list");
    assert!(needed.is_empty());
}

#[test]
fn equal_versions_keep_the_order_of_the_manifest() {
    let local = v("1.0");
    let manifest = info(
        "3.0",
        "1.0",
        &[("3.0", "/z.zip"), ("2.0", "/first.zip"), ("2.0.0", "/second.zip"), ("v2", "/third.zip")],
    );
    let needed = compute_needed(Some(&local), &manifest).expect("a list");
    assert_eq!(
        needed,
        vec![
            "/first.zip".to_string(),
            "/second.zip".to_string(),
            "/third.zip".to_string(),
            "/z.zip".to_string()
        ]
    );
}

#[test]
fn needed_archives_of_a_read_manifest() {
    let manifest = UpdateManifest {
        latest: v("1.2"),
        least_supported: v("1.0"),
        updates: vec![
            Release { version: v("1.2"), archive: "/two".to_string() },
            Release { version: v("1.1"), archive: "/one".to_string() },
            Release { version: v("1.0"), archive: "/zero".to_string() },
        ],
    };
    let local = v("1.0");
    let needed = needed_archives(Some(&local), &manifest).expect("a list");
    assert_eq!(needed, vec!["/one".to_string(), "/two".to_string()]);
}

#[test]
fn read_manifest_reads_every_version() {
    let manifest = read_manifest(&two_step_manifest()).expect("a manifest");
    assert_eq!(manifest.latest.text(), "2.1.0");
    assert_eq!(manifest.least_supported.text(), "1.0.0");
    assert_eq!(manifest.updates.len(), 2);
    assert_eq!(manifest.updates[0].version.text(), "1.5.0");
    assert_eq!(manifest.updates[0].archive, "/a.zip");
    assert_eq!(manifest.updates[1].version.text(), "2.1.0");
    assert_eq!(manifest.updates[1].archive, "/b.zip");
    assert!(read_manifest(&info("2", "1", &[("x", "/a.zip")])).is_none());
}

#[test]
fn standing_of_each_kind() {
    let latest = v("2.1.0");
    let least = v("1.0.0");
    assert_eq!(standing_of(None, &latest, &least), Standing::Behind);
    assert_eq!(standing_of(Some(&v("0.9")), &latest, &least), Standing::Unsupported);
    assert_eq!(standing_of(Some(&v("1.0")), &latest, &least), Standing::Behind);
    assert_eq!(standing_of(Some(&v("2.1")), &latest, &least), Standing::Current);
    assert_eq!(standing_of(Some(&v("2.1.1")), &latest, &least), Standing::Ahead);
}

#[test]
fn unsupported_is_decided_before_the_latest_version_is_looked_at() {
    // A manifest whose least version lies above its latest.
    let latest = v("1.0");
    let least = v("2.0");
    assert_eq!(standing_of(Some(&v("1.0")), &latest, &least), Standing::Unsupported);
    assert_eq!(standing_of(Some(&v("1.5")), &latest, &least), Standing::Unsupported);
}

#[test]
fn needed_releases_carry_their_versions() {
    let manifest = read_manifest(&info(
        "3.0",
        "1.0",
        &[("v3.0", "/c.zip"), ("v1.0", "/a.zip"), ("v2.0", "/b.zip")],
    ))
    .expect("a manifest");
    let local = v("1.0");
    let needed = needed_releases(Some(&local), &manifest).expect("a plan");
    let listed: Vec<(String, String)> =
        needed.iter().map(|r| (r.version.text(), r.archive.clone())).collect();
    assert_eq!(
        listed,
        vec![("2.0".to_string(), "/b.zip".to_string()), ("3.0".to_string(), "/c.zip".to_string())]
    );
    let archives = needed_archives(Some(&local), &manifest).expect("a list");
    assert_eq!(archives, vec!["/b.zip".to_string(), "/c.zip".to_string()]);
}

#[test]
fn needed_releases_fail_as_the_archives_do() {
    let manifest = read_manifest(&two_step_manifest()).expect("a manifest");
    assert!(matches!(
        needed_releases(Some(&v("0.5.0")), &manifest),
        Err(VersionError::Unsupported(_, _))
    ));
    assert!(matches!(
        needed_releases(Some(&v("9.0")), &manifest),
        Err(VersionError::VersionInFuture(_, _))
    ));
    assert!(needed_releases(Some(&v("2.1.0")), &manifest).expect("a plan").is_empty());
    assert_eq!(needed_releases(None, &manifest).expect("a plan").len(), 2);
}
