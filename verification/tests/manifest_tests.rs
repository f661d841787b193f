use minecraft_operator_core::manifest::{Latest, Version, VersionManifest, VersionType};
use minecraft_operator_core::manifest::{is_latest_release, is_latest_snapshot};

fn version(id: &str, vt: VersionType, url: &str) -> Version {
    Version {
        id: id.to_string(),
        version_type: vt,
        url: url.to_string(),
        time: "2022-03-10T09:51:38+00:00".to_string(),
        release_time: "2022-02-28T10:42:45+00:00".to_string(),
        sha1: None,
        compliance_level: None,
    }
}

fn version_v2(id: &str, vt: VersionType, url: &str, sha1: &str) -> Version {
    Version {
        id: id.to_string(),
        version_type: vt,
        url: url.to_string(),
        time: "2022-03-10T09:51:38+00:00".to_string(),
        release_time: "2022-02-28T10:42:45+00:00".to_string(),
        sha1: Some(sha1.to_string()),
        compliance_level: Some(1),
    }
}

fn sample_manifest() -> VersionManifest {
    VersionManifest {
        latest: Latest { release: "1.19.3".to_string(), snapshot: "22w19a".to_string() },
        versions: vec![
            version(
                "1.19.3",
                VersionType::Release,
                "https://piston-meta.mojang.com/v1/packages/aa/1.19.3.json",
            ),
            version(
                "22w19a",
                VersionType::Snapshot,
                "https://piston-meta.mojang.com/v1/packages/bb/22w19a.json",
            ),
            version(
                "1.18.2",
                VersionType::Release,
                "https://piston-meta.mojang.com/v1/packages/cc/1.18.2.json",
            ),
        ],
    }
}

fn sample_manifest_v2() -> VersionManifest {
    VersionManifest {
        latest: Latest { release: "1.19.3".to_string(), snapshot: "22w19a".to_string() },
        versions: vec![
            version_v2(
                "1.19.3",
                VersionType::Release,
                "https://piston-meta.mojang.com/v1/packages/aa/1.19.3.json",
                "c64ca27d2b85b8d52bae990c2a8e471b254947a0",
            ),
            version_v2(
                "1.18.2",
                VersionType::Release,
                "https://piston-meta.mojang.com/v1/packages/cc/1.18.2.json",
                "b6dd5f608715653491b5c640e2dc8d1c58ca18e3",
            ),
        ],
    }
}

#[test]
fn manifest_parse() {
    let manifest = sample_manifest();
    assert_eq!(manifest.latest.release, "1.19.3");
}

#[test]
fn lib_find_exact() {
    let manifest = sample_manifest();
    let v = manifest.find_exact("1.18.2");
    assert!(v.is_some());
    let uv = v.unwrap();
    assert_eq!(uv.id, "1.18.2");
    assert_eq!(uv.version_type, VersionType::Release);
    assert_eq!(url::Url::parse(&uv.url).unwrap().scheme(), "https");
}

#[test]
fn manifest_parse_v2() {
    let manifest = sample_manifest_v2();
    assert_eq!(manifest.latest.release, "1.19.3");
}

#[test]
fn manifest_find_exact() {
    let manifest = sample_manifest_v2();
    let v = manifest.find_exact("1.18.2");
    assert!(v.is_some());
    let uv = v.unwrap();
    assert_eq!(uv.id, "1.18.2");
    assert_eq!(uv.version_type, VersionType::Release);
    assert_eq!(url::Url::parse(&uv.url).unwrap().scheme(), "https");
}

#[test]
fn find_exact_miss_returns_none() {
    let manifest = sample_manifest();
    assert!(manifest.find_exact("1.7.10").is_none());
}

#[test]
fn find_exact_returns_first_match() {
    let mut manifest = sample_manifest();
    manifest.versions.push(version(
        "1.18.2",
        VersionType::Snapshot,
        "https://example.invalid/duplicate.json",
    ));
    let uv = manifest.find_exact("1.18.2").unwrap();
    assert_eq!(uv.version_type, VersionType::Release);
    assert_eq!(uv.url, "https://piston-meta.mojang.com/v1/packages/cc/1.18.2.json");
}

#[test]
fn latest_pointers_follow_the_index() {
    let manifest = sample_manifest();
    assert_eq!(manifest.latest_release().unwrap().id, "1.19.3");
    assert_eq!(manifest.latest_snapshot().unwrap().id, "22w19a");
}

#[test]
fn release_alias_spellings_are_recognized() {
    for s in [
        "latest",
        "release",
        "latest_release",
        "latest-release",
        "latestrelease",
        "LatestRelease",
        "latestRelease",
        "LATEST",
        "Release",
    ] {
        assert!(is_latest_release(s), "{s} should name the latest release");
        assert!(!is_latest_snapshot(s), "{s} is not a snapshot alias");
    }
}

#[test]
fn snapshot_alias_spellings_are_recognized() {
    for s in [
        "snapshot",
        "latest_snapshot",
        "latest-snapshot",
        "latestsnapshot",
        "LatestSnapshot",
        "latestSnapshot",
        "SNAPSHOT",
    ] {
        assert!(is_latest_snapshot(s), "{s} should name the latest snapshot");
        assert!(!is_latest_release(s), "{s} is not a release alias");
    }
}

#[test]
fn plain_version_ids_are_no_aliases() {
    for s in ["1.19.3", "22w19a", "", "latest ", "relea se"] {
        assert!(!is_latest_release(s));
        assert!(!is_latest_snapshot(s));
    }
}
