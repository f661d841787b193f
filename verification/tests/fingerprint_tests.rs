use minecraft_operator_core::api::{Checksum, File};
use minecraft_operator_core::fingerprint::{ResolvedSpec, fingerprint};
use minecraft_operator_core::resolver::ResolvedVersion;

fn server() -> ResolvedVersion {
    ResolvedVersion {
        url: "https://piston-data.mojang.com/v1/objects/server.jar".to_string(),
        checksum: Some(Checksum {
            md5: None,
            sha1: Some("c9df48efed58511cdd0213c56b9013a7b5c9ac1f".to_string()),
            sha256: None,
        }),
        java_major: 17,
        reduced_trust: false,
    }
}

fn file(url: &str) -> File {
    File { url: url.to_string(), checksum: None }
}

fn sample() -> ResolvedSpec {
    ResolvedSpec {
        server: server(),
        mods: vec![file("https://mods.example/a.jar"), file("https://mods.example/b.jar")],
        datapacks: vec![file("https://packs.example/p.zip")],
    }
}

#[test]
fn identical_resolved_specs_fingerprint_identically() {
    let a = fingerprint(&sample());
    let b = fingerprint(&sample());
    assert_eq!(a, b);
    assert_eq!(a.len(), 64);
    assert!(a.chars().all(|c| c.is_ascii_hexdigit() && !c.is_ascii_uppercase()));
}

#[test]
fn url_change_changes_the_fingerprint() {
    let mut changed = sample();
    changed.server.url = "https://piston-data.mojang.com/v1/objects/other.jar".to_string();
    assert_ne!(fingerprint(&sample()), fingerprint(&changed));
}

#[test]
fn digest_change_changes_the_fingerprint() {
    let mut changed = sample();
    changed.server.checksum = Some(Checksum {
        md5: None,
        sha1: Some("0000000000000000000000000000000000000000".to_string()),
        sha256: None,
    });
    assert_ne!(fingerprint(&sample()), fingerprint(&changed));
}

#[test]
fn mod_list_reordering_changes_the_fingerprint() {
    let mut reordered = sample();
    reordered.mods.reverse();
    assert_ne!(fingerprint(&sample()), fingerprint(&reordered));
}

#[test]
fn absent_and_empty_digest_sets_canonicalize_identically() {
    let absent = sample();
    let mut empty = sample();
    empty.mods[0].checksum = Some(Checksum { md5: None, sha1: None, sha256: None });
    assert_eq!(fingerprint(&absent), fingerprint(&empty));
}

#[test]
fn adding_a_datapack_changes_the_fingerprint() {
    let mut more = sample();
    more.datapacks.push(file("https://packs.example/q.zip"));
    assert_ne!(fingerprint(&sample()), fingerprint(&more));
}

#[test]
fn moving_an_artifact_between_lists_changes_the_fingerprint() {
    let base = ResolvedSpec {
        server: server(),
        mods: vec![file("https://example.invalid/x.jar")],
        datapacks: vec![],
    };
    let moved = ResolvedSpec {
        server: server(),
        mods: vec![],
        datapacks: vec![file("https://example.invalid/x.jar")],
    };
    assert_ne!(fingerprint(&base), fingerprint(&moved));
}
