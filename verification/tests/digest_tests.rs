use minecraft_operator_core::api::Checksum;
use minecraft_operator_core::digest::{DigestKind, TrustLevel, verify_bytes};
use minecraft_operator_core::strutil::to_hex;

const ABC_MD5: &str = "900150983cd24fb0d6963f7d28e17f72";
const ABC_SHA1: &str = "a9993e364706816aba3e25717850c26c9cd0d89d";
const ABC_SHA256: &str = "ba7816bf8f01cfea414140de5dae2223b00361a396177a9cb410ff61f20015ad";

fn abc() -> Vec<u8> {
    b"abc".to_vec()
}

#[test]
fn matching_digests_verify() {
    let checksum = Some(Checksum {
        md5: Some(ABC_MD5.to_string()),
        sha1: Some(ABC_SHA1.to_string()),
        sha256: Some(ABC_SHA256.to_string()),
    });
    assert_eq!(verify_bytes(&abc(), &checksum), Ok(TrustLevel::Verified));
}

#[test]
fn digest_comparison_ignores_ascii_case() {
    let checksum = Some(Checksum {
        md5: None,
        sha1: None,
        sha256: Some(ABC_SHA256.to_uppercase()),
    });
    assert_eq!(verify_bytes(&abc(), &checksum), Ok(TrustLevel::Verified));
}

#[test]
fn sha256_mismatch_is_an_integrity_error() {
    let checksum = Some(Checksum {
        md5: None,
        sha1: None,
        sha256: Some(
            "0000000000000000000000000000000000000000000000000000000000000000".to_string(),
        ),
    });
    assert_eq!(verify_bytes(&abc(), &checksum), Err(DigestKind::Sha256));
}

#[test]
fn md5_mismatch_is_reported_first() {
    let checksum = Some(Checksum {
        md5: Some("00000000000000000000000000000000".to_string()),
        sha1: None,
        sha256: Some(
            "0000000000000000000000000000000000000000000000000000000000000000".to_string(),
        ),
    });
    assert_eq!(verify_bytes(&abc(), &checksum), Err(DigestKind::Md5));
}

#[test]
fn sha1_mismatch_is_an_integrity_error() {
    let checksum = Some(Checksum {
        md5: None,
        sha1: Some("0000000000000000000000000000000000000000".to_string()),
        sha256: None,
    });
    assert_eq!(verify_bytes(&abc(), &checksum), Err(DigestKind::Sha1));
}

#[test]
fn absent_digest_set_is_trust_on_first_use() {
    assert_eq!(verify_bytes(&abc(), &None), Ok(TrustLevel::TrustOnFirstUse));
    let empty = Some(Checksum { md5: None, sha1: None, sha256: None });
    assert_eq!(verify_bytes(&abc(), &empty), Ok(TrustLevel::TrustOnFirstUse));
}

#[test]
fn verification_reads_the_bytes() {
    let checksum = Some(Checksum { md5: None, sha1: None, sha256: Some(ABC_SHA256.to_string()) });
    assert_eq!(verify_bytes(&b"abd".to_vec(), &checksum), Err(DigestKind::Sha256));
    assert_eq!(verify_bytes(&Vec::new(), &checksum), Err(DigestKind::Sha256));
}

#[test]
fn hex_rendering_has_exact_values() {
    assert_eq!(to_hex(&[]), "");
    assert_eq!(to_hex(&[0x00, 0xff, 0x1a]), "00ff1a");
    assert_eq!(to_hex(&[0xde, 0xad, 0xbe, 0xef]), "deadbeef");
}
