//! Digest computation and artifact verification. The hash functions are
//! outside code: each is called through one trusted wrapper whose result is
//! named by an uninterpreted function, since the same bytes give the same
//! digest on every machine. Everything that compares and decides is
//! verified.

use vstd::prelude::*;
use sha2::Digest;
use crate::api::Checksum;
use crate::strutil::{chars_eq_nocase, hex_rep, lemma_hex_rep_lower, lower_chars, to_hex};

verus! {

/// What MD5 computes of a byte sequence.
pub uninterp spec fn md5_of(bytes: Seq<u8>) -> Seq<u8>;

/// What SHA-1 computes of a byte sequence.
pub uninterp spec fn sha1_of(bytes: Seq<u8>) -> Seq<u8>;

/// What SHA-256 computes of a byte sequence.
pub uninterp spec fn sha256_of(bytes: Seq<u8>) -> Seq<u8>;

/// Relies on md5::Md5: a 16-byte digest that depends on the input bytes
/// alone.
#[verifier::external_body]
fn md5_bytes(data: &[u8]) -> (r: Vec<u8>)
    ensures
        r@ == md5_of(data@),
        r@.len() == 16,
{
    md5::Md5::digest(data).to_vec()
}

/// Relies on sha1::Sha1: a 20-byte digest that depends on the input bytes
/// alone.
#[verifier::external_body]
fn sha1_bytes(data: &[u8]) -> (r: Vec<u8>)
    ensures
        r@ == sha1_of(data@),
        r@.len() == 20,
{
    sha1::Sha1::digest(data).to_vec()
}

/// Relies on sha2::Sha256: a 32-byte digest that depends on the input bytes
/// alone.
#[verifier::external_body]
pub(crate) fn sha256_bytes(data: &[u8]) -> (r: Vec<u8>)
    ensures
        r@ == sha256_of(data@),
        r@.len() == 32,
{
    sha2::Sha256::digest(data).to_vec()
}

/// Whether a declared digest string names the computed digest: equal to its
/// lower-case hexadecimal rendering up to ASCII case.
pub open spec fn digest_matches(declared: Seq<char>, computed: Seq<u8>) -> bool {
    lower_chars(declared) == hex_rep(computed)
}

/// Compares a declared digest string with computed digest bytes.
fn check_digest(declared: &str, computed: &Vec<u8>) -> (r: bool)
    ensures
        r == digest_matches(declared@, computed@),
{
    let hexs = to_hex(computed.as_slice());
    let r = chars_eq_nocase(declared, hexs.as_str());
    proof {
        lemma_hex_rep_lower(computed@);
    }
    r
}

/// How far an artifact's integrity was established.
#[derive(Clone, Copy, Debug, PartialEq, Eq, Structural)]
pub enum TrustLevel {
    /// Every declared digest was recomputed from the bytes and matched.
    Verified,
    /// No digest was declared; the bytes are trusted on first use.
    TrustOnFirstUse,
}

/// Which digest of the set failed verification.
#[derive(Clone, Copy, Debug, PartialEq, Eq, Structural)]
pub enum DigestKind {
    Md5,
    Sha1,
    Sha256,
}

/// Whether a declared slot of the digest set fails against the computed
/// digest; an absent slot cannot fail.
pub open spec fn slot_mismatch(declared: Option<String>, computed: Seq<u8>) -> bool {
    match declared {
        None => false,
        Some(s) => !digest_matches(s@, computed),
    }
}

/// The verdict on downloaded bytes against a declared digest set: the first
/// mismatching digest in md5, sha1, sha256 order; else trust-on-first-use
/// when nothing was declared; else verified.
pub open spec fn spec_verify(checksum: Option<Checksum>, data: Seq<u8>) -> Result<
    TrustLevel,
    DigestKind,
> {
    match checksum {
        None => Ok(TrustLevel::TrustOnFirstUse),
        Some(c) => {
            if slot_mismatch(c.md5, md5_of(data)) {
                Err(DigestKind::Md5)
            } else if slot_mismatch(c.sha1, sha1_of(data)) {
                Err(DigestKind::Sha1)
            } else if slot_mismatch(c.sha256, sha256_of(data)) {
                Err(DigestKind::Sha256)
            } else if !c.has_any() {
                Ok(TrustLevel::TrustOnFirstUse)
            } else {
                Ok(TrustLevel::Verified)
            }
        },
    }
}

/// Verifies downloaded bytes against the declared digest set: every declared
/// digest is recomputed from the bytes and must match; a mismatch names the
/// failing digest and is never downgraded; with no digest declared the bytes
/// are trust-on-first-use.
pub fn verify_bytes(data: &Vec<u8>, checksum: &Option<Checksum>) -> (r: Result<
    TrustLevel,
    DigestKind,
>)
    ensures
        r == spec_verify(*checksum, data@),
{
    match checksum {
        None => Ok(TrustLevel::TrustOnFirstUse),
        Some(c) => {
            let mut any: bool = false;
            if let Some(m) = &c.md5 {
                let computed = md5_bytes(data.as_slice());
                if !check_digest(m.as_str(), &computed) {
                    return Err(DigestKind::Md5);
                }
                any = true;
            }
            if let Some(s) = &c.sha1 {
                let computed = sha1_bytes(data.as_slice());
                if !check_digest(s.as_str(), &computed) {
                    return Err(DigestKind::Sha1);
                }
                any = true;
            }
            if let Some(s) = &c.sha256 {
                let computed = sha256_bytes(data.as_slice());
                if !check_digest(s.as_str(), &computed) {
                    return Err(DigestKind::Sha256);
                }
                any = true;
            }
            if any {
                Ok(TrustLevel::Verified)
            } else {
                Ok(TrustLevel::TrustOnFirstUse)
            }
        },
    }
}

/// Integrity is enforced: bytes whose computed SHA-256 differs from the
/// declared SHA-256 never verify, whatever the other digests say.
pub proof fn lemma_sha256_mismatch_rejected(c: Checksum, data: Seq<u8>)
    requires
        slot_mismatch(c.sha256, sha256_of(data)),
    ensures
        spec_verify(Some(c), data) is Err,
{
}

} // verus!
