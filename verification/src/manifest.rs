//! The upstream version manifest: the index mapping version identifiers to
//! per-version metadata documents, the `latest` pointers, and the alias
//! spellings that select them.

use vstd::prelude::*;
use crate::strutil::{chars_eq_nocase, lower_chars, str_eq, clone_opt_string};

verus! {

/// Where the manifest document is served from.
pub const VERSION_MANIFEST_URL: &'static str =
    "https://piston-meta.mojang.com/mc/game/version_manifest_v2.json";

/// The manifest document: the `latest` pointers and the version index.
#[derive(Clone, Debug, PartialEq, Eq)]
pub struct VersionManifest {
    pub latest: Latest,
    pub versions: Vec<Version>,
}

/// The manifest's pointers to the newest release and snapshot identifiers.
#[derive(Clone, Debug, PartialEq, Eq)]
pub struct Latest {
    pub release: String,
    pub snapshot: String,
}

/// One entry of the version index. Timestamps are carried as the plain
/// strings of the document; the digest and compliance level are absent in
/// older manifest revisions.
#[derive(Debug, PartialEq, Eq)]
pub struct Version {
    pub id: String,
    pub version_type: VersionType,
    pub url: String,
    pub time: String,
    pub release_time: String,
    pub sha1: Option<String>,
    pub compliance_level: Option<u8>,
}

#[derive(Clone, Copy, Debug, PartialEq, Eq, Structural)]
pub enum VersionType {
    Release,
    Snapshot,
    OldAlpha,
    OldBeta,
}

impl Clone for Version {
    fn clone(&self) -> (r: Self)
        ensures
            r == *self,
    {
        Version {
            id: self.id.clone(),
            version_type: self.version_type,
            url: self.url.clone(),
            time: self.time.clone(),
            release_time: self.release_time.clone(),
            sha1: clone_opt_string(&self.sha1),
            compliance_level: self.compliance_level,
        }
    }
}

/// Index of the first entry whose id equals `id`, if any.
pub open spec fn spec_find_index(vs: Seq<Version>, id: Seq<char>) -> Option<int>
    decreases vs.len(),
{
    if vs.len() == 0 {
        None
    } else if vs[0].id@ == id {
        Some(0int)
    } else {
        match spec_find_index(vs.drop_first(), id) {
            None => None,
            Some(i) => Some(i + 1),
        }
    }
}

/// The first entry whose id equals `id`, if any.
pub open spec fn spec_find_exact(vs: Seq<Version>, id: Seq<char>) -> Option<Version> {
    match spec_find_index(vs, id) {
        None => None,
        Some(i) => Some(vs[i]),
    }
}

/// An exact-id lookup finds the first match and nothing else: the returned
/// index is in range, its entry's id is the one sought, no earlier entry
/// matches, and a `None` means no entry matches at all.
pub proof fn lemma_find_index_characterization(vs: Seq<Version>, id: Seq<char>)
    ensures
        match spec_find_index(vs, id) {
            Some(i) => 0 <= i < vs.len() && vs[i].id@ == id && (forall|j: int|
                0 <= j < i ==> vs[j].id@ != id),
            None => forall|j: int| 0 <= j < vs.len() ==> vs[j].id@ != id,
        },
    decreases vs.len(),
{
    if vs.len() == 0 {
    } else if vs[0].id@ == id {
    } else {
        lemma_find_index_characterization(vs.drop_first(), id);
        assert forall|j: int| 1 <= j < vs.len() implies vs.drop_first()[j - 1] == vs[j] by {}
    }
}

/// Scanning past a prefix with no match leaves the lookup's result intact.
proof fn lemma_find_index_skip(vs: Seq<Version>, id: Seq<char>, i: int)
    requires
        0 <= i <= vs.len(),
        forall|j: int| 0 <= j < i ==> vs[j].id@ != id,
    ensures
        i == vs.len() ==> spec_find_index(vs, id) is None,
        i < vs.len() && vs[i].id@ == id ==> spec_find_index(vs, id) == Some(i),
    decreases vs.len(),
{
    if vs.len() == 0 {
    } else if vs[0].id@ == id {
        assert(i == 0);
    } else {
        if i > 0 {
            lemma_find_index_skip(vs.drop_first(), id, i - 1);
        }
    }
}

impl VersionManifest {
    /// Exact-id lookup: the first manifest entry with this id.
    pub fn find_exact(&self, id: &str) -> (r: Option<Version>)
        ensures
            r == spec_find_exact(self.versions@, id@),
    {
        let n = self.versions.len();
        let mut i: usize = 0;
        while i < n
            invariant
                i <= n,
                n == self.versions@.len(),
                forall|j: int| 0 <= j < i ==> self.versions@[j].id@ != id@,
            decreases n - i,
        {
            if str_eq(self.versions[i].id.as_str(), id) {
                proof {
                    lemma_find_index_skip(self.versions@, id@, i as int);
                }
                return Some(self.versions[i].clone());
            }
            i += 1;
        }
        proof {
            lemma_find_index_skip(self.versions@, id@, n as int);
        }
        None
    }

    /// The entry the manifest's `latest.release` pointer names, if present.
    pub fn latest_release(&self) -> (r: Option<Version>)
        ensures
            r == spec_find_exact(self.versions@, self.latest.release@),
    {
        self.find_exact(self.latest.release.as_str())
    }

    /// The entry the manifest's `latest.snapshot` pointer names, if present.
    pub fn latest_snapshot(&self) -> (r: Option<Version>)
        ensures
            r == spec_find_exact(self.versions@, self.latest.snapshot@),
    {
        self.find_exact(self.latest.snapshot.as_str())
    }
}

/// Equality of two character sequences up to ASCII case.
pub open spec fn eq_nocase(a: Seq<char>, b: Seq<char>) -> bool {
    lower_chars(a) == lower_chars(b)
}

/// The accepted spellings of "latest release", compared without regard to
/// ASCII case.
pub open spec fn spec_is_latest_release(s: Seq<char>) -> bool {
    ||| eq_nocase(s, "latest"@)
    ||| eq_nocase(s, "release"@)
    ||| eq_nocase(s, "latest_release"@)
    ||| eq_nocase(s, "latest-release"@)
    ||| eq_nocase(s, "latestrelease"@)
}

/// The accepted spellings of "latest snapshot", compared without regard to
/// ASCII case.
pub open spec fn spec_is_latest_snapshot(s: Seq<char>) -> bool {
    ||| eq_nocase(s, "snapshot"@)
    ||| eq_nocase(s, "latest_snapshot"@)
    ||| eq_nocase(s, "latest-snapshot"@)
    ||| eq_nocase(s, "latestsnapshot"@)
}

/// Whether `version` is an alias for the latest release.
pub fn is_latest_release(version: &str) -> (r: bool)
    ensures
        r == spec_is_latest_release(version@),
{
    chars_eq_nocase(version, "latest") || chars_eq_nocase(version, "release")
        || chars_eq_nocase(version, "latest_release") || chars_eq_nocase(version, "latest-release")
        || chars_eq_nocase(version, "latestrelease")
}

/// Whether `version` is an alias for the latest snapshot.
pub fn is_latest_snapshot(version: &str) -> (r: bool)
    ensures
        r == spec_is_latest_snapshot(version@),
{
    chars_eq_nocase(version, "snapshot") || chars_eq_nocase(version, "latest_snapshot")
        || chars_eq_nocase(version, "latest-snapshot") || chars_eq_nocase(version, "latestsnapshot")
}

/// Alias recognition is case-insensitive: two version strings that are equal
/// up to ASCII case are recognized as exactly the same aliases.
pub proof fn lemma_alias_case_insensitive(a: Seq<char>, b: Seq<char>)
    requires
        lower_chars(a) == lower_chars(b),
    ensures
        spec_is_latest_release(a) == spec_is_latest_release(b),
        spec_is_latest_snapshot(a) == spec_is_latest_snapshot(b),
{
}

} // verus!
