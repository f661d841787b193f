//! Version resolution: from an abstract version request (flavor plus version
//! string or alias) to a concrete, addressable artifact reference. All
//! documents and build lists arrive as values; fetching them is the caller's
//! work.

use vstd::prelude::*;
use vstd::string::StringExecFns;
use crate::api::{Checksum, File, ForgeVersion, Mod, PaperVersion, clone_opt_checksum};
use crate::client::Client;
use crate::manifest::{
    VersionManifest, Version, spec_find_exact, spec_is_latest_release, spec_is_latest_snapshot,
    is_latest_release, is_latest_snapshot, eq_nocase,
};
use crate::strutil::{chars_eq_nocase, dec_rep, spec_parse_u64, parse_u64, u64_to_string};

verus! {

/// A typed resolution failure.
#[derive(Clone, Copy, Debug, PartialEq, Eq, Structural)]
pub enum ResolutionError {
    /// An exact version id the manifest does not contain. Permanent.
    VersionNotFound,
    /// A flavor/version combination the upstream source cannot serve.
    /// Permanent.
    UnsupportedVersion,
    /// A request malformed in itself, before any lookup. Permanent.
    MalformedRequest,
    /// The upstream manifest or API could not be reached. Transient.
    Unreachable,
}

/// Whether a failure can heal on retry without a spec change.
#[derive(Clone, Copy, Debug, PartialEq, Eq, Structural)]
pub enum Persistence {
    Permanent,
    Transient,
}

/// The classification of each resolution failure: only unreachability is
/// transient; everything else stays wrong until the spec changes.
pub open spec fn spec_classify(e: ResolutionError) -> Persistence {
    match e {
        ResolutionError::Unreachable => Persistence::Transient,
        _ => Persistence::Permanent,
    }
}

/// Classifies a resolution failure for the retry policy.
pub fn classify_resolution(e: ResolutionError) -> (r: Persistence)
    ensures
        r == spec_classify(e),
{
    match e {
        ResolutionError::Unreachable => Persistence::Transient,
        _ => Persistence::Permanent,
    }
}

/// Concrete outcome of version resolution: where the server artifact lives,
/// the digests that guard it, and the Java major version it needs.
/// Recomputed every pass; persisted only through the fingerprint.
#[derive(Debug, PartialEq, Eq)]
pub struct ResolvedVersion {
    pub url: String,
    pub checksum: Option<Checksum>,
    pub java_major: u64,
    /// True when no digest guards the artifact, so it is taken on first use;
    /// recorded in status so operators can audit it.
    pub reduced_trust: bool,
}

impl Clone for ResolvedVersion {
    fn clone(&self) -> (r: Self)
        ensures
            r == *self,
    {
        ResolvedVersion {
            url: self.url.clone(),
            checksum: clone_opt_checksum(&self.checksum),
            java_major: self.java_major,
            reduced_trust: self.reduced_trust,
        }
    }
}

/// Whether a digest set leaves an artifact without any declared digest.
pub open spec fn spec_reduced(checksum: Option<Checksum>) -> bool {
    match checksum {
        None => true,
        Some(c) => !c.has_any(),
    }
}

/// The Java major version assumed for flavors whose upstream source names
/// none; the spec's own `java` field overrides it.
pub const DEFAULT_JAVA_MAJOR: u64 = 8;

/// The manifest entry a vanilla version request names: an alias goes to the
/// matching `latest` pointer, anything else is an exact-id lookup.
pub open spec fn spec_resolve_request(m: VersionManifest, requested: Seq<char>) -> Option<Version> {
    if spec_is_latest_release(requested) {
        spec_find_exact(m.versions@, m.latest.release@)
    } else if spec_is_latest_snapshot(requested) {
        spec_find_exact(m.versions@, m.latest.snapshot@)
    } else {
        spec_find_exact(m.versions@, requested)
    }
}

/// Resolves a vanilla version request against the manifest; a miss on the
/// resulting id is a permanent failure.
pub fn resolve_vanilla(m: &VersionManifest, requested: &str) -> (r: Result<
    Version,
    ResolutionError,
>)
    ensures
        match r {
            Ok(v) => spec_resolve_request(*m, requested@) == Some(v),
            Err(e) => spec_resolve_request(*m, requested@) is None
                && e == ResolutionError::VersionNotFound,
        },
{
    let hit = if is_latest_release(requested) {
        m.latest_release()
    } else if is_latest_snapshot(requested) {
        m.latest_snapshot()
    } else {
        m.find_exact(requested)
    };
    match hit {
        Some(v) => Ok(v),
        None => Err(ResolutionError::VersionNotFound),
    }
}

/// Extracts the server artifact from a per-version metadata document: its
/// URL, its SHA-1 digest, and the required Java major version (the legacy
/// default when the document names none). A document without a server
/// download cannot serve this flavor.
pub fn resolved_from_client(c: &Client) -> (r: Result<ResolvedVersion, ResolutionError>)
    ensures
        match r {
            Ok(v) => match c.downloads.server {
                Some(d) => {
                    &&& v.url == d.url
                    &&& v.checksum == (Some(
                        Checksum { md5: None, sha1: Some(d.sha1), sha256: None },
                    ))
                    &&& v.java_major == (match c.java_version {
                        Some(j) => j.major_version,
                        None => DEFAULT_JAVA_MAJOR,
                    })
                    &&& !v.reduced_trust
                },
                None => false,
            },
            Err(e) => c.downloads.server is None && e == ResolutionError::UnsupportedVersion,
        },
{
    match &c.downloads.server {
        Some(d) => {
            let java_major = match &c.java_version {
                Some(j) => j.major_version,
                None => DEFAULT_JAVA_MAJOR,
            };
            Ok(ResolvedVersion {
                url: d.url.clone(),
                checksum: Some(
                    Checksum { md5: None, sha1: Some(d.sha1.clone()), sha256: None },
                ),
                java_major,
                reduced_trust: false,
            })
        },
        None => Err(ResolutionError::UnsupportedVersion),
    }
}

/// The greatest element of a non-empty build list.
pub open spec fn spec_max_build(s: Seq<u64>) -> u64
    recommends
        s.len() > 0,
    decreases s.len(),
{
    if s.len() <= 1 {
        s[0]
    } else {
        let m = spec_max_build(s.drop_last());
        if s.last() > m {
            s.last()
        } else {
            m
        }
    }
}

/// The highest build number offered, if any.
fn max_build(builds: &Vec<u64>) -> (r: Option<u64>)
    ensures
        match r {
            Some(m) => builds@.len() > 0 && m == spec_max_build(builds@),
            None => builds@.len() == 0,
        },
{
    let n = builds.len();
    if n == 0 {
        return None;
    }
    let mut m = builds[0];
    let mut i: usize = 1;
    while i < n
        invariant
            1 <= i <= n,
            n == builds@.len(),
            m == spec_max_build(builds@.take(i as int)),
        decreases n - i,
    {
        let b = builds[i];
        proof {
            let t = builds@.take(i + 1);
            assert(t.drop_last() =~= builds@.take(i as int));
            assert(t.last() == builds@[i as int]);
        }
        if b > m {
            m = b;
        }
        i += 1;
    }
    proof {
        assert(builds@.take(n as int) =~= builds@);
    }
    Some(m)
}

/// Whether a build list offers a given build.
fn contains_build(builds: &Vec<u64>, b: u64) -> (r: bool)
    ensures
        r == builds@.contains(b),
{
    let n = builds.len();
    let mut i: usize = 0;
    while i < n
        invariant
            0 <= i <= n,
            n == builds@.len(),
            forall|j: int| 0 <= j < i ==> builds@[j] != b,
        decreases n - i,
    {
        if builds[i] == b {
            return true;
        }
        i += 1;
    }
    false
}

/// The build a Paper request selects from the list the Paper API offers:
/// "latest" (compared without regard to ASCII case) takes the highest build,
/// a numeric id must be offered; anything else the API cannot serve.
pub open spec fn spec_paper_build(requested: Seq<char>, builds: Seq<u64>) -> Result<
    u64,
    ResolutionError,
> {
    if eq_nocase(requested, "latest"@) {
        if builds.len() == 0 {
            Err(ResolutionError::UnsupportedVersion)
        } else {
            Ok(spec_max_build(builds))
        }
    } else {
        match spec_parse_u64(requested) {
            Some(b) => if builds.contains(b) {
                Ok(b)
            } else {
                Err(ResolutionError::UnsupportedVersion)
            },
            None => Err(ResolutionError::UnsupportedVersion),
        }
    }
}

/// The jar URL the Paper download service serves for a version and build.
pub open spec fn paper_jar_url(mc: Seq<char>, build: u64) -> Seq<char> {
    "https://api.papermc.io/v2/projects/paper/versions/"@ + mc + "/builds/"@ + dec_rep(build)
        + "/downloads/paper-"@ + mc + "-"@ + dec_rep(build) + ".jar"@
}

/// Resolves a Paper request to a concrete jar URL against the build list the
/// Paper API offers for the game version; an unknown or non-numeric build is
/// a permanent failure. The API publishes no digest here, so the artifact is
/// reduced-trust.
pub fn resolve_paper(mc: &str, p: &PaperVersion, builds: &Vec<u64>) -> (r: Result<
    ResolvedVersion,
    ResolutionError,
>)
    ensures
        match r {
            Ok(v) => match spec_paper_build(p.build@, builds@) {
                Ok(b) => {
                    &&& v.url@ == paper_jar_url(mc@, b)
                    &&& v.checksum is None
                    &&& v.java_major == DEFAULT_JAVA_MAJOR
                    &&& v.reduced_trust
                },
                Err(_) => false,
            },
            Err(e) => spec_paper_build(p.build@, builds@) == Err::<u64, ResolutionError>(e),
        },
{
    let chosen: u64 = if chars_eq_nocase(p.build.as_str(), "latest") {
        match max_build(builds) {
            Some(m) => m,
            None => {
                return Err(ResolutionError::UnsupportedVersion);
            },
        }
    } else {
        match parse_u64(p.build.as_str()) {
            Some(b) => {
                if contains_build(builds, b) {
                    b
                } else {
                    return Err(ResolutionError::UnsupportedVersion);
                }
            },
            None => {
                return Err(ResolutionError::UnsupportedVersion);
            },
        }
    };
    let bs = u64_to_string(chosen);
    let mut url = String::from_str("https://api.papermc.io/v2/projects/paper/versions/");
    url.append(mc);
    url.append("/builds/");
    url.append(bs.as_str());
    url.append("/downloads/paper-");
    url.append(mc);
    url.append("-");
    url.append(bs.as_str());
    url.append(".jar");
    Ok(ResolvedVersion { url, checksum: None, java_major: DEFAULT_JAVA_MAJOR, reduced_trust: true })
}

/// The installer URL the Forge maven repository serves for a game version
/// and forge version pair.
pub open spec fn forge_installer_url(mc: Seq<char>, forge: Seq<char>) -> Seq<char> {
    "https://maven.minecraftforge.net/net/minecraftforge/forge/"@ + mc + "-"@ + forge + "/forge-"@
        + mc + "-"@ + forge + "-installer.jar"@
}

/// Resolves a Forge request: the installer URL is a pure function of the
/// version pair. A digest is carried only if the spec supplied one; its
/// absence makes the installer a reduced-trust artifact, never a failure.
pub fn resolve_forge(mc: &str, f: &ForgeVersion) -> (r: ResolvedVersion)
    ensures
        r.url@ == forge_installer_url(mc@, f.version@),
        r.checksum == f.installer_checksum,
        r.java_major == DEFAULT_JAVA_MAJOR,
        r.reduced_trust == spec_reduced(f.installer_checksum),
{
    let mut url = String::from_str("https://maven.minecraftforge.net/net/minecraftforge/forge/");
    url.append(mc);
    url.append("-");
    url.append(f.version.as_str());
    url.append("/forge-");
    url.append(mc);
    url.append("-");
    url.append(f.version.as_str());
    url.append("-installer.jar");
    let reduced = match &f.installer_checksum {
        None => true,
        Some(c) => !(c.md5.is_some() || c.sha1.is_some() || c.sha256.is_some()),
    };
    ResolvedVersion {
        url,
        checksum: clone_opt_checksum(&f.installer_checksum),
        java_major: DEFAULT_JAVA_MAJOR,
        reduced_trust: reduced,
    }
}

/// The artifacts of a mod reference list, in order: every reference must
/// carry a file; one without is malformed.
pub open spec fn spec_mod_files(ms: Seq<Mod>) -> Result<Seq<File>, ResolutionError>
    decreases ms.len(),
{
    if ms.len() == 0 {
        Ok(Seq::<File>::empty())
    } else {
        match spec_mod_files(ms.drop_last()) {
            Err(e) => Err(e),
            Ok(fs) => match ms.last().file {
                Some(f) => Ok(fs.push(f)),
                None => Err(ResolutionError::MalformedRequest),
            },
        }
    }
}

/// The only failure mod resolution can produce is a malformed reference.
proof fn lemma_mod_files_err_malformed(ms: Seq<Mod>)
    ensures
        spec_mod_files(ms) is Err ==> spec_mod_files(ms) == Err::<Seq<File>, ResolutionError>(
            ResolutionError::MalformedRequest,
        ),
    decreases ms.len(),
{
    if ms.len() > 0 {
        lemma_mod_files_err_malformed(ms.drop_last());
    }
}

/// Resolves every mod reference to its artifact, in order. A reference
/// without a file fails the whole resolution as malformed; whether a
/// reference is a single mod or a modpack arrives as explicit data and is
/// never inferred here.
pub fn resolve_mods(ms: &Vec<Mod>) -> (r: Result<Vec<File>, ResolutionError>)
    ensures
        match r {
            Ok(fs) => spec_mod_files(ms@) == Ok::<Seq<File>, ResolutionError>(fs@),
            Err(e) => spec_mod_files(ms@) == Err::<Seq<File>, ResolutionError>(e),
        },
{
    let n = ms.len();
    let mut out: Vec<File> = Vec::new();
    let mut i: usize = 0;
    while i < n
        invariant
            0 <= i <= n,
            n == ms@.len(),
            spec_mod_files(ms@.take(i as int)) == Ok::<Seq<File>, ResolutionError>(out@),
        decreases n - i,
    {
        proof {
            let t = ms@.take(i + 1);
            assert(t.drop_last() =~= ms@.take(i as int));
            assert(t.last() == ms@[i as int]);
        }
        match &ms[i].file {
            Some(f) => {
                out.push(f.clone());
            },
            None => {
                proof {
                    lemma_mod_files_tail_err(ms@, i as int);
                }
                return Err(ResolutionError::MalformedRequest);
            },
        }
        i += 1;
    }
    proof {
        assert(ms@.take(n as int) =~= ms@);
    }
    Ok(out)
}

/// A reference without a file anywhere in the list makes the whole
/// resolution malformed.
proof fn lemma_mod_files_tail_err(ms: Seq<Mod>, i: int)
    requires
        0 <= i < ms.len(),
        ms[i].file is None,
    ensures
        spec_mod_files(ms) == Err::<Seq<File>, ResolutionError>(ResolutionError::MalformedRequest),
    decreases ms.len(),
{
    if i == ms.len() - 1 {
        lemma_mod_files_err_malformed(ms.drop_last());
    } else {
        assert(ms.drop_last()[i] == ms[i]);
        lemma_mod_files_tail_err(ms.drop_last(), i);
    }
}

/// No version string is an alias for both the latest release and the latest
/// snapshot: the accepted spellings of the two are disjoint even without
/// regard to ASCII case.
pub proof fn lemma_alias_kinds_disjoint(s: Seq<char>)
    ensures
        !(spec_is_latest_release(s) && spec_is_latest_snapshot(s)),
{
    if spec_is_latest_release(s) && spec_is_latest_snapshot(s) {
        reveal_strlit("latest");
        reveal_strlit("release");
        reveal_strlit("latest_release");
        reveal_strlit("latest-release");
        reveal_strlit("latestrelease");
        reveal_strlit("snapshot");
        reveal_strlit("latest_snapshot");
        reveal_strlit("latest-snapshot");
        reveal_strlit("latestsnapshot");
        assert(crate::strutil::lower_chars("latest"@).len() == 6);
        assert(crate::strutil::lower_chars("release"@).len() == 7);
        assert(crate::strutil::lower_chars("latest_release"@).len() == 14);
        assert(crate::strutil::lower_chars("latest-release"@).len() == 14);
        assert(crate::strutil::lower_chars("latestrelease"@).len() == 13);
        assert(crate::strutil::lower_chars("snapshot"@).len() == 8);
        assert(crate::strutil::lower_chars("latest_snapshot"@).len() == 15);
        assert(crate::strutil::lower_chars("latest-snapshot"@).len() == 15);
        assert(crate::strutil::lower_chars("latestsnapshot"@).len() == 14);
        assert(crate::strutil::lower_chars("latest_release"@)[6] == '_');
        assert(crate::strutil::lower_chars("latest-release"@)[6] == '-');
        assert(crate::strutil::lower_chars("latestsnapshot"@)[6] == 's');
    }
}

/// Alias resolution is equivalent across all accepted spellings: any two
/// spellings of "latest release", and any two of "latest snapshot", resolve
/// to the same manifest entry.
pub proof fn lemma_alias_spellings_equivalent(m: VersionManifest, a: Seq<char>, b: Seq<char>)
    requires
        (spec_is_latest_release(a) && spec_is_latest_release(b)) || (spec_is_latest_snapshot(a)
            && spec_is_latest_snapshot(b)),
    ensures
        spec_resolve_request(m, a) == spec_resolve_request(m, b),
{
    lemma_alias_kinds_disjoint(a);
    lemma_alias_kinds_disjoint(b);
}

/// The Java major version a spec requests: an explicit override wins over
/// what resolution found; a non-numeric override is malformed.
pub fn java_major_for(overridden: &Option<String>, resolved: u64) -> (r: Result<
    u64,
    ResolutionError,
>)
    ensures
        match *overridden {
            None => r == Ok::<u64, ResolutionError>(resolved),
            Some(s) => match spec_parse_u64(s@) {
                Some(v) => r == Ok::<u64, ResolutionError>(v),
                None => r == Err::<u64, ResolutionError>(ResolutionError::MalformedRequest),
            },
        },
{
    match overridden {
        None => Ok(resolved),
        Some(s) => match parse_u64(s.as_str()) {
            Some(v) => Ok(v),
            None => Err(ResolutionError::MalformedRequest),
        },
    }
}

} // verus!
