//! Data model of the cluster resource: the desired-state specification and
//! the persisted status. Values of outside origin (timestamps, URLs, the
//! service template) are held as plain strings; the layers that talk to the
//! cluster convert at the boundary.

use vstd::prelude::*;
use crate::strutil::{clone_opt_string, clone_vec_string};

verus! {

/// Whether the operator of the resource has accepted the game's EULA.
/// No artifact may be fetched before this is `Accepted`.
#[derive(Clone, Copy, Debug, PartialEq, Eq, Structural)]
pub enum EULA {
    NotAccepted,
    Accepted,
}

#[derive(Clone, Copy, Debug, PartialEq, Eq, Structural)]
pub enum GameMode {
    Survival,
    Creative,
}

#[derive(Clone, Copy, Debug, PartialEq, Eq, Structural)]
pub enum AccessMode {
    AllowListOnly,
    Public,
}

/// Server implementation family.
#[derive(Clone, Copy, Debug, PartialEq, Eq, Structural)]
pub enum ServerType {
    Vanilla,
    Paper,
    Forge,
}

#[derive(Clone, Debug, PartialEq, Eq)]
pub struct GameSpec {
    pub game_mode: GameMode,
}

/// Service exposure template. The control loop carries it through to the
/// deployment layer unchanged and never reads it; only the service object's
/// name is modeled here, the rest of the template is owned by that layer.
#[derive(Clone, Debug, PartialEq, Eq)]
pub struct ServiceTemplateSpec {
    pub metadata_name: Option<String>,
}

/// A fetchable unit: a source URL and an optional digest set.
#[derive(Debug, PartialEq, Eq)]
pub struct File {
    pub url: String,
    pub checksum: Option<Checksum>,
}

impl Clone for File {
    fn clone(&self) -> (r: Self)
        ensures
            r == *self,
    {
        File { url: self.url.clone(), checksum: clone_opt_checksum(&self.checksum) }
    }
}

/// A copy of an optional digest set, equal to the original.
pub fn clone_opt_checksum(o: &Option<Checksum>) -> (r: Option<Checksum>)
    ensures
        r == *o,
{
    match o {
        None => None,
        Some(c) => Some(c.clone()),
    }
}

/// A mod reference: a direct artifact. Whether it is a single mod or a
/// modpack is given by an explicit discriminant at resolution time, never
/// inferred from the reference itself.
#[derive(Clone, Debug, PartialEq, Eq)]
pub struct Mod {
    pub file: Option<File>,
}

/// A datapack request: either a direct artifact or an ordered selection of
/// generator (category, name) pairs. Exactly one of the two forms must be
/// present; anything else is a malformed request.
#[derive(Clone, Debug, PartialEq, Eq)]
pub struct Datapack {
    pub vanilla_tweaks: Option<Vec<VanillaTweak>>,
    pub file: Option<File>,
}

/// One (category, name) selection against the datapack generator service.
#[derive(Debug, PartialEq, Eq)]
pub struct VanillaTweak {
    pub category: String,
    pub name: String,
}

impl Clone for VanillaTweak {
    fn clone(&self) -> (r: Self)
        ensures
            r == *self,
    {
        VanillaTweak { category: self.category.clone(), name: self.name.clone() }
    }
}

#[derive(Clone, Debug, PartialEq, Eq)]
pub struct WorldSpec {
    pub seed: Option<String>,
    pub claim_name: String,
}

#[derive(Clone, Debug, PartialEq, Eq)]
pub struct PlayersSpec {
    pub maximum_online_players: Option<u32>,
    pub access_mode: AccessMode,
    pub allow_list: Vec<Player>,
    pub operator_list: Vec<Player>,
}

#[derive(Clone, Debug, PartialEq, Eq)]
pub struct Player {
    pub name: Option<String>,
    pub uuid: Option<String>,
}

/// The version descriptor: a base game version (or alias), an optional Java
/// major-version override, and flavor-specific parts.
#[derive(Clone, Debug, PartialEq, Eq)]
pub struct MinecraftVersion {
    pub minecraft: String,
    pub java: Option<String>,
    pub forge: Option<ForgeVersion>,
    pub paper: Option<PaperVersion>,
}

#[derive(Clone, Debug, PartialEq, Eq)]
pub struct PaperVersion {
    pub build: String,
}

#[derive(Clone, Debug, PartialEq, Eq)]
pub struct ForgeVersion {
    pub version: String,
    /// Upstream publishes no digest for installers, so the resource may
    /// supply one; when absent the installer is a reduced-trust artifact.
    pub installer_checksum: Option<Checksum>,
}

/// The zero-or-more digests optionally attached to an artifact reference,
/// each a hexadecimal string.
#[derive(Debug, PartialEq, Eq)]
pub struct Checksum {
    pub md5: Option<String>,
    pub sha1: Option<String>,
    pub sha256: Option<String>,
}

impl Checksum {
    /// Whether any digest at all is declared.
    pub open spec fn has_any(self) -> bool {
        self.md5 is Some || self.sha1 is Some || self.sha256 is Some
    }
}

impl Clone for Checksum {
    fn clone(&self) -> (r: Self)
        ensures
            r == *self,
    {
        Checksum {
            md5: clone_opt_string(&self.md5),
            sha1: clone_opt_string(&self.sha1),
            sha256: clone_opt_string(&self.sha256),
        }
    }
}

/// Desired state of one server resource. Read-only to the control loop.
#[derive(Clone, Debug, PartialEq, Eq)]
pub struct MinecraftServerSpec {
    pub eula: EULA,
    pub version: MinecraftVersion,
    pub server_type: ServerType,
    pub game: GameSpec,
    pub motd: Option<String>,
    pub players: PlayersSpec,
    pub world: WorldSpec,
    pub service_template: ServiceTemplateSpec,
    pub datapacks: Vec<Datapack>,
    pub mods: Vec<Mod>,
}

/// Phase of the reconcile state machine recorded on the resource.
#[derive(Clone, Copy, Debug, PartialEq, Eq, Structural)]
pub enum Phase {
    Idle,
    Resolving,
    Building,
    Ready,
    RetryableFailure,
    FatalFailure,
}

/// Persisted outcome of the latest reconcile attempt. Mutated only by the
/// status reporter; read at the start of each pass.
#[derive(Debug, PartialEq, Eq)]
pub struct MinecraftServerStatus {
    /// Major version of the Java runtime the resolved server requires.
    pub java_version: String,
    /// Fingerprint of the last successfully built resolved specification.
    pub last_fingerprint: Option<String>,
    pub phase: Phase,
    pub last_error: Option<String>,
    /// Seconds since the epoch of the last phase transition, supplied by the
    /// caller; the library never reads a clock.
    pub last_transition_time: Option<u64>,
    /// URLs of artifacts that were accepted without any declared digest, so
    /// that operators can audit them.
    pub reduced_trust_artifacts: Vec<String>,
}

/// Equality of two statuses, the artifact list compared by contents.
pub open spec fn status_eq(a: MinecraftServerStatus, b: MinecraftServerStatus) -> bool {
    &&& a.java_version == b.java_version
    &&& a.last_fingerprint == b.last_fingerprint
    &&& a.phase == b.phase
    &&& a.last_error == b.last_error
    &&& a.last_transition_time == b.last_transition_time
    &&& a.reduced_trust_artifacts@ == b.reduced_trust_artifacts@
}

/// Equality of two statuses in everything but the transition timestamp.
pub open spec fn status_eq_except_time(a: MinecraftServerStatus, b: MinecraftServerStatus) -> bool {
    &&& a.java_version == b.java_version
    &&& a.last_fingerprint == b.last_fingerprint
    &&& a.phase == b.phase
    &&& a.last_error == b.last_error
    &&& a.reduced_trust_artifacts@ == b.reduced_trust_artifacts@
}

impl Clone for MinecraftServerStatus {
    fn clone(&self) -> (r: Self)
        ensures
            status_eq(r, *self),
    {
        MinecraftServerStatus {
            java_version: self.java_version.clone(),
            last_fingerprint: clone_opt_string(&self.last_fingerprint),
            phase: self.phase,
            last_error: clone_opt_string(&self.last_error),
            last_transition_time: self.last_transition_time,
            reduced_trust_artifacts: clone_vec_string(&self.reduced_trust_artifacts),
        }
    }
}

} // verus!
