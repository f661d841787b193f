//! The reconcile state machine: drives one resource to convergence. The
//! machine decides; the caller performs. Each decision arrives as an
//! `Action`, each result of outside work comes back as an `Event`. The
//! machine alone chooses phases, status contents and follow-up delays;
//! no lower layer decides scheduling.

use vstd::prelude::*;
use vstd::string::StringExecFns;
use crate::api::{
    EULA, File, MinecraftServerSpec, MinecraftServerStatus, Phase, status_eq,
};
use crate::digest::{DigestKind, TrustLevel};
use crate::fingerprint::{ResolvedSpec, fingerprint, spec_fingerprint};
use crate::resolver::{
    Persistence, ResolutionError, classify_resolution, spec_classify, spec_reduced,
};
use crate::strutil::{clone_opt_string, clone_vec_string, dec_rep, u64_to_string};

verus! {

/// Delay after a pass that found nothing to do: a long periodic re-check to
/// catch upstream artifact changes at pinned but mutable URLs.
pub const DELAY_IDLE_SECS: u64 = 3600;

/// Delay after a successful build, short enough for rapid follow-up edits.
pub const DELAY_READY_SECS: u64 = 120;

/// Delay after a permanent failure; spec edits retrigger sooner through the
/// external watch, not through this delay.
pub const DELAY_FATAL_SECS: u64 = 3600;

/// First retry delay after a transient failure.
pub const BACKOFF_INITIAL_SECS: u64 = 30;

/// Largest retry delay the backoff may reach.
pub const BACKOFF_CAP_SECS: u64 = 3600;

/// The retry delay that follows a transient failure at the given delay:
/// doubled, up to the cap.
pub open spec fn spec_next_backoff(cur: u64) -> u64 {
    if cur >= BACKOFF_CAP_SECS / 2 {
        BACKOFF_CAP_SECS
    } else {
        (cur * 2) as u64
    }
}

/// Doubles a retry delay up to the cap.
pub fn next_backoff(cur: u64) -> (r: u64)
    ensures
        r == spec_next_backoff(cur),
{
    if cur >= BACKOFF_CAP_SECS / 2 {
        BACKOFF_CAP_SECS
    } else {
        cur * 2
    }
}

/// Why the process cannot even attempt reconciliation.
#[derive(Clone, Copy, Debug, PartialEq, Eq, Structural)]
pub enum ConfigError {
    MissingTempDir,
    MissingOutputDir,
}

/// Builder process configuration: a staging area and the published output
/// directory.
#[derive(Debug)]
pub struct BuildContext {
    pub tmp_dir: String,
    pub output_dir: String,
}

impl BuildContext {
    /// Validates the builder configuration. Both directories must already
    /// exist — the caller reports whether each does — and the check comes
    /// before any network activity; a missing one is a configuration error.
    pub fn new(tmp_dir: String, output_dir: String, tmp_exists: bool, output_exists: bool) -> (r:
        Result<BuildContext, ConfigError>)
        ensures
            match r {
                Ok(c) => tmp_exists && output_exists && c.tmp_dir == tmp_dir && c.output_dir
                    == output_dir,
                Err(e) => (e == ConfigError::MissingTempDir && !tmp_exists) || (e
                    == ConfigError::MissingOutputDir && tmp_exists && !output_exists),
            },
    {
        if !tmp_exists {
            Err(ConfigError::MissingTempDir)
        } else if !output_exists {
            Err(ConfigError::MissingOutputDir)
        } else {
            Ok(BuildContext { tmp_dir, output_dir })
        }
    }
}

/// Why a build attempt failed.
#[derive(Clone, Copy, Debug, PartialEq, Eq, Structural)]
pub enum BuildFailure {
    /// A recomputed digest differed from a declared one. Fatal: the artifact
    /// never reaches the published set, and the failure is never downgraded.
    Integrity(DigestKind),
    /// A download could not complete. Transient.
    Unreachable,
}

/// The verdict on a whole build from the per-artifact outcomes, in fetch
/// order: the first failure, or success when every artifact verified.
pub open spec fn spec_build_outcome(results: Seq<Result<TrustLevel, BuildFailure>>) -> Result<
    (),
    BuildFailure,
>
    decreases results.len(),
{
    if results.len() == 0 {
        Ok(())
    } else {
        match results[0] {
            Err(e) => Err(e),
            Ok(_) => spec_build_outcome(results.drop_first()),
        }
    }
}

/// Folds per-artifact outcomes into one build outcome: the first failure
/// fails the whole build, and only a build whose every artifact verified
/// may be published.
pub fn build_outcome(results: &Vec<Result<TrustLevel, BuildFailure>>) -> (r: Result<
    (),
    BuildFailure,
>)
    ensures
        r == spec_build_outcome(results@),
        r is Ok <==> (forall|i: int| 0 <= i < results@.len() ==> results@[i] is Ok),
{
    let n = results.len();
    let mut i: usize = 0;
    proof {
        assert(results@.skip(0) =~= results@);
    }
    while i < n
        invariant
            0 <= i <= n,
            n == results@.len(),
            forall|j: int| 0 <= j < i ==> results@[j] is Ok,
            spec_build_outcome(results@.skip(i as int)) == spec_build_outcome(results@),
        decreases n - i,
    {
        proof {
            assert(results@.skip(i as int)[0] == results@[i as int]);
            assert(results@.skip(i as int).drop_first() =~= results@.skip(i + 1));
        }
        match &results[i] {
            Err(e) => {
                return Err(*e);
            },
            Ok(_) => {},
        }
        i += 1;
    }
    proof {
        assert(results@.skip(n as int) =~= Seq::<Result<TrustLevel, BuildFailure>>::empty());
    }
    Ok(())
}

/// A failed build never publishes: if any artifact reported an integrity
/// failure, the verdict is a failure, so the caller discards staging instead
/// of publishing.
pub proof fn lemma_integrity_blocks_publish(
    results: Seq<Result<TrustLevel, BuildFailure>>,
    i: int,
)
    requires
        0 <= i < results.len(),
        results[i] is Err,
    ensures
        spec_build_outcome(results) is Err,
    decreases results.len(),
{
    if i > 0 {
        match results[0] {
            Err(_) => {},
            Ok(_) => {
                assert(results.drop_first()[i - 1] == results[i]);
                lemma_integrity_blocks_publish(results.drop_first(), i - 1);
            },
        }
    }
}

/// What the caller must do next.
#[derive(Debug)]
pub enum Action {
    /// Resolve every version, mod and datapack reference of the spec to a
    /// concrete reference, and report back.
    Resolve,
    /// Fetch every artifact of this resolved set into a fresh staging
    /// directory, verify every declared digest, publish atomically on full
    /// success, and report back.
    Build { resolved: ResolvedSpec },
    /// Write this status onto the resource with an optimistic-concurrency
    /// write, and report back whether a conflict was hit.
    Report { status: MinecraftServerStatus },
    /// The pass is over; run the next one after this many seconds.
    Requeue { delay_secs: u64 },
}

/// What the outside work reported.
#[derive(Debug)]
pub enum Event {
    /// The resource's spec and current status were loaded.
    SpecLoaded { spec: MinecraftServerSpec, status: MinecraftServerStatus },
    /// Every reference resolved concretely.
    Resolved { resolved: ResolvedSpec },
    /// Resolution failed with a typed error.
    ResolveFailed { error: ResolutionError },
    /// Every artifact was fetched, verified and atomically published.
    Built,
    /// Fetching or verification failed; staging was discarded, nothing was
    /// published.
    BuildFailed { error: BuildFailure },
    /// The status write finished; true means a concurrent writer won and the
    /// caller re-read the resource before retrying.
    StatusWritten { conflict: bool },
}

/// The messages recorded on the resource, one per failure class.
pub open spec fn spec_resolution_message(e: ResolutionError) -> Seq<char> {
    match e {
        ResolutionError::VersionNotFound => "version not found"@,
        ResolutionError::UnsupportedVersion => "unsupported version"@,
        ResolutionError::MalformedRequest => "malformed request"@,
        ResolutionError::Unreachable => "upstream unreachable"@,
    }
}

/// The message recorded for a resolution failure.
pub fn resolution_message(e: ResolutionError) -> (r: String)
    ensures
        r@ == spec_resolution_message(e),
{
    match e {
        ResolutionError::VersionNotFound => String::from_str("version not found"),
        ResolutionError::UnsupportedVersion => String::from_str("unsupported version"),
        ResolutionError::MalformedRequest => String::from_str("malformed request"),
        ResolutionError::Unreachable => String::from_str("upstream unreachable"),
    }
}

/// The messages recorded for build failures.
pub open spec fn spec_build_message(e: BuildFailure) -> Seq<char> {
    match e {
        BuildFailure::Integrity(_) => "artifact digest mismatch"@,
        BuildFailure::Unreachable => "artifact fetch failed"@,
    }
}

/// The message recorded for a build failure.
pub fn build_message(e: BuildFailure) -> (r: String)
    ensures
        r@ == spec_build_message(e),
{
    match e {
        BuildFailure::Integrity(_) => String::from_str("artifact digest mismatch"),
        BuildFailure::Unreachable => String::from_str("artifact fetch failed"),
    }
}

/// The message recorded when the EULA gate refuses a spec.
pub open spec fn spec_eula_message() -> Seq<char> {
    "eula not accepted"@
}

/// The URLs of a list's artifacts that carry no digest at all, in order.
pub open spec fn spec_reduced_urls(fs: Seq<File>) -> Seq<Seq<char>>
    decreases fs.len(),
{
    if fs.len() == 0 {
        Seq::<Seq<char>>::empty()
    } else {
        let front = spec_reduced_urls(fs.drop_last());
        if spec_reduced(fs.last().checksum) {
            front.push(fs.last().url@)
        } else {
            front
        }
    }
}

/// The views of a list of strings.
pub open spec fn strs_views(s: Seq<String>) -> Seq<Seq<char>> {
    s.map_values(|x: String| x@)
}

/// Appending one string appends its view.
proof fn lemma_strs_views_push(s: Seq<String>, x: String)
    ensures
        strs_views(s.push(x)) == strs_views(s).push(x@),
{
    assert(strs_views(s.push(x)) =~= strs_views(s).push(x@));
}

/// The reduced-trust artifacts of a resolved specification: the server
/// artifact if nothing guards it, then every undigested mod, then every
/// undigested datapack.
pub open spec fn spec_reduced_of(r: ResolvedSpec) -> Seq<Seq<char>> {
    (if spec_reduced(r.server.checksum) {
        seq![r.server.url@]
    } else {
        Seq::<Seq<char>>::empty()
    }) + spec_reduced_urls(r.mods@) + spec_reduced_urls(r.datapacks@)
}

/// Collects the undigested URLs of an artifact list.
fn collect_reduced(fs: &Vec<File>, out: &mut Vec<String>)
    ensures
        strs_views(final(out)@) == strs_views(old(out)@) + spec_reduced_urls(fs@),
{
    let n = fs.len();
    let mut i: usize = 0;
    while i < n
        invariant
            0 <= i <= n,
            n == fs@.len(),
            strs_views(out@) == strs_views(old(out)@) + spec_reduced_urls(fs@.take(i as int)),
        decreases n - i,
    {
        proof {
            let t = fs@.take(i + 1);
            assert(t.drop_last() =~= fs@.take(i as int));
            assert(t.last() == fs@[i as int]);
        }
        let reduced = match &fs[i].checksum {
            None => true,
            Some(c) => !(c.md5.is_some() || c.sha1.is_some() || c.sha256.is_some()),
        };
        proof {
            assert(reduced == spec_reduced(fs@[i as int].checksum));
        }
        if reduced {
            let ghost prev = out@;
            out.push(fs[i].url.clone());
            proof {
                lemma_strs_views_push(prev, out@.last());
                assert(out@.last()@ == fs@[i as int].url@);
                assert(spec_reduced_urls(fs@.take(i + 1)) == spec_reduced_urls(
                    fs@.take(i as int),
                ).push(fs@[i as int].url@));
                assert(strs_views(out@) =~= strs_views(old(out)@) + spec_reduced_urls(
                    fs@.take(i + 1),
                ));
            }
        } else {
            proof {
                assert(spec_reduced_urls(fs@.take(i + 1)) == spec_reduced_urls(fs@.take(i as int)));
            }
        }
        i += 1;
    }
    proof {
        assert(fs@.take(n as int) =~= fs@);
    }
}

/// The reconcile state machine for one resource. Long-lived, so the retry
/// backoff survives across passes; at most one pass per resource is in
/// flight at a time, which the external work queue guarantees.
#[derive(Debug)]
pub struct Reconciler {
    pub phase: Phase,
    /// The retry delay the next transient failure will schedule.
    pub backoff_secs: u64,
    /// The delay to request when the current pass ends.
    pub next_delay_secs: u64,
    /// The status as read at the start of the current pass.
    pub prior: Option<MinecraftServerStatus>,
    /// The fingerprint computed from the current pass's resolved spec.
    pub computed: Option<String>,
    /// The Java major version of the current pass's resolved spec.
    pub resolved_java: u64,
    /// The reduced-trust URLs of the current pass's resolved spec.
    pub reduced: Vec<String>,
    /// The status the current pass decided to record.
    pub outcome: Option<MinecraftServerStatus>,
}

/// A status that keeps everything of `prior` but records a failure phase,
/// its message, and the time.
pub open spec fn failure_status(
    s: MinecraftServerStatus,
    prior: MinecraftServerStatus,
    phase: Phase,
    msg: Seq<char>,
    now: u64,
) -> bool {
    &&& s.java_version == prior.java_version
    &&& s.last_fingerprint == prior.last_fingerprint
    &&& s.phase == phase
    &&& (match s.last_error {
        Some(m) => m@ == msg,
        None => false,
    })
    &&& s.last_transition_time == Some(now)
    &&& s.reduced_trust_artifacts@ == prior.reduced_trust_artifacts@
}

/// A status that keeps everything of `prior` beyond the phase, a cleared
/// error and the re-check timestamp.
pub open spec fn idle_status(s: MinecraftServerStatus, prior: MinecraftServerStatus, now: u64) -> bool {
    &&& s.java_version == prior.java_version
    &&& s.last_fingerprint == prior.last_fingerprint
    &&& s.phase == Phase::Idle
    &&& s.last_error is None
    &&& s.last_transition_time == Some(now)
    &&& s.reduced_trust_artifacts@ == prior.reduced_trust_artifacts@
}

/// The status of a successful build: the resolved Java version, the new
/// fingerprint, the audited reduced-trust artifacts, no error.
pub open spec fn ready_status(
    s: MinecraftServerStatus,
    java: u64,
    fp: Seq<char>,
    reduced: Seq<Seq<char>>,
    now: u64,
) -> bool {
    &&& s.java_version@ == dec_rep(java)
    &&& (match s.last_fingerprint {
        Some(f) => f@ == fp,
        None => false,
    })
    &&& s.phase == Phase::Ready
    &&& s.last_error is None
    &&& s.last_transition_time == Some(now)
    &&& strs_views(s.reduced_trust_artifacts@) == reduced
}

/// Whether the machine, in this state, has outside work pending that the
/// event would answer.
pub open spec fn expects(pre: Reconciler, event: Event) -> bool {
    match event {
        Event::SpecLoaded { .. } => true,
        Event::Resolved { .. } => pre.phase == Phase::Resolving && pre.prior is Some,
        Event::ResolveFailed { .. } => pre.phase == Phase::Resolving && pre.prior is Some,
        Event::Built => pre.phase == Phase::Building && pre.prior is Some && pre.computed is Some,
        Event::BuildFailed { .. } => pre.phase == Phase::Building && pre.prior is Some,
        Event::StatusWritten { .. } => pre.outcome is Some,
    }
}

/// The transition relation on loading a spec: the EULA gate decides before
/// anything is resolved or fetched.
pub open spec fn step_spec_loaded(
    pre: Reconciler,
    post: Reconciler,
    desired: MinecraftServerSpec,
    read: MinecraftServerStatus,
    a: Action,
    now: u64,
) -> bool {
    if desired.eula != EULA::Accepted {
        &&& post.phase == Phase::FatalFailure
        &&& post.next_delay_secs == DELAY_FATAL_SECS
        &&& (match post.prior {
            Some(p) => status_eq(p, read),
            None => false,
        })
        &&& (match a {
            Action::Report { status: s } => failure_status(
                s,
                read,
                Phase::FatalFailure,
                spec_eula_message(),
                now,
            ) && (match post.outcome {
                Some(o) => status_eq(o, s),
                None => false,
            }),
            _ => false,
        })
    } else {
        &&& post.phase == Phase::Resolving
        &&& (match post.prior {
            Some(p) => status_eq(p, read),
            None => false,
        })
        &&& post.computed is None
        &&& post.outcome is None
        &&& post.backoff_secs == pre.backoff_secs
        &&& (a matches Action::Resolve)
    }
}

/// The transition relation on a finished resolution: an unchanged
/// fingerprint ends the pass idle, with the status untouched beyond phase,
/// error and timestamp and with nothing fetched; a changed fingerprint
/// starts a build of exactly the resolved set.
pub open spec fn step_resolved(
    pre: Reconciler,
    post: Reconciler,
    resolved: ResolvedSpec,
    a: Action,
    now: u64,
) -> bool {
    match pre.prior {
        None => false,
        Some(p) => {
            let fp = spec_fingerprint(resolved);
            let same = match p.last_fingerprint {
                Some(pf) => pf@ == fp,
                None => false,
            };
            if same {
                &&& post.phase == Phase::Idle
                &&& post.next_delay_secs == DELAY_IDLE_SECS
                &&& post.backoff_secs == BACKOFF_INITIAL_SECS
                &&& (match a {
                    Action::Report { status: s } => idle_status(s, p, now) && (match post.outcome {
                        Some(o) => status_eq(o, s),
                        None => false,
                    }),
                    _ => false,
                })
            } else {
                &&& post.phase == Phase::Building
                &&& (match post.computed {
                    Some(f) => f@ == fp,
                    None => false,
                })
                &&& post.resolved_java == resolved.server.java_major
                &&& strs_views(post.reduced@) == spec_reduced_of(resolved)
                &&& (match post.prior {
                    Some(q) => status_eq(q, p),
                    None => false,
                })
                &&& post.backoff_secs == pre.backoff_secs
                &&& (match a {
                    Action::Build { resolved: r } => r == resolved,
                    _ => false,
                })
            }
        },
    }
}

/// The transition relation on a failed resolution: permanent failures end
/// fatal with a long delay, transient ones retryable with the doubling
/// backoff; either way the failure is recorded over the prior status.
pub open spec fn step_resolve_failed(
    pre: Reconciler,
    post: Reconciler,
    error: ResolutionError,
    a: Action,
    now: u64,
) -> bool {
    match pre.prior {
        None => false,
        Some(p) => {
            let phase = if spec_classify(error) == Persistence::Transient {
                Phase::RetryableFailure
            } else {
                Phase::FatalFailure
            };
            &&& post.phase == phase
            &&& (if spec_classify(error) == Persistence::Transient {
                post.next_delay_secs == pre.backoff_secs && post.backoff_secs == spec_next_backoff(
                    pre.backoff_secs,
                )
            } else {
                post.next_delay_secs == DELAY_FATAL_SECS && post.backoff_secs
                    == BACKOFF_INITIAL_SECS
            })
            &&& (match a {
                Action::Report { status: s } => failure_status(
                    s,
                    p,
                    phase,
                    spec_resolution_message(error),
                    now,
                ) && (match post.outcome {
                    Some(o) => status_eq(o, s),
                    None => false,
                }),
                _ => false,
            })
        },
    }
}

/// The transition relation on a published build: the pass ends ready, the
/// status records the resolved Java version, the new fingerprint and the
/// reduced-trust artifacts, and a short follow-up is scheduled.
pub open spec fn step_built(pre: Reconciler, post: Reconciler, a: Action, now: u64) -> bool {
    match pre.computed {
        None => false,
        Some(f) => {
            &&& post.phase == Phase::Ready
            &&& post.next_delay_secs == DELAY_READY_SECS
            &&& post.backoff_secs == BACKOFF_INITIAL_SECS
            &&& (match a {
                Action::Report { status: s } => ready_status(
                    s,
                    pre.resolved_java,
                    f@,
                    strs_views(pre.reduced@),
                    now,
                ) && (match post.outcome {
                    Some(o) => status_eq(o, s),
                    None => false,
                }),
                _ => false,
            })
        },
    }
}

/// The transition relation on a failed build: an integrity failure is fatal
/// and never downgraded; an unreachable artifact is retried with backoff.
pub open spec fn step_build_failed(
    pre: Reconciler,
    post: Reconciler,
    error: BuildFailure,
    a: Action,
    now: u64,
) -> bool {
    match pre.prior {
        None => false,
        Some(p) => {
            let transient = error == BuildFailure::Unreachable;
            let phase = if transient {
                Phase::RetryableFailure
            } else {
                Phase::FatalFailure
            };
            &&& post.phase == phase
            &&& (if transient {
                post.next_delay_secs == pre.backoff_secs && post.backoff_secs == spec_next_backoff(
                    pre.backoff_secs,
                )
            } else {
                post.next_delay_secs == DELAY_FATAL_SECS && post.backoff_secs
                    == BACKOFF_INITIAL_SECS
            })
            &&& (match a {
                Action::Report { status: s } => failure_status(
                    s,
                    p,
                    phase,
                    spec_build_message(error),
                    now,
                ) && (match post.outcome {
                    Some(o) => status_eq(o, s),
                    None => false,
                }),
                _ => false,
            })
        },
    }
}

/// The transition relation on a finished status write: a conflict means a
/// concurrent writer won, so the same outcome is written again at once over
/// a fresh read, invisibly to scheduling; otherwise the pass ends and the
/// follow-up delay the pass chose is requested.
pub open spec fn step_status_written(
    pre: Reconciler,
    post: Reconciler,
    conflict: bool,
    a: Action,
) -> bool {
    match pre.outcome {
        None => false,
        Some(o) => {
            &&& post == pre
            &&& (if conflict {
                match a {
                    Action::Report { status: s } => status_eq(s, o),
                    _ => false,
                }
            } else {
                a matches Action::Requeue { delay_secs } && delay_secs == pre.next_delay_secs
            })
        },
    }
}

/// The whole transition relation of the machine: what each event does in
/// each state; an event the state does not expect changes nothing and lets
/// the pass requeue.
pub open spec fn step_ok(
    pre: Reconciler,
    post: Reconciler,
    event: Event,
    a: Action,
    now: u64,
) -> bool {
    if !expects(pre, event) {
        post == pre && (a matches Action::Requeue { delay_secs } && delay_secs
            == pre.next_delay_secs)
    } else {
        match event {
            Event::SpecLoaded { spec: desired, status: read } => step_spec_loaded(
                pre,
                post,
                desired,
                read,
                a,
                now,
            ),
            Event::Resolved { resolved } => step_resolved(pre, post, resolved, a, now),
            Event::ResolveFailed { error } => step_resolve_failed(pre, post, error, a, now),
            Event::Built => step_built(pre, post, a, now),
            Event::BuildFailed { error } => step_build_failed(pre, post, error, a, now),
            Event::StatusWritten { conflict } => step_status_written(pre, post, conflict, a),
        }
    }
}

impl Reconciler {
    /// The machine's backoff stays within its documented band.
    pub open spec fn wf(self) -> bool {
        BACKOFF_INITIAL_SECS <= self.backoff_secs <= BACKOFF_CAP_SECS
    }

    /// A fresh machine: about to resolve on first sight of the resource,
    /// with the initial backoff and the idle re-check delay.
    pub fn new() -> (r: Reconciler)
        ensures
            r.wf(),
            r.phase == Phase::Resolving,
            r.backoff_secs == BACKOFF_INITIAL_SECS,
            r.next_delay_secs == DELAY_IDLE_SECS,
            r.prior is None,
            r.computed is None,
            r.outcome is None,
    {
        Reconciler {
            phase: Phase::Resolving,
            backoff_secs: BACKOFF_INITIAL_SECS,
            next_delay_secs: DELAY_IDLE_SECS,
            prior: None,
            computed: None,
            resolved_java: 0,
            reduced: Vec::new(),
            outcome: None,
        }
    }

    /// One decision of the machine: consumes what the outside work reported
    /// and returns what to do next. `now` is the caller's clock in seconds
    /// since the epoch; the library never reads one.
    pub fn step(&mut self, event: Event, now: u64) -> (a: Action)
        requires
            old(self).wf(),
        ensures
            final(self).wf(),
            step_ok(*old(self), *final(self), event, a, now),
    {
        match event {
            Event::SpecLoaded { spec: desired, status: read } => {
                let accepted = match desired.eula {
                    EULA::Accepted => true,
                    EULA::NotAccepted => false,
                };
                if !accepted {
                    let st = MinecraftServerStatus {
                        java_version: read.java_version.clone(),
                        last_fingerprint: clone_opt_string(&read.last_fingerprint),
                        phase: Phase::FatalFailure,
                        last_error: Some(String::from_str("eula not accepted")),
                        last_transition_time: Some(now),
                        reduced_trust_artifacts: clone_vec_string(&read.reduced_trust_artifacts),
                    };
                    self.phase = Phase::FatalFailure;
                    self.next_delay_secs = DELAY_FATAL_SECS;
                    self.prior = Some(read);
                    self.computed = None;
                    self.outcome = Some(st.clone());
                    Action::Report { status: st }
                } else {
                    self.phase = Phase::Resolving;
                    self.prior = Some(read);
                    self.computed = None;
                    self.outcome = None;
                    Action::Resolve
                }
            },
            Event::Resolved { resolved } => {
                let expected = match self.phase {
                    Phase::Resolving => self.prior.is_some(),
                    _ => false,
                };
                if !expected {
                    return Action::Requeue { delay_secs: self.next_delay_secs };
                }
                let fp = fingerprint(&resolved);
                let same = match self.prior.as_ref().unwrap().last_fingerprint.as_ref() {
                    Some(pf) => crate::strutil::str_eq(pf.as_str(), fp.as_str()),
                    None => false,
                };
                if same {
                    let p = self.prior.as_ref().unwrap();
                    let st = MinecraftServerStatus {
                        java_version: p.java_version.clone(),
                        last_fingerprint: clone_opt_string(&p.last_fingerprint),
                        phase: Phase::Idle,
                        last_error: None,
                        last_transition_time: Some(now),
                        reduced_trust_artifacts: clone_vec_string(&p.reduced_trust_artifacts),
                    };
                    self.phase = Phase::Idle;
                    self.next_delay_secs = DELAY_IDLE_SECS;
                    self.backoff_secs = BACKOFF_INITIAL_SECS;
                    self.computed = Some(fp);
                    self.outcome = Some(st.clone());
                    Action::Report { status: st }
                } else {
                    self.phase = Phase::Building;
                    self.computed = Some(fp);
                    self.resolved_java = resolved.server.java_major;
                    self.reduced = reduced_of(&resolved);
                    Action::Build { resolved }
                }
            },
            Event::ResolveFailed { error } => {
                let expected = match self.phase {
                    Phase::Resolving => self.prior.is_some(),
                    _ => false,
                };
                if !expected {
                    return Action::Requeue { delay_secs: self.next_delay_secs };
                }
                let transient = match classify_resolution(error) {
                    Persistence::Transient => true,
                    Persistence::Permanent => false,
                };
                let phase = if transient {
                    Phase::RetryableFailure
                } else {
                    Phase::FatalFailure
                };
                if transient {
                    self.next_delay_secs = self.backoff_secs;
                    self.backoff_secs = next_backoff(self.backoff_secs);
                } else {
                    self.next_delay_secs = DELAY_FATAL_SECS;
                    self.backoff_secs = BACKOFF_INITIAL_SECS;
                }
                self.phase = phase;
                let p = self.prior.as_ref().unwrap();
                let st = MinecraftServerStatus {
                    java_version: p.java_version.clone(),
                    last_fingerprint: clone_opt_string(&p.last_fingerprint),
                    phase,
                    last_error: Some(resolution_message(error)),
                    last_transition_time: Some(now),
                    reduced_trust_artifacts: clone_vec_string(&p.reduced_trust_artifacts),
                };
                self.outcome = Some(st.clone());
                Action::Report { status: st }
            },
            Event::Built => {
                let expected = match self.phase {
                    Phase::Building => self.prior.is_some() && self.computed.is_some(),
                    _ => false,
                };
                if !expected {
                    return Action::Requeue { delay_secs: self.next_delay_secs };
                }
                let f = self.computed.as_ref().unwrap();
                let st = MinecraftServerStatus {
                    java_version: u64_to_string(self.resolved_java),
                    last_fingerprint: Some(f.clone()),
                    phase: Phase::Ready,
                    last_error: None,
                    last_transition_time: Some(now),
                    reduced_trust_artifacts: clone_vec_string(&self.reduced),
                };
                self.phase = Phase::Ready;
                self.next_delay_secs = DELAY_READY_SECS;
                self.backoff_secs = BACKOFF_INITIAL_SECS;
                self.outcome = Some(st.clone());
                Action::Report { status: st }
            },
            Event::BuildFailed { error } => {
                let expected = match self.phase {
                    Phase::Building => self.prior.is_some(),
                    _ => false,
                };
                if !expected {
                    return Action::Requeue { delay_secs: self.next_delay_secs };
                }
                let transient = match error {
                    BuildFailure::Unreachable => true,
                    BuildFailure::Integrity(_) => false,
                };
                let phase = if transient {
                    Phase::RetryableFailure
                } else {
                    Phase::FatalFailure
                };
                if transient {
                    self.next_delay_secs = self.backoff_secs;
                    self.backoff_secs = next_backoff(self.backoff_secs);
                } else {
                    self.next_delay_secs = DELAY_FATAL_SECS;
                    self.backoff_secs = BACKOFF_INITIAL_SECS;
                }
                self.phase = phase;
                let p = self.prior.as_ref().unwrap();
                let st = MinecraftServerStatus {
                    java_version: p.java_version.clone(),
                    last_fingerprint: clone_opt_string(&p.last_fingerprint),
                    phase,
                    last_error: Some(build_message(error)),
                    last_transition_time: Some(now),
                    reduced_trust_artifacts: clone_vec_string(&p.reduced_trust_artifacts),
                };
                self.outcome = Some(st.clone());
                Action::Report { status: st }
            },
            Event::StatusWritten { conflict } => {
                if self.outcome.is_none() {
                    return Action::Requeue { delay_secs: self.next_delay_secs };
                }
                if conflict {
                    Action::Report { status: self.outcome.as_ref().unwrap().clone() }
                } else {
                    Action::Requeue { delay_secs: self.next_delay_secs }
                }
            },
        }
    }
}

/// The EULA gate: a spec whose EULA is not accepted makes the pass write a
/// fatal status — under any other field values — and the step neither
/// resolves nor fetches anything.
pub proof fn lemma_eula_gate(
    pre: Reconciler,
    post: Reconciler,
    desired: MinecraftServerSpec,
    read: MinecraftServerStatus,
    a: Action,
    now: u64,
)
    requires
        step_ok(pre, post, Event::SpecLoaded { spec: desired, status: read }, a, now),
        desired.eula != EULA::Accepted,
    ensures
        post.phase == Phase::FatalFailure,
        match a {
            Action::Report { status: s } => failure_status(
                s,
                read,
                Phase::FatalFailure,
                spec_eula_message(),
                now,
            ),
            _ => false,
        },
{
}

/// Once the EULA check has tripped, no later event of the pass makes the machine
/// resolve or fetch: only the fatal report and its requeue can follow until
/// a new spec is loaded.
pub proof fn lemma_gate_holds(pre: Reconciler, post: Reconciler, event: Event, a: Action, now: u64)
    requires
        step_ok(pre, post, event, a, now),
        pre.phase == Phase::FatalFailure,
        !(event matches Event::SpecLoaded { .. }),
    ensures
        !(a matches Action::Resolve),
        !(a matches Action::Build { .. }),
{
}

/// Idempotence: when the resolved spec fingerprints to exactly what status
/// already records, the pass builds nothing — no artifact fetch is even
/// requested — and the status it writes is untouched beyond the phase, a
/// cleared error and the re-check timestamp.
pub proof fn lemma_idempotent_pass(
    pre: Reconciler,
    post: Reconciler,
    resolved: ResolvedSpec,
    a: Action,
    now: u64,
)
    requires
        step_ok(pre, post, Event::Resolved { resolved }, a, now),
        pre.phase == Phase::Resolving,
        match pre.prior {
            Some(p) => match p.last_fingerprint {
                Some(pf) => pf@ == spec_fingerprint(resolved),
                None => false,
            },
            None => false,
        },
    ensures
        post.phase == Phase::Idle,
        !(a matches Action::Build { .. }),
        match (a, pre.prior) {
            (Action::Report { status: s }, Some(p)) => idle_status(s, p, now),
            _ => false,
        },
{
}

/// The reduced-trust artifact URLs of a resolved specification.
fn reduced_of(r: &ResolvedSpec) -> (out: Vec<String>)
    ensures
        strs_views(out@) == spec_reduced_of(*r),
{
    let mut out: Vec<String> = Vec::new();
    let server_reduced = match &r.server.checksum {
        None => true,
        Some(c) => !(c.md5.is_some() || c.sha1.is_some() || c.sha256.is_some()),
    };
    if server_reduced {
        out.push(r.server.url.clone());
    }
    proof {
        if spec_reduced(r.server.checksum) {
            assert(strs_views(out@) =~= seq![r.server.url@]);
        } else {
            assert(strs_views(out@) =~= Seq::<Seq<char>>::empty());
        }
    }
    collect_reduced(&r.mods, &mut out);
    collect_reduced(&r.datapacks, &mut out);
    proof {
        assert(strs_views(out@) =~= spec_reduced_of(*r));
    }
    out
}

} // verus!
