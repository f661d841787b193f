use minecraft_operator_core::api::{
    AccessMode, Checksum, EULA, File, GameMode, GameSpec, MinecraftServerSpec,
    MinecraftServerStatus, MinecraftVersion, Phase, PlayersSpec, ServerType, ServiceTemplateSpec,
    WorldSpec,
};
use minecraft_operator_core::digest::{DigestKind, TrustLevel};
use minecraft_operator_core::fingerprint::{ResolvedSpec, fingerprint};
use minecraft_operator_core::reconcile::{
    Action, BACKOFF_INITIAL_SECS, BuildContext, BuildFailure, ConfigError, DELAY_FATAL_SECS,
    DELAY_IDLE_SECS, DELAY_READY_SECS, Event, Reconciler, build_outcome, next_backoff,
};
use minecraft_operator_core::resolver::{ResolutionError, ResolvedVersion};

fn sample_spec(eula: EULA) -> MinecraftServerSpec {
    MinecraftServerSpec {
        eula,
        version: MinecraftVersion {
            minecraft: "1.19.3".to_string(),
            java: None,
            forge: None,
            paper: None,
        },
        server_type: ServerType::Vanilla,
        game: GameSpec { game_mode: GameMode::Survival },
        motd: Some("hello".to_string()),
        players: PlayersSpec {
            maximum_online_players: Some(20),
            access_mode: AccessMode::AllowListOnly,
            allow_list: vec![],
            operator_list: vec![],
        },
        world: WorldSpec { seed: None, claim_name: "world".to_string() },
        service_template: ServiceTemplateSpec { metadata_name: None },
        datapacks: vec![],
        mods: vec![],
    }
}

fn empty_status() -> MinecraftServerStatus {
    MinecraftServerStatus {
        java_version: String::new(),
        last_fingerprint: None,
        phase: Phase::Resolving,
        last_error: None,
        last_transition_time: None,
        reduced_trust_artifacts: vec![],
    }
}

fn sample_resolved() -> ResolvedSpec {
    ResolvedSpec {
        server: ResolvedVersion {
            url: "https://piston-data.mojang.com/v1/objects/server.jar".to_string(),
            checksum: Some(Checksum {
                md5: None,
                sha1: Some("c9df48efed58511cdd0213c56b9013a7b5c9ac1f".to_string()),
                sha256: None,
            }),
            java_major: 17,
            reduced_trust: false,
        },
        mods: vec![],
        datapacks: vec![File {
            url: "https://packs.example/p.zip".to_string(),
            checksum: None,
        }],
    }
}

#[test]
fn eula_gate_reports_fatal_and_never_fetches() {
    let mut m = Reconciler::new();
    let a = m.step(
        Event::SpecLoaded { spec: sample_spec(EULA::NotAccepted), status: empty_status() },
        1000,
    );
    match a {
        Action::Report { status } => {
            assert_eq!(status.phase, Phase::FatalFailure);
            assert_eq!(status.last_error.as_deref(), Some("eula not accepted"));
            assert_eq!(status.last_transition_time, Some(1000));
        },
        _ => panic!("an unaccepted EULA must report, not resolve or build"),
    }
    let a = m.step(Event::StatusWritten { conflict: false }, 1001);
    match a {
        Action::Requeue { delay_secs } => assert_eq!(delay_secs, DELAY_FATAL_SECS),
        _ => panic!("the pass must end with a requeue"),
    }
}

#[test]
fn accepted_eula_starts_resolution() {
    let mut m = Reconciler::new();
    let a = m.step(
        Event::SpecLoaded { spec: sample_spec(EULA::Accepted), status: empty_status() },
        1000,
    );
    assert!(matches!(a, Action::Resolve));
}

#[test]
fn unchanged_fingerprint_goes_idle_without_a_build() {
    let resolved = sample_resolved();
    let fp = fingerprint(&resolved);
    let mut status = empty_status();
    status.last_fingerprint = Some(fp.clone());
    status.java_version = "17".to_string();
    status.phase = Phase::Ready;

    let mut m = Reconciler::new();
    m.step(Event::SpecLoaded { spec: sample_spec(EULA::Accepted), status }, 2000);
    let a = m.step(Event::Resolved { resolved }, 2001);
    match a {
        Action::Report { status: s } => {
            assert_eq!(s.phase, Phase::Idle);
            assert_eq!(s.last_fingerprint.as_deref(), Some(fp.as_str()));
            assert_eq!(s.java_version, "17");
            assert!(s.last_error.is_none());
            assert_eq!(s.last_transition_time, Some(2001));
        },
        _ => panic!("an unchanged spec must go idle, never build"),
    }
    let a = m.step(Event::StatusWritten { conflict: false }, 2002);
    match a {
        Action::Requeue { delay_secs } => assert_eq!(delay_secs, DELAY_IDLE_SECS),
        _ => panic!("the idle pass must requeue the long re-check"),
    }
}

#[test]
fn changed_fingerprint_builds_and_reports_ready() {
    let resolved = sample_resolved();
    let fp = fingerprint(&resolved);

    let mut m = Reconciler::new();
    m.step(Event::SpecLoaded { spec: sample_spec(EULA::Accepted), status: empty_status() }, 3000);
    let a = m.step(Event::Resolved { resolved }, 3001);
    assert!(matches!(a, Action::Build { .. }));
    let a = m.step(Event::Built, 3002);
    match a {
        Action::Report { status: s } => {
            assert_eq!(s.phase, Phase::Ready);
            assert_eq!(s.last_fingerprint.as_deref(), Some(fp.as_str()));
            assert_eq!(s.java_version, "17");
            assert!(s.last_error.is_none());
        },
        _ => panic!("a finished build must be reported"),
    }
    let a = m.step(Event::StatusWritten { conflict: false }, 3003);
    match a {
        Action::Requeue { delay_secs } => assert_eq!(delay_secs, DELAY_READY_SECS),
        _ => panic!("a ready pass must requeue shortly"),
    }
}

#[test]
fn ready_status_records_reduced_trust_artifacts() {
    let mut resolved = sample_resolved();
    resolved.server.checksum = None;
    resolved.server.reduced_trust = true;

    let mut m = Reconciler::new();
    m.step(Event::SpecLoaded { spec: sample_spec(EULA::Accepted), status: empty_status() }, 100);
    m.step(Event::Resolved { resolved }, 101);
    let a = m.step(Event::Built, 102);
    match a {
        Action::Report { status: s } => {
            assert_eq!(
                s.reduced_trust_artifacts,
                vec![
                    "https://piston-data.mojang.com/v1/objects/server.jar".to_string(),
                    "https://packs.example/p.zip".to_string(),
                ]
            );
        },
        _ => panic!("a finished build must be reported"),
    }
}

#[test]
fn transient_resolution_failure_backs_off_exponentially() {
    let mut m = Reconciler::new();
    let mut delays = Vec::new();
    for round in 0..8u64 {
        m.step(
            Event::SpecLoaded { spec: sample_spec(EULA::Accepted), status: empty_status() },
            round,
        );
        let a = m.step(Event::ResolveFailed { error: ResolutionError::Unreachable }, round);
        match a {
            Action::Report { status: s } => {
                assert_eq!(s.phase, Phase::RetryableFailure);
                assert_eq!(s.last_error.as_deref(), Some("upstream unreachable"));
            },
            _ => panic!("a failed pass must still report"),
        }
        match m.step(Event::StatusWritten { conflict: false }, round) {
            Action::Requeue { delay_secs } => delays.push(delay_secs),
            _ => panic!("the pass must end with a requeue"),
        }
    }
    assert_eq!(delays, vec![30, 60, 120, 240, 480, 960, 1920, 3600]);
}

#[test]
fn permanent_resolution_failure_is_fatal() {
    let mut m = Reconciler::new();
    m.step(Event::SpecLoaded { spec: sample_spec(EULA::Accepted), status: empty_status() }, 1);
    let a = m.step(Event::ResolveFailed { error: ResolutionError::VersionNotFound }, 2);
    match a {
        Action::Report { status: s } => {
            assert_eq!(s.phase, Phase::FatalFailure);
            assert_eq!(s.last_error.as_deref(), Some("version not found"));
        },
        _ => panic!("a failed pass must still report"),
    }
    match m.step(Event::StatusWritten { conflict: false }, 3) {
        Action::Requeue { delay_secs } => assert_eq!(delay_secs, DELAY_FATAL_SECS),
        _ => panic!("the pass must end with a requeue"),
    }
}

#[test]
fn integrity_failure_is_fatal_and_reported() {
    let mut m = Reconciler::new();
    m.step(Event::SpecLoaded { spec: sample_spec(EULA::Accepted), status: empty_status() }, 1);
    m.step(Event::Resolved { resolved: sample_resolved() }, 2);
    let a = m.step(
        Event::BuildFailed { error: BuildFailure::Integrity(DigestKind::Sha256) },
        3,
    );
    match a {
        Action::Report { status: s } => {
            assert_eq!(s.phase, Phase::FatalFailure);
            assert_eq!(s.last_error.as_deref(), Some("artifact digest mismatch"));
            assert!(s.last_fingerprint.is_none(), "a failed build records no fingerprint");
        },
        _ => panic!("an integrity failure must be reported"),
    }
}

#[test]
fn unreachable_artifact_is_retried() {
    let mut m = Reconciler::new();
    m.step(Event::SpecLoaded { spec: sample_spec(EULA::Accepted), status: empty_status() }, 1);
    m.step(Event::Resolved { resolved: sample_resolved() }, 2);
    let a = m.step(Event::BuildFailed { error: BuildFailure::Unreachable }, 3);
    match a {
        Action::Report { status: s } => assert_eq!(s.phase, Phase::RetryableFailure),
        _ => panic!("a failed pass must still report"),
    }
    match m.step(Event::StatusWritten { conflict: false }, 4) {
        Action::Requeue { delay_secs } => assert_eq!(delay_secs, BACKOFF_INITIAL_SECS),
        _ => panic!("the pass must end with a requeue"),
    }
}

#[test]
fn status_conflict_is_retried_immediately() {
    let mut m = Reconciler::new();
    m.step(Event::SpecLoaded { spec: sample_spec(EULA::NotAccepted), status: empty_status() }, 1);
    let a = m.step(Event::StatusWritten { conflict: true }, 2);
    match a {
        Action::Report { status: s } => assert_eq!(s.phase, Phase::FatalFailure),
        _ => panic!("a conflict must retry the same report"),
    }
    match m.step(Event::StatusWritten { conflict: false }, 3) {
        Action::Requeue { delay_secs } => assert_eq!(delay_secs, DELAY_FATAL_SECS),
        _ => panic!("the pass must end with a requeue"),
    }
}

#[test]
fn build_outcome_takes_the_first_failure() {
    assert_eq!(build_outcome(&vec![]), Ok(()));
    assert_eq!(
        build_outcome(&vec![Ok(TrustLevel::Verified), Ok(TrustLevel::TrustOnFirstUse)]),
        Ok(())
    );
    assert_eq!(
        build_outcome(&vec![
            Ok(TrustLevel::Verified),
            Err(BuildFailure::Unreachable),
            Err(BuildFailure::Integrity(DigestKind::Md5)),
        ]),
        Err(BuildFailure::Unreachable)
    );
    assert_eq!(
        build_outcome(&vec![Err(BuildFailure::Integrity(DigestKind::Sha256))]),
        Err(BuildFailure::Integrity(DigestKind::Sha256))
    );
}

#[test]
fn backoff_doubles_to_the_cap() {
    assert_eq!(next_backoff(30), 60);
    assert_eq!(next_backoff(960), 1920);
    assert_eq!(next_backoff(1920), 3600);
    assert_eq!(next_backoff(3600), 3600);
}

#[test]
fn build_context_requires_both_directories() {
    let ok = BuildContext::new("/tmp".to_string(), "/out".to_string(), true, true).unwrap();
    assert_eq!(ok.tmp_dir, "/tmp");
    assert_eq!(ok.output_dir, "/out");
    assert_eq!(
        BuildContext::new("/tmp".to_string(), "/out".to_string(), false, true).unwrap_err(),
        ConfigError::MissingTempDir
    );
    assert_eq!(
        BuildContext::new("/tmp".to_string(), "/out".to_string(), true, false).unwrap_err(),
        ConfigError::MissingOutputDir
    );
}
