use syncer::auth::{reauthenticate, Refresh};
use syncer::gate::{GatePhase, IntegrityGate, MAX_ATTEMPTS};
use syncer::model::{
    classify, copy_endpoint, redirect, AttemptResult, Concern, Failure, RemoteStatus, SyncAction,
    SyncAuth, SyncErrorKind, SyncMeta, SyncOutcome,
};
use syncer::orchestrator::{Orchestrator, Phase, SyncReport};
use syncer::protocol::{Request, RequestKind, Response};
use syncer::session::RunReport;

fn credential(token: &str, endpoint: Option<&str>) -> SyncAuth {
    SyncAuth {
        token: token.to_string(),
        endpoint: endpoint.map(|e| e.to_string()),
        io_timeout_secs: Some(30),
    }
}

fn syncing(auth: &SyncAuth) -> Orchestrator {
    Orchestrator { phase: Phase::Syncing { auth: auth.clone() }, verdict: None, local_meta: None }
}

fn tally(trace: &[Request], kind: RequestKind) -> usize {
    trace.iter().filter(|r| r.kind() == kind).count()
}

fn synced(action: SyncAction, new_endpoint: Option<&str>) -> Response {
    Response::SyncFinished(Ok(SyncOutcome {
        action,
        new_endpoint: new_endpoint.map(|e| e.to_string()),
    }))
}

#[test]
fn reauthenticate_without_endpoint_returns_the_credential_unchanged() {
    let prior = credential("k1", Some("https://a.example"));
    assert_eq!(reauthenticate(prior.clone(), None), Refresh::Keep(prior));
    let bare = credential("k2", None);
    assert_eq!(reauthenticate(bare.clone(), None), Refresh::Keep(bare));
}

#[test]
fn reauthenticate_with_endpoint_asks_for_a_sign_in_there() {
    let prior = credential("k1", Some("https://a.example"));
    let plan = reauthenticate(prior, Some("https://b.example".to_string()));
    assert_eq!(plan, Refresh::Login { endpoint: "https://b.example".to_string() });
    let granted = credential("k2", None);
    let fresh = granted.scoped_to("https://b.example".to_string());
    assert_eq!(fresh.endpoint, Some("https://b.example".to_string()));
    assert_eq!(fresh.token, "k2");
    assert_eq!(fresh.io_timeout_secs, Some(30));
}

#[test]
fn scoped_to_replaces_an_earlier_endpoint() {
    let auth = credential("k", Some("https://old.example")).scoped_to("https://new.example".to_string());
    assert_eq!(auth, credential("k", Some("https://new.example")));
}

#[test]
fn copies_equal_their_sources() {
    let auth = credential("k", Some("https://a.example"));
    assert_eq!(auth.clone(), auth);
    assert_eq!(copy_endpoint(&auth.endpoint), auth.endpoint);
    assert_eq!(copy_endpoint(&None), None);
    let outcome = SyncOutcome { action: SyncAction::NoChanges, new_endpoint: Some("e".to_string()) };
    assert_eq!(outcome.clone(), outcome);
    let status = RemoteStatus { new_endpoint: None };
    assert_eq!(status.clone(), status);
    let report = SyncReport { full_sync_occurred: true, final_auth: auth.clone() };
    assert_eq!(report.clone(), report);
    let run = RunReport { full_sync_occurred: false, final_auth: auth.clone(), integrity_attempts: 2 };
    assert_eq!(run.clone(), run);
    let requests = vec![
        Request::OpenStore,
        Request::Login { endpoint: "e".to_string() },
        Request::NormalSync { auth: auth.clone() },
        Request::ReadSyncMeta,
        Request::StatusCheck { meta: SyncMeta { revision: 1, timestamp: 2 }, auth: auth.clone() },
        Request::FullDownload { auth: auth.clone() },
        Request::CheckDatabase,
        Request::CloseStore,
    ];
    for request in &requests {
        assert_eq!(&request.clone(), request);
    }
    let responses = vec![
        Response::StoreOpened,
        Response::StoreUnavailable,
        Response::LoggedIn(auth.clone()),
        Response::LoginRejected,
        Response::SyncFinished(Ok(outcome)),
        Response::SyncFinished(Err(SyncErrorKind::Conflict)),
        Response::MetaRead(SyncMeta { revision: 1, timestamp: 2 }),
        Response::MetaUnreadable,
        Response::StatusReported(status),
        Response::StatusUnavailable,
        Response::Downloaded,
        Response::DownloadFailed,
        Response::DatabaseSound,
        Response::DatabaseDamaged,
        Response::StoreClosed,
    ];
    for response in &responses {
        assert_eq!(&response.clone(), response);
    }
}

#[test]
fn request_kinds_name_the_collaborator_call() {
    let auth = credential("k", None);
    assert_eq!(Request::OpenStore.kind(), RequestKind::OpenStore);
    assert_eq!(Request::Login { endpoint: "e".to_string() }.kind(), RequestKind::Login);
    assert_eq!(Request::NormalSync { auth: auth.clone() }.kind(), RequestKind::NormalSync);
    assert_eq!(Request::ReadSyncMeta.kind(), RequestKind::ReadSyncMeta);
    assert_eq!(
        Request::StatusCheck { meta: SyncMeta { revision: 0, timestamp: 0 }, auth: auth.clone() }
            .kind(),
        RequestKind::StatusCheck
    );
    assert_eq!(Request::FullDownload { auth }.kind(), RequestKind::FullDownload);
    assert_eq!(Request::CheckDatabase.kind(), RequestKind::CheckDatabase);
    assert_eq!(Request::CloseStore.kind(), RequestKind::CloseStore);
}

#[test]
fn only_revision_zero_and_timestamp_zero_is_an_empty_store() {
    assert!(SyncMeta { revision: 0, timestamp: 0 }.is_empty());
    assert!(!SyncMeta { revision: 42, timestamp: 1700000000 }.is_empty());
    assert!(!SyncMeta { revision: 0, timestamp: 1 }.is_empty());
    assert!(!SyncMeta { revision: 1, timestamp: 0 }.is_empty());
    assert!(!SyncMeta { revision: -1, timestamp: 0 }.is_empty());
}

#[test]
fn three_error_kinds_are_recoverable() {
    assert!(SyncErrorKind::Conflict.is_recoverable());
    assert!(SyncErrorKind::ResyncRequired.is_recoverable());
    assert!(SyncErrorKind::DatabaseCheckRequired.is_recoverable());
    assert!(!SyncErrorKind::Other.is_recoverable());
}

#[test]
fn classify_names_each_kind_of_attempt() {
    let ok = |action| Ok(SyncOutcome { action, new_endpoint: Some("e".to_string()) });
    assert_eq!(classify(&ok(SyncAction::NoChanges)), AttemptResult::NoChanges);
    assert_eq!(
        classify(&ok(SyncAction::FullSyncRequired { upload_ok: true, download_ok: false })),
        AttemptResult::FullSyncRequired
    );
    assert_eq!(classify(&ok(SyncAction::NormalSyncApplied)), AttemptResult::NormalSyncApplied);
    assert_eq!(
        classify(&Err(SyncErrorKind::Conflict)),
        AttemptResult::RecoverableError(SyncErrorKind::Conflict)
    );
    assert_eq!(
        classify(&Err(SyncErrorKind::ResyncRequired)),
        AttemptResult::RecoverableError(SyncErrorKind::ResyncRequired)
    );
    assert_eq!(
        classify(&Err(SyncErrorKind::DatabaseCheckRequired)),
        AttemptResult::RecoverableError(SyncErrorKind::DatabaseCheckRequired)
    );
    assert_eq!(classify(&Err(SyncErrorKind::Other)), AttemptResult::FatalError);
}

#[test]
fn redirect_is_the_endpoint_of_a_successful_attempt() {
    let moved = Ok(SyncOutcome {
        action: SyncAction::NoChanges,
        new_endpoint: Some("https://b.example".to_string()),
    });
    assert_eq!(redirect(moved), Some("https://b.example".to_string()));
    let stayed = Ok(SyncOutcome { action: SyncAction::NormalSyncApplied, new_endpoint: None });
    assert_eq!(redirect(stayed), None);
    assert_eq!(redirect(Err(SyncErrorKind::Conflict)), None);
}

#[test]
fn failures_name_who_has_to_act() {
    assert_eq!(Failure::Auth.concern(), Concern::Credentials);
    assert_eq!(Failure::FatalSync.concern(), Concern::Service);
    assert_eq!(Failure::Transfer.concern(), Concern::Service);
    assert_eq!(Failure::Store.concern(), Concern::LocalStore);
    assert_eq!(Failure::Integrity.concern(), Concern::LocalStore);
    assert_eq!(Failure::Protocol.concern(), Concern::Host);
}

#[test]
fn orchestrator_opens_the_store_then_signs_in_at_the_host() {
    let (state, first) = Orchestrator::start("https://sync.example".to_string());
    assert_eq!(first, Request::OpenStore);
    assert_eq!(state.verdict, None);
    assert!(state.result().is_none());
    let (state, request) = state.step(Response::StoreOpened);
    assert_eq!(request, Some(Request::Login { endpoint: "https://sync.example".to_string() }));
    let (state, request) = state.step(Response::LoggedIn(credential("k1", None)));
    let auth = credential("k1", Some("https://sync.example"));
    assert_eq!(request, Some(Request::NormalSync { auth: auth.clone() }));
    assert_eq!(state, syncing(&auth));
}

#[test]
fn applied_normal_sync_closes_the_store_and_replaces_nothing() {
    let auth = credential("k1", Some("https://sync.example"));
    let (state, request) =
        syncing(&auth).step(synced(SyncAction::NormalSyncApplied, Some("https://b.example")));
    assert_eq!(request, Some(Request::CloseStore));
    assert_eq!(state.verdict, Some(AttemptResult::NormalSyncApplied));
    assert!(!state.replacement_due());
    let (state, request) = state.step(Response::StoreClosed);
    assert_eq!(request, None);
    assert_eq!(
        state.result(),
        Some(&Ok(SyncReport { full_sync_occurred: false, final_auth: auth }))
    );
}

#[test]
fn noop_paths_never_ask_for_a_download() {
    let host = "https://sync.example".to_string();
    let scripts = vec![
        vec![
            Response::StoreOpened,
            Response::LoggedIn(credential("k", None)),
            synced(SyncAction::NormalSyncApplied, None),
            Response::StoreClosed,
        ],
        vec![
            Response::StoreOpened,
            Response::LoggedIn(credential("k", None)),
            synced(SyncAction::NoChanges, Some("https://b.example")),
            Response::MetaRead(SyncMeta { revision: 42, timestamp: 1700000000 }),
            Response::StoreClosed,
        ],
        vec![
            Response::StoreOpened,
            Response::LoggedIn(credential("k", None)),
            Response::SyncFinished(Err(SyncErrorKind::Other)),
            Response::Downloaded,
        ],
        vec![
            Response::StoreOpened,
            Response::LoggedIn(credential("k", None)),
            synced(SyncAction::NoChanges, None),
            Response::MetaUnreadable,
        ],
    ];
    for script in &scripts {
        let (state, trace) = Orchestrator::replay(host.clone(), script);
        assert!(!state.replacement_due());
        assert_eq!(tally(&trace, RequestKind::FullDownload), 0);
        assert_eq!(tally(&trace, RequestKind::StatusCheck), 0);
        assert_eq!(tally(&trace, RequestKind::Login), 1);
    }
}

#[test]
fn full_sync_required_downloads_with_the_credential_at_hand() {
    let auth = credential("k1", Some("https://sync.example"));
    let (state, request) = syncing(&auth)
        .step(synced(SyncAction::FullSyncRequired { upload_ok: true, download_ok: true }, None));
    assert_eq!(request, Some(Request::FullDownload { auth: auth.clone() }));
    assert!(state.replacement_due());
    assert!(!state.empty_store_anomaly());
    let (state, request) = state.step(Response::Downloaded);
    assert_eq!(request, None);
    assert_eq!(
        state.result(),
        Some(&Ok(SyncReport { full_sync_occurred: true, final_auth: auth }))
    );
}

#[test]
fn full_sync_required_with_redirect_signs_in_before_downloading() {
    let auth = credential("k1", Some("https://sync.example"));
    let (state, request) = syncing(&auth).step(synced(
        SyncAction::FullSyncRequired { upload_ok: false, download_ok: true },
        Some("https://b.example"),
    ));
    assert_eq!(request, Some(Request::Login { endpoint: "https://b.example".to_string() }));
    let (state, request) = state.step(Response::LoggedIn(credential("k2", None)));
    let fresh = credential("k2", Some("https://b.example"));
    assert_eq!(request, Some(Request::FullDownload { auth: fresh.clone() }));
    let (state, _) = state.step(Response::Downloaded);
    assert_eq!(
        state.result(),
        Some(&Ok(SyncReport { full_sync_occurred: true, final_auth: fresh }))
    );
}

#[test]
fn each_recoverable_kind_checks_status_once_and_downloads_once() {
    let host = "https://sync.example".to_string();
    for kind in [
        SyncErrorKind::Conflict,
        SyncErrorKind::ResyncRequired,
        SyncErrorKind::DatabaseCheckRequired,
    ] {
        for endpoint in [None, Some("https://b.example".to_string())] {
            let mut script = vec![
                Response::StoreOpened,
                Response::LoggedIn(credential("k1", None)),
                Response::SyncFinished(Err(kind)),
                Response::MetaRead(SyncMeta { revision: 5, timestamp: 6 }),
                Response::StatusReported(RemoteStatus { new_endpoint: endpoint.clone() }),
            ];
            if endpoint.is_some() {
                script.push(Response::LoggedIn(credential("k2", None)));
            }
            script.push(Response::Downloaded);
            let (state, trace) = Orchestrator::replay(host.clone(), &script);
            assert_eq!(state.verdict, Some(AttemptResult::RecoverableError(kind)));
            assert_eq!(state.local_meta, Some(SyncMeta { revision: 5, timestamp: 6 }));
            assert_eq!(tally(&trace, RequestKind::StatusCheck), 1);
            assert_eq!(tally(&trace, RequestKind::FullDownload), 1);
            let expected = match &endpoint {
                Some(e) => credential("k2", Some(e)),
                None => credential("k1", Some("https://sync.example")),
            };
            assert_eq!(
                state.result(),
                Some(&Ok(SyncReport { full_sync_occurred: true, final_auth: expected }))
            );
        }
    }
}

#[test]
fn orchestrator_failures_end_the_phase_with_their_class() {
    let host = "https://sync.example".to_string();
    let login = Response::LoggedIn(credential("k", None));
    let cases = vec![
        (vec![Response::StoreUnavailable], Failure::Store),
        (vec![Response::StoreOpened, Response::LoginRejected], Failure::Auth),
        (
            vec![
                Response::StoreOpened,
                login.clone(),
                Response::SyncFinished(Err(SyncErrorKind::Other)),
            ],
            Failure::FatalSync,
        ),
        (
            vec![
                Response::StoreOpened,
                login.clone(),
                Response::SyncFinished(Err(SyncErrorKind::Conflict)),
                Response::MetaUnreadable,
            ],
            Failure::Store,
        ),
        (
            vec![
                Response::StoreOpened,
                login.clone(),
                Response::SyncFinished(Err(SyncErrorKind::Conflict)),
                Response::MetaRead(SyncMeta { revision: 1, timestamp: 1 }),
                Response::StatusUnavailable,
            ],
            Failure::Transfer,
        ),
        (
            vec![
                Response::StoreOpened,
                login.clone(),
                Response::SyncFinished(Err(SyncErrorKind::Conflict)),
                Response::MetaRead(SyncMeta { revision: 1, timestamp: 1 }),
                Response::StatusReported(RemoteStatus { new_endpoint: Some("e".to_string()) }),
                Response::LoginRejected,
            ],
            Failure::Auth,
        ),
        (
            vec![
                Response::StoreOpened,
                login.clone(),
                synced(SyncAction::FullSyncRequired { upload_ok: true, download_ok: true }, None),
                Response::DownloadFailed,
            ],
            Failure::Transfer,
        ),
        (vec![Response::StoreOpened, Response::Downloaded], Failure::Protocol),
        (vec![Response::DatabaseSound], Failure::Protocol),
    ];
    for (script, failure) in &cases {
        let (state, _) = Orchestrator::replay(host.clone(), script);
        assert_eq!(state.result(), Some(&Err(*failure)));
        let (after, request) = state.step(Response::StoreOpened);
        assert_eq!(request, None);
        assert_eq!(after.result(), Some(&Err(*failure)));
    }
}

#[test]
fn gate_passes_at_the_first_sound_check() {
    let auth = credential("k", None);
    let (gate, first) = IntegrityGate::start(auth.clone());
    assert_eq!(first, Request::OpenStore);
    assert_eq!(gate.attempt, 1);
    assert_eq!(gate.result(), None);
    let (gate, request) = gate.step(Response::StoreOpened);
    assert_eq!(request, Some(Request::CheckDatabase));
    let (gate, request) = gate.step(Response::DatabaseSound);
    assert_eq!(request, Some(Request::CloseStore));
    let (gate, request) = gate.step(Response::StoreClosed);
    assert_eq!(request, None);
    assert_eq!(gate.result(), Some(Ok(())));
    assert_eq!(gate, IntegrityGate { auth, attempt: 1, phase: GatePhase::Finished(Ok(())) });
}

#[test]
fn gate_opens_the_store_at_most_three_times() {
    assert_eq!(MAX_ATTEMPTS, 3);
    let auth = credential("k", None);
    let mut script = Vec::new();
    for _ in 0..5 {
        script.push(Response::StoreOpened);
        script.push(Response::DatabaseDamaged);
        script.push(Response::Downloaded);
    }
    let (gate, trace) = IntegrityGate::replay(auth.clone(), &script);
    assert_eq!(tally(&trace, RequestKind::OpenStore), 3);
    assert_eq!(tally(&trace, RequestKind::CheckDatabase), 3);
    assert_eq!(tally(&trace, RequestKind::FullDownload), 3);
    assert_eq!(gate.attempt, 3);
    assert_eq!(gate.result(), Some(Err(Failure::Integrity)));
    for request in trace.iter().filter(|r| r.kind() == RequestKind::FullDownload) {
        assert_eq!(request, &Request::FullDownload { auth: auth.clone() });
    }
}

#[test]
fn gate_makes_no_further_attempt_once_a_check_has_passed() {
    let auth = credential("k", None);
    for passed_at in 1..=3usize {
        let mut script = Vec::new();
        for _ in 1..passed_at {
            script.push(Response::StoreOpened);
            script.push(Response::DatabaseDamaged);
            script.push(Response::Downloaded);
        }
        script.push(Response::StoreOpened);
        script.push(Response::DatabaseSound);
        script.push(Response::StoreClosed);
        script.push(Response::StoreOpened);
        script.push(Response::DatabaseDamaged);
        script.push(Response::Downloaded);
        let (gate, trace) = IntegrityGate::replay(auth.clone(), &script);
        assert_eq!(tally(&trace, RequestKind::OpenStore), passed_at);
        assert_eq!(tally(&trace, RequestKind::CheckDatabase), passed_at);
        assert_eq!(tally(&trace, RequestKind::FullDownload), passed_at - 1);
        assert_eq!(tally(&trace, RequestKind::CloseStore), 1);
        assert_eq!(gate.attempt as usize, passed_at);
        assert_eq!(gate.result(), Some(Ok(())));
    }
}

#[test]
fn gate_failures_end_it_with_their_class() {
    let auth = credential("k", None);
    let cases = vec![
        (vec![Response::StoreUnavailable], Failure::Store),
        (
            vec![Response::StoreOpened, Response::DatabaseDamaged, Response::DownloadFailed],
            Failure::Transfer,
        ),
        (vec![Response::DatabaseSound], Failure::Protocol),
        (vec![Response::StoreOpened, Response::StoreClosed], Failure::Protocol),
        (
            vec![Response::StoreOpened, Response::DatabaseSound, Response::Downloaded],
            Failure::Protocol,
        ),
    ];
    for (script, failure) in &cases {
        let (gate, _) = IntegrityGate::replay(auth.clone(), script);
        assert_eq!(gate.result(), Some(Err(*failure)));
    }
}

#[test]
fn gate_counts_a_hand_made_last_attempt_as_the_last() {
    let auth = credential("k", None);
    let gate = IntegrityGate { auth: auth.clone(), attempt: 200, phase: GatePhase::Replacing };
    let (gate, request) = gate.step(Response::Downloaded);
    assert_eq!(request, None);
    assert_eq!(gate.result(), Some(Err(Failure::Integrity)));
    let gate = IntegrityGate { auth, attempt: 2, phase: GatePhase::Replacing };
    let (gate, request) = gate.step(Response::Downloaded);
    assert_eq!(request, Some(Request::OpenStore));
    assert_eq!(gate.attempt, 3);
}
