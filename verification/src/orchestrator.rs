//! The sync phase of a run: one normal-sync attempt, its classification, and
//! whatever the classification demands.

use vstd::prelude::*;
use crate::auth::{reauthenticate, reauthenticate_spec, Refresh};
use crate::model::{
    classify, classify_spec, redirect, redirect_spec, AttemptResult, Failure, SyncAuth,
    SyncMeta,
};
use crate::protocol::{
    extended, holds_store, lemma_occurrences_push, lemma_store_push, occurrences,
    store_discipline, Request, RequestKind, Response,
};

verus! {

/// What the sync phase hands to the rest of the run.
#[derive(Debug, PartialEq, Eq)]
pub struct SyncReport {
    /// Whether the local store was replaced by the service's snapshot.
    pub full_sync_occurred: bool,
    /// The credential that every later request of the run must use.
    pub final_auth: SyncAuth,
}

impl Clone for SyncReport {
    fn clone(&self) -> (copy: SyncReport)
        ensures
            copy == *self,
    {
        SyncReport {
            full_sync_occurred: self.full_sync_occurred,
            final_auth: self.final_auth.clone(),
        }
    }
}

/// The answer that the orchestrator is waiting for, with what it will need
/// once the answer is there.
#[derive(Debug, PartialEq, Eq)]
pub enum Phase {
    /// The store is being opened; no credential exists yet.
    OpeningStore { host: String },
    /// The first sign-in, at the configured host.
    LoggingIn { host: String },
    /// The normal sync is running.
    Syncing { auth: SyncAuth },
    /// The service saw no changes; the local metadata will tell whether the
    /// store is empty all the same.
    ConfirmingNoChanges { auth: SyncAuth, new_endpoint: Option<String> },
    /// The normal sync failed recoverably; the local metadata is read for the
    /// status check.
    ReadingMeta { auth: SyncAuth },
    /// The status check is running.
    CheckingStatus { auth: SyncAuth },
    /// The service moved the session; the sign-in at the new endpoint is
    /// running and a full download follows it.
    Reauthenticating { endpoint: String },
    /// The full download is running.
    Downloading { auth: SyncAuth },
    /// Nothing had to be replaced; the store is being closed.
    Closing { auth: SyncAuth },
    /// The phase is over.
    Finished(Result<SyncReport, Failure>),
}

/// The state of the sync phase between two collaborator calls.
#[derive(Debug, PartialEq, Eq)]
pub struct Orchestrator {
    pub phase: Phase,
    /// How the normal-sync attempt was classified, once it has returned.
    pub verdict: Option<AttemptResult>,
    /// The local metadata, once it has been read.
    pub local_meta: Option<SyncMeta>,
}

impl Orchestrator {
    /// What [`Orchestrator::start`] returns.
    pub open spec fn start_spec(host: String) -> (Orchestrator, Request) {
        (
            Orchestrator { phase: Phase::OpeningStore { host }, verdict: None, local_meta: None },
            Request::OpenStore,
        )
    }

    /// The state in which `request` is pending.
    pub open spec fn awaiting(self, phase: Phase, request: Request) -> (
        Orchestrator,
        Option<Request>,
    ) {
        (Orchestrator { phase, ..self }, Some(request))
    }

    /// The phase ended without success; nothing more is asked.
    pub open spec fn failed(self, failure: Failure) -> (Orchestrator, Option<Request>) {
        (Orchestrator { phase: Phase::Finished(Err(failure)), ..self }, None)
    }

    /// The phase ended with success; nothing more is asked.
    pub open spec fn succeeded(self, full_sync_occurred: bool, final_auth: SyncAuth) -> (
        Orchestrator,
        Option<Request>,
    ) {
        (
            Orchestrator {
                phase: Phase::Finished(Ok(SyncReport { full_sync_occurred, final_auth })),
                ..self
            },
            None,
        )
    }

    /// The step towards a full download: at once with the credential at hand
    /// where the service named no new endpoint, after a sign-in at the new
    /// endpoint where it named one.
    pub open spec fn replacing(self, auth: SyncAuth, new_endpoint: Option<String>) -> (
        Orchestrator,
        Option<Request>,
    ) {
        match reauthenticate_spec(auth, new_endpoint) {
            Refresh::Keep(auth) => self.awaiting(
                Phase::Downloading { auth },
                Request::FullDownload { auth },
            ),
            Refresh::Login { endpoint } => self.awaiting(
                Phase::Reauthenticating { endpoint },
                Request::Login { endpoint },
            ),
        }
    }

    /// What a classified normal-sync attempt leads to.
    pub open spec fn after_attempt(
        self,
        auth: SyncAuth,
        verdict: AttemptResult,
        new_endpoint: Option<String>,
    ) -> (Orchestrator, Option<Request>) {
        let seen = Orchestrator { verdict: Some(verdict), ..self };
        match verdict {
            AttemptResult::NormalSyncApplied => seen.awaiting(
                Phase::Closing { auth },
                Request::CloseStore,
            ),
            AttemptResult::NoChanges => seen.awaiting(
                Phase::ConfirmingNoChanges { auth, new_endpoint },
                Request::ReadSyncMeta,
            ),
            AttemptResult::FullSyncRequired => seen.replacing(auth, new_endpoint),
            AttemptResult::RecoverableError(_) => seen.awaiting(
                Phase::ReadingMeta { auth },
                Request::ReadSyncMeta,
            ),
            AttemptResult::FatalError => seen.failed(Failure::FatalSync),
        }
    }

    /// The transition table of the sync phase: the state after `response`
    /// and the next request, or `None` once the phase is over.
    ///
    /// A response that does not answer the pending request ends the phase
    /// with [`Failure::Protocol`]. A finished phase stays as it is.
    pub open spec fn step_spec(self, response: Response) -> (Orchestrator, Option<Request>) {
        match (self.phase, response) {
            (Phase::OpeningStore { host }, Response::StoreOpened) => self.awaiting(
                Phase::LoggingIn { host },
                Request::Login { endpoint: host },
            ),
            (Phase::OpeningStore { .. }, Response::StoreUnavailable) => self.failed(
                Failure::Store,
            ),
            (Phase::LoggingIn { host }, Response::LoggedIn(granted)) => {
                let auth = granted.scoped_to_spec(host);
                self.awaiting(Phase::Syncing { auth }, Request::NormalSync { auth })
            },
            (Phase::LoggingIn { .. }, Response::LoginRejected) => self.failed(Failure::Auth),
            (Phase::Syncing { auth }, Response::SyncFinished(result)) => self.after_attempt(
                auth,
                classify_spec(result),
                redirect_spec(result),
            ),
            (Phase::ConfirmingNoChanges { auth, new_endpoint }, Response::MetaRead(meta)) => {
                let seen = Orchestrator { local_meta: Some(meta), ..self };
                if meta.is_empty() {
                    seen.replacing(auth, new_endpoint)
                } else {
                    seen.awaiting(Phase::Closing { auth }, Request::CloseStore)
                }
            },
            (Phase::ConfirmingNoChanges { .. }, Response::MetaUnreadable) => self.failed(
                Failure::Store,
            ),
            (Phase::ReadingMeta { auth }, Response::MetaRead(meta)) => Orchestrator {
                local_meta: Some(meta),
                ..self
            }.awaiting(Phase::CheckingStatus { auth }, Request::StatusCheck { meta, auth }),
            (Phase::ReadingMeta { .. }, Response::MetaUnreadable) => self.failed(Failure::Store),
            (Phase::CheckingStatus { auth }, Response::StatusReported(status)) => self.replacing(
                auth,
                status.new_endpoint,
            ),
            (Phase::CheckingStatus { .. }, Response::StatusUnavailable) => self.failed(
                Failure::Transfer,
            ),
            (Phase::Reauthenticating { endpoint }, Response::LoggedIn(granted)) => {
                let auth = granted.scoped_to_spec(endpoint);
                self.awaiting(Phase::Downloading { auth }, Request::FullDownload { auth })
            },
            (Phase::Reauthenticating { .. }, Response::LoginRejected) => self.failed(
                Failure::Auth,
            ),
            (Phase::Downloading { auth }, Response::Downloaded) => self.succeeded(true, auth),
            (Phase::Downloading { .. }, Response::DownloadFailed) => self.failed(
                Failure::Transfer,
            ),
            (Phase::Closing { auth }, Response::StoreClosed) => self.succeeded(false, auth),
            (Phase::Finished(_), _) => (self, None),
            _ => self.failed(Failure::Protocol),
        }
    }

    /// The state after a whole conversation, and every request made in it,
    /// in order. The conversation begins with the request to open the store;
    /// each response is answered by one step.
    pub open spec fn run(host: String, responses: Seq<Response>) -> (Orchestrator, Seq<Request>)
        decreases responses.len(),
    {
        if responses.len() == 0 {
            let (state, request) = Orchestrator::start_spec(host);
            (state, seq![request])
        } else {
            let (state, trace) = Orchestrator::run(host, responses.drop_last());
            let (next, request) = state.step_spec(responses.last());
            (next, extended(trace, request))
        }
    }

    /// Whether what the state has recorded fits the answer it is waiting for.
    /// Every state that a conversation reaches is well formed; one put
    /// together by hand need not be.
    pub open spec fn well_formed(&self) -> bool {
        &&& self.verdict matches Some(AttemptResult::RecoverableError(kind))
            ==> kind.is_recoverable()
        &&& match self.phase {
            Phase::OpeningStore { .. } => self.verdict is None && self.local_meta is None,
            Phase::LoggingIn { .. } => self.verdict is None && self.local_meta is None,
            Phase::Syncing { .. } => self.verdict is None && self.local_meta is None,
            Phase::ConfirmingNoChanges { .. } => {
                &&& self.verdict == Some(AttemptResult::NoChanges)
                &&& self.local_meta is None
            },
            Phase::ReadingMeta { .. } => {
                &&& self.verdict matches Some(AttemptResult::RecoverableError(_))
                &&& self.local_meta is None
            },
            Phase::CheckingStatus { .. } => {
                &&& self.verdict matches Some(AttemptResult::RecoverableError(_))
                &&& self.local_meta is Some
            },
            Phase::Reauthenticating { .. } => self.spec_replacement_due(),
            Phase::Downloading { .. } => self.spec_replacement_due(),
            Phase::Closing { .. } => self.verdict is Some && !self.spec_replacement_due(),
            Phase::Finished(Ok(report)) => {
                &&& self.verdict is Some
                &&& report.full_sync_occurred == self.spec_replacement_due()
            },
            Phase::Finished(Err(_)) => true,
        }
    }

    /// Whether the classification, together with the local metadata where it
    /// matters, demands that the local store be replaced: a full sync is
    /// required, the attempt failed recoverably, or the service saw no
    /// changes although the store is empty.
    pub open spec fn spec_replacement_due(&self) -> bool {
        match self.verdict {
            Some(AttemptResult::FullSyncRequired) => true,
            Some(AttemptResult::RecoverableError(_)) => true,
            Some(AttemptResult::NoChanges) => self.spec_empty_store_anomaly(),
            _ => false,
        }
    }

    /// Whether the service saw no changes although the local store is empty.
    pub open spec fn spec_empty_store_anomaly(&self) -> bool {
        self.verdict == Some(AttemptResult::NoChanges) && (self.local_meta matches Some(meta)
            && meta.is_empty())
    }

    /// Begins the sync phase against the configured host.
    pub fn start(host: String) -> (begun: (Orchestrator, Request))
        ensures
            begun == Orchestrator::start_spec(host),
            begun.0.well_formed(),
    {
        (
            Orchestrator { phase: Phase::OpeningStore { host }, verdict: None, local_meta: None },
            Request::OpenStore,
        )
    }

    /// Takes the host's answer to the pending request and decides what
    /// happens next.
    pub fn step(self, response: Response) -> (next: (Orchestrator, Option<Request>))
        ensures
            next == self.step_spec(response),
            next.1 is None <==> next.0.phase is Finished,
            self.well_formed() ==> next.0.well_formed(),
    {
        let Orchestrator { phase, verdict, local_meta } = self;
        match phase {
            Phase::OpeningStore { host } => match response {
                Response::StoreOpened => {
                    let endpoint = host.clone();
                    awaiting(Phase::LoggingIn { host }, verdict, local_meta, Request::Login { endpoint })
                },
                Response::StoreUnavailable => failed(verdict, local_meta, Failure::Store),
                _ => failed(verdict, local_meta, Failure::Protocol),
            },
            Phase::LoggingIn { host } => match response {
                Response::LoggedIn(granted) => {
                    let auth = granted.scoped_to(host);
                    let sent = auth.clone();
                    awaiting(Phase::Syncing { auth }, verdict, local_meta, Request::NormalSync { auth: sent })
                },
                Response::LoginRejected => failed(verdict, local_meta, Failure::Auth),
                _ => failed(verdict, local_meta, Failure::Protocol),
            },
            Phase::Syncing { auth } => match response {
                Response::SyncFinished(result) => {
                    let attempt = classify(&result);
                    let new_endpoint = redirect(result);
                    let verdict = Some(attempt);
                    match attempt {
                        AttemptResult::NormalSyncApplied => awaiting(
                            Phase::Closing { auth },
                            verdict,
                            local_meta,
                            Request::CloseStore,
                        ),
                        AttemptResult::NoChanges => awaiting(
                            Phase::ConfirmingNoChanges { auth, new_endpoint },
                            verdict,
                            local_meta,
                            Request::ReadSyncMeta,
                        ),
                        AttemptResult::FullSyncRequired => replacing(
                            verdict,
                            local_meta,
                            auth,
                            new_endpoint,
                        ),
                        AttemptResult::RecoverableError(_) => awaiting(
                            Phase::ReadingMeta { auth },
                            verdict,
                            local_meta,
                            Request::ReadSyncMeta,
                        ),
                        AttemptResult::FatalError => failed(verdict, local_meta, Failure::FatalSync),
                    }
                },
                _ => failed(verdict, local_meta, Failure::Protocol),
            },
            Phase::ConfirmingNoChanges { auth, new_endpoint } => match response {
                Response::MetaRead(meta) => {
                    if meta.is_empty() {
                        replacing(verdict, Some(meta), auth, new_endpoint)
                    } else {
                        awaiting(Phase::Closing { auth }, verdict, Some(meta), Request::CloseStore)
                    }
                },
                Response::MetaUnreadable => failed(verdict, local_meta, Failure::Store),
                _ => failed(verdict, local_meta, Failure::Protocol),
            },
            Phase::ReadingMeta { auth } => match response {
                Response::MetaRead(meta) => {
                    let sent = auth.clone();
                    awaiting(
                        Phase::CheckingStatus { auth },
                        verdict,
                        Some(meta),
                        Request::StatusCheck { meta, auth: sent },
                    )
                },
                Response::MetaUnreadable => failed(verdict, local_meta, Failure::Store),
                _ => failed(verdict, local_meta, Failure::Protocol),
            },
            Phase::CheckingStatus { auth } => match response {
                Response::StatusReported(status) => replacing(
                    verdict,
                    local_meta,
                    auth,
                    status.new_endpoint,
                ),
                Response::StatusUnavailable => failed(verdict, local_meta, Failure::Transfer),
                _ => failed(verdict, local_meta, Failure::Protocol),
            },
            Phase::Reauthenticating { endpoint } => match response {
                Response::LoggedIn(granted) => {
                    let auth = granted.scoped_to(endpoint);
                    let sent = auth.clone();
                    awaiting(
                        Phase::Downloading { auth },
                        verdict,
                        local_meta,
                        Request::FullDownload { auth: sent },
                    )
                },
                Response::LoginRejected => failed(verdict, local_meta, Failure::Auth),
                _ => failed(verdict, local_meta, Failure::Protocol),
            },
            Phase::Downloading { auth } => match response {
                Response::Downloaded => succeeded(verdict, local_meta, true, auth),
                Response::DownloadFailed => failed(verdict, local_meta, Failure::Transfer),
                _ => failed(verdict, local_meta, Failure::Protocol),
            },
            Phase::Closing { auth } => match response {
                Response::StoreClosed => succeeded(verdict, local_meta, false, auth),
                _ => failed(verdict, local_meta, Failure::Protocol),
            },
            Phase::Finished(result) => (
                Orchestrator { phase: Phase::Finished(result), verdict, local_meta },
                None,
            ),
        }
    }

    /// What the phase ended with, once it is over.
    pub fn result(&self) -> (result: Option<&Result<SyncReport, Failure>>)
        ensures
            match self.phase {
                Phase::Finished(r) => result == Some(&r),
                _ => result is None,
            },
    {
        match &self.phase {
            Phase::Finished(r) => Some(r),
            _ => None,
        }
    }

    /// Whether the service saw no changes although the local store is empty.
    /// The run then replaces the store all the same; a host may want to log it.
    #[verifier::when_used_as_spec(spec_empty_store_anomaly)]
    pub fn empty_store_anomaly(&self) -> (anomaly: bool)
        ensures
            anomaly == self.spec_empty_store_anomaly(),
    {
        let no_changes = match self.verdict {
            Some(AttemptResult::NoChanges) => true,
            _ => false,
        };
        let empty = match self.local_meta {
            Some(meta) => meta.is_empty(),
            None => false,
        };
        no_changes && empty
    }

    /// Whether what the run has learned so far demands a full replacement.
    #[verifier::when_used_as_spec(spec_replacement_due)]
    pub fn replacement_due(&self) -> (due: bool)
        ensures
            due == self.spec_replacement_due(),
    {
        match self.verdict {
            Some(AttemptResult::FullSyncRequired) => true,
            Some(AttemptResult::RecoverableError(_)) => true,
            Some(AttemptResult::NoChanges) => self.empty_store_anomaly(),
            _ => false,
        }
    }

    /// Plays a recorded conversation: the state it ends in and every request
    /// made on the way.
    pub fn replay(host: String, responses: &Vec<Response>) -> (played: (Orchestrator, Vec<Request>))
        ensures
            played.0 == Orchestrator::run(host, responses@).0,
            played.1@ == Orchestrator::run(host, responses@).1,
    {
        let ghost configured = host;
        let (mut state, first) = Orchestrator::start(host);
        let mut trace: Vec<Request> = Vec::new();
        trace.push(first);
        assert(trace@ =~= seq![first]);
        assert(responses@.take(0).len() == 0);
        let mut i: usize = 0;
        while i < responses.len()
            invariant
                i <= responses.len(),
                state == Orchestrator::run(configured, responses@.take(i as int)).0,
                trace@ == Orchestrator::run(configured, responses@.take(i as int)).1,
            decreases responses.len() - i,
        {
            let (next, request) = state.step(responses[i].clone());
            assert(responses@.take(i + 1).drop_last() =~= responses@.take(i as int));
            assert(responses@.take(i + 1).last() == responses@[i as int]);
            state = next;
            match request {
                Some(r) => {
                    trace.push(r);
                },
                None => {},
            }
            i = i + 1;
        }
        assert(responses@.take(i as int) =~= responses@);
        (state, trace)
    }
}

/// The step that leaves `request` pending.
fn awaiting(
    phase: Phase,
    verdict: Option<AttemptResult>,
    local_meta: Option<SyncMeta>,
    request: Request,
) -> (next: (Orchestrator, Option<Request>))
    ensures
        next == (Orchestrator { phase, verdict, local_meta }, Some(request)),
{
    (Orchestrator { phase, verdict, local_meta }, Some(request))
}

/// The step that ends the phase without success.
fn failed(verdict: Option<AttemptResult>, local_meta: Option<SyncMeta>, failure: Failure) -> (next: (
    Orchestrator,
    Option<Request>,
))
    ensures
        next == (Orchestrator { phase: Phase::Finished(Err(failure)), verdict, local_meta }, None::<Request>),
{
    (Orchestrator { phase: Phase::Finished(Err(failure)), verdict, local_meta }, None)
}

/// The step that ends the phase with success.
fn succeeded(
    verdict: Option<AttemptResult>,
    local_meta: Option<SyncMeta>,
    full_sync_occurred: bool,
    final_auth: SyncAuth,
) -> (next: (Orchestrator, Option<Request>))
    ensures
        next == (
            Orchestrator {
                phase: Phase::Finished(Ok(SyncReport { full_sync_occurred, final_auth })),
                verdict,
                local_meta,
            },
            None::<Request>,
        ),
{
    (
        Orchestrator {
            phase: Phase::Finished(Ok(SyncReport { full_sync_occurred, final_auth })),
            verdict,
            local_meta,
        },
        None,
    )
}

/// The step towards a full download, by way of a sign-in where the service
/// named a new endpoint.
fn replacing(
    verdict: Option<AttemptResult>,
    local_meta: Option<SyncMeta>,
    auth: SyncAuth,
    new_endpoint: Option<String>,
) -> (next: (Orchestrator, Option<Request>))
    ensures
        next == (Orchestrator { phase: next.0.phase, verdict, local_meta }).replacing(
            auth,
            new_endpoint,
        ),
        next.1 is Some,
        !(next.0.phase is Finished),
{
    match reauthenticate(auth, new_endpoint) {
        Refresh::Keep(auth) => {
            let sent = auth.clone();
            awaiting(Phase::Downloading { auth }, verdict, local_meta, Request::FullDownload { auth: sent })
        },
        Refresh::Login { endpoint } => {
            let sent = endpoint.clone();
            awaiting(
                Phase::Reauthenticating { endpoint },
                verdict,
                local_meta,
                Request::Login { endpoint: sent },
            )
        },
    }
}

/// What holds of the state and the record after every conversation, phase by
/// phase: the state is well formed, and the record holds exactly the requests
/// that lead to the phase.
pub open spec fn sync_consistent(state: Orchestrator, trace: Seq<Request>) -> bool {
    let logins = occurrences(trace, RequestKind::Login);
    let syncs = occurrences(trace, RequestKind::NormalSync);
    let reads = occurrences(trace, RequestKind::ReadSyncMeta);
    let checks = occurrences(trace, RequestKind::StatusCheck);
    let downloads = occurrences(trace, RequestKind::FullDownload);
    let closes = occurrences(trace, RequestKind::CloseStore);
    let recovering = state.verdict matches Some(AttemptResult::RecoverableError(_));
    let checks_due = if recovering {
        1nat
    } else {
        0nat
    };
    &&& state.well_formed()
    &&& occurrences(trace, RequestKind::OpenStore) == 1
    &&& occurrences(trace, RequestKind::CheckDatabase) == 0
    &&& store_discipline(trace)
    &&& match state.phase {
        Phase::OpeningStore { .. } => {
            &&& logins == 0 && syncs == 0 && reads == 0 && checks == 0
            &&& downloads == 0 && closes == 0 && holds_store(trace)
        },
        Phase::LoggingIn { .. } => {
            &&& logins == 1 && syncs == 0 && reads == 0 && checks == 0
            &&& downloads == 0 && closes == 0 && holds_store(trace)
        },
        Phase::Syncing { .. } => {
            &&& logins == 1 && syncs == 1 && reads == 0 && checks == 0
            &&& downloads == 0 && closes == 0 && holds_store(trace)
        },
        Phase::ConfirmingNoChanges { .. } => {
            &&& logins == 1 && syncs == 1 && reads == 1 && checks == 0
            &&& downloads == 0 && closes == 0 && holds_store(trace)
        },
        Phase::ReadingMeta { .. } => {
            &&& logins == 1 && syncs == 1 && reads == 1 && checks == 0
            &&& downloads == 0 && closes == 0 && holds_store(trace)
        },
        Phase::CheckingStatus { .. } => {
            &&& logins == 1 && syncs == 1 && reads == 1 && checks == 1
            &&& downloads == 0 && closes == 0 && holds_store(trace)
        },
        Phase::Reauthenticating { .. } => {
            &&& logins == 2 && syncs == 1 && checks == checks_due
            &&& downloads == 0 && closes == 0 && holds_store(trace)
        },
        Phase::Downloading { .. } => {
            &&& 1 <= logins <= 2 && syncs == 1 && checks == checks_due
            &&& downloads == 1 && closes == 0 && !holds_store(trace)
        },
        Phase::Closing { .. } => {
            &&& logins == 1 && syncs == 1 && checks == 0
            &&& downloads == 0 && closes == 1 && !holds_store(trace)
        },
        Phase::Finished(Ok(report)) => {
            &&& syncs == 1 && !holds_store(trace)
            &&& if report.full_sync_occurred {
                &&& 1 <= logins <= 2 && checks == checks_due
                &&& downloads == 1 && closes == 0
            } else {
                &&& logins == 1 && checks == 0
                &&& downloads == 0 && closes == 1
            }
        },
        Phase::Finished(Err(_)) => {
            &&& logins <= 2 && syncs <= 1 && checks <= 1 && downloads <= 1 && closes <= 1
            &&& checks == 1 ==> recovering
            &&& !state.replacement_due() ==> logins <= 1 && downloads == 0
        },
    }
}

/// One step keeps the state and the record consistent.
pub proof fn lemma_sync_step_consistent(state: Orchestrator, trace: Seq<Request>, response: Response)
    requires
        sync_consistent(state, trace),
    ensures
        sync_consistent(state.step_spec(response).0, extended(trace, state.step_spec(response).1)),
{
    let (next, request) = state.step_spec(response);
    match request {
        Some(r) => {
            lemma_occurrences_push(trace, r, RequestKind::OpenStore);
            lemma_occurrences_push(trace, r, RequestKind::Login);
            lemma_occurrences_push(trace, r, RequestKind::NormalSync);
            lemma_occurrences_push(trace, r, RequestKind::ReadSyncMeta);
            lemma_occurrences_push(trace, r, RequestKind::StatusCheck);
            lemma_occurrences_push(trace, r, RequestKind::FullDownload);
            lemma_occurrences_push(trace, r, RequestKind::CheckDatabase);
            lemma_occurrences_push(trace, r, RequestKind::CloseStore);
            lemma_store_push(trace, r);
        },
        None => {},
    }
}

/// Every conversation leaves the state and the record consistent.
pub proof fn lemma_sync_run_consistent(host: String, responses: Seq<Response>)
    ensures
        sync_consistent(Orchestrator::run(host, responses).0, Orchestrator::run(host, responses).1),
    decreases responses.len(),
{
    if responses.len() == 0 {
        let first = Orchestrator::start_spec(host).1;
        let empty = Seq::<Request>::empty();
        assert(seq![first] =~= empty.push(first));
        lemma_occurrences_push(empty, first, RequestKind::OpenStore);
        lemma_occurrences_push(empty, first, RequestKind::Login);
        lemma_occurrences_push(empty, first, RequestKind::NormalSync);
        lemma_occurrences_push(empty, first, RequestKind::ReadSyncMeta);
        lemma_occurrences_push(empty, first, RequestKind::StatusCheck);
        lemma_occurrences_push(empty, first, RequestKind::FullDownload);
        lemma_occurrences_push(empty, first, RequestKind::CheckDatabase);
        lemma_occurrences_push(empty, first, RequestKind::CloseStore);
        lemma_store_push(empty, first);
    } else {
        lemma_sync_run_consistent(host, responses.drop_last());
        let (state, trace) = Orchestrator::run(host, responses.drop_last());
        lemma_sync_step_consistent(state, trace, responses.last());
    }
}

/// Unless a full sync is required, the attempt failed recoverably, or the
/// service saw no changes on an empty store, the sync phase is a pure no-op:
/// it never asks for a full download, for a status check or for a second
/// sign-in, whatever the host reports.
pub proof fn noop_path_replaces_nothing(host: String, responses: Seq<Response>)
    requires
        !Orchestrator::run(host, responses).0.replacement_due(),
    ensures
        ({
            let (state, trace) = Orchestrator::run(host, responses);
            &&& occurrences(trace, RequestKind::FullDownload) == 0
            &&& occurrences(trace, RequestKind::StatusCheck) == 0
            &&& occurrences(trace, RequestKind::Login) <= 1
            &&& state.phase matches Phase::Finished(Ok(report)) ==> !report.full_sync_occurred
        }),
{
    lemma_sync_run_consistent(host, responses);
}

/// When the service sees no changes and the local metadata turns out to be
/// that of an empty store, the very next request leads to the replacement:
/// the full download itself where the service named no new endpoint, the
/// sign-in at the new endpoint where it named one.
pub proof fn empty_store_is_replaced_at_once(
    state: Orchestrator,
    auth: SyncAuth,
    new_endpoint: Option<String>,
    meta: SyncMeta,
)
    requires
        state.phase == (Phase::ConfirmingNoChanges { auth, new_endpoint }),
        meta.is_empty(),
    ensures
        state.step_spec(Response::MetaRead(meta)).1 == match new_endpoint {
            None => Some(Request::FullDownload { auth }),
            Some(endpoint) => Some(Request::Login { endpoint }),
        },
        state.step_spec(Response::MetaRead(meta)).0.local_meta == Some(meta),
{
}

/// A run in which the service saw no changes on an empty store never takes
/// the no-op path: it cannot close the store unreplaced, and where its sync
/// phase ends well, the store was replaced exactly once.
pub proof fn empty_store_forces_replacement(host: String, responses: Seq<Response>)
    requires
        Orchestrator::run(host, responses).0.empty_store_anomaly(),
    ensures
        ({
            let (state, trace) = Orchestrator::run(host, responses);
            &&& !(state.phase is Closing)
            &&& occurrences(trace, RequestKind::CloseStore) == 0
            &&& state.phase matches Phase::Finished(Ok(report)) ==> {
                &&& report.full_sync_occurred
                &&& occurrences(trace, RequestKind::FullDownload) == 1
            }
        }),
{
    lemma_sync_run_consistent(host, responses);
    lemma_anomaly_never_closes(host, responses);
}

/// Once the store is known to be empty although the service saw no changes,
/// no request to close it is ever made.
proof fn lemma_anomaly_never_closes(host: String, responses: Seq<Response>)
    requires
        Orchestrator::run(host, responses).0.empty_store_anomaly(),
    ensures
        occurrences(Orchestrator::run(host, responses).1, RequestKind::CloseStore) == 0,
    decreases responses.len(),
{
    lemma_sync_run_consistent(host, responses);
    if responses.len() > 0 {
        let (before, trace) = Orchestrator::run(host, responses.drop_last());
        lemma_sync_run_consistent(host, responses.drop_last());
        let (next, request) = before.step_spec(responses.last());
        match request {
            Some(r) => {
                lemma_occurrences_push(trace, r, RequestKind::CloseStore);
            },
            None => {},
        }
        if before.empty_store_anomaly() {
            lemma_anomaly_never_closes(host, responses.drop_last());
        }
    }
}

/// After a normal sync that failed with one of the recoverable kinds, the
/// status check and the full download are each asked for at most once, and
/// exactly once in a sync phase that ends well, whether or not the service
/// names a new endpoint.
pub proof fn recovery_checks_and_replaces_once(host: String, responses: Seq<Response>)
    requires
        Orchestrator::run(host, responses).0.verdict matches Some(
            AttemptResult::RecoverableError(_),
        ),
    ensures
        ({
            let (state, trace) = Orchestrator::run(host, responses);
            &&& occurrences(trace, RequestKind::StatusCheck) <= 1
            &&& occurrences(trace, RequestKind::FullDownload) <= 1
            &&& state.phase matches Phase::Finished(Ok(report)) ==> {
                &&& report.full_sync_occurred
                &&& occurrences(trace, RequestKind::StatusCheck) == 1
                &&& occurrences(trace, RequestKind::FullDownload) == 1
            }
        }),
{
    lemma_sync_run_consistent(host, responses);
}

/// Where the service names no new endpoint, the replacement begins at once
/// with the credential at hand: no sign-in is asked for, and the sync phase
/// ends with that same credential.
pub proof fn replacement_without_redirect_keeps_credential(state: Orchestrator, auth: SyncAuth)
    ensures
        state.replacing(auth, None).1 == Some(Request::FullDownload { auth }),
        state.replacing(auth, None).0.phase == (Phase::Downloading { auth }),
        state.replacing(auth, None).0.step_spec(Response::Downloaded).0.phase == Phase::Finished(
            Ok(SyncReport { full_sync_occurred: true, final_auth: auth }),
        ),
{
}

/// Where the service names a new endpoint, the sign-in there comes first,
/// and the full download and the rest of the run use the credential that
/// this sign-in granted, bound to exactly that endpoint.
pub proof fn replacement_after_redirect_signs_in_there(
    state: Orchestrator,
    auth: SyncAuth,
    endpoint: String,
    granted: SyncAuth,
)
    ensures
        ({
            let (signing_in, login) = state.replacing(auth, Some(endpoint));
            let (downloading, download) = signing_in.step_spec(Response::LoggedIn(granted));
            let fresh = granted.scoped_to_spec(endpoint);
            &&& login == Some(Request::Login { endpoint })
            &&& download == Some(Request::FullDownload { auth: fresh })
            &&& fresh.endpoint == Some(endpoint)
            &&& fresh.token == granted.token
            &&& downloading.step_spec(Response::Downloaded).0.phase == Phase::Finished(
                Ok(SyncReport { full_sync_occurred: true, final_auth: fresh }),
            )
        }),
{
}

/// The sync phase opens the store once, never checks its integrity, uses it
/// only while it is open, and has given it up by the time it ends well.
pub proof fn sync_phase_keeps_store_discipline(host: String, responses: Seq<Response>)
    ensures
        ({
            let (state, trace) = Orchestrator::run(host, responses);
            &&& store_discipline(trace)
            &&& occurrences(trace, RequestKind::OpenStore) == 1
            &&& occurrences(trace, RequestKind::NormalSync) <= 1
            &&& occurrences(trace, RequestKind::CheckDatabase) == 0
            &&& state.phase matches Phase::Finished(Ok(_)) ==> !holds_store(trace)
        }),
{
    lemma_sync_run_consistent(host, responses);
}

} // verus!
