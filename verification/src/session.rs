//! A whole run: the sync phase, then the integrity gate.

use vstd::prelude::*;
use crate::gate::{
    gate_consistent, lemma_gate_step_consistent, GatePhase, IntegrityGate, MAX_ATTEMPTS,
};
use crate::model::{Failure, SyncAuth};
use crate::orchestrator::{
    lemma_sync_step_consistent, sync_consistent, Orchestrator, Phase,
};
use crate::protocol::{
    extended, holds_store, lemma_occurrences_push, lemma_store_push, occurrences,
    store_discipline, Request, RequestKind, Response,
};

verus! {

/// The exit code of a run that replaced the local store in its sync phase.
pub const EXIT_FULL_SYNC: i32 = 255;

/// The exit code of a run that got by with the incremental exchange.
pub const EXIT_INCREMENTAL: i32 = 0;

/// What a run that ended well reports.
#[derive(Debug, PartialEq, Eq)]
pub struct RunReport {
    /// Whether the sync phase replaced the local store.
    pub full_sync_occurred: bool,
    /// The credential that the run ended with.
    pub final_auth: SyncAuth,
    /// The attempt at which the store passed its integrity check, counted
    /// from one.
    pub integrity_attempts: u8,
}

impl Clone for RunReport {
    fn clone(&self) -> (copy: RunReport)
        ensures
            copy == *self,
    {
        RunReport {
            full_sync_occurred: self.full_sync_occurred,
            final_auth: self.final_auth.clone(),
            integrity_attempts: self.integrity_attempts,
        }
    }
}

impl RunReport {
    /// What [`RunReport::exit_code`] returns.
    pub open spec fn exit_code_spec(&self) -> i32 {
        if self.full_sync_occurred {
            EXIT_FULL_SYNC
        } else {
            EXIT_INCREMENTAL
        }
    }

    /// The exit code by which the calling environment tells a run that
    /// replaced the store from one that did not.
    pub fn exit_code(&self) -> (code: i32)
        ensures
            code == self.exit_code_spec(),
    {
        if self.full_sync_occurred {
            EXIT_FULL_SYNC
        } else {
            EXIT_INCREMENTAL
        }
    }
}

/// The state of a run between two collaborator calls.
#[derive(Debug, PartialEq, Eq)]
pub enum Session {
    /// The sync phase is under way.
    Syncing(Orchestrator),
    /// The sync phase ended well and the integrity gate is under way.
    Checking { gate: IntegrityGate, full_sync_occurred: bool },
    /// The run is over.
    Finished(Result<RunReport, Failure>),
}

impl Session {
    /// What [`Session::start`] returns.
    pub open spec fn start_spec(host: String) -> (Session, Request) {
        (Session::Syncing(Orchestrator::start_spec(host).0), Orchestrator::start_spec(host).1)
    }

    /// Where the run stands once the sync phase has taken a step: still in
    /// the sync phase, at the first request of the integrity check if the
    /// phase ended well, or at its end if the phase failed.
    pub open spec fn after_sync_step(stepped: (Orchestrator, Option<Request>)) -> (
        Session,
        Option<Request>,
    ) {
        match stepped.0.phase {
            Phase::Finished(Ok(report)) => (
                Session::Checking {
                    gate: IntegrityGate::start_spec(report.final_auth).0,
                    full_sync_occurred: report.full_sync_occurred,
                },
                Some(IntegrityGate::start_spec(report.final_auth).1),
            ),
            Phase::Finished(Err(failure)) => (Session::Finished(Err(failure)), None),
            _ => (Session::Syncing(stepped.0), stepped.1),
        }
    }

    /// Where the run stands once the integrity check has taken a step: still
    /// checking, or at its end with the result of the check.
    pub open spec fn after_gate_step(
        stepped: (IntegrityGate, Option<Request>),
        full_sync_occurred: bool,
    ) -> (Session, Option<Request>) {
        match stepped.0.phase {
            GatePhase::Finished(Ok(_)) => (
                Session::Finished(
                    Ok(
                        RunReport {
                            full_sync_occurred,
                            final_auth: stepped.0.auth,
                            integrity_attempts: stepped.0.attempt,
                        },
                    ),
                ),
                None,
            ),
            GatePhase::Finished(Err(failure)) => (Session::Finished(Err(failure)), None),
            _ => (Session::Checking { gate: stepped.0, full_sync_occurred }, stepped.1),
        }
    }

    /// The state after `response` and the next request, or `None` once the
    /// run is over. The response goes to whichever of the two phases is under
    /// way; a finished run stays as it is.
    pub open spec fn step_spec(self, response: Response) -> (Session, Option<Request>) {
        match self {
            Session::Syncing(orchestrator) => Session::after_sync_step(
                orchestrator.step_spec(response),
            ),
            Session::Checking { gate, full_sync_occurred } => Session::after_gate_step(
                gate.step_spec(response),
                full_sync_occurred,
            ),
            Session::Finished(_) => (self, None),
        }
    }

    /// The state after a whole conversation, and every request made in it,
    /// in order.
    pub open spec fn run(host: String, responses: Seq<Response>) -> (Session, Seq<Request>)
        decreases responses.len(),
    {
        if responses.len() == 0 {
            let (state, request) = Session::start_spec(host);
            (state, seq![request])
        } else {
            let (state, trace) = Session::run(host, responses.drop_last());
            let (next, request) = state.step_spec(responses.last());
            (next, extended(trace, request))
        }
    }

    /// Whether the phase under way is well formed and not yet over, and a
    /// reported attempt is one of the permitted ones. Every state that a
    /// conversation reaches is well formed; one put together by hand need
    /// not be.
    pub open spec fn well_formed(&self) -> bool {
        match *self {
            Session::Syncing(orchestrator) => {
                &&& orchestrator.well_formed()
                &&& !(orchestrator.phase is Finished)
            },
            Session::Checking { gate, .. } => gate.well_formed() && !(gate.phase is Finished),
            Session::Finished(Ok(report)) => 1 <= report.integrity_attempts <= MAX_ATTEMPTS,
            Session::Finished(Err(_)) => true,
        }
    }

    /// Whether the service saw no changes although the local store is empty.
    pub open spec fn spec_empty_store_anomaly(&self) -> bool {
        match self {
            Session::Syncing(orchestrator) => orchestrator.empty_store_anomaly(),
            _ => false,
        }
    }

    /// Begins a run against the configured host.
    pub fn start(host: String) -> (begun: (Session, Request))
        ensures
            begun == Session::start_spec(host),
            begun.0.well_formed(),
    {
        let (orchestrator, request) = Orchestrator::start(host);
        (Session::Syncing(orchestrator), request)
    }

    /// Takes the host's answer to the pending request and decides what
    /// happens next.
    pub fn step(self, response: Response) -> (next: (Session, Option<Request>))
        ensures
            next == self.step_spec(response),
            next.1 is None <==> next.0 is Finished,
            self.well_formed() ==> next.0.well_formed(),
    {
        match self {
            Session::Syncing(orchestrator) => {
                let (stepped, request) = orchestrator.step(response);
                let Orchestrator { phase, verdict, local_meta } = stepped;
                match phase {
                    Phase::Finished(Ok(report)) => {
                        let (gate, first) = IntegrityGate::start(report.final_auth);
                        (
                            Session::Checking {
                                gate,
                                full_sync_occurred: report.full_sync_occurred,
                            },
                            Some(first),
                        )
                    },
                    Phase::Finished(Err(failure)) => (Session::Finished(Err(failure)), None),
                    phase => (
                        Session::Syncing(Orchestrator { phase, verdict, local_meta }),
                        request,
                    ),
                }
            },
            Session::Checking { gate, full_sync_occurred } => {
                let (stepped, request) = gate.step(response);
                match stepped.phase {
                    GatePhase::Finished(Ok(_)) => (
                        Session::Finished(
                            Ok(
                                RunReport {
                                    full_sync_occurred,
                                    final_auth: stepped.auth,
                                    integrity_attempts: stepped.attempt,
                                },
                            ),
                        ),
                        None,
                    ),
                    GatePhase::Finished(Err(failure)) => (Session::Finished(Err(failure)), None),
                    _ => (Session::Checking { gate: stepped, full_sync_occurred }, request),
                }
            },
            Session::Finished(result) => (Session::Finished(result), None),
        }
    }

    /// What the run ended with, once it is over.
    pub fn outcome(&self) -> (outcome: Option<&Result<RunReport, Failure>>)
        ensures
            match *self {
                Session::Finished(r) => outcome == Some(&r),
                _ => outcome is None,
            },
    {
        match self {
            Session::Finished(r) => Some(r),
            _ => None,
        }
    }

    /// Whether the service saw no changes although the local store is empty.
    /// The run then replaces the store all the same; a host may want to log it.
    #[verifier::when_used_as_spec(spec_empty_store_anomaly)]
    pub fn empty_store_anomaly(&self) -> (anomaly: bool)
        ensures
            anomaly == self.spec_empty_store_anomaly(),
    {
        match self {
            Session::Syncing(orchestrator) => orchestrator.empty_store_anomaly(),
            _ => false,
        }
    }

    /// Plays a recorded conversation: the state it ends in and every request
    /// made on the way.
    pub fn replay(host: String, responses: &Vec<Response>) -> (played: (Session, Vec<Request>))
        ensures
            played.0 == Session::run(host, responses@).0,
            played.1@ == Session::run(host, responses@).1,
    {
        let ghost configured = host;
        let (mut state, first) = Session::start(host);
        let mut trace: Vec<Request> = Vec::new();
        trace.push(first);
        assert(trace@ =~= seq![first]);
        assert(responses@.take(0).len() == 0);
        let mut i: usize = 0;
        while i < responses.len()
            invariant
                i <= responses.len(),
                state == Session::run(configured, responses@.take(i as int)).0,
                trace@ == Session::run(configured, responses@.take(i as int)).1,
            decreases responses.len() - i,
        {
            let (next, request) = state.step(responses[i].clone());
            assert(responses@.take(i + 1).drop_last() =~= responses@.take(i as int));
            assert(responses@.take(i + 1).last() == responses@[i as int]);
            state = next;
            match request {
                Some(r) => {
                    trace.push(r);
                },
                None => {},
            }
            i = i + 1;
        }
        assert(responses@.take(i as int) =~= responses@);
        (state, trace)
    }
}

/// How many full downloads a sync phase that ended well has asked for.
pub open spec fn sync_downloads(full_sync_occurred: bool) -> nat {
    if full_sync_occurred {
        1
    } else {
        0
    }
}

/// What holds of a run and its record after every conversation.
pub open spec fn session_consistent(session: Session, trace: Seq<Request>) -> bool {
    match session {
        Session::Syncing(orchestrator) => {
            &&& session.well_formed()
            &&& sync_consistent(orchestrator, trace)
        },
        Session::Checking { gate, full_sync_occurred } => {
            &&& session.well_formed()
            &&& gate_consistent(
                gate,
                trace,
                1,
                sync_downloads(full_sync_occurred),
                (1 - sync_downloads(full_sync_occurred)) as nat,
            )
        },
        Session::Finished(Ok(report)) => {
            &&& session.well_formed()
            &&& store_discipline(trace)
            &&& !holds_store(trace)
            &&& occurrences(trace, RequestKind::OpenStore) == 1 + report.integrity_attempts
            &&& occurrences(trace, RequestKind::CheckDatabase) == report.integrity_attempts
            &&& occurrences(trace, RequestKind::FullDownload) == sync_downloads(
                report.full_sync_occurred,
            ) + report.integrity_attempts - 1
        },
        Session::Finished(Err(failure)) => {
            &&& store_discipline(trace)
            &&& 1 <= occurrences(trace, RequestKind::OpenStore) <= 1 + MAX_ATTEMPTS
            &&& occurrences(trace, RequestKind::CheckDatabase) <= MAX_ATTEMPTS
            &&& occurrences(trace, RequestKind::FullDownload) <= 1 + MAX_ATTEMPTS
            &&& failure == Failure::Integrity ==> {
                &&& occurrences(trace, RequestKind::OpenStore) == 1 + MAX_ATTEMPTS
                &&& occurrences(trace, RequestKind::CheckDatabase) == MAX_ATTEMPTS
                &&& occurrences(trace, RequestKind::FullDownload) >= MAX_ATTEMPTS
            }
        },
    }
}

/// One step of a run keeps the state and the record consistent.
proof fn lemma_session_step_consistent(session: Session, trace: Seq<Request>, response: Response)
    requires
        session_consistent(session, trace),
    ensures
        session_consistent(
            session.step_spec(response).0,
            extended(trace, session.step_spec(response).1),
        ),
{
    match session {
        Session::Syncing(orchestrator) => {
            lemma_sync_step_consistent(orchestrator, trace, response);
            let stepped = orchestrator.step_spec(response);
            if stepped.0.phase is Finished {
                assert(stepped.1 is None);
                lemma_occurrences_push(trace, Request::OpenStore, RequestKind::OpenStore);
                lemma_occurrences_push(trace, Request::OpenStore, RequestKind::CheckDatabase);
                lemma_occurrences_push(trace, Request::OpenStore, RequestKind::FullDownload);
                lemma_occurrences_push(trace, Request::OpenStore, RequestKind::CloseStore);
                lemma_store_push(trace, Request::OpenStore);
            }
        },
        Session::Checking { gate, full_sync_occurred } => {
            lemma_gate_step_consistent(
                gate,
                trace,
                response,
                1,
                sync_downloads(full_sync_occurred),
                (1 - sync_downloads(full_sync_occurred)) as nat,
            );
        },
        Session::Finished(_) => {},
    }
}

/// Every conversation leaves the run and its record consistent.
proof fn lemma_session_run_consistent(host: String, responses: Seq<Response>)
    ensures
        session_consistent(Session::run(host, responses).0, Session::run(host, responses).1),
    decreases responses.len(),
{
    if responses.len() == 0 {
        crate::orchestrator::lemma_sync_run_consistent(host, responses);
    } else {
        lemma_session_run_consistent(host, responses.drop_last());
        let (state, trace) = Session::run(host, responses.drop_last());
        lemma_session_step_consistent(state, trace, responses.last());
    }
}

/// In every run the store's handle is respected: the store is opened only
/// while no handle is held, and synced, read, checked, replaced or closed only
/// while one is. It is opened once for the sync phase and at most three
/// times for the integrity check.
pub proof fn run_keeps_store_discipline(host: String, responses: Seq<Response>)
    ensures
        store_discipline(Session::run(host, responses).1),
        occurrences(Session::run(host, responses).1, RequestKind::OpenStore) <= 1 + MAX_ATTEMPTS,
        occurrences(Session::run(host, responses).1, RequestKind::CheckDatabase) <= MAX_ATTEMPTS,
{
    lemma_session_run_consistent(host, responses);
    crate::orchestrator::sync_phase_keeps_store_discipline(host, responses);
}

/// A run that ends well has closed the store, passed the integrity check at
/// one of the three attempts, and replaced the store once for each attempt
/// before that one, besides the replacement of the sync phase if there was
/// one.
pub proof fn successful_run_accounts_for_replacements(host: String, responses: Seq<Response>)
    requires
        Session::run(host, responses).0 is Finished,
    ensures
        ({
            let (session, trace) = Session::run(host, responses);
            session matches Session::Finished(Ok(report)) ==> {
                &&& 1 <= report.integrity_attempts <= MAX_ATTEMPTS
                &&& !holds_store(trace)
                &&& occurrences(trace, RequestKind::OpenStore) == 1 + report.integrity_attempts
                &&& occurrences(trace, RequestKind::CheckDatabase) == report.integrity_attempts
                &&& occurrences(trace, RequestKind::FullDownload) == sync_downloads(
                    report.full_sync_occurred,
                ) + report.integrity_attempts - 1
            }
        }),
{
    lemma_session_run_consistent(host, responses);
}

/// A run ends with [`Failure::Integrity`] only after the store has been
/// opened, checked and replaced three times following the sync phase.
pub proof fn integrity_failure_exhausts_attempts(host: String, responses: Seq<Response>)
    requires
        Session::run(host, responses).0 == Session::Finished(Err(Failure::Integrity)),
    ensures
        occurrences(Session::run(host, responses).1, RequestKind::OpenStore) == 1 + MAX_ATTEMPTS,
        occurrences(Session::run(host, responses).1, RequestKind::CheckDatabase) == MAX_ATTEMPTS,
        occurrences(Session::run(host, responses).1, RequestKind::FullDownload) >= MAX_ATTEMPTS,
{
    lemma_session_run_consistent(host, responses);
}

/// Until the sync phase is over, a run is the orchestrator's own
/// conversation: the same state and the same record. What is proved of the
/// orchestrator's conversations therefore holds of the sync phase of every
/// run.
pub proof fn run_begins_as_sync_phase(host: String, responses: Seq<Response>)
    requires
        !(Orchestrator::run(host, responses).0.phase is Finished),
    ensures
        Session::run(host, responses) == (
            Session::Syncing(Orchestrator::run(host, responses).0),
            Orchestrator::run(host, responses).1,
        ),
    decreases responses.len(),
{
    if responses.len() > 0 {
        run_begins_as_sync_phase(host, responses.drop_last());
    }
}

/// The step that ends the sync phase decides how the run goes on: a phase
/// that ended well hands its credential to the integrity gate, whose first
/// request, to open the store, joins the record; a phase that failed ends
/// the run with its failure and adds nothing to the record.
pub proof fn run_goes_on_as_sync_phase_ended(host: String, responses: Seq<Response>)
    requires
        responses.len() > 0,
        !(Orchestrator::run(host, responses.drop_last()).0.phase is Finished),
    ensures
        ({
            let (orchestrator, trace) = Orchestrator::run(host, responses);
            match orchestrator.phase {
                Phase::Finished(Ok(report)) => Session::run(host, responses) == (
                    Session::Checking {
                        gate: IntegrityGate::start_spec(report.final_auth).0,
                        full_sync_occurred: report.full_sync_occurred,
                    },
                    trace.push(Request::OpenStore),
                ),
                Phase::Finished(Err(failure)) => Session::run(host, responses) == (
                    Session::Finished(Err(failure)),
                    trace,
                ),
                _ => Session::run(host, responses) == (Session::Syncing(orchestrator), trace),
            }
        }),
{
    run_begins_as_sync_phase(host, responses.drop_last());
}

} // verus!
