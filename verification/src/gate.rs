//! The integrity gate: after the sync phase the store is opened afresh and
//! checked; a store that fails the check is replaced and checked again, a
//! bounded number of times. A store that fails the last permitted check is
//! replaced once more and the run ends in failure: it is never reported as a
//! success of lesser standing.

use vstd::prelude::*;
use crate::model::{Failure, SyncAuth};
use crate::protocol::{
    extended, holds_store, lemma_occurrences_push, lemma_store_push, occurrences,
    store_discipline, Request, RequestKind, Response,
};

verus! {

/// How many times the store is opened and checked before the run gives up.
pub const MAX_ATTEMPTS: u8 = 3;

/// The answer that an [`IntegrityGate`] is waiting for.
#[derive(Debug, Clone, Copy, PartialEq, Eq)]
pub enum GatePhase {
    /// The store is being opened for this attempt.
    Opening,
    /// The integrity check of this attempt is running.
    Checking,
    /// The check of this attempt failed; the replacement is running.
    Replacing,
    /// The check of this attempt passed; the store is being closed.
    Closing,
    /// Nothing is left to do.
    Finished(Result<(), Failure>),
}

/// The state of the integrity check between two collaborator calls.
#[derive(Debug, PartialEq, Eq)]
pub struct IntegrityGate {
    /// The credential for the replacements.
    pub auth: SyncAuth,
    /// The number of the attempt under way, counted from one.
    pub attempt: u8,
    pub phase: GatePhase,
}

impl IntegrityGate {
    /// What [`IntegrityGate::start`] returns.
    pub open spec fn start_spec(auth: SyncAuth) -> (IntegrityGate, Request) {
        (IntegrityGate { auth, attempt: 1, phase: GatePhase::Opening }, Request::OpenStore)
    }

    /// Whether the number of the attempt is one that a run can reach. Every
    /// state that a conversation reaches is well formed; one put together by
    /// hand need not be.
    pub open spec fn well_formed(&self) -> bool {
        &&& 1 <= self.attempt <= MAX_ATTEMPTS
        &&& self.phase == GatePhase::Finished(Err(Failure::Integrity)) ==> self.attempt
            == MAX_ATTEMPTS
    }

    /// The state in which `request` is pending.
    pub open spec fn awaiting(self, phase: GatePhase, request: Request) -> (
        IntegrityGate,
        Option<Request>,
    ) {
        (IntegrityGate { phase, ..self }, Some(request))
    }

    /// The state in which nothing more is asked.
    pub open spec fn finished(self, result: Result<(), Failure>) -> (
        IntegrityGate,
        Option<Request>,
    ) {
        (IntegrityGate { phase: GatePhase::Finished(result), ..self }, None)
    }

    /// The transition table: the state after `response` and the next
    /// request, or `None` once nothing is left to do.
    ///
    /// A passed check ends in success as soon as the store is closed. A
    /// failed check is followed by a full download; after the download the
    /// next attempt begins, unless this was the last one, which ends in
    /// [`Failure::Integrity`]. A response that does not answer the pending
    /// request ends in [`Failure::Protocol`]. A finished state stays as it
    /// is.
    pub open spec fn step_spec(self, response: Response) -> (IntegrityGate, Option<Request>) {
        match (self.phase, response) {
            (GatePhase::Opening, Response::StoreOpened) => self.awaiting(
                GatePhase::Checking,
                Request::CheckDatabase,
            ),
            (GatePhase::Opening, Response::StoreUnavailable) => self.finished(
                Err(Failure::Store),
            ),
            (GatePhase::Checking, Response::DatabaseSound) => self.awaiting(
                GatePhase::Closing,
                Request::CloseStore,
            ),
            (GatePhase::Checking, Response::DatabaseDamaged) => self.awaiting(
                GatePhase::Replacing,
                Request::FullDownload { auth: self.auth },
            ),
            (GatePhase::Replacing, Response::Downloaded) => if self.attempt < MAX_ATTEMPTS {
                IntegrityGate { attempt: (self.attempt + 1) as u8, ..self }.awaiting(
                    GatePhase::Opening,
                    Request::OpenStore,
                )
            } else {
                self.finished(Err(Failure::Integrity))
            },
            (GatePhase::Replacing, Response::DownloadFailed) => self.finished(
                Err(Failure::Transfer),
            ),
            (GatePhase::Closing, Response::StoreClosed) => self.finished(Ok(())),
            (GatePhase::Finished(_), _) => (self, None),
            _ => self.finished(Err(Failure::Protocol)),
        }
    }

    /// The state after a whole conversation, and every request made in it,
    /// in order. The conversation begins with the request to open the store;
    /// each response is answered by one step.
    pub open spec fn run(auth: SyncAuth, responses: Seq<Response>) -> (
        IntegrityGate,
        Seq<Request>,
    )
        decreases responses.len(),
    {
        if responses.len() == 0 {
            let (state, request) = IntegrityGate::start_spec(auth);
            (state, seq![request])
        } else {
            let (state, trace) = IntegrityGate::run(auth, responses.drop_last());
            let (next, request) = state.step_spec(responses.last());
            (next, extended(trace, request))
        }
    }

    /// Begins the first attempt, with the credential that the sync phase
    /// ended with.
    pub fn start(auth: SyncAuth) -> (begun: (IntegrityGate, Request))
        ensures
            begun == IntegrityGate::start_spec(auth),
            begun.0.well_formed(),
    {
        (IntegrityGate { auth, attempt: 1, phase: GatePhase::Opening }, Request::OpenStore)
    }

    /// Takes the host's answer to the pending request and decides what
    /// happens next.
    pub fn step(self, response: Response) -> (next: (IntegrityGate, Option<Request>))
        ensures
            next == self.step_spec(response),
            next.1 is None <==> next.0.phase is Finished,
            self.well_formed() ==> next.0.well_formed(),
    {
        let IntegrityGate { auth, attempt, phase } = self;
        match phase {
            GatePhase::Opening => match response {
                Response::StoreOpened => (
                    IntegrityGate { auth, attempt, phase: GatePhase::Checking },
                    Some(Request::CheckDatabase),
                ),
                Response::StoreUnavailable => done(auth, attempt, Err(Failure::Store)),
                _ => done(auth, attempt, Err(Failure::Protocol)),
            },
            GatePhase::Checking => match response {
                Response::DatabaseSound => (
                    IntegrityGate { auth, attempt, phase: GatePhase::Closing },
                    Some(Request::CloseStore),
                ),
                Response::DatabaseDamaged => {
                    let sent = auth.clone();
                    (
                        IntegrityGate { auth, attempt, phase: GatePhase::Replacing },
                        Some(Request::FullDownload { auth: sent }),
                    )
                },
                _ => done(auth, attempt, Err(Failure::Protocol)),
            },
            GatePhase::Replacing => match response {
                Response::Downloaded => {
                    if attempt < MAX_ATTEMPTS {
                        (
                            IntegrityGate { auth, attempt: attempt + 1, phase: GatePhase::Opening },
                            Some(Request::OpenStore),
                        )
                    } else {
                        done(auth, attempt, Err(Failure::Integrity))
                    }
                },
                Response::DownloadFailed => done(auth, attempt, Err(Failure::Transfer)),
                _ => done(auth, attempt, Err(Failure::Protocol)),
            },
            GatePhase::Closing => match response {
                Response::StoreClosed => done(auth, attempt, Ok(())),
                _ => done(auth, attempt, Err(Failure::Protocol)),
            },
            GatePhase::Finished(result) => done(auth, attempt, result),
        }
    }

    /// How the integrity check ended, once it has.
    pub fn result(&self) -> (result: Option<Result<(), Failure>>)
        ensures
            match self.phase {
                GatePhase::Finished(r) => result == Some(r),
                _ => result is None,
            },
    {
        match self.phase {
            GatePhase::Finished(r) => Some(r),
            _ => None,
        }
    }

    /// Plays a recorded conversation: the state it ends in and every request
    /// made on the way.
    pub fn replay(auth: SyncAuth, responses: &Vec<Response>) -> (played: (
        IntegrityGate,
        Vec<Request>,
    ))
        ensures
            played.0 == IntegrityGate::run(auth, responses@).0,
            played.1@ == IntegrityGate::run(auth, responses@).1,
    {
        let ghost credential = auth;
        let (mut state, first) = IntegrityGate::start(auth);
        let mut trace: Vec<Request> = Vec::new();
        trace.push(first);
        assert(trace@ =~= seq![first]);
        assert(responses@.take(0).len() == 0);
        let mut i: usize = 0;
        while i < responses.len()
            invariant
                i <= responses.len(),
                state == IntegrityGate::run(credential, responses@.take(i as int)).0,
                trace@ == IntegrityGate::run(credential, responses@.take(i as int)).1,
            decreases responses.len() - i,
        {
            let (next, request) = state.step(responses[i].clone());
            assert(responses@.take(i + 1).drop_last() =~= responses@.take(i as int));
            assert(responses@.take(i + 1).last() == responses@[i as int]);
            state = next;
            match request {
                Some(r) => {
                    trace.push(r);
                },
                None => {},
            }
            i = i + 1;
        }
        assert(responses@.take(i as int) =~= responses@);
        (state, trace)
    }
}

/// The step after which nothing more is asked.
fn done(auth: SyncAuth, attempt: u8, result: Result<(), Failure>) -> (next: (
    IntegrityGate,
    Option<Request>,
))
    ensures
        next == (IntegrityGate { auth, attempt, phase: GatePhase::Finished(result) }, None::<Request>),
{
    (IntegrityGate { auth, attempt, phase: GatePhase::Finished(result) }, None)
}

/// What holds of the state and the record after every conversation, attempt
/// by attempt. The three numbers are the openings, full downloads and
/// closings that the record held before the first attempt began.
pub open spec fn gate_consistent(
    gate: IntegrityGate,
    trace: Seq<Request>,
    opens_before: nat,
    downloads_before: nat,
    closes_before: nat,
) -> bool {
    let opens = occurrences(trace, RequestKind::OpenStore) - opens_before;
    let checks = occurrences(trace, RequestKind::CheckDatabase) as int;
    let downloads = occurrences(trace, RequestKind::FullDownload) - downloads_before;
    let closes = occurrences(trace, RequestKind::CloseStore) - closes_before;
    &&& gate.well_formed()
    &&& opens == gate.attempt
    &&& store_discipline(trace)
    &&& match gate.phase {
        GatePhase::Opening => {
            &&& checks == gate.attempt - 1 && downloads == gate.attempt - 1 && closes == 0
            &&& holds_store(trace)
        },
        GatePhase::Checking => {
            &&& checks == gate.attempt && downloads == gate.attempt - 1 && closes == 0
            &&& holds_store(trace)
        },
        GatePhase::Replacing => {
            &&& checks == gate.attempt && downloads == gate.attempt && closes == 0
            &&& !holds_store(trace)
        },
        GatePhase::Closing => {
            &&& checks == gate.attempt && downloads == gate.attempt - 1 && closes == 1
            &&& !holds_store(trace)
        },
        GatePhase::Finished(Ok(_)) => {
            &&& checks == gate.attempt && downloads == gate.attempt - 1 && closes == 1
            &&& !holds_store(trace)
        },
        GatePhase::Finished(Err(Failure::Integrity)) => {
            &&& checks == MAX_ATTEMPTS && downloads == MAX_ATTEMPTS && closes == 0
            &&& !holds_store(trace)
        },
        GatePhase::Finished(Err(_)) => {
            &&& gate.attempt - 1 <= checks <= gate.attempt
            &&& gate.attempt - 1 <= downloads <= gate.attempt
            &&& 0 <= closes <= 1
        },
    }
}

/// One step keeps the state and the record consistent.
pub proof fn lemma_gate_step_consistent(
    gate: IntegrityGate,
    trace: Seq<Request>,
    response: Response,
    opens_before: nat,
    downloads_before: nat,
    closes_before: nat,
)
    requires
        gate_consistent(gate, trace, opens_before, downloads_before, closes_before),
    ensures
        gate_consistent(
            gate.step_spec(response).0,
            extended(trace, gate.step_spec(response).1),
            opens_before,
            downloads_before,
            closes_before,
        ),
{
    match gate.step_spec(response).1 {
        Some(r) => {
            lemma_occurrences_push(trace, r, RequestKind::OpenStore);
            lemma_occurrences_push(trace, r, RequestKind::CheckDatabase);
            lemma_occurrences_push(trace, r, RequestKind::FullDownload);
            lemma_occurrences_push(trace, r, RequestKind::CloseStore);
            lemma_store_push(trace, r);
        },
        None => {},
    }
}

/// Every conversation leaves the state and the record consistent.
pub proof fn lemma_gate_run_consistent(auth: SyncAuth, responses: Seq<Response>)
    ensures
        gate_consistent(
            IntegrityGate::run(auth, responses).0,
            IntegrityGate::run(auth, responses).1,
            0,
            0,
            0,
        ),
    decreases responses.len(),
{
    if responses.len() == 0 {
        let first = IntegrityGate::start_spec(auth).1;
        let empty = Seq::<Request>::empty();
        assert(seq![first] =~= empty.push(first));
        lemma_occurrences_push(empty, first, RequestKind::OpenStore);
        lemma_occurrences_push(empty, first, RequestKind::CheckDatabase);
        lemma_occurrences_push(empty, first, RequestKind::FullDownload);
        lemma_occurrences_push(empty, first, RequestKind::CloseStore);
        lemma_store_push(empty, first);
    } else {
        lemma_gate_run_consistent(auth, responses.drop_last());
        let (gate, trace) = IntegrityGate::run(auth, responses.drop_last());
        lemma_gate_step_consistent(gate, trace, responses.last(), 0, 0, 0);
    }
}

/// Once a check has passed, or the state is finished, nothing more is asked,
/// whatever the host goes on to report.
pub proof fn lemma_gate_quiet_after_pass(
    auth: SyncAuth,
    responses: Seq<Response>,
    more: Seq<Response>,
)
    requires
        IntegrityGate::run(auth, responses).0.phase is Closing || IntegrityGate::run(
            auth,
            responses,
        ).0.phase is Finished,
    ensures
        IntegrityGate::run(auth, responses + more).1 == IntegrityGate::run(auth, responses).1,
        IntegrityGate::run(auth, responses + more).0.attempt == IntegrityGate::run(
            auth,
            responses,
        ).0.attempt,
        IntegrityGate::run(auth, responses + more).0.phase is Closing || IntegrityGate::run(
            auth,
            responses + more,
        ).0.phase is Finished,
    decreases more.len(),
{
    if more.len() == 0 {
        assert(responses + more =~= responses);
    } else {
        lemma_gate_quiet_after_pass(auth, responses, more.drop_last());
        assert((responses + more).drop_last() =~= responses + more.drop_last());
        assert((responses + more).last() == more.last());
    }
}

/// The store is opened at most three times in a run, as often as attempts
/// have begun, and checked and replaced no more often than that.
pub proof fn gate_attempts_are_bounded(auth: SyncAuth, responses: Seq<Response>)
    ensures
        ({
            let (gate, trace) = IntegrityGate::run(auth, responses);
            &&& occurrences(trace, RequestKind::OpenStore) == gate.attempt
            &&& occurrences(trace, RequestKind::OpenStore) <= MAX_ATTEMPTS
            &&& occurrences(trace, RequestKind::CheckDatabase) <= gate.attempt
            &&& occurrences(trace, RequestKind::FullDownload) <= gate.attempt
            &&& store_discipline(trace)
        }),
{
    lemma_gate_run_consistent(auth, responses);
}

/// When the check of an attempt passes, no further attempt occurs: however
/// the conversation goes on, the store has been opened exactly as often as
/// there were attempts up to the passing one, and replaced once for each
/// attempt before it.
pub proof fn gate_stops_at_first_pass(auth: SyncAuth, responses: Seq<Response>, more: Seq<Response>)
    requires
        IntegrityGate::run(auth, responses).0.phase is Checking,
    ensures
        ({
            let passed_at = IntegrityGate::run(auth, responses).0.attempt;
            let trace = IntegrityGate::run(
                auth,
                responses.push(Response::DatabaseSound) + more,
            ).1;
            &&& occurrences(trace, RequestKind::OpenStore) == passed_at
            &&& occurrences(trace, RequestKind::CheckDatabase) == passed_at
            &&& occurrences(trace, RequestKind::FullDownload) == passed_at - 1
            &&& occurrences(trace, RequestKind::CloseStore) == 1
        }),
{
    let passed = responses.push(Response::DatabaseSound);
    assert(passed.drop_last() =~= responses);
    lemma_gate_run_consistent(auth, passed);
    lemma_gate_quiet_after_pass(auth, passed, more);
}

/// What the result says about the run: after a success the store was
/// replaced once for every attempt before the passing one and is closed;
/// after [`Failure::Integrity`] it was opened, checked and replaced three
/// times each.
pub proof fn gate_result_accounts_for_attempts(auth: SyncAuth, responses: Seq<Response>)
    ensures
        ({
            let (gate, trace) = IntegrityGate::run(auth, responses);
            &&& gate.phase matches GatePhase::Finished(Ok(_)) ==> {
                &&& occurrences(trace, RequestKind::OpenStore) == gate.attempt
                &&& occurrences(trace, RequestKind::FullDownload) == gate.attempt - 1
                &&& !holds_store(trace)
            }
            &&& gate.phase == GatePhase::Finished(Err(Failure::Integrity)) ==> {
                &&& occurrences(trace, RequestKind::OpenStore) == MAX_ATTEMPTS
                &&& occurrences(trace, RequestKind::CheckDatabase) == MAX_ATTEMPTS
                &&& occurrences(trace, RequestKind::FullDownload) == MAX_ATTEMPTS
            }
        }),
{
    lemma_gate_run_consistent(auth, responses);
}

} // verus!
