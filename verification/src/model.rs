//! The values that travel between the session and its collaborators.

use vstd::prelude::*;

verus! {

/// A copy of an optional endpoint.
pub fn copy_endpoint(endpoint: &Option<String>) -> (copy: Option<String>)
    ensures
        copy == *endpoint,
{
    match endpoint {
        Some(e) => Some(e.clone()),
        None => None,
    }
}

/// A time-bounded credential bound to one service endpoint.
///
/// A value is never changed once issued: signing in again produces a new one.
#[derive(Debug, PartialEq, Eq)]
pub struct SyncAuth {
    /// The opaque session token.
    pub token: String,
    /// The endpoint that the token is valid for; `None` is the service's default.
    pub endpoint: Option<String>,
    /// How long the transport may wait on one transfer, if limited.
    pub io_timeout_secs: Option<u32>,
}

impl Clone for SyncAuth {
    fn clone(&self) -> (copy: SyncAuth)
        ensures
            copy == *self,
    {
        SyncAuth {
            token: self.token.clone(),
            endpoint: copy_endpoint(&self.endpoint),
            io_timeout_secs: self.io_timeout_secs,
        }
    }
}

impl SyncAuth {
    /// What [`SyncAuth::scoped_to`] returns.
    pub open spec fn scoped_to_spec(self, endpoint: String) -> SyncAuth {
        SyncAuth { token: self.token, endpoint: Some(endpoint), io_timeout_secs: self.io_timeout_secs }
    }

    /// Completes a sign-in: the credential that the service granted, bound to
    /// the endpoint that it was requested from.
    pub fn scoped_to(self, endpoint: String) -> (auth: SyncAuth)
        ensures
            auth == self.scoped_to_spec(endpoint),
            auth.endpoint == Some(endpoint),
            auth.token == self.token,
            auth.io_timeout_secs == self.io_timeout_secs,
    {
        SyncAuth { token: self.token, endpoint: Some(endpoint), io_timeout_secs: self.io_timeout_secs }
    }
}

/// What the local store knows about its last exchange with the service.
#[derive(Debug, Clone, Copy, PartialEq, Eq, Structural)]
pub struct SyncMeta {
    /// The server-assigned revision counter.
    pub revision: i32,
    /// When the store was last modified.
    pub timestamp: i64,
}

impl SyncMeta {
    /// A store that has never held anything reports revision 0 and timestamp 0.
    pub open spec fn spec_is_empty(&self) -> bool {
        self.revision == 0 && self.timestamp == 0
    }

    /// Whether this is the metadata of a store that has never held anything.
    #[verifier::when_used_as_spec(spec_is_empty)]
    pub fn is_empty(&self) -> (empty: bool)
        ensures
            empty == self.spec_is_empty(),
    {
        self.revision == 0 && self.timestamp == 0
    }
}

/// What a normal sync says must happen next.
#[derive(Debug, Clone, Copy, PartialEq, Eq, Structural)]
pub enum SyncAction {
    /// Both sides already agree.
    NoChanges,
    /// The histories have no common ancestor: one side must replace the other.
    FullSyncRequired { upload_ok: bool, download_ok: bool },
    /// The incremental exchange was carried out.
    NormalSyncApplied,
}

/// The result of a normal sync that did not fail.
#[derive(Debug, PartialEq, Eq)]
pub struct SyncOutcome {
    pub action: SyncAction,
    /// Where the service wants later requests of this session to go.
    pub new_endpoint: Option<String>,
}

impl Clone for SyncOutcome {
    fn clone(&self) -> (copy: SyncOutcome)
        ensures
            copy == *self,
    {
        SyncOutcome { action: self.action, new_endpoint: copy_endpoint(&self.new_endpoint) }
    }
}

/// How a failed normal sync is classified.
#[derive(Debug, Clone, Copy, PartialEq, Eq, Structural)]
pub enum SyncErrorKind {
    Conflict,
    ResyncRequired,
    DatabaseCheckRequired,
    /// Every kind that reconciliation cannot repair.
    Other,
}

impl SyncErrorKind {
    /// The kinds that say the two histories have diverged: asking the service
    /// for its status and replacing the local copy repairs them.
    pub open spec fn spec_is_recoverable(&self) -> bool {
        *self is Conflict || *self is ResyncRequired || *self is DatabaseCheckRequired
    }

    /// Whether status reconciliation followed by a full replacement repairs
    /// an error of this kind.
    #[verifier::when_used_as_spec(spec_is_recoverable)]
    pub fn is_recoverable(&self) -> (recoverable: bool)
        ensures
            recoverable == self.spec_is_recoverable(),
    {
        match self {
            SyncErrorKind::Conflict => true,
            SyncErrorKind::ResyncRequired => true,
            SyncErrorKind::DatabaseCheckRequired => true,
            SyncErrorKind::Other => false,
        }
    }
}

/// The service's answer to a status check.
#[derive(Debug, PartialEq, Eq)]
pub struct RemoteStatus {
    /// Where the service wants later requests of this session to go.
    pub new_endpoint: Option<String>,
}

impl Clone for RemoteStatus {
    fn clone(&self) -> (copy: RemoteStatus)
        ensures
            copy == *self,
    {
        RemoteStatus { new_endpoint: copy_endpoint(&self.new_endpoint) }
    }
}

/// The one classification of a normal-sync attempt that every later decision
/// of the run goes by.
#[derive(Debug, Clone, Copy, PartialEq, Eq, Structural)]
pub enum AttemptResult {
    NoChanges,
    FullSyncRequired,
    NormalSyncApplied,
    RecoverableError(SyncErrorKind),
    FatalError,
}

/// What [`classify`] returns.
pub open spec fn classify_spec(result: Result<SyncOutcome, SyncErrorKind>) -> AttemptResult {
    match result {
        Ok(outcome) => match outcome.action {
            SyncAction::NoChanges => AttemptResult::NoChanges,
            SyncAction::FullSyncRequired { .. } => AttemptResult::FullSyncRequired,
            SyncAction::NormalSyncApplied => AttemptResult::NormalSyncApplied,
        },
        Err(kind) => if kind.is_recoverable() {
            AttemptResult::RecoverableError(kind)
        } else {
            AttemptResult::FatalError
        },
    }
}

/// Classifies the result of a normal-sync attempt.
pub fn classify(result: &Result<SyncOutcome, SyncErrorKind>) -> (verdict: AttemptResult)
    ensures
        verdict == classify_spec(*result),
{
    match result {
        Ok(outcome) => match outcome.action {
            SyncAction::NoChanges => AttemptResult::NoChanges,
            SyncAction::FullSyncRequired { .. } => AttemptResult::FullSyncRequired,
            SyncAction::NormalSyncApplied => AttemptResult::NormalSyncApplied,
        },
        Err(kind) => if kind.is_recoverable() {
            AttemptResult::RecoverableError(*kind)
        } else {
            AttemptResult::FatalError
        },
    }
}

/// Where the new endpoint of a normal-sync result is found, if it names one.
pub open spec fn redirect_spec(result: Result<SyncOutcome, SyncErrorKind>) -> Option<String> {
    match result {
        Ok(outcome) => outcome.new_endpoint,
        Err(_) => None,
    }
}

/// The endpoint that a normal-sync result redirects the session to.
pub fn redirect(result: Result<SyncOutcome, SyncErrorKind>) -> (endpoint: Option<String>)
    ensures
        endpoint == redirect_spec(result),
{
    match result {
        Ok(outcome) => outcome.new_endpoint,
        Err(_) => None,
    }
}

/// Why a run ended without success.
#[derive(Debug, Clone, Copy, PartialEq, Eq, Structural)]
pub enum Failure {
    /// The service rejected the credentials.
    Auth,
    /// The normal sync failed in a way that reconciliation cannot repair.
    FatalSync,
    /// The status check or a full download failed.
    Transfer,
    /// The local store could not be opened or read.
    Store,
    /// The store still failed its integrity check after the last permitted
    /// replacement.
    Integrity,
    /// The host answered with something other than what was asked.
    Protocol,
}

/// Who has to act on a failure.
#[derive(Debug, Clone, Copy, PartialEq, Eq, Structural)]
pub enum Concern {
    /// An operator must fix the credentials.
    Credentials,
    /// The network or the service needs looking into.
    Service,
    /// The local store is beyond automatic repair.
    LocalStore,
    /// The host program drove the session wrongly.
    Host,
}

impl Failure {
    /// What [`Failure::concern`] returns.
    pub open spec fn concern_spec(self) -> Concern {
        match self {
            Failure::Auth => Concern::Credentials,
            Failure::FatalSync => Concern::Service,
            Failure::Transfer => Concern::Service,
            Failure::Store => Concern::LocalStore,
            Failure::Integrity => Concern::LocalStore,
            Failure::Protocol => Concern::Host,
        }
    }

    /// Who has to act on this failure.
    pub fn concern(&self) -> (concern: Concern)
        ensures
            concern == self.concern_spec(),
    {
        match self {
            Failure::Auth => Concern::Credentials,
            Failure::FatalSync => Concern::Service,
            Failure::Transfer => Concern::Service,
            Failure::Store => Concern::LocalStore,
            Failure::Integrity => Concern::LocalStore,
            Failure::Protocol => Concern::Host,
        }
    }
}

} // verus!
