//! The conversation between a session and its host: what the session asks
//! for, what the host answers, and how a record of the requests is read.

use vstd::prelude::*;
use crate::model::{RemoteStatus, SyncAuth, SyncErrorKind, SyncMeta, SyncOutcome};

verus! {

/// One collaborator call that the host is asked to perform.
#[derive(Debug, PartialEq, Eq)]
pub enum Request {
    /// Open the local store. No handle may be open when this is asked.
    OpenStore,
    /// Exchange the stored credentials for a token valid at `endpoint`.
    Login { endpoint: String },
    /// Run an incremental sync of the open store.
    NormalSync { auth: SyncAuth },
    /// Read the sync metadata of the open store.
    ReadSyncMeta,
    /// Ask the service what it holds, given the local metadata.
    StatusCheck { meta: SyncMeta, auth: SyncAuth },
    /// Replace the content of the open store with the service's snapshot.
    /// The store's handle is given up with the call, whatever comes of it.
    FullDownload { auth: SyncAuth },
    /// Run the integrity check on the open store.
    CheckDatabase,
    /// Close the open store.
    CloseStore,
}

/// Which collaborator call a request is, without its arguments.
#[derive(Debug, Clone, Copy, PartialEq, Eq, Structural)]
pub enum RequestKind {
    OpenStore,
    Login,
    NormalSync,
    ReadSyncMeta,
    StatusCheck,
    FullDownload,
    CheckDatabase,
    CloseStore,
}

impl Clone for Request {
    fn clone(&self) -> (copy: Request)
        ensures
            copy == *self,
    {
        match self {
            Request::OpenStore => Request::OpenStore,
            Request::Login { endpoint } => Request::Login { endpoint: endpoint.clone() },
            Request::NormalSync { auth } => Request::NormalSync { auth: auth.clone() },
            Request::ReadSyncMeta => Request::ReadSyncMeta,
            Request::StatusCheck { meta, auth } => Request::StatusCheck {
                meta: *meta,
                auth: auth.clone(),
            },
            Request::FullDownload { auth } => Request::FullDownload { auth: auth.clone() },
            Request::CheckDatabase => Request::CheckDatabase,
            Request::CloseStore => Request::CloseStore,
        }
    }
}

impl Request {
    /// What [`Request::kind`] returns.
    pub open spec fn kind_spec(&self) -> RequestKind {
        match self {
            Request::OpenStore => RequestKind::OpenStore,
            Request::Login { .. } => RequestKind::Login,
            Request::NormalSync { .. } => RequestKind::NormalSync,
            Request::ReadSyncMeta => RequestKind::ReadSyncMeta,
            Request::StatusCheck { .. } => RequestKind::StatusCheck,
            Request::FullDownload { .. } => RequestKind::FullDownload,
            Request::CheckDatabase => RequestKind::CheckDatabase,
            Request::CloseStore => RequestKind::CloseStore,
        }
    }

    /// Which collaborator call this is.
    #[verifier::when_used_as_spec(kind_spec)]
    pub fn kind(&self) -> (kind: RequestKind)
        ensures
            kind == self.kind_spec(),
    {
        match self {
            Request::OpenStore => RequestKind::OpenStore,
            Request::Login { .. } => RequestKind::Login,
            Request::NormalSync { .. } => RequestKind::NormalSync,
            Request::ReadSyncMeta => RequestKind::ReadSyncMeta,
            Request::StatusCheck { .. } => RequestKind::StatusCheck,
            Request::FullDownload { .. } => RequestKind::FullDownload,
            Request::CheckDatabase => RequestKind::CheckDatabase,
            Request::CloseStore => RequestKind::CloseStore,
        }
    }
}

/// What the host reports back after performing a request.
#[derive(Debug, PartialEq, Eq)]
pub enum Response {
    /// The store is open.
    StoreOpened,
    /// The store could not be opened.
    StoreUnavailable,
    /// The service accepted the credentials and granted this token.
    LoggedIn(SyncAuth),
    /// The service rejected the credentials.
    LoginRejected,
    /// The normal sync returned.
    SyncFinished(Result<SyncOutcome, SyncErrorKind>),
    /// The store's sync metadata.
    MetaRead(SyncMeta),
    /// The store's sync metadata could not be read.
    MetaUnreadable,
    /// The service answered the status check.
    StatusReported(RemoteStatus),
    /// The service could not be reached, or refused the status check.
    StatusUnavailable,
    /// The store now holds the service's snapshot.
    Downloaded,
    /// The full download failed.
    DownloadFailed,
    /// The store passed its integrity check.
    DatabaseSound,
    /// The store failed its integrity check.
    DatabaseDamaged,
    /// The store is closed.
    StoreClosed,
}

impl Clone for Response {
    fn clone(&self) -> (copy: Response)
        ensures
            copy == *self,
    {
        match self {
            Response::StoreOpened => Response::StoreOpened,
            Response::StoreUnavailable => Response::StoreUnavailable,
            Response::LoggedIn(granted) => Response::LoggedIn(granted.clone()),
            Response::LoginRejected => Response::LoginRejected,
            Response::SyncFinished(result) => match result {
                Ok(outcome) => Response::SyncFinished(Ok(outcome.clone())),
                Err(kind) => Response::SyncFinished(Err(*kind)),
            },
            Response::MetaRead(meta) => Response::MetaRead(*meta),
            Response::MetaUnreadable => Response::MetaUnreadable,
            Response::StatusReported(status) => Response::StatusReported(status.clone()),
            Response::StatusUnavailable => Response::StatusUnavailable,
            Response::Downloaded => Response::Downloaded,
            Response::DownloadFailed => Response::DownloadFailed,
            Response::DatabaseSound => Response::DatabaseSound,
            Response::DatabaseDamaged => Response::DatabaseDamaged,
            Response::StoreClosed => Response::StoreClosed,
        }
    }
}

/// The record of a run with one more step: a step that asks for nothing
/// leaves the record as it is.
pub open spec fn extended(trace: Seq<Request>, request: Option<Request>) -> Seq<Request> {
    match request {
        Some(r) => trace.push(r),
        None => trace,
    }
}

/// How many requests of one kind a record holds.
pub open spec fn occurrences(trace: Seq<Request>, kind: RequestKind) -> nat
    decreases trace.len(),
{
    if trace.len() == 0 {
        0
    } else {
        occurrences(trace.drop_last(), kind) + if trace.last().kind() == kind {
            1nat
        } else {
            0nat
        }
    }
}

/// Whether the host holds an open store handle once it has performed every
/// request of the record: opening takes one, closing and a full download give
/// it up.
pub open spec fn holds_store(trace: Seq<Request>) -> bool
    decreases trace.len(),
{
    if trace.len() == 0 {
        false
    } else {
        match trace.last() {
            Request::OpenStore => true,
            Request::CloseStore => false,
            Request::FullDownload { .. } => false,
            _ => holds_store(trace.drop_last()),
        }
    }
}

/// Whether a request may follow a record: the store is opened only while no
/// handle is held, and used or closed only while one is.
pub open spec fn store_permits(trace: Seq<Request>, request: Request) -> bool {
    match request {
        Request::OpenStore => !holds_store(trace),
        Request::Login { .. } => true,
        Request::StatusCheck { .. } => true,
        _ => holds_store(trace),
    }
}

/// Whether every request of a record came at a moment when the store's
/// handle permitted it. In such a record no two handles are ever open at once.
pub open spec fn store_discipline(trace: Seq<Request>) -> bool
    decreases trace.len(),
{
    trace.len() == 0 || (store_discipline(trace.drop_last()) && store_permits(
        trace.drop_last(),
        trace.last(),
    ))
}

/// Adding a request to a record adds one to the count of its kind and leaves
/// the others.
pub proof fn lemma_occurrences_push(trace: Seq<Request>, request: Request, kind: RequestKind)
    ensures
        occurrences(trace.push(request), kind) == occurrences(trace, kind) + if request.kind()
            == kind {
            1nat
        } else {
            0nat
        },
{
    assert(trace.push(request).drop_last() =~= trace);
}

/// What one more request does to the store's handle and to the discipline of
/// the record.
pub proof fn lemma_store_push(trace: Seq<Request>, request: Request)
    ensures
        store_discipline(trace.push(request)) == (store_discipline(trace) && store_permits(
            trace,
            request,
        )),
        holds_store(trace.push(request)) == match request {
            Request::OpenStore => true,
            Request::CloseStore => false,
            Request::FullDownload { .. } => false,
            _ => holds_store(trace),
        },
{
    assert(trace.push(request).drop_last() =~= trace);
}

} // verus!
