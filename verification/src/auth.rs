//! Keeping the credential valid when the service moves the session to
//! another endpoint.

use vstd::prelude::*;
use crate::model::SyncAuth;

verus! {

/// What has to happen before the next request may use a credential.
#[derive(Debug, PartialEq, Eq)]
pub enum Refresh {
    /// Nothing: the credential stays as it is.
    Keep(SyncAuth),
    /// A new sign-in at `endpoint`; the old credential is dropped.
    Login { endpoint: String },
}

/// What [`reauthenticate`] returns.
pub open spec fn reauthenticate_spec(prior: SyncAuth, new_endpoint: Option<String>) -> Refresh {
    match new_endpoint {
        None => Refresh::Keep(prior),
        Some(endpoint) => Refresh::Login { endpoint },
    }
}

/// Decides whether a credential survives an answer of the service.
///
/// Without a new endpoint the credential is handed back untouched and no
/// sign-in is asked for. With one, the session must sign in there: every later
/// request goes to the new endpoint with a token valid for it.
pub fn reauthenticate(prior: SyncAuth, new_endpoint: Option<String>) -> (plan: Refresh)
    ensures
        plan == reauthenticate_spec(prior, new_endpoint),
        new_endpoint is None ==> plan == Refresh::Keep(prior),
        new_endpoint matches Some(endpoint) ==> plan == (Refresh::Login { endpoint }),
{
    match new_endpoint {
        None => Refresh::Keep(prior),
        Some(endpoint) => Refresh::Login { endpoint },
    }
}

/// A sign-in that a redirect to `endpoint` caused ends with a credential for
/// exactly that endpoint, whatever the prior credential and whatever token the
/// service grants.
pub proof fn redirect_binds_credential_to_endpoint(prior: SyncAuth, endpoint: String, granted: SyncAuth)
    ensures
        reauthenticate_spec(prior, Some(endpoint)) == (Refresh::Login { endpoint }),
        granted.scoped_to_spec(endpoint).endpoint == Some(endpoint),
        granted.scoped_to_spec(endpoint).token == granted.token,
{
}

} // verus!
