//! Decision logic for reconciling a local, file-backed store with its
//! authoritative remote copy.
//!
//! The crate performs no I/O. A run is a conversation: the session names the
//! next collaborator call as a [`protocol::Request`], the host performs it and
//! hands the answer back as a [`protocol::Response`]. Every decision in between
//! (which outcome means "replace everything", when to sign in again, how often
//! to retry after a failed integrity check) is made here.

pub mod auth;
pub mod gate;
pub mod model;
pub mod orchestrator;
pub mod protocol;
pub mod session;
