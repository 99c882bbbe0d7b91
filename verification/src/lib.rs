//! Synchronizes local users' SSH `authorized_keys` files from the public
//! key lists that a remote code-hosting service publishes for them.
//!
//! The library holds the whole decision-making side of the pipeline:
//! configuration defaults, remote-identity fallback, request-URL
//! construction, response parsing, file-content rendering, and the
//! orchestration of one synchronization pass as an explicit state
//! machine. The surrounding binary performs the network and filesystem
//! actions that the machine requests and feeds the outcomes back in.

pub mod config;
pub mod keys;
pub mod sync;

use vstd::prelude::*;

verus! {

/// A failure within one synchronization pass.
///
/// `Fetch` covers any failure to obtain the response text for a user's
/// key list, timeouts included. The remaining variants cover the write
/// side: a local account that does not exist, a home path that cannot be
/// resolved or represented, plain file I/O, and ownership changes that
/// the process is not permitted to make. `InvalidName` is a username
/// that cannot be encoded for the account lookup.
#[derive(Clone, Debug, PartialEq)]
pub enum SyncError {
    Fetch(String),
    UserNotFound(String),
    Path,
    Io(String),
    Ownership(String),
    InvalidName(String),
}

} // verus!
