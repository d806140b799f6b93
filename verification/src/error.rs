//! The error taxonomy shared by every load-time operation.
//!
//! Load-time failures are always returned to the caller as typed
//! results and never retried here; retry policy belongs to the caller.

use vstd::prelude::*;

verus! {

/// What can go wrong while loading or registering resources.
#[derive(Debug, PartialEq, Eq)]
pub enum Error {
    /// Backend or context setup failed, with the backend's own words.
    InitFailure(String),
    /// A file could not be read.
    FileReadFailure,
    /// A structured sprite-sheet description was malformed.
    JSONParseFailure,
    /// An image could not be decoded or uploaded to the backend.
    TextureCreateFailure,
    /// A resource was registered twice under the same name.
    AlreadyExists,
}

} // verus!
