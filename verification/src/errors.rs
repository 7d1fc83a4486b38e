//! The error taxonomy of the synchronization engine.

use vstd::prelude::*;

verus! {

/// Everything that can go wrong, on either side of the connection.
///
/// `NotFound` and `Forbidden` come from the registry; `Transport` marks a
/// connection read or write failure; `ProtocolViolation` an inbound frame
/// kind outside the protocol; `LocalIoError` a local clipboard backend
/// failure.
#[derive(Clone, Copy, Debug, PartialEq, Eq, Structural)]
pub enum SyncError {
    NotFound,
    Forbidden,
    Transport,
    ProtocolViolation,
    LocalIoError,
}

} // verus!
