//! Failure taxonomy of the ledger protocol.
//!
//! Every error is a precondition violation: the operation that raises it
//! aborts atomically, leaving all records unchanged.

use vstd::prelude::*;

verus! {

/// Why a ledger operation was refused.
#[derive(Clone, Copy, Debug, PartialEq, Eq, Structural)]
pub enum AgentGuardError {
    /// The requested event kind is outside the four defined kinds (0..=3).
    InvalidEventType,
    /// The caller is not the owner recorded on the relevant record.
    UnauthorizedSigner,
    /// Incrementing the 64-bit event counter would wrap.
    EventCountOverflow,
    /// A record already occupies the derived address (duplicate `initialize`,
    /// or a race on the same event-count slot).
    AddressAlreadyOccupied,
    /// No record exists at the derived address.
    RecordNotFound,
    /// A record's stored address proof does not match its canonical derivation.
    AddressProofMismatch,
}

} // verus!
