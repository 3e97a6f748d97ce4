//! Append-only, per-agent audit ledger for security events.
//!
//! Each agent identity owns an authority record and a monotonically growing
//! sequence of immutable event records. Writes are restricted to the owning
//! identity; sequence indices are assigned densely and never reused, even
//! after an event record is closed and its storage reclaimed.

pub mod address;
pub mod errors;
pub mod identity;
pub mod laws;
pub mod ledger;
pub mod notifications;
pub mod records;
