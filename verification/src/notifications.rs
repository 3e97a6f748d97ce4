//! Notifications emitted towards external indexers and observers.
//!
//! Each successful operation yields exactly one of these values, describing
//! the state change it committed. The ledger core returns the notification
//! to its caller; actually publishing it on a notification channel is the
//! surrounding runtime's part.

use vstd::prelude::*;

use crate::identity::Identity;

verus! {

/// Emitted by `Initialize`: an audit authority now exists for `authority`.
#[derive(Clone, Copy, Debug)]
pub struct AuditInitialized {
    pub authority: Identity,
    pub timestamp: i64,
}

/// Mathematical model of an `AuditInitialized` notification.
#[verifier::ext_equal]
pub struct AuditInitializedV {
    pub authority: Seq<u8>,
    pub timestamp: i64,
}

impl View for AuditInitialized {
    type V = AuditInitializedV;

    open spec fn view(&self) -> AuditInitializedV {
        AuditInitializedV { authority: self.authority@, timestamp: self.timestamp }
    }
}

/// Emitted by `LogEvent`: the event at `event_index` was appended.
#[derive(Clone, Copy, Debug)]
pub struct SecurityEventLogged {
    pub authority: Identity,
    pub event_index: u64,
    pub event_type: u8,
    pub allowed: bool,
    pub action_hash: [u8; 32],
    pub timestamp: i64,
}

/// Mathematical model of a `SecurityEventLogged` notification.
#[verifier::ext_equal]
pub struct SecurityEventLoggedV {
    pub authority: Seq<u8>,
    pub event_index: u64,
    pub event_type: u8,
    pub allowed: bool,
    pub action_hash: Seq<u8>,
    pub timestamp: i64,
}

impl View for SecurityEventLogged {
    type V = SecurityEventLoggedV;

    open spec fn view(&self) -> SecurityEventLoggedV {
        SecurityEventLoggedV {
            authority: self.authority@,
            event_index: self.event_index,
            event_type: self.event_type,
            allowed: self.allowed,
            action_hash: self.action_hash@,
            timestamp: self.timestamp,
        }
    }
}

/// Emitted by `CloseEvent`: the event at `event_index` was destroyed and its
/// storage refunded; the index is permanently retired.
#[derive(Clone, Copy, Debug)]
pub struct SecurityEventClosed {
    pub authority: Identity,
    pub event_index: u64,
}

/// Mathematical model of a `SecurityEventClosed` notification.
#[verifier::ext_equal]
pub struct SecurityEventClosedV {
    pub authority: Seq<u8>,
    pub event_index: u64,
}

impl View for SecurityEventClosed {
    type V = SecurityEventClosedV;

    open spec fn view(&self) -> SecurityEventClosedV {
        SecurityEventClosedV { authority: self.authority@, event_index: self.event_index }
    }
}

} // verus!
