//! The two record types of the ledger and the record-level protocol steps.
//!
//! An `AuditAuthority` is created once per agent identity and tracks how many
//! events that identity has logged. A `SecurityEvent` is immutable once
//! written; its `event_index` is the value of the authority's `event_count`
//! at the moment of creation, so indices form a dense, never-reused sequence.
//!
//! The functions here are the pure decision steps of the three operations:
//! they validate the caller, assign the sequence index, and produce the new
//! record and the notification, leaving persistence to the caller (the
//! storage substrate, or the in-memory ledger model in `crate::ledger`).

use vstd::prelude::*;

use crate::errors::AgentGuardError;
use crate::identity::Identity;
use crate::notifications::{AuditInitialized, SecurityEventClosed, SecurityEventLogged};

verus! {

/// Highest code among the four defined event kinds
/// (0 = transaction check, 1 = injection detected, 2 = secret leak caught,
/// 3 = general action).
pub const MAX_EVENT_TYPE: u8 = 3;

/// On-ledger byte size of an `AuditAuthority` record:
/// type tag + authority + event_count + created_at + bump.
pub const AUDIT_AUTHORITY_LEN: usize = 8 + 32 + 8 + 8 + 1;

/// On-ledger byte size of a `SecurityEvent` record: type tag + authority +
/// event_type + action_hash + allowed + timestamp + event_index +
/// details_len + bump.
pub const SECURITY_EVENT_LEN: usize = 8 + 32 + 1 + 32 + 1 + 8 + 8 + 2 + 1;

/// The four defined event kinds.
#[derive(Clone, Copy, Debug, PartialEq, Eq, Structural)]
pub enum EventKind {
    /// A transaction checked by the firewall (code 0).
    TransactionCheck,
    /// A prompt injection detected by the sanitizer (code 1).
    InjectionDetected,
    /// A secret leak caught by the isolator (code 2).
    SecretLeakCaught,
    /// A general action logged (code 3).
    GeneralAction,
}

/// The wire code of an event kind.
pub open spec fn kind_code(kind: EventKind) -> u8 {
    match kind {
        EventKind::TransactionCheck => 0,
        EventKind::InjectionDetected => 1,
        EventKind::SecretLeakCaught => 2,
        EventKind::GeneralAction => 3,
    }
}

impl EventKind {
    /// The wire code of this kind; always one of 0..=3.
    pub fn code(&self) -> (c: u8)
        ensures
            c == kind_code(*self),
            c <= MAX_EVENT_TYPE,
    {
        match self {
            EventKind::TransactionCheck => 0,
            EventKind::InjectionDetected => 1,
            EventKind::SecretLeakCaught => 2,
            EventKind::GeneralAction => 3,
        }
    }

    /// The kind named by a wire code: exactly the codes 0..=3 name one.
    pub fn from_code(code: u8) -> (r: Option<EventKind>)
        ensures
            (match r {
                Some(kind) => kind_code(kind) == code,
                None => code > MAX_EVENT_TYPE,
            }),
    {
        match code {
            0 => Some(EventKind::TransactionCheck),
            1 => Some(EventKind::InjectionDetected),
            2 => Some(EventKind::SecretLeakCaught),
            3 => Some(EventKind::GeneralAction),
            _ => None,
        }
    }
}

/// One agent's authority record: the single mutable integer of the ledger,
/// guarded by an ownership check on every mutating call.
#[derive(Clone, Copy, Debug)]
pub struct AuditAuthority {
    /// The agent identity that exclusively owns this audit trail.
    pub authority: Identity,
    /// Total number of security events ever logged; strictly non-decreasing.
    pub event_count: u64,
    /// When this authority was initialized; immutable thereafter.
    pub created_at: i64,
    /// Address proof (bump seed) from the canonical address derivation.
    pub bump: u8,
}

/// Mathematical model of an `AuditAuthority`.
#[verifier::ext_equal]
pub struct AuditAuthorityV {
    pub authority: Seq<u8>,
    pub event_count: u64,
    pub created_at: i64,
    pub bump: u8,
}

impl View for AuditAuthority {
    type V = AuditAuthorityV;

    open spec fn view(&self) -> AuditAuthorityV {
        AuditAuthorityV {
            authority: self.authority@,
            event_count: self.event_count,
            created_at: self.created_at,
            bump: self.bump,
        }
    }
}

/// One logged security event; immutable once written, except that the whole
/// record may later be destroyed to reclaim its storage.
#[derive(Clone, Copy, Debug)]
pub struct SecurityEvent {
    /// Copied from the owning authority at creation.
    pub authority: Identity,
    /// Event kind code, one of 0..=3.
    pub event_type: u8,
    /// 256-bit digest of the full event details, held off-ledger.
    pub action_hash: [u8; 32],
    /// Whether the audited action was allowed or blocked.
    pub allowed: bool,
    /// Creation time.
    pub timestamp: i64,
    /// The owner's `event_count` at creation: dense, unique, never reused.
    pub event_index: u64,
    /// Advisory byte length of the off-ledger detail payload.
    pub details_len: u16,
    /// Address proof (bump seed) from the canonical address derivation.
    pub bump: u8,
}

/// Mathematical model of a `SecurityEvent`.
#[verifier::ext_equal]
pub struct SecurityEventV {
    pub authority: Seq<u8>,
    pub event_type: u8,
    pub action_hash: Seq<u8>,
    pub allowed: bool,
    pub timestamp: i64,
    pub event_index: u64,
    pub details_len: u16,
    pub bump: u8,
}

impl View for SecurityEvent {
    type V = SecurityEventV;

    open spec fn view(&self) -> SecurityEventV {
        SecurityEventV {
            authority: self.authority@,
            event_type: self.event_type,
            action_hash: self.action_hash@,
            allowed: self.allowed,
            timestamp: self.timestamp,
            event_index: self.event_index,
            details_len: self.details_len,
            bump: self.bump,
        }
    }
}

impl AuditAuthority {
    /// The decision step of `Initialize`: build the authority record for
    /// `caller` with a zero event count, together with its notification.
    ///
    /// Whether the record may actually be created — no record occupies the
    /// derived address yet — is decided by the storage substrate, modelled
    /// by `crate::ledger::AuditLedger::initialize`. The address proof `bump`
    /// comes from the canonical derivation (see `crate::address`) and is
    /// stored opaquely.
    pub fn new(caller: &Identity, now: i64, bump: u8) -> (r: (AuditAuthority, AuditInitialized))
        ensures
            r.0@ == (AuditAuthorityV {
                authority: caller@,
                event_count: 0,
                created_at: now,
                bump: bump,
            }),
            r.1@ == (crate::notifications::AuditInitializedV { authority: caller@, timestamp: now }),
    {
        let record = AuditAuthority {
            authority: *caller,
            event_count: 0,
            created_at: now,
            bump,
        };
        let note = AuditInitialized { authority: *caller, timestamp: now };
        (record, note)
    }

    /// The decision step of `LogEvent`: validate the caller and the event
    /// kind, assign the next sequence index, increment the counter, and
    /// build the immutable event record and its notification.
    ///
    /// Preconditions are checked in order: the caller must be the recorded
    /// owner (`UnauthorizedSigner`), the kind must be one of the four
    /// defined kinds (`InvalidEventType`), and the 64-bit counter must not
    /// wrap (`EventCountOverflow`). On any failure the authority is left
    /// unchanged and no record is produced.
    pub fn append_event(
        &mut self,
        caller: &Identity,
        event_type: u8,
        action_hash: &[u8; 32],
        allowed: bool,
        details_len: u16,
        now: i64,
        bump: u8,
    ) -> (r: Result<(SecurityEvent, SecurityEventLogged), AgentGuardError>)
        ensures
            r is Ok <==> (old(self)@.authority == caller@ && event_type <= MAX_EVENT_TYPE
                && old(self).event_count < u64::MAX),
            caller@ != old(self)@.authority ==> r == Err::<
                (SecurityEvent, SecurityEventLogged),
                _,
            >(AgentGuardError::UnauthorizedSigner),
            caller@ == old(self)@.authority && event_type > MAX_EVENT_TYPE ==> r == Err::<
                (SecurityEvent, SecurityEventLogged),
                _,
            >(AgentGuardError::InvalidEventType),
            caller@ == old(self)@.authority && event_type <= MAX_EVENT_TYPE && old(self).event_count
                == u64::MAX ==> r == Err::<
                (SecurityEvent, SecurityEventLogged),
                _,
            >(AgentGuardError::EventCountOverflow),
            r is Err ==> final(self)@ == old(self)@,
            r is Ok ==> {
                let (event, note) = r->Ok_0;
                &&& event@ == (SecurityEventV {
                    authority: old(self)@.authority,
                    event_type: event_type,
                    action_hash: action_hash@,
                    allowed: allowed,
                    timestamp: now,
                    event_index: old(self).event_count,
                    details_len: details_len,
                    bump: bump,
                })
                &&& note@ == (crate::notifications::SecurityEventLoggedV {
                    authority: old(self)@.authority,
                    event_index: old(self).event_count,
                    event_type: event_type,
                    allowed: allowed,
                    action_hash: action_hash@,
                    timestamp: now,
                })
                &&& final(self)@ == (AuditAuthorityV {
                    event_count: (old(self).event_count + 1) as u64,
                    ..old(self)@
                })
            },
    {
        if !(caller == &self.authority) {
            return Err(AgentGuardError::UnauthorizedSigner);
        }
        if event_type > MAX_EVENT_TYPE {
            return Err(AgentGuardError::InvalidEventType);
        }
        let next_count = match self.event_count.checked_add(1) {
            Some(c) => c,
            None => {
                return Err(AgentGuardError::EventCountOverflow);
            },
        };
        let event = SecurityEvent {
            authority: self.authority,
            event_type,
            action_hash: *action_hash,
            allowed,
            timestamp: now,
            event_index: self.event_count,
            details_len,
            bump,
        };
        let note = SecurityEventLogged {
            authority: self.authority,
            event_index: self.event_count,
            event_type,
            allowed,
            action_hash: *action_hash,
            timestamp: now,
        };
        self.event_count = next_count;
        Ok((event, note))
    }
}

impl SecurityEvent {
    /// The kind of this event; `None` only on a record whose stored code
    /// lies outside the four defined kinds, which `append_event` never
    /// produces.
    pub fn kind(&self) -> (r: Option<EventKind>)
        ensures
            (match r {
                Some(kind) => kind_code(kind) == self.event_type,
                None => self.event_type > MAX_EVENT_TYPE,
            }),
    {
        EventKind::from_code(self.event_type)
    }

    /// The decision step of `CloseEvent`: both ownership checks, in order.
    ///
    /// The caller must be the owner recorded on the authority, and — as
    /// defence in depth, since closing is keyed off the event's own address
    /// proof independently of the authority lookup — also the owner recorded
    /// on the event itself. On success, the notification describing the
    /// destruction is produced; destroying the record and refunding its
    /// storage is the storage substrate's part.
    pub fn authorize_close(
        &self,
        authority: &AuditAuthority,
        caller: &Identity,
    ) -> (r: Result<SecurityEventClosed, AgentGuardError>)
        ensures
            r is Ok <==> (caller@ == authority@.authority && caller@ == self@.authority),
            r is Err ==> r == Err::<SecurityEventClosed, _>(AgentGuardError::UnauthorizedSigner),
            r is Ok ==> r->Ok_0@ == (crate::notifications::SecurityEventClosedV {
                authority: self@.authority,
                event_index: self.event_index,
            }),
    {
        if !(caller == &authority.authority) {
            return Err(AgentGuardError::UnauthorizedSigner);
        }
        if !(caller == &self.authority) {
            return Err(AgentGuardError::UnauthorizedSigner);
        }
        Ok(SecurityEventClosed { authority: self.authority, event_index: self.event_index })
    }
}

} // verus!
