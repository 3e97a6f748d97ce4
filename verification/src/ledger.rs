//! The ledger protocol: one agent's audit chain against an idealized store.
//!
//! `AuditLedger` models the storage substrate for a single agent identity
//! as a key-value store with create-if-absent semantics: the authority
//! record occupies its one derived address, and each event record is keyed
//! by its sequence index, the logical content of its derived address (see
//! `crate::address` for the derivation itself). The three operations —
//! `initialize`, `log_event`, `close_event` — apply the record-level
//! decision steps of `crate::records` to that store, atomically: on any
//! failure the whole state is unchanged.
//!
//! Each operation's contract is stated against a pure transition function
//! on the ledger's mathematical model, so that properties spanning several
//! operations can be proved once about the transitions (see `crate::laws`).
//!
//! Beside the live records, the model carries the ghost history of every
//! event ever logged, in order of creation. The ledger invariant ties the
//! history to the live state: indices are assigned densely from the
//! counter, so they are unique and never reused even after records are
//! destroyed, and `event_count` may exceed the number of live records.

use vstd::prelude::*;

use std::collections::HashMap;

use crate::errors::AgentGuardError;
use crate::identity::Identity;
use crate::notifications::AuditInitialized;
use crate::notifications::AuditInitializedV;
use crate::notifications::SecurityEventClosed;
use crate::notifications::SecurityEventClosedV;
use crate::notifications::SecurityEventLogged;
use crate::notifications::SecurityEventLoggedV;
use crate::records::AuditAuthority;
use crate::records::AuditAuthorityV;
use crate::records::SecurityEvent;
use crate::records::SecurityEventV;
use crate::records::MAX_EVENT_TYPE;

verus! {

broadcast use vstd::std_specs::hash::group_hash_axioms;

/// Mathematical model of one agent's audit chain.
#[verifier::ext_equal]
pub struct AuditLedgerV {
    /// The authority record, if `initialize` has run: absent or active.
    pub authority: Option<AuditAuthorityV>,
    /// The live event records, keyed by sequence index.
    pub events: Map<u64, SecurityEventV>,
    /// Every event ever logged, in creation order; closed events stay.
    pub history: Seq<SecurityEventV>,
}

/// The ledger invariant: the history records exactly the first
/// `event_count` indices, densely; live events agree with the history.
pub open spec fn inv(s: AuditLedgerV) -> bool {
    match s.authority {
        None => s.history.len() == 0 && s.events.dom() == Set::<u64>::empty(),
        Some(a) => {
            &&& s.history.len() == a.event_count
            &&& (forall|i: int|
                0 <= i < s.history.len() ==> (#[trigger] s.history[i]).event_index == i)
            &&& (forall|i: int|
                0 <= i < s.history.len() ==> (#[trigger] s.history[i]).authority == a.authority)
            &&& (forall|k: u64| #[trigger]
                s.events.dom().contains(k) ==> k < a.event_count && s.events[k] == s.history[k as int])
        },
    }
}

/// The `Initialize` transition: create the authority record for `caller`
/// if and only if none occupies the derived address yet.
pub open spec fn spec_initialize(s: AuditLedgerV, caller: Seq<u8>, now: i64, bump: u8) -> (
    AuditLedgerV,
    Result<AuditInitializedV, AgentGuardError>,
) {
    if s.authority is Some {
        (s, Err(AgentGuardError::AddressAlreadyOccupied))
    } else {
        (
            AuditLedgerV {
                authority: Some(
                    AuditAuthorityV {
                        authority: caller,
                        event_count: 0,
                        created_at: now,
                        bump: bump,
                    },
                ),
                ..s
            },
            Ok(AuditInitializedV { authority: caller, timestamp: now }),
        )
    }
}

/// The `LogEvent` transition. Preconditions, in order: the authority must
/// exist, the caller must own it, the kind must be one of the four defined
/// kinds, and the counter must not wrap. On success the event is created
/// at the pre-increment counter value and the counter moves up by one, as
/// one atomic unit.
pub open spec fn spec_log_event(
    s: AuditLedgerV,
    caller: Seq<u8>,
    event_type: u8,
    action_hash: Seq<u8>,
    allowed: bool,
    details_len: u16,
    now: i64,
    bump: u8,
) -> (AuditLedgerV, Result<SecurityEventLoggedV, AgentGuardError>) {
    match s.authority {
        None => (s, Err(AgentGuardError::RecordNotFound)),
        Some(a) => {
            if caller != a.authority {
                (s, Err(AgentGuardError::UnauthorizedSigner))
            } else if event_type > MAX_EVENT_TYPE {
                (s, Err(AgentGuardError::InvalidEventType))
            } else if a.event_count == u64::MAX {
                (s, Err(AgentGuardError::EventCountOverflow))
            } else {
                let event = SecurityEventV {
                    authority: a.authority,
                    event_type: event_type,
                    action_hash: action_hash,
                    allowed: allowed,
                    timestamp: now,
                    event_index: a.event_count,
                    details_len: details_len,
                    bump: bump,
                };
                (
                    AuditLedgerV {
                        authority: Some(
                            AuditAuthorityV { event_count: (a.event_count + 1) as u64, ..a },
                        ),
                        events: s.events.insert(a.event_count, event),
                        history: s.history.push(event),
                    },
                    Ok(
                        SecurityEventLoggedV {
                            authority: a.authority,
                            event_index: a.event_count,
                            event_type: event_type,
                            allowed: allowed,
                            action_hash: action_hash,
                            timestamp: now,
                        },
                    ),
                )
            }
        },
    }
}

/// The `CloseEvent` transition. The caller must own the authority record
/// and — defence in depth — the targeted event record; the event must be
/// live. On success the event record is destroyed; `event_count` is not
/// altered, so the index is permanently retired.
pub open spec fn spec_close_event(s: AuditLedgerV, caller: Seq<u8>, sequence_index: u64) -> (
    AuditLedgerV,
    Result<SecurityEventClosedV, AgentGuardError>,
) {
    match s.authority {
        None => (s, Err(AgentGuardError::RecordNotFound)),
        Some(a) => {
            if caller != a.authority {
                (s, Err(AgentGuardError::UnauthorizedSigner))
            } else if !s.events.dom().contains(sequence_index) {
                (s, Err(AgentGuardError::RecordNotFound))
            } else if caller != s.events[sequence_index].authority {
                (s, Err(AgentGuardError::UnauthorizedSigner))
            } else {
                (
                    AuditLedgerV { events: s.events.remove(sequence_index), ..s },
                    Ok(
                        SecurityEventClosedV {
                            authority: a.authority,
                            event_index: sequence_index,
                        },
                    ),
                )
            }
        },
    }
}

/// One agent's audit chain, backed by an in-memory store.
pub struct AuditLedger {
    authority: Option<AuditAuthority>,
    events: HashMap<u64, SecurityEvent>,
    history: Ghost<Seq<SecurityEventV>>,
}

impl View for AuditLedger {
    type V = AuditLedgerV;

    closed spec fn view(&self) -> AuditLedgerV {
        AuditLedgerV {
            authority: match self.authority {
                Some(a) => Some(a@),
                None => None,
            },
            events: self.events@.map_values(|e: SecurityEvent| e@),
            history: self.history@,
        }
    }
}

impl AuditLedger {
    /// An empty chain: no authority record, no events.
    pub fn new() -> (ledger: AuditLedger)
        ensures
            ledger@.authority is None,
            ledger@.events == Map::<u64, SecurityEventV>::empty(),
            ledger@.history == Seq::<SecurityEventV>::empty(),
            inv(ledger@),
    {
        let ledger = AuditLedger {
            authority: None,
            events: HashMap::new(),
            history: Ghost(Seq::empty()),
        };
        proof {
            assert(ledger@.events =~= Map::<u64, SecurityEventV>::empty());
            assert(ledger@.events.dom() =~= Set::<u64>::empty());
        }
        ledger
    }

    /// `Initialize`: create the authority record for `caller` with a zero
    /// event count, or fail with `AddressAlreadyOccupied` if one exists.
    /// The address proof `bump` comes from the canonical derivation (see
    /// `crate::address::authority_address`). Returns the notification.
    pub fn initialize(&mut self, caller: &Identity, now: i64, bump: u8) -> (r: Result<
        AuditInitialized,
        AgentGuardError,
    >)
        requires
            inv(old(self)@),
        ensures
            inv(final(self)@),
            final(self)@ == spec_initialize(old(self)@, caller@, now, bump).0,
            (match r {
                Ok(n) => spec_initialize(old(self)@, caller@, now, bump).1 == Ok::<
                    AuditInitializedV,
                    AgentGuardError,
                >(n@),
                Err(e) => spec_initialize(old(self)@, caller@, now, bump).1 == Err::<
                    AuditInitializedV,
                    AgentGuardError,
                >(e),
            }),
    {
        match &self.authority {
            Some(_) => Err(AgentGuardError::AddressAlreadyOccupied),
            None => {
                let (record, note) = AuditAuthority::new(caller, now, bump);
                self.authority = Some(record);
                proof {
                    assert(self@ =~= spec_initialize(old(self)@, caller@, now, bump).0);
                }
                Ok(note)
            },
        }
    }

    /// `LogEvent`: append an immutable event record at the current counter
    /// value and increment the counter, atomically; on any failure nothing
    /// changes. Returns the notification carrying the assigned index.
    pub fn log_event(
        &mut self,
        caller: &Identity,
        event_type: u8,
        action_hash: &[u8; 32],
        allowed: bool,
        details_len: u16,
        now: i64,
        bump: u8,
    ) -> (r: Result<SecurityEventLogged, AgentGuardError>)
        requires
            inv(old(self)@),
        ensures
            inv(final(self)@),
            final(self)@ == spec_log_event(
                old(self)@,
                caller@,
                event_type,
                action_hash@,
                allowed,
                details_len,
                now,
                bump,
            ).0,
            (match r {
                Ok(n) => spec_log_event(
                    old(self)@,
                    caller@,
                    event_type,
                    action_hash@,
                    allowed,
                    details_len,
                    now,
                    bump,
                ).1 == Ok::<SecurityEventLoggedV, AgentGuardError>(n@),
                Err(e) => spec_log_event(
                    old(self)@,
                    caller@,
                    event_type,
                    action_hash@,
                    allowed,
                    details_len,
                    now,
                    bump,
                ).1 == Err::<SecurityEventLoggedV, AgentGuardError>(e),
            }),
    {
        let mut record = match &self.authority {
            None => {
                return Err(AgentGuardError::RecordNotFound);
            },
            Some(a) => *a,
        };
        match record.append_event(caller, event_type, action_hash, allowed, details_len, now, bump) {
            Err(e) => Err(e),
            Ok((event, note)) => {
                self.events.insert(event.event_index, event);
                self.authority = Some(record);
                proof {
                    self.history@ = self.history@.push(event@);
                    assert(self@.events =~= spec_log_event(
                        old(self)@,
                        caller@,
                        event_type,
                        action_hash@,
                        allowed,
                        details_len,
                        now,
                        bump,
                    ).0.events);
                    assert(self@ =~= spec_log_event(
                        old(self)@,
                        caller@,
                        event_type,
                        action_hash@,
                        allowed,
                        details_len,
                        now,
                        bump,
                    ).0);
                }
                Ok(note)
            },
        }
    }

    /// `CloseEvent`: destroy the live event record at `sequence_index`,
    /// after both ownership checks; its storage is reclaimed by the store.
    /// `event_count` is not altered, so the index is never reused. Returns
    /// the notification.
    pub fn close_event(&mut self, caller: &Identity, sequence_index: u64) -> (r: Result<
        SecurityEventClosed,
        AgentGuardError,
    >)
        requires
            inv(old(self)@),
        ensures
            inv(final(self)@),
            final(self)@ == spec_close_event(old(self)@, caller@, sequence_index).0,
            (match r {
                Ok(n) => spec_close_event(old(self)@, caller@, sequence_index).1 == Ok::<
                    SecurityEventClosedV,
                    AgentGuardError,
                >(n@),
                Err(e) => spec_close_event(old(self)@, caller@, sequence_index).1 == Err::<
                    SecurityEventClosedV,
                    AgentGuardError,
                >(e),
            }),
    {
        let record = match &self.authority {
            None => {
                return Err(AgentGuardError::RecordNotFound);
            },
            Some(a) => *a,
        };
        if !(caller == &record.authority) {
            return Err(AgentGuardError::UnauthorizedSigner);
        }
        let event = match self.events.get(&sequence_index) {
            None => {
                return Err(AgentGuardError::RecordNotFound);
            },
            Some(e) => *e,
        };
        match event.authorize_close(&record, caller) {
            Err(e) => Err(e),
            Ok(note) => {
                self.events.remove(&sequence_index);
                proof {
                    assert(self@.events =~= spec_close_event(
                        old(self)@,
                        caller@,
                        sequence_index,
                    ).0.events);
                    assert(self@ =~= spec_close_event(old(self)@, caller@, sequence_index).0);
                }
                Ok(note)
            },
        }
    }

    /// The authority record, if `initialize` has run.
    pub fn authority_record(&self) -> (r: Option<AuditAuthority>)
        ensures
            (match r {
                Some(a) => self@.authority == Some(a@),
                None => self@.authority is None,
            }),
    {
        self.authority
    }

    /// How many events the owner has ever logged, if the chain exists.
    pub fn event_count(&self) -> (r: Option<u64>)
        ensures
            (match r {
                Some(c) => self@.authority is Some && c == self@.authority->Some_0.event_count,
                None => self@.authority is None,
            }),
    {
        match &self.authority {
            Some(a) => Some(a.event_count),
            None => None,
        }
    }

    /// The live event record at `sequence_index`, if any.
    pub fn get_event(&self, sequence_index: u64) -> (r: Option<SecurityEvent>)
        ensures
            (match r {
                Some(e) => self@.events.dom().contains(sequence_index)
                    && self@.events[sequence_index] == e@,
                None => !self@.events.dom().contains(sequence_index),
            }),
    {
        match self.events.get(&sequence_index) {
            Some(e) => Some(*e),
            None => None,
        }
    }

    /// How many event records are currently live; `event_count` may exceed
    /// this once records have been closed.
    pub fn live_event_count(&self) -> (n: usize)
        ensures
            n == self@.events.dom().len(),
    {
        proof {
            assert(self@.events.dom() =~= self.events@.dom());
        }
        self.events.len()
    }
}

} // verus!
