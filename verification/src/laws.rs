//! The guarantees of the ledger protocol, proved once about its
//! transitions.
//!
//! Each lemma here is stated over the pure transition functions of
//! `crate::ledger`; the executable operations' contracts say that they
//! follow exactly those transitions, so everything proved here holds of
//! every run of the library.

use vstd::prelude::*;

use crate::errors::AgentGuardError;
use crate::ledger::inv;
use crate::ledger::spec_close_event;
use crate::ledger::spec_initialize;
use crate::ledger::spec_log_event;
use crate::ledger::AuditLedgerV;
use crate::notifications::AuditInitializedV;
use crate::notifications::SecurityEventClosedV;
use crate::records::MAX_EVENT_TYPE;

verus! {

/// `Initialize` succeeds exactly once per identity: on an absent chain it
/// creates the one authority record, and any second `Initialize` — by
/// whomever — fails with `AddressAlreadyOccupied` and changes nothing.
pub proof fn lemma_initialize_exactly_once(
    s: AuditLedgerV,
    c1: Seq<u8>,
    t1: i64,
    b1: u8,
    c2: Seq<u8>,
    t2: i64,
    b2: u8,
)
    requires
        s.authority is None,
    ensures
        spec_initialize(s, c1, t1, b1).1 == Ok::<AuditInitializedV, AgentGuardError>(
            AuditInitializedV { authority: c1, timestamp: t1 },
        ),
        ({
            let s1 = spec_initialize(s, c1, t1, b1).0;
            &&& s1.authority is Some
            &&& spec_initialize(s1, c2, t2, b2).0 == s1
            &&& spec_initialize(s1, c2, t2, b2).1 == Err::<AuditInitializedV, AgentGuardError>(
                AgentGuardError::AddressAlreadyOccupied,
            )
        }),
{
}

/// The sequence indices an owner has ever been assigned form the dense
/// range `0 .. event_count`: the i-th logged event carries index i, so
/// there are no gaps and no duplicates; every live record lies below the
/// counter.
pub proof fn lemma_indices_dense(s: AuditLedgerV)
    requires
        inv(s),
        s.authority is Some,
    ensures
        s.history.len() == s.authority->Some_0.event_count,
        forall|i: int| 0 <= i < s.history.len() ==> (#[trigger] s.history[i]).event_index == i,
        forall|i: int, j: int|
            #![trigger s.history[i], s.history[j]]
            0 <= i < j < s.history.len() ==> s.history[i].event_index != s.history[j].event_index,
        forall|k: u64| #[trigger]
            s.events.dom().contains(k) ==> k < s.authority->Some_0.event_count,
{
}

/// A successful `LogEvent` always finds the slot for the next sequence
/// index unoccupied: the store's create-if-absent step cannot collide
/// with a live record.
pub proof fn lemma_next_slot_free(s: AuditLedgerV)
    requires
        inv(s),
        s.authority is Some,
    ensures
        !s.events.dom().contains(s.authority->Some_0.event_count),
{
}

/// `LogEvent` by any identity other than the owner fails with
/// `UnauthorizedSigner` and leaves the whole chain — in particular
/// `event_count` — unchanged.
pub proof fn lemma_log_event_unauthorized(
    s: AuditLedgerV,
    caller: Seq<u8>,
    event_type: u8,
    action_hash: Seq<u8>,
    allowed: bool,
    details_len: u16,
    now: i64,
    bump: u8,
)
    requires
        s.authority is Some,
        caller != s.authority->Some_0.authority,
    ensures
        spec_log_event(s, caller, event_type, action_hash, allowed, details_len, now, bump).0 == s,
        spec_log_event(s, caller, event_type, action_hash, allowed, details_len, now, bump).1
            is Err,
        spec_log_event(s, caller, event_type, action_hash, allowed, details_len, now, bump).1->Err_0
            == AgentGuardError::UnauthorizedSigner,
{
}

/// `LogEvent` with an event kind above 3 always fails and creates no
/// event record; when the caller is the owner, the failure is
/// `InvalidEventType`.
pub proof fn lemma_log_event_invalid_kind(
    s: AuditLedgerV,
    caller: Seq<u8>,
    event_type: u8,
    action_hash: Seq<u8>,
    allowed: bool,
    details_len: u16,
    now: i64,
    bump: u8,
)
    requires
        event_type > MAX_EVENT_TYPE,
    ensures
        spec_log_event(s, caller, event_type, action_hash, allowed, details_len, now, bump).0 == s,
        spec_log_event(s, caller, event_type, action_hash, allowed, details_len, now, bump).1
            is Err,
        (s.authority is Some && caller == s.authority->Some_0.authority ==> spec_log_event(
            s,
            caller,
            event_type,
            action_hash,
            allowed,
            details_len,
            now,
            bump,
        ).1->Err_0 == AgentGuardError::InvalidEventType),
{
}

/// A successful `CloseEvent` removes exactly the targeted record's
/// storage and nothing else: the authority record — in particular
/// `event_count` — and the history are unchanged before and after.
pub proof fn lemma_close_preserves_count(s: AuditLedgerV, caller: Seq<u8>, k: u64)
    requires
        spec_close_event(s, caller, k).1 is Ok,
    ensures
        ({
            let s1 = spec_close_event(s, caller, k).0;
            &&& s1.authority == s.authority
            &&& s1.history == s.history
            &&& s1.events == s.events.remove(k)
            &&& !s1.events.dom().contains(k)
            &&& spec_close_event(s, caller, k).1 == Ok::<SecurityEventClosedV, AgentGuardError>(
                SecurityEventClosedV {
                    authority: s.authority->Some_0.authority,
                    event_index: k,
                },
            )
        }),
{
}

/// After `CloseEvent` destroys the event at index k, a subsequent
/// `LogEvent` never reuses k: indices are assigned from the live counter,
/// not from gaps, and k was assigned below the counter.
pub proof fn lemma_no_index_reuse(
    s: AuditLedgerV,
    c1: Seq<u8>,
    k: u64,
    c2: Seq<u8>,
    event_type: u8,
    action_hash: Seq<u8>,
    allowed: bool,
    details_len: u16,
    now: i64,
    bump: u8,
)
    requires
        inv(s),
        spec_close_event(s, c1, k).1 is Ok,
    ensures
        ({
            let s1 = spec_close_event(s, c1, k).0;
            let r2 = spec_log_event(
                s1,
                c2,
                event_type,
                action_hash,
                allowed,
                details_len,
                now,
                bump,
            ).1;
            r2 is Ok ==> r2->Ok_0.event_index == s1.authority->Some_0.event_count
                && r2->Ok_0.event_index != k
        }),
{
    assert(s.events.dom().contains(k));
}

/// The ledger is append-only: no operation rewrites or truncates the
/// history of logged events. `Initialize` and `CloseEvent` leave it
/// untouched — destruction of a record does not rewrite the past — and
/// `LogEvent` at most appends to it.
pub proof fn lemma_history_append_only(
    s: AuditLedgerV,
    caller: Seq<u8>,
    event_type: u8,
    action_hash: Seq<u8>,
    allowed: bool,
    details_len: u16,
    now: i64,
    bump: u8,
    sequence_index: u64,
)
    ensures
        spec_initialize(s, caller, now, bump).0.history == s.history,
        spec_close_event(s, caller, sequence_index).0.history == s.history,
        ({
            let h1 = spec_log_event(
                s,
                caller,
                event_type,
                action_hash,
                allowed,
                details_len,
                now,
                bump,
            ).0.history;
            &&& h1.len() >= s.history.len()
            &&& h1.subrange(0, s.history.len() as int) == s.history
        }),
{
    let h1 = spec_log_event(s, caller, event_type, action_hash, allowed, details_len, now, bump)
        .0
        .history;
    assert(h1.subrange(0, s.history.len() as int) =~= s.history);
}

/// Round trip: the digest a successful `LogEvent` writes is read back
/// byte-identical from the stored record, and echoed in the notification.
pub proof fn lemma_digest_round_trip(
    s: AuditLedgerV,
    caller: Seq<u8>,
    event_type: u8,
    action_hash: Seq<u8>,
    allowed: bool,
    details_len: u16,
    now: i64,
    bump: u8,
)
    requires
        spec_log_event(s, caller, event_type, action_hash, allowed, details_len, now, bump).1
            is Ok,
    ensures
        ({
            let s1 = spec_log_event(
                s,
                caller,
                event_type,
                action_hash,
                allowed,
                details_len,
                now,
                bump,
            ).0;
            let note = spec_log_event(
                s,
                caller,
                event_type,
                action_hash,
                allowed,
                details_len,
                now,
                bump,
            ).1->Ok_0;
            &&& s1.events.dom().contains(note.event_index)
            &&& s1.events[note.event_index].action_hash == action_hash
            &&& note.action_hash == action_hash
        }),
{
}

} // verus!
