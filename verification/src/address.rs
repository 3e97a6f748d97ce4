//! Deterministic address derivation for ledger records.
//!
//! Every record's storage address is derivable, not looked up: an authority
//! record lives at the address derived from the fixed namespace tag
//! `"audit-authority"` and the owner identity; an event record lives at the
//! address derived from the tag `"security-event"`, the owner identity and
//! the owner's event count at creation time, encoded as eight little-endian
//! bytes. Any party can therefore reconstruct an event's address from
//! (owner, index) alone. Each derivation also yields a one-byte address
//! proof (a bump seed) that is stored on the record.
//!
//! The derivation itself is the storage substrate's: it is performed by
//! `Pubkey::try_find_program_address` and named, not restated, by `pda_of`.
//! What this module proves is that the seed lists handed to it are the
//! canonical ones, and that distinct (owner, index) pairs always hand it
//! distinct seed lists — the ledger-side half of collision freedom.

use vstd::prelude::*;

use vstd::bytes::lemma_auto_spec_u64_to_from_le_bytes;
use vstd::bytes::spec_u64_to_le_bytes;
use vstd::bytes::u64_to_le_bytes;

use crate::errors::AgentGuardError;
use crate::identity::Identity;
use crate::records::AuditAuthority;
use crate::records::SecurityEvent;

verus! {

/// The ASCII bytes of the authority namespace tag, `"audit-authority"`.
pub open spec fn authority_tag() -> Seq<u8> {
    seq![97u8, 117u8, 100u8, 105u8, 116u8, 45u8, 97u8, 117u8, 116u8, 104u8, 111u8, 114u8, 105u8, 116u8, 121u8]
}

/// The ASCII bytes of the event namespace tag, `"security-event"`.
pub open spec fn event_tag() -> Seq<u8> {
    seq![115u8, 101u8, 99u8, 117u8, 114u8, 105u8, 116u8, 121u8, 45u8, 101u8, 118u8, 101u8, 110u8, 116u8]
}

/// Canonical seed list for an authority record: tag, then owner.
pub open spec fn authority_seeds(owner: Seq<u8>) -> Seq<Seq<u8>> {
    seq![authority_tag(), owner]
}

/// Canonical seed list for an event record: tag, owner, then the sequence
/// index as eight little-endian bytes.
pub open spec fn event_seeds(owner: Seq<u8>, sequence_index: u64) -> Seq<Seq<u8>> {
    seq![event_tag(), owner, spec_u64_to_le_bytes(sequence_index)]
}

/// What `Pubkey::try_find_program_address` returns for a seed list and a
/// program id: the derived address and its bump seed, or `None` in the
/// statistically improbable event that no bump seed yields a valid
/// derivation. The result depends on the arguments alone.
pub uninterp spec fn pda_of(seeds: Seq<Seq<u8>>, program_id: Seq<u8>) -> Option<(Seq<u8>, u8)>;

/// Relies on `Pubkey::try_find_program_address` of `anchor_lang`: a
/// deterministic derivation from the seed list and the program id, `None`
/// exactly when no bump seed yields a valid address.
#[verifier::external_body]
fn try_find_pda(seeds: &Vec<Vec<u8>>, program_id: &[u8; 32]) -> (r: Option<([u8; 32], u8)>)
    ensures
        (match r {
            Some(p) => pda_of(seeds.deep_view(), program_id@) == Some((p.0@, p.1)),
            None => pda_of(seeds.deep_view(), program_id@) is None,
        }),
{
    let seed_slices: Vec<&[u8]> = seeds.iter().map(|s| s.as_slice()).collect();
    let program = anchor_lang::prelude::Pubkey::new_from_array(*program_id);
    anchor_lang::prelude::Pubkey::try_find_program_address(&seed_slices, &program)
        .map(|(address, bump)| (address.to_bytes(), bump))
}

/// The authority namespace tag as bytes.
fn authority_tag_bytes() -> (v: Vec<u8>)
    ensures
        v@ == authority_tag(),
{
    let v: Vec<u8> = vec![97, 117, 100, 105, 116, 45, 97, 117, 116, 104, 111, 114, 105, 116, 121];
    proof {
        assert(v@ =~= authority_tag());
    }
    v
}

/// The event namespace tag as bytes.
fn event_tag_bytes() -> (v: Vec<u8>)
    ensures
        v@ == event_tag(),
{
    let v: Vec<u8> = vec![115, 101, 99, 117, 114, 105, 116, 121, 45, 101, 118, 101, 110, 116];
    proof {
        assert(v@ =~= event_tag());
    }
    v
}

/// The owner's key bytes as a seed.
fn identity_seed(owner: &Identity) -> (v: Vec<u8>)
    ensures
        v@ == owner@,
{
    let mut v: Vec<u8> = Vec::new();
    let mut i: usize = 0;
    while i < 32
        invariant
            i <= 32,
            v@.len() == i,
            forall|j: int| 0 <= j < i ==> v@[j] == owner.bytes@[j],
        decreases 32 - i,
    {
        v.push(owner.bytes[i]);
        i += 1;
    }
    proof {
        assert(v@ =~= owner@);
    }
    v
}

/// Derive the storage address and address proof of `owner`'s authority
/// record under the given program id.
pub fn authority_address(owner: &Identity, program_id: &[u8; 32]) -> (r: Option<([u8; 32], u8)>)
    ensures
        (match r {
            Some(p) => pda_of(authority_seeds(owner@), program_id@) == Some((p.0@, p.1)),
            None => pda_of(authority_seeds(owner@), program_id@) is None,
        }),
{
    let mut seeds: Vec<Vec<u8>> = Vec::new();
    seeds.push(authority_tag_bytes());
    seeds.push(identity_seed(owner));
    proof {
        assert(seeds.deep_view()[0] =~= authority_tag());
        assert(seeds.deep_view()[1] =~= owner@);
        assert(seeds.deep_view() =~~= authority_seeds(owner@));
    }
    try_find_pda(&seeds, program_id)
}

/// Derive the storage address and address proof of `owner`'s event record
/// at `sequence_index` under the given program id.
pub fn event_address(owner: &Identity, sequence_index: u64, program_id: &[u8; 32]) -> (r: Option<
    ([u8; 32], u8),
>)
    ensures
        (match r {
            Some(p) => pda_of(event_seeds(owner@, sequence_index), program_id@) == Some(
                (p.0@, p.1),
            ),
            None => pda_of(event_seeds(owner@, sequence_index), program_id@) is None,
        }),
{
    let mut seeds: Vec<Vec<u8>> = Vec::new();
    seeds.push(event_tag_bytes());
    seeds.push(identity_seed(owner));
    seeds.push(u64_to_le_bytes(sequence_index));
    proof {
        assert(seeds.deep_view()[0] =~= event_tag());
        assert(seeds.deep_view()[1] =~= owner@);
        assert(seeds.deep_view()[2] =~= spec_u64_to_le_bytes(sequence_index));
        assert(seeds.deep_view() =~~= event_seeds(owner@, sequence_index));
    }
    try_find_pda(&seeds, program_id)
}

/// Re-check an authority record's stored address proof against the
/// canonical derivation, as required on every access to the record: the
/// canonical address is returned only when the stored proof matches its
/// bump seed; otherwise — or when no address is derivable at all — the
/// record must be treated as substituted, with `AddressProofMismatch`.
pub fn verify_authority_proof(record: &AuditAuthority, program_id: &[u8; 32]) -> (r: Result<
    [u8; 32],
    AgentGuardError,
>)
    ensures
        (match r {
            Ok(address) => pda_of(authority_seeds(record@.authority), program_id@) == Some(
                (address@, record.bump),
            ),
            Err(e) => {
                &&& e == AgentGuardError::AddressProofMismatch
                &&& (match pda_of(authority_seeds(record@.authority), program_id@) {
                    Some(p) => p.1 != record.bump,
                    None => true,
                })
            },
        }),
{
    match authority_address(&record.authority, program_id) {
        Some((address, bump)) => {
            if bump == record.bump {
                Ok(address)
            } else {
                Err(AgentGuardError::AddressProofMismatch)
            }
        },
        None => Err(AgentGuardError::AddressProofMismatch),
    }
}

/// Re-check an event record's stored address proof against the canonical
/// derivation for its owner and sequence index, as `verify_authority_proof`
/// does for the authority record.
pub fn verify_event_proof(record: &SecurityEvent, program_id: &[u8; 32]) -> (r: Result<
    [u8; 32],
    AgentGuardError,
>)
    ensures
        (match r {
            Ok(address) => pda_of(
                event_seeds(record@.authority, record.event_index),
                program_id@,
            ) == Some((address@, record.bump)),
            Err(e) => {
                &&& e == AgentGuardError::AddressProofMismatch
                &&& (match pda_of(event_seeds(record@.authority, record.event_index), program_id@) {
                    Some(p) => p.1 != record.bump,
                    None => true,
                })
            },
        }),
{
    match event_address(&record.authority, record.event_index, program_id) {
        Some((address, bump)) => {
            if bump == record.bump {
                Ok(address)
            } else {
                Err(AgentGuardError::AddressProofMismatch)
            }
        },
        None => Err(AgentGuardError::AddressProofMismatch),
    }
}

/// Two authority records share a seed list only when they share an owner.
pub proof fn lemma_authority_seeds_injective(o1: Seq<u8>, o2: Seq<u8>)
    requires
        authority_seeds(o1) == authority_seeds(o2),
    ensures
        o1 == o2,
{
    assert(o1 == authority_seeds(o1)[1]);
}

/// Two event records share a seed list only when they share both owner and
/// sequence index: as long as each owner's indices are unique, every event
/// record is addressed collision-free at the seed level.
pub proof fn lemma_event_seeds_injective(o1: Seq<u8>, i1: u64, o2: Seq<u8>, i2: u64)
    requires
        event_seeds(o1, i1) == event_seeds(o2, i2),
    ensures
        o1 == o2,
        i1 == i2,
{
    assert(o1 == event_seeds(o1, i1)[1]);
    assert(spec_u64_to_le_bytes(i1) == event_seeds(o1, i1)[2]);
    lemma_auto_spec_u64_to_from_le_bytes();
}

/// An authority record and an event record never share a seed list: the two
/// namespace tags differ, so the namespaces are disjoint.
pub proof fn lemma_namespaces_disjoint(o1: Seq<u8>, o2: Seq<u8>, i2: u64)
    ensures
        authority_seeds(o1) != event_seeds(o2, i2),
{
    assert(authority_seeds(o1)[0].len() == 15);
    assert(event_seeds(o2, i2)[0].len() == 14);
}

} // verus!
