use agentguard_audit::address::authority_address;
use agentguard_audit::address::event_address;
use agentguard_audit::address::verify_authority_proof;
use agentguard_audit::address::verify_event_proof;
use agentguard_audit::errors::AgentGuardError;
use agentguard_audit::identity::Identity;
use agentguard_audit::records::AuditAuthority;

use solana_pubkey::Pubkey;

const PROGRAM_ID: [u8; 32] = [42u8; 32];

fn owner() -> Identity {
    let mut bytes = [0u8; 32];
    for (i, byte) in bytes.iter_mut().enumerate() {
        *byte = i as u8;
    }
    Identity::new(bytes)
}

#[test]
fn authority_address_matches_reference_derivation() {
    let owner = owner();
    let (address, bump) = authority_address(&owner, &PROGRAM_ID).unwrap();
    let (expected, expected_bump) = Pubkey::find_program_address(
        &[b"audit-authority", &owner.to_bytes()],
        &Pubkey::new_from_array(PROGRAM_ID),
    );
    assert_eq!(address, expected.to_bytes());
    assert_eq!(bump, expected_bump);
}

#[test]
fn event_address_matches_reference_derivation() {
    let owner = owner();
    let index: u64 = 7;
    let (address, bump) = event_address(&owner, index, &PROGRAM_ID).unwrap();
    let (expected, expected_bump) = Pubkey::find_program_address(
        &[b"security-event", &owner.to_bytes(), &index.to_le_bytes()],
        &Pubkey::new_from_array(PROGRAM_ID),
    );
    assert_eq!(address, expected.to_bytes());
    assert_eq!(bump, expected_bump);
}

#[test]
fn derivation_is_deterministic() {
    let owner = owner();
    assert_eq!(
        authority_address(&owner, &PROGRAM_ID),
        authority_address(&owner, &PROGRAM_ID),
    );
    assert_eq!(
        event_address(&owner, 3, &PROGRAM_ID),
        event_address(&owner, 3, &PROGRAM_ID),
    );
}

#[test]
fn distinct_indices_give_distinct_event_addresses() {
    let owner = owner();
    let (a0, _) = event_address(&owner, 0, &PROGRAM_ID).unwrap();
    let (a1, _) = event_address(&owner, 1, &PROGRAM_ID).unwrap();
    let (a2, _) = event_address(&owner, 2, &PROGRAM_ID).unwrap();
    assert_ne!(a0, a1);
    assert_ne!(a0, a2);
    assert_ne!(a1, a2);
}

#[test]
fn distinct_owners_give_distinct_authority_addresses() {
    let (a, _) = authority_address(&Identity::new([1u8; 32]), &PROGRAM_ID).unwrap();
    let (b, _) = authority_address(&Identity::new([2u8; 32]), &PROGRAM_ID).unwrap();
    assert_ne!(a, b);
}

#[test]
fn authority_proof_round_trip_and_mismatch() {
    let owner = owner();
    let (address, bump) = authority_address(&owner, &PROGRAM_ID).unwrap();
    let (record, _) = AuditAuthority::new(&owner, 1_700_000_000, bump);
    assert_eq!(verify_authority_proof(&record, &PROGRAM_ID), Ok(address));
    let tampered = AuditAuthority { bump: bump.wrapping_add(1), ..record };
    assert_eq!(
        verify_authority_proof(&tampered, &PROGRAM_ID),
        Err(AgentGuardError::AddressProofMismatch),
    );
}

#[test]
fn event_proof_round_trip_and_mismatch() {
    let owner = owner();
    let (mut record, _) = AuditAuthority::new(&owner, 10, 254);
    let (address, bump) = event_address(&owner, 0, &PROGRAM_ID).unwrap();
    let (event, _) = record
        .append_event(&owner, 1, &[8u8; 32], true, 16, 11, bump)
        .unwrap();
    assert_eq!(verify_event_proof(&event, &PROGRAM_ID), Ok(address));
    let mut tampered = event;
    tampered.bump = bump.wrapping_add(1);
    assert_eq!(
        verify_event_proof(&tampered, &PROGRAM_ID),
        Err(AgentGuardError::AddressProofMismatch),
    );
}
