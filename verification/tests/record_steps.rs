use agentguard_audit::errors::AgentGuardError;
use agentguard_audit::identity::Identity;
use agentguard_audit::records::AuditAuthority;
use agentguard_audit::records::EventKind;

fn id(b: u8) -> Identity {
    Identity::new([b; 32])
}

#[test]
fn new_authority_populates_all_fields() {
    let owner = id(1);
    let (record, note) = AuditAuthority::new(&owner, 555, 251);
    assert!(record.authority == owner);
    assert_eq!(record.event_count, 0);
    assert_eq!(record.created_at, 555);
    assert_eq!(record.bump, 251);
    assert!(note.authority == owner);
    assert_eq!(note.timestamp, 555);
}

#[test]
fn append_event_populates_all_fields_and_increments() {
    let owner = id(1);
    let (mut record, _) = AuditAuthority::new(&owner, 10, 254);
    let digest = [13u8; 32];
    let (event, note) = record
        .append_event(&owner, 2, &digest, false, 321, 999, 250)
        .unwrap();
    assert!(event.authority == owner);
    assert_eq!(event.event_type, 2);
    assert_eq!(event.action_hash, digest);
    assert!(!event.allowed);
    assert_eq!(event.timestamp, 999);
    assert_eq!(event.event_index, 0);
    assert_eq!(event.details_len, 321);
    assert_eq!(event.bump, 250);
    assert!(note.authority == owner);
    assert_eq!(note.event_index, 0);
    assert_eq!(note.event_type, 2);
    assert!(!note.allowed);
    assert_eq!(note.action_hash, digest);
    assert_eq!(note.timestamp, 999);
    assert_eq!(record.event_count, 1);
    // The authority's other fields are untouched.
    assert_eq!(record.created_at, 10);
    assert_eq!(record.bump, 254);
}

#[test]
fn append_event_checks_owner_before_kind() {
    let owner = id(1);
    let intruder = id(2);
    let (mut record, _) = AuditAuthority::new(&owner, 10, 254);
    // An unauthorized caller with an invalid kind sees the ownership error.
    let err = record
        .append_event(&intruder, 9, &[0; 32], true, 0, 11, 253)
        .unwrap_err();
    assert_eq!(err, AgentGuardError::UnauthorizedSigner);
    assert_eq!(record.event_count, 0);
    let err = record
        .append_event(&owner, 9, &[0; 32], true, 0, 11, 253)
        .unwrap_err();
    assert_eq!(err, AgentGuardError::InvalidEventType);
    assert_eq!(record.event_count, 0);
}

#[test]
fn authorize_close_requires_both_owners() {
    let owner = id(1);
    let intruder = id(2);
    let (mut record, _) = AuditAuthority::new(&owner, 10, 254);
    let (event, _) = record
        .append_event(&owner, 0, &[0; 32], true, 0, 11, 253)
        .unwrap();
    let note = event.authorize_close(&record, &owner).unwrap();
    assert!(note.authority == owner);
    assert_eq!(note.event_index, 0);
    assert_eq!(
        event.authorize_close(&record, &intruder).unwrap_err(),
        AgentGuardError::UnauthorizedSigner,
    );
    // Defence in depth: an event whose stored owner differs is refused even
    // when the caller owns the authority record.
    let mut foreign = event;
    foreign.authority = intruder;
    assert_eq!(
        foreign.authorize_close(&record, &owner).unwrap_err(),
        AgentGuardError::UnauthorizedSigner,
    );
}

#[test]
fn event_kinds_round_trip_through_their_codes() {
    let kinds = [
        EventKind::TransactionCheck,
        EventKind::InjectionDetected,
        EventKind::SecretLeakCaught,
        EventKind::GeneralAction,
    ];
    for (code, kind) in kinds.iter().enumerate() {
        assert_eq!(kind.code(), code as u8);
        assert_eq!(EventKind::from_code(code as u8), Some(*kind));
    }
    assert_eq!(EventKind::from_code(4), None);
    assert_eq!(EventKind::from_code(255), None);
}

#[test]
fn stored_event_reports_its_kind() {
    let owner = id(1);
    let (mut record, _) = AuditAuthority::new(&owner, 10, 254);
    let (event, _) = record
        .append_event(&owner, 2, &[0; 32], true, 0, 11, 253)
        .unwrap();
    assert_eq!(event.kind(), Some(EventKind::SecretLeakCaught));
}

#[test]
fn identity_equality_is_byte_equality() {
    let a = Identity::new([1u8; 32]);
    let b = Identity::new([1u8; 32]);
    let mut other = [1u8; 32];
    other[31] = 2;
    let c = Identity::new(other);
    assert!(a == b);
    assert!(a != c);
    assert_eq!(a.to_bytes(), b.to_bytes());
}
