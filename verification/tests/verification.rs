use verdant::common::{Address, Env, Fault};
use verdant::verification::{
    Verification, VerificationContract, VerificationError, VerificationEvent, VerificationIdList,
};

fn addr(n: u8) -> Address {
    Address::from_bytes(vec![b'G', n, n, n])
}

fn env(sequence: u32, who: &[&Address]) -> Env {
    Env::new(sequence, Address::from_bytes(vec![b'C', 0, 0, 2]), who.iter().map(|a| (*a).clone()).collect())
}

fn env_with_authority() -> (VerificationContract, Address, Address) {
    let admin = addr(200);
    let authority = addr(201);
    let mut c = VerificationContract::new();
    c.initialize(&env(0, &[&admin, &authority]), admin.clone(), authority.clone()).unwrap();
    (c, admin, authority)
}

fn hash(value: u32) -> Vec<u8> {
    value.to_be_bytes().to_vec()
}

#[test]
fn initialize_sets_admin_and_authority() {
    let (c, admin, authority) = env_with_authority();
    let _ = (admin, authority);
    assert!(true);
    assert_eq!(c.events().len(), 1);
}

#[test]
fn create_verification_requires_authority() {
    let (mut c, _admin, _authority) = env_with_authority();
    let batch = hash(1);
    let subject = addr(1);
    let proof_hash = hash(100);
    let issuer = addr(2);

    let result = c.create_verification(&env(0, &[]), batch, subject, proof_hash, issuer);
    assert!(result.is_err());
    assert_eq!(result, Err(Fault::MissingAuth));
}

#[test]
fn create_verification_succeeds_with_authority() {
    let (mut c, _admin, authority) = env_with_authority();
    let batch = hash(1);
    let subject = addr(1);
    let proof_hash = hash(100);

    let id = c
        .create_verification(&env(0, &[&authority]), batch.clone(), subject.clone(), proof_hash.clone(), authority.clone())
        .unwrap();

    assert_eq!(id, 1);

    let record: Verification = c.get_verification(id).unwrap();
    assert_eq!(record.id, 1);
    assert_eq!(record.batch, batch);
    assert_eq!(record.subject, subject);
    assert_eq!(record.proof_hash, proof_hash);
    assert_eq!(record.issuer, authority);
    assert!(!record.revoked);
    assert!(record.revoked_ledger.is_none());
}

#[test]
fn create_verification_rejects_empty_batch_or_proof() {
    let (mut c, _admin, authority) = env_with_authority();
    let subject = addr(1);
    let proof_hash = hash(100);
    let batch = hash(1);
    let empty: Vec<u8> = Vec::new();

    let result1 = c.create_verification(&env(0, &[&authority]), empty.clone(), subject.clone(), proof_hash, authority.clone());
    assert!(result1.is_err());

    let result2 = c.create_verification(&env(0, &[&authority]), batch, subject, empty, authority.clone());
    assert!(result2.is_err());
    assert_eq!(result2, Err(Fault::Contract(VerificationError::InvalidInput)));
}

#[test]
fn multiple_verifications_increment_counter() {
    let (mut c, _admin, authority) = env_with_authority();
    let batch = hash(1);
    let subject = addr(1);
    let e = env(0, &[&authority]);

    let id1 = c.create_verification(&e, batch.clone(), subject.clone(), hash(1), authority.clone()).unwrap();
    let id2 = c.create_verification(&e, batch.clone(), subject.clone(), hash(2), authority.clone()).unwrap();
    let id3 = c.create_verification(&e, batch.clone(), subject.clone(), hash(3), authority.clone()).unwrap();

    assert_eq!(id1, 1);
    assert_eq!(id2, 2);
    assert_eq!(id3, 3);
}

#[test]
fn batch_verifications_indexed() {
    let (mut c, _admin, authority) = env_with_authority();
    let batch = hash(42);
    let subject = addr(1);
    let e = env(0, &[&authority]);

    c.create_verification(&e, batch.clone(), subject.clone(), hash(1), authority.clone()).unwrap();
    c.create_verification(&e, batch.clone(), subject.clone(), hash(2), authority.clone()).unwrap();
    c.create_verification(&e, batch.clone(), subject.clone(), hash(3), authority.clone()).unwrap();

    let ids: Vec<u64> = c.get_batch_verifications(&batch);
    assert_eq!(ids.len(), 3);
    assert_eq!(ids[0], 1);
    assert_eq!(ids[1], 2);
    assert_eq!(ids[2], 3);
}

#[test]
fn get_verification_unknown_fails() {
    let (c, _admin, _authority) = env_with_authority();
    let result = c.get_verification(999);
    assert!(result.is_err());
    assert_eq!(result, Err(Fault::Contract(VerificationError::VerificationNotFound)));
}

#[test]
fn revoke_verification_requires_authority() {
    let (mut c, _admin, authority) = env_with_authority();
    let batch = hash(1);
    let subject = addr(1);
    let id = c.create_verification(&env(0, &[&authority]), batch, subject, hash(1), authority.clone()).unwrap();

    let result = c.revoke_verification(&env(0, &[]), authority.clone(), id, hash(99));
    assert!(result.is_err());
    assert_eq!(result, Err(Fault::MissingAuth));
    assert!(!c.get_verification(id).unwrap().revoked);
}

#[test]
fn revoke_verification_succeeds_with_authority() {
    let (mut c, _admin, authority) = env_with_authority();
    let batch = hash(1);
    let subject = addr(1);
    let id = c.create_verification(&env(0, &[&authority]), batch, subject, hash(1), authority.clone()).unwrap();

    let reason = hash(99);
    c.revoke_verification(&env(0, &[&authority]), authority.clone(), id, reason).unwrap();

    let record: Verification = c.get_verification(id).unwrap();
    assert!(record.revoked);
    assert_eq!(record.revoked_ledger, Some(0));
}

#[test]
fn revoke_verification_idempotent() {
    let (mut c, _admin, authority) = env_with_authority();
    let batch = hash(1);
    let subject = addr(1);
    let id = c.create_verification(&env(0, &[&authority]), batch, subject, hash(1), authority.clone()).unwrap();

    c.revoke_verification(&env(0, &[&authority]), authority.clone(), id, hash(99)).unwrap();
    c.revoke_verification(&env(0, &[&authority]), authority.clone(), id, hash(100)).unwrap();

    let record: Verification = c.get_verification(id).unwrap();
    assert!(record.revoked);
    assert_eq!(record.revoked_ledger, Some(0));
}

#[test]
fn revoke_unknown_verification_fails() {
    let (mut c, _admin, authority) = env_with_authority();
    let result = c.revoke_verification(&env(0, &[&authority]), authority.clone(), 999, hash(99));
    assert!(result.is_err());
    assert_eq!(result, Err(Fault::Contract(VerificationError::VerificationNotFound)));
}

#[test]
fn revoke_rejects_empty_reason() {
    let (mut c, _admin, authority) = env_with_authority();
    let batch = hash(1);
    let subject = addr(1);
    let id = c.create_verification(&env(0, &[&authority]), batch, subject, hash(1), authority.clone()).unwrap();

    let empty: Vec<u8> = Vec::new();
    let result = c.revoke_verification(&env(0, &[&authority]), authority.clone(), id, empty);
    assert!(result.is_err());
    assert_eq!(result, Err(Fault::Contract(VerificationError::InvalidInput)));
}

#[test]
fn test_operations_require_initialization() {
    let mut c = VerificationContract::new();
    let batch = hash(1);
    let subject = addr(1);
    let authority = addr(201);

    let result = c.create_verification(&env(0, &[&authority]), batch, subject, hash(1), authority.clone());
    assert!(result.is_err());
    assert_eq!(result, Err(Fault::Contract(VerificationError::NotInitialized)));
}

#[test]
fn test_events_are_emitted() {
    let (mut c, _admin, authority) = env_with_authority();
    let batch = hash(1);
    let subject = addr(1);

    c.create_verification(&env(0, &[&authority]), batch, subject, hash(1), authority.clone()).unwrap();

    assert!(!c.events().is_empty());
}

// Further cases: error codes, events, overflow and edge inputs.

#[test]
fn revocation_records_ledger_and_publishes_once() {
    let (mut c, _admin, authority) = env_with_authority();
    let id = c.create_verification(&env(3, &[&authority]), hash(1), addr(1), hash(1), authority.clone()).unwrap();
    c.revoke_verification(&env(17, &[&authority]), authority.clone(), id, hash(99)).unwrap();
    c.revoke_verification(&env(18, &[&authority]), authority.clone(), id, hash(98)).unwrap();
    let record = c.get_verification(id).unwrap();
    assert_eq!(record.issued_ledger, 3);
    assert_eq!(record.revoked_ledger, Some(17));
    assert_eq!(c.events().len(), 3);
    match &c.events()[2] {
        VerificationEvent::VerificationRevoked(e) => {
            assert_eq!(e.verification_id, id);
            assert_eq!(e.record, record);
        },
        other => panic!("unexpected event {:?}", other),
    }
}

#[test]
fn revoke_by_other_address_is_unauthorized() {
    let (mut c, admin, authority) = env_with_authority();
    let id = c.create_verification(&env(0, &[&authority]), hash(1), addr(1), hash(1), authority.clone()).unwrap();
    let result = c.revoke_verification(&env(0, &[&admin]), admin.clone(), id, hash(99));
    assert_eq!(result, Err(Fault::Contract(VerificationError::Unauthorized)));
}

#[test]
fn batches_are_kept_apart() {
    let (mut c, _admin, authority) = env_with_authority();
    let e = env(0, &[&authority]);
    c.create_verification(&e, hash(1), addr(1), hash(1), authority.clone()).unwrap();
    c.create_verification(&e, hash(2), addr(1), hash(1), authority.clone()).unwrap();
    c.create_verification(&e, hash(1), addr(1), hash(1), authority.clone()).unwrap();
    assert_eq!(c.get_batch_verifications(&hash(1)), vec![1, 3]);
    assert_eq!(c.get_batch_verifications(&hash(2)), vec![2]);
    assert_eq!(c.get_batch_verifications(&hash(3)), Vec::<u64>::new());
}

#[test]
fn reinitialization_restarts_the_counter() {
    let (mut c, admin, authority) = env_with_authority();
    let e = env(0, &[&authority]);
    c.create_verification(&e, hash(1), addr(1), hash(1), authority.clone()).unwrap();
    c.create_verification(&e, hash(1), addr(1), hash(2), authority.clone()).unwrap();
    c.initialize(&env(0, &[&admin]), admin.clone(), authority.clone()).unwrap();
    let id = c.create_verification(&e, hash(1), addr(1), hash(3), authority.clone()).unwrap();
    assert_eq!(id, 1);
    assert_eq!(c.get_verification(1).unwrap().proof_hash, hash(3));
    assert_eq!(c.get_batch_verifications(&hash(1)), vec![1, 2, 1]);
}

#[test]
fn id_list_copies() {
    let l = VerificationIdList(vec![4, 5]);
    assert_eq!(l.copy(), l);
}

#[test]
fn verification_error_codes() {
    assert_eq!(VerificationError::NotInitialized.code(), 1);
    assert_eq!(VerificationError::Unauthorized.code(), 2);
    assert_eq!(VerificationError::VerificationNotFound.code(), 3);
    assert_eq!(VerificationError::InvalidInput.code(), 4);
}

#[test]
fn creation_without_the_authority_signature_changes_nothing() {
    let (mut c, _admin, authority) = env_with_authority();
    let events_before = c.events().len();
    let result = c.create_verification(&env(0, &[]), hash(1), addr(1), hash(100), authority.clone());
    assert_eq!(result, Err(Fault::MissingAuth));
    assert_eq!(c.get_verification(1), Err(Fault::Contract(VerificationError::VerificationNotFound)));
    assert!(c.get_batch_verifications(&hash(1)).is_empty());
    assert_eq!(c.events().len(), events_before);
    let id = c.create_verification(&env(0, &[&authority]), hash(1), addr(1), hash(100), authority.clone()).unwrap();
    assert_eq!(id, 1);
}

#[test]
fn signed_creation_by_another_issuer_is_unauthorized() {
    let (mut c, _admin, _authority) = env_with_authority();
    let other = addr(7);
    let result = c.create_verification(&env(0, &[&other]), hash(1), addr(1), hash(100), other.clone());
    assert_eq!(result, Err(Fault::Contract(VerificationError::Unauthorized)));
}
