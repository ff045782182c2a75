use verdant::common::{Address, Env, Fault};
use verdant::identity::{
    Farmer, IdentityContract, IdentityError, IdentityEvent, VerificationMarker,
};

fn addr(n: u8) -> Address {
    Address::from_bytes(vec![b'G', n, n, n])
}

fn contract_addr() -> Address {
    Address::from_bytes(vec![b'C', 0, 0, 1])
}

/// An invocation at `sequence` that carries the authorization of `who`.
fn env(sequence: u32, who: &[&Address]) -> Env {
    Env::new(sequence, contract_addr(), who.iter().map(|a| (*a).clone()).collect())
}

fn env_with_admin() -> (IdentityContract, Address) {
    let admin = addr(200);
    let mut c = IdentityContract::new();
    c.initialize(&env(0, &[&admin]), admin.clone()).unwrap();
    (c, admin)
}

fn hash(value: u32) -> Vec<u8> {
    value.to_be_bytes().to_vec()
}

fn marker(kind: &[u8], issuer: &Address, ledger: u32) -> VerificationMarker {
    VerificationMarker { kind: kind.to_vec(), issuer: issuer.clone(), issued_ledger: ledger }
}

#[test]
fn register_farmer_creates_record() {
    let (mut c, _admin) = env_with_admin();
    let farmer = addr(1);
    let metadata_hash = hash(1);

    let record = c.register_farmer(&env(0, &[&farmer]), farmer.clone(), metadata_hash.clone()).unwrap();

    assert_eq!(record.address, farmer);
    assert_eq!(record.metadata_hash, metadata_hash);
    assert_eq!(record.verification_markers.len(), 0);
    assert!(c.is_registered(&farmer));
}

#[test]
fn register_farmer_requires_auth() {
    let (mut c, _admin) = env_with_admin();
    let farmer = addr(1);
    let metadata_hash = hash(1);

    let result = c.register_farmer(&env(0, &[]), farmer.clone(), metadata_hash);
    assert!(result.is_err());
    assert_eq!(result, Err(Fault::MissingAuth));
    assert!(!c.is_registered(&farmer));
}

#[test]
fn cannot_register_same_farmer_twice() {
    let (mut c, _admin) = env_with_admin();
    let farmer = addr(1);
    let metadata_hash = hash(1);

    c.register_farmer(&env(0, &[&farmer]), farmer.clone(), metadata_hash.clone()).unwrap();
    let result = c.register_farmer(&env(0, &[&farmer]), farmer.clone(), metadata_hash);

    assert_eq!(result, Err(Fault::Contract(IdentityError::AlreadyRegistered)));
    assert_eq!(IdentityError::AlreadyRegistered.code(), 2);
}

#[test]
fn update_metadata_allowed_for_farmer() {
    let (mut c, _admin) = env_with_admin();
    let farmer = addr(1);
    let first = hash(1);
    let second = hash(2);

    c.register_farmer(&env(0, &[&farmer]), farmer.clone(), first).unwrap();

    let updated = c.update_metadata(&env(0, &[&farmer]), farmer.clone(), second.clone()).unwrap();
    assert_eq!(updated.metadata_hash, second);
    let record = c.get_farmer(&farmer).unwrap();
    assert_eq!(record.metadata_hash, second);
}

#[test]
fn update_metadata_rejects_other_caller() {
    let (mut c, _admin) = env_with_admin();
    let farmer = addr(1);
    c.register_farmer(&env(0, &[&farmer]), farmer.clone(), hash(1)).unwrap();

    let stranger = addr(2);
    let result = c.update_metadata(&env(0, &[&farmer, &stranger]), stranger.clone(), hash(2));
    assert!(result.is_err());
    assert_eq!(result, Err(Fault::Contract(IdentityError::FarmerNotFound)));
    assert_eq!(c.get_farmer(&farmer).unwrap().metadata_hash, hash(1));
}

#[test]
fn set_verification_marker_is_admin_only() {
    let (mut c, admin) = env_with_admin();
    let farmer = addr(1);
    c.register_farmer(&env(0, &[&farmer]), farmer.clone(), hash(1)).unwrap();

    let m = marker(b"certified", &admin, 0);

    c.set_verification_marker(&env(0, &[&admin]), admin.clone(), farmer.clone(), m.clone())
        .unwrap();
    let record = c.get_farmer(&farmer).unwrap();
    assert_eq!(record.verification_markers.len(), 1);
    assert_eq!(record.verification_markers[0].kind, m.kind);

    let non_admin = addr(3);
    let m2 = marker(b"fake", &non_admin, 0);
    let result = c.set_verification_marker(
        &env(0, &[&non_admin]),
        non_admin.clone(),
        farmer.clone(),
        m2,
    );
    assert_eq!(result, Err(Fault::Contract(IdentityError::Unauthorized)));
}

#[test]
fn get_farmer_returns_record() {
    let (mut c, _admin) = env_with_admin();
    let farmer = addr(1);
    let metadata_hash = hash(7);
    c.register_farmer(&env(0, &[&farmer]), farmer.clone(), metadata_hash.clone()).unwrap();

    let record: Farmer = c.get_farmer(&farmer).unwrap();
    assert_eq!(record.address, farmer);
    assert_eq!(record.metadata_hash, metadata_hash);
}

#[test]
fn get_farmer_unknown_panics() {
    let (c, _admin) = env_with_admin();
    let stranger = addr(9);
    let result = c.get_farmer(&stranger);
    assert_eq!(result, Err(Fault::Contract(IdentityError::FarmerNotFound)));
}

#[test]
fn is_registered_false_before_registration() {
    let (c, _admin) = env_with_admin();
    let farmer = addr(1);
    assert!(!c.is_registered(&farmer));
}

#[test]
fn operations_require_initialization() {
    let mut c = IdentityContract::new();
    let farmer = addr(1);

    let result = c.register_farmer(&env(0, &[&farmer]), farmer.clone(), hash(1));
    assert_eq!(result, Err(Fault::Contract(IdentityError::NotInitialized)));
}

#[test]
fn events_are_emitted() {
    let (mut c, _admin) = env_with_admin();
    let farmer = addr(1);
    c.register_farmer(&env(0, &[&farmer]), farmer.clone(), hash(1)).unwrap();

    assert!(!c.events().is_empty());
}

// Further cases: error codes, events, overflow and edge inputs.

#[test]
fn registration_records_ledgers_and_publishes_the_record() {
    let (mut c, admin) = env_with_admin();
    let farmer = addr(1);
    let record = c.register_farmer(&env(42, &[&farmer]), farmer.clone(), hash(5)).unwrap();
    assert_eq!(record.created_ledger, 42);
    assert_eq!(record.updated_ledger, 42);
    assert_eq!(c.events().len(), 2);
    match &c.events()[0] {
        IdentityEvent::Initialized(e) => assert_eq!(e.admin, admin),
        other => panic!("unexpected event {:?}", other),
    }
    match &c.events()[1] {
        IdentityEvent::FarmerRegistered(e) => {
            assert_eq!(e.farmer, farmer);
            assert_eq!(e.record, record);
        },
        other => panic!("unexpected event {:?}", other),
    }
}

#[test]
fn update_keeps_creation_ledger_and_markers() {
    let (mut c, admin) = env_with_admin();
    let farmer = addr(1);
    c.register_farmer(&env(10, &[&farmer]), farmer.clone(), hash(1)).unwrap();
    c.set_verification_marker(&env(20, &[&admin]), admin.clone(), farmer.clone(), marker(b"organic", &admin, 20))
        .unwrap();
    let updated = c.update_metadata(&env(30, &[&farmer]), farmer.clone(), hash(2)).unwrap();
    assert_eq!(updated.created_ledger, 10);
    assert_eq!(updated.updated_ledger, 30);
    assert_eq!(updated.verification_markers.len(), 1);
    assert_eq!(updated.verification_markers[0].kind, b"organic".to_vec());
}

#[test]
fn markers_accumulate_in_order() {
    let (mut c, admin) = env_with_admin();
    let farmer = addr(1);
    c.register_farmer(&env(0, &[&farmer]), farmer.clone(), hash(1)).unwrap();
    c.set_verification_marker(&env(1, &[&admin]), admin.clone(), farmer.clone(), marker(b"a", &admin, 1))
        .unwrap();
    c.set_verification_marker(&env(2, &[&admin]), admin.clone(), farmer.clone(), marker(b"b", &admin, 2))
        .unwrap();
    let record = c.get_farmer(&farmer).unwrap();
    assert_eq!(record.verification_markers.len(), 2);
    assert_eq!(record.verification_markers[0].kind, b"a".to_vec());
    assert_eq!(record.verification_markers[1].kind, b"b".to_vec());
    assert_eq!(record.updated_ledger, 2);
}

#[test]
fn marker_for_unknown_farmer_is_rejected() {
    let (mut c, admin) = env_with_admin();
    let result = c.set_verification_marker(
        &env(0, &[&admin]),
        admin.clone(),
        addr(7),
        marker(b"x", &admin, 0),
    );
    assert_eq!(result, Err(Fault::Contract(IdentityError::FarmerNotFound)));
}

#[test]
fn marker_before_initialization_aborts() {
    let mut c = IdentityContract::new();
    let admin = addr(200);
    let result =
        c.set_verification_marker(&env(0, &[&admin]), admin.clone(), addr(1), marker(b"x", &admin, 0));
    assert_eq!(result, Err(Fault::Abort));
}

#[test]
fn initialize_requires_admin_auth() {
    let mut c = IdentityContract::new();
    let admin = addr(200);
    assert_eq!(c.initialize(&env(0, &[]), admin.clone()), Err(Fault::MissingAuth));
    assert!(c.events().is_empty());
}

#[test]
fn failed_call_changes_nothing() {
    let (mut c, _admin) = env_with_admin();
    let farmer = addr(1);
    c.register_farmer(&env(0, &[&farmer]), farmer.clone(), hash(1)).unwrap();
    let events_before = c.events().clone();
    let _ = c.register_farmer(&env(5, &[&farmer]), farmer.clone(), hash(9));
    assert_eq!(c.events(), &events_before);
    assert_eq!(c.get_farmer(&farmer).unwrap().metadata_hash, hash(1));
}

#[test]
fn identity_error_codes() {
    assert_eq!(IdentityError::NotInitialized.code(), 1);
    assert_eq!(IdentityError::AlreadyRegistered.code(), 2);
    assert_eq!(IdentityError::FarmerNotFound.code(), 3);
    assert_eq!(IdentityError::Unauthorized.code(), 4);
}
