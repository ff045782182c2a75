use verdant::common::{Address, Env, Fault};
use verdant::escrow::{EscrowContract, EscrowError, EscrowEvent, ReleaseCondition, TokenTransfer};

fn addr(n: u8) -> Address {
    Address::from_bytes(vec![b'G', n, n, n])
}

fn contract_addr() -> Address {
    Address::from_bytes(vec![b'C', 0, 0, 3])
}

fn env(sequence: u32, who: &[&Address]) -> Env {
    Env::new(sequence, contract_addr(), who.iter().map(|a| (*a).clone()).collect())
}

/// An initialized escrow contract, a depositor, a beneficiary and the token.
fn setup(_amount: i128) -> (EscrowContract, Address, Address, Address) {
    let admin = addr(200);
    let depositor = addr(1);
    let beneficiary = addr(2);
    let token = Address::from_bytes(vec![b'C', 9, 9, 9]);
    let mut c = EscrowContract::new();
    c.initialize(&env(0, &[&admin]), admin.clone(), token.clone()).unwrap();
    (c, depositor, beneficiary, token)
}

fn condition(kind: u32, releaser: Address, timeout_ledger: u32) -> ReleaseCondition {
    ReleaseCondition { kind, releaser, timeout_ledger }
}

#[test]
fn test_create_escrow() {
    let (mut c, depositor, beneficiary, token) = setup(1000);
    let amount = 1000i128;
    let condition = condition(0, depositor.clone(), 0);
    let booking_ref = vec![1u8, 2, 3, 4];

    let escrow_id = c
        .create_escrow(&env(0, &[&depositor]), depositor.clone(), beneficiary.clone(), amount, condition, booking_ref)
        .unwrap();

    let record = c.get_escrow(escrow_id).unwrap();
    assert_eq!(record.depositor, depositor);
    assert_eq!(record.beneficiary, beneficiary);
    assert_eq!(record.amount, amount);
    assert_eq!(record.released_amount, 0);
    assert_eq!(record.token, token);
    assert_eq!(record.condition.kind, 0);
    assert_eq!(record.condition.releaser, depositor);
}

#[test]
fn test_create_escrow_rejects_empty_booking_ref() {
    let (mut c, depositor, beneficiary, _token) = setup(1000);
    let condition = condition(0, depositor.clone(), 0);
    let empty: Vec<u8> = vec![];

    let result = c.create_escrow(&env(0, &[&depositor]), depositor.clone(), beneficiary, 1000i128, condition, empty);
    assert!(result.is_err());
    assert_eq!(result, Err(Fault::Contract(EscrowError::InvalidInput)));
}

#[test]
fn test_create_escrow_rejects_nonpositive_amount() {
    let (mut c, depositor, beneficiary, _token) = setup(1000);
    let condition = condition(0, depositor.clone(), 0);
    let booking_ref = vec![1u8, 2, 3, 4];

    let result = c.create_escrow(&env(0, &[&depositor]), depositor.clone(), beneficiary, 0i128, condition, booking_ref);
    assert!(result.is_err());
    assert_eq!(result, Err(Fault::Contract(EscrowError::InvalidInput)));
}

#[test]
fn test_deposit_adds_funds() {
    let (mut c, depositor, beneficiary, _token) = setup(1000);
    let condition = condition(0, depositor.clone(), 0);
    let booking_ref = vec![1u8, 2, 3, 4];
    let escrow_id = c
        .create_escrow(&env(0, &[&depositor]), depositor.clone(), beneficiary, 1000i128, condition, booking_ref)
        .unwrap();

    c.deposit(&env(0, &[&depositor]), escrow_id, depositor.clone(), 500).unwrap();

    let record = c.get_escrow(escrow_id).unwrap();
    assert_eq!(record.amount, 1500);
}

#[test]
fn test_release_manual_condition() {
    let (mut c, depositor, beneficiary, _token) = setup(1000);
    let condition = condition(0, depositor.clone(), 0);
    let booking_ref = vec![1u8, 0, 0, 0];
    let escrow_id = c
        .create_escrow(&env(0, &[&depositor]), depositor.clone(), beneficiary, 1000i128, condition, booking_ref)
        .unwrap();

    c.release(&env(0, &[&depositor]), escrow_id, depositor.clone(), vec![]).unwrap();

    let record = c.get_escrow(escrow_id).unwrap();
    assert_eq!(record.released_amount, 1000);
}

#[test]
fn test_release_manual_condition_rejects_unauthorized_releaser() {
    let (mut c, depositor, beneficiary, _token) = setup(1000);
    let stranger = addr(3);
    let condition = condition(0, depositor.clone(), 0);
    let booking_ref = vec![1u8, 0, 0, 0];
    let escrow_id = c
        .create_escrow(&env(0, &[&depositor]), depositor.clone(), beneficiary, 1000i128, condition, booking_ref)
        .unwrap();

    let result = c.release(&env(0, &[&depositor, &stranger]), escrow_id, stranger.clone(), vec![]);
    assert!(result.is_err());
    assert_eq!(result, Err(Fault::Contract(EscrowError::ConditionNotMet)));
}

#[test]
fn test_release_timeout_condition() {
    let (mut c, depositor, beneficiary, _token) = setup(1000);
    let condition = condition(2, depositor.clone(), 100);
    let booking_ref = vec![1u8, 2, 3, 4];
    let escrow_id = c
        .create_escrow(&env(0, &[&depositor]), depositor.clone(), beneficiary, 1000i128, condition, booking_ref)
        .unwrap();

    let seq = 0u32;
    c.release(&env(seq + 100, &[&depositor]), escrow_id, depositor.clone(), vec![]).unwrap();

    let record = c.get_escrow(escrow_id).unwrap();
    assert_eq!(record.released_amount, 1000);
}

#[test]
fn test_release_timeout_not_elapsed() {
    let (mut c, depositor, beneficiary, _token) = setup(1000);
    let condition = condition(2, depositor.clone(), 100);
    let booking_ref = vec![1u8, 2, 3, 4];
    let escrow_id = c
        .create_escrow(&env(0, &[&depositor]), depositor.clone(), beneficiary, 1000i128, condition, booking_ref)
        .unwrap();

    let result = c.release(&env(0, &[&depositor]), escrow_id, depositor.clone(), vec![]);
    assert!(result.is_err());
    assert_eq!(result, Err(Fault::Contract(EscrowError::TimeoutNotElapsed)));
}

#[test]
fn test_release_milestone_condition() {
    let (mut c, depositor, beneficiary, _token) = setup(1000);
    let proof_verifier = addr(4);
    let condition = condition(1, proof_verifier.clone(), 0);
    let booking_ref = vec![1u8, 2, 3, 4];
    let escrow_id = c
        .create_escrow(&env(0, &[&depositor]), depositor.clone(), beneficiary, 1000i128, condition, booking_ref)
        .unwrap();

    c.release(&env(0, &[&proof_verifier]), escrow_id, proof_verifier.clone(), vec![42u8; 32]).unwrap();

    let record = c.get_escrow(escrow_id).unwrap();
    assert_eq!(record.released_amount, 1000);
}

#[test]
fn test_release_milestone_rejects_empty_proof() {
    let (mut c, depositor, beneficiary, _token) = setup(1000);
    let proof_verifier = addr(4);
    let condition = condition(1, proof_verifier.clone(), 0);
    let booking_ref = vec![1u8, 2, 3, 4];
    let escrow_id = c
        .create_escrow(&env(0, &[&depositor]), depositor.clone(), beneficiary, 1000i128, condition, booking_ref)
        .unwrap();

    let result = c.release(&env(0, &[&proof_verifier]), escrow_id, proof_verifier.clone(), vec![]);
    assert!(result.is_err());
    assert_eq!(result, Err(Fault::Contract(EscrowError::InvalidInput)));
}

#[test]
fn test_refund_with_timeout() {
    let (mut c, depositor, beneficiary, _token) = setup(1000);
    let condition = condition(2, depositor.clone(), 100);
    let booking_ref = vec![1u8, 2, 3, 4];
    let escrow_id = c
        .create_escrow(&env(0, &[&depositor]), depositor.clone(), beneficiary, 1000i128, condition, booking_ref)
        .unwrap();

    let seq = 0u32;
    c.refund(&env(seq + 100, &[&depositor]), escrow_id, depositor.clone()).unwrap();

    let record = c.get_escrow(escrow_id).unwrap();
    assert_eq!(record.released_amount, 1000);
}

#[test]
fn test_refund_rejects_non_depositor() {
    let (mut c, depositor, beneficiary, _token) = setup(1000);
    let stranger = addr(3);
    let condition = condition(2, depositor.clone(), 100);
    let booking_ref = vec![1u8, 2, 3, 4];
    let escrow_id = c
        .create_escrow(&env(0, &[&depositor]), depositor.clone(), beneficiary, 1000i128, condition, booking_ref)
        .unwrap();

    let result = c.refund(&env(100, &[&stranger]), escrow_id, stranger.clone());
    assert!(result.is_err());
    assert_eq!(result, Err(Fault::Contract(EscrowError::Unauthorized)));
}

#[test]
fn test_get_escrows_for_booking() {
    let (mut c, depositor, beneficiary, _token) = setup(3000);
    let condition1 = condition(0, depositor.clone(), 0);
    let condition2 = condition(0, depositor.clone(), 0);

    let escrow_id1 = c
        .create_escrow(&env(0, &[&depositor]), depositor.clone(), beneficiary.clone(), 1000i128, condition1, vec![1, 0, 0, 0])
        .unwrap();
    let escrow_id2 = c
        .create_escrow(&env(0, &[&depositor]), depositor.clone(), beneficiary.clone(), 2000i128, condition2, vec![2, 0, 0, 0])
        .unwrap();

    let ids1 = c.get_escrows_for_booking(&vec![1, 0, 0, 0]);
    assert_eq!(ids1.len(), 1);
    assert_eq!(ids1[0], escrow_id1);

    let ids2 = c.get_escrows_for_booking(&vec![2, 0, 0, 0]);
    assert_eq!(ids2.len(), 1);
    assert_eq!(ids2[0], escrow_id2);
}

#[test]
#[should_panic]
fn test_get_escrow_not_found() {
    let (c, _depositor, _beneficiary, _token) = setup(1000);
    c.get_escrow(999).unwrap();
}

// Further cases: error codes, events, overflow and edge inputs.

#[test]
fn token_moves_follow_the_escrow() {
    let (mut c, depositor, beneficiary, token) = setup(1500);
    let id = c
        .create_escrow(&env(0, &[&depositor]), depositor.clone(), beneficiary.clone(), 1000, condition(0, depositor.clone(), 0), vec![7])
        .unwrap();
    c.deposit(&env(1, &[&depositor]), id, depositor.clone(), 500).unwrap();
    c.release(&env(2, &[&depositor]), id, depositor.clone(), vec![]).unwrap();
    let t = c.transfers();
    assert_eq!(t.len(), 3);
    assert_eq!(t[0], TokenTransfer { token: token.clone(), from: depositor.clone(), to: contract_addr(), amount: 1000 });
    assert_eq!(t[1], TokenTransfer { token: token.clone(), from: depositor.clone(), to: contract_addr(), amount: 500 });
    assert_eq!(t[2], TokenTransfer { token: token.clone(), from: contract_addr(), to: beneficiary.clone(), amount: 1500 });
    match &c.events()[3] {
        EscrowEvent::EscrowReleased(e) => assert_eq!(e.amount, 1500),
        other => panic!("unexpected event {:?}", other),
    }
}

#[test]
fn second_release_finds_nothing_left() {
    let (mut c, depositor, beneficiary, _token) = setup(1000);
    let id = c
        .create_escrow(&env(0, &[&depositor]), depositor.clone(), beneficiary, 1000, condition(0, depositor.clone(), 0), vec![7])
        .unwrap();
    c.release(&env(0, &[&depositor]), id, depositor.clone(), vec![]).unwrap();
    let again = c.release(&env(0, &[&depositor]), id, depositor.clone(), vec![]);
    assert_eq!(again, Err(Fault::Contract(EscrowError::AlreadyFullyReleased)));
    let refund = c.refund(&env(0, &[&depositor]), id, depositor.clone());
    assert_eq!(refund, Err(Fault::Contract(EscrowError::ConditionNotMet)));
    assert_eq!(c.transfers().len(), 2);
}

#[test]
fn refund_before_release_returns_everything() {
    let (mut c, depositor, beneficiary, token) = setup(1000);
    let id = c
        .create_escrow(&env(0, &[&depositor]), depositor.clone(), beneficiary, 1000, condition(0, depositor.clone(), 0), vec![7])
        .unwrap();
    c.refund(&env(5, &[&depositor]), id, depositor.clone()).unwrap();
    let record = c.get_escrow(id).unwrap();
    assert_eq!(record.released_amount, record.amount);
    assert_eq!(record.updated_ledger, 5);
    assert_eq!(c.transfers()[1], TokenTransfer { token, from: contract_addr(), to: depositor.clone(), amount: 1000 });
}

#[test]
fn unknown_condition_kind_never_releases() {
    let (mut c, depositor, beneficiary, _token) = setup(1000);
    let id = c
        .create_escrow(&env(0, &[&depositor]), depositor.clone(), beneficiary, 1000, condition(7, depositor.clone(), 0), vec![7])
        .unwrap();
    let result = c.release(&env(0, &[&depositor]), id, depositor.clone(), vec![1]);
    assert_eq!(result, Err(Fault::Contract(EscrowError::InvalidInput)));
}

#[test]
fn deposit_overflow_aborts() {
    let (mut c, depositor, beneficiary, _token) = setup(1000);
    let id = c
        .create_escrow(&env(0, &[&depositor]), depositor.clone(), beneficiary, i128::MAX, condition(0, depositor.clone(), 0), vec![7])
        .unwrap();
    let result = c.deposit(&env(0, &[&depositor]), id, depositor.clone(), 1);
    assert_eq!(result, Err(Fault::Abort));
    assert_eq!(c.get_escrow(id).unwrap().amount, i128::MAX);
    assert_eq!(c.transfers().len(), 1);
}

#[test]
fn operations_before_initialization_fail() {
    let mut c = EscrowContract::new();
    let depositor = addr(1);
    let result = c.create_escrow(&env(0, &[&depositor]), depositor.clone(), addr(2), 10, condition(0, depositor.clone(), 0), vec![7]);
    assert_eq!(result, Err(Fault::Contract(EscrowError::NotInitialized)));
    assert!(c.transfers().is_empty());
}

#[test]
fn escrow_error_codes() {
    assert_eq!(EscrowError::NotInitialized.code(), 1);
    assert_eq!(EscrowError::Unauthorized.code(), 2);
    assert_eq!(EscrowError::EscrowNotFound.code(), 3);
    assert_eq!(EscrowError::InsufficientBalance.code(), 4);
    assert_eq!(EscrowError::ConditionNotMet.code(), 5);
    assert_eq!(EscrowError::AlreadyFullyReleased.code(), 6);
    assert_eq!(EscrowError::TimeoutNotElapsed.code(), 7);
    assert_eq!(EscrowError::InvalidInput.code(), 8);
}

#[test]
fn deposit_checks_the_amount_before_the_escrow() {
    let (mut c, depositor, _beneficiary, _token) = setup(1000);
    let e = env(0, &[&depositor]);
    assert_eq!(c.deposit(&e, 42, depositor.clone(), 0), Err(Fault::Contract(EscrowError::InvalidInput)));
    assert_eq!(c.deposit(&e, 42, depositor.clone(), 5), Err(Fault::Contract(EscrowError::EscrowNotFound)));
    assert!(c.transfers().is_empty());
}

#[test]
fn second_refund_fails() {
    let (mut c, depositor, beneficiary, _token) = setup(1000);
    let id = c
        .create_escrow(&env(0, &[&depositor]), depositor.clone(), beneficiary, 300, condition(0, depositor.clone(), 0), vec![7])
        .unwrap();
    c.refund(&env(1, &[&depositor]), id, depositor.clone()).unwrap();
    let again = c.refund(&env(2, &[&depositor]), id, depositor.clone());
    assert_eq!(again, Err(Fault::Contract(EscrowError::ConditionNotMet)));
    assert_eq!(c.transfers().len(), 2);
}
