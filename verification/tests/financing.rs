use verdant::common::{Address, Env, Fault};
use verdant::financing::{FinancingContract, FinancingError, FinancingEvent, Milestone};

fn addr(n: u8) -> Address {
    Address::from_bytes(vec![b'G', n, n, n])
}

fn env(sequence: u32, who: &[&Address]) -> Env {
    Env::new(sequence, Address::from_bytes(vec![b'C', 0, 0, 4]), who.iter().map(|a| (*a).clone()).collect())
}

struct Parties {
    admin: Address,
    authority: Address,
    funder: Address,
    beneficiary: Address,
}

impl Parties {
    /// An invocation at `sequence` carrying every party's authorization.
    fn all(&self, sequence: u32) -> Env {
        env(sequence, &[&self.admin, &self.authority, &self.funder, &self.beneficiary])
    }
}

fn setup() -> (FinancingContract, Parties) {
    let p = Parties { admin: addr(200), authority: addr(201), funder: addr(1), beneficiary: addr(2) };
    let mut c = FinancingContract::new();
    c.initialize(&p.all(0), p.admin.clone(), p.authority.clone()).unwrap();
    (c, p)
}

fn milestone(deadline: u32, proof_amount: i128) -> Milestone {
    Milestone { index: 1, deadline_ledger: deadline, proof_hash: vec![1u8; 32], proof_amount }
}

fn create_financing(c: &mut FinancingContract, p: &Parties, deadline: u32) -> u64 {
    let milestones = vec![milestone(deadline, 600)];
    c.create_financing(&p.all(0), p.funder.clone(), p.beneficiary.clone(), 1000i128, 1u32, milestones)
        .unwrap()
}

#[test]
fn test_create_financing() {
    let (mut c, p) = setup();
    let seq = 0u32;

    let id = create_financing(&mut c, &p, seq + 1000);

    let record = c.get_financing(id).unwrap();
    assert_eq!(record.id, 1);
    assert_eq!(record.funder, p.funder);
    assert_eq!(record.beneficiary, p.beneficiary);
    assert_eq!(record.total_amount, 1000);
    assert_eq!(record.drawn_amount, 0);
    assert_eq!(record.milestone_count, 1);
    assert_eq!(record.milestones.len(), 1);
    assert!(!record.defaulted);
    assert_eq!(record.defaulted_ledger, None);
}

#[test]
fn test_create_financing_rejects_zero_total() {
    let (mut c, p) = setup();
    let seq = 0u32;
    let milestones = vec![Milestone {
        index: 1,
        deadline_ledger: seq + 1000,
        proof_hash: vec![1u8; 32],
        proof_amount: 0,
    }];

    let result = c.create_financing(&p.all(0), p.funder.clone(), p.beneficiary.clone(), 0i128, 1u32, milestones);
    assert!(result.is_err());
    assert_eq!(result, Err(Fault::Contract(FinancingError::InvalidInput)));
}

#[test]
fn test_create_financing_rejects_empty_milestones() {
    let (mut c, p) = setup();
    let milestones: Vec<Milestone> = Vec::new();

    let result = c.create_financing(&p.all(0), p.funder.clone(), p.beneficiary.clone(), 1000i128, 0u32, milestones);
    assert!(result.is_err());
    assert_eq!(result, Err(Fault::Contract(FinancingError::InvalidInput)));
}

#[test]
fn test_deposit_increases_drawn_amount() {
    let (mut c, p) = setup();
    let id = create_financing(&mut c, &p, 1000);

    c.deposit(&p.all(0), id, p.funder.clone(), 400).unwrap();

    let record = c.get_financing(id).unwrap();
    assert_eq!(record.drawn_amount, 400);
}

#[test]
fn test_deposit_rejects_exceeding_total() {
    let (mut c, p) = setup();
    let id = create_financing(&mut c, &p, 1000);

    let result = c.deposit(&p.all(0), id, p.funder.clone(), 1001);
    assert!(result.is_err());
    assert_eq!(result, Err(Fault::Contract(FinancingError::InvalidInput)));
}

#[test]
fn test_deposit_rejects_nonpositive() {
    let (mut c, p) = setup();
    let id = create_financing(&mut c, &p, 1000);

    let result = c.deposit(&p.all(0), id, p.funder.clone(), 0);
    assert!(result.is_err());
}

#[test]
fn test_release_on_milestone_releases_positive_amount() {
    let (mut c, p) = setup();
    let id = create_financing(&mut c, &p, 1000);

    c.release_on_milestone(&p.all(0), id, vec![1u8; 32], 0u32).unwrap();

    let record = c.get_financing(id).unwrap();
    assert_eq!(record.drawn_amount, 600);
}

#[test]
fn test_release_on_milestone_refunds_negative_amount() {
    let (mut c, p) = setup();
    let seq = 0u32;
    let milestones = vec![Milestone {
        index: 1,
        deadline_ledger: seq + 1000,
        proof_hash: vec![1u8; 32],
        proof_amount: -600,
    }];
    let id = c
        .create_financing(&p.all(0), p.funder.clone(), p.beneficiary.clone(), 1000i128, 1u32, milestones)
        .unwrap();

    c.release_on_milestone(&p.all(0), id, vec![1u8; 32], 0u32).unwrap();

    let record = c.get_financing(id).unwrap();
    assert_eq!(record.drawn_amount, 600);
}

#[test]
fn test_release_on_milestone_rejects_deadline_exceeded() {
    let (mut c, p) = setup();
    let seq = 0u32;
    let id = create_financing(&mut c, &p, seq + 10);

    let result = c.release_on_milestone(&p.all(seq + 100), id, vec![1u8; 32], 0u32);
    assert!(result.is_err());
    assert_eq!(result, Err(Fault::Contract(FinancingError::MilestoneDeadlineExceeded)));
}

#[test]
fn test_release_on_milestone_rejects_empty_proof() {
    let (mut c, p) = setup();
    let id = create_financing(&mut c, &p, 1000);

    let result = c.release_on_milestone(&p.all(0), id, vec![], 0u32);
    assert!(result.is_err());
    assert_eq!(result, Err(Fault::Contract(FinancingError::InvalidInput)));
}

#[test]
fn test_release_on_milestone_rejects_bad_index() {
    let (mut c, p) = setup();
    let id = create_financing(&mut c, &p, 1000);

    let result = c.release_on_milestone(&p.all(0), id, vec![1u8; 32], 5u32);
    assert!(result.is_err());
    assert_eq!(result, Err(Fault::Contract(FinancingError::InvalidInput)));
}

#[test]
fn test_refund_refunds_undrawn_amount() {
    let (mut c, p) = setup();
    let id = create_financing(&mut c, &p, 1000);

    c.refund(&p.all(0), id, p.funder.clone()).unwrap();

    let record = c.get_financing(id).unwrap();
    assert_eq!(record.repaid_amount, 1000);
}

#[test]
fn test_refund_marks_default_on_deadline_missed() {
    let (mut c, p) = setup();
    let seq = 0u32;
    let id = create_financing(&mut c, &p, seq + 10);

    c.refund(&p.all(seq + 100), id, p.funder.clone()).unwrap();

    let record = c.get_financing(id).unwrap();
    assert!(record.defaulted);
    assert_eq!(record.defaulted_ledger, Some(seq + 100));
}

#[test]
fn test_get_financings_by_funder() {
    let (mut c, p) = setup();
    create_financing(&mut c, &p, 1000);
    create_financing(&mut c, &p, 1000);

    let financings = c.get_financings_by_funder(&p.funder);
    assert_eq!(financings.len(), 2);
    assert_eq!(financings[0], 1);
    assert_eq!(financings[1], 2);
}

#[test]
#[should_panic]
fn test_get_financing_not_found() {
    let (c, _p) = setup();
    c.get_financing(999).unwrap();
}

// Further cases: error codes, events, overflow and edge inputs.

#[test]
fn release_returns_what_it_draws() {
    let (mut c, p) = setup();
    let milestones = vec![milestone(1000, 600), milestone(1000, 600), milestone(1000, -300)];
    let id = c
        .create_financing(&p.all(0), p.funder.clone(), p.beneficiary.clone(), 1000, 3, milestones)
        .unwrap();
    assert_eq!(c.release_on_milestone(&p.all(1), id, vec![1], 0), Ok(600));
    // Only 400 remain, so the second milestone draws nothing.
    assert_eq!(c.release_on_milestone(&p.all(2), id, vec![1], 1), Ok(0));
    assert_eq!(c.release_on_milestone(&p.all(3), id, vec![1], 2), Ok(300));
    let record = c.get_financing(id).unwrap();
    assert_eq!(record.drawn_amount, 900);
    assert_eq!(record.drawn_ledger, 3);
    match &c.events()[4] {
        FinancingEvent::FinancingReleased(e) => {
            assert_eq!(e.released_amount, 300);
            assert_eq!(e.releaser, p.authority);
        },
        other => panic!("unexpected event {:?}", other),
    }
}

#[test]
fn most_negative_milestone_amount_aborts() {
    let (mut c, p) = setup();
    let id = c
        .create_financing(&p.all(0), p.funder.clone(), p.beneficiary.clone(), 1000, 1, vec![milestone(1000, i128::MIN)])
        .unwrap();
    assert_eq!(c.release_on_milestone(&p.all(0), id, vec![1], 0), Err(Fault::Abort));
    assert_eq!(c.get_financing(id).unwrap().drawn_amount, 0);
}

#[test]
fn refund_after_full_drawdown_is_rejected() {
    let (mut c, p) = setup();
    let id = create_financing(&mut c, &p, 1000);
    c.deposit(&p.all(0), id, p.funder.clone(), 1000).unwrap();
    assert_eq!(c.refund(&p.all(0), id, p.funder.clone()), Err(Fault::Contract(FinancingError::InvalidInput)));
}

#[test]
fn default_flag_stays_after_later_refund() {
    let (mut c, p) = setup();
    let milestones = vec![milestone(10, 100), milestone(1000, 100)];
    let id = c
        .create_financing(&p.all(0), p.funder.clone(), p.beneficiary.clone(), 1000, 2, milestones)
        .unwrap();
    c.refund(&p.all(50), id, p.funder.clone()).unwrap();
    c.refund(&p.all(60), id, p.funder.clone()).unwrap();
    let record = c.get_financing(id).unwrap();
    assert!(record.defaulted);
    assert_eq!(record.defaulted_ledger, Some(60));
    assert_eq!(record.repaid_amount, 2000);
}

#[test]
fn refund_without_missed_deadline_is_no_default() {
    let (mut c, p) = setup();
    let id = create_financing(&mut c, &p, 1000);
    c.refund(&p.all(10), id, p.funder.clone()).unwrap();
    match &c.events()[2] {
        FinancingEvent::FinancingRefunded(e) => {
            assert_eq!(e.refunded_amount, 1000);
            assert!(!e.defaulted);
            assert_eq!(e.defaulted_ledger, 0);
        },
        other => panic!("unexpected event {:?}", other),
    }
}

#[test]
fn calls_without_authority_fail() {
    let (mut c, p) = setup();
    let id = create_financing(&mut c, &p, 1000);
    let only_funder = env(0, &[&p.funder]);
    assert_eq!(c.deposit(&only_funder, id, p.funder.clone(), 10), Err(Fault::MissingAuth));
    assert_eq!(c.refund(&only_funder, id, p.funder.clone()), Err(Fault::MissingAuth));
}

#[test]
fn operations_before_initialization_abort() {
    let mut c = FinancingContract::new();
    let f = addr(1);
    let result = c.create_financing(&env(0, &[&f]), f.clone(), addr(2), 10, 1, vec![milestone(5, 1)]);
    assert_eq!(result, Err(Fault::Abort));
}

#[test]
fn financing_error_codes() {
    assert_eq!(FinancingError::NotInitialized.code(), 1);
    assert_eq!(FinancingError::Unauthorized.code(), 2);
    assert_eq!(FinancingError::FinancingNotFound.code(), 3);
    assert_eq!(FinancingError::InvalidInput.code(), 4);
    assert_eq!(FinancingError::MilestoneDeadlineExceeded.code(), 5);
}
