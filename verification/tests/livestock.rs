use verdant::common::{Address, Env, Fault};
use verdant::livestock::{Animal, AnimalEvent, LivestockContract, LivestockError, STATUS_ACTIVE};

fn addr(n: u8) -> Address {
    Address::from_bytes(vec![b'G', n, n, n])
}

fn env(sequence: u32, who: &[&Address]) -> Env {
    Env::new(sequence, Address::from_bytes(vec![b'C', 0, 0, 4]), who.iter().map(|a| (*a).clone()).collect())
}

fn setup() -> (LivestockContract, Address) {
    let registrar = addr(1);
    let mut c = LivestockContract::new();
    c.initialize(registrar.clone());
    (c, registrar)
}

#[test]
fn initialize_needs_no_signature() {
    let mut c = LivestockContract::new();
    assert_eq!(c.register_animal(&env(0, &[&addr(1)]), addr(1), addr(2)), Err(Fault::Contract(LivestockError::NotInitialized)));
    c.initialize(addr(1));
    assert_eq!(c.register_animal(&env(0, &[&addr(1)]), addr(1), addr(2)), Ok(1));
}

#[test]
fn registrations_get_counter_ids() {
    let (mut c, registrar) = setup();
    let e = env(5, &[&registrar]);
    let id1 = c.register_animal(&e, registrar.clone(), addr(2)).unwrap();
    let id2 = c.register_animal(&e, registrar.clone(), addr(3)).unwrap();
    assert_eq!(id1, 1);
    assert_eq!(id2, 2);
    assert_eq!(c.get_animal(id1).unwrap(), Animal { id: 1, owner: addr(2), status: STATUS_ACTIVE });
    assert_eq!(c.get_animal(id2).unwrap(), Animal { id: 2, owner: addr(3), status: STATUS_ACTIVE });
    assert_eq!(c.get_animal(3), Err(Fault::Contract(LivestockError::AnimalNotFound)));
}

#[test]
fn registration_needs_the_registrar() {
    let (mut c, registrar) = setup();
    assert_eq!(c.register_animal(&env(0, &[]), registrar.clone(), addr(2)), Err(Fault::MissingAuth));
    let other = addr(9);
    assert_eq!(
        c.register_animal(&env(0, &[&other]), other.clone(), addr(2)),
        Err(Fault::Contract(LivestockError::Unauthorized))
    );
    assert_eq!(c.get_animal(1), Err(Fault::Contract(LivestockError::AnimalNotFound)));
}

#[test]
fn transfer_needs_owner_and_recipient() {
    let (mut c, registrar) = setup();
    let (owner, buyer) = (addr(2), addr(3));
    let id = c.register_animal(&env(0, &[&registrar]), registrar.clone(), owner.clone()).unwrap();
    assert_eq!(c.transfer_animal(&env(0, &[&owner]), owner.clone(), buyer.clone(), id), Err(Fault::MissingAuth));
    assert_eq!(c.transfer_animal(&env(0, &[&buyer]), owner.clone(), buyer.clone(), id), Err(Fault::MissingAuth));
    assert_eq!(
        c.transfer_animal(&env(0, &[&buyer, &addr(4)]), addr(4), buyer.clone(), id),
        Err(Fault::Contract(LivestockError::NotOwner))
    );
    assert_eq!(
        c.transfer_animal(&env(0, &[&owner, &buyer]), owner.clone(), buyer.clone(), 42),
        Err(Fault::Contract(LivestockError::AnimalNotFound))
    );
    assert!(c.events().is_empty());
    c.transfer_animal(&env(0, &[&owner, &buyer]), owner.clone(), buyer.clone(), id).unwrap();
    assert_eq!(c.get_animal(id).unwrap().owner, buyer);
    assert_eq!(c.events().len(), 1);
    assert_eq!(c.events()[0].from, owner);
    assert_eq!(c.events()[0].to, buyer);
    assert_eq!(
        c.transfer_animal(&env(0, &[&owner, &buyer]), owner.clone(), buyer.clone(), id),
        Err(Fault::Contract(LivestockError::NotOwner))
    );
}

#[test]
fn events_are_recorded_by_the_owner() {
    let (mut c, registrar) = setup();
    let owner = addr(2);
    let id = c.register_animal(&env(0, &[&registrar]), registrar.clone(), owner.clone()).unwrap();
    assert!(c.get_animal_events(id).is_empty());
    assert_eq!(c.record_event(&env(0, &[&registrar]), id, 7, vec![1]), Err(Fault::MissingAuth));
    assert_eq!(
        c.record_event(&env(0, &[&owner]), 99, 7, vec![1]),
        Err(Fault::Contract(LivestockError::AnimalNotFound))
    );
    c.record_event(&env(0, &[&owner]), id, 7, vec![1]).unwrap();
    c.record_event(&env(0, &[&owner]), id, 8, vec![2]).unwrap();
    assert_eq!(
        c.get_animal_events(id),
        vec![
            AnimalEvent { animal_id: id, kind: 7, actor: owner.clone() },
            AnimalEvent { animal_id: id, kind: 8, actor: owner.clone() },
        ]
    );
}

#[test]
fn livestock_error_codes() {
    assert_eq!(LivestockError::NotInitialized.code(), 1);
    assert_eq!(LivestockError::Unauthorized.code(), 2);
    assert_eq!(LivestockError::AnimalNotFound.code(), 3);
    assert_eq!(LivestockError::NotOwner.code(), 4);
    assert_eq!(LivestockError::NotTransferable.code(), 5);
}
