//! Livestock registry: animals registered by a registrar under counter-issued
//! identifiers, owned by an account, handed over with the consent of both
//! parties, and given a history of events recorded by their owners.
use vstd::prelude::*;

use crate::common::{Address, Env, EnvModel, Fault};

pub mod laws;
pub mod storage;
pub mod types;

pub use types::{
    Animal, AnimalEvent, AnimalEventModel, AnimalModel, AnimalTransferred,
    AnimalTransferredModel, LivestockError, STATUS_ACTIVE,
};

use storage::{LivestockStorage, LivestockStorageModel};

verus! {

/// The abstract value of the livestock contract: its storage and the
/// transfers it has published, oldest first.
pub struct LivestockModel {
    pub storage: LivestockStorageModel,
    pub events: Seq<AnimalTransferredModel>,
}

/// The livestock contract.
pub struct LivestockContract {
    storage: LivestockStorage,
    events: Vec<AnimalTransferred>,
}

pub open spec fn transfer_log(log: Seq<AnimalTransferred>) -> Seq<AnimalTransferredModel> {
    log.map_values(|e: AnimalTransferred| e@)
}

impl View for LivestockContract {
    type V = LivestockModel;

    closed spec fn view(&self) -> LivestockModel {
        LivestockModel { storage: self.storage@, events: transfer_log(self.events@) }
    }
}

/// What every state the contract reaches satisfies: the registrar and the
/// counter are stored together, every stored animal is filed under its own
/// identifier and was registered after initialization, and histories exist
/// only for stored animals.
pub open spec fn storage_consistent(st: LivestockStorageModel) -> bool {
    &&& (st.registrar is Some <==> st.next_id is Some)
    &&& forall|id: u64| #[trigger]
        st.animals.contains_key(id) ==> st.registrar is Some && st.animals[id].id == id
    &&& forall|id: u64| #[trigger] st.histories.contains_key(id) ==> st.animals.contains_key(id)
}

pub type LivestockResult<T> = Result<T, Fault<LivestockError>>;

/// `initialize(registrar)`: stores the registrar and starts the counter at 1
/// (again, if it was already set). It demands no authorization.
pub open spec fn initialize_spec(s: LivestockModel, registrar: Seq<u8>) -> LivestockModel {
    LivestockModel {
        storage: LivestockStorageModel { registrar: Some(registrar), next_id: Some(1), ..s.storage },
        ..s
    }
}

/// `register_animal(registrar, owner)`: the stored registrar, with its
/// authorization, registers an active animal owned by `owner` under the
/// current counter value, and advances the counter.
pub open spec fn register_animal_spec(
    s: LivestockModel,
    env: EnvModel,
    registrar: Seq<u8>,
    owner: Seq<u8>,
) -> LivestockResult<(LivestockModel, u64)> {
    let id = s.storage.next_id_or_first();
    if !env.authorizes(registrar) {
        Err(Fault::MissingAuth)
    } else if s.storage.registrar is None {
        Err(Fault::Contract(LivestockError::NotInitialized))
    } else if s.storage.registrar != Some(registrar) {
        Err(Fault::Contract(LivestockError::Unauthorized))
    } else if id == u64::MAX {
        Err(Fault::Abort)
    } else {
        Ok(
            (
                LivestockModel {
                    storage: LivestockStorageModel {
                        animals: s.storage.animals.insert(
                            id,
                            AnimalModel { id, owner, status: STATUS_ACTIVE },
                        ),
                        next_id: Some((id + 1) as u64),
                        ..s.storage
                    },
                    ..s
                },
                id,
            ),
        )
    }
}

/// `transfer_animal(from, to, animal_id)`: with the authorization of both
/// the current owner and the recipient, hands an active animal to `to`.
pub open spec fn transfer_animal_spec(
    s: LivestockModel,
    env: EnvModel,
    from: Seq<u8>,
    to: Seq<u8>,
    animal_id: u64,
) -> LivestockResult<LivestockModel> {
    if !env.authorizes(from) || !env.authorizes(to) {
        Err(Fault::MissingAuth)
    } else if s.storage.registrar is None {
        Err(Fault::Contract(LivestockError::NotInitialized))
    } else if !s.storage.animals.contains_key(animal_id) {
        Err(Fault::Contract(LivestockError::AnimalNotFound))
    } else if s.storage.animals[animal_id].owner != from {
        Err(Fault::Contract(LivestockError::NotOwner))
    } else if s.storage.animals[animal_id].status != STATUS_ACTIVE {
        Err(Fault::Contract(LivestockError::NotTransferable))
    } else {
        Ok(
            LivestockModel {
                storage: LivestockStorageModel {
                    animals: s.storage.animals.insert(
                        animal_id,
                        AnimalModel { owner: to, ..s.storage.animals[animal_id] },
                    ),
                    ..s.storage
                },
                events: s.events.push(AnimalTransferredModel { animal_id, from, to }),
            },
        )
    }
}

/// `record_event(animal_id, kind, data_hash)`: with the owner's
/// authorization, appends an event of `kind` by the owner to the animal's
/// history. The data hash stays off-chain.
pub open spec fn record_event_spec(
    s: LivestockModel,
    env: EnvModel,
    animal_id: u64,
    kind: u32,
) -> LivestockResult<LivestockModel> {
    if s.storage.registrar is None {
        Err(Fault::Contract(LivestockError::NotInitialized))
    } else if !s.storage.animals.contains_key(animal_id) {
        Err(Fault::Contract(LivestockError::AnimalNotFound))
    } else if !env.authorizes(s.storage.animals[animal_id].owner) {
        Err(Fault::MissingAuth)
    } else {
        let ev = AnimalEventModel { animal_id, kind, actor: s.storage.animals[animal_id].owner };
        Ok(
            LivestockModel {
                storage: LivestockStorageModel {
                    histories: s.storage.histories.insert(
                        animal_id,
                        s.storage.history(animal_id).push(ev),
                    ),
                    ..s.storage
                },
                ..s
            },
        )
    }
}

/// `get_animal(animal_id)`.
pub open spec fn get_animal_spec(s: LivestockModel, animal_id: u64) -> LivestockResult<AnimalModel> {
    if s.storage.animals.contains_key(animal_id) {
        Ok(s.storage.animals[animal_id])
    } else {
        Err(Fault::Contract(LivestockError::AnimalNotFound))
    }
}

/// `get_animal_events(animal_id)`: the animal's history, oldest first.
pub open spec fn get_animal_events_spec(s: LivestockModel, animal_id: u64) -> Seq<AnimalEventModel> {
    s.storage.history(animal_id)
}

impl LivestockContract {
    pub closed spec fn wf(&self) -> bool {
        self.storage.wf() && storage_consistent(self.storage@)
    }

    /// A freshly deployed contract: nothing stored, nothing published.
    pub fn new() -> (r: LivestockContract)
        ensures
            r.wf(),
            r@.storage == (LivestockStorageModel {
                registrar: None,
                next_id: None,
                animals: Map::empty(),
                histories: Map::empty(),
            }),
            r@.events == Seq::<AnimalTransferredModel>::empty(),
    {
        let r = LivestockContract { storage: LivestockStorage::new(), events: Vec::new() };
        assert(transfer_log(r.events@) =~= Seq::<AnimalTransferredModel>::empty());
        r
    }

    /// The contract over the given storage, with nothing published yet.
    pub fn from_storage(storage: LivestockStorage) -> (r: LivestockContract)
        requires
            storage.wf(),
            storage_consistent(storage@),
        ensures
            r.wf(),
            r@.storage == storage@,
            r@.events.len() == 0,
    {
        LivestockContract { storage, events: Vec::new() }
    }

    /// The contract's storage.
    pub fn storage(&self) -> (r: &LivestockStorage)
        requires
            self.wf(),
        ensures
            r.wf(),
            r@ == self@.storage,
    {
        &self.storage
    }

    /// The transfers published so far, oldest first.
    pub fn events(&self) -> (r: &Vec<AnimalTransferred>)
        ensures
            transfer_log(r@) == self@.events,
    {
        &self.events
    }

    pub fn initialize(&mut self, registrar: Address)
        requires
            old(self).wf(),
        ensures
            final(self).wf(),
            final(self)@ == initialize_spec(old(self)@, registrar@),
    {
        storage::set_registrar(&mut self.storage, &registrar);
        storage::set_next_id(&mut self.storage, 1);
    }

    pub fn register_animal(&mut self, env: &Env, registrar: Address, owner: Address) -> (r:
        LivestockResult<u64>)
        requires
            old(self).wf(),
        ensures
            final(self).wf(),
            match register_animal_spec(old(self)@, env@, registrar@, owner@) {
                Ok((s, id)) => r == Ok::<u64, Fault<LivestockError>>(id) && final(self)@ == s,
                Err(e) => r == Err::<u64, _>(e) && final(self)@ == old(self)@,
            },
    {
        if let Err(e) = env.require_auth(&registrar) {
            return Err(e);
        }
        if let Err(e) = storage::require_registrar(&self.storage, &registrar) {
            return Err(e);
        }
        let id = storage::get_next_id(&self.storage);
        if id == u64::MAX {
            return Err(Fault::Abort);
        }
        storage::set_animal(&mut self.storage, id, Animal { id, owner, status: STATUS_ACTIVE });
        storage::set_next_id(&mut self.storage, id + 1);
        Ok(id)
    }

    pub fn transfer_animal(&mut self, env: &Env, from: Address, to: Address, animal_id: u64) -> (r:
        LivestockResult<()>)
        requires
            old(self).wf(),
        ensures
            final(self).wf(),
            match transfer_animal_spec(old(self)@, env@, from@, to@, animal_id) {
                Ok(s) => r is Ok && final(self)@ == s,
                Err(e) => r == Err::<(), _>(e) && final(self)@ == old(self)@,
            },
    {
        if let Err(e) = env.require_auth(&from) {
            return Err(e);
        }
        if let Err(e) = env.require_auth(&to) {
            return Err(e);
        }
        if let Err(e) = storage::get_registrar(&self.storage) {
            return Err(e);
        }
        let mut animal = match storage::get_animal(&self.storage, animal_id) {
            Ok(a) => a,
            Err(e) => return Err(e),
        };
        if !animal.owner.same(&from) {
            return Err(Fault::Contract(LivestockError::NotOwner));
        }
        if animal.status != STATUS_ACTIVE {
            return Err(Fault::Contract(LivestockError::NotTransferable));
        }
        animal.owner = to.copy();
        storage::set_animal(&mut self.storage, animal_id, animal);
        let ghost before = self.events@;
        self.events.push(AnimalTransferred { animal_id, from, to });
        assert(transfer_log(self.events@) =~= transfer_log(before).push(
            AnimalTransferredModel { animal_id, from: from@, to: to@ },
        ));
        Ok(())
    }

    pub fn record_event(&mut self, env: &Env, animal_id: u64, kind: u32, _data_hash: Vec<u8>) -> (r:
        LivestockResult<()>)
        requires
            old(self).wf(),
        ensures
            final(self).wf(),
            match record_event_spec(old(self)@, env@, animal_id, kind) {
                Ok(s) => r is Ok && final(self)@ == s,
                Err(e) => r == Err::<(), _>(e) && final(self)@ == old(self)@,
            },
    {
        if let Err(e) = storage::get_registrar(&self.storage) {
            return Err(e);
        }
        let animal = match storage::get_animal(&self.storage, animal_id) {
            Ok(a) => a,
            Err(e) => return Err(e),
        };
        if let Err(e) = env.require_auth(&animal.owner) {
            return Err(e);
        }
        let mut history = storage::get_history(&self.storage, animal_id);
        let ghost before = history@;
        history.push(AnimalEvent { animal_id, kind, actor: animal.owner });
        assert(history@.map_values(|e: AnimalEvent| e@) =~= before.map_values(|e: AnimalEvent| e@).push(
            AnimalEventModel { animal_id, kind, actor: self.storage@.animals[animal_id].owner },
        ));
        storage::set_history(&mut self.storage, animal_id, history);
        Ok(())
    }

    pub fn get_animal(&self, animal_id: u64) -> (r: LivestockResult<Animal>)
        requires
            self.wf(),
        ensures
            match get_animal_spec(self@, animal_id) {
                Ok(a) => r matches Ok(x) && x@ == a,
                Err(e) => r == Err::<Animal, _>(e),
            },
    {
        storage::get_animal(&self.storage, animal_id)
    }

    pub fn get_animal_events(&self, animal_id: u64) -> (r: Vec<AnimalEvent>)
        requires
            self.wf(),
        ensures
            r@.map_values(|e: AnimalEvent| e@) == get_animal_events_spec(self@, animal_id),
    {
        storage::get_history(&self.storage, animal_id)
    }
}

} // verus!
