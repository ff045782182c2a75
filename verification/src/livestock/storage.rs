use vstd::prelude::*;

use crate::common::{Address, Fault};
use crate::livestock::types::{Animal, AnimalEvent, AnimalEventModel, AnimalHistory, AnimalModel, LivestockError};
use crate::table::IdTable;

verus! {

/// The abstract value of the livestock contract's persistent storage.
pub struct LivestockStorageModel {
    pub registrar: Option<Seq<u8>>,
    pub next_id: Option<u64>,
    pub animals: Map<u64, AnimalModel>,
    pub histories: Map<u64, Seq<AnimalEventModel>>,
}

impl LivestockStorageModel {
    /// The identifier the next animal gets: the stored counter, or 1.
    pub open spec fn next_id_or_first(self) -> u64 {
        match self.next_id {
            Some(n) => n,
            None => 1,
        }
    }

    /// The events recorded for `id`, or none.
    pub open spec fn history(self, id: u64) -> Seq<AnimalEventModel> {
        if self.histories.contains_key(id) {
            self.histories[id]
        } else {
            Seq::empty()
        }
    }
}

/// The livestock contract's persistent storage.
pub struct LivestockStorage {
    registrar: Option<Address>,
    next_id: Option<u64>,
    animals: IdTable<Animal>,
    histories: IdTable<AnimalHistory>,
}

impl View for LivestockStorage {
    type V = LivestockStorageModel;

    closed spec fn view(&self) -> LivestockStorageModel {
        LivestockStorageModel {
            registrar: match self.registrar {
                Some(a) => Some(a@),
                None => None,
            },
            next_id: self.next_id,
            animals: self.animals.view(),
            histories: self.histories.view(),
        }
    }
}

impl LivestockStorage {
    pub closed spec fn wf(&self) -> bool {
        self.animals.wf() && self.histories.wf()
    }

    /// Empty storage, as a freshly deployed contract has.
    pub fn new() -> (r: LivestockStorage)
        ensures
            r.wf(),
            r@ == (LivestockStorageModel {
                registrar: None,
                next_id: None,
                animals: Map::empty(),
                histories: Map::empty(),
            }),
    {
        LivestockStorage {
            registrar: None,
            next_id: None,
            animals: IdTable::new(),
            histories: IdTable::new(),
        }
    }
}

pub fn set_registrar(store: &mut LivestockStorage, registrar: &Address)
    requires
        old(store).wf(),
    ensures
        final(store).wf(),
        final(store)@ == (LivestockStorageModel { registrar: Some(registrar@), ..old(store)@ }),
{
    store.registrar = Some(registrar.copy());
}

/// The stored registrar; fails with `NotInitialized` when none is stored.
pub fn get_registrar(store: &LivestockStorage) -> (r: Result<Address, Fault<LivestockError>>)
    ensures
        match store@.registrar {
            Some(a) => (r matches Ok(x) && x@ == a),
            None => r == Err::<Address, _>(Fault::Contract(LivestockError::NotInitialized)),
        },
{
    match &store.registrar {
        Some(a) => Ok(a.copy()),
        None => Err(Fault::Contract(LivestockError::NotInitialized)),
    }
}

/// Fails with `NotInitialized` unless a registrar is stored, and with
/// `Unauthorized` unless `caller` is that registrar.
pub fn require_registrar(store: &LivestockStorage, caller: &Address) -> (r: Result<
    (),
    Fault<LivestockError>,
>)
    ensures
        r == (match store@.registrar {
            None => Err(Fault::Contract(LivestockError::NotInitialized)),
            Some(a) => if a == caller@ {
                Ok::<(), Fault<LivestockError>>(())
            } else {
                Err(Fault::Contract(LivestockError::Unauthorized))
            },
        }),
{
    match get_registrar(store) {
        Err(e) => Err(e),
        Ok(registrar) => {
            if caller.same(&registrar) {
                Ok(())
            } else {
                Err(Fault::Contract(LivestockError::Unauthorized))
            }
        },
    }
}

/// The stored counter, or 1 when none is stored.
pub fn get_next_id(store: &LivestockStorage) -> (r: u64)
    ensures
        r == store@.next_id_or_first(),
{
    match store.next_id {
        Some(n) => n,
        None => 1,
    }
}

pub fn set_next_id(store: &mut LivestockStorage, id: u64)
    requires
        old(store).wf(),
    ensures
        final(store).wf(),
        final(store)@ == (LivestockStorageModel { next_id: Some(id), ..old(store)@ }),
{
    store.next_id = Some(id);
}

pub fn set_animal(store: &mut LivestockStorage, id: u64, animal: Animal)
    requires
        old(store).wf(),
    ensures
        final(store).wf(),
        final(store)@ == (LivestockStorageModel {
            animals: old(store)@.animals.insert(id, animal@),
            ..old(store)@
        }),
{
    store.animals.put(id, animal);
}

/// The animal stored under `id`; fails with `AnimalNotFound` when there is
/// none.
pub fn get_animal(store: &LivestockStorage, id: u64) -> (r: Result<Animal, Fault<LivestockError>>)
    requires
        store.wf(),
    ensures
        store@.animals.contains_key(id) ==> (r matches Ok(a) && a@ == store@.animals[id]),
        !store@.animals.contains_key(id) ==> r == Err::<Animal, _>(
            Fault::Contract(LivestockError::AnimalNotFound),
        ),
{
    match store.animals.get(id) {
        Some(a) => Ok(a.copy()),
        None => Err(Fault::Contract(LivestockError::AnimalNotFound)),
    }
}

pub fn set_history(store: &mut LivestockStorage, id: u64, events: Vec<AnimalEvent>)
    requires
        old(store).wf(),
    ensures
        final(store).wf(),
        final(store)@ == (LivestockStorageModel {
            histories: old(store)@.histories.insert(id, events@.map_values(|e: AnimalEvent| e@)),
            ..old(store)@
        }),
{
    store.histories.put(id, AnimalHistory { events });
}

/// The events recorded for `id`, oldest first; none when nothing was
/// recorded.
pub fn get_history(store: &LivestockStorage, id: u64) -> (r: Vec<AnimalEvent>)
    requires
        store.wf(),
    ensures
        r@.map_values(|e: AnimalEvent| e@) == store@.history(id),
{
    match store.histories.get(id) {
        Some(h) => h.to_vec(),
        None => {
            let r: Vec<AnimalEvent> = Vec::new();
            assert(r@.map_values(|e: AnimalEvent| e@) =~= Seq::<AnimalEventModel>::empty());
            r
        },
    }
}

} // verus!
