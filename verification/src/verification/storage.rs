use vstd::prelude::*;

use crate::common::{Address, Fault};
use crate::table::{listed, IdTable, KeyTable};
use crate::verification::errors::VerificationError;
use crate::verification::types::{Verification, VerificationModel};

verus! {

/// The abstract value of the verification contract's persistent storage.
pub struct VerificationStorageModel {
    pub admin: Option<Seq<u8>>,
    pub authority: Option<Seq<u8>>,
    pub next_id: Option<u64>,
    pub records: Map<u64, VerificationModel>,
    pub batches: Map<Seq<u8>, Seq<u64>>,
}

impl VerificationStorageModel {
    /// The identifier the next record gets: the stored counter, or 1.
    pub open spec fn next_id_or_first(self) -> u64 {
        match self.next_id {
            Some(n) => n,
            None => 1,
        }
    }
}

/// The verification contract's persistent storage.
pub struct VerificationStorage {
    admin: Option<Address>,
    authority: Option<Address>,
    next_id: Option<u64>,
    records: IdTable<Verification>,
    batches: KeyTable<Vec<u64>>,
}

pub open spec fn opt_view(a: Option<Address>) -> Option<Seq<u8>> {
    match a {
        Some(x) => Some(x@),
        None => None,
    }
}

impl View for VerificationStorage {
    type V = VerificationStorageModel;

    closed spec fn view(&self) -> VerificationStorageModel {
        VerificationStorageModel {
            admin: opt_view(self.admin),
            authority: opt_view(self.authority),
            next_id: self.next_id,
            records: self.records.view(),
            batches: self.batches.view(),
        }
    }
}

impl VerificationStorage {
    pub closed spec fn wf(&self) -> bool {
        self.records.wf() && self.batches.wf()
    }

    /// Empty storage, as a freshly deployed contract has.
    pub fn new() -> (r: VerificationStorage)
        ensures
            r.wf(),
            r@ == (VerificationStorageModel {
                admin: None,
                authority: None,
                next_id: None,
                records: Map::empty(),
                batches: Map::empty(),
            }),
    {
        VerificationStorage {
            admin: None,
            authority: None,
            next_id: None,
            records: IdTable::new(),
            batches: KeyTable::new(),
        }
    }
}

pub fn set_admin(store: &mut VerificationStorage, admin: &Address)
    requires
        old(store).wf(),
    ensures
        final(store).wf(),
        final(store)@ == (VerificationStorageModel { admin: Some(admin@), ..old(store)@ }),
{
    store.admin = Some(admin.copy());
}

/// The stored admin; the invocation traps when none is stored.
pub fn get_admin(store: &VerificationStorage) -> (r: Result<Address, Fault<VerificationError>>)
    ensures
        match store@.admin {
            Some(a) => (r matches Ok(x) && x@ == a),
            None => r == Err::<Address, _>(Fault::<VerificationError>::Abort),
        },
{
    match &store.admin {
        Some(a) => Ok(a.copy()),
        None => Err(Fault::Abort),
    }
}

pub fn set_verification_authority(store: &mut VerificationStorage, authority: &Address)
    requires
        old(store).wf(),
    ensures
        final(store).wf(),
        final(store)@ == (VerificationStorageModel { authority: Some(authority@), ..old(store)@ }),
{
    store.authority = Some(authority.copy());
}

/// The stored verification authority; the invocation traps when none is stored.
pub fn get_verification_authority(store: &VerificationStorage) -> (r: Result<
    Address,
    Fault<VerificationError>,
>)
    ensures
        match store@.authority {
            Some(a) => (r matches Ok(x) && x@ == a),
            None => r == Err::<Address, _>(Fault::<VerificationError>::Abort),
        },
{
    match &store.authority {
        Some(a) => Ok(a.copy()),
        None => Err(Fault::Abort),
    }
}

/// Fails with `NotInitialized` unless an admin is stored.
pub fn require_initialized(store: &VerificationStorage) -> (r: Result<(), Fault<VerificationError>>)
    ensures
        r == (if store@.admin is Some {
            Ok::<(), Fault<VerificationError>>(())
        } else {
            Err(Fault::Contract(VerificationError::NotInitialized))
        }),
{
    if store.admin.is_some() {
        Ok(())
    } else {
        Err(Fault::Contract(VerificationError::NotInitialized))
    }
}

/// Fails with `Unauthorized` unless `caller` is the stored verification
/// authority; traps when none is stored.
pub fn require_authority(store: &VerificationStorage, caller: &Address) -> (r: Result<
    (),
    Fault<VerificationError>,
>)
    ensures
        r == (match store@.authority {
            None => Err(Fault::Abort),
            Some(a) => if a == caller@ {
                Ok::<(), Fault<VerificationError>>(())
            } else {
                Err(Fault::Contract(VerificationError::Unauthorized))
            },
        }),
{
    match get_verification_authority(store) {
        Err(e) => Err(e),
        Ok(authority) => {
            if caller.same(&authority) {
                Ok(())
            } else {
                Err(Fault::Contract(VerificationError::Unauthorized))
            }
        },
    }
}

/// The stored counter, or 1 when none is stored.
pub fn get_next_id(store: &VerificationStorage) -> (r: u64)
    ensures
        r == store@.next_id_or_first(),
{
    match store.next_id {
        Some(n) => n,
        None => 1,
    }
}

pub fn set_next_id(store: &mut VerificationStorage, id: u64)
    requires
        old(store).wf(),
    ensures
        final(store).wf(),
        final(store)@ == (VerificationStorageModel { next_id: Some(id), ..old(store)@ }),
{
    store.next_id = Some(id);
}

pub fn set_verification(store: &mut VerificationStorage, id: u64, record: Verification)
    requires
        old(store).wf(),
    ensures
        final(store).wf(),
        final(store)@ == (VerificationStorageModel {
            records: old(store)@.records.insert(id, record@),
            ..old(store)@
        }),
{
    store.records.put(id, record);
}

/// The record stored under `id`; fails with `VerificationNotFound` when
/// there is none.
pub fn get_verification(store: &VerificationStorage, id: u64) -> (r: Result<
    Verification,
    Fault<VerificationError>,
>)
    requires
        store.wf(),
    ensures
        store@.records.contains_key(id) ==> (r matches Ok(v) && v@ == store@.records[id]),
        !store@.records.contains_key(id) ==> r == Err::<Verification, _>(
            Fault::Contract(VerificationError::VerificationNotFound),
        ),
{
    match store.records.get(id) {
        Some(v) => Ok(v.copy()),
        None => Err(Fault::Contract(VerificationError::VerificationNotFound)),
    }
}

pub fn set_batch_verifications(store: &mut VerificationStorage, batch: &Vec<u8>, ids: Vec<u64>)
    requires
        old(store).wf(),
    ensures
        final(store).wf(),
        final(store)@ == (VerificationStorageModel {
            batches: old(store)@.batches.insert(batch@, ids@),
            ..old(store)@
        }),
{
    store.batches.put(batch, ids);
}

/// The identifiers of the records issued against `batch`, oldest first.
pub fn get_batch_verifications(store: &VerificationStorage, batch: &Vec<u8>) -> (r: Vec<u64>)
    requires
        store.wf(),
    ensures
        r@ == listed(store@.batches, batch@),
{
    store.batches.ids(batch)
}

} // verus!
