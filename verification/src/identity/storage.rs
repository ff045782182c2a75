use vstd::prelude::*;

use crate::common::{Address, Fault};
use crate::identity::errors::IdentityError;
use crate::identity::types::{Farmer, FarmerModel};
use crate::table::KeyTable;

verus! {

/// The abstract value of the identity contract's persistent storage.
pub struct IdentityStorageModel {
    pub admin: Option<Seq<u8>>,
    pub farmers: Map<Seq<u8>, FarmerModel>,
}

/// The identity contract's persistent storage: the admin, once set, and one
/// record per registered farmer address.
pub struct IdentityStorage {
    admin: Option<Address>,
    farmers: KeyTable<Farmer>,
}

impl View for IdentityStorage {
    type V = IdentityStorageModel;

    closed spec fn view(&self) -> IdentityStorageModel {
        IdentityStorageModel {
            admin: match self.admin {
                Some(a) => Some(a@),
                None => None,
            },
            farmers: self.farmers.view(),
        }
    }
}

impl IdentityStorage {
    pub closed spec fn wf(&self) -> bool {
        self.farmers.wf()
    }

    /// Empty storage, as a freshly deployed contract has.
    pub fn new() -> (r: IdentityStorage)
        ensures
            r.wf(),
            r@ == (IdentityStorageModel { admin: None, farmers: Map::empty() }),
    {
        IdentityStorage { admin: None, farmers: KeyTable::new() }
    }
}

pub fn set_admin(store: &mut IdentityStorage, admin: &Address)
    requires
        old(store).wf(),
    ensures
        final(store).wf(),
        final(store)@ == (IdentityStorageModel { admin: Some(admin@), ..old(store)@ }),
{
    store.admin = Some(admin.copy());
}

/// The stored admin; the invocation traps when none is stored.
pub fn get_admin(store: &IdentityStorage) -> (r: Result<Address, Fault<IdentityError>>)
    ensures
        match store@.admin {
            Some(a) => r matches Ok(x) && x@ == a,
            None => r == Err::<Address, _>(Fault::<IdentityError>::Abort),
        },
{
    match &store.admin {
        Some(a) => Ok(a.copy()),
        None => Err(Fault::Abort),
    }
}

/// Fails with `NotInitialized` unless an admin is stored.
pub fn require_initialized(store: &IdentityStorage) -> (r: Result<(), Fault<IdentityError>>)
    ensures
        r == (if store@.admin is Some {
            Ok::<(), Fault<IdentityError>>(())
        } else {
            Err(Fault::Contract(IdentityError::NotInitialized))
        }),
{
    if store.admin.is_some() {
        Ok(())
    } else {
        Err(Fault::Contract(IdentityError::NotInitialized))
    }
}

/// Fails with `Unauthorized` unless `caller` is the stored admin; traps
/// when no admin is stored.
pub fn require_admin(store: &IdentityStorage, caller: &Address) -> (r: Result<
    (),
    Fault<IdentityError>,
>)
    ensures
        r == (match store@.admin {
            None => Err(Fault::Abort),
            Some(a) => if a == caller@ {
                Ok::<(), Fault<IdentityError>>(())
            } else {
                Err(Fault::Contract(IdentityError::Unauthorized))
            },
        }),
{
    match get_admin(store) {
        Err(e) => Err(e),
        Ok(admin) => {
            if caller.same(&admin) {
                Ok(())
            } else {
                Err(Fault::Contract(IdentityError::Unauthorized))
            }
        },
    }
}

pub fn has_farmer(store: &IdentityStorage, farmer: &Address) -> (r: bool)
    requires
        store.wf(),
    ensures
        r == store@.farmers.contains_key(farmer@),
{
    store.farmers.contains(&farmer.raw)
}

pub fn set_farmer(store: &mut IdentityStorage, farmer: &Address, record: Farmer)
    requires
        old(store).wf(),
    ensures
        final(store).wf(),
        final(store)@ == (IdentityStorageModel {
            farmers: old(store)@.farmers.insert(farmer@, record@),
            ..old(store)@
        }),
{
    store.farmers.put(&farmer.raw, record);
}

/// The record of `farmer`; fails with `FarmerNotFound` when there is none.
pub fn require_farmer(store: &IdentityStorage, farmer: &Address) -> (r: Result<
    Farmer,
    Fault<IdentityError>,
>)
    requires
        store.wf(),
    ensures
        store@.farmers.contains_key(farmer@) ==> (r matches Ok(f) && f@ == store@.farmers[farmer@]),
        !store@.farmers.contains_key(farmer@) ==> r == Err::<Farmer, _>(
            Fault::Contract(IdentityError::FarmerNotFound),
        ),
{
    match store.farmers.get(&farmer.raw) {
        Some(f) => Ok(f.copy()),
        None => Err(Fault::Contract(IdentityError::FarmerNotFound)),
    }
}

} // verus!
