use vstd::prelude::*;

use crate::common::{Address, Fault};
use crate::financing::errors::FinancingError;
use crate::financing::types::{Financing, FinancingModel};
use crate::table::{listed, IdTable, KeyTable};

verus! {

/// The abstract value of the financing contract's persistent storage.
pub struct FinancingStorageModel {
    pub admin: Option<Seq<u8>>,
    pub authority: Option<Seq<u8>>,
    pub next_id: Option<u64>,
    pub financings: Map<u64, FinancingModel>,
    pub funders: Map<Seq<u8>, Seq<u64>>,
}

impl FinancingStorageModel {
    /// The identifier the next financing gets: the stored counter, or 1.
    pub open spec fn next_id_or_first(self) -> u64 {
        match self.next_id {
            Some(n) => n,
            None => 1,
        }
    }
}

/// The financing contract's persistent storage.
pub struct FinancingStorage {
    admin: Option<Address>,
    authority: Option<Address>,
    next_id: Option<u64>,
    financings: IdTable<Financing>,
    funders: KeyTable<Vec<u64>>,
}

pub open spec fn opt_view(a: Option<Address>) -> Option<Seq<u8>> {
    match a {
        Some(x) => Some(x@),
        None => None,
    }
}

impl View for FinancingStorage {
    type V = FinancingStorageModel;

    closed spec fn view(&self) -> FinancingStorageModel {
        FinancingStorageModel {
            admin: opt_view(self.admin),
            authority: opt_view(self.authority),
            next_id: self.next_id,
            financings: self.financings.view(),
            funders: self.funders.view(),
        }
    }
}

impl FinancingStorage {
    pub closed spec fn wf(&self) -> bool {
        self.financings.wf() && self.funders.wf()
    }

    /// Empty storage, as a freshly deployed contract has.
    pub fn new() -> (r: FinancingStorage)
        ensures
            r.wf(),
            r@ == (FinancingStorageModel {
                admin: None,
                authority: None,
                next_id: None,
                financings: Map::empty(),
                funders: Map::empty(),
            }),
    {
        FinancingStorage {
            admin: None,
            authority: None,
            next_id: None,
            financings: IdTable::new(),
            funders: KeyTable::new(),
        }
    }
}

pub fn set_admin(store: &mut FinancingStorage, admin: &Address)
    requires
        old(store).wf(),
    ensures
        final(store).wf(),
        final(store)@ == (FinancingStorageModel { admin: Some(admin@), ..old(store)@ }),
{
    store.admin = Some(admin.copy());
}

/// The stored admin; the invocation traps when none is stored.
pub fn get_admin(store: &FinancingStorage) -> (r: Result<Address, Fault<FinancingError>>)
    ensures
        match store@.admin {
            Some(a) => (r matches Ok(x) && x@ == a),
            None => r == Err::<Address, _>(Fault::<FinancingError>::Abort),
        },
{
    match &store.admin {
        Some(a) => Ok(a.copy()),
        None => Err(Fault::Abort),
    }
}

pub fn set_financing_authority(store: &mut FinancingStorage, authority: &Address)
    requires
        old(store).wf(),
    ensures
        final(store).wf(),
        final(store)@ == (FinancingStorageModel { authority: Some(authority@), ..old(store)@ }),
{
    store.authority = Some(authority.copy());
}

/// The stored financing authority; the invocation traps when none is stored.
pub fn get_financing_authority(store: &FinancingStorage) -> (r: Result<
    Address,
    Fault<FinancingError>,
>)
    ensures
        match store@.authority {
            Some(a) => (r matches Ok(x) && x@ == a),
            None => r == Err::<Address, _>(Fault::<FinancingError>::Abort),
        },
{
    match &store.authority {
        Some(a) => Ok(a.copy()),
        None => Err(Fault::Abort),
    }
}

pub fn set_next_id(store: &mut FinancingStorage, id: u64)
    requires
        old(store).wf(),
    ensures
        final(store).wf(),
        final(store)@ == (FinancingStorageModel { next_id: Some(id), ..old(store)@ }),
{
    store.next_id = Some(id);
}

/// The stored counter, or 1 when none is stored.
pub fn next_id(store: &FinancingStorage) -> (r: u64)
    ensures
        r == store@.next_id_or_first(),
{
    match store.next_id {
        Some(n) => n,
        None => 1,
    }
}

pub fn set_financing(store: &mut FinancingStorage, id: u64, financing: Financing)
    requires
        old(store).wf(),
    ensures
        final(store).wf(),
        final(store)@ == (FinancingStorageModel {
            financings: old(store)@.financings.insert(id, financing@),
            ..old(store)@
        }),
{
    store.financings.put(id, financing);
}

/// The financing stored under `id`; fails with `FinancingNotFound` when
/// there is none.
pub fn get_financing(store: &FinancingStorage, id: u64) -> (r: Result<
    Financing,
    Fault<FinancingError>,
>)
    requires
        store.wf(),
    ensures
        store@.financings.contains_key(id) ==> (r matches Ok(v) && v@ == store@.financings[id]),
        !store@.financings.contains_key(id) ==> r == Err::<Financing, _>(
            Fault::Contract(FinancingError::FinancingNotFound),
        ),
{
    match store.financings.get(id) {
        Some(v) => Ok(v.copy()),
        None => Err(Fault::Contract(FinancingError::FinancingNotFound)),
    }
}

pub fn set_funder_financings(store: &mut FinancingStorage, funder: &Address, ids: Vec<u64>)
    requires
        old(store).wf(),
    ensures
        final(store).wf(),
        final(store)@ == (FinancingStorageModel {
            funders: old(store)@.funders.insert(funder@, ids@),
            ..old(store)@
        }),
{
    store.funders.put(&funder.raw, ids);
}

/// The identifiers of the financings created by `funder`, oldest first.
pub fn get_funder_financings(store: &FinancingStorage, funder: &Address) -> (r: Vec<u64>)
    requires
        store.wf(),
    ensures
        r@ == listed(store@.funders, funder@),
{
    store.funders.ids(&funder.raw)
}

} // verus!
