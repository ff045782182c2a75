use vstd::prelude::*;

use crate::common::{Address, Fault};
use crate::escrow::errors::EscrowError;
use crate::escrow::types::{Escrow, EscrowModel};
use crate::table::{listed, IdTable, KeyTable};

verus! {

/// The abstract value of the escrow contract's persistent storage.
pub struct EscrowStorageModel {
    pub admin: Option<Seq<u8>>,
    pub token: Option<Seq<u8>>,
    pub next_id: Option<u64>,
    pub escrows: Map<u64, EscrowModel>,
    pub bookings: Map<Seq<u8>, Seq<u64>>,
}

impl EscrowStorageModel {
    /// The identifier the next escrow gets: the stored counter, or 1.
    pub open spec fn next_id_or_first(self) -> u64 {
        match self.next_id {
            Some(n) => n,
            None => 1,
        }
    }
}

/// The escrow contract's persistent storage.
pub struct EscrowStorage {
    admin: Option<Address>,
    token: Option<Address>,
    next_id: Option<u64>,
    escrows: IdTable<Escrow>,
    bookings: KeyTable<Vec<u64>>,
}

pub open spec fn opt_view(a: Option<Address>) -> Option<Seq<u8>> {
    match a {
        Some(x) => Some(x@),
        None => None,
    }
}

impl View for EscrowStorage {
    type V = EscrowStorageModel;

    closed spec fn view(&self) -> EscrowStorageModel {
        EscrowStorageModel {
            admin: opt_view(self.admin),
            token: opt_view(self.token),
            next_id: self.next_id,
            escrows: self.escrows.view(),
            bookings: self.bookings.view(),
        }
    }
}

impl EscrowStorage {
    pub closed spec fn wf(&self) -> bool {
        self.escrows.wf() && self.bookings.wf()
    }

    /// Empty storage, as a freshly deployed contract has.
    pub fn new() -> (r: EscrowStorage)
        ensures
            r.wf(),
            r@ == (EscrowStorageModel {
                admin: None,
                token: None,
                next_id: None,
                escrows: Map::empty(),
                bookings: Map::empty(),
            }),
    {
        EscrowStorage {
            admin: None,
            token: None,
            next_id: None,
            escrows: IdTable::new(),
            bookings: KeyTable::new(),
        }
    }
}

pub fn set_admin(store: &mut EscrowStorage, admin: &Address)
    requires
        old(store).wf(),
    ensures
        final(store).wf(),
        final(store)@ == (EscrowStorageModel { admin: Some(admin@), ..old(store)@ }),
{
    store.admin = Some(admin.copy());
}

/// The stored admin; the invocation traps when none is stored.
pub fn get_admin(store: &EscrowStorage) -> (r: Result<Address, Fault<EscrowError>>)
    ensures
        match store@.admin {
            Some(a) => (r matches Ok(x) && x@ == a),
            None => r == Err::<Address, _>(Fault::<EscrowError>::Abort),
        },
{
    match &store.admin {
        Some(a) => Ok(a.copy()),
        None => Err(Fault::Abort),
    }
}

pub fn set_token(store: &mut EscrowStorage, token: &Address)
    requires
        old(store).wf(),
    ensures
        final(store).wf(),
        final(store)@ == (EscrowStorageModel { token: Some(token@), ..old(store)@ }),
{
    store.token = Some(token.copy());
}

/// The stored token contract; the invocation traps when none is stored.
pub fn get_token(store: &EscrowStorage) -> (r: Result<Address, Fault<EscrowError>>)
    ensures
        match store@.token {
            Some(a) => (r matches Ok(x) && x@ == a),
            None => r == Err::<Address, _>(Fault::<EscrowError>::Abort),
        },
{
    match &store.token {
        Some(a) => Ok(a.copy()),
        None => Err(Fault::Abort),
    }
}

/// Fails with `NotInitialized` unless an admin is stored.
pub fn require_initialized(store: &EscrowStorage) -> (r: Result<(), Fault<EscrowError>>)
    ensures
        r == (if store@.admin is Some {
            Ok::<(), Fault<EscrowError>>(())
        } else {
            Err(Fault::Contract(EscrowError::NotInitialized))
        }),
{
    if store.admin.is_some() {
        Ok(())
    } else {
        Err(Fault::Contract(EscrowError::NotInitialized))
    }
}

/// The stored counter, or 1 when none is stored.
pub fn get_next_id(store: &EscrowStorage) -> (r: u64)
    ensures
        r == store@.next_id_or_first(),
{
    match store.next_id {
        Some(n) => n,
        None => 1,
    }
}

pub fn set_next_id(store: &mut EscrowStorage, id: u64)
    requires
        old(store).wf(),
    ensures
        final(store).wf(),
        final(store)@ == (EscrowStorageModel { next_id: Some(id), ..old(store)@ }),
{
    store.next_id = Some(id);
}

pub fn set_escrow(store: &mut EscrowStorage, id: u64, record: Escrow)
    requires
        old(store).wf(),
    ensures
        final(store).wf(),
        final(store)@ == (EscrowStorageModel {
            escrows: old(store)@.escrows.insert(id, record@),
            ..old(store)@
        }),
{
    store.escrows.put(id, record);
}

/// The escrow stored under `id`; fails with `EscrowNotFound` when there is
/// none.
pub fn get_escrow(store: &EscrowStorage, id: u64) -> (r: Result<Escrow, Fault<EscrowError>>)
    requires
        store.wf(),
    ensures
        store@.escrows.contains_key(id) ==> (r matches Ok(v) && v@ == store@.escrows[id]),
        !store@.escrows.contains_key(id) ==> r == Err::<Escrow, _>(
            Fault::Contract(EscrowError::EscrowNotFound),
        ),
{
    match store.escrows.get(id) {
        Some(v) => Ok(v.copy()),
        None => Err(Fault::Contract(EscrowError::EscrowNotFound)),
    }
}

pub fn set_booking_escrows(store: &mut EscrowStorage, booking_ref: &Vec<u8>, ids: Vec<u64>)
    requires
        old(store).wf(),
    ensures
        final(store).wf(),
        final(store)@ == (EscrowStorageModel {
            bookings: old(store)@.bookings.insert(booking_ref@, ids@),
            ..old(store)@
        }),
{
    store.bookings.put(booking_ref, ids);
}

/// The identifiers of the escrows created for `booking_ref`, oldest first.
pub fn get_booking_escrows(store: &EscrowStorage, booking_ref: &Vec<u8>) -> (r: Vec<u64>)
    requires
        store.wf(),
    ensures
        r@ == listed(store@.bookings, booking_ref@),
{
    store.bookings.ids(booking_ref)
}

} // verus!
