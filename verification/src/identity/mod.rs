//! Farmer identity: registration, metadata hashes and verification markers.
use vstd::prelude::*;

use crate::common::{Address, Env, EnvModel, Fault};

pub mod errors;
pub mod events;
pub mod laws;
pub mod storage;
pub mod types;

pub use errors::IdentityError;
pub use events::{
    FarmerMetadataUpdated, FarmerRegistered, IdentityEvent, IdentityEventModel, Initialized,
    VerificationMarkerSet,
};
pub use types::{Farmer, FarmerModel, MarkerModel, VerificationMarker};

use events::event_log;
use storage::{IdentityStorage, IdentityStorageModel};

verus! {

/// The abstract value of the identity contract: its storage and the events it
/// has published, oldest first.
pub struct IdentityModel {
    pub storage: IdentityStorageModel,
    pub events: Seq<IdentityEventModel>,
}

/// The farmer identity contract.
pub struct IdentityContract {
    storage: IdentityStorage,
    events: Vec<IdentityEvent>,
}

impl View for IdentityContract {
    type V = IdentityModel;

    closed spec fn view(&self) -> IdentityModel {
        IdentityModel { storage: self.storage@, events: event_log(self.events@) }
    }
}

pub type IdentityResult<T> = Result<T, Fault<IdentityError>>;

/// `initialize(admin)`: demands the admin's authorization and stores it as
/// the admin (again, if it was already set).
pub open spec fn initialize_spec(s: IdentityModel, env: EnvModel, admin: Seq<u8>) -> IdentityResult<
    IdentityModel,
> {
    if !env.authorizes(admin) {
        Err(Fault::MissingAuth)
    } else {
        Ok(
            IdentityModel {
                storage: IdentityStorageModel { admin: Some(admin), ..s.storage },
                events: s.events.push(IdentityEventModel::Initialized { admin }),
            },
        )
    }
}

/// The record a farmer gets on registration.
pub open spec fn new_farmer(farmer: Seq<u8>, metadata_hash: Seq<u8>, ledger: u32) -> FarmerModel {
    FarmerModel {
        address: farmer,
        metadata_hash,
        verification_markers: Seq::empty(),
        created_ledger: ledger,
        updated_ledger: ledger,
    }
}

/// `register_farmer(farmer, metadata_hash)`.
pub open spec fn register_farmer_spec(
    s: IdentityModel,
    env: EnvModel,
    farmer: Seq<u8>,
    metadata_hash: Seq<u8>,
) -> IdentityResult<(IdentityModel, FarmerModel)> {
    if !env.authorizes(farmer) {
        Err(Fault::MissingAuth)
    } else if s.storage.admin is None {
        Err(Fault::Contract(IdentityError::NotInitialized))
    } else if s.storage.farmers.contains_key(farmer) {
        Err(Fault::Contract(IdentityError::AlreadyRegistered))
    } else {
        let rec = new_farmer(farmer, metadata_hash, env.sequence);
        Ok(
            (
                IdentityModel {
                    storage: IdentityStorageModel {
                        farmers: s.storage.farmers.insert(farmer, rec),
                        ..s.storage
                    },
                    events: s.events.push(
                        IdentityEventModel::FarmerRegistered { farmer, record: rec },
                    ),
                },
                rec,
            ),
        )
    }
}

/// `update_metadata(farmer, metadata_hash)`.
pub open spec fn update_metadata_spec(
    s: IdentityModel,
    env: EnvModel,
    farmer: Seq<u8>,
    metadata_hash: Seq<u8>,
) -> IdentityResult<(IdentityModel, FarmerModel)> {
    if !env.authorizes(farmer) {
        Err(Fault::MissingAuth)
    } else if s.storage.admin is None {
        Err(Fault::Contract(IdentityError::NotInitialized))
    } else if !s.storage.farmers.contains_key(farmer) {
        Err(Fault::Contract(IdentityError::FarmerNotFound))
    } else {
        let rec = FarmerModel {
            metadata_hash,
            updated_ledger: env.sequence,
            ..s.storage.farmers[farmer]
        };
        Ok(
            (
                IdentityModel {
                    storage: IdentityStorageModel {
                        farmers: s.storage.farmers.insert(farmer, rec),
                        ..s.storage
                    },
                    events: s.events.push(
                        IdentityEventModel::FarmerMetadataUpdated { farmer, record: rec },
                    ),
                },
                rec,
            ),
        )
    }
}

/// `set_verification_marker(admin, farmer, marker)`.
pub open spec fn set_verification_marker_spec(
    s: IdentityModel,
    env: EnvModel,
    admin: Seq<u8>,
    farmer: Seq<u8>,
    marker: MarkerModel,
) -> IdentityResult<IdentityModel> {
    if !env.authorizes(admin) {
        Err(Fault::MissingAuth)
    } else if s.storage.admin is None {
        Err(Fault::Abort)
    } else if s.storage.admin != Some(admin) {
        Err(Fault::Contract(IdentityError::Unauthorized))
    } else if !s.storage.farmers.contains_key(farmer) {
        Err(Fault::Contract(IdentityError::FarmerNotFound))
    } else {
        let old_rec = s.storage.farmers[farmer];
        let rec = FarmerModel {
            verification_markers: old_rec.verification_markers.push(marker),
            updated_ledger: env.sequence,
            ..old_rec
        };
        Ok(
            IdentityModel {
                storage: IdentityStorageModel {
                    farmers: s.storage.farmers.insert(farmer, rec),
                    ..s.storage
                },
                events: s.events.push(
                    IdentityEventModel::VerificationMarkerSet { farmer, marker },
                ),
            },
        )
    }
}

/// `get_farmer(farmer)`.
pub open spec fn get_farmer_spec(s: IdentityModel, farmer: Seq<u8>) -> IdentityResult<FarmerModel> {
    if s.storage.farmers.contains_key(farmer) {
        Ok(s.storage.farmers[farmer])
    } else {
        Err(Fault::Contract(IdentityError::FarmerNotFound))
    }
}

/// `is_registered(farmer)`.
pub open spec fn is_registered_spec(s: IdentityModel, farmer: Seq<u8>) -> bool {
    s.storage.farmers.contains_key(farmer)
}

/// What every state the contract reaches satisfies: every registered farmer
/// is filed under its own address, and registered after initialization.
pub open spec fn storage_consistent(st: IdentityStorageModel) -> bool {
    forall|k: Seq<u8>| #[trigger]
        st.farmers.contains_key(k) ==> st.admin is Some && st.farmers[k].address == k
}

impl IdentityContract {
    pub closed spec fn wf(&self) -> bool {
        self.storage.wf() && storage_consistent(self.storage@)
    }

    /// A well-formed contract's storage is consistent.
    pub proof fn lemma_storage_consistent(&self)
        requires
            self.wf(),
        ensures
            storage_consistent(self@.storage),
    {
    }

    /// A freshly deployed contract: nothing stored, nothing published.
    pub fn new() -> (r: IdentityContract)
        ensures
            r.wf(),
            r@.storage.admin is None,
            r@.storage.farmers == Map::<Seq<u8>, FarmerModel>::empty(),
            r@.events == Seq::<IdentityEventModel>::empty(),
    {
        let r = IdentityContract { storage: IdentityStorage::new(), events: Vec::new() };
        assert(event_log(r.events@) =~= Seq::<IdentityEventModel>::empty());
        r
    }

    /// The contract over the given storage, with nothing published yet.
    pub fn from_storage(storage: IdentityStorage) -> (r: IdentityContract)
        requires
            storage.wf(),
            storage_consistent(storage@),
        ensures
            r.wf(),
            r@.storage == storage@,
            r@.events.len() == 0,
    {
        let r = IdentityContract { storage, events: Vec::new() };
        r
    }

    /// The contract's storage.
    pub fn storage(&self) -> (r: &IdentityStorage)
        requires
            self.wf(),
        ensures
            r.wf(),
            r@ == self@.storage,
    {
        &self.storage
    }

    /// The events published so far, oldest first.
    pub fn events(&self) -> (r: &Vec<IdentityEvent>)
        ensures
            event_log(r@) == self@.events,
    {
        &self.events
    }

    pub fn initialize(&mut self, env: &Env, admin: Address) -> (r: IdentityResult<()>)
        requires
            old(self).wf(),
        ensures
            final(self).wf(),
            match initialize_spec(old(self)@, env@, admin@) {
                Ok(s) => r is Ok && final(self)@ == s,
                Err(e) => r == Err::<(), _>(e) && final(self)@ == old(self)@,
            },
    {
        if let Err(e) = env.require_auth(&admin) {
            return Err(e);
        }
        storage::set_admin(&mut self.storage, &admin);
        events::initialized(&mut self.events, &admin);
        Ok(())
    }

    pub fn register_farmer(&mut self, env: &Env, farmer: Address, metadata_hash: Vec<u8>) -> (r:
        IdentityResult<Farmer>)
        requires
            old(self).wf(),
        ensures
            final(self).wf(),
            match register_farmer_spec(old(self)@, env@, farmer@, metadata_hash@) {
                Ok((s, rec)) => r matches Ok(f) && f@ == rec && final(self)@ == s,
                Err(e) => r == Err::<Farmer, _>(e) && final(self)@ == old(self)@,
            },
    {
        if let Err(e) = env.require_auth(&farmer) {
            return Err(e);
        }
        if let Err(e) = storage::require_initialized(&self.storage) {
            return Err(e);
        }
        if storage::has_farmer(&self.storage, &farmer) {
            return Err(Fault::Contract(IdentityError::AlreadyRegistered));
        }
        let seq = env.sequence();
        let record = Farmer {
            address: farmer.copy(),
            metadata_hash,
            verification_markers: Vec::new(),
            created_ledger: seq,
            updated_ledger: seq,
        };
        assert(record.verification_markers@.map_values(|m: VerificationMarker| m@) =~= Seq::<
            MarkerModel,
        >::empty());
        storage::set_farmer(&mut self.storage, &farmer, record.copy());
        events::farmer_registered(&mut self.events, &farmer, &record);
        Ok(record)
    }

    pub fn update_metadata(&mut self, env: &Env, farmer: Address, metadata_hash: Vec<u8>) -> (r:
        IdentityResult<Farmer>)
        requires
            old(self).wf(),
        ensures
            final(self).wf(),
            match update_metadata_spec(old(self)@, env@, farmer@, metadata_hash@) {
                Ok((s, rec)) => r matches Ok(f) && f@ == rec && final(self)@ == s,
                Err(e) => r == Err::<Farmer, _>(e) && final(self)@ == old(self)@,
            },
    {
        if let Err(e) = env.require_auth(&farmer) {
            return Err(e);
        }
        if let Err(e) = storage::require_initialized(&self.storage) {
            return Err(e);
        }
        let mut record = match storage::require_farmer(&self.storage, &farmer) {
            Ok(f) => f,
            Err(e) => return Err(e),
        };
        record.metadata_hash = metadata_hash;
        record.updated_ledger = env.sequence();
        storage::set_farmer(&mut self.storage, &farmer, record.copy());
        events::metadata_updated(&mut self.events, &farmer, &record);
        Ok(record)
    }

    pub fn set_verification_marker(
        &mut self,
        env: &Env,
        admin: Address,
        farmer: Address,
        marker: VerificationMarker,
    ) -> (r: IdentityResult<()>)
        requires
            old(self).wf(),
        ensures
            final(self).wf(),
            match set_verification_marker_spec(old(self)@, env@, admin@, farmer@, marker@) {
                Ok(s) => r is Ok && final(self)@ == s,
                Err(e) => r == Err::<(), _>(e) && final(self)@ == old(self)@,
            },
    {
        if let Err(e) = env.require_auth(&admin) {
            return Err(e);
        }
        if let Err(e) = storage::require_admin(&self.storage, &admin) {
            return Err(e);
        }
        let mut record = match storage::require_farmer(&self.storage, &farmer) {
            Ok(f) => f,
            Err(e) => return Err(e),
        };
        let ghost old_markers = record.verification_markers@;
        record.verification_markers.push(marker.copy());
        assert(types::markers_view(record.verification_markers@) =~= types::markers_view(
            old_markers,
        ).push(marker@));
        record.updated_ledger = env.sequence();
        storage::set_farmer(&mut self.storage, &farmer, record);
        events::verification_marker_set(&mut self.events, &farmer, &marker);
        Ok(())
    }

    pub fn get_farmer(&self, farmer: &Address) -> (r: IdentityResult<Farmer>)
        requires
            self.wf(),
        ensures
            match get_farmer_spec(self@, farmer@) {
                Ok(rec) => r matches Ok(f) && f@ == rec,
                Err(e) => r == Err::<Farmer, _>(e),
            },
    {
        storage::require_farmer(&self.storage, farmer)
    }

    pub fn is_registered(&self, farmer: &Address) -> (r: bool)
        requires
            self.wf(),
        ensures
            r == is_registered_spec(self@, farmer@),
    {
        storage::has_farmer(&self.storage, farmer)
    }
}

} // verus!
