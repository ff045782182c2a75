//! Production and supply-chain verification records, issued and revoked by
//! a designated verification authority against a batch reference.
use vstd::prelude::*;

use crate::common::{Address, Env, EnvModel, Fault};
use crate::table::listed;

pub mod errors;
pub mod events;
pub mod laws;
pub mod storage;
pub mod types;

pub use errors::VerificationError;
pub use events::{
    Initialized, VerificationCreated, VerificationEvent, VerificationEventModel,
    VerificationRevoked,
};
pub use types::{Verification, VerificationIdList, VerificationModel};

use events::event_log;
use storage::{VerificationStorage, VerificationStorageModel};

verus! {

/// The abstract value of the verification contract: its storage and the events
/// it has published, oldest first.
pub struct VerificationContractModel {
    pub storage: VerificationStorageModel,
    pub events: Seq<VerificationEventModel>,
}

/// The verification contract.
pub struct VerificationContract {
    storage: VerificationStorage,
    events: Vec<VerificationEvent>,
}

impl View for VerificationContract {
    type V = VerificationContractModel;

    closed spec fn view(&self) -> VerificationContractModel {
        VerificationContractModel { storage: self.storage@, events: event_log(self.events@) }
    }
}

pub type VerificationResult<T> = Result<T, Fault<VerificationError>>;

/// `initialize(admin, verification_authority)`: demands the admin's
/// authorization, stores both addresses and restarts the counter at 1.
pub open spec fn initialize_spec(
    s: VerificationContractModel,
    env: EnvModel,
    admin: Seq<u8>,
    authority: Seq<u8>,
) -> VerificationResult<VerificationContractModel> {
    if !env.authorizes(admin) {
        Err(Fault::MissingAuth)
    } else {
        Ok(
            VerificationContractModel {
                storage: VerificationStorageModel {
                    admin: Some(admin),
                    authority: Some(authority),
                    next_id: Some(1),
                    ..s.storage
                },
                events: s.events.push(VerificationEventModel::Initialized { admin }),
            },
        )
    }
}

/// The record that `create_verification` issues under `id`.
pub open spec fn new_verification(
    id: u64,
    batch: Seq<u8>,
    subject: Seq<u8>,
    proof_hash: Seq<u8>,
    issuer: Seq<u8>,
    ledger: u32,
) -> VerificationModel {
    VerificationModel {
        id,
        batch,
        subject,
        proof_hash,
        issuer,
        issued_ledger: ledger,
        revoked: false,
        revoked_ledger: None,
    }
}

/// `create_verification(batch, subject, proof_hash, issuer)`: demands the
/// issuer's authorization, and the issuer must be the stored verification
/// authority.
pub open spec fn create_verification_spec(
    s: VerificationContractModel,
    env: EnvModel,
    batch: Seq<u8>,
    subject: Seq<u8>,
    proof_hash: Seq<u8>,
    issuer: Seq<u8>,
) -> VerificationResult<(VerificationContractModel, u64)> {
    let id = s.storage.next_id_or_first();
    if !env.authorizes(issuer) {
        Err(Fault::MissingAuth)
    } else if s.storage.admin is None {
        Err(Fault::Contract(VerificationError::NotInitialized))
    } else if s.storage.authority is None {
        Err(Fault::Abort)
    } else if s.storage.authority != Some(issuer) {
        Err(Fault::Contract(VerificationError::Unauthorized))
    } else if batch.len() == 0 || proof_hash.len() == 0 {
        Err(Fault::Contract(VerificationError::InvalidInput))
    } else if id == u64::MAX {
        Err(Fault::Abort)
    } else {
        let rec = new_verification(id, batch, subject, proof_hash, issuer, env.sequence);
        Ok(
            (
                VerificationContractModel {
                    storage: VerificationStorageModel {
                        records: s.storage.records.insert(id, rec),
                        next_id: Some((id + 1) as u64),
                        batches: s.storage.batches.insert(
                            batch,
                            listed(s.storage.batches, batch).push(id),
                        ),
                        ..s.storage
                    },
                    events: s.events.push(
                        VerificationEventModel::VerificationCreated {
                            verification_id: id,
                            record: rec,
                        },
                    ),
                },
                id,
            ),
        )
    }
}

/// `revoke_verification(authority, verification_id, reason_hash)`. A record
/// that is already revoked stays as it is and the call succeeds.
pub open spec fn revoke_verification_spec(
    s: VerificationContractModel,
    env: EnvModel,
    authority: Seq<u8>,
    id: u64,
    reason_hash: Seq<u8>,
) -> VerificationResult<VerificationContractModel> {
    if !env.authorizes(authority) {
        Err(Fault::MissingAuth)
    } else if s.storage.admin is None {
        Err(Fault::Contract(VerificationError::NotInitialized))
    } else if s.storage.authority is None {
        Err(Fault::Abort)
    } else if s.storage.authority != Some(authority) {
        Err(Fault::Contract(VerificationError::Unauthorized))
    } else if !s.storage.records.contains_key(id) {
        Err(Fault::Contract(VerificationError::VerificationNotFound))
    } else if s.storage.records[id].revoked {
        Ok(s)
    } else if reason_hash.len() == 0 {
        Err(Fault::Contract(VerificationError::InvalidInput))
    } else {
        let rec = VerificationModel {
            revoked: true,
            revoked_ledger: Some(env.sequence),
            ..s.storage.records[id]
        };
        Ok(
            VerificationContractModel {
                storage: VerificationStorageModel {
                    records: s.storage.records.insert(id, rec),
                    ..s.storage
                },
                events: s.events.push(
                    VerificationEventModel::VerificationRevoked { verification_id: id, record: rec },
                ),
            },
        )
    }
}

/// `get_verification(verification_id)`.
pub open spec fn get_verification_spec(s: VerificationContractModel, id: u64) -> VerificationResult<
    VerificationModel,
> {
    if s.storage.records.contains_key(id) {
        Ok(s.storage.records[id])
    } else {
        Err(Fault::Contract(VerificationError::VerificationNotFound))
    }
}

/// `get_batch_verifications(batch)`.
pub open spec fn get_batch_verifications_spec(s: VerificationContractModel, batch: Seq<u8>) -> Seq<
    u64,
> {
    listed(s.storage.batches, batch)
}

/// What every state the contract reaches satisfies: admin, verification
/// authority and counter are stored together, and every record and batch
/// list was written after initialization, each record under its own
/// identifier.
pub open spec fn storage_consistent(st: VerificationStorageModel) -> bool {
    &&& (st.admin is Some <==> st.authority is Some)
    &&& (st.admin is Some <==> st.next_id is Some)
    &&& forall|id: u64| #[trigger]
        st.records.contains_key(id) ==> st.admin is Some && st.records[id].id == id
    &&& forall|k: Seq<u8>| #[trigger] st.batches.contains_key(k) ==> st.admin is Some
}

impl VerificationContract {
    pub closed spec fn wf(&self) -> bool {
        self.storage.wf() && storage_consistent(self.storage@)
    }

    /// A well-formed contract's storage is consistent.
    pub proof fn lemma_storage_consistent(&self)
        requires
            self.wf(),
        ensures
            storage_consistent(self@.storage),
    {
    }

    /// A freshly deployed contract: nothing stored, nothing published.
    pub fn new() -> (r: VerificationContract)
        ensures
            r.wf(),
            r@.storage == (VerificationStorageModel {
                admin: None,
                authority: None,
                next_id: None,
                records: Map::empty(),
                batches: Map::empty(),
            }),
            r@.events == Seq::<VerificationEventModel>::empty(),
    {
        let r = VerificationContract { storage: VerificationStorage::new(), events: Vec::new() };
        assert(event_log(r.events@) =~= Seq::<VerificationEventModel>::empty());
        r
    }

    /// The contract over the given storage, with nothing published yet.
    pub fn from_storage(storage: VerificationStorage) -> (r: VerificationContract)
        requires
            storage.wf(),
            storage_consistent(storage@),
        ensures
            r.wf(),
            r@.storage == storage@,
            r@.events.len() == 0,
    {
        let r = VerificationContract { storage, events: Vec::new() };
        r
    }

    /// The contract's storage.
    pub fn storage(&self) -> (r: &VerificationStorage)
        requires
            self.wf(),
        ensures
            r.wf(),
            r@ == self@.storage,
    {
        &self.storage
    }

    /// The events published so far, oldest first.
    pub fn events(&self) -> (r: &Vec<VerificationEvent>)
        ensures
            event_log(r@) == self@.events,
    {
        &self.events
    }

    pub fn initialize(&mut self, env: &Env, admin: Address, verification_authority: Address) -> (r:
        VerificationResult<()>)
        requires
            old(self).wf(),
        ensures
            final(self).wf(),
            match initialize_spec(old(self)@, env@, admin@, verification_authority@) {
                Ok(s) => r is Ok && final(self)@ == s,
                Err(e) => r == Err::<(), _>(e) && final(self)@ == old(self)@,
            },
    {
        if let Err(e) = env.require_auth(&admin) {
            return Err(e);
        }
        storage::set_admin(&mut self.storage, &admin);
        storage::set_verification_authority(&mut self.storage, &verification_authority);
        storage::set_next_id(&mut self.storage, 1);
        events::initialized(&mut self.events, &admin);
        Ok(())
    }

    pub fn create_verification(
        &mut self,
        env: &Env,
        batch: Vec<u8>,
        subject: Address,
        proof_hash: Vec<u8>,
        issuer: Address,
    ) -> (r: VerificationResult<u64>)
        requires
            old(self).wf(),
        ensures
            final(self).wf(),
            match create_verification_spec(
                old(self)@,
                env@,
                batch@,
                subject@,
                proof_hash@,
                issuer@,
            ) {
                Ok((s, id)) => r == Ok::<u64, Fault<VerificationError>>(id) && final(self)@ == s,
                Err(e) => r == Err::<u64, _>(e) && final(self)@ == old(self)@,
            },
    {
        if let Err(e) = env.require_auth(&issuer) {
            return Err(e);
        }
        if let Err(e) = storage::require_initialized(&self.storage) {
            return Err(e);
        }
        if let Err(e) = storage::require_authority(&self.storage, &issuer) {
            return Err(e);
        }
        if batch.len() == 0 || proof_hash.len() == 0 {
            return Err(Fault::Contract(VerificationError::InvalidInput));
        }
        let id = storage::get_next_id(&self.storage);
        if id == u64::MAX {
            return Err(Fault::Abort);
        }
        let record = Verification {
            id,
            batch: crate::common::copy_bytes(&batch),
            subject,
            proof_hash,
            issuer,
            issued_ledger: env.sequence(),
            revoked: false,
            revoked_ledger: None,
        };
        storage::set_verification(&mut self.storage, id, record.copy());
        storage::set_next_id(&mut self.storage, id + 1);
        let mut batch_ids = storage::get_batch_verifications(&self.storage, &batch);
        batch_ids.push(id);
        storage::set_batch_verifications(&mut self.storage, &batch, batch_ids);
        events::verification_created(&mut self.events, id, &record);
        Ok(id)
    }

    pub fn revoke_verification(
        &mut self,
        env: &Env,
        authority: Address,
        verification_id: u64,
        reason_hash: Vec<u8>,
    ) -> (r: VerificationResult<()>)
        requires
            old(self).wf(),
        ensures
            final(self).wf(),
            match revoke_verification_spec(
                old(self)@,
                env@,
                authority@,
                verification_id,
                reason_hash@,
            ) {
                Ok(s) => r is Ok && final(self)@ == s,
                Err(e) => r == Err::<(), _>(e) && final(self)@ == old(self)@,
            },
    {
        if let Err(e) = env.require_auth(&authority) {
            return Err(e);
        }
        if let Err(e) = storage::require_initialized(&self.storage) {
            return Err(e);
        }
        if let Err(e) = storage::require_authority(&self.storage, &authority) {
            return Err(e);
        }
        let mut record = match storage::get_verification(&self.storage, verification_id) {
            Ok(v) => v,
            Err(e) => return Err(e),
        };
        if record.revoked {
            return Ok(());
        }
        if reason_hash.len() == 0 {
            return Err(Fault::Contract(VerificationError::InvalidInput));
        }
        record.revoked = true;
        record.revoked_ledger = Some(env.sequence());
        storage::set_verification(&mut self.storage, verification_id, record.copy());
        events::verification_revoked(&mut self.events, verification_id, &record);
        Ok(())
    }

    pub fn get_verification(&self, verification_id: u64) -> (r: VerificationResult<Verification>)
        requires
            self.wf(),
        ensures
            match get_verification_spec(self@, verification_id) {
                Ok(rec) => (r matches Ok(v) && v@ == rec),
                Err(e) => r == Err::<Verification, _>(e),
            },
    {
        storage::get_verification(&self.storage, verification_id)
    }

    pub fn get_batch_verifications(&self, batch: &Vec<u8>) -> (r: Vec<u64>)
        requires
            self.wf(),
        ensures
            r@ == get_batch_verifications_spec(self@, batch@),
    {
        storage::get_batch_verifications(&self.storage, batch)
    }
}

} // verus!
