//! Token escrow with conditional release, scoped by booking reference.
//!
//! Token movements are the contract's outgoing calls to the token contract;
//! an invocation that succeeds appends the transfers it makes to the
//! contract's transfer log, in the order it makes them.
use vstd::prelude::*;

use crate::common::{Address, Env, EnvModel, Fault};
use crate::table::listed;

pub mod errors;
pub mod events;
pub mod laws;
pub mod storage;
pub mod types;

pub use errors::EscrowError;
pub use events::{
    EscrowCreated, EscrowDeposited, EscrowEvent, EscrowEventModel, EscrowRefunded, EscrowReleased,
    Initialized,
};
pub use types::{
    ConditionModel, Escrow, EscrowModel, ReleaseCondition, TokenTransfer, TransferModel,
    KIND_MANUAL, KIND_MILESTONE, KIND_TIMEOUT,
};

use events::event_log;
use storage::{EscrowStorage, EscrowStorageModel};

verus! {

/// The abstract value of the escrow contract: its storage, the events it has
/// published and the token transfers it has made, oldest first.
pub struct EscrowContractModel {
    pub storage: EscrowStorageModel,
    pub events: Seq<EscrowEventModel>,
    pub transfers: Seq<TransferModel>,
}

/// The escrow contract.
pub struct EscrowContract {
    storage: EscrowStorage,
    events: Vec<EscrowEvent>,
    transfers: Vec<TokenTransfer>,
}

pub open spec fn transfer_log(log: Seq<TokenTransfer>) -> Seq<TransferModel> {
    log.map_values(|t: TokenTransfer| t@)
}

impl View for EscrowContract {
    type V = EscrowContractModel;

    closed spec fn view(&self) -> EscrowContractModel {
        EscrowContractModel {
            storage: self.storage@,
            events: event_log(self.events@),
            transfers: transfer_log(self.transfers@),
        }
    }
}

/// An escrow holds a positive deposited amount and has paid out between
/// nothing and all of it.
pub open spec fn escrow_sound(e: EscrowModel) -> bool {
    0 < e.amount && 0 <= e.released_amount <= e.amount
}

/// Every stored escrow is sound.
pub open spec fn escrows_sound(m: Map<u64, EscrowModel>) -> bool {
    forall|id: u64| #[trigger] m.contains_key(id) ==> escrow_sound(m[id])
}

/// What an escrow still holds.
pub open spec fn remaining(e: EscrowModel) -> int {
    e.amount - e.released_amount
}

pub type EscrowResult<T> = Result<T, Fault<EscrowError>>;

/// `initialize(admin, token)`: demands the admin's authorization, stores the
/// admin and the token contract and restarts the counter at 1.
pub open spec fn initialize_spec(
    s: EscrowContractModel,
    env: EnvModel,
    admin: Seq<u8>,
    token: Seq<u8>,
) -> EscrowResult<EscrowContractModel> {
    if !env.authorizes(admin) {
        Err(Fault::MissingAuth)
    } else {
        Ok(
            EscrowContractModel {
                storage: EscrowStorageModel {
                    admin: Some(admin),
                    token: Some(token),
                    next_id: Some(1),
                    ..s.storage
                },
                events: s.events.push(EscrowEventModel::Initialized { admin }),
                ..s
            },
        )
    }
}

/// `create_escrow(depositor, beneficiary, amount, condition, booking_ref)`:
/// pulls `amount` from the depositor into the contract.
pub open spec fn create_escrow_spec(
    s: EscrowContractModel,
    env: EnvModel,
    depositor: Seq<u8>,
    beneficiary: Seq<u8>,
    amount: i128,
    condition: ConditionModel,
    booking_ref: Seq<u8>,
) -> EscrowResult<(EscrowContractModel, u64)> {
    let id = s.storage.next_id_or_first();
    if !env.authorizes(depositor) {
        Err(Fault::MissingAuth)
    } else if s.storage.admin is None {
        Err(Fault::Contract(EscrowError::NotInitialized))
    } else if amount <= 0 || booking_ref.len() == 0 {
        Err(Fault::Contract(EscrowError::InvalidInput))
    } else if s.storage.token is None || id == u64::MAX {
        Err(Fault::Abort)
    } else {
        let token = s.storage.token.unwrap();
        let rec = EscrowModel {
            id,
            depositor,
            beneficiary,
            token,
            amount,
            released_amount: 0,
            booking_ref,
            condition,
            created_ledger: env.sequence,
            updated_ledger: env.sequence,
        };
        Ok(
            (
                EscrowContractModel {
                    storage: EscrowStorageModel {
                        escrows: s.storage.escrows.insert(id, rec),
                        next_id: Some((id + 1) as u64),
                        bookings: s.storage.bookings.insert(
                            booking_ref,
                            listed(s.storage.bookings, booking_ref).push(id),
                        ),
                        ..s.storage
                    },
                    events: s.events.push(
                        EscrowEventModel::EscrowCreated { escrow_id: id, depositor, record: rec },
                    ),
                    transfers: s.transfers.push(
                        TransferModel { token, from: depositor, to: env.contract, amount },
                    ),
                },
                id,
            ),
        )
    }
}

/// `deposit(escrow_id, from, amount)`: pulls `amount` more from `from`.
pub open spec fn deposit_spec(
    s: EscrowContractModel,
    env: EnvModel,
    id: u64,
    from: Seq<u8>,
    amount: i128,
) -> EscrowResult<EscrowContractModel> {
    if !env.authorizes(from) {
        Err(Fault::MissingAuth)
    } else if s.storage.admin is None {
        Err(Fault::Contract(EscrowError::NotInitialized))
    } else if amount <= 0 {
        Err(Fault::Contract(EscrowError::InvalidInput))
    } else if !s.storage.escrows.contains_key(id) {
        Err(Fault::Contract(EscrowError::EscrowNotFound))
    } else if s.storage.token is None || s.storage.escrows[id].amount + amount > i128::MAX {
        Err(Fault::Abort)
    } else {
        let old_rec = s.storage.escrows[id];
        let token = s.storage.token.unwrap();
        let rec = EscrowModel {
            amount: (old_rec.amount + amount) as i128,
            updated_ledger: env.sequence,
            ..old_rec
        };
        Ok(
            EscrowContractModel {
                storage: EscrowStorageModel {
                    escrows: s.storage.escrows.insert(id, rec),
                    ..s.storage
                },
                events: s.events.push(EscrowEventModel::EscrowDeposited { escrow_id: id, from, amount }),
                transfers: s.transfers.push(TransferModel { token, from, to: env.contract, amount }),
            },
        )
    }
}

/// The release condition's verdict on `release(escrow_id, releaser,
/// proof_hash)`; `None` when it allows the release.
pub open spec fn release_refusal(
    env: EnvModel,
    c: ConditionModel,
    releaser: Seq<u8>,
    proof_hash: Seq<u8>,
) -> Option<EscrowError> {
    if c.kind == KIND_MANUAL {
        if releaser != c.releaser {
            Some(EscrowError::ConditionNotMet)
        } else {
            None
        }
    } else if c.kind == KIND_MILESTONE {
        if releaser != c.releaser {
            Some(EscrowError::ConditionNotMet)
        } else if proof_hash.len() == 0 {
            Some(EscrowError::InvalidInput)
        } else {
            None
        }
    } else if c.kind == KIND_TIMEOUT {
        if env.sequence < c.timeout_ledger {
            Some(EscrowError::TimeoutNotElapsed)
        } else {
            None
        }
    } else {
        Some(EscrowError::InvalidInput)
    }
}

/// `release(escrow_id, releaser, proof_hash)`: pays everything the escrow
/// still holds to the beneficiary.
pub open spec fn release_spec(
    s: EscrowContractModel,
    env: EnvModel,
    id: u64,
    releaser: Seq<u8>,
    proof_hash: Seq<u8>,
) -> EscrowResult<EscrowContractModel> {
    if !env.authorizes(releaser) {
        Err(Fault::MissingAuth)
    } else if s.storage.admin is None {
        Err(Fault::Contract(EscrowError::NotInitialized))
    } else if !s.storage.escrows.contains_key(id) {
        Err(Fault::Contract(EscrowError::EscrowNotFound))
    } else if remaining(s.storage.escrows[id]) <= 0 {
        Err(Fault::Contract(EscrowError::AlreadyFullyReleased))
    } else if release_refusal(env, s.storage.escrows[id].condition, releaser, proof_hash) is Some {
        Err(
            Fault::Contract(
                release_refusal(env, s.storage.escrows[id].condition, releaser, proof_hash).unwrap(),
            ),
        )
    } else if s.storage.token is None {
        Err(Fault::Abort)
    } else {
        let old_rec = s.storage.escrows[id];
        let token = s.storage.token.unwrap();
        let paid = remaining(old_rec) as i128;
        let rec = EscrowModel {
            released_amount: old_rec.amount,
            updated_ledger: env.sequence,
            ..old_rec
        };
        Ok(
            EscrowContractModel {
                storage: EscrowStorageModel {
                    escrows: s.storage.escrows.insert(id, rec),
                    ..s.storage
                },
                events: s.events.push(
                    EscrowEventModel::EscrowReleased { escrow_id: id, releaser, amount: paid },
                ),
                transfers: s.transfers.push(
                    TransferModel { token, from: env.contract, to: old_rec.beneficiary, amount: paid },
                ),
            },
        )
    }
}

/// `refund(escrow_id, refundee)`: returns everything the escrow still holds
/// to its depositor.
pub open spec fn refund_spec(
    s: EscrowContractModel,
    env: EnvModel,
    id: u64,
    refundee: Seq<u8>,
) -> EscrowResult<EscrowContractModel> {
    if !env.authorizes(refundee) {
        Err(Fault::MissingAuth)
    } else if s.storage.admin is None {
        Err(Fault::Contract(EscrowError::NotInitialized))
    } else if !s.storage.escrows.contains_key(id) {
        Err(Fault::Contract(EscrowError::EscrowNotFound))
    } else if s.storage.escrows[id].released_amount > 0 && s.storage.escrows[id].condition.kind
        != KIND_TIMEOUT {
        Err(Fault::Contract(EscrowError::ConditionNotMet))
    } else if s.storage.escrows[id].released_amount > 0 && env.sequence
        < s.storage.escrows[id].condition.timeout_ledger {
        Err(Fault::Contract(EscrowError::TimeoutNotElapsed))
    } else if remaining(s.storage.escrows[id]) <= 0 {
        Err(Fault::Contract(EscrowError::AlreadyFullyReleased))
    } else if refundee != s.storage.escrows[id].depositor {
        Err(Fault::Contract(EscrowError::Unauthorized))
    } else if s.storage.token is None {
        Err(Fault::Abort)
    } else {
        let old_rec = s.storage.escrows[id];
        let token = s.storage.token.unwrap();
        let paid = remaining(old_rec) as i128;
        let rec = EscrowModel {
            released_amount: old_rec.amount,
            updated_ledger: env.sequence,
            ..old_rec
        };
        Ok(
            EscrowContractModel {
                storage: EscrowStorageModel {
                    escrows: s.storage.escrows.insert(id, rec),
                    ..s.storage
                },
                events: s.events.push(
                    EscrowEventModel::EscrowRefunded { escrow_id: id, refundee, amount: paid },
                ),
                transfers: s.transfers.push(
                    TransferModel { token, from: env.contract, to: refundee, amount: paid },
                ),
            },
        )
    }
}

/// `get_escrow(escrow_id)`.
pub open spec fn get_escrow_spec(s: EscrowContractModel, id: u64) -> EscrowResult<EscrowModel> {
    if s.storage.escrows.contains_key(id) {
        Ok(s.storage.escrows[id])
    } else {
        Err(Fault::Contract(EscrowError::EscrowNotFound))
    }
}

/// `get_escrows_for_booking(booking_ref)`.
pub open spec fn get_escrows_for_booking_spec(s: EscrowContractModel, booking_ref: Seq<u8>) -> Seq<
    u64,
> {
    listed(s.storage.bookings, booking_ref)
}

/// What every state the contract reaches satisfies: admin, token and
/// counter are stored together, and every escrow and booking list was
/// written after initialization, each escrow under its own identifier.
pub open spec fn storage_consistent(st: EscrowStorageModel) -> bool {
    &&& (st.admin is Some <==> st.token is Some)
    &&& (st.admin is Some <==> st.next_id is Some)
    &&& forall|id: u64| #[trigger]
        st.escrows.contains_key(id) ==> st.admin is Some && st.escrows[id].id == id
    &&& forall|k: Seq<u8>| #[trigger] st.bookings.contains_key(k) ==> st.admin is Some
}

impl EscrowContract {
    pub closed spec fn wf(&self) -> bool {
        &&& self.storage.wf()
        &&& escrows_sound(self.storage@.escrows)
        &&& storage_consistent(self.storage@)
    }

    /// A well-formed contract's storage is consistent.
    pub proof fn lemma_storage_consistent(&self)
        requires
            self.wf(),
        ensures
            storage_consistent(self@.storage),
    {
    }

    /// A freshly deployed contract: nothing stored, published or moved.
    pub fn new() -> (r: EscrowContract)
        ensures
            r.wf(),
            r@.storage == (EscrowStorageModel {
                admin: None,
                token: None,
                next_id: None,
                escrows: Map::empty(),
                bookings: Map::empty(),
            }),
            r@.events == Seq::<EscrowEventModel>::empty(),
            r@.transfers == Seq::<TransferModel>::empty(),
    {
        let r = EscrowContract {
            storage: EscrowStorage::new(),
            events: Vec::new(),
            transfers: Vec::new(),
        };
        assert(event_log(r.events@) =~= Seq::<EscrowEventModel>::empty());
        assert(transfer_log(r.transfers@) =~= Seq::<TransferModel>::empty());
        r
    }

    /// Every stored escrow satisfies [`escrow_sound`].
    pub proof fn lemma_escrows_sound(&self)
        requires
            self.wf(),
        ensures
            escrows_sound(self@.storage.escrows),
    {
    }

    /// The contract over the given storage, with nothing published yet.
    pub fn from_storage(storage: EscrowStorage) -> (r: EscrowContract)
        requires
            storage.wf(),
            escrows_sound(storage@.escrows),
            storage_consistent(storage@),
        ensures
            r.wf(),
            r@.storage == storage@,
            r@.events.len() == 0,
            r@.transfers.len() == 0,
    {
        let r = EscrowContract { storage, events: Vec::new(), transfers: Vec::new() };
        r
    }

    /// The contract's storage.
    pub fn storage(&self) -> (r: &EscrowStorage)
        requires
            self.wf(),
        ensures
            r.wf(),
            r@ == self@.storage,
    {
        &self.storage
    }

    /// The events published so far, oldest first.
    pub fn events(&self) -> (r: &Vec<EscrowEvent>)
        ensures
            event_log(r@) == self@.events,
    {
        &self.events
    }

    /// The token transfers made so far, oldest first.
    pub fn transfers(&self) -> (r: &Vec<TokenTransfer>)
        ensures
            transfer_log(r@) == self@.transfers,
    {
        &self.transfers
    }

    fn record_transfer(&mut self, token: Address, from: Address, to: Address, amount: i128)
        ensures
            final(self).storage == old(self).storage,
            final(self).events == old(self).events,
            transfer_log(final(self).transfers@) == transfer_log(old(self).transfers@).push(
                TransferModel { token: token@, from: from@, to: to@, amount },
            ),
    {
        let ghost before = self.transfers@;
        let t = TokenTransfer { token, from, to, amount };
        self.transfers.push(t);
        assert(transfer_log(self.transfers@) =~= transfer_log(before).push(t@));
    }

    pub fn initialize(&mut self, env: &Env, admin: Address, token: Address) -> (r: EscrowResult<()>)
        requires
            old(self).wf(),
        ensures
            final(self).wf(),
            match initialize_spec(old(self)@, env@, admin@, token@) {
                Ok(s) => r is Ok && final(self)@ == s,
                Err(e) => r == Err::<(), _>(e) && final(self)@ == old(self)@,
            },
    {
        if let Err(e) = env.require_auth(&admin) {
            return Err(e);
        }
        storage::set_admin(&mut self.storage, &admin);
        storage::set_token(&mut self.storage, &token);
        storage::set_next_id(&mut self.storage, 1);
        events::initialized(&mut self.events, &admin);
        Ok(())
    }

    pub fn create_escrow(
        &mut self,
        env: &Env,
        depositor: Address,
        beneficiary: Address,
        amount: i128,
        condition: ReleaseCondition,
        booking_ref: Vec<u8>,
    ) -> (r: EscrowResult<u64>)
        requires
            old(self).wf(),
        ensures
            final(self).wf(),
            match create_escrow_spec(
                old(self)@,
                env@,
                depositor@,
                beneficiary@,
                amount,
                condition@,
                booking_ref@,
            ) {
                Ok((s, id)) => r == Ok::<u64, Fault<EscrowError>>(id) && final(self)@ == s,
                Err(e) => r == Err::<u64, _>(e) && final(self)@ == old(self)@,
            },
    {
        if let Err(e) = env.require_auth(&depositor) {
            return Err(e);
        }
        if let Err(e) = storage::require_initialized(&self.storage) {
            return Err(e);
        }
        if amount <= 0 || booking_ref.len() == 0 {
            return Err(Fault::Contract(EscrowError::InvalidInput));
        }
        let id = storage::get_next_id(&self.storage);
        let token = match storage::get_token(&self.storage) {
            Ok(t) => t,
            Err(e) => return Err(e),
        };
        if id == u64::MAX {
            return Err(Fault::Abort);
        }
        let record = Escrow {
            id,
            depositor: depositor.copy(),
            beneficiary,
            token: token.copy(),
            amount,
            released_amount: 0,
            booking_ref: crate::common::copy_bytes(&booking_ref),
            condition,
            created_ledger: env.sequence(),
            updated_ledger: env.sequence(),
        };
        self.record_transfer(token, depositor.copy(), env.contract.copy(), amount);
        storage::set_escrow(&mut self.storage, id, record.copy());
        storage::set_next_id(&mut self.storage, id + 1);
        let mut booking_ids = storage::get_booking_escrows(&self.storage, &booking_ref);
        booking_ids.push(id);
        storage::set_booking_escrows(&mut self.storage, &booking_ref, booking_ids);
        events::escrow_created(&mut self.events, id, &depositor, &record);
        Ok(id)
    }

    pub fn deposit(&mut self, env: &Env, escrow_id: u64, from: Address, amount: i128) -> (r:
        EscrowResult<()>)
        requires
            old(self).wf(),
        ensures
            final(self).wf(),
            match deposit_spec(old(self)@, env@, escrow_id, from@, amount) {
                Ok(s) => r is Ok && final(self)@ == s,
                Err(e) => r == Err::<(), _>(e) && final(self)@ == old(self)@,
            },
    {
        if let Err(e) = env.require_auth(&from) {
            return Err(e);
        }
        if let Err(e) = storage::require_initialized(&self.storage) {
            return Err(e);
        }
        if amount <= 0 {
            return Err(Fault::Contract(EscrowError::InvalidInput));
        }
        let mut record = match storage::get_escrow(&self.storage, escrow_id) {
            Ok(v) => v,
            Err(e) => return Err(e),
        };
        let token = match storage::get_token(&self.storage) {
            Ok(t) => t,
            Err(e) => return Err(e),
        };
        let new_amount = match record.amount.checked_add(amount) {
            Some(v) => v,
            None => return Err(Fault::Abort),
        };
        self.record_transfer(token, from.copy(), env.contract.copy(), amount);
        record.amount = new_amount;
        record.updated_ledger = env.sequence();
        storage::set_escrow(&mut self.storage, escrow_id, record);
        events::escrow_deposited(&mut self.events, escrow_id, &from, amount);
        Ok(())
    }

    /// The release condition's verdict, as [`release_refusal`] states it.
    fn check_condition(env: &Env, c: &ReleaseCondition, releaser: &Address, proof_hash: &Vec<u8>) -> (r:
        Option<EscrowError>)
        ensures
            r == release_refusal(env@, c@, releaser@, proof_hash@),
    {
        if c.kind == KIND_MANUAL {
            if !releaser.same(&c.releaser) {
                return Some(EscrowError::ConditionNotMet);
            }
            None
        } else if c.kind == KIND_MILESTONE {
            if !releaser.same(&c.releaser) {
                return Some(EscrowError::ConditionNotMet);
            }
            if proof_hash.len() == 0 {
                return Some(EscrowError::InvalidInput);
            }
            None
        } else if c.kind == KIND_TIMEOUT {
            if env.sequence() < c.timeout_ledger {
                return Some(EscrowError::TimeoutNotElapsed);
            }
            None
        } else {
            Some(EscrowError::InvalidInput)
        }
    }

    pub fn release(&mut self, env: &Env, escrow_id: u64, releaser: Address, proof_hash: Vec<u8>) -> (r:
        EscrowResult<()>)
        requires
            old(self).wf(),
        ensures
            final(self).wf(),
            match release_spec(old(self)@, env@, escrow_id, releaser@, proof_hash@) {
                Ok(s) => r is Ok && final(self)@ == s,
                Err(e) => r == Err::<(), _>(e) && final(self)@ == old(self)@,
            },
    {
        if let Err(e) = env.require_auth(&releaser) {
            return Err(e);
        }
        if let Err(e) = storage::require_initialized(&self.storage) {
            return Err(e);
        }
        let mut record = match storage::get_escrow(&self.storage, escrow_id) {
            Ok(v) => v,
            Err(e) => return Err(e),
        };
        assert(escrow_sound(self.storage@.escrows[escrow_id]));
        let remaining = record.amount - record.released_amount;
        if remaining <= 0 {
            return Err(Fault::Contract(EscrowError::AlreadyFullyReleased));
        }
        if let Some(refusal) = Self::check_condition(env, &record.condition, &releaser, &proof_hash) {
            return Err(Fault::Contract(refusal));
        }
        let token = match storage::get_token(&self.storage) {
            Ok(t) => t,
            Err(e) => return Err(e),
        };
        self.record_transfer(token, env.contract.copy(), record.beneficiary.copy(), remaining);
        record.released_amount = record.released_amount + remaining;
        record.updated_ledger = env.sequence();
        storage::set_escrow(&mut self.storage, escrow_id, record);
        events::escrow_released(&mut self.events, escrow_id, &releaser, remaining);
        Ok(())
    }

    pub fn refund(&mut self, env: &Env, escrow_id: u64, refundee: Address) -> (r: EscrowResult<()>)
        requires
            old(self).wf(),
        ensures
            final(self).wf(),
            match refund_spec(old(self)@, env@, escrow_id, refundee@) {
                Ok(s) => r is Ok && final(self)@ == s,
                Err(e) => r == Err::<(), _>(e) && final(self)@ == old(self)@,
            },
    {
        if let Err(e) = env.require_auth(&refundee) {
            return Err(e);
        }
        if let Err(e) = storage::require_initialized(&self.storage) {
            return Err(e);
        }
        let mut record = match storage::get_escrow(&self.storage, escrow_id) {
            Ok(v) => v,
            Err(e) => return Err(e),
        };
        assert(escrow_sound(self.storage@.escrows[escrow_id]));
        if record.released_amount > 0 {
            if record.condition.kind == KIND_TIMEOUT {
                if env.sequence() < record.condition.timeout_ledger {
                    return Err(Fault::Contract(EscrowError::TimeoutNotElapsed));
                }
            } else {
                return Err(Fault::Contract(EscrowError::ConditionNotMet));
            }
        }
        let remaining = record.amount - record.released_amount;
        if remaining <= 0 {
            return Err(Fault::Contract(EscrowError::AlreadyFullyReleased));
        }
        if !refundee.same(&record.depositor) {
            return Err(Fault::Contract(EscrowError::Unauthorized));
        }
        let token = match storage::get_token(&self.storage) {
            Ok(t) => t,
            Err(e) => return Err(e),
        };
        self.record_transfer(token, env.contract.copy(), refundee.copy(), remaining);
        record.released_amount = record.amount;
        record.updated_ledger = env.sequence();
        storage::set_escrow(&mut self.storage, escrow_id, record);
        events::escrow_refunded(&mut self.events, escrow_id, &refundee, remaining);
        Ok(())
    }

    pub fn get_escrow(&self, escrow_id: u64) -> (r: EscrowResult<Escrow>)
        requires
            self.wf(),
        ensures
            match get_escrow_spec(self@, escrow_id) {
                Ok(rec) => (r matches Ok(v) && v@ == rec),
                Err(e) => r == Err::<Escrow, _>(e),
            },
    {
        storage::get_escrow(&self.storage, escrow_id)
    }

    pub fn get_escrows_for_booking(&self, booking_ref: &Vec<u8>) -> (r: Vec<u64>)
        requires
            self.wf(),
        ensures
            r@ == get_escrows_for_booking_spec(self@, booking_ref@),
    {
        storage::get_booking_escrows(&self.storage, booking_ref)
    }
}

} // verus!
