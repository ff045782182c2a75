//! Milestone-based financing: drawdown against a committed total, release
//! on proven milestones, refund of the undrawn amount and default tracking.
use vstd::prelude::*;

use crate::common::{Address, Env, EnvModel, Fault};
use crate::table::listed;

pub mod errors;
pub mod events;
pub mod laws;
pub mod storage;
pub mod types;

pub use errors::FinancingError;
pub use events::{
    initialized, FinancingCreated, FinancingDeposited, FinancingEvent, FinancingEventModel,
    FinancingRefunded, FinancingReleased, Initialized,
};
pub use types::{Financing, FinancingModel, Milestone, MilestoneModel};

use events::event_log;
use storage::{FinancingStorage, FinancingStorageModel};
use types::milestones_view;

verus! {

/// The abstract value of the financing contract: its storage and the events it
/// has published, oldest first.
pub struct FinancingContractModel {
    pub storage: FinancingStorageModel,
    pub events: Seq<FinancingEventModel>,
}

/// The financing contract.
pub struct FinancingContract {
    storage: FinancingStorage,
    events: Vec<FinancingEvent>,
}

impl View for FinancingContract {
    type V = FinancingContractModel;

    closed spec fn view(&self) -> FinancingContractModel {
        FinancingContractModel { storage: self.storage@, events: event_log(self.events@) }
    }
}

/// A financing commits a positive total, has drawn between nothing and all
/// of it, and has repaid a non-negative amount.
pub open spec fn financing_sound(f: FinancingModel) -> bool {
    &&& 0 < f.total_amount
    &&& 0 <= f.drawn_amount <= f.total_amount
    &&& 0 <= f.repaid_amount
}

/// Every stored financing is sound.
pub open spec fn financings_sound(m: Map<u64, FinancingModel>) -> bool {
    forall|id: u64| #[trigger] m.contains_key(id) ==> financing_sound(m[id])
}

/// What a financing has not drawn yet.
pub open spec fn undrawn(f: FinancingModel) -> int {
    f.total_amount - f.drawn_amount
}

/// Some milestone's deadline lies before ledger `sequence`.
pub open spec fn deadline_missed(ms: Seq<MilestoneModel>, sequence: u32) -> bool {
    exists|i: int| 0 <= i < ms.len() && sequence > #[trigger] ms[i].deadline_ledger
}

/// What proving a milestone of amount `proof_amount` draws when `undrawn`
/// is still undrawn: the amount's magnitude when it fits, else nothing.
/// `None` when the magnitude of a negative amount overflows.
pub open spec fn milestone_draw(proof_amount: i128, undrawn: int) -> Option<i128> {
    if proof_amount > 0 {
        if proof_amount <= undrawn {
            Some(proof_amount)
        } else {
            Some(0)
        }
    } else if proof_amount < 0 {
        if proof_amount == i128::MIN {
            None
        } else if -proof_amount <= undrawn {
            Some((-proof_amount) as i128)
        } else {
            Some(0)
        }
    } else {
        Some(0)
    }
}

pub type FinancingResult<T> = Result<T, Fault<FinancingError>>;

/// `initialize(admin, financing_authority)`: demands both authorizations,
/// stores both addresses and restarts the counter at 1.
pub open spec fn initialize_spec(
    s: FinancingContractModel,
    env: EnvModel,
    admin: Seq<u8>,
    authority: Seq<u8>,
) -> FinancingResult<FinancingContractModel> {
    if !env.authorizes(admin) || !env.authorizes(authority) {
        Err(Fault::MissingAuth)
    } else {
        Ok(
            FinancingContractModel {
                storage: FinancingStorageModel {
                    admin: Some(admin),
                    authority: Some(authority),
                    next_id: Some(1),
                    ..s.storage
                },
                events: s.events.push(FinancingEventModel::Initialized { admin }),
            },
        )
    }
}

/// Fails unless a financing authority is stored and authorized the call.
pub open spec fn authority_check(s: FinancingContractModel, env: EnvModel) -> Option<
    Fault<FinancingError>,
> {
    match s.storage.authority {
        None => Some(Fault::Abort),
        Some(a) => if env.authorizes(a) {
            None
        } else {
            Some(Fault::MissingAuth)
        },
    }
}

/// `create_financing(funder, beneficiary, total_amount, milestone_count,
/// milestones)`.
pub open spec fn create_financing_spec(
    s: FinancingContractModel,
    env: EnvModel,
    funder: Seq<u8>,
    beneficiary: Seq<u8>,
    total_amount: i128,
    milestone_count: u32,
    milestones: Seq<MilestoneModel>,
) -> FinancingResult<(FinancingContractModel, u64)> {
    let id = s.storage.next_id_or_first();
    if !env.authorizes(funder) {
        Err(Fault::MissingAuth)
    } else if authority_check(s, env) is Some {
        Err(authority_check(s, env).unwrap())
    } else if total_amount <= 0 || milestone_count == 0 || milestones.len() == 0 {
        Err(Fault::Contract(FinancingError::InvalidInput))
    } else if id == u64::MAX {
        Err(Fault::Abort)
    } else {
        let rec = FinancingModel {
            id,
            funder,
            beneficiary,
            total_amount,
            drawn_amount: 0,
            milestone_count,
            milestones,
            drawn_ledger: env.sequence,
            repaid_amount: 0,
            defaulted: false,
            defaulted_ledger: None,
        };
        Ok(
            (
                FinancingContractModel {
                    storage: FinancingStorageModel {
                        financings: s.storage.financings.insert(id, rec),
                        funders: s.storage.funders.insert(
                            funder,
                            listed(s.storage.funders, funder).push(id),
                        ),
                        next_id: Some((id + 1) as u64),
                        ..s.storage
                    },
                    events: s.events.push(
                        FinancingEventModel::FinancingCreated {
                            financing_id: id,
                            funder,
                            financing: rec,
                        },
                    ),
                },
                id,
            ),
        )
    }
}

/// `deposit(financing_id, from, amount)`: records a drawdown of `amount`.
pub open spec fn deposit_spec(
    s: FinancingContractModel,
    env: EnvModel,
    id: u64,
    from: Seq<u8>,
    amount: i128,
) -> FinancingResult<FinancingContractModel> {
    if !env.authorizes(from) {
        Err(Fault::MissingAuth)
    } else if authority_check(s, env) is Some {
        Err(authority_check(s, env).unwrap())
    } else if !s.storage.financings.contains_key(id) {
        Err(Fault::Contract(FinancingError::FinancingNotFound))
    } else if amount <= 0 {
        Err(Fault::Contract(FinancingError::InvalidInput))
    } else if s.storage.financings[id].drawn_amount + amount > i128::MAX {
        Err(Fault::Abort)
    } else if s.storage.financings[id].drawn_amount + amount > s.storage.financings[id].total_amount {
        Err(Fault::Contract(FinancingError::InvalidInput))
    } else {
        let old_rec = s.storage.financings[id];
        let drawn = (old_rec.drawn_amount + amount) as i128;
        let rec = FinancingModel { drawn_amount: drawn, drawn_ledger: env.sequence, ..old_rec };
        Ok(
            FinancingContractModel {
                storage: FinancingStorageModel {
                    financings: s.storage.financings.insert(id, rec),
                    ..s.storage
                },
                events: s.events.push(
                    FinancingEventModel::FinancingDeposited {
                        financing_id: id,
                        from,
                        amount,
                        new_drawn_amount: drawn,
                    },
                ),
            },
        )
    }
}

/// `release_on_milestone(financing_id, proof, milestone_index)`: proves the
/// milestone at position `milestone_index` (counting from 0) and draws what
/// [`milestone_draw`] gives; returns that amount.
pub open spec fn release_on_milestone_spec(
    s: FinancingContractModel,
    env: EnvModel,
    id: u64,
    proof: Seq<u8>,
    milestone_index: u32,
) -> FinancingResult<(FinancingContractModel, i128)> {
    if authority_check(s, env) is Some {
        Err(authority_check(s, env).unwrap())
    } else if !s.storage.financings.contains_key(id) {
        Err(Fault::Contract(FinancingError::FinancingNotFound))
    } else if milestone_index >= s.storage.financings[id].milestones.len() {
        Err(Fault::Contract(FinancingError::InvalidInput))
    } else if env.sequence > s.storage.financings[id].milestones[milestone_index as int].deadline_ledger {
        Err(Fault::Contract(FinancingError::MilestoneDeadlineExceeded))
    } else if proof.len() == 0 {
        Err(Fault::Contract(FinancingError::InvalidInput))
    } else if milestone_draw(
        s.storage.financings[id].milestones[milestone_index as int].proof_amount,
        undrawn(s.storage.financings[id]),
    ) is None {
        Err(Fault::Abort)
    } else {
        let old_rec = s.storage.financings[id];
        let actual = milestone_draw(
            old_rec.milestones[milestone_index as int].proof_amount,
            undrawn(old_rec),
        ).unwrap();
        let rec = FinancingModel {
            drawn_amount: (old_rec.drawn_amount + actual) as i128,
            drawn_ledger: env.sequence,
            ..old_rec
        };
        Ok(
            (
                FinancingContractModel {
                    storage: FinancingStorageModel {
                        financings: s.storage.financings.insert(id, rec),
                        ..s.storage
                    },
                    events: s.events.push(
                        FinancingEventModel::FinancingReleased {
                            financing_id: id,
                            releaser: s.storage.authority.unwrap(),
                            released_amount: actual,
                        },
                    ),
                },
                actual,
            ),
        )
    }
}

/// `refund(financing_id, refundee)`: adds the undrawn amount to what was
/// repaid, and marks the financing in default, at this ledger, when some
/// milestone's deadline has passed.
pub open spec fn refund_spec(
    s: FinancingContractModel,
    env: EnvModel,
    id: u64,
    refundee: Seq<u8>,
) -> FinancingResult<FinancingContractModel> {
    if authority_check(s, env) is Some {
        Err(authority_check(s, env).unwrap())
    } else if !s.storage.financings.contains_key(id) {
        Err(Fault::Contract(FinancingError::FinancingNotFound))
    } else if undrawn(s.storage.financings[id]) <= 0 {
        Err(Fault::Contract(FinancingError::InvalidInput))
    } else if s.storage.financings[id].repaid_amount + undrawn(s.storage.financings[id]) > i128::MAX {
        Err(Fault::Abort)
    } else {
        let old_rec = s.storage.financings[id];
        let refundable = undrawn(old_rec) as i128;
        let missed = deadline_missed(old_rec.milestones, env.sequence);
        let rec = FinancingModel {
            defaulted: if missed {
                true
            } else {
                old_rec.defaulted
            },
            defaulted_ledger: if missed {
                Some(env.sequence)
            } else {
                old_rec.defaulted_ledger
            },
            repaid_amount: (old_rec.repaid_amount + refundable) as i128,
            ..old_rec
        };
        Ok(
            FinancingContractModel {
                storage: FinancingStorageModel {
                    financings: s.storage.financings.insert(id, rec),
                    ..s.storage
                },
                events: s.events.push(
                    FinancingEventModel::FinancingRefunded {
                        financing_id: id,
                        refundee,
                        refunded_amount: refundable,
                        defaulted: rec.defaulted,
                        defaulted_ledger: match rec.defaulted_ledger {
                            Some(l) => l,
                            None => 0,
                        },
                    },
                ),
            },
        )
    }
}

/// `get_financing(financing_id)`.
pub open spec fn get_financing_spec(s: FinancingContractModel, id: u64) -> FinancingResult<
    FinancingModel,
> {
    if s.storage.financings.contains_key(id) {
        Ok(s.storage.financings[id])
    } else {
        Err(Fault::Contract(FinancingError::FinancingNotFound))
    }
}

/// `get_financings_by_funder(funder)`.
pub open spec fn get_financings_by_funder_spec(s: FinancingContractModel, funder: Seq<u8>) -> Seq<
    u64,
> {
    listed(s.storage.funders, funder)
}

/// Whether some milestone's deadline lies before ledger `sequence`.
fn any_deadline_missed(ms: &Vec<Milestone>, sequence: u32) -> (r: bool)
    ensures
        r == deadline_missed(milestones_view(ms@), sequence),
{
    let n = ms.len();
    let mut i: usize = 0;
    while i < n
        invariant
            n == ms@.len(),
            i <= n,
            forall|j: int| 0 <= j < i ==> sequence <= ms@[j].deadline_ledger,
        decreases n - i,
    {
        if sequence > ms[i].deadline_ledger {
            assert(milestones_view(ms@)[i as int].deadline_ledger == ms@[i as int].deadline_ledger);
            return true;
        }
        i = i + 1;
    }
    assert forall|j: int| 0 <= j < milestones_view(ms@).len() implies sequence <= #[trigger] milestones_view(
        ms@,
    )[j].deadline_ledger by {
        assert(milestones_view(ms@)[j].deadline_ledger == ms@[j].deadline_ledger);
    }
    false
}

/// What every state the contract reaches satisfies: admin, financing
/// authority and counter are stored together, and every financing and
/// funder list was written after initialization, each financing under its
/// own identifier.
pub open spec fn storage_consistent(st: FinancingStorageModel) -> bool {
    &&& (st.admin is Some <==> st.authority is Some)
    &&& (st.admin is Some <==> st.next_id is Some)
    &&& forall|id: u64| #[trigger]
        st.financings.contains_key(id) ==> st.authority is Some && st.financings[id].id == id
    &&& forall|k: Seq<u8>| #[trigger] st.funders.contains_key(k) ==> st.authority is Some
}

impl FinancingContract {
    pub closed spec fn wf(&self) -> bool {
        &&& self.storage.wf()
        &&& financings_sound(self.storage@.financings)
        &&& storage_consistent(self.storage@)
    }

    /// A well-formed contract's storage is consistent.
    pub proof fn lemma_storage_consistent(&self)
        requires
            self.wf(),
        ensures
            storage_consistent(self@.storage),
    {
    }

    /// A freshly deployed contract: nothing stored, nothing published.
    pub fn new() -> (r: FinancingContract)
        ensures
            r.wf(),
            r@.storage == (FinancingStorageModel {
                admin: None,
                authority: None,
                next_id: None,
                financings: Map::empty(),
                funders: Map::empty(),
            }),
            r@.events == Seq::<FinancingEventModel>::empty(),
    {
        let r = FinancingContract { storage: FinancingStorage::new(), events: Vec::new() };
        assert(event_log(r.events@) =~= Seq::<FinancingEventModel>::empty());
        r
    }

    /// Every stored financing satisfies [`financing_sound`].
    pub proof fn lemma_financings_sound(&self)
        requires
            self.wf(),
        ensures
            financings_sound(self@.storage.financings),
    {
    }

    /// The contract over the given storage, with nothing published yet.
    pub fn from_storage(storage: FinancingStorage) -> (r: FinancingContract)
        requires
            storage.wf(),
            financings_sound(storage@.financings),
            storage_consistent(storage@),
        ensures
            r.wf(),
            r@.storage == storage@,
            r@.events.len() == 0,
    {
        let r = FinancingContract { storage, events: Vec::new() };
        r
    }

    /// The contract's storage.
    pub fn storage(&self) -> (r: &FinancingStorage)
        requires
            self.wf(),
        ensures
            r.wf(),
            r@ == self@.storage,
    {
        &self.storage
    }

    /// The events published so far, oldest first.
    pub fn events(&self) -> (r: &Vec<FinancingEvent>)
        ensures
            event_log(r@) == self@.events,
    {
        &self.events
    }

    /// The stored financing authority, demanding its authorization.
    fn require_authority(&self, env: &Env) -> (r: FinancingResult<Address>)
        ensures
            match authority_check(self@, env@) {
                Some(e) => r == Err::<Address, _>(e),
                None => (r matches Ok(a) && Some(a@) == self@.storage.authority),
            },
    {
        let auth = match storage::get_financing_authority(&self.storage) {
            Ok(a) => a,
            Err(e) => return Err(e),
        };
        if let Err(e) = env.require_auth(&auth) {
            return Err(e);
        }
        Ok(auth)
    }

    pub fn initialize(&mut self, env: &Env, admin: Address, financing_authority: Address) -> (r:
        FinancingResult<()>)
        requires
            old(self).wf(),
        ensures
            final(self).wf(),
            match initialize_spec(old(self)@, env@, admin@, financing_authority@) {
                Ok(s) => r is Ok && final(self)@ == s,
                Err(e) => r == Err::<(), _>(e) && final(self)@ == old(self)@,
            },
    {
        if let Err(e) = env.require_auth(&admin) {
            return Err(e);
        }
        if let Err(e) = env.require_auth(&financing_authority) {
            return Err(e);
        }
        storage::set_admin(&mut self.storage, &admin);
        storage::set_financing_authority(&mut self.storage, &financing_authority);
        storage::set_next_id(&mut self.storage, 1);
        events::initialized(&mut self.events, &admin);
        Ok(())
    }

    pub fn create_financing(
        &mut self,
        env: &Env,
        funder: Address,
        beneficiary: Address,
        total_amount: i128,
        milestone_count: u32,
        milestones: Vec<Milestone>,
    ) -> (r: FinancingResult<u64>)
        requires
            old(self).wf(),
        ensures
            final(self).wf(),
            match create_financing_spec(
                old(self)@,
                env@,
                funder@,
                beneficiary@,
                total_amount,
                milestone_count,
                milestones_view(milestones@),
            ) {
                Ok((s, id)) => r == Ok::<u64, Fault<FinancingError>>(id) && final(self)@ == s,
                Err(e) => r == Err::<u64, _>(e) && final(self)@ == old(self)@,
            },
    {
        if let Err(e) = env.require_auth(&funder) {
            return Err(e);
        }
        if let Err(e) = self.require_authority(env) {
            return Err(e);
        }
        if total_amount <= 0 || milestone_count == 0 || milestones.len() == 0 {
            return Err(Fault::Contract(FinancingError::InvalidInput));
        }
        let id = storage::next_id(&self.storage);
        if id == u64::MAX {
            return Err(Fault::Abort);
        }
        let financing = Financing {
            id,
            funder: funder.copy(),
            beneficiary,
            total_amount,
            drawn_amount: 0,
            milestone_count,
            milestones,
            drawn_ledger: env.sequence(),
            repaid_amount: 0,
            defaulted: false,
            defaulted_ledger: None,
        };
        storage::set_financing(&mut self.storage, id, financing.copy());
        let mut funder_financings = storage::get_funder_financings(&self.storage, &funder);
        funder_financings.push(id);
        storage::set_funder_financings(&mut self.storage, &funder, funder_financings);
        storage::set_next_id(&mut self.storage, id + 1);
        events::financing_created(&mut self.events, id, &funder, &financing);
        Ok(id)
    }

    pub fn deposit(&mut self, env: &Env, financing_id: u64, from: Address, amount: i128) -> (r:
        FinancingResult<()>)
        requires
            old(self).wf(),
        ensures
            final(self).wf(),
            match deposit_spec(old(self)@, env@, financing_id, from@, amount) {
                Ok(s) => r is Ok && final(self)@ == s,
                Err(e) => r == Err::<(), _>(e) && final(self)@ == old(self)@,
            },
    {
        if let Err(e) = env.require_auth(&from) {
            return Err(e);
        }
        if let Err(e) = self.require_authority(env) {
            return Err(e);
        }
        let mut financing = match storage::get_financing(&self.storage, financing_id) {
            Ok(f) => f,
            Err(e) => return Err(e),
        };
        if amount <= 0 {
            return Err(Fault::Contract(FinancingError::InvalidInput));
        }
        let drawn = match financing.drawn_amount.checked_add(amount) {
            Some(d) => d,
            None => return Err(Fault::Abort),
        };
        if drawn > financing.total_amount {
            return Err(Fault::Contract(FinancingError::InvalidInput));
        }
        financing.drawn_amount = drawn;
        financing.drawn_ledger = env.sequence();
        storage::set_financing(&mut self.storage, financing_id, financing);
        events::financing_deposited(&mut self.events, financing_id, &from, amount, drawn);
        Ok(())
    }

    pub fn release_on_milestone(
        &mut self,
        env: &Env,
        financing_id: u64,
        proof: Vec<u8>,
        milestone_index: u32,
    ) -> (r: FinancingResult<i128>)
        requires
            old(self).wf(),
        ensures
            final(self).wf(),
            match release_on_milestone_spec(old(self)@, env@, financing_id, proof@, milestone_index) {
                Ok((s, actual)) => r == Ok::<i128, Fault<FinancingError>>(actual) && final(self)@
                    == s,
                Err(e) => r == Err::<i128, _>(e) && final(self)@ == old(self)@,
            },
    {
        let auth = match self.require_authority(env) {
            Ok(a) => a,
            Err(e) => return Err(e),
        };
        let mut financing = match storage::get_financing(&self.storage, financing_id) {
            Ok(f) => f,
            Err(e) => return Err(e),
        };
        assert(financing_sound(self.storage@.financings[financing_id]));
        let idx = milestone_index as usize;
        if idx >= financing.milestones.len() {
            return Err(Fault::Contract(FinancingError::InvalidInput));
        }
        assert(milestones_view(financing.milestones@)[idx as int] == financing.milestones@[idx as int]@);
        let deadline = financing.milestones[idx].deadline_ledger;
        let release_amount = financing.milestones[idx].proof_amount;
        if env.sequence() > deadline {
            return Err(Fault::Contract(FinancingError::MilestoneDeadlineExceeded));
        }
        if proof.len() == 0 {
            return Err(Fault::Contract(FinancingError::InvalidInput));
        }
        let remaining = financing.total_amount - financing.drawn_amount;
        let actual: i128 = if release_amount > 0 && release_amount <= remaining {
            release_amount
        } else if release_amount < 0 {
            if release_amount == i128::MIN {
                return Err(Fault::Abort);
            }
            if -release_amount <= remaining {
                -release_amount
            } else {
                0
            }
        } else {
            0
        };
        financing.drawn_amount = financing.drawn_amount + actual;
        financing.drawn_ledger = env.sequence();
        storage::set_financing(&mut self.storage, financing_id, financing);
        events::financing_released(&mut self.events, financing_id, &auth, actual);
        Ok(actual)
    }

    pub fn refund(&mut self, env: &Env, financing_id: u64, refundee: Address) -> (r: FinancingResult<
        (),
    >)
        requires
            old(self).wf(),
        ensures
            final(self).wf(),
            match refund_spec(old(self)@, env@, financing_id, refundee@) {
                Ok(s) => r is Ok && final(self)@ == s,
                Err(e) => r == Err::<(), _>(e) && final(self)@ == old(self)@,
            },
    {
        if let Err(e) = self.require_authority(env) {
            return Err(e);
        }
        let mut financing = match storage::get_financing(&self.storage, financing_id) {
            Ok(f) => f,
            Err(e) => return Err(e),
        };
        assert(financing_sound(self.storage@.financings[financing_id]));
        let refundable = financing.total_amount - financing.drawn_amount;
        if refundable <= 0 {
            return Err(Fault::Contract(FinancingError::InvalidInput));
        }
        let is_default = any_deadline_missed(&financing.milestones, env.sequence());
        let repaid = match financing.repaid_amount.checked_add(refundable) {
            Some(v) => v,
            None => return Err(Fault::Abort),
        };
        if is_default {
            financing.defaulted = true;
            financing.defaulted_ledger = Some(env.sequence());
        }
        financing.repaid_amount = repaid;
        let defaulted = financing.defaulted;
        let defaulted_ledger = match financing.defaulted_ledger {
            Some(l) => l,
            None => 0,
        };
        storage::set_financing(&mut self.storage, financing_id, financing);
        events::financing_refunded(
            &mut self.events,
            financing_id,
            &refundee,
            refundable,
            defaulted,
            defaulted_ledger,
        );
        Ok(())
    }

    pub fn get_financing(&self, financing_id: u64) -> (r: FinancingResult<Financing>)
        requires
            self.wf(),
        ensures
            match get_financing_spec(self@, financing_id) {
                Ok(rec) => (r matches Ok(v) && v@ == rec),
                Err(e) => r == Err::<Financing, _>(e),
            },
    {
        storage::get_financing(&self.storage, financing_id)
    }

    pub fn get_financings_by_funder(&self, funder: &Address) -> (r: Vec<u64>)
        requires
            self.wf(),
        ensures
            r@ == get_financings_by_funder_spec(self@, funder@),
    {
        storage::get_funder_financings(&self.storage, funder)
    }
}

} // verus!
