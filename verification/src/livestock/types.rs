use vstd::prelude::*;

use crate::common::Address;

verus! {

/// The status of an animal that can change hands.
pub const STATUS_ACTIVE: u32 = 0;

/// The error codes the livestock contract rejects a call with.
#[derive(Clone, Copy, Debug, PartialEq, Eq, PartialOrd, Ord)]
pub enum LivestockError {
    NotInitialized,
    Unauthorized,
    AnimalNotFound,
    NotOwner,
    NotTransferable,
}

impl LivestockError {
    pub open spec fn spec_code(self) -> u32 {
        match self {
            LivestockError::NotInitialized => 1,
            LivestockError::Unauthorized => 2,
            LivestockError::AnimalNotFound => 3,
            LivestockError::NotOwner => 4,
            LivestockError::NotTransferable => 5,
        }
    }

    /// The numeric contract error code that the ledger reports.
    pub fn code(&self) -> (r: u32)
        ensures
            r == self.spec_code(),
    {
        match self {
            LivestockError::NotInitialized => 1,
            LivestockError::Unauthorized => 2,
            LivestockError::AnimalNotFound => 3,
            LivestockError::NotOwner => 4,
            LivestockError::NotTransferable => 5,
        }
    }
}

/// The abstract value of an [`Animal`].
pub struct AnimalModel {
    pub id: u64,
    pub owner: Seq<u8>,
    pub status: u32,
}

/// An animal's on-chain identity and ownership.
#[derive(Clone, Debug, PartialEq, Eq)]
pub struct Animal {
    pub id: u64,
    pub owner: Address,
    pub status: u32,
}

impl View for Animal {
    type V = AnimalModel;

    open spec fn view(&self) -> AnimalModel {
        AnimalModel { id: self.id, owner: self.owner@, status: self.status }
    }
}

impl Animal {
    /// A fresh copy of this record.
    pub fn copy(&self) -> (r: Animal)
        ensures
            r@ == self@,
    {
        Animal { id: self.id, owner: self.owner.copy(), status: self.status }
    }
}

/// The abstract value of an [`AnimalEvent`].
pub struct AnimalEventModel {
    pub animal_id: u64,
    pub kind: u32,
    pub actor: Seq<u8>,
}

/// An event in an animal's history, recorded by the animal's owner.
#[derive(Clone, Debug, PartialEq, Eq)]
pub struct AnimalEvent {
    pub animal_id: u64,
    pub kind: u32,
    pub actor: Address,
}

impl View for AnimalEvent {
    type V = AnimalEventModel;

    open spec fn view(&self) -> AnimalEventModel {
        AnimalEventModel { animal_id: self.animal_id, kind: self.kind, actor: self.actor@ }
    }
}

impl AnimalEvent {
    /// A fresh copy of this event.
    pub fn copy(&self) -> (r: AnimalEvent)
        ensures
            r@ == self@,
    {
        AnimalEvent { animal_id: self.animal_id, kind: self.kind, actor: self.actor.copy() }
    }
}

/// The events recorded for one animal, oldest first.
pub struct AnimalHistory {
    pub events: Vec<AnimalEvent>,
}

impl View for AnimalHistory {
    type V = Seq<AnimalEventModel>;

    open spec fn view(&self) -> Seq<AnimalEventModel> {
        self.events@.map_values(|e: AnimalEvent| e@)
    }
}

impl AnimalHistory {
    /// A fresh copy of the recorded events.
    pub fn to_vec(&self) -> (r: Vec<AnimalEvent>)
        ensures
            r@.map_values(|e: AnimalEvent| e@) == self@,
    {
        let mut out: Vec<AnimalEvent> = Vec::new();
        let n = self.events.len();
        let mut i: usize = 0;
        while i < n
            invariant
                n == self.events@.len(),
                i <= n,
                out@.map_values(|e: AnimalEvent| e@) == self@.subrange(0, i as int),
            decreases n - i,
        {
            let ghost before = out@;
            out.push(self.events[i].copy());
            i = i + 1;
            assert(out@.map_values(|e: AnimalEvent| e@) =~= before.map_values(|e: AnimalEvent| e@).push(
                self.events@[i - 1]@,
            ));
            assert(out@.map_values(|e: AnimalEvent| e@) =~= self@.subrange(0, i as int));
        }
        assert(self@.subrange(0, n as int) =~= self@);
        out
    }
}

/// The abstract value of an [`AnimalTransferred`].
pub struct AnimalTransferredModel {
    pub animal_id: u64,
    pub from: Seq<u8>,
    pub to: Seq<u8>,
}

/// Published when an animal changes hands.
#[derive(Clone, Debug, PartialEq, Eq)]
pub struct AnimalTransferred {
    pub animal_id: u64,
    pub from: Address,
    pub to: Address,
}

impl View for AnimalTransferred {
    type V = AnimalTransferredModel;

    open spec fn view(&self) -> AnimalTransferredModel {
        AnimalTransferredModel { animal_id: self.animal_id, from: self.from@, to: self.to@ }
    }
}

} // verus!
