use vstd::prelude::*;

use crate::common::{copy_bytes, Address};

verus! {

/// The abstract value of a [`Milestone`].
pub struct MilestoneModel {
    pub index: u32,
    pub deadline_ledger: u32,
    pub proof_hash: Seq<u8>,
    pub proof_amount: i128,
}

/// A financing milestone: its 1-based position among the financing's
/// milestones, the ledger by which it must be proven, the hash of its
/// evidence, and the amount it moves (positive: released to the
/// beneficiary; negative: refunded from the beneficiary).
#[derive(Clone, Debug, PartialEq, Eq)]
pub struct Milestone {
    pub index: u32,
    pub deadline_ledger: u32,
    pub proof_hash: Vec<u8>,
    pub proof_amount: i128,
}

impl View for Milestone {
    type V = MilestoneModel;

    open spec fn view(&self) -> MilestoneModel {
        MilestoneModel {
            index: self.index,
            deadline_ledger: self.deadline_ledger,
            proof_hash: self.proof_hash@,
            proof_amount: self.proof_amount,
        }
    }
}

impl Milestone {
    pub fn copy(&self) -> (r: Milestone)
        ensures
            r@ == self@,
    {
        Milestone {
            index: self.index,
            deadline_ledger: self.deadline_ledger,
            proof_hash: copy_bytes(&self.proof_hash),
            proof_amount: self.proof_amount,
        }
    }
}

/// The views of a list of milestones.
pub open spec fn milestones_view(ms: Seq<Milestone>) -> Seq<MilestoneModel> {
    ms.map_values(|m: Milestone| m@)
}

/// A fresh copy of a list of milestones.
pub fn copy_milestones(ms: &Vec<Milestone>) -> (r: Vec<Milestone>)
    ensures
        milestones_view(r@) == milestones_view(ms@),
{
    let mut out: Vec<Milestone> = Vec::new();
    let n = ms.len();
    let mut i: usize = 0;
    while i < n
        invariant
            n == ms@.len(),
            i <= n,
            milestones_view(out@) == milestones_view(ms@.subrange(0, i as int)),
        decreases n - i,
    {
        let m = ms[i].copy();
        let ghost prev = out@;
        out.push(m);
        assert(milestones_view(out@) =~= milestones_view(prev).push(ms@[i as int]@));
        assert(milestones_view(ms@.subrange(0, i + 1)) =~= milestones_view(
            ms@.subrange(0, i as int),
        ).push(ms@[i as int]@));
        i = i + 1;
    }
    assert(ms@.subrange(0, n as int) =~= ms@);
    out
}

/// The abstract value of a [`Financing`].
pub struct FinancingModel {
    pub id: u64,
    pub funder: Seq<u8>,
    pub beneficiary: Seq<u8>,
    pub total_amount: i128,
    pub drawn_amount: i128,
    pub milestone_count: u32,
    pub milestones: Seq<MilestoneModel>,
    pub drawn_ledger: u32,
    pub repaid_amount: i128,
    pub defaulted: bool,
    pub defaulted_ledger: Option<u32>,
}

/// A milestone financing: the committed total, what has been drawn and
/// repaid so far, its milestones in order, and whether (and at which ledger)
/// it was last found in default.
#[derive(Clone, Debug, PartialEq, Eq)]
pub struct Financing {
    pub id: u64,
    pub funder: Address,
    pub beneficiary: Address,
    pub total_amount: i128,
    pub drawn_amount: i128,
    pub milestone_count: u32,
    pub milestones: Vec<Milestone>,
    pub drawn_ledger: u32,
    pub repaid_amount: i128,
    pub defaulted: bool,
    pub defaulted_ledger: Option<u32>,
}

impl View for Financing {
    type V = FinancingModel;

    open spec fn view(&self) -> FinancingModel {
        FinancingModel {
            id: self.id,
            funder: self.funder@,
            beneficiary: self.beneficiary@,
            total_amount: self.total_amount,
            drawn_amount: self.drawn_amount,
            milestone_count: self.milestone_count,
            milestones: milestones_view(self.milestones@),
            drawn_ledger: self.drawn_ledger,
            repaid_amount: self.repaid_amount,
            defaulted: self.defaulted,
            defaulted_ledger: self.defaulted_ledger,
        }
    }
}

impl Financing {
    pub fn copy(&self) -> (r: Financing)
        ensures
            r@ == self@,
    {
        Financing {
            id: self.id,
            funder: self.funder.copy(),
            beneficiary: self.beneficiary.copy(),
            total_amount: self.total_amount,
            drawn_amount: self.drawn_amount,
            milestone_count: self.milestone_count,
            milestones: copy_milestones(&self.milestones),
            drawn_ledger: self.drawn_ledger,
            repaid_amount: self.repaid_amount,
            defaulted: self.defaulted,
            defaulted_ledger: self.defaulted_ledger,
        }
    }
}

} // verus!
