use vstd::prelude::*;

use crate::common::{copy_bytes, Address};

verus! {

/// Release by the configured releaser.
pub const KIND_MANUAL: u32 = 0;

/// Release by the configured proof verifier, against a proof hash.
pub const KIND_MILESTONE: u32 = 1;

/// Release or refund once the timeout ledger is reached.
pub const KIND_TIMEOUT: u32 = 2;

/// The abstract value of a [`ReleaseCondition`].
pub struct ConditionModel {
    pub kind: u32,
    pub releaser: Seq<u8>,
    pub timeout_ledger: u32,
}

/// When an escrow may be released: `kind` is 0 (manual: `releaser`
/// releases), 1 (milestone: `releaser` releases against a proof hash) or 2
/// (timeout: anyone releases, and the depositor may take a refund, from
/// `timeout_ledger` on).
#[derive(Clone, Debug, PartialEq, Eq)]
pub struct ReleaseCondition {
    pub kind: u32,
    pub releaser: Address,
    pub timeout_ledger: u32,
}

impl View for ReleaseCondition {
    type V = ConditionModel;

    open spec fn view(&self) -> ConditionModel {
        ConditionModel {
            kind: self.kind,
            releaser: self.releaser@,
            timeout_ledger: self.timeout_ledger,
        }
    }
}

impl ReleaseCondition {
    pub fn copy(&self) -> (r: ReleaseCondition)
        ensures
            r@ == self@,
    {
        ReleaseCondition {
            kind: self.kind,
            releaser: self.releaser.copy(),
            timeout_ledger: self.timeout_ledger,
        }
    }
}

/// The abstract value of an [`Escrow`].
pub struct EscrowModel {
    pub id: u64,
    pub depositor: Seq<u8>,
    pub beneficiary: Seq<u8>,
    pub token: Seq<u8>,
    pub amount: i128,
    pub released_amount: i128,
    pub booking_ref: Seq<u8>,
    pub condition: ConditionModel,
    pub created_ledger: u32,
    pub updated_ledger: u32,
}

/// An escrow: `amount` is everything deposited so far and `released_amount`
/// what has left the escrow, released to the beneficiary or refunded.
#[derive(Clone, Debug, PartialEq, Eq)]
pub struct Escrow {
    pub id: u64,
    pub depositor: Address,
    pub beneficiary: Address,
    pub token: Address,
    pub amount: i128,
    pub released_amount: i128,
    pub booking_ref: Vec<u8>,
    pub condition: ReleaseCondition,
    pub created_ledger: u32,
    pub updated_ledger: u32,
}

impl View for Escrow {
    type V = EscrowModel;

    open spec fn view(&self) -> EscrowModel {
        EscrowModel {
            id: self.id,
            depositor: self.depositor@,
            beneficiary: self.beneficiary@,
            token: self.token@,
            amount: self.amount,
            released_amount: self.released_amount,
            booking_ref: self.booking_ref@,
            condition: self.condition@,
            created_ledger: self.created_ledger,
            updated_ledger: self.updated_ledger,
        }
    }
}

impl Escrow {
    pub fn copy(&self) -> (r: Escrow)
        ensures
            r@ == self@,
    {
        Escrow {
            id: self.id,
            depositor: self.depositor.copy(),
            beneficiary: self.beneficiary.copy(),
            token: self.token.copy(),
            amount: self.amount,
            released_amount: self.released_amount,
            booking_ref: copy_bytes(&self.booking_ref),
            condition: self.condition.copy(),
            created_ledger: self.created_ledger,
            updated_ledger: self.updated_ledger,
        }
    }
}

/// The abstract value of a [`TokenTransfer`].
pub struct TransferModel {
    pub token: Seq<u8>,
    pub from: Seq<u8>,
    pub to: Seq<u8>,
    pub amount: i128,
}

/// A transfer of `amount` units of the token contract `token` from `from`
/// to `to`, which an invocation makes through the token's interface.
#[derive(Clone, Debug, PartialEq, Eq)]
pub struct TokenTransfer {
    pub token: Address,
    pub from: Address,
    pub to: Address,
    pub amount: i128,
}

impl View for TokenTransfer {
    type V = TransferModel;

    open spec fn view(&self) -> TransferModel {
        TransferModel {
            token: self.token@,
            from: self.from@,
            to: self.to@,
            amount: self.amount,
        }
    }
}

} // verus!
