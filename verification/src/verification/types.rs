use vstd::prelude::*;

use crate::common::{copy_bytes, copy_ids, Address};

verus! {

/// The abstract value of a [`Verification`].
pub struct VerificationModel {
    pub id: u64,
    pub batch: Seq<u8>,
    pub subject: Seq<u8>,
    pub proof_hash: Seq<u8>,
    pub issuer: Seq<u8>,
    pub issued_ledger: u32,
    pub revoked: bool,
    pub revoked_ledger: Option<u32>,
}

/// A verification record issued against a batch reference.
#[derive(Clone, Debug, PartialEq, Eq)]
pub struct Verification {
    pub id: u64,
    pub batch: Vec<u8>,
    pub subject: Address,
    pub proof_hash: Vec<u8>,
    pub issuer: Address,
    pub issued_ledger: u32,
    pub revoked: bool,
    pub revoked_ledger: Option<u32>,
}

impl View for Verification {
    type V = VerificationModel;

    open spec fn view(&self) -> VerificationModel {
        VerificationModel {
            id: self.id,
            batch: self.batch@,
            subject: self.subject@,
            proof_hash: self.proof_hash@,
            issuer: self.issuer@,
            issued_ledger: self.issued_ledger,
            revoked: self.revoked,
            revoked_ledger: self.revoked_ledger,
        }
    }
}

impl Verification {
    pub fn copy(&self) -> (r: Verification)
        ensures
            r@ == self@,
    {
        Verification {
            id: self.id,
            batch: copy_bytes(&self.batch),
            subject: self.subject.copy(),
            proof_hash: copy_bytes(&self.proof_hash),
            issuer: self.issuer.copy(),
            issued_ledger: self.issued_ledger,
            revoked: self.revoked,
            revoked_ledger: self.revoked_ledger,
        }
    }
}

/// A list of verification identifiers.
#[derive(Clone, Debug, PartialEq, Eq)]
pub struct VerificationIdList(pub Vec<u64>);

impl View for VerificationIdList {
    type V = Seq<u64>;

    open spec fn view(&self) -> Seq<u64> {
        self.0@
    }
}

impl VerificationIdList {
    pub fn copy(&self) -> (r: VerificationIdList)
        ensures
            r@ == self@,
    {
        VerificationIdList(copy_ids(&self.0))
    }
}

} // verus!
