use vstd::prelude::*;

verus! {

/// The error codes the escrow contract rejects a call with.
#[derive(Clone, Copy, Debug, PartialEq, Eq, PartialOrd, Ord)]
pub enum EscrowError {
    NotInitialized,
    Unauthorized,
    EscrowNotFound,
    InsufficientBalance,
    ConditionNotMet,
    AlreadyFullyReleased,
    TimeoutNotElapsed,
    InvalidInput,
}

impl EscrowError {
    pub open spec fn spec_code(self) -> u32 {
        match self {
            EscrowError::NotInitialized => 1,
            EscrowError::Unauthorized => 2,
            EscrowError::EscrowNotFound => 3,
            EscrowError::InsufficientBalance => 4,
            EscrowError::ConditionNotMet => 5,
            EscrowError::AlreadyFullyReleased => 6,
            EscrowError::TimeoutNotElapsed => 7,
            EscrowError::InvalidInput => 8,
        }
    }

    /// The numeric contract error code that the ledger reports.
    pub fn code(&self) -> (r: u32)
        ensures
            r == self.spec_code(),
    {
        match self {
            EscrowError::NotInitialized => 1,
            EscrowError::Unauthorized => 2,
            EscrowError::EscrowNotFound => 3,
            EscrowError::InsufficientBalance => 4,
            EscrowError::ConditionNotMet => 5,
            EscrowError::AlreadyFullyReleased => 6,
            EscrowError::TimeoutNotElapsed => 7,
            EscrowError::InvalidInput => 8,
        }
    }
}

} // verus!
