use vstd::prelude::*;

verus! {

/// The error codes the verification contract rejects a call with.
#[derive(Clone, Copy, Debug, PartialEq, Eq, PartialOrd, Ord)]
pub enum VerificationError {
    NotInitialized,
    Unauthorized,
    VerificationNotFound,
    InvalidInput,
}

impl VerificationError {
    pub open spec fn spec_code(self) -> u32 {
        match self {
            VerificationError::NotInitialized => 1,
            VerificationError::Unauthorized => 2,
            VerificationError::VerificationNotFound => 3,
            VerificationError::InvalidInput => 4,
        }
    }

    /// The numeric contract error code that the ledger reports.
    pub fn code(&self) -> (r: u32)
        ensures
            r == self.spec_code(),
    {
        match self {
            VerificationError::NotInitialized => 1,
            VerificationError::Unauthorized => 2,
            VerificationError::VerificationNotFound => 3,
            VerificationError::InvalidInput => 4,
        }
    }
}

} // verus!
