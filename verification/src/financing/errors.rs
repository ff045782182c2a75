use vstd::prelude::*;

verus! {

/// The error codes the financing contract rejects a call with.
#[derive(Clone, Copy, Debug, PartialEq, Eq, PartialOrd, Ord)]
pub enum FinancingError {
    NotInitialized,
    Unauthorized,
    FinancingNotFound,
    InvalidInput,
    MilestoneDeadlineExceeded,
}

impl FinancingError {
    pub open spec fn spec_code(self) -> u32 {
        match self {
            FinancingError::NotInitialized => 1,
            FinancingError::Unauthorized => 2,
            FinancingError::FinancingNotFound => 3,
            FinancingError::InvalidInput => 4,
            FinancingError::MilestoneDeadlineExceeded => 5,
        }
    }

    /// The numeric contract error code that the ledger reports.
    pub fn code(&self) -> (r: u32)
        ensures
            r == self.spec_code(),
    {
        match self {
            FinancingError::NotInitialized => 1,
            FinancingError::Unauthorized => 2,
            FinancingError::FinancingNotFound => 3,
            FinancingError::InvalidInput => 4,
            FinancingError::MilestoneDeadlineExceeded => 5,
        }
    }
}

} // verus!
