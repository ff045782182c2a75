use vstd::prelude::*;

verus! {

/// The error codes the identity contract rejects a call with.
#[derive(Clone, Copy, Debug, PartialEq, Eq, PartialOrd, Ord)]
pub enum IdentityError {
    NotInitialized,
    AlreadyRegistered,
    FarmerNotFound,
    Unauthorized,
}

impl IdentityError {
    pub open spec fn spec_code(self) -> u32 {
        match self {
            IdentityError::NotInitialized => 1,
            IdentityError::AlreadyRegistered => 2,
            IdentityError::FarmerNotFound => 3,
            IdentityError::Unauthorized => 4,
        }
    }

    /// The numeric contract error code that the ledger reports.
    pub fn code(&self) -> (r: u32)
        ensures
            r == self.spec_code(),
    {
        match self {
            IdentityError::NotInitialized => 1,
            IdentityError::AlreadyRegistered => 2,
            IdentityError::FarmerNotFound => 3,
            IdentityError::Unauthorized => 4,
        }
    }
}

} // verus!
