use vstd::prelude::*;

use crate::common::{copy_bytes, Address};

verus! {

/// The abstract value of a [`VerificationMarker`].
pub struct MarkerModel {
    pub kind: Seq<u8>,
    pub issuer: Seq<u8>,
    pub issued_ledger: u32,
}

/// An attestation attached to a farmer's record: its kind, the address that
/// issued it and the ledger at which it was issued.
#[derive(Clone, Debug, PartialEq, Eq)]
pub struct VerificationMarker {
    pub kind: Vec<u8>,
    pub issuer: Address,
    pub issued_ledger: u32,
}

impl View for VerificationMarker {
    type V = MarkerModel;

    open spec fn view(&self) -> MarkerModel {
        MarkerModel { kind: self.kind@, issuer: self.issuer@, issued_ledger: self.issued_ledger }
    }
}

impl VerificationMarker {
    pub fn copy(&self) -> (r: VerificationMarker)
        ensures
            r@ == self@,
    {
        VerificationMarker {
            kind: copy_bytes(&self.kind),
            issuer: self.issuer.copy(),
            issued_ledger: self.issued_ledger,
        }
    }
}

/// The views of a list of markers.
pub open spec fn markers_view(ms: Seq<VerificationMarker>) -> Seq<MarkerModel> {
    ms.map_values(|m: VerificationMarker| m@)
}

/// A fresh copy of a list of markers.
pub fn copy_markers(ms: &Vec<VerificationMarker>) -> (r: Vec<VerificationMarker>)
    ensures
        markers_view(r@) == markers_view(ms@),
{
    let mut out: Vec<VerificationMarker> = Vec::new();
    let n = ms.len();
    let mut i: usize = 0;
    while i < n
        invariant
            n == ms@.len(),
            i <= n,
            markers_view(out@) == markers_view(ms@.subrange(0, i as int)),
        decreases n - i,
    {
        let m = ms[i].copy();
        let ghost prev = out@;
        out.push(m);
        assert(markers_view(out@) =~= markers_view(prev).push(ms@[i as int]@));
        assert(markers_view(ms@.subrange(0, i + 1)) =~= markers_view(ms@.subrange(0, i as int)).push(
            ms@[i as int]@,
        ));
        i = i + 1;
    }
    assert(ms@.subrange(0, n as int) =~= ms@);
    out
}

/// The abstract value of a [`Farmer`].
pub struct FarmerModel {
    pub address: Seq<u8>,
    pub metadata_hash: Seq<u8>,
    pub verification_markers: Seq<MarkerModel>,
    pub created_ledger: u32,
    pub updated_ledger: u32,
}

/// A registered farmer: the farmer's address, the hash of the off-chain
/// metadata, the markers attached so far (oldest first), and the ledgers at
/// which the record was created and last changed.
#[derive(Clone, Debug, PartialEq, Eq)]
pub struct Farmer {
    pub address: Address,
    pub metadata_hash: Vec<u8>,
    pub verification_markers: Vec<VerificationMarker>,
    pub created_ledger: u32,
    pub updated_ledger: u32,
}

impl View for Farmer {
    type V = FarmerModel;

    open spec fn view(&self) -> FarmerModel {
        FarmerModel {
            address: self.address@,
            metadata_hash: self.metadata_hash@,
            verification_markers: markers_view(self.verification_markers@),
            created_ledger: self.created_ledger,
            updated_ledger: self.updated_ledger,
        }
    }
}

impl Farmer {
    pub fn copy(&self) -> (r: Farmer)
        ensures
            r@ == self@,
    {
        Farmer {
            address: self.address.copy(),
            metadata_hash: copy_bytes(&self.metadata_hash),
            verification_markers: copy_markers(&self.verification_markers),
            created_ledger: self.created_ledger,
            updated_ledger: self.updated_ledger,
        }
    }
}

} // verus!
