use vstd::prelude::*;

use crate::common::Address;
use crate::identity::types::{Farmer, FarmerModel, MarkerModel, VerificationMarker};

verus! {

/// Published when the contract is initialized.
#[derive(Clone, Debug, PartialEq, Eq)]
pub struct Initialized {
    pub admin: Address,
}

/// Published when a farmer registers.
#[derive(Clone, Debug, PartialEq, Eq)]
pub struct FarmerRegistered {
    pub farmer: Address,
    pub record: Farmer,
}

/// Published when a farmer's metadata hash changes.
#[derive(Clone, Debug, PartialEq, Eq)]
pub struct FarmerMetadataUpdated {
    pub farmer: Address,
    pub record: Farmer,
}

/// Published when a verification marker is attached to a farmer.
#[derive(Clone, Debug, PartialEq, Eq)]
pub struct VerificationMarkerSet {
    pub farmer: Address,
    pub marker: VerificationMarker,
}

/// One published event of the identity contract.
#[derive(Clone, Debug, PartialEq, Eq)]
pub enum IdentityEvent {
    Initialized(Initialized),
    FarmerRegistered(FarmerRegistered),
    FarmerMetadataUpdated(FarmerMetadataUpdated),
    VerificationMarkerSet(VerificationMarkerSet),
}

/// The abstract value of an [`IdentityEvent`].
pub enum IdentityEventModel {
    Initialized { admin: Seq<u8> },
    FarmerRegistered { farmer: Seq<u8>, record: FarmerModel },
    FarmerMetadataUpdated { farmer: Seq<u8>, record: FarmerModel },
    VerificationMarkerSet { farmer: Seq<u8>, marker: MarkerModel },
}

impl View for IdentityEvent {
    type V = IdentityEventModel;

    open spec fn view(&self) -> IdentityEventModel {
        match self {
            IdentityEvent::Initialized(e) => IdentityEventModel::Initialized { admin: e.admin@ },
            IdentityEvent::FarmerRegistered(e) => IdentityEventModel::FarmerRegistered {
                farmer: e.farmer@,
                record: e.record@,
            },
            IdentityEvent::FarmerMetadataUpdated(e) => IdentityEventModel::FarmerMetadataUpdated {
                farmer: e.farmer@,
                record: e.record@,
            },
            IdentityEvent::VerificationMarkerSet(e) => IdentityEventModel::VerificationMarkerSet {
                farmer: e.farmer@,
                marker: e.marker@,
            },
        }
    }
}

/// The views of a list of published events, oldest first.
pub open spec fn event_log(log: Seq<IdentityEvent>) -> Seq<IdentityEventModel> {
    log.map_values(|e: IdentityEvent| e@)
}

fn publish(log: &mut Vec<IdentityEvent>, e: IdentityEvent)
    ensures
        event_log(final(log)@) == event_log(old(log)@).push(e@),
{
    let ghost before = log@;
    log.push(e);
    assert(event_log(log@) =~= event_log(before).push(e@));
}

pub fn initialized(log: &mut Vec<IdentityEvent>, admin: &Address)
    ensures
        event_log(final(log)@) == event_log(old(log)@).push(
            IdentityEventModel::Initialized { admin: admin@ },
        ),
{
    publish(log, IdentityEvent::Initialized(Initialized { admin: admin.copy() }));
}

pub fn farmer_registered(log: &mut Vec<IdentityEvent>, farmer: &Address, record: &Farmer)
    ensures
        event_log(final(log)@) == event_log(old(log)@).push(
            IdentityEventModel::FarmerRegistered { farmer: farmer@, record: record@ },
        ),
{
    publish(
        log,
        IdentityEvent::FarmerRegistered(
            FarmerRegistered { farmer: farmer.copy(), record: record.copy() },
        ),
    );
}

pub fn metadata_updated(log: &mut Vec<IdentityEvent>, farmer: &Address, record: &Farmer)
    ensures
        event_log(final(log)@) == event_log(old(log)@).push(
            IdentityEventModel::FarmerMetadataUpdated { farmer: farmer@, record: record@ },
        ),
{
    publish(
        log,
        IdentityEvent::FarmerMetadataUpdated(
            FarmerMetadataUpdated { farmer: farmer.copy(), record: record.copy() },
        ),
    );
}

pub fn verification_marker_set(
    log: &mut Vec<IdentityEvent>,
    farmer: &Address,
    marker: &VerificationMarker,
)
    ensures
        event_log(final(log)@) == event_log(old(log)@).push(
            IdentityEventModel::VerificationMarkerSet { farmer: farmer@, marker: marker@ },
        ),
{
    publish(
        log,
        IdentityEvent::VerificationMarkerSet(
            VerificationMarkerSet { farmer: farmer.copy(), marker: marker.copy() },
        ),
    );
}

} // verus!
