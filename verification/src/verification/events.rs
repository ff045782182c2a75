use vstd::prelude::*;

use crate::common::Address;
use crate::verification::types::{Verification, VerificationModel};

verus! {

/// Published when the contract is initialized.
#[derive(Clone, Debug, PartialEq, Eq)]
pub struct Initialized {
    pub admin: Address,
}

/// Published when a verification record is issued.
#[derive(Clone, Debug, PartialEq, Eq)]
pub struct VerificationCreated {
    pub verification_id: u64,
    pub record: Verification,
}

/// Published when a verification record is revoked.
#[derive(Clone, Debug, PartialEq, Eq)]
pub struct VerificationRevoked {
    pub verification_id: u64,
    pub record: Verification,
}

/// One published event of the verification contract.
#[derive(Clone, Debug, PartialEq, Eq)]
pub enum VerificationEvent {
    Initialized(Initialized),
    VerificationCreated(VerificationCreated),
    VerificationRevoked(VerificationRevoked),
}

/// The abstract value of a [`VerificationEvent`].
pub enum VerificationEventModel {
    Initialized { admin: Seq<u8> },
    VerificationCreated { verification_id: u64, record: VerificationModel },
    VerificationRevoked { verification_id: u64, record: VerificationModel },
}

impl View for VerificationEvent {
    type V = VerificationEventModel;

    open spec fn view(&self) -> VerificationEventModel {
        match self {
            VerificationEvent::Initialized(e) => VerificationEventModel::Initialized {
                admin: e.admin@,
            },
            VerificationEvent::VerificationCreated(e) => VerificationEventModel::VerificationCreated {
                verification_id: e.verification_id,
                record: e.record@,
            },
            VerificationEvent::VerificationRevoked(e) => VerificationEventModel::VerificationRevoked {
                verification_id: e.verification_id,
                record: e.record@,
            },
        }
    }
}

/// The views of a list of published events, oldest first.
pub open spec fn event_log(log: Seq<VerificationEvent>) -> Seq<VerificationEventModel> {
    log.map_values(|e: VerificationEvent| e@)
}

fn publish(log: &mut Vec<VerificationEvent>, e: VerificationEvent)
    ensures
        event_log(final(log)@) == event_log(old(log)@).push(e@),
{
    let ghost before = log@;
    log.push(e);
    assert(event_log(log@) =~= event_log(before).push(e@));
}

pub fn initialized(log: &mut Vec<VerificationEvent>, admin: &Address)
    ensures
        event_log(final(log)@) == event_log(old(log)@).push(
            VerificationEventModel::Initialized { admin: admin@ },
        ),
{
    publish(log, VerificationEvent::Initialized(Initialized { admin: admin.copy() }));
}

pub fn verification_created(log: &mut Vec<VerificationEvent>, id: u64, record: &Verification)
    ensures
        event_log(final(log)@) == event_log(old(log)@).push(
            VerificationEventModel::VerificationCreated { verification_id: id, record: record@ },
        ),
{
    publish(
        log,
        VerificationEvent::VerificationCreated(
            VerificationCreated { verification_id: id, record: record.copy() },
        ),
    );
}

pub fn verification_revoked(log: &mut Vec<VerificationEvent>, id: u64, record: &Verification)
    ensures
        event_log(final(log)@) == event_log(old(log)@).push(
            VerificationEventModel::VerificationRevoked { verification_id: id, record: record@ },
        ),
{
    publish(
        log,
        VerificationEvent::VerificationRevoked(
            VerificationRevoked { verification_id: id, record: record.copy() },
        ),
    );
}

} // verus!
