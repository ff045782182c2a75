use vstd::prelude::*;

use crate::common::Address;
use crate::escrow::types::{Escrow, EscrowModel};

verus! {

/// Published when the contract is initialized.
#[derive(Clone, Debug, PartialEq, Eq)]
pub struct Initialized {
    pub admin: Address,
}

/// Published when an escrow is created.
#[derive(Clone, Debug, PartialEq, Eq)]
pub struct EscrowCreated {
    pub escrow_id: u64,
    pub depositor: Address,
    pub record: Escrow,
}

/// Published when funds are added to an escrow.
#[derive(Clone, Debug, PartialEq, Eq)]
pub struct EscrowDeposited {
    pub escrow_id: u64,
    pub from: Address,
    pub amount: i128,
}

/// Published when an escrow's remaining funds go to the beneficiary.
#[derive(Clone, Debug, PartialEq, Eq)]
pub struct EscrowReleased {
    pub escrow_id: u64,
    pub releaser: Address,
    pub amount: i128,
}

/// Published when an escrow's remaining funds go back to the depositor.
#[derive(Clone, Debug, PartialEq, Eq)]
pub struct EscrowRefunded {
    pub escrow_id: u64,
    pub refundee: Address,
    pub amount: i128,
}

/// One published event of the escrow contract.
#[derive(Clone, Debug, PartialEq, Eq)]
pub enum EscrowEvent {
    Initialized(Initialized),
    EscrowCreated(EscrowCreated),
    EscrowDeposited(EscrowDeposited),
    EscrowReleased(EscrowReleased),
    EscrowRefunded(EscrowRefunded),
}

/// The abstract value of an [`EscrowEvent`].
pub enum EscrowEventModel {
    Initialized { admin: Seq<u8> },
    EscrowCreated { escrow_id: u64, depositor: Seq<u8>, record: EscrowModel },
    EscrowDeposited { escrow_id: u64, from: Seq<u8>, amount: i128 },
    EscrowReleased { escrow_id: u64, releaser: Seq<u8>, amount: i128 },
    EscrowRefunded { escrow_id: u64, refundee: Seq<u8>, amount: i128 },
}

impl View for EscrowEvent {
    type V = EscrowEventModel;

    open spec fn view(&self) -> EscrowEventModel {
        match self {
            EscrowEvent::Initialized(e) => EscrowEventModel::Initialized { admin: e.admin@ },
            EscrowEvent::EscrowCreated(e) => EscrowEventModel::EscrowCreated {
                escrow_id: e.escrow_id,
                depositor: e.depositor@,
                record: e.record@,
            },
            EscrowEvent::EscrowDeposited(e) => EscrowEventModel::EscrowDeposited {
                escrow_id: e.escrow_id,
                from: e.from@,
                amount: e.amount,
            },
            EscrowEvent::EscrowReleased(e) => EscrowEventModel::EscrowReleased {
                escrow_id: e.escrow_id,
                releaser: e.releaser@,
                amount: e.amount,
            },
            EscrowEvent::EscrowRefunded(e) => EscrowEventModel::EscrowRefunded {
                escrow_id: e.escrow_id,
                refundee: e.refundee@,
                amount: e.amount,
            },
        }
    }
}

/// The views of a list of published events, oldest first.
pub open spec fn event_log(log: Seq<EscrowEvent>) -> Seq<EscrowEventModel> {
    log.map_values(|e: EscrowEvent| e@)
}

fn publish(log: &mut Vec<EscrowEvent>, e: EscrowEvent)
    ensures
        event_log(final(log)@) == event_log(old(log)@).push(e@),
{
    let ghost before = log@;
    log.push(e);
    assert(event_log(log@) =~= event_log(before).push(e@));
}

pub fn initialized(log: &mut Vec<EscrowEvent>, admin: &Address)
    ensures
        event_log(final(log)@) == event_log(old(log)@).push(
            EscrowEventModel::Initialized { admin: admin@ },
        ),
{
    publish(log, EscrowEvent::Initialized(Initialized { admin: admin.copy() }));
}

pub fn escrow_created(log: &mut Vec<EscrowEvent>, id: u64, depositor: &Address, record: &Escrow)
    ensures
        event_log(final(log)@) == event_log(old(log)@).push(
            EscrowEventModel::EscrowCreated {
                escrow_id: id,
                depositor: depositor@,
                record: record@,
            },
        ),
{
    publish(
        log,
        EscrowEvent::EscrowCreated(
            EscrowCreated { escrow_id: id, depositor: depositor.copy(), record: record.copy() },
        ),
    );
}

pub fn escrow_deposited(log: &mut Vec<EscrowEvent>, id: u64, from: &Address, amount: i128)
    ensures
        event_log(final(log)@) == event_log(old(log)@).push(
            EscrowEventModel::EscrowDeposited { escrow_id: id, from: from@, amount },
        ),
{
    publish(
        log,
        EscrowEvent::EscrowDeposited(EscrowDeposited { escrow_id: id, from: from.copy(), amount }),
    );
}

pub fn escrow_released(log: &mut Vec<EscrowEvent>, id: u64, releaser: &Address, amount: i128)
    ensures
        event_log(final(log)@) == event_log(old(log)@).push(
            EscrowEventModel::EscrowReleased { escrow_id: id, releaser: releaser@, amount },
        ),
{
    publish(
        log,
        EscrowEvent::EscrowReleased(
            EscrowReleased { escrow_id: id, releaser: releaser.copy(), amount },
        ),
    );
}

pub fn escrow_refunded(log: &mut Vec<EscrowEvent>, id: u64, refundee: &Address, amount: i128)
    ensures
        event_log(final(log)@) == event_log(old(log)@).push(
            EscrowEventModel::EscrowRefunded { escrow_id: id, refundee: refundee@, amount },
        ),
{
    publish(
        log,
        EscrowEvent::EscrowRefunded(
            EscrowRefunded { escrow_id: id, refundee: refundee.copy(), amount },
        ),
    );
}

} // verus!
