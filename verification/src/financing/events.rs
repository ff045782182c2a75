use vstd::prelude::*;

use crate::common::Address;
use crate::financing::types::{Financing, FinancingModel};

verus! {

/// Published when the contract is initialized.
#[derive(Clone, Debug, PartialEq, Eq)]
pub struct Initialized {
    pub admin: Address,
}

/// Published when a financing is created.
#[derive(Clone, Debug, PartialEq, Eq)]
pub struct FinancingCreated {
    pub financing_id: u64,
    pub funder: Address,
    pub financing: Financing,
}

/// Published when a drawdown is recorded.
#[derive(Clone, Debug, PartialEq, Eq)]
pub struct FinancingDeposited {
    pub financing_id: u64,
    pub from: Address,
    pub amount: i128,
    pub new_drawn_amount: i128,
}

/// Published when a milestone is proven.
#[derive(Clone, Debug, PartialEq, Eq)]
pub struct FinancingReleased {
    pub financing_id: u64,
    pub releaser: Address,
    pub released_amount: i128,
}

/// Published when the undrawn amount is refunded.
#[derive(Clone, Debug, PartialEq, Eq)]
pub struct FinancingRefunded {
    pub financing_id: u64,
    pub refundee: Address,
    pub refunded_amount: i128,
    pub defaulted: bool,
    pub defaulted_ledger: u32,
}

/// One published event of the financing contract.
#[derive(Clone, Debug, PartialEq, Eq)]
pub enum FinancingEvent {
    Initialized(Initialized),
    FinancingCreated(FinancingCreated),
    FinancingDeposited(FinancingDeposited),
    FinancingReleased(FinancingReleased),
    FinancingRefunded(FinancingRefunded),
}

/// The abstract value of a [`FinancingEvent`].
pub enum FinancingEventModel {
    Initialized { admin: Seq<u8> },
    FinancingCreated { financing_id: u64, funder: Seq<u8>, financing: FinancingModel },
    FinancingDeposited {
        financing_id: u64,
        from: Seq<u8>,
        amount: i128,
        new_drawn_amount: i128,
    },
    FinancingReleased { financing_id: u64, releaser: Seq<u8>, released_amount: i128 },
    FinancingRefunded {
        financing_id: u64,
        refundee: Seq<u8>,
        refunded_amount: i128,
        defaulted: bool,
        defaulted_ledger: u32,
    },
}

impl View for FinancingEvent {
    type V = FinancingEventModel;

    open spec fn view(&self) -> FinancingEventModel {
        match self {
            FinancingEvent::Initialized(e) => FinancingEventModel::Initialized { admin: e.admin@ },
            FinancingEvent::FinancingCreated(e) => FinancingEventModel::FinancingCreated {
                financing_id: e.financing_id,
                funder: e.funder@,
                financing: e.financing@,
            },
            FinancingEvent::FinancingDeposited(e) => FinancingEventModel::FinancingDeposited {
                financing_id: e.financing_id,
                from: e.from@,
                amount: e.amount,
                new_drawn_amount: e.new_drawn_amount,
            },
            FinancingEvent::FinancingReleased(e) => FinancingEventModel::FinancingReleased {
                financing_id: e.financing_id,
                releaser: e.releaser@,
                released_amount: e.released_amount,
            },
            FinancingEvent::FinancingRefunded(e) => FinancingEventModel::FinancingRefunded {
                financing_id: e.financing_id,
                refundee: e.refundee@,
                refunded_amount: e.refunded_amount,
                defaulted: e.defaulted,
                defaulted_ledger: e.defaulted_ledger,
            },
        }
    }
}

/// The views of a list of published events, oldest first.
pub open spec fn event_log(log: Seq<FinancingEvent>) -> Seq<FinancingEventModel> {
    log.map_values(|e: FinancingEvent| e@)
}

fn publish(log: &mut Vec<FinancingEvent>, e: FinancingEvent)
    ensures
        event_log(final(log)@) == event_log(old(log)@).push(e@),
{
    let ghost before = log@;
    log.push(e);
    assert(event_log(log@) =~= event_log(before).push(e@));
}

pub fn initialized(log: &mut Vec<FinancingEvent>, admin: &Address)
    ensures
        event_log(final(log)@) == event_log(old(log)@).push(
            FinancingEventModel::Initialized { admin: admin@ },
        ),
{
    publish(log, FinancingEvent::Initialized(Initialized { admin: admin.copy() }));
}

pub fn financing_created(
    log: &mut Vec<FinancingEvent>,
    financing_id: u64,
    funder: &Address,
    financing: &Financing,
)
    ensures
        event_log(final(log)@) == event_log(old(log)@).push(
            FinancingEventModel::FinancingCreated {
                financing_id,
                funder: funder@,
                financing: financing@,
            },
        ),
{
    publish(
        log,
        FinancingEvent::FinancingCreated(
            FinancingCreated { financing_id, funder: funder.copy(), financing: financing.copy() },
        ),
    );
}

pub fn financing_deposited(
    log: &mut Vec<FinancingEvent>,
    financing_id: u64,
    from: &Address,
    amount: i128,
    new_drawn_amount: i128,
)
    ensures
        event_log(final(log)@) == event_log(old(log)@).push(
            FinancingEventModel::FinancingDeposited {
                financing_id,
                from: from@,
                amount,
                new_drawn_amount,
            },
        ),
{
    publish(
        log,
        FinancingEvent::FinancingDeposited(
            FinancingDeposited { financing_id, from: from.copy(), amount, new_drawn_amount },
        ),
    );
}

pub fn financing_released(
    log: &mut Vec<FinancingEvent>,
    financing_id: u64,
    releaser: &Address,
    released_amount: i128,
)
    ensures
        event_log(final(log)@) == event_log(old(log)@).push(
            FinancingEventModel::FinancingReleased {
                financing_id,
                releaser: releaser@,
                released_amount,
            },
        ),
{
    publish(
        log,
        FinancingEvent::FinancingReleased(
            FinancingReleased { financing_id, releaser: releaser.copy(), released_amount },
        ),
    );
}

pub fn financing_refunded(
    log: &mut Vec<FinancingEvent>,
    financing_id: u64,
    refundee: &Address,
    refunded_amount: i128,
    defaulted: bool,
    defaulted_ledger: u32,
)
    ensures
        event_log(final(log)@) == event_log(old(log)@).push(
            FinancingEventModel::FinancingRefunded {
                financing_id,
                refundee: refundee@,
                refunded_amount,
                defaulted,
                defaulted_ledger,
            },
        ),
{
    publish(
        log,
        FinancingEvent::FinancingRefunded(
            FinancingRefunded {
                financing_id,
                refundee: refundee.copy(),
                refunded_amount,
                defaulted,
                defaulted_ledger,
            },
        ),
    );
}

} // verus!
