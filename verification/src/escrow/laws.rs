//! Properties of the escrow contract that span calls.
use vstd::prelude::*;

use crate::common::{EnvModel, Fault};
use crate::escrow::{
    create_escrow_spec, deposit_spec, escrow_sound, escrows_sound, get_escrow_spec,
    get_escrows_for_booking_spec, initialize_spec, refund_spec, release_spec,
    storage_consistent, ConditionModel, EscrowContractModel, EscrowError,
    EscrowEventModel, EscrowModel, EscrowResult, TransferModel, KIND_MANUAL, KIND_MILESTONE,
    KIND_TIMEOUT,
};
use crate::table::listed;

verus! {

/// A state-changing call of the escrow contract.
pub enum EscrowCall {
    Initialize { admin: Seq<u8>, token: Seq<u8> },
    CreateEscrow {
        depositor: Seq<u8>,
        beneficiary: Seq<u8>,
        amount: i128,
        condition: ConditionModel,
        booking_ref: Seq<u8>,
    },
    Deposit { id: u64, from: Seq<u8>, amount: i128 },
    Release { id: u64, releaser: Seq<u8>, proof_hash: Seq<u8> },
    Refund { id: u64, refundee: Seq<u8> },
}

/// The state a call leaves behind, or why it failed.
pub open spec fn escrow_step(s: EscrowContractModel, env: EnvModel, call: EscrowCall) -> EscrowResult<
    EscrowContractModel,
> {
    match call {
        EscrowCall::Initialize { admin, token } => initialize_spec(s, env, admin, token),
        EscrowCall::CreateEscrow { depositor, beneficiary, amount, condition, booking_ref } => {
            match create_escrow_spec(s, env, depositor, beneficiary, amount, condition, booking_ref) {
                Ok((s2, _)) => Ok(s2),
                Err(e) => Err(e),
            }
        },
        EscrowCall::Deposit { id, from, amount } => deposit_spec(s, env, id, from, amount),
        EscrowCall::Release { id, releaser, proof_hash } => release_spec(
            s,
            env,
            id,
            releaser,
            proof_hash,
        ),
        EscrowCall::Refund { id, refundee } => refund_spec(s, env, id, refundee),
    }
}

/// The call does not issue an identifier that is already in use (only a
/// creation after the counter was restarted by `initialize` does).
pub open spec fn issues_fresh_id(s: EscrowContractModel, call: EscrowCall) -> bool {
    call is CreateEscrow ==> !s.storage.escrows.contains_key((match s.storage.next_id {
        Some(n) => n,
        None => 1u64,
    }))
}

/// Every call keeps every escrow sound: a positive deposited amount of
/// which between nothing and all has been paid out.
pub proof fn law_escrows_stay_sound(s: EscrowContractModel, env: EnvModel, call: EscrowCall)
    requires
        escrows_sound(s.storage.escrows),
        escrow_step(s, env, call) is Ok,
    ensures
        escrows_sound(escrow_step(s, env, call).unwrap().storage.escrows),
{
    let s2 = escrow_step(s, env, call).unwrap();
    assert forall|id: u64| #[trigger] s2.storage.escrows.contains_key(id) implies escrow_sound(
        s2.storage.escrows[id],
    ) by {
        if s.storage.escrows.contains_key(id) {
            assert(escrow_sound(s.storage.escrows[id]));
        }
    }
}

/// Creating an escrow pulls exactly its amount from the depositor into the
/// contract, stores it in the stored token under the current counter value
/// with nothing paid out, created and updated at this ledger, advances the
/// counter, lists it last under its booking and publishes the creation.
pub proof fn law_created_escrow_is_found(
    s: EscrowContractModel,
    env: EnvModel,
    depositor: Seq<u8>,
    beneficiary: Seq<u8>,
    amount: i128,
    condition: ConditionModel,
    booking_ref: Seq<u8>,
)
    requires
        create_escrow_spec(s, env, depositor, beneficiary, amount, condition, booking_ref) is Ok,
    ensures
        ({
            let (s2, id) = create_escrow_spec(
                s,
                env,
                depositor,
                beneficiary,
                amount,
                condition,
                booking_ref,
            ).unwrap();
            let rec = get_escrow_spec(s2, id).unwrap();
            &&& id == (match s.storage.next_id {
        Some(n) => n,
        None => 1u64,
    })
            &&& Some(rec.token) == s.storage.token
            &&& get_escrow_spec(s2, id) == Ok::<EscrowModel, Fault<EscrowError>>(
                EscrowModel {
                    id,
                    depositor,
                    beneficiary,
                    token: rec.token,
                    amount,
                    released_amount: 0,
                    booking_ref,
                    condition,
                    created_ledger: env.sequence,
                    updated_ledger: env.sequence,
                },
            )
            &&& s2.storage.next_id == Some((id + 1) as u64)
            &&& s2.events == s.events.push(
                EscrowEventModel::EscrowCreated { escrow_id: id, depositor, record: rec },
            )
            &&& get_escrows_for_booking_spec(s2, booking_ref) == get_escrows_for_booking_spec(
                s,
                booking_ref,
            ).push(id)
            &&& s2.transfers == s.transfers.push(
                TransferModel { token: rec.token, from: depositor, to: env.contract, amount },
            )
        }),
{
}

/// A deposit adds to the escrow exactly what it pulls from the sender.
pub proof fn law_deposit_adds_what_it_pulls(
    s: EscrowContractModel,
    env: EnvModel,
    id: u64,
    from: Seq<u8>,
    amount: i128,
)
    requires
        deposit_spec(s, env, id, from, amount) is Ok,
    ensures
        ({
            let s2 = deposit_spec(s, env, id, from, amount).unwrap();
            &&& amount > 0
            &&& s2.storage.escrows[id].amount == s.storage.escrows[id].amount + amount
            &&& s2.storage.escrows[id].released_amount == s.storage.escrows[id].released_amount
            &&& s2.transfers == s.transfers.push(
                TransferModel {
                    token: s.storage.token.unwrap(),
                    from,
                    to: env.contract,
                    amount,
                },
            )
        }),
{
}

/// A release pays everything the escrow still holds, and nothing else, to
/// the beneficiary; afterwards the escrow holds nothing.
pub proof fn law_release_pays_out_the_rest(
    s: EscrowContractModel,
    env: EnvModel,
    id: u64,
    releaser: Seq<u8>,
    proof_hash: Seq<u8>,
)
    requires
        release_spec(s, env, id, releaser, proof_hash) is Ok,
    ensures
        ({
            let s2 = release_spec(s, env, id, releaser, proof_hash).unwrap();
            let before = s.storage.escrows[id];
            &&& (before.amount - before.released_amount) > 0
            &&& (s2.storage.escrows[id].amount - s2.storage.escrows[id].released_amount) == 0
            &&& s2.transfers == s.transfers.push(
                TransferModel {
                    token: s.storage.token.unwrap(),
                    from: env.contract,
                    to: before.beneficiary,
                    amount: (before.amount - before.released_amount) as i128,
                },
            )
        }),
{
}

/// A release happens only as the escrow's condition allows: by the
/// configured releaser for a manual escrow, by the configured releaser with
/// a proof hash for a milestone escrow, from the timeout ledger on for a
/// timeout escrow, and never for any other kind.
pub proof fn law_release_respects_condition(
    s: EscrowContractModel,
    env: EnvModel,
    id: u64,
    releaser: Seq<u8>,
    proof_hash: Seq<u8>,
)
    requires
        release_spec(s, env, id, releaser, proof_hash) is Ok,
    ensures
        ({
            let c = s.storage.escrows[id].condition;
            &&& c.kind == KIND_MANUAL || c.kind == KIND_MILESTONE || c.kind == KIND_TIMEOUT
            &&& (c.kind == KIND_MANUAL ==> releaser == c.releaser)
            &&& (c.kind == KIND_MILESTONE ==> releaser == c.releaser && proof_hash.len() > 0)
            &&& (c.kind == KIND_TIMEOUT ==> env.sequence >= c.timeout_ledger)
        }),
{
}

/// A refund returns everything the escrow still holds to its depositor, and
/// only the depositor gets one: before anything was paid out, or, for a
/// timeout escrow, from the timeout ledger on.
pub proof fn law_refund_returns_the_rest_to_depositor(
    s: EscrowContractModel,
    env: EnvModel,
    id: u64,
    refundee: Seq<u8>,
)
    requires
        escrows_sound(s.storage.escrows),
        refund_spec(s, env, id, refundee) is Ok,
    ensures
        ({
            let s2 = refund_spec(s, env, id, refundee).unwrap();
            let before = s.storage.escrows[id];
            &&& refundee == before.depositor
            &&& (before.released_amount == 0 || (before.condition.kind == KIND_TIMEOUT
                && env.sequence >= before.condition.timeout_ledger))
            &&& (before.amount - before.released_amount) > 0
            &&& (s2.storage.escrows[id].amount - s2.storage.escrows[id].released_amount) == 0
            &&& s2.transfers == s.transfers.push(
                TransferModel {
                    token: s.storage.token.unwrap(),
                    from: env.contract,
                    to: before.depositor,
                    amount: (before.amount - before.released_amount) as i128,
                },
            )
        }),
{
}

/// No call removes an escrow, shrinks what was deposited or paid out, or
/// changes its parties or condition, unless a creation reuses its identifier.
pub proof fn law_escrows_persist(
    s: EscrowContractModel,
    env: EnvModel,
    call: EscrowCall,
    id: u64,
)
    requires
        escrow_step(s, env, call) is Ok,
        issues_fresh_id(s, call),
        s.storage.escrows.contains_key(id),
        escrow_sound(s.storage.escrows[id]),
    ensures
        ({
            let before: EscrowModel = s.storage.escrows[id];
            let after: EscrowModel = escrow_step(s, env, call).unwrap().storage.escrows[id];
            &&& escrow_step(s, env, call).unwrap().storage.escrows.contains_key(id)
            &&& after.amount >= before.amount
            &&& after.released_amount >= before.released_amount
            &&& after.depositor == before.depositor
            &&& after.beneficiary == before.beneficiary
            &&& after.token == before.token
            &&& after.condition == before.condition
            &&& after.created_ledger == before.created_ledger
        }),
{
}

/// Booking lists only grow: what was listed under a booking stays listed,
/// in the same order, at the front.
pub proof fn law_booking_lists_grow(
    s: EscrowContractModel,
    env: EnvModel,
    call: EscrowCall,
    booking_ref: Seq<u8>,
)
    requires
        escrow_step(s, env, call) is Ok,
    ensures
        ({
            let before = listed(s.storage.bookings, booking_ref);
            let after = listed(escrow_step(s, env, call).unwrap().storage.bookings, booking_ref);
            &&& before.len() <= after.len()
            &&& after.subrange(0, before.len() as int) == before
        }),
{
    let before = listed(s.storage.bookings, booking_ref);
    let after = listed(escrow_step(s, env, call).unwrap().storage.bookings, booking_ref);
    assert(after.subrange(0, before.len() as int) =~= before);
}

/// A successful call publishes exactly one event and makes at most one token
/// transfer; the earlier events and transfers stay as they were.
pub proof fn law_logs_only_appended(s: EscrowContractModel, env: EnvModel, call: EscrowCall)
    requires
        escrow_step(s, env, call) is Ok,
    ensures
        ({
            let s2 = escrow_step(s, env, call).unwrap();
            &&& s2.events.len() == s.events.len() + 1
            &&& s2.events.subrange(0, s.events.len() as int) == s.events
            &&& s.transfers.len() <= s2.transfers.len() <= s.transfers.len() + 1
            &&& s2.transfers.subrange(0, s.transfers.len() as int) == s.transfers
        }),
{
    let s2 = escrow_step(s, env, call).unwrap();
    assert(s2.events.subrange(0, s.events.len() as int) =~= s.events);
    assert(s2.transfers.subrange(0, s.transfers.len() as int) =~= s.transfers);
}

/// Every call keeps the storage consistent: admin, token and counter stored
/// together, every escrow and booking list written after initialization,
/// each escrow under its own identifier.
pub proof fn law_storage_stays_consistent(s: EscrowContractModel, env: EnvModel, call: EscrowCall)
    requires
        storage_consistent(s.storage),
        escrow_step(s, env, call) is Ok,
    ensures
        storage_consistent(escrow_step(s, env, call).unwrap().storage),
{
}

/// On consistent storage a call traps only where arithmetic would
/// overflow: a creation when the counter is at its maximum, or a deposit
/// that would take the escrowed amount past the largest `i128`.
pub proof fn law_traps_only_on_overflow(s: EscrowContractModel, env: EnvModel, call: EscrowCall)
    requires
        storage_consistent(s.storage),
        escrow_step(s, env, call) == Err::<EscrowContractModel, Fault<EscrowError>>(Fault::Abort),
    ensures
        match call {
            EscrowCall::CreateEscrow { .. } => s.storage.next_id == Some(u64::MAX),
            EscrowCall::Deposit { id, amount, .. } => s.storage.escrows.contains_key(id)
                && s.storage.escrows[id].amount + amount > i128::MAX,
            _ => false,
        },
{
}

/// With the depositor's authorization, on an initialized contract whose
/// counter has room, a creation fails exactly when the amount is not
/// positive or the booking reference is empty.
pub proof fn law_create_fails_exactly_on_bad_input(
    s: EscrowContractModel,
    env: EnvModel,
    depositor: Seq<u8>,
    beneficiary: Seq<u8>,
    amount: i128,
    condition: ConditionModel,
    booking_ref: Seq<u8>,
)
    requires
        storage_consistent(s.storage),
        s.storage.next_id != Some(u64::MAX),
    ensures
        create_escrow_spec(s, env, depositor, beneficiary, amount, condition, booking_ref) is Err
            <==> (!env.authorizes(depositor) || s.storage.admin is None || amount <= 0
            || booking_ref.len() == 0),
        !env.authorizes(depositor) ==> create_escrow_spec(
            s,
            env,
            depositor,
            beneficiary,
            amount,
            condition,
            booking_ref,
        ) == Err::<(EscrowContractModel, u64), Fault<EscrowError>>(Fault::MissingAuth),
        env.authorizes(depositor) && s.storage.admin is None ==> create_escrow_spec(
            s,
            env,
            depositor,
            beneficiary,
            amount,
            condition,
            booking_ref,
        ) == Err::<(EscrowContractModel, u64), Fault<EscrowError>>(
            Fault::Contract(EscrowError::NotInitialized),
        ),
        env.authorizes(depositor) && s.storage.admin is Some && (amount <= 0 || booking_ref.len()
            == 0) ==> create_escrow_spec(
            s,
            env,
            depositor,
            beneficiary,
            amount,
            condition,
            booking_ref,
        ) == Err::<(EscrowContractModel, u64), Fault<EscrowError>>(
            Fault::Contract(EscrowError::InvalidInput),
        ),
{
}

/// On an initialized contract, with the sender's authorization: a deposit
/// of a non-positive amount fails with `InvalidInput` (whether or not the
/// escrow exists), one into an unknown escrow with `EscrowNotFound`, and any
/// other that does not overflow adds the amount, keeps everything else of
/// the escrow, pulls the amount from the sender and publishes the deposit.
pub proof fn law_deposit_outcome(
    s: EscrowContractModel,
    env: EnvModel,
    id: u64,
    from: Seq<u8>,
    amount: i128,
)
    requires
        storage_consistent(s.storage),
        s.storage.admin is Some,
        env.authorizes(from),
    ensures
        amount <= 0 ==> deposit_spec(s, env, id, from, amount) == Err::<
            EscrowContractModel,
            Fault<EscrowError>,
        >(Fault::Contract(EscrowError::InvalidInput)),
        amount > 0 && !s.storage.escrows.contains_key(id) ==> deposit_spec(s, env, id, from, amount)
            == Err::<EscrowContractModel, Fault<EscrowError>>(
            Fault::Contract(EscrowError::EscrowNotFound),
        ),
        amount > 0 && s.storage.escrows.contains_key(id) && s.storage.escrows[id].amount + amount
            <= i128::MAX ==> ({
            let e = s.storage.escrows[id];
            let s2 = deposit_spec(s, env, id, from, amount).unwrap();
            &&& deposit_spec(s, env, id, from, amount) is Ok
            &&& get_escrow_spec(s2, id) == Ok::<EscrowModel, Fault<EscrowError>>(
                EscrowModel {
                    amount: (e.amount + amount) as i128,
                    updated_ledger: env.sequence,
                    ..e
                },
            )
            &&& s2.transfers == s.transfers.push(
                TransferModel { token: s.storage.token.unwrap(), from, to: env.contract, amount },
            )
            &&& s2.events == s.events.push(
                EscrowEventModel::EscrowDeposited { escrow_id: id, from, amount },
            )
        }),
{
}

/// On consistent storage, a release of a stored escrow fails exactly when
/// the releaser did not authorize it, nothing remains, or the escrow's
/// condition refuses it; when it succeeds, the escrow is marked fully
/// released at this ledger, everything that remained goes to the
/// beneficiary, and the release is published.
pub proof fn law_release_outcome(
    s: EscrowContractModel,
    env: EnvModel,
    id: u64,
    releaser: Seq<u8>,
    proof_hash: Seq<u8>,
)
    requires
        storage_consistent(s.storage),
        escrows_sound(s.storage.escrows),
        s.storage.escrows.contains_key(id),
    ensures
        ({
            let e = s.storage.escrows[id];
            let c = e.condition;
            let held = e.amount - e.released_amount;
            let allowed = (c.kind == KIND_MANUAL && releaser == c.releaser) || (c.kind
                == KIND_MILESTONE && releaser == c.releaser && proof_hash.len() > 0) || (c.kind
                == KIND_TIMEOUT && env.sequence >= c.timeout_ledger);
            let r = release_spec(s, env, id, releaser, proof_hash);
            &&& r is Err <==> (!env.authorizes(releaser) || held <= 0 || !allowed)
            &&& (!env.authorizes(releaser) ==> r == Err::<EscrowContractModel, Fault<EscrowError>>(
                Fault::MissingAuth,
            ))
            &&& (env.authorizes(releaser) && held <= 0 ==> r == Err::<
                EscrowContractModel,
                Fault<EscrowError>,
            >(Fault::Contract(EscrowError::AlreadyFullyReleased)))
            &&& (env.authorizes(releaser) && held > 0 && (c.kind == KIND_MANUAL || c.kind
                == KIND_MILESTONE) && releaser != c.releaser ==> r == Err::<
                EscrowContractModel,
                Fault<EscrowError>,
            >(Fault::Contract(EscrowError::ConditionNotMet)))
            &&& (env.authorizes(releaser) && held > 0 && c.kind == KIND_MILESTONE && releaser
                == c.releaser && proof_hash.len() == 0 ==> r == Err::<
                EscrowContractModel,
                Fault<EscrowError>,
            >(Fault::Contract(EscrowError::InvalidInput)))
            &&& (env.authorizes(releaser) && held > 0 && c.kind == KIND_TIMEOUT && env.sequence
                < c.timeout_ledger ==> r == Err::<EscrowContractModel, Fault<EscrowError>>(
                Fault::Contract(EscrowError::TimeoutNotElapsed),
            ))
            &&& (env.authorizes(releaser) && held > 0 && c.kind > KIND_TIMEOUT ==> r == Err::<
                EscrowContractModel,
                Fault<EscrowError>,
            >(Fault::Contract(EscrowError::InvalidInput)))
            &&& (release_spec(s, env, id, releaser, proof_hash) is Ok ==> {
                let s2 = release_spec(s, env, id, releaser, proof_hash).unwrap();
                &&& get_escrow_spec(s2, id) == Ok::<EscrowModel, Fault<EscrowError>>(
                    EscrowModel { released_amount: e.amount, updated_ledger: env.sequence, ..e },
                )
                &&& s2.transfers == s.transfers.push(
                    TransferModel {
                        token: s.storage.token.unwrap(),
                        from: env.contract,
                        to: e.beneficiary,
                        amount: held as i128,
                    },
                )
                &&& s2.events == s.events.push(
                    EscrowEventModel::EscrowReleased {
                        escrow_id: id,
                        releaser,
                        amount: held as i128,
                    },
                )
            })
        }),
{
}

/// On consistent storage, a refund of a stored escrow fails exactly when
/// the refundee did not authorize it, something was paid out and the
/// escrow is not a timeout escrow past its timeout ledger, nothing remains,
/// or the refundee is not the depositor; when it succeeds, the escrow is
/// marked fully paid out at this ledger, everything that remained goes back
/// to the depositor, and the refund is published. A second refund fails.
pub proof fn law_refund_outcome(s: EscrowContractModel, env: EnvModel, id: u64, refundee: Seq<u8>)
    requires
        storage_consistent(s.storage),
        escrows_sound(s.storage.escrows),
        s.storage.escrows.contains_key(id),
    ensures
        ({
            let e = s.storage.escrows[id];
            let held = e.amount - e.released_amount;
            let blocked = e.released_amount > 0 && !(e.condition.kind == KIND_TIMEOUT
                && env.sequence >= e.condition.timeout_ledger);
            &&& refund_spec(s, env, id, refundee) is Err <==> (!env.authorizes(refundee) || blocked
                || held <= 0 || refundee != e.depositor)
            &&& (refund_spec(s, env, id, refundee) is Ok ==> {
                let s2 = refund_spec(s, env, id, refundee).unwrap();
                &&& get_escrow_spec(s2, id) == Ok::<EscrowModel, Fault<EscrowError>>(
                    EscrowModel { released_amount: e.amount, updated_ledger: env.sequence, ..e },
                )
                &&& s2.transfers == s.transfers.push(
                    TransferModel {
                        token: s.storage.token.unwrap(),
                        from: env.contract,
                        to: e.depositor,
                        amount: held as i128,
                    },
                )
                &&& s2.events == s.events.push(
                    EscrowEventModel::EscrowRefunded {
                        escrow_id: id,
                        refundee,
                        amount: held as i128,
                    },
                )
                &&& refund_spec(s2, env, id, refundee) is Err
            })
        }),
{
}

/// Identifiers are issued consecutively: of two successive creations the
/// second returns the first's identifier plus one, so it never lands on the
/// escrow the first created.
pub proof fn law_escrow_ids_consecutive(
    s: EscrowContractModel,
    env1: EnvModel,
    depositor1: Seq<u8>,
    beneficiary1: Seq<u8>,
    amount1: i128,
    condition1: ConditionModel,
    booking_ref1: Seq<u8>,
    env2: EnvModel,
    depositor2: Seq<u8>,
    beneficiary2: Seq<u8>,
    amount2: i128,
    condition2: ConditionModel,
    booking_ref2: Seq<u8>,
)
    requires
        create_escrow_spec(s, env1, depositor1, beneficiary1, amount1, condition1, booking_ref1) is Ok,
        create_escrow_spec(
            create_escrow_spec(
                s,
                env1,
                depositor1,
                beneficiary1,
                amount1,
                condition1,
                booking_ref1,
            ).unwrap().0,
            env2,
            depositor2,
            beneficiary2,
            amount2,
            condition2,
            booking_ref2,
        ) is Ok,
    ensures
        ({
            let (s1, id1) = create_escrow_spec(
                s,
                env1,
                depositor1,
                beneficiary1,
                amount1,
                condition1,
                booking_ref1,
            ).unwrap();
            let (s2, id2) = create_escrow_spec(
                s1,
                env2,
                depositor2,
                beneficiary2,
                amount2,
                condition2,
                booking_ref2,
            ).unwrap();
            &&& id2 == id1 + 1
            &&& s2.storage.escrows[id1] == s1.storage.escrows[id1]
            &&& s2.storage.escrows[id1].amount == amount1
            &&& s2.storage.escrows[id2].amount == amount2
        }),
{
}

/// A creation takes its identifier from the stored counter (1 before any is
/// stored), so when every stored escrow lies below the counter, the new
/// escrow takes no stored escrow's place.
pub proof fn law_create_issues_a_fresh_id(
    s: EscrowContractModel,
    env: EnvModel,
    depositor: Seq<u8>,
    beneficiary: Seq<u8>,
    amount: i128,
    condition: ConditionModel,
    booking_ref: Seq<u8>,
    n: u64,
)
    requires
        s.storage.next_id == Some(n),
        forall|k: u64| #[trigger] s.storage.escrows.contains_key(k) ==> k < n,
        create_escrow_spec(s, env, depositor, beneficiary, amount, condition, booking_ref) is Ok,
    ensures
        ({
            let (s2, id) = create_escrow_spec(
                s,
                env,
                depositor,
                beneficiary,
                amount,
                condition,
                booking_ref,
            ).unwrap();
            &&& id == n
            &&& !s.storage.escrows.contains_key(id)
            &&& forall|k: u64| #[trigger]
                s.storage.escrows.contains_key(k) ==> s2.storage.escrows[k] == s.storage.escrows[k]
        }),
{
}

/// Topping up a timeout escrow that was fully released, once its timeout
/// has passed, lets the depositor take back exactly the top-up: the refund
/// succeeds and transfers the deposited amount back to the depositor.
pub proof fn law_refund_returns_a_top_up(
    s: EscrowContractModel,
    env: EnvModel,
    id: u64,
    amount: i128,
)
    requires
        storage_consistent(s.storage),
        escrows_sound(s.storage.escrows),
        s.storage.escrows.contains_key(id),
        s.storage.escrows[id].released_amount == s.storage.escrows[id].amount,
        s.storage.escrows[id].condition.kind == KIND_TIMEOUT,
        env.sequence >= s.storage.escrows[id].condition.timeout_ledger,
        env.authorizes(s.storage.escrows[id].depositor),
        deposit_spec(s, env, id, s.storage.escrows[id].depositor, amount) is Ok,
    ensures
        ({
            let e = s.storage.escrows[id];
            let s2 = deposit_spec(s, env, id, e.depositor, amount).unwrap();
            let r = refund_spec(s2, env, id, e.depositor);
            &&& r is Ok
            &&& r.unwrap().transfers.last() == TransferModel {
                token: s.storage.token.unwrap(),
                from: env.contract,
                to: e.depositor,
                amount,
            }
            &&& r.unwrap().storage.escrows[id].released_amount == e.amount + amount
        }),
{
}

} // verus!
