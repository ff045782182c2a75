//! Properties of the financing contract that span calls.
use vstd::prelude::*;

use crate::common::{EnvModel, Fault};
use crate::financing::{
    create_financing_spec, deposit_spec, financing_sound, financings_sound,
    get_financing_spec, get_financings_by_funder_spec, initialize_spec, refund_spec,
    release_on_milestone_spec, storage_consistent, FinancingContractModel,
    FinancingError, FinancingEventModel, FinancingModel, FinancingResult, MilestoneModel,
};
use crate::table::listed;

verus! {

/// A state-changing call of the financing contract.
pub enum FinancingCall {
    Initialize { admin: Seq<u8>, authority: Seq<u8> },
    CreateFinancing {
        funder: Seq<u8>,
        beneficiary: Seq<u8>,
        total_amount: i128,
        milestone_count: u32,
        milestones: Seq<MilestoneModel>,
    },
    Deposit { id: u64, from: Seq<u8>, amount: i128 },
    ReleaseOnMilestone { id: u64, proof: Seq<u8>, milestone_index: u32 },
    Refund { id: u64, refundee: Seq<u8> },
}

/// The state a call leaves behind, or why it failed.
pub open spec fn financing_step(
    s: FinancingContractModel,
    env: EnvModel,
    call: FinancingCall,
) -> FinancingResult<FinancingContractModel> {
    match call {
        FinancingCall::Initialize { admin, authority } => initialize_spec(s, env, admin, authority),
        FinancingCall::CreateFinancing {
            funder,
            beneficiary,
            total_amount,
            milestone_count,
            milestones,
        } => match create_financing_spec(
            s,
            env,
            funder,
            beneficiary,
            total_amount,
            milestone_count,
            milestones,
        ) {
            Ok((s2, _)) => Ok(s2),
            Err(e) => Err(e),
        },
        FinancingCall::Deposit { id, from, amount } => deposit_spec(s, env, id, from, amount),
        FinancingCall::ReleaseOnMilestone { id, proof, milestone_index } => {
            match release_on_milestone_spec(s, env, id, proof, milestone_index) {
                Ok((s2, _)) => Ok(s2),
                Err(e) => Err(e),
            }
        },
        FinancingCall::Refund { id, refundee } => refund_spec(s, env, id, refundee),
    }
}

/// The call does not issue an identifier that is already in use (only a
/// creation after the counter was restarted by `initialize` does).
pub open spec fn issues_fresh_id(s: FinancingContractModel, call: FinancingCall) -> bool {
    call is CreateFinancing ==> !s.storage.financings.contains_key((match s.storage.next_id {
        Some(n) => n,
        None => 1u64,
    }))
}

/// Every call keeps every financing sound: a positive committed total, of
/// which between nothing and all has been drawn, and a non-negative repaid
/// amount.
pub proof fn law_financings_stay_sound(s: FinancingContractModel, env: EnvModel, call: FinancingCall)
    requires
        financings_sound(s.storage.financings),
        financing_step(s, env, call) is Ok,
    ensures
        financings_sound(financing_step(s, env, call).unwrap().storage.financings),
{
    let s2 = financing_step(s, env, call).unwrap();
    assert forall|id: u64| #[trigger] s2.storage.financings.contains_key(id) implies financing_sound(
        s2.storage.financings[id],
    ) by {
        if s.storage.financings.contains_key(id) {
            assert(financing_sound(s.storage.financings[id]));
        }
    }
}

/// Every call but `initialize` needs the stored financing authority's
/// authorization.
pub proof fn law_authority_signs_every_change(
    s: FinancingContractModel,
    env: EnvModel,
    call: FinancingCall,
)
    requires
        financing_step(s, env, call) is Ok,
        !(call is Initialize),
    ensures
        s.storage.authority is Some,
        env.authorizes(s.storage.authority.unwrap()),
{
}

/// A new financing is stored under the current counter value with nothing
/// drawn, repaid or defaulted, and is listed last under its funder.
pub proof fn law_created_financing_is_found(
    s: FinancingContractModel,
    env: EnvModel,
    funder: Seq<u8>,
    beneficiary: Seq<u8>,
    total_amount: i128,
    milestone_count: u32,
    milestones: Seq<MilestoneModel>,
)
    requires
        create_financing_spec(
            s,
            env,
            funder,
            beneficiary,
            total_amount,
            milestone_count,
            milestones,
        ) is Ok,
    ensures
        ({
            let (s2, id) = create_financing_spec(
                s,
                env,
                funder,
                beneficiary,
                total_amount,
                milestone_count,
                milestones,
            ).unwrap();
            let rec = get_financing_spec(s2, id).unwrap();
            &&& id == (match s.storage.next_id {
        Some(n) => n,
        None => 1u64,
    })
            &&& get_financing_spec(s2, id) is Ok
            &&& rec.total_amount == total_amount
            &&& rec.drawn_amount == 0
            &&& rec.repaid_amount == 0
            &&& !rec.defaulted
            &&& rec.milestones == milestones
            &&& get_financings_by_funder_spec(s2, funder) == get_financings_by_funder_spec(
                s,
                funder,
            ).push(id)
        }),
{
}

/// A drawdown never takes the drawn amount past the committed total.
pub proof fn law_deposit_stays_within_total(
    s: FinancingContractModel,
    env: EnvModel,
    id: u64,
    from: Seq<u8>,
    amount: i128,
)
    requires
        deposit_spec(s, env, id, from, amount) is Ok,
    ensures
        ({
            let after = deposit_spec(s, env, id, from, amount).unwrap().storage.financings[id];
            let before = s.storage.financings[id];
            &&& amount > 0
            &&& after.drawn_amount == before.drawn_amount + amount
            &&& after.drawn_amount <= after.total_amount
        }),
{
}

/// Proving a milestone, before its deadline and with a proof, draws the
/// magnitude of its amount when that fits in what is undrawn (the total less
/// what was drawn), and nothing otherwise; it returns what it drew.
pub proof fn law_milestone_draws_what_fits(
    s: FinancingContractModel,
    env: EnvModel,
    id: u64,
    proof: Seq<u8>,
    milestone_index: u32,
)
    requires
        financings_sound(s.storage.financings),
        release_on_milestone_spec(s, env, id, proof, milestone_index) is Ok,
    ensures
        ({
            let (s2, actual) = release_on_milestone_spec(s, env, id, proof, milestone_index).unwrap();
            let before = s.storage.financings[id];
            let open = before.total_amount - before.drawn_amount;
            let m = before.milestones[milestone_index as int];
            let magnitude = if m.proof_amount < 0 {
                -m.proof_amount
            } else {
                m.proof_amount as int
            };
            &&& proof.len() > 0
            &&& env.sequence <= m.deadline_ledger
            &&& actual == (if magnitude <= open {
                magnitude
            } else {
                0
            })
            &&& 0 <= actual <= open
            &&& s2.storage.financings[id].drawn_amount == before.drawn_amount + actual
        }),
{
    assert(financing_sound(s.storage.financings[id]));
}

/// On an initialized contract, with the financing authority's
/// authorization, proving milestone `milestone_index` of a stored financing
/// succeeds exactly when the milestone exists, its deadline has not passed
/// and a proof is given (and its amount is not the smallest `i128`); it then
/// draws the magnitude of the milestone's amount when that fits in what is
/// undrawn and nothing otherwise, stamps the draw with this ledger, returns
/// what it drew and publishes the release by the authority.
pub proof fn law_milestone_outcome(
    s: FinancingContractModel,
    env: EnvModel,
    id: u64,
    proof: Seq<u8>,
    milestone_index: u32,
)
    requires
        storage_consistent(s.storage),
        financings_sound(s.storage.financings),
        s.storage.authority is Some,
        env.authorizes(s.storage.authority.unwrap()),
        s.storage.financings.contains_key(id),
    ensures
        ({
            let f = s.storage.financings[id];
            let ms = f.milestones;
            let open = f.total_amount - f.drawn_amount;
            let r = release_on_milestone_spec(s, env, id, proof, milestone_index);
            &&& milestone_index >= ms.len() ==> r == Err::<
                (FinancingContractModel, i128),
                Fault<FinancingError>,
            >(Fault::Contract(FinancingError::InvalidInput))
            &&& milestone_index < ms.len() && env.sequence > ms[milestone_index as int].deadline_ledger
                ==> r == Err::<(FinancingContractModel, i128), Fault<FinancingError>>(
                Fault::Contract(FinancingError::MilestoneDeadlineExceeded),
            )
            &&& milestone_index < ms.len() && env.sequence <= ms[milestone_index as int].deadline_ledger
                && proof.len() == 0 ==> r == Err::<(FinancingContractModel, i128), Fault<FinancingError>>(
                Fault::Contract(FinancingError::InvalidInput),
            )
            &&& milestone_index < ms.len() && env.sequence <= ms[milestone_index as int].deadline_ledger
                && proof.len() > 0 && ms[milestone_index as int].proof_amount != i128::MIN ==> {
                let p = ms[milestone_index as int].proof_amount;
                let magnitude = if p < 0 {
                    -p
                } else {
                    p as int
                };
                let actual = if magnitude <= open {
                    magnitude
                } else {
                    0
                };
                &&& r is Ok
                &&& r.unwrap().1 == actual
                &&& get_financing_spec(r.unwrap().0, id) == Ok::<FinancingModel, Fault<FinancingError>>(
                    FinancingModel {
                        drawn_amount: (f.drawn_amount + actual) as i128,
                        drawn_ledger: env.sequence,
                        ..f
                    },
                )
                &&& r.unwrap().0.events == s.events.push(
                    FinancingEventModel::FinancingReleased {
                        financing_id: id,
                        releaser: s.storage.authority.unwrap(),
                        released_amount: actual as i128,
                    },
                )
            }
        }),
{
    assert(financing_sound(s.storage.financings[id]));
}

/// A refund adds everything undrawn (the total less what was drawn) to what
/// was repaid, leaves the drawn amount alone, and marks the financing in
/// default, at this ledger, exactly when it already was or some milestone,
/// whatever its amount, has a deadline before this ledger.
pub proof fn law_refund_settles_undrawn(
    s: FinancingContractModel,
    env: EnvModel,
    id: u64,
    refundee: Seq<u8>,
)
    requires
        financings_sound(s.storage.financings),
        refund_spec(s, env, id, refundee) is Ok,
    ensures
        ({
            let after = refund_spec(s, env, id, refundee).unwrap().storage.financings[id];
            let before = s.storage.financings[id];
            let open = before.total_amount - before.drawn_amount;
            let missed = exists|i: int|
                0 <= i < before.milestones.len() && env.sequence
                    > #[trigger] before.milestones[i].deadline_ledger;
            &&& open > 0
            &&& after.repaid_amount == before.repaid_amount + open
            &&& after.drawn_amount == before.drawn_amount
            &&& after.defaulted == (before.defaulted || missed)
            &&& after.defaulted_ledger == (if missed {
                Some(env.sequence)
            } else {
                before.defaulted_ledger
            })
        }),
{
    assert(financing_sound(s.storage.financings[id]));
}

/// On an initialized contract, with the financing authority's
/// authorization, a refund of a stored financing fails with `InvalidInput`
/// exactly when nothing is undrawn, and otherwise (unless the repaid amount
/// would overflow) adds the undrawn amount to what was repaid, marks the
/// financing in default at this ledger when some milestone's deadline lies
/// before it, and publishes the refund with the resulting default flag and
/// ledger (0 when none).
pub proof fn law_refund_outcome(s: FinancingContractModel, env: EnvModel, id: u64, refundee: Seq<u8>)
    requires
        storage_consistent(s.storage),
        financings_sound(s.storage.financings),
        s.storage.authority is Some,
        env.authorizes(s.storage.authority.unwrap()),
        s.storage.financings.contains_key(id),
    ensures
        ({
            let f = s.storage.financings[id];
            let open = f.total_amount - f.drawn_amount;
            let missed = exists|i: int|
                0 <= i < f.milestones.len() && env.sequence > #[trigger] f.milestones[i].deadline_ledger;
            let r = refund_spec(s, env, id, refundee);
            let defaulted = f.defaulted || missed;
            let defaulted_ledger = if missed {
                Some(env.sequence)
            } else {
                f.defaulted_ledger
            };
            &&& open <= 0 ==> r == Err::<FinancingContractModel, Fault<FinancingError>>(
                Fault::Contract(FinancingError::InvalidInput),
            )
            &&& open > 0 && f.repaid_amount + open <= i128::MAX ==> {
                &&& r is Ok
                &&& get_financing_spec(r.unwrap(), id) == Ok::<FinancingModel, Fault<FinancingError>>(
                    FinancingModel {
                        repaid_amount: (f.repaid_amount + open) as i128,
                        defaulted,
                        defaulted_ledger,
                        ..f
                    },
                )
                &&& r.unwrap().events == s.events.push(
                    FinancingEventModel::FinancingRefunded {
                        financing_id: id,
                        refundee,
                        refunded_amount: open as i128,
                        defaulted,
                        defaulted_ledger: match defaulted_ledger {
                            Some(l) => l,
                            None => 0,
                        },
                    },
                )
            }
        }),
{
    assert(financing_sound(s.storage.financings[id]));
}

/// Identifiers are issued consecutively: of two successive creations the
/// second returns the first's identifier plus one.
pub proof fn law_financing_ids_consecutive(
    s: FinancingContractModel,
    env1: EnvModel,
    funder1: Seq<u8>,
    beneficiary1: Seq<u8>,
    total1: i128,
    count1: u32,
    milestones1: Seq<MilestoneModel>,
    env2: EnvModel,
    funder2: Seq<u8>,
    beneficiary2: Seq<u8>,
    total2: i128,
    count2: u32,
    milestones2: Seq<MilestoneModel>,
)
    requires
        create_financing_spec(s, env1, funder1, beneficiary1, total1, count1, milestones1) is Ok,
        create_financing_spec(
            create_financing_spec(s, env1, funder1, beneficiary1, total1, count1, milestones1).unwrap().0,
            env2,
            funder2,
            beneficiary2,
            total2,
            count2,
            milestones2,
        ) is Ok,
    ensures
        ({
            let (s1, id1) = create_financing_spec(
                s,
                env1,
                funder1,
                beneficiary1,
                total1,
                count1,
                milestones1,
            ).unwrap();
            let (s2, id2) = create_financing_spec(
                s1,
                env2,
                funder2,
                beneficiary2,
                total2,
                count2,
                milestones2,
            ).unwrap();
            &&& id2 == id1 + 1
            &&& s2.storage.financings[id1].total_amount == total1
            &&& s2.storage.financings[id2].total_amount == total2
        }),
{
}

/// No call removes a financing, changes its parties, total or milestones,
/// lowers what was drawn or repaid, or lifts a default, unless a creation
/// reuses its identifier.
pub proof fn law_financings_persist(
    s: FinancingContractModel,
    env: EnvModel,
    call: FinancingCall,
    id: u64,
)
    requires
        financing_step(s, env, call) is Ok,
        issues_fresh_id(s, call),
        s.storage.financings.contains_key(id),
        financing_sound(s.storage.financings[id]),
    ensures
        ({
            let before: FinancingModel = s.storage.financings[id];
            let after: FinancingModel = financing_step(s, env, call).unwrap().storage.financings[id];
            &&& financing_step(s, env, call).unwrap().storage.financings.contains_key(id)
            &&& after.funder == before.funder
            &&& after.beneficiary == before.beneficiary
            &&& after.total_amount == before.total_amount
            &&& after.milestones == before.milestones
            &&& after.drawn_amount >= before.drawn_amount
            &&& after.repaid_amount >= before.repaid_amount
            &&& (before.defaulted ==> after.defaulted)
        }),
{
}

/// Funder lists only grow: what was listed under a funder stays listed, in
/// the same order, at the front.
pub proof fn law_funder_lists_grow(
    s: FinancingContractModel,
    env: EnvModel,
    call: FinancingCall,
    funder: Seq<u8>,
)
    requires
        financing_step(s, env, call) is Ok,
    ensures
        ({
            let before = listed(s.storage.funders, funder);
            let after = listed(financing_step(s, env, call).unwrap().storage.funders, funder);
            &&& before.len() <= after.len()
            &&& after.subrange(0, before.len() as int) == before
        }),
{
    let before = listed(s.storage.funders, funder);
    let after = listed(financing_step(s, env, call).unwrap().storage.funders, funder);
    assert(after.subrange(0, before.len() as int) =~= before);
}

/// Every successful call publishes exactly one event and keeps the earlier
/// ones as they were.
pub proof fn law_one_event_per_call(s: FinancingContractModel, env: EnvModel, call: FinancingCall)
    requires
        financing_step(s, env, call) is Ok,
    ensures
        ({
            let s2 = financing_step(s, env, call).unwrap();
            &&& s2.events.len() == s.events.len() + 1
            &&& s2.events.subrange(0, s.events.len() as int) == s.events
        }),
{
    let s2 = financing_step(s, env, call).unwrap();
    assert(s2.events.subrange(0, s.events.len() as int) =~= s.events);
}

/// Every call keeps the storage consistent: admin, financing authority and
/// counter stored together, every financing and funder list written after
/// initialization, each financing under its own identifier.
pub proof fn law_storage_stays_consistent(
    s: FinancingContractModel,
    env: EnvModel,
    call: FinancingCall,
)
    requires
        storage_consistent(s.storage),
        financing_step(s, env, call) is Ok,
    ensures
        storage_consistent(financing_step(s, env, call).unwrap().storage),
{
}

/// On consistent storage a call traps only before initialization, when no
/// financing authority is stored to demand, or where arithmetic would
/// overflow: a creation when the counter is at its maximum, a drawdown or a
/// refund past the largest `i128`, or a milestone whose amount is the
/// smallest `i128`, whose magnitude has no `i128`. `initialize` never traps.
pub proof fn law_traps_only_on_overflow(s: FinancingContractModel, env: EnvModel, call: FinancingCall)
    requires
        storage_consistent(s.storage),
        financing_step(s, env, call) == Err::<FinancingContractModel, Fault<FinancingError>>(
            Fault::Abort,
        ),
    ensures
        !(call is Initialize),
        s.storage.authority is None || match call {
            FinancingCall::CreateFinancing { .. } => s.storage.next_id == Some(u64::MAX),
            FinancingCall::Deposit { id, amount, .. } => s.storage.financings.contains_key(id)
                && s.storage.financings[id].drawn_amount + amount > i128::MAX,
            FinancingCall::ReleaseOnMilestone { id, milestone_index, .. } => s.storage.financings.contains_key(id)
                && milestone_index < s.storage.financings[id].milestones.len()
                && s.storage.financings[id].milestones[milestone_index as int].proof_amount == i128::MIN,
            FinancingCall::Refund { id, .. } => s.storage.financings.contains_key(id)
                && s.storage.financings[id].repaid_amount + (s.storage.financings[id].total_amount
                    - s.storage.financings[id].drawn_amount) > i128::MAX,
            _ => false,
        },
{
}

/// On an initialized contract whose counter has room, with the funder's and
/// the financing authority's authorization: a creation with a non-positive
/// total, no milestone count or no milestones fails with `InvalidInput`;
/// any other stores the financing, with nothing drawn, repaid or defaulted
/// and this ledger as its drawn ledger, under the counter value, lists it
/// last under its funder, advances the counter and returns the identifier.
pub proof fn law_create_financing_outcome(
    s: FinancingContractModel,
    env: EnvModel,
    funder: Seq<u8>,
    beneficiary: Seq<u8>,
    total_amount: i128,
    milestone_count: u32,
    milestones: Seq<MilestoneModel>,
)
    requires
        storage_consistent(s.storage),
        s.storage.authority is Some,
        env.authorizes(s.storage.authority.unwrap()),
        env.authorizes(funder),
        s.storage.next_id != Some(u64::MAX),
    ensures
        ({
            let r = create_financing_spec(
                s,
                env,
                funder,
                beneficiary,
                total_amount,
                milestone_count,
                milestones,
            );
            let n = (match s.storage.next_id {
        Some(n) => n,
        None => 1u64,
    });
            &&& (total_amount <= 0 || milestone_count == 0 || milestones.len() == 0) ==> r == Err::<
                (FinancingContractModel, u64),
                Fault<FinancingError>,
            >(Fault::Contract(FinancingError::InvalidInput))
            &&& !(total_amount <= 0 || milestone_count == 0 || milestones.len() == 0) ==> {
                &&& r is Ok
                &&& r.unwrap().1 == n
                &&& get_financing_spec(r.unwrap().0, n) == Ok::<FinancingModel, Fault<FinancingError>>(
                    FinancingModel {
                        id: n,
                        funder,
                        beneficiary,
                        total_amount,
                        drawn_amount: 0,
                        milestone_count,
                        milestones,
                        drawn_ledger: env.sequence,
                        repaid_amount: 0,
                        defaulted: false,
                        defaulted_ledger: None,
                    },
                )
                &&& get_financings_by_funder_spec(r.unwrap().0, funder)
                    == get_financings_by_funder_spec(s, funder).push(n)
                &&& r.unwrap().0.storage.next_id == Some((n + 1) as u64)
            }
        }),
{
}

} // verus!
