//! Properties of the livestock contract that span calls.
use vstd::prelude::*;

use crate::common::{EnvModel, Fault};
use crate::livestock::{
    get_animal_events_spec, get_animal_spec, initialize_spec, record_event_spec,
    register_animal_spec, storage_consistent, transfer_animal_spec, AnimalEventModel,
    AnimalModel, AnimalTransferredModel, LivestockError, LivestockModel, LivestockResult,
    STATUS_ACTIVE,
};

verus! {

/// A state-changing call of the livestock contract.
pub enum LivestockCall {
    Initialize { registrar: Seq<u8> },
    RegisterAnimal { registrar: Seq<u8>, owner: Seq<u8> },
    TransferAnimal { from: Seq<u8>, to: Seq<u8>, animal_id: u64 },
    RecordEvent { animal_id: u64, kind: u32 },
}

/// The state a call leaves behind, or why it failed.
pub open spec fn livestock_step(s: LivestockModel, env: EnvModel, call: LivestockCall) -> LivestockResult<
    LivestockModel,
> {
    match call {
        LivestockCall::Initialize { registrar } => Ok(initialize_spec(s, registrar)),
        LivestockCall::RegisterAnimal { registrar, owner } => {
            match register_animal_spec(s, env, registrar, owner) {
                Ok((s2, _)) => Ok(s2),
                Err(e) => Err(e),
            }
        },
        LivestockCall::TransferAnimal { from, to, animal_id } => transfer_animal_spec(
            s,
            env,
            from,
            to,
            animal_id,
        ),
        LivestockCall::RecordEvent { animal_id, kind } => record_event_spec(s, env, animal_id, kind),
    }
}

/// Every call keeps the storage consistent: registrar and counter stored
/// together, each animal under its own identifier and registered after
/// initialization, histories only for stored animals.
pub proof fn law_storage_stays_consistent(s: LivestockModel, env: EnvModel, call: LivestockCall)
    requires
        storage_consistent(s.storage),
        livestock_step(s, env, call) is Ok,
    ensures
        storage_consistent(livestock_step(s, env, call).unwrap().storage),
{
}

/// Each registration creates a new animal: two successive registrations get
/// successive, hence different, identifiers.
pub proof fn law_registrations_get_distinct_ids(
    s: LivestockModel,
    env1: EnvModel,
    registrar1: Seq<u8>,
    owner1: Seq<u8>,
    env2: EnvModel,
    registrar2: Seq<u8>,
    owner2: Seq<u8>,
)
    requires
        register_animal_spec(s, env1, registrar1, owner1) is Ok,
        register_animal_spec(
            register_animal_spec(s, env1, registrar1, owner1).unwrap().0,
            env2,
            registrar2,
            owner2,
        ) is Ok,
    ensures
        ({
            let (s1, id1) = register_animal_spec(s, env1, registrar1, owner1).unwrap();
            let (_, id2) = register_animal_spec(s1, env2, registrar2, owner2).unwrap();
            &&& id2 == id1 + 1
            &&& id1 != id2
        }),
{
}

/// A registered animal is found under the identifier registration returned:
/// owned by the given owner and active. The identifier is the counter value.
pub proof fn law_registered_animal_is_found(
    s: LivestockModel,
    env: EnvModel,
    registrar: Seq<u8>,
    owner: Seq<u8>,
)
    requires
        register_animal_spec(s, env, registrar, owner) is Ok,
    ensures
        ({
            let (s2, id) = register_animal_spec(s, env, registrar, owner).unwrap();
            &&& id == (match s.storage.next_id {
        Some(n) => n,
        None => 1u64,
    })
            &&& get_animal_spec(s2, id) == Ok::<AnimalModel, Fault<LivestockError>>(
                AnimalModel { id, owner, status: STATUS_ACTIVE },
            )
        }),
{
}

/// Only the stored registrar registers animals, and only with its
/// authorization; with both, on an initialized contract whose counter has
/// room, registration succeeds.
pub proof fn law_registration_needs_the_registrar(
    s: LivestockModel,
    env: EnvModel,
    registrar: Seq<u8>,
    owner: Seq<u8>,
)
    requires
        storage_consistent(s.storage),
    ensures
        register_animal_spec(s, env, registrar, owner) is Ok <==> (env.authorizes(registrar)
            && s.storage.registrar == Some(registrar) && s.storage.next_id != Some(u64::MAX)),
{
}

/// A transfer needs the authorization of both the current owner and the
/// recipient; it hands the animal to the recipient, keeps its identifier
/// and status, and publishes the transfer.
pub proof fn law_transfer_needs_both_parties(
    s: LivestockModel,
    env: EnvModel,
    from: Seq<u8>,
    to: Seq<u8>,
    animal_id: u64,
)
    requires
        transfer_animal_spec(s, env, from, to, animal_id) is Ok,
    ensures
        ({
            let s2 = transfer_animal_spec(s, env, from, to, animal_id).unwrap();
            let before = s.storage.animals[animal_id];
            &&& env.authorizes(from)
            &&& env.authorizes(to)
            &&& before.owner == from
            &&& get_animal_spec(s2, animal_id) == Ok::<AnimalModel, Fault<LivestockError>>(
                AnimalModel { id: before.id, owner: to, status: before.status },
            )
            &&& s2.events == s.events.push(AnimalTransferredModel { animal_id, from, to })
        }),
{
}

/// Only the owner records events, with its authorization; the event is
/// appended to the animal's history with the owner as actor.
pub proof fn law_only_owner_records_events(
    s: LivestockModel,
    env: EnvModel,
    animal_id: u64,
    kind: u32,
)
    requires
        record_event_spec(s, env, animal_id, kind) is Ok,
    ensures
        ({
            let s2 = record_event_spec(s, env, animal_id, kind).unwrap();
            let owner = s.storage.animals[animal_id].owner;
            &&& env.authorizes(owner)
            &&& get_animal_events_spec(s2, animal_id) == get_animal_events_spec(s, animal_id).push(
                AnimalEventModel { animal_id, kind, actor: owner },
            )
        }),
{
}

/// Histories only grow: what was recorded for an animal stays recorded, in
/// the same order, at the front.
pub proof fn law_histories_grow(s: LivestockModel, env: EnvModel, call: LivestockCall, animal_id: u64)
    requires
        livestock_step(s, env, call) is Ok,
    ensures
        ({
            let before = get_animal_events_spec(s, animal_id);
            let after = get_animal_events_spec(livestock_step(s, env, call).unwrap(), animal_id);
            &&& before.len() <= after.len()
            &&& after.subrange(0, before.len() as int) == before
        }),
{
    let before = get_animal_events_spec(s, animal_id);
    let after = get_animal_events_spec(livestock_step(s, env, call).unwrap(), animal_id);
    assert(after.subrange(0, before.len() as int) =~= before);
}

/// After `initialize(registrar)` the registrar, with its authorization,
/// registers the next animal under identifier 1.
pub proof fn law_initialize_starts_at_one(
    s: LivestockModel,
    registrar: Seq<u8>,
    env: EnvModel,
    owner: Seq<u8>,
)
    requires
        env.authorizes(registrar),
    ensures
        register_animal_spec(initialize_spec(s, registrar), env, registrar, owner) is Ok,
        register_animal_spec(initialize_spec(s, registrar), env, registrar, owner).unwrap().1 == 1,
{
}

} // verus!
