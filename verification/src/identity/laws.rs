//! Properties of the identity contract that span calls.
use vstd::prelude::*;

use crate::common::{EnvModel, Fault};
use crate::identity::{
    get_farmer_spec, initialize_spec, is_registered_spec, register_farmer_spec,
    set_verification_marker_spec, storage_consistent, update_metadata_spec, IdentityError, IdentityModel,
    FarmerModel, IdentityResult, MarkerModel,
};

verus! {

/// A state-changing call of the identity contract.
pub enum IdentityCall {
    Initialize { admin: Seq<u8> },
    RegisterFarmer { farmer: Seq<u8>, metadata_hash: Seq<u8> },
    UpdateMetadata { farmer: Seq<u8>, metadata_hash: Seq<u8> },
    SetVerificationMarker { admin: Seq<u8>, farmer: Seq<u8>, marker: MarkerModel },
}

/// The state a call leaves behind, or why it failed.
pub open spec fn identity_step(s: IdentityModel, env: EnvModel, call: IdentityCall) -> IdentityResult<
    IdentityModel,
> {
    match call {
        IdentityCall::Initialize { admin } => initialize_spec(s, env, admin),
        IdentityCall::RegisterFarmer { farmer, metadata_hash } => match register_farmer_spec(
            s,
            env,
            farmer,
            metadata_hash,
        ) {
            Ok((s2, _)) => Ok(s2),
            Err(e) => Err(e),
        },
        IdentityCall::UpdateMetadata { farmer, metadata_hash } => match update_metadata_spec(
            s,
            env,
            farmer,
            metadata_hash,
        ) {
            Ok((s2, _)) => Ok(s2),
            Err(e) => Err(e),
        },
        IdentityCall::SetVerificationMarker { admin, farmer, marker } => set_verification_marker_spec(
            s,
            env,
            admin,
            farmer,
            marker,
        ),
    }
}

/// A farmer who has registered is registered, and looking the farmer up
/// gives the record that registration returned: the farmer's address, the
/// given metadata hash, no markers, created and updated at this ledger.
pub proof fn law_registered_farmer_is_found(
    s: IdentityModel,
    env: EnvModel,
    farmer: Seq<u8>,
    metadata_hash: Seq<u8>,
)
    requires
        register_farmer_spec(s, env, farmer, metadata_hash) is Ok,
    ensures
        ({
            let (s2, rec) = register_farmer_spec(s, env, farmer, metadata_hash).unwrap();
            &&& is_registered_spec(s2, farmer)
            &&& get_farmer_spec(s2, farmer) == Ok::<_, Fault<IdentityError>>(rec)
            &&& rec.address == farmer
            &&& rec.metadata_hash == metadata_hash
            &&& rec.verification_markers.len() == 0
            &&& rec.created_ledger == env.sequence
            &&& rec.updated_ledger == env.sequence
        }),
{
}

/// A farmer registers at most once: once registered, registering again
/// fails with `AlreadyRegistered` (or for want of the farmer's authorization).
pub proof fn law_no_second_registration(
    s: IdentityModel,
    env: EnvModel,
    farmer: Seq<u8>,
    metadata_hash: Seq<u8>,
    env2: EnvModel,
    metadata_hash2: Seq<u8>,
)
    requires
        register_farmer_spec(s, env, farmer, metadata_hash) is Ok,
    ensures
        register_farmer_spec(
            register_farmer_spec(s, env, farmer, metadata_hash).unwrap().0,
            env2,
            farmer,
            metadata_hash2,
        ) == Err::<(IdentityModel, FarmerModel), _>(
            if env2.authorizes(farmer) {
                Fault::Contract(IdentityError::AlreadyRegistered)
            } else {
                Fault::MissingAuth
            },
        ),
{
}

/// Looking a farmer up after a metadata update gives the new hash, while the
/// address, the markers and the creation ledger stay as they were.
pub proof fn law_update_reads_back(
    s: IdentityModel,
    env: EnvModel,
    farmer: Seq<u8>,
    metadata_hash: Seq<u8>,
)
    requires
        update_metadata_spec(s, env, farmer, metadata_hash) is Ok,
    ensures
        ({
            let (s2, rec) = update_metadata_spec(s, env, farmer, metadata_hash).unwrap();
            let before = get_farmer_spec(s, farmer).unwrap();
            &&& get_farmer_spec(s2, farmer) == Ok::<_, Fault<IdentityError>>(rec)
            &&& rec.metadata_hash == metadata_hash
            &&& rec.address == before.address
            &&& rec.verification_markers == before.verification_markers
            &&& rec.created_ledger == before.created_ledger
            &&& rec.updated_ledger == env.sequence
        }),
{
}

/// Setting a marker appends it to the farmer's markers.
pub proof fn law_marker_appended(
    s: IdentityModel,
    env: EnvModel,
    admin: Seq<u8>,
    farmer: Seq<u8>,
    marker: MarkerModel,
)
    requires
        set_verification_marker_spec(s, env, admin, farmer, marker) is Ok,
    ensures
        get_farmer_spec(
            set_verification_marker_spec(s, env, admin, farmer, marker).unwrap(),
            farmer,
        ).unwrap().verification_markers == get_farmer_spec(s, farmer).unwrap().verification_markers.push(
            marker,
        ),
{
}

/// Only the stored admin sets markers: any other caller fails.
pub proof fn law_only_admin_sets_markers(
    s: IdentityModel,
    env: EnvModel,
    caller: Seq<u8>,
    farmer: Seq<u8>,
    marker: MarkerModel,
)
    requires
        s.storage.admin != Some(caller),
    ensures
        set_verification_marker_spec(s, env, caller, farmer, marker) is Err,
{
}

/// Registration and profile changes need an initialized contract.
pub proof fn law_uninitialized_refuses_farmers(
    s: IdentityModel,
    env: EnvModel,
    farmer: Seq<u8>,
    metadata_hash: Seq<u8>,
)
    requires
        s.storage.admin is None,
        env.authorizes(farmer),
    ensures
        register_farmer_spec(s, env, farmer, metadata_hash) == Err::<(IdentityModel, FarmerModel), _>(
            Fault::Contract(IdentityError::NotInitialized),
        ),
        update_metadata_spec(s, env, farmer, metadata_hash) == Err::<(IdentityModel, FarmerModel), _>(
            Fault::Contract(IdentityError::NotInitialized),
        ),
{
}

/// Every successful call publishes exactly one event and keeps the earlier
/// ones as they were.
pub proof fn law_one_event_per_call(s: IdentityModel, env: EnvModel, call: IdentityCall)
    requires
        identity_step(s, env, call) is Ok,
    ensures
        ({
            let s2 = identity_step(s, env, call).unwrap();
            &&& s2.events.len() == s.events.len() + 1
            &&& s2.events.subrange(0, s.events.len() as int) == s.events
        }),
{
    let s2 = identity_step(s, env, call).unwrap();
    assert(s2.events.subrange(0, s.events.len() as int) =~= s.events);
}

/// No call unregisters a farmer, changes a record's address or creation
/// ledger, or drops a marker: the old markers stay a prefix of the new ones.
pub proof fn law_records_persist(s: IdentityModel, env: EnvModel, call: IdentityCall, farmer: Seq<u8>)
    requires
        identity_step(s, env, call) is Ok,
        s.storage.farmers.contains_key(farmer),
    ensures
        ({
            let s2 = identity_step(s, env, call).unwrap();
            let before = s.storage.farmers[farmer];
            let after = s2.storage.farmers[farmer];
            &&& s2.storage.farmers.contains_key(farmer)
            &&& after.address == before.address
            &&& after.created_ledger == before.created_ledger
            &&& after.verification_markers.len() >= before.verification_markers.len()
            &&& after.verification_markers.subrange(0, before.verification_markers.len() as int)
                == before.verification_markers
        }),
{
    let s2 = identity_step(s, env, call).unwrap();
    let before = s.storage.farmers[farmer];
    let after = s2.storage.farmers[farmer];
    assert(before.verification_markers.subrange(0, before.verification_markers.len() as int)
        =~= before.verification_markers);
    if let IdentityCall::SetVerificationMarker { admin, farmer: f, marker } = call {
        if f == farmer {
            assert(after.verification_markers.subrange(0, before.verification_markers.len() as int)
                =~= before.verification_markers);
        }
    }
}

/// Every call keeps the storage consistent: every registered farmer is
/// filed under its own address and registered after initialization.
pub proof fn law_storage_stays_consistent(s: IdentityModel, env: EnvModel, call: IdentityCall)
    requires
        storage_consistent(s.storage),
        identity_step(s, env, call) is Ok,
    ensures
        storage_consistent(identity_step(s, env, call).unwrap().storage),
{
}

/// A call traps only when an authorized caller sets a marker before any
/// admin is stored.
pub proof fn law_traps_only_without_admin(s: IdentityModel, env: EnvModel, call: IdentityCall)
    requires
        identity_step(s, env, call) == Err::<IdentityModel, Fault<IdentityError>>(Fault::Abort),
    ensures
        call is SetVerificationMarker,
        s.storage.admin is None,
{
}

} // verus!
