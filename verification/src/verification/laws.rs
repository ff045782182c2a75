//! Properties of the verification contract that span calls.
use vstd::prelude::*;

use crate::common::{EnvModel, Fault};
use crate::table::listed;
use crate::verification::{
    create_verification_spec, get_batch_verifications_spec, get_verification_spec,
    initialize_spec, revoke_verification_spec, storage_consistent,
    VerificationContractModel, VerificationError, VerificationEventModel, VerificationModel,
    VerificationResult,
};

verus! {

/// A state-changing call of the verification contract.
pub enum VerificationCall {
    Initialize { admin: Seq<u8>, authority: Seq<u8> },
    CreateVerification { batch: Seq<u8>, subject: Seq<u8>, proof_hash: Seq<u8>, issuer: Seq<u8> },
    RevokeVerification { authority: Seq<u8>, id: u64, reason_hash: Seq<u8> },
}

/// The state a call leaves behind, or why it failed.
pub open spec fn verification_step(
    s: VerificationContractModel,
    env: EnvModel,
    call: VerificationCall,
) -> VerificationResult<VerificationContractModel> {
    match call {
        VerificationCall::Initialize { admin, authority } => initialize_spec(s, env, admin, authority),
        VerificationCall::CreateVerification { batch, subject, proof_hash, issuer } => {
            match create_verification_spec(s, env, batch, subject, proof_hash, issuer) {
                Ok((s2, _)) => Ok(s2),
                Err(e) => Err(e),
            }
        },
        VerificationCall::RevokeVerification { authority, id, reason_hash } => revoke_verification_spec(
            s,
            env,
            authority,
            id,
            reason_hash,
        ),
    }
}

/// The call does not issue an identifier that is already in use (only a
/// creation after the counter was restarted by `initialize` does).
pub open spec fn issues_fresh_id(s: VerificationContractModel, call: VerificationCall) -> bool {
    call is CreateVerification ==> !s.storage.records.contains_key((match s.storage.next_id {
        Some(n) => n,
        None => 1u64,
    }))
}

/// Issuing a record hands out the current counter value, advances the
/// counter by one, stores the record as issued (not revoked) and lists its
/// identifier last under its batch.
pub proof fn law_issued_record_is_found(
    s: VerificationContractModel,
    env: EnvModel,
    batch: Seq<u8>,
    subject: Seq<u8>,
    proof_hash: Seq<u8>,
    issuer: Seq<u8>,
)
    requires
        create_verification_spec(s, env, batch, subject, proof_hash, issuer) is Ok,
    ensures
        ({
            let (s2, id) = create_verification_spec(s, env, batch, subject, proof_hash, issuer).unwrap();
            &&& id == (match s.storage.next_id {
        Some(n) => n,
        None => 1u64,
    })
            &&& s2.storage.next_id == Some((id + 1) as u64)
            &&& get_verification_spec(s2, id) == Ok::<_, Fault<VerificationError>>(
                VerificationModel {
                    id: id,
                    batch,
                    subject,
                    proof_hash,
                    issuer,
                    issued_ledger: env.sequence,
                    revoked: false,
                    revoked_ledger: None,
                },
            )
            &&& !get_verification_spec(s2, id).unwrap().revoked
            &&& get_batch_verifications_spec(s2, batch) == get_batch_verifications_spec(s, batch).push(
                id,
            )
        }),
{
}

/// Identifiers are issued consecutively: of two successive issues the
/// second gets the first's identifier plus one.
pub proof fn law_ids_consecutive(
    s: VerificationContractModel,
    env: EnvModel,
    batch: Seq<u8>,
    subject: Seq<u8>,
    proof_hash: Seq<u8>,
    issuer: Seq<u8>,
    env2: EnvModel,
    batch2: Seq<u8>,
    subject2: Seq<u8>,
    proof_hash2: Seq<u8>,
    issuer2: Seq<u8>,
)
    requires
        create_verification_spec(s, env, batch, subject, proof_hash, issuer) is Ok,
        create_verification_spec(
            create_verification_spec(s, env, batch, subject, proof_hash, issuer).unwrap().0,
            env2,
            batch2,
            subject2,
            proof_hash2,
            issuer2,
        ) is Ok,
    ensures
        create_verification_spec(
            create_verification_spec(s, env, batch, subject, proof_hash, issuer).unwrap().0,
            env2,
            batch2,
            subject2,
            proof_hash2,
            issuer2,
        ).unwrap().1 == create_verification_spec(s, env, batch, subject, proof_hash, issuer).unwrap().1
            + 1,
{
}

/// After `initialize` the next record issued gets identifier 1.
pub proof fn law_initialize_starts_at_one(
    s: VerificationContractModel,
    env: EnvModel,
    admin: Seq<u8>,
    authority: Seq<u8>,
    env2: EnvModel,
    batch: Seq<u8>,
    subject: Seq<u8>,
    proof_hash: Seq<u8>,
    issuer: Seq<u8>,
)
    requires
        initialize_spec(s, env, admin, authority) is Ok,
        create_verification_spec(
            initialize_spec(s, env, admin, authority).unwrap(),
            env2,
            batch,
            subject,
            proof_hash,
            issuer,
        ) is Ok,
    ensures
        create_verification_spec(
            initialize_spec(s, env, admin, authority).unwrap(),
            env2,
            batch,
            subject,
            proof_hash,
            issuer,
        ).unwrap().1 == 1,
{
}

/// Only the verification authority issues records, and only with its
/// authorization: a creation that lacks it fails for want of authorization
/// and changes nothing.
pub proof fn law_only_authority_issues(
    s: VerificationContractModel,
    env: EnvModel,
    batch: Seq<u8>,
    subject: Seq<u8>,
    proof_hash: Seq<u8>,
    issuer: Seq<u8>,
)
    ensures
        create_verification_spec(s, env, batch, subject, proof_hash, issuer) is Ok
            ==> s.storage.authority == Some(issuer) && env.authorizes(issuer),
        !env.authorizes(issuer) ==> create_verification_spec(
            s,
            env,
            batch,
            subject,
            proof_hash,
            issuer,
        ) == Err::<(VerificationContractModel, u64), Fault<VerificationError>>(Fault::MissingAuth),
{
}

/// A revoked record reads back as revoked at this ledger, and revoking it
/// again succeeds without changing anything, whatever the reason given.
pub proof fn law_revocation_is_idempotent(
    s: VerificationContractModel,
    env: EnvModel,
    authority: Seq<u8>,
    id: u64,
    reason_hash: Seq<u8>,
    env2: EnvModel,
    reason_hash2: Seq<u8>,
)
    requires
        revoke_verification_spec(s, env, authority, id, reason_hash) is Ok,
        env2.authorizes(authority),
    ensures
        ({
            let s2 = revoke_verification_spec(s, env, authority, id, reason_hash).unwrap();
            &&& get_verification_spec(s2, id).unwrap().revoked
            &&& (!get_verification_spec(s, id).unwrap().revoked ==> get_verification_spec(
                s2,
                id,
            ).unwrap().revoked_ledger == Some(env.sequence))
            &&& revoke_verification_spec(s2, env2, authority, id, reason_hash2)
                == Ok::<_, Fault<VerificationError>>(s2)
        }),
{
}

/// No call removes a record; a revoked record stays revoked with its
/// revocation ledger, unless a creation reuses its identifier.
pub proof fn law_records_persist(
    s: VerificationContractModel,
    env: EnvModel,
    call: VerificationCall,
    id: u64,
)
    requires
        verification_step(s, env, call) is Ok,
        issues_fresh_id(s, call),
        s.storage.records.contains_key(id),
    ensures
        ({
            let s2 = verification_step(s, env, call).unwrap();
            let before: VerificationModel = s.storage.records[id];
            &&& s2.storage.records.contains_key(id)
            &&& before.revoked ==> s2.storage.records[id] == before
        }),
{
}

/// Batch lists only grow: what was listed under a batch stays listed, in
/// the same order, at the front.
pub proof fn law_batch_lists_grow(
    s: VerificationContractModel,
    env: EnvModel,
    call: VerificationCall,
    batch: Seq<u8>,
)
    requires
        verification_step(s, env, call) is Ok,
    ensures
        ({
            let before = listed(s.storage.batches, batch);
            let after = listed(verification_step(s, env, call).unwrap().storage.batches, batch);
            &&& before.len() <= after.len()
            &&& after.subrange(0, before.len() as int) == before
        }),
{
    let before = listed(s.storage.batches, batch);
    let after = listed(verification_step(s, env, call).unwrap().storage.batches, batch);
    assert(after.subrange(0, before.len() as int) =~= before);
}

/// A successful call publishes at most one event and keeps the earlier ones.
pub proof fn law_events_only_appended(
    s: VerificationContractModel,
    env: EnvModel,
    call: VerificationCall,
)
    requires
        verification_step(s, env, call) is Ok,
    ensures
        ({
            let s2 = verification_step(s, env, call).unwrap();
            &&& s.events.len() <= s2.events.len() <= s.events.len() + 1
            &&& s2.events.subrange(0, s.events.len() as int) == s.events
        }),
{
    let s2 = verification_step(s, env, call).unwrap();
    assert(s2.events.subrange(0, s.events.len() as int) =~= s.events);
}

/// Every call keeps the storage consistent: admin, verification authority
/// and counter stored together, every record and batch list written after
/// initialization, each record under its own identifier.
pub proof fn law_storage_stays_consistent(
    s: VerificationContractModel,
    env: EnvModel,
    call: VerificationCall,
)
    requires
        storage_consistent(s.storage),
        verification_step(s, env, call) is Ok,
    ensures
        storage_consistent(verification_step(s, env, call).unwrap().storage),
{
}

/// On consistent storage a call traps only when a creation finds the
/// counter at its maximum.
pub proof fn law_traps_only_on_overflow(
    s: VerificationContractModel,
    env: EnvModel,
    call: VerificationCall,
)
    requires
        storage_consistent(s.storage),
        verification_step(s, env, call) == Err::<
            VerificationContractModel,
            Fault<VerificationError>,
        >(Fault::Abort),
    ensures
        call is CreateVerification,
        s.storage.next_id == Some(u64::MAX),
{
}

/// On an initialized contract whose counter has room, when the stored
/// verification authority issues with its authorization: an empty batch
/// reference or proof hash fails with `InvalidInput`; anything else stores
/// a record, issued at this ledger and not revoked, under the counter value,
/// lists it last under its batch, advances the counter, publishes the
/// creation and returns the identifier.
pub proof fn law_create_verification_outcome(
    s: VerificationContractModel,
    env: EnvModel,
    batch: Seq<u8>,
    subject: Seq<u8>,
    proof_hash: Seq<u8>,
    issuer: Seq<u8>,
)
    requires
        storage_consistent(s.storage),
        s.storage.admin is Some,
        s.storage.authority == Some(issuer),
        env.authorizes(issuer),
        s.storage.next_id != Some(u64::MAX),
    ensures
        ({
            let r = create_verification_spec(s, env, batch, subject, proof_hash, issuer);
            let n = (match s.storage.next_id {
        Some(n) => n,
        None => 1u64,
    });
            let rec = VerificationModel {
                    id: n,
                    batch,
                    subject,
                    proof_hash,
                    issuer,
                    issued_ledger: env.sequence,
                    revoked: false,
                    revoked_ledger: None,
                };
            &&& (batch.len() == 0 || proof_hash.len() == 0) ==> r == Err::<
                (VerificationContractModel, u64),
                Fault<VerificationError>,
            >(Fault::Contract(VerificationError::InvalidInput))
            &&& !(batch.len() == 0 || proof_hash.len() == 0) ==> {
                &&& r is Ok
                &&& r.unwrap().1 == n
                &&& get_verification_spec(r.unwrap().0, n) == Ok::<
                    VerificationModel,
                    Fault<VerificationError>,
                >(rec)
                &&& get_batch_verifications_spec(r.unwrap().0, batch)
                    == get_batch_verifications_spec(s, batch).push(n)
                &&& r.unwrap().0.storage.next_id == Some((n + 1) as u64)
                &&& r.unwrap().0.events == s.events.push(
                    VerificationEventModel::VerificationCreated { verification_id: n, record: rec },
                )
            }
        }),
{
}

} // verus!
