//! The inbound verification pipeline.
//!
//! A fixed sequence of checks runs against every inbound envelope before
//! it is trusted, in strict order; the first failing check rejects the
//! envelope with its specific reason and no later check runs.  No step is
//! ever skipped for any activity kind.  Everything here is pure
//! computation over the envelope, the directory snapshot and the signature
//! collaborator's verdict.

use vstd::prelude::*;
use crate::actors::{resolution, Actor, ActorDirectory, ActorModel, ResolveError};
use crate::envelope::{
    attribution_consistent, check_attribution, check_domain, check_object, check_recipients,
    domain_consistent, object_valid, recipient_consistent, single_recipient, Envelope,
    EnvelopeModel,
};

verus! {

/// Why an inbound envelope was rejected.  Every reason is terminal for
/// that envelope: it marks an adversarial or permanently malformed
/// message, never a transient condition, and is never retried locally.
#[derive(Clone, Copy, PartialEq, Eq, Structural, Debug)]
pub enum Rejection {
    /// The envelope's actor does not resolve.
    ActorUnresolvable,
    /// The actor resolves but is suspended.
    ActorBanned,
    /// The actor resolves but is deleted.
    ActorDeleted,
    /// The signature collaborator refused the envelope.
    BadSignature,
    /// The actor and the embedded object live on different hosts.
    DomainMismatch,
    /// Envelope-level and object-level addressing disagree.
    RecipientMismatch,
    /// The object is not attributed to the envelope's actor.
    AttributionMismatch,
    /// The embedded object fails its entity-specific checks.
    InvalidObject,
}

/// How a resolution failure surfaces as a pipeline rejection.
pub open spec fn rejection_of_resolve(e: ResolveError) -> Rejection {
    match e {
        ResolveError::ActorUnresolvable => Rejection::ActorUnresolvable,
        ResolveError::ActorBanned => Rejection::ActorBanned,
        ResolveError::ActorDeleted => Rejection::ActorDeleted,
    }
}

/// The verdict the pipeline owes on an envelope: the checks in their
/// strict order, short-circuiting to the first failure.  `signature_valid`
/// is the signature collaborator's verdict on the envelope against the
/// resolved actor's key material.
pub open spec fn expected_verdict(
    dir: Seq<ActorModel>,
    env: EnvelopeModel,
    signature_valid: bool,
) -> Result<ActorModel, Rejection> {
    match resolution(dir, env.actor.text) {
        Err(e) => Err(rejection_of_resolve(e)),
        Ok(a) => if !signature_valid {
            Err(Rejection::BadSignature)
        } else if !domain_consistent(env) {
            Err(Rejection::DomainMismatch)
        } else if !recipient_consistent(env) {
            Err(Rejection::RecipientMismatch)
        } else if !attribution_consistent(env) {
            Err(Rejection::AttributionMismatch)
        } else if !object_valid(env.object) {
            Err(Rejection::InvalidObject)
        } else {
            Ok(a)
        },
    }
}

/// Runs the pipeline on one envelope and returns the resolved actor on
/// acceptance, or the specific reason on rejection.
pub fn verify_envelope(dir: &ActorDirectory, env: &Envelope, signature_valid: bool) -> (r: Result<
    Actor,
    Rejection,
>)
    ensures
        match r {
            Ok(a) => expected_verdict(dir@, env@, signature_valid) == Ok::<ActorModel, Rejection>(
                a@,
            ),
            Err(rej) => expected_verdict(dir@, env@, signature_valid) == Err::<
                ActorModel,
                Rejection,
            >(rej),
        },
{
    let actor = match dir.resolve(&env.actor) {
        Ok(a) => a,
        Err(ResolveError::ActorUnresolvable) => {
            return Err(Rejection::ActorUnresolvable);
        },
        Err(ResolveError::ActorBanned) => {
            return Err(Rejection::ActorBanned);
        },
        Err(ResolveError::ActorDeleted) => {
            return Err(Rejection::ActorDeleted);
        },
    };
    if !signature_valid {
        return Err(Rejection::BadSignature);
    }
    if !check_domain(env) {
        return Err(Rejection::DomainMismatch);
    }
    if !check_recipients(env) {
        return Err(Rejection::RecipientMismatch);
    }
    if !check_attribution(env) {
        return Err(Rejection::AttributionMismatch);
    }
    if !check_object(&env.object) {
        return Err(Rejection::InvalidObject);
    }
    Ok(actor)
}

/// An envelope whose actor and embedded object live on different hosts is
/// never accepted; when it is otherwise presentable (its actor resolves as
/// active and its signature holds), the reason is `DomainMismatch`
/// exactly.
pub proof fn lemma_domain_mismatch_rejected(
    dir: Seq<ActorModel>,
    env: EnvelopeModel,
    signature_valid: bool,
)
    requires
        env.actor.host != env.object.id.host,
    ensures
        expected_verdict(dir, env, signature_valid) is Err,
        resolution(dir, env.actor.text) is Ok && signature_valid ==> expected_verdict(
            dir,
            env,
            signature_valid,
        ) == Err::<ActorModel, Rejection>(Rejection::DomainMismatch),
{
}

/// A single-recipient envelope whose envelope-level recipient differs from
/// its object-level recipient is never accepted; when the earlier steps
/// pass, the reason is `RecipientMismatch` exactly.
pub proof fn lemma_recipient_mismatch_rejected(
    dir: Seq<ActorModel>,
    env: EnvelopeModel,
    signature_valid: bool,
)
    requires
        single_recipient(env.object.entity),
        env.to.len() == 1,
        env.object.to.len() == 1,
        env.to[0].text != env.object.to[0].text,
    ensures
        expected_verdict(dir, env, signature_valid) is Err,
        resolution(dir, env.actor.text) is Ok && signature_valid && domain_consistent(env)
            ==> expected_verdict(dir, env, signature_valid) == Err::<ActorModel, Rejection>(
            Rejection::RecipientMismatch,
        ),
{
}

/// An envelope whose object is attributed to a different actor than the
/// envelope names is never accepted; when the earlier steps pass, the
/// reason is `AttributionMismatch` exactly.
pub proof fn lemma_attribution_mismatch_rejected(
    dir: Seq<ActorModel>,
    env: EnvelopeModel,
    signature_valid: bool,
)
    requires
        env.actor.text != env.object.attributed_to.text,
    ensures
        expected_verdict(dir, env, signature_valid) is Err,
        resolution(dir, env.actor.text) is Ok && signature_valid && domain_consistent(env)
            && recipient_consistent(env) ==> expected_verdict(dir, env, signature_valid) == Err::<
            ActorModel,
            Rejection,
        >(Rejection::AttributionMismatch),
{
}

} // verus!
