//! The receive path: verify, deduplicate, apply.
//!
//! One logical operation per inbound envelope.  Rejected envelopes leave
//! no trace: neither the deduplication store nor local storage changes.
//! An envelope whose identifier is already recorded is a successful no-op
//! for the sender, and local storage again does not change.  Only a
//! verified, first-seen envelope is recorded and applied, so the apply
//! step runs at most once per activity identifier.

use vstd::prelude::*;
use crate::actors::ActorDirectory;
use crate::apply::{lookup, row_of, ApplyOutcome, LocalStore};
use crate::dedup::{record_accepts, record_next, DedupRecordModel, DedupStore};
use crate::envelope::Envelope;
use crate::pipeline::{expected_verdict, verify_envelope, Rejection};

verus! {

/// What a successful receipt did.
#[derive(Clone, Copy, PartialEq, Eq, Structural, Debug)]
pub enum ReceiveOutcome {
    /// First receipt: the payload reached local storage.
    Applied(ApplyOutcome),
    /// The identifier was already recorded; nothing was done.  Reported
    /// as success so that the sender does not retry.
    Duplicate,
}

/// Receives one inbound envelope: runs the verification pipeline, records
/// the activity identifier, and applies the payload when the identifier is
/// new.  `signature_valid` is the signature collaborator's verdict and
/// `now` the caller's clock reading for the receipt record.
pub fn receive(
    dir: &ActorDirectory,
    env: &Envelope,
    signature_valid: bool,
    now: u64,
    dedup: &mut DedupStore,
    store: &mut LocalStore,
) -> (r: Result<ReceiveOutcome, Rejection>)
    requires
        old(store).wf(),
    ensures
        final(store).wf(),
        match r {
            Err(rej) => {
                &&& expected_verdict(dir@, env@, signature_valid) matches Err(e) && e == rej
                &&& *final(dedup) == *old(dedup)
                &&& *final(store) == *old(store)
            },
            Ok(ReceiveOutcome::Duplicate) => {
                &&& expected_verdict(dir@, env@, signature_valid) is Ok
                &&& !record_accepts(old(dedup).seen_set(), env@.id.text)
                &&& *final(dedup) == *old(dedup)
                &&& *final(store) == *old(store)
            },
            Ok(ReceiveOutcome::Applied(a)) => {
                &&& expected_verdict(dir@, env@, signature_valid) is Ok
                &&& record_accepts(old(dedup).seen_set(), env@.id.text)
                &&& final(dedup)@ == old(dedup)@.push(
                    DedupRecordModel { id: env@.id.text, received_at: now },
                )
                &&& final(dedup).seen_set() == record_next(old(dedup).seen_set(), env@.id.text)
                &&& lookup(final(store)@, env@.object.id.text) == Some(row_of(env@.object))
                &&& forall|x: Seq<char>|
                    x != env@.object.id.text ==> lookup(final(store)@, x) == lookup(
                        old(store)@,
                        x,
                    )
                &&& ((a is Updated) <==> (lookup(old(store)@, env@.object.id.text) is Some))
            },
        },
{
    match verify_envelope(dir, env, signature_valid) {
        Err(rej) => Err(rej),
        Ok(_actor) => match dedup.record_if_new(&env.id, now) {
            Err(_) => Ok(ReceiveOutcome::Duplicate),
            Ok(()) => Ok(ReceiveOutcome::Applied(store.apply(&env.object))),
        },
    }
}

} // verus!
