//! The receive path end to end: the verification pipeline's rejection
//! reasons, idempotent receipt, and the round trip from the outbound
//! dispatcher to an accepting receiver.

use activity_exchange::actors::{Actor, ActorDirectory, ActorStatus};
use activity_exchange::apply::{ApplyOutcome, LocalStore};
use activity_exchange::dedup::DedupStore;
use activity_exchange::envelope::{ApubObject, EntityTag, Envelope, OpKind};
use activity_exchange::ids::{ActivityIdGenerator, Uri};
use activity_exchange::outbound::{send_create_or_update_pm, DeliveryQueue};
use activity_exchange::pipeline::{verify_envelope, Rejection};
use activity_exchange::receive::{receive, ReceiveOutcome};

fn uri(s: &str) -> Uri {
    Uri::parse(s).expect("absolute URL with a host")
}

fn alice() -> Actor {
    Actor {
        id: uri("https://a.example/u/alice"),
        inbox: uri("https://a.example/u/alice/inbox"),
        shared_inbox: Some(uri("https://a.example/inbox")),
        status: ActorStatus::Active,
        public_key: String::from("alice-key"),
    }
}

fn bob() -> Actor {
    Actor {
        id: uri("https://b.example/u/bob"),
        inbox: uri("https://b.example/u/bob/inbox"),
        shared_inbox: None,
        status: ActorStatus::Active,
        public_key: String::from("bob-key"),
    }
}

/// The envelope of the private-message scenario: alice on a.example
/// writes to bob on b.example.
fn pm_envelope() -> Envelope {
    Envelope {
        id: uri("https://a.example/activities/create/0"),
        op: OpKind::Create,
        actor: uri("https://a.example/u/alice"),
        to: vec![uri("https://b.example/u/bob")],
        cc: vec![],
        object: ApubObject {
            id: uri("https://a.example/pm/1"),
            attributed_to: uri("https://a.example/u/alice"),
            to: vec![uri("https://b.example/u/bob")],
            entity: EntityTag::PrivateMessage,
            content: String::from("hello bob"),
            published: 1,
            updated: None,
        },
    }
}

fn directory_trusting_alice() -> ActorDirectory {
    let mut dir = ActorDirectory::new();
    dir.refresh_actor(bob());
    dir.refresh_actor(alice());
    dir
}

#[test]
fn pm_scenario_accepted_and_applied() {
    let dir = directory_trusting_alice();
    let mut dedup = DedupStore::new();
    let mut store = LocalStore::new();
    let r = receive(&dir, &pm_envelope(), true, 50, &mut dedup, &mut store);
    assert_eq!(r, Ok(ReceiveOutcome::Applied(ApplyOutcome::Created)));
    assert_eq!(store.rows.len(), 1);
    assert_eq!(store.rows[0].id, "https://a.example/pm/1");
    assert_eq!(store.rows[0].content, "hello bob");
    assert_eq!(dedup.records.len(), 1);
    assert_eq!(dedup.records[0].id, "https://a.example/activities/create/0");
}

#[test]
fn duplicate_delivery_is_a_no_op() {
    let dir = directory_trusting_alice();
    let mut dedup = DedupStore::new();
    let mut store = LocalStore::new();
    let first = receive(&dir, &pm_envelope(), true, 50, &mut dedup, &mut store);
    assert_eq!(first, Ok(ReceiveOutcome::Applied(ApplyOutcome::Created)));
    // Same envelope again, as if delivered to the shared inbox as well.
    let second = receive(&dir, &pm_envelope(), true, 51, &mut dedup, &mut store);
    assert_eq!(second, Ok(ReceiveOutcome::Duplicate));
    assert_eq!(store.rows.len(), 1);
    assert_eq!(dedup.records.len(), 1);
}

#[test]
fn update_after_create_revises_in_place() {
    let dir = directory_trusting_alice();
    let mut dedup = DedupStore::new();
    let mut store = LocalStore::new();
    let created = receive(&dir, &pm_envelope(), true, 50, &mut dedup, &mut store);
    assert_eq!(created, Ok(ReceiveOutcome::Applied(ApplyOutcome::Created)));

    let mut edit = pm_envelope();
    edit.id = uri("https://a.example/activities/update/1");
    edit.op = OpKind::Update;
    edit.object.content = String::from("hello bob, edited");
    let updated = receive(&dir, &edit, true, 60, &mut dedup, &mut store);
    assert_eq!(updated, Ok(ReceiveOutcome::Applied(ApplyOutcome::Updated)));
    assert_eq!(store.rows.len(), 1);
    assert_eq!(store.rows[0].content, "hello bob, edited");
}

#[test]
fn unknown_actor_rejected() {
    let dir = ActorDirectory::new();
    assert_eq!(
        verify_envelope(&dir, &pm_envelope(), true).unwrap_err(),
        Rejection::ActorUnresolvable
    );
}

#[test]
fn banned_actor_rejected() {
    let mut dir = ActorDirectory::new();
    let mut a = alice();
    a.status = ActorStatus::Banned;
    dir.refresh_actor(a);
    assert_eq!(
        verify_envelope(&dir, &pm_envelope(), true).unwrap_err(),
        Rejection::ActorBanned
    );
}

#[test]
fn deleted_actor_rejected() {
    let mut dir = ActorDirectory::new();
    let mut a = alice();
    a.status = ActorStatus::Deleted;
    dir.refresh_actor(a);
    assert_eq!(
        verify_envelope(&dir, &pm_envelope(), true).unwrap_err(),
        Rejection::ActorDeleted
    );
}

#[test]
fn refresh_shadows_stale_status() {
    let mut dir = ActorDirectory::new();
    let mut stale = alice();
    stale.status = ActorStatus::Banned;
    dir.refresh_actor(stale);
    dir.refresh_actor(alice());
    assert!(verify_envelope(&dir, &pm_envelope(), true).is_ok());
}

#[test]
fn bad_signature_rejected() {
    let dir = directory_trusting_alice();
    assert_eq!(
        verify_envelope(&dir, &pm_envelope(), false).unwrap_err(),
        Rejection::BadSignature
    );
}

#[test]
fn domain_mismatch_rejected_without_side_effect() {
    let dir = directory_trusting_alice();
    let mut env = pm_envelope();
    // Object claims to live on the recipient's instance.
    env.object.id = uri("https://b.example/pm/1");
    env.object.attributed_to = uri("https://a.example/u/alice");
    let mut dedup = DedupStore::new();
    let mut store = LocalStore::new();
    let r = receive(&dir, &env, true, 50, &mut dedup, &mut store);
    assert_eq!(r, Err(Rejection::DomainMismatch));
    assert_eq!(store.rows.len(), 0);
    assert_eq!(dedup.records.len(), 0);
}

#[test]
fn recipient_mismatch_rejected() {
    let dir = directory_trusting_alice();
    let mut env = pm_envelope();
    env.to = vec![uri("https://c.example/u/carol")];
    assert_eq!(
        verify_envelope(&dir, &env, true).unwrap_err(),
        Rejection::RecipientMismatch
    );
}

#[test]
fn missing_recipient_rejected_for_single_recipient_kind() {
    let dir = directory_trusting_alice();
    let mut env = pm_envelope();
    env.to = vec![];
    assert_eq!(
        verify_envelope(&dir, &env, true).unwrap_err(),
        Rejection::RecipientMismatch
    );
}

#[test]
fn attribution_mismatch_rejected() {
    let dir = directory_trusting_alice();
    let mut env = pm_envelope();
    env.object.attributed_to = uri("https://a.example/u/mallory");
    assert_eq!(
        verify_envelope(&dir, &env, true).unwrap_err(),
        Rejection::AttributionMismatch
    );
}

#[test]
fn empty_body_rejected_as_invalid_object() {
    let dir = directory_trusting_alice();
    let mut env = pm_envelope();
    env.object.content = String::new();
    assert_eq!(
        verify_envelope(&dir, &env, true).unwrap_err(),
        Rejection::InvalidObject
    );
}

#[test]
fn round_trip_built_envelope_is_accepted() {
    // Sender side: alice's instance packages the message and queues it.
    let mut generator = ActivityIdGenerator::new(uri("https://a.example"));
    let mut queue = DeliveryQueue::new();
    let sent = send_create_or_update_pm(
        OpKind::Create,
        &alice(),
        &bob(),
        &uri("https://a.example/pm/7"),
        &String::from("round trip"),
        99,
        None,
        &mut generator,
        &mut queue,
    );
    assert!(sent.is_ok());
    let task = queue.take_next().unwrap();
    assert_eq!(task.targets.len(), 1);
    assert_eq!(task.targets[0].text, "https://b.example/u/bob/inbox");

    // Receiver side: bob's instance trusts alice and accepts.
    let dir = directory_trusting_alice();
    let mut dedup = DedupStore::new();
    let mut store = LocalStore::new();
    let r = receive(&dir, &task.envelope, true, 100, &mut dedup, &mut store);
    assert_eq!(r, Ok(ReceiveOutcome::Applied(ApplyOutcome::Created)));
    assert_eq!(store.rows[0].id, "https://a.example/pm/7");
    assert_eq!(store.rows[0].attributed_to, "https://a.example/u/alice");
}

#[test]
fn send_refuses_foreign_or_empty_message() {
    let mut generator = ActivityIdGenerator::new(uri("https://a.example"));
    let mut queue = DeliveryQueue::new();
    // Message claims to live on the recipient's instance.
    let foreign = send_create_or_update_pm(
        OpKind::Create,
        &alice(),
        &bob(),
        &uri("https://b.example/pm/7"),
        &String::from("x"),
        99,
        None,
        &mut generator,
        &mut queue,
    );
    assert!(foreign.is_err());
    let empty = send_create_or_update_pm(
        OpKind::Create,
        &alice(),
        &bob(),
        &uri("https://a.example/pm/7"),
        &String::new(),
        99,
        None,
        &mut generator,
        &mut queue,
    );
    assert!(empty.is_err());
    assert!(queue.take_next().is_none());
}
