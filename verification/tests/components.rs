//! Component-level behaviour: identifiers, identity generation, target
//! resolution, deduplication, the apply step and the delivery queue.

use activity_exchange::actors::{Actor, ActorStatus};
use activity_exchange::apply::{ApplyOutcome, LocalStore};
use activity_exchange::dedup::DedupStore;
use activity_exchange::envelope::{ApubObject, EntityTag, OpKind};
use activity_exchange::ids::{ActivityIdGenerator, Uri};
use activity_exchange::outbound::{
    DeliveryOutcome, DeliveryQueue, DeliveryStatus, OutboundActivity,
};
use activity_exchange::targets::{inbox_of, resolve_targets, shared_inbox_or_inbox};

fn uri(s: &str) -> Uri {
    Uri::parse(s).expect("absolute URL with a host")
}

fn actor(id: &str, inbox: &str, shared: Option<&str>, status: ActorStatus) -> Actor {
    Actor {
        id: uri(id),
        inbox: uri(inbox),
        shared_inbox: shared.map(uri),
        status,
        public_key: String::from("key-pem"),
    }
}

#[test]
fn parse_extracts_host() {
    let u = uri("https://a.example/u/alice");
    assert_eq!(u.text, "https://a.example/u/alice");
    assert_eq!(u.host, "a.example");

    let v = uri("https://sub.b.example:8443/inbox?x=1");
    assert_eq!(v.host, "sub.b.example");
}

#[test]
fn parse_rejects_hostless_and_relative() {
    assert!(Uri::parse("not a url").is_none());
    assert!(Uri::parse("/u/alice").is_none());
    assert!(Uri::parse("data:text/plain,x").is_none());
}

#[test]
fn generator_mints_expected_texts() {
    let mut g = ActivityIdGenerator::new(uri("https://a.example"));
    let first = g.generate(OpKind::Create);
    let second = g.generate(OpKind::Create);
    let third = g.generate(OpKind::Update);
    assert_eq!(first.text, "https://a.example/activities/create/0");
    assert_eq!(second.text, "https://a.example/activities/create/1");
    assert_eq!(third.text, "https://a.example/activities/update/2");
    assert_eq!(first.host, "a.example");
    assert_ne!(first.text, second.text);
}

#[test]
fn no_recipients_no_targets() {
    let targets = resolve_targets(&vec![]);
    assert!(targets.is_empty());
}

#[test]
fn generator_near_serial_exhaustion() {
    let mut g = ActivityIdGenerator::new(uri("https://a.example"));
    g.serial = u64::MAX - 1;
    let id = g.generate(OpKind::Create);
    assert_eq!(
        id.text,
        format!("https://a.example/activities/create/{}", u64::MAX - 1)
    );
    assert_eq!(g.serial, u64::MAX);
}

#[test]
fn shared_inbox_preferred() {
    let with_shared = actor(
        "https://b.example/u/bob",
        "https://b.example/u/bob/inbox",
        Some("https://b.example/inbox"),
        ActorStatus::Active,
    );
    let without = actor(
        "https://c.example/u/carol",
        "https://c.example/u/carol/inbox",
        None,
        ActorStatus::Active,
    );
    assert_eq!(shared_inbox_or_inbox(&with_shared).text, "https://b.example/inbox");
    assert_eq!(shared_inbox_or_inbox(&without).text, "https://c.example/u/carol/inbox");
    assert_eq!(inbox_of(&with_shared).text, "https://b.example/u/bob/inbox");
}

#[test]
fn targets_collapse_shared_inboxes() {
    let bob = actor(
        "https://b.example/u/bob",
        "https://b.example/u/bob/inbox",
        Some("https://b.example/inbox"),
        ActorStatus::Active,
    );
    let beth = actor(
        "https://b.example/u/beth",
        "https://b.example/u/beth/inbox",
        Some("https://b.example/inbox"),
        ActorStatus::Active,
    );
    let carol = actor(
        "https://c.example/u/carol",
        "https://c.example/u/carol/inbox",
        None,
        ActorStatus::Active,
    );
    let targets = resolve_targets(&vec![bob, beth, carol]);
    let texts: Vec<&str> = targets.iter().map(|u| u.text.as_str()).collect();
    assert_eq!(texts, vec!["https://b.example/inbox", "https://c.example/u/carol/inbox"]);
}

#[test]
fn targets_order_independent() {
    let a = actor(
        "https://b.example/u/bob",
        "https://b.example/u/bob/inbox",
        Some("https://b.example/inbox"),
        ActorStatus::Active,
    );
    let b = actor(
        "https://c.example/u/carol",
        "https://c.example/u/carol/inbox",
        None,
        ActorStatus::Active,
    );
    let ab = resolve_targets(&vec![a.clone(), b.clone()]);
    let ba = resolve_targets(&vec![b, a]);
    let mut ab_texts: Vec<String> = ab.iter().map(|u| u.text.clone()).collect();
    let mut ba_texts: Vec<String> = ba.iter().map(|u| u.text.clone()).collect();
    ab_texts.sort();
    ba_texts.sort();
    assert_eq!(ab_texts, ba_texts);
}

#[test]
fn record_if_new_accepts_once() {
    let mut store = DedupStore::new();
    let id = uri("https://a.example/activities/create/0");
    assert!(store.record_if_new(&id, 100).is_ok());
    assert!(store.record_if_new(&id, 101).is_err());
    assert!(store.record_if_new(&id, 102).is_err());
    let other = uri("https://a.example/activities/create/1");
    assert!(store.record_if_new(&other, 103).is_ok());
    assert_eq!(store.records.len(), 2);
    assert_eq!(store.records[0].received_at, 100);
}

#[test]
fn apply_upserts_by_object_id() {
    let mut store = LocalStore::new();
    let object = ApubObject {
        id: uri("https://a.example/pm/1"),
        attributed_to: uri("https://a.example/u/alice"),
        to: vec![uri("https://b.example/u/bob")],
        entity: EntityTag::PrivateMessage,
        content: String::from("hello"),
        published: 10,
        updated: None,
    };
    assert_eq!(store.apply(&object), ApplyOutcome::Created);
    assert_eq!(store.rows.len(), 1);
    assert_eq!(store.rows[0].content, "hello");

    let revised = ApubObject {
        id: uri("https://a.example/pm/1"),
        attributed_to: uri("https://a.example/u/alice"),
        to: vec![uri("https://b.example/u/bob")],
        entity: EntityTag::PrivateMessage,
        content: String::from("hello, edited"),
        published: 11,
        updated: Some(11),
    };
    assert_eq!(store.apply(&revised), ApplyOutcome::Updated);
    assert_eq!(store.rows.len(), 1);
    assert_eq!(store.rows[0].content, "hello, edited");
    assert_eq!(store.rows[0].updated, Some(11));

    let other = ApubObject {
        id: uri("https://a.example/pm/2"),
        attributed_to: uri("https://a.example/u/alice"),
        to: vec![uri("https://b.example/u/bob")],
        entity: EntityTag::PrivateMessage,
        content: String::from("second"),
        published: 12,
        updated: None,
    };
    assert_eq!(store.apply(&other), ApplyOutcome::Created);
    assert_eq!(store.rows.len(), 2);
}

#[test]
fn queue_is_first_in_first_out() {
    let mut q = DeliveryQueue::new();
    let make = |n: &str| OutboundActivity {
        envelope: activity_exchange::envelope::Envelope {
            id: uri(&format!("https://a.example/activities/create/{n}")),
            op: OpKind::Create,
            actor: uri("https://a.example/u/alice"),
            to: vec![uri("https://b.example/u/bob")],
            cc: vec![],
            object: ApubObject {
                id: uri("https://a.example/pm/1"),
                attributed_to: uri("https://a.example/u/alice"),
                to: vec![uri("https://b.example/u/bob")],
                entity: EntityTag::PrivateMessage,
                content: String::from("hi"),
                published: 1,
                updated: None,
            },
        },
        targets: vec![uri("https://b.example/inbox")],
    };
    q.enqueue(make("0"));
    q.enqueue(make("1"));
    let first = q.take_next().unwrap();
    assert_eq!(first.envelope.id.text, "https://a.example/activities/create/0");
    let second = q.take_next().unwrap();
    assert_eq!(second.envelope.id.text, "https://a.example/activities/create/1");
    assert!(q.take_next().is_none());
}

#[test]
fn dispatch_enqueues_one_task_with_collapsed_targets() {
    let bob = actor(
        "https://b.example/u/bob",
        "https://b.example/u/bob/inbox",
        Some("https://b.example/inbox"),
        ActorStatus::Active,
    );
    let beth = actor(
        "https://b.example/u/beth",
        "https://b.example/u/beth/inbox",
        Some("https://b.example/inbox"),
        ActorStatus::Active,
    );
    let carol = actor(
        "https://c.example/u/carol",
        "https://c.example/u/carol/inbox",
        None,
        ActorStatus::Active,
    );
    let envelope = activity_exchange::envelope::Envelope {
        id: uri("https://a.example/activities/create/0"),
        op: OpKind::Create,
        actor: uri("https://a.example/u/alice"),
        to: vec![
            uri("https://b.example/u/bob"),
            uri("https://b.example/u/beth"),
            uri("https://c.example/u/carol"),
        ],
        cc: vec![],
        object: ApubObject {
            id: uri("https://a.example/post/1"),
            attributed_to: uri("https://a.example/u/alice"),
            to: vec![uri("https://b.example/u/bob")],
            entity: EntityTag::Post,
            content: String::from("announcement"),
            published: 5,
            updated: None,
        },
    };
    let mut queue = DeliveryQueue::new();
    activity_exchange::outbound::dispatch(envelope, &vec![bob, beth, carol], &mut queue);
    let task = queue.take_next().unwrap();
    let texts: Vec<&str> = task.targets.iter().map(|u| u.text.as_str()).collect();
    assert_eq!(texts, vec!["https://b.example/inbox", "https://c.example/u/carol/inbox"]);
    assert!(queue.take_next().is_none());
}

#[test]
fn retry_keeps_only_transient_failures() {
    let outcomes = vec![
        DeliveryOutcome { target: uri("https://b.example/inbox"), status: DeliveryStatus::Delivered },
        DeliveryOutcome {
            target: uri("https://c.example/inbox"),
            status: DeliveryStatus::TransientFailure,
        },
        DeliveryOutcome {
            target: uri("https://d.example/inbox"),
            status: DeliveryStatus::PermanentFailure,
        },
        DeliveryOutcome {
            target: uri("https://e.example/inbox"),
            status: DeliveryStatus::TransientFailure,
        },
    ];
    let retry = activity_exchange::outbound::targets_to_retry(&outcomes);
    let texts: Vec<&str> = retry.iter().map(|u| u.text.as_str()).collect();
    assert_eq!(texts, vec!["https://c.example/inbox", "https://e.example/inbox"]);
}
