//! The outbound dispatcher.
//!
//! A local mutation becomes an envelope, addressed and attributed so that
//! any receiver who trusts the actor will accept it, and is placed on a
//! durable work queue as one task per activity with its resolved target
//! set.  Workers drain the queue, sign each envelope through the crypto
//! collaborator and deliver it per target; deliveries to distinct targets
//! are independent, and a failed target never blocks the others.  Delivery
//! is at-least-once: receivers deduplicate by activity identifier, so
//! re-sending a task is always safe.

use vstd::prelude::*;
use crate::actors::{resolution, Actor, ActorModel};
use crate::envelope::{
    well_formed_outbound, ApubObject, EntityTag, Envelope, EnvelopeModel, OpKind,
};
use crate::ids::{activity_id_text, ActivityIdGenerator, Uri, UriModel};
use crate::pipeline::expected_verdict;
use crate::targets::{
    delivery_inbox, resolve_targets, shared_inbox_or_inbox, target_texts, texts_of,
};

verus! {

/// One queued delivery: an envelope with the inbox URLs it is owed to.
pub struct OutboundActivity {
    pub envelope: Envelope,
    pub targets: Vec<Uri>,
}

/// Mathematical image of an `OutboundActivity`.
pub ghost struct OutboundActivityModel {
    pub envelope: EnvelopeModel,
    pub targets: Seq<UriModel>,
}

impl View for OutboundActivity {
    type V = OutboundActivityModel;

    open spec fn view(&self) -> OutboundActivityModel {
        OutboundActivityModel { envelope: self.envelope@, targets: self.targets.deep_view() }
    }
}

impl DeepView for OutboundActivity {
    type V = OutboundActivityModel;

    open spec fn deep_view(&self) -> OutboundActivityModel {
        self@
    }
}

/// The durable work queue between the engine and the delivery workers,
/// oldest task first.
pub struct DeliveryQueue {
    pub items: Vec<OutboundActivity>,
}

impl View for DeliveryQueue {
    type V = Seq<OutboundActivityModel>;

    open spec fn view(&self) -> Seq<OutboundActivityModel> {
        self.items.deep_view()
    }
}

impl DeliveryQueue {
    /// An empty queue.
    pub fn new() -> (r: DeliveryQueue)
        ensures
            r@ == Seq::<OutboundActivityModel>::empty(),
    {
        DeliveryQueue { items: Vec::new() }
    }

    /// Enqueues one task.
    pub fn enqueue(&mut self, task: OutboundActivity)
        ensures
            final(self)@ == old(self)@.push(task@),
    {
        self.items.push(task);
        proof {
            assert(self@ =~= old(self)@.push(task@));
        }
    }

    /// Hands the oldest task to a delivery worker.
    pub fn take_next(&mut self) -> (r: Option<OutboundActivity>)
        ensures
            match r {
                Some(task) => old(self)@.len() > 0 && task@ == old(self)@[0] && final(self)@
                    == old(self)@.drop_first(),
                None => old(self)@.len() == 0 && *final(self) == *old(self),
            },
    {
        if self.items.len() == 0 {
            None
        } else {
            let task = self.items.remove(0);
            proof {
                assert(self@ =~= old(self)@.drop_first());
            }
            Some(task)
        }
    }
}

/// Per-target fate of one delivery attempt, as the delivery worker reports
/// it.
#[derive(Clone, Copy, PartialEq, Eq, Structural, Debug)]
pub enum DeliveryStatus {
    /// The target took the envelope.
    Delivered,
    /// A transient network or HTTP failure; the only kind eligible for
    /// retry, and only by re-enqueueing the target.
    TransientFailure,
    /// An unsatisfiable target; reported, never retried.
    PermanentFailure,
}

/// One worker report.
pub struct DeliveryOutcome {
    pub target: Uri,
    pub status: DeliveryStatus,
}

/// Mathematical image of a `DeliveryOutcome`.
pub ghost struct DeliveryOutcomeModel {
    pub target: UriModel,
    pub status: DeliveryStatus,
}

impl View for DeliveryOutcome {
    type V = DeliveryOutcomeModel;

    open spec fn view(&self) -> DeliveryOutcomeModel {
        DeliveryOutcomeModel { target: self.target@, status: self.status }
    }
}

impl DeepView for DeliveryOutcome {
    type V = DeliveryOutcomeModel;

    open spec fn deep_view(&self) -> DeliveryOutcomeModel {
        self@
    }
}

/// The targets of a report sequence that are owed another attempt:
/// exactly the transient failures, in report order.
pub open spec fn retry_targets(rs: Seq<DeliveryOutcomeModel>) -> Seq<UriModel> {
    rs.filter(|o: DeliveryOutcomeModel| o.status is TransientFailure).map_values(
        |o: DeliveryOutcomeModel| o.target,
    )
}

/// Selects from the worker reports of one task the targets to re-enqueue:
/// transient failures retry, delivered and permanently failed targets do
/// not.
pub fn targets_to_retry(reports: &Vec<DeliveryOutcome>) -> (r: Vec<Uri>)
    ensures
        r.deep_view() == retry_targets(reports.deep_view()),
{
    let ghost rs = reports.deep_view();
    let ghost keep = |o: DeliveryOutcomeModel| o.status is TransientFailure;
    let mut out: Vec<Uri> = Vec::new();
    let n = reports.len();
    proof {
        assert(rs.take(0) =~= Seq::<DeliveryOutcomeModel>::empty());
        assert(out.deep_view() =~= retry_targets(rs.take(0)));
    }
    for i in 0..n
        invariant
            n == reports.len(),
            rs == reports.deep_view(),
            keep == (|o: DeliveryOutcomeModel| o.status is TransientFailure),
            out.deep_view() == retry_targets(rs.take(i as int)),
    {
        let ghost old_out = out.deep_view();
        if matches!(reports[i].status, DeliveryStatus::TransientFailure) {
            out.push(reports[i].target.clone());
        }
        proof {
            reveal_with_fuel(Seq::filter, 2);
            let prev = rs.take(i as int);
            let t = rs.take(i + 1);
            assert(t =~= prev.push(rs[i as int]));
            assert(t.drop_last() =~= prev);
            assert(t.last() == rs[i as int]);
            if keep(rs[i as int]) {
                assert(t.filter(keep) =~= prev.filter(keep).push(rs[i as int]));
                assert(out.deep_view() =~= old_out.push(rs[i as int].target));
                assert(retry_targets(t) =~= retry_targets(prev).push(rs[i as int].target));
            } else {
                assert(t.filter(keep) =~= prev.filter(keep));
                assert(retry_targets(t) =~= retry_targets(prev));
            }
        }
    }
    proof {
        assert(rs.take(n as int) =~= rs);
    }
    out
}

/// Packages a local create or update of a private message as an activity
/// and enqueues it for delivery to the recipient's preferred inbox.
///
/// The minted envelope carries a fresh activity identifier, names the
/// creator as its actor and attributes the message to the creator; the
/// envelope-level and object-level recipient are both exactly the
/// recipient actor.  Such an envelope passes every pure check of the
/// verification pipeline, so a receiver that trusts the creator accepts
/// it (`lemma_round_trip`).
pub fn send_create_or_update_pm(
    op: OpKind,
    creator: &Actor,
    recipient: &Actor,
    message_id: &Uri,
    content: &String,
    published: u64,
    updated: Option<u64>,
    generator: &mut ActivityIdGenerator,
    queue: &mut DeliveryQueue,
) -> (r: Result<(), ()>)
    requires
        old(generator).serial < u64::MAX,
    ensures
        final(generator).origin == old(generator).origin,
        match r {
            Ok(()) => {
                &&& creator@.id.host == message_id@.host
                &&& content@.len() > 0
                &&& final(generator).serial == old(generator).serial + 1
                &&& final(queue)@.len() == old(queue)@.len() + 1
                &&& final(queue)@ == old(queue)@.push(final(queue)@.last())
                &&& {
                    let task = final(queue)@.last();
                    &&& well_formed_outbound(task.envelope)
                    &&& task.envelope.op == op
                    &&& task.envelope.id.text == activity_id_text(
                        old(generator).origin@.text,
                        op,
                        old(generator).serial as nat,
                    )
                    &&& task.envelope.id.host == old(generator).origin@.host
                    &&& task.envelope.actor == creator@.id
                    &&& task.envelope.to == seq![recipient@.id]
                    &&& task.envelope.cc == Seq::<UriModel>::empty()
                    &&& task.envelope.object.id == message_id@
                    &&& task.envelope.object.attributed_to == creator@.id
                    &&& task.envelope.object.to == seq![recipient@.id]
                    &&& task.envelope.object.entity == EntityTag::PrivateMessage
                    &&& task.envelope.object.content == content@
                    &&& task.envelope.object.published == published
                    &&& task.envelope.object.updated == updated
                    &&& task.targets == seq![delivery_inbox(recipient@)]
                }
            },
            Err(()) => {
                &&& !(creator@.id.host == message_id@.host && content@.len() > 0)
                &&& *final(queue) == *old(queue)
                &&& final(generator).serial == old(generator).serial
            },
        },
{
    if !creator.id.same_host(message_id) || content.as_str().unicode_len() == 0 {
        return Err(());
    }
    let id = generator.generate(op);
    let object = ApubObject {
        id: message_id.clone(),
        attributed_to: creator.id.clone(),
        to: vec![recipient.id.clone()],
        entity: EntityTag::PrivateMessage,
        content: content.clone(),
        published,
        updated,
    };
    let envelope = Envelope {
        id,
        op,
        actor: creator.id.clone(),
        to: vec![recipient.id.clone()],
        cc: Vec::new(),
        object,
    };
    let inbox = shared_inbox_or_inbox(recipient).clone();
    let task = OutboundActivity { envelope, targets: vec![inbox] };
    proof {
        assert(task@.envelope.to =~= seq![recipient@.id]);
        assert(task@.envelope.object.to =~= seq![recipient@.id]);
        assert(task@.envelope.cc =~= Seq::<UriModel>::empty());
        assert(task@.targets =~= seq![delivery_inbox(recipient@)]);
    }
    queue.enqueue(task);
    Ok(())
}

/// Packages one envelope for its semantic recipients and enqueues it as a
/// single task whose targets are the deduplicated delivery inboxes of the
/// recipient set (shared inboxes preferred).  For broadcast activities the
/// caller passes the follower set it obtained from the collaborator that
/// tracks community followers.
pub fn dispatch(envelope: Envelope, recipients: &Vec<Actor>, queue: &mut DeliveryQueue)
    ensures
        final(queue)@.len() == old(queue)@.len() + 1,
        final(queue)@ == old(queue)@.push(final(queue)@.last()),
        ({
            let task = final(queue)@.last();
            &&& task.envelope == envelope@
            &&& texts_of(task.targets).to_set() == target_texts(recipients.deep_view())
            &&& forall|i: int, j: int|
                0 <= i < j < task.targets.len() ==> task.targets[i].text != task.targets[j].text
        }),
{
    let targets = resolve_targets(recipients);
    queue.enqueue(OutboundActivity { envelope, targets });
}

/// Round trip: an envelope the outbound dispatcher built for an actor,
/// received by an instance whose directory resolves that actor as active
/// and whose signature collaborator confirms the envelope, is accepted by
/// the verification pipeline.
pub proof fn lemma_round_trip(dir: Seq<ActorModel>, env: EnvelopeModel)
    requires
        well_formed_outbound(env),
        resolution(dir, env.actor.text) is Ok,
    ensures
        expected_verdict(dir, env, true) is Ok,
{
}

} // verus!
