//! The activity envelope: the unit of exchange between instances.
//!
//! An envelope wraps one kind-specific payload (the object) with the
//! identity of the activity itself, the actor that performs it and the
//! recipients it is addressed to.  An envelope is immutable once minted; an
//! update is a new envelope whose payload supersedes a prior object by
//! shared object identity.

use vstd::prelude::*;
use vstd::string::StrSliceExecFns;
use crate::ids::{Uri, UriModel};

verus! {

/// Which protocol operation an activity performs.  Create and Update share
/// one envelope shape and, on receipt, one upsert code path.
#[derive(Clone, Copy, PartialEq, Eq, Structural, Debug)]
pub enum OpKind {
    Create,
    Update,
}

/// Which entity the embedded payload describes.  The set is closed, so the
/// apply step can match exhaustively and an unsupported entity cannot
/// arise.
#[derive(Clone, Copy, PartialEq, Eq, Structural, Debug)]
pub enum EntityTag {
    Person,
    Community,
    Post,
    Comment,
    PrivateMessage,
}

/// Entities that are addressed to exactly one recipient.  For these the
/// envelope-level and object-level addressing must agree slot by slot.
pub open spec fn single_recipient(e: EntityTag) -> bool {
    e is PrivateMessage
}

/// The embedded, kind-specific payload of an activity.
pub struct ApubObject {
    /// Identity of the object itself, hosted at its author's instance.
    pub id: Uri,
    /// The actor the object claims as its author.
    pub attributed_to: Uri,
    /// Object-level recipients.
    pub to: Vec<Uri>,
    pub entity: EntityTag,
    /// Kind-specific body, carried opaquely by the engine.
    pub content: String,
    /// Publication timestamp, passed through for downstream ordering.
    pub published: u64,
    /// Revision timestamp of an updated object, passed through likewise.
    pub updated: Option<u64>,
}

/// Mathematical image of an `ApubObject`.
pub ghost struct ObjectModel {
    pub id: UriModel,
    pub attributed_to: UriModel,
    pub to: Seq<UriModel>,
    pub entity: EntityTag,
    pub content: Seq<char>,
    pub published: u64,
    pub updated: Option<u64>,
}

impl View for ApubObject {
    type V = ObjectModel;

    open spec fn view(&self) -> ObjectModel {
        ObjectModel {
            id: self.id@,
            attributed_to: self.attributed_to@,
            to: self.to.deep_view(),
            entity: self.entity,
            content: self.content@,
            published: self.published,
            updated: self.updated,
        }
    }
}

/// Structural validity of a payload, the entity-specific last step of the
/// verification pipeline: the object lives on its author's instance, a
/// single-recipient object names exactly one recipient, and the body is
/// not empty.
pub open spec fn object_valid(o: ObjectModel) -> bool {
    &&& o.attributed_to.host == o.id.host
    &&& (single_recipient(o.entity) ==> o.to.len() == 1)
    &&& o.content.len() > 0
}

/// The signed, addressed wrapper around one payload.
pub struct Envelope {
    /// Identity of the activity; globally unique, minted by the sender.
    pub id: Uri,
    pub op: OpKind,
    /// The actor performing the activity.
    pub actor: Uri,
    /// Envelope-level recipients.
    pub to: Vec<Uri>,
    /// Secondary recipients, passed through to target resolution only.
    pub cc: Vec<Uri>,
    pub object: ApubObject,
}

/// Mathematical image of an `Envelope`.
pub ghost struct EnvelopeModel {
    pub id: UriModel,
    pub op: OpKind,
    pub actor: UriModel,
    pub to: Seq<UriModel>,
    pub cc: Seq<UriModel>,
    pub object: ObjectModel,
}

impl View for Envelope {
    type V = EnvelopeModel;

    open spec fn view(&self) -> EnvelopeModel {
        EnvelopeModel {
            id: self.id@,
            op: self.op,
            actor: self.actor@,
            to: self.to.deep_view(),
            cc: self.cc.deep_view(),
            object: self.object@,
        }
    }
}

/// An actor may only author objects hosted at its own instance.
pub open spec fn domain_consistent(e: EnvelopeModel) -> bool {
    e.actor.host == e.object.id.host
}

/// For single-recipient entities the envelope and the object must address
/// the same single recipient.
pub open spec fn recipient_consistent(e: EnvelopeModel) -> bool {
    single_recipient(e.object.entity) ==> {
        &&& e.to.len() == 1
        &&& e.object.to.len() == 1
        &&& e.to[0].text == e.object.to[0].text
    }
}

/// The envelope's actor must be exactly the actor the object is attributed
/// to (full identifier match, not merely domain match).
pub open spec fn attribution_consistent(e: EnvelopeModel) -> bool {
    e.actor.text == e.object.attributed_to.text
}

/// Everything the pure checks of the verification pipeline ask of an
/// envelope.  The outbound dispatcher builds envelopes that satisfy this,
/// so that a receiver who trusts the actor accepts them.
pub open spec fn well_formed_outbound(e: EnvelopeModel) -> bool {
    &&& domain_consistent(e)
    &&& recipient_consistent(e)
    &&& attribution_consistent(e)
    &&& object_valid(e.object)
}

/// Checks `domain_consistent`.
pub fn check_domain(e: &Envelope) -> (r: bool)
    ensures
        r == domain_consistent(e@),
{
    e.actor.same_host(&e.object.id)
}

/// Checks `recipient_consistent`.
pub fn check_recipients(e: &Envelope) -> (r: bool)
    ensures
        r == recipient_consistent(e@),
{
    if matches!(e.object.entity, EntityTag::PrivateMessage) {
        if e.to.len() == 1 && e.object.to.len() == 1 {
            e.to[0].same_id(&e.object.to[0])
        } else {
            false
        }
    } else {
        true
    }
}

/// Checks `attribution_consistent`.
pub fn check_attribution(e: &Envelope) -> (r: bool)
    ensures
        r == attribution_consistent(e@),
{
    e.actor.same_id(&e.object.attributed_to)
}

/// Checks `object_valid`.
pub fn check_object(o: &ApubObject) -> (r: bool)
    ensures
        r == object_valid(o@),
{
    if !o.attributed_to.same_host(&o.id) {
        return false;
    }
    if matches!(o.entity, EntityTag::PrivateMessage) && o.to.len() != 1 {
        return false;
    }
    o.content.as_str().unicode_len() > 0
}

} // verus!
