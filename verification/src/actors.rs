//! Actors and the actor directory.
//!
//! An actor is a local or remote participant with a resolvable identity,
//! an inbox, an optional shared inbox and public-key material.  The
//! directory is the engine's explicit cache of known actors; remote fetch
//! is the caller's business, which hands fetched actors in through
//! `refresh_actor`.  Resolution never deletes: suspension is a status, so
//! historical activities can still resolve their author.

use vstd::prelude::*;
use crate::ids::{Uri, UriModel};

verus! {

/// Lifecycle status of an actor.  A terminal status forbids further
/// interaction but keeps the record.
#[derive(Clone, Copy, PartialEq, Eq, Structural, Debug)]
pub enum ActorStatus {
    Active,
    Banned,
    Deleted,
}

/// Why an identifier did not resolve to an actor fit for interaction.
#[derive(Clone, Copy, PartialEq, Eq, Structural, Debug)]
pub enum ResolveError {
    /// The identifier is not in the directory.
    ActorUnresolvable,
    /// The actor exists but is suspended.
    ActorBanned,
    /// The actor exists but is deleted.
    ActorDeleted,
}

/// A participant: person or community, local or remote.
#[derive(Debug)]
pub struct Actor {
    pub id: Uri,
    /// The actor's own inbox.
    pub inbox: Uri,
    /// Instance-wide inbox that fans in traffic for many actors, when the
    /// actor advertises one.
    pub shared_inbox: Option<Uri>,
    pub status: ActorStatus,
    /// Key material for the signature collaborator; carried opaquely.
    pub public_key: String,
}

/// Mathematical image of an `Actor`.
pub ghost struct ActorModel {
    pub id: UriModel,
    pub inbox: UriModel,
    pub shared_inbox: Option<UriModel>,
    pub status: ActorStatus,
    pub public_key: Seq<char>,
}

impl View for Actor {
    type V = ActorModel;

    open spec fn view(&self) -> ActorModel {
        ActorModel {
            id: self.id@,
            inbox: self.inbox@,
            shared_inbox: self.shared_inbox.deep_view(),
            status: self.status,
            public_key: self.public_key@,
        }
    }
}

impl DeepView for Actor {
    type V = ActorModel;

    open spec fn deep_view(&self) -> ActorModel {
        self@
    }
}

impl Clone for Actor {
    fn clone(&self) -> (r: Actor)
        ensures
            r@ == self@,
    {
        Actor {
            id: self.id.clone(),
            inbox: self.inbox.clone(),
            shared_inbox: match &self.shared_inbox {
                Some(u) => Some(u.clone()),
                None => None,
            },
            status: self.status,
            public_key: self.public_key.clone(),
        }
    }
}

/// The first directory entry whose id text matches, if any.  Entries are
/// kept newest first, so a refresh shadows older entries.
pub open spec fn find_actor(s: Seq<ActorModel>, id_text: Seq<char>) -> Option<ActorModel>
    decreases s.len(),
{
    if s.len() == 0 {
        None
    } else if s[0].id.text == id_text {
        Some(s[0])
    } else {
        find_actor(s.drop_first(), id_text)
    }
}

/// What resolving an identifier against a directory must yield: the
/// matching entry when it is active, the status error when it is in a
/// terminal status, `ActorUnresolvable` when there is no entry.
pub open spec fn resolution(s: Seq<ActorModel>, id_text: Seq<char>) -> Result<ActorModel, ResolveError> {
    match find_actor(s, id_text) {
        None => Err(ResolveError::ActorUnresolvable),
        Some(a) => match a.status {
            ActorStatus::Active => Ok(a),
            ActorStatus::Banned => Err(ResolveError::ActorBanned),
            ActorStatus::Deleted => Err(ResolveError::ActorDeleted),
        },
    }
}

/// The engine's cache of known actors, newest entry first.
pub struct ActorDirectory {
    pub actors: Vec<Actor>,
}

impl View for ActorDirectory {
    type V = Seq<ActorModel>;

    open spec fn view(&self) -> Seq<ActorModel> {
        self.actors.deep_view()
    }
}

impl ActorDirectory {
    /// An empty directory.
    pub fn new() -> (r: ActorDirectory)
        ensures
            r@ == Seq::<ActorModel>::empty(),
    {
        ActorDirectory { actors: Vec::new() }
    }

    /// Looks an identifier up and checks the actor's status.
    pub fn resolve(&self, id: &Uri) -> (r: Result<Actor, ResolveError>)
        ensures
            match r {
                Ok(a) => resolution(self@, id@.text) == Ok::<ActorModel, ResolveError>(a@),
                Err(e) => resolution(self@, id@.text) == Err::<ActorModel, ResolveError>(e),
            },
    {
        let n = self.actors.len();
        proof {
            assert(self@.skip(0) =~= self@);
        }
        for i in 0..n
            invariant
                n == self.actors.len(),
                find_actor(self@, id@.text) == find_actor(self@.skip(i as int), id@.text),
        {
            proof {
                assert(self@.skip(i as int)[0] == self@[i as int]);
                assert(self@.skip(i as int).drop_first() =~= self@.skip(i + 1));
            }
            if self.actors[i].id.same_id(id) {
                let a = &self.actors[i];
                return match a.status {
                    ActorStatus::Active => Ok(a.clone()),
                    ActorStatus::Banned => Err(ResolveError::ActorBanned),
                    ActorStatus::Deleted => Err(ResolveError::ActorDeleted),
                };
            }
        }
        proof {
            assert(self@.skip(n as int).len() == 0);
        }
        Err(ResolveError::ActorUnresolvable)
    }

    /// Puts a freshly registered or freshly fetched actor in front, so
    /// that it shadows any older entry with the same id
    /// (`lemma_find_after_refresh`).
    pub fn refresh_actor(&mut self, a: Actor)
        ensures
            final(self)@ == old(self)@.insert(0, a@),
    {
        self.actors.insert(0, a);
        proof {
            assert(self@ =~= old(self)@.insert(0, a@));
        }
    }
}

/// Refreshing an actor makes it the one that resolution sees, and leaves
/// every other identifier's resolution unchanged.
pub proof fn lemma_find_after_refresh(s: Seq<ActorModel>, a: ActorModel, x: Seq<char>)
    ensures
        find_actor(s.insert(0, a), x) == if x == a.id.text {
            Some(a)
        } else {
            find_actor(s, x)
        },
{
    let s2 = s.insert(0, a);
    assert(s2[0] == a);
    assert(s2.drop_first() =~= s);
}

} // verus!
