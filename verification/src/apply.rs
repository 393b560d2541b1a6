//! The apply engine: the generic receive step against local state.
//!
//! Once an activity is verified and deduplicated, its payload is applied
//! to local storage by entity kind with upsert semantics: insert when the
//! object identifier is new, update in place when it is already present.
//! Create and Update activities deliberately share this one code path;
//! the engine does not need to know whether a remote edit is the object's
//! first or its Nth revision.  The entity set is closed, so every kind has
//! a handler and an unsupported entity cannot arise.
//!
//! `LocalStore` stands for the persistence layer at the engine's
//! boundary.  A caller that writes the rows through to an external store
//! instead propagates that store's failures unchanged; the engine never
//! interprets them.

use vstd::prelude::*;
use crate::envelope::{ApubObject, EntityTag, ObjectModel};

verus! {

/// What applying a payload did to local storage.
#[derive(Clone, Copy, PartialEq, Eq, Structural, Debug)]
pub enum ApplyOutcome {
    /// The object identifier was new; a row was inserted.
    Created,
    /// The object identifier existed; its row was updated in place.
    Updated,
}

/// One locally stored entity row, keyed by the object identifier.
pub struct StoredEntity {
    pub entity: EntityTag,
    /// Full text of the object identifier.
    pub id: String,
    /// Full text of the authoring actor's identifier.
    pub attributed_to: String,
    pub content: String,
    pub published: u64,
    pub updated: Option<u64>,
}

/// Mathematical image of a `StoredEntity`.
pub ghost struct StoredEntityModel {
    pub entity: EntityTag,
    pub id: Seq<char>,
    pub attributed_to: Seq<char>,
    pub content: Seq<char>,
    pub published: u64,
    pub updated: Option<u64>,
}

impl View for StoredEntity {
    type V = StoredEntityModel;

    open spec fn view(&self) -> StoredEntityModel {
        StoredEntityModel {
            entity: self.entity,
            id: self.id@,
            attributed_to: self.attributed_to@,
            content: self.content@,
            published: self.published,
            updated: self.updated,
        }
    }
}

impl DeepView for StoredEntity {
    type V = StoredEntityModel;

    open spec fn deep_view(&self) -> StoredEntityModel {
        self@
    }
}

/// The row a verified payload is stored as.
pub open spec fn row_of(o: ObjectModel) -> StoredEntityModel {
    StoredEntityModel {
        entity: o.entity,
        id: o.id.text,
        attributed_to: o.attributed_to.text,
        content: o.content,
        published: o.published,
        updated: o.updated,
    }
}

/// The row stored under an object identifier, if any.
pub open spec fn lookup(s: Seq<StoredEntityModel>, id: Seq<char>) -> Option<StoredEntityModel>
    decreases s.len(),
{
    if s.len() == 0 {
        None
    } else if s[0].id == id {
        Some(s[0])
    } else {
        lookup(s.drop_first(), id)
    }
}

/// Updating the row that holds a key changes that key's lookup and no
/// other.
proof fn lemma_lookup_update(s: Seq<StoredEntityModel>, i: int, e: StoredEntityModel, x: Seq<char>)
    requires
        0 <= i < s.len(),
        s[i].id == e.id,
        forall|j: int| 0 <= j < i ==> s[j].id != e.id,
    ensures
        lookup(s.update(i, e), x) == if x == e.id {
            Some(e)
        } else {
            lookup(s, x)
        },
    decreases s.len(),
{
    let t = s.update(i, e);
    if i == 0 {
        assert(t[0] == e);
        assert(t.drop_first() =~= s.drop_first());
    } else {
        assert(t[0] == s[0]);
        assert(t.drop_first() =~= s.drop_first().update(i - 1, e));
        lemma_lookup_update(s.drop_first(), i - 1, e, x);
    }
}

/// Appending a row whose key is absent changes that key's lookup and no
/// other.
proof fn lemma_lookup_push(s: Seq<StoredEntityModel>, e: StoredEntityModel, x: Seq<char>)
    requires
        forall|j: int| 0 <= j < s.len() ==> s[j].id != e.id,
    ensures
        lookup(s.push(e), x) == if x == e.id {
            Some(e)
        } else {
            lookup(s, x)
        },
    decreases s.len(),
{
    let t = s.push(e);
    if s.len() == 0 {
        assert(t[0] == e);
        assert(t.drop_first() =~= Seq::<StoredEntityModel>::empty());
    } else {
        assert(t[0] == s[0]);
        assert(t.drop_first() =~= s.drop_first().push(e));
        lemma_lookup_push(s.drop_first(), e, x);
    }
}

/// Local storage for every entity kind, one row per object identifier.
pub struct LocalStore {
    pub rows: Vec<StoredEntity>,
}

impl View for LocalStore {
    type V = Seq<StoredEntityModel>;

    open spec fn view(&self) -> Seq<StoredEntityModel> {
        self.rows.deep_view()
    }
}

impl LocalStore {
    /// No two rows share an object identifier.
    pub open spec fn wf(self) -> bool {
        forall|i: int, j: int| 0 <= i < j < self@.len() ==> self@[i].id != self@[j].id
    }

    /// An empty store.
    pub fn new() -> (r: LocalStore)
        ensures
            r@ == Seq::<StoredEntityModel>::empty(),
            r.wf(),
    {
        LocalStore { rows: Vec::new() }
    }

    /// Applies a verified payload with upsert semantics: afterwards the
    /// object's identifier holds exactly this payload's row, every other
    /// identifier is untouched, and the outcome says whether the row is
    /// new or a revision.
    pub fn apply(&mut self, o: &ApubObject) -> (r: ApplyOutcome)
        requires
            old(self).wf(),
        ensures
            final(self).wf(),
            lookup(final(self)@, o@.id.text) == Some(row_of(o@)),
            forall|x: Seq<char>|
                x != o@.id.text ==> lookup(final(self)@, x) == lookup(old(self)@, x),
            (r is Updated) <==> (lookup(old(self)@, o@.id.text) is Some),
            (r is Created) ==> final(self)@.len() == old(self)@.len() + 1,
            (r is Updated) ==> final(self)@.len() == old(self)@.len(),
    {
        let row = StoredEntity {
            entity: o.entity,
            id: o.id.text.clone(),
            attributed_to: o.attributed_to.text.clone(),
            content: o.content.clone(),
            published: o.published,
            updated: o.updated,
        };
        let ghost rows0 = self@;
        let n = self.rows.len();
        for i in 0..n
            invariant
                n == self.rows.len(),
                rows0 == self@,
                rows0 == old(self)@,
                old(self).wf(),
                row@ == row_of(o@),
                forall|j: int| 0 <= j < i ==> rows0[j].id != o@.id.text,
        {
            if self.rows[i].id == o.id.text {
                self.rows.remove(i);
                self.rows.insert(i, row);
                proof {
                    assert(rows0[i as int].id == o@.id.text);
                    assert(self@ =~= rows0.update(i as int, row_of(o@)));
                    assert forall|x: Seq<char>| x != o@.id.text implies lookup(self@, x) == lookup(
                        rows0,
                        x,
                    ) by {
                        lemma_lookup_update(rows0, i as int, row_of(o@), x);
                    }
                    assert(lookup(self@, o@.id.text) == Some(row_of(o@))) by {
                        lemma_lookup_update(rows0, i as int, row_of(o@), o@.id.text);
                    }
                    assert forall|k: int| 0 <= k < self@.len() implies self@[k].id
                        == rows0[k].id by {
                        if k == i as int {
                        }
                    }
                    lemma_lookup_found(rows0, i as int, o@.id.text);
                }
                return ApplyOutcome::Updated;
            }
        }
        self.rows.push(row);
        proof {
            assert(self@ =~= rows0.push(row_of(o@)));
            assert forall|x: Seq<char>| x != o@.id.text implies lookup(self@, x) == lookup(
                rows0,
                x,
            ) by {
                lemma_lookup_push(rows0, row_of(o@), x);
            }
            assert(lookup(self@, o@.id.text) == Some(row_of(o@))) by {
                lemma_lookup_push(rows0, row_of(o@), o@.id.text);
            }
            assert forall|k: int, l: int| 0 <= k < l < self@.len() implies self@[k].id
                != self@[l].id by {
                if l == self@.len() - 1 {
                    assert(self@[l].id == o@.id.text);
                    assert(self@[k].id == rows0[k].id);
                } else {
                    assert(self@[k].id == rows0[k].id);
                    assert(self@[l].id == rows0[l].id);
                }
            }
            lemma_lookup_absent(rows0, o@.id.text);
        }
        ApplyOutcome::Created
    }
}

/// A key held at some row is found by `lookup`.
proof fn lemma_lookup_found(s: Seq<StoredEntityModel>, i: int, x: Seq<char>)
    requires
        0 <= i < s.len(),
        s[i].id == x,
    ensures
        lookup(s, x) is Some,
    decreases s.len(),
{
    if s[0].id != x {
        assert(s.drop_first()[i - 1] == s[i]);
        lemma_lookup_found(s.drop_first(), i - 1, x);
    }
}

/// A key held at no row is not found by `lookup`.
proof fn lemma_lookup_absent(s: Seq<StoredEntityModel>, x: Seq<char>)
    requires
        forall|j: int| 0 <= j < s.len() ==> s[j].id != x,
    ensures
        lookup(s, x) is None,
    decreases s.len(),
{
    if s.len() > 0 {
        assert(forall|j: int|
            0 <= j < s.drop_first().len() ==> s.drop_first()[j] == s[j + 1]);
        lemma_lookup_absent(s.drop_first(), x);
    }
}

} // verus!
