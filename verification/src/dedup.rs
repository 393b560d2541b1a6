//! Idempotent receipt: the deduplication store.
//!
//! The store records the identifier of every activity whose receipt has
//! completed, together with the time of receipt.  Records are write-once;
//! presence of a record is the sole truth for "already processed".  The
//! store is the only idempotency boundary of the receive path: the apply
//! step trusts that it runs at most once per activity identifier.
//!
//! The store is also the only shared mutable state of the receive path;
//! it is reached through an exclusive reference, which is what makes the
//! check-and-set of `record_if_new` atomic.  Callers that process inbound
//! activities concurrently serialize exactly this one call (for instance
//! behind a lock); everything else in the pipeline is pure and runs in
//! parallel across unrelated activities.

use vstd::prelude::*;
use crate::ids::Uri;

verus! {

/// Receipt of an identifier that is already recorded.  Reported to senders
/// as a successful no-op, never as a failure.
#[derive(Clone, Copy, PartialEq, Eq, Structural, Debug)]
pub struct DuplicateActivity;

/// One write-once receipt record.
pub struct DedupRecord {
    /// Full text of the recorded activity identifier.
    pub id: String,
    /// Time of receipt, passed through from the caller's clock.
    pub received_at: u64,
}

/// Mathematical image of a `DedupRecord`.
pub ghost struct DedupRecordModel {
    pub id: Seq<char>,
    pub received_at: u64,
}

impl View for DedupRecord {
    type V = DedupRecordModel;

    open spec fn view(&self) -> DedupRecordModel {
        DedupRecordModel { id: self.id@, received_at: self.received_at }
    }
}

impl DeepView for DedupRecord {
    type V = DedupRecordModel;

    open spec fn deep_view(&self) -> DedupRecordModel {
        self@
    }
}

/// A recording is accepted exactly when the identifier is not yet present.
pub open spec fn record_accepts(seen: Set<Seq<char>>, id: Seq<char>) -> bool {
    !seen.contains(id)
}

/// An accepted recording adds the identifier, and nothing else.
pub open spec fn record_next(seen: Set<Seq<char>>, id: Seq<char>) -> Set<Seq<char>> {
    seen.insert(id)
}

/// The deduplication store.
pub struct DedupStore {
    pub records: Vec<DedupRecord>,
}

impl View for DedupStore {
    type V = Seq<DedupRecordModel>;

    open spec fn view(&self) -> Seq<DedupRecordModel> {
        self.records.deep_view()
    }
}

impl DedupStore {
    /// The set of identifiers whose receipt has completed.
    pub open spec fn seen_set(self) -> Set<Seq<char>> {
        self.records.deep_view().map_values(|r: DedupRecordModel| r.id).to_set()
    }

    /// An empty store.
    pub fn new() -> (r: DedupStore)
        ensures
            r.seen_set() == Set::<Seq<char>>::empty(),
            r@ == Seq::<DedupRecordModel>::empty(),
    {
        let s = DedupStore { records: Vec::new() };
        proof {
            assert(s.seen_set() =~= Set::<Seq<char>>::empty());
        }
        s
    }

    /// Whether an identifier is already recorded.
    pub fn contains(&self, id: &Uri) -> (r: bool)
        ensures
            r == self.seen_set().contains(id@.text),
    {
        let ghost ids = self.records.deep_view().map_values(|rec: DedupRecordModel| rec.id);
        let n = self.records.len();
        for i in 0..n
            invariant
                n == self.records.len(),
                ids == self.records.deep_view().map_values(|rec: DedupRecordModel| rec.id),
                forall|j: int| 0 <= j < i ==> ids[j] != id@.text,
        {
            if self.records[i].id == id.text {
                proof {
                    assert(ids[i as int] == id@.text);
                    assert(ids.contains(id@.text));
                }
                return true;
            }
        }
        proof {
            assert(!ids.contains(id@.text));
        }
        false
    }

    /// Records an identifier that has completed receipt.  Succeeds at most
    /// once per distinct identifier: a later call with the same identifier
    /// observes the record and is refused, with the store unchanged.
    pub fn record_if_new(&mut self, id: &Uri, now: u64) -> (r: Result<(), DuplicateActivity>)
        ensures
            match r {
                Ok(()) => {
                    &&& record_accepts(old(self).seen_set(), id@.text)
                    &&& final(self)@ == old(self)@.push(
                        DedupRecordModel { id: id@.text, received_at: now },
                    )
                    &&& final(self).seen_set() == record_next(old(self).seen_set(), id@.text)
                },
                Err(_) => {
                    &&& !record_accepts(old(self).seen_set(), id@.text)
                    &&& *final(self) == *old(self)
                },
            },
    {
        if self.contains(id) {
            Err(DuplicateActivity)
        } else {
            let rec = DedupRecord { id: id.text.clone(), received_at: now };
            self.records.push(rec);
            proof {
                let m = DedupRecordModel { id: id@.text, received_at: now };
                assert(self@ =~= old(self)@.push(m));
                let f = |r: DedupRecordModel| r.id;
                let new_ids = self@.map_values(f);
                let old_ids = old(self)@.map_values(f);
                assert(new_ids =~= old_ids.push(id@.text));
                assert(new_ids[new_ids.len() - 1] == id@.text);
                assert(new_ids.contains(id@.text));
                assert forall|x: Seq<char>| new_ids.contains(x) implies old_ids.contains(x)
                    || x == id@.text by {
                    let i = choose|i: int| 0 <= i < new_ids.len() && new_ids[i] == x;
                    if i < old_ids.len() {
                        assert(old_ids[i] == x);
                    }
                }
                assert forall|x: Seq<char>| old_ids.contains(x) implies new_ids.contains(x) by {
                    let i = choose|i: int| 0 <= i < old_ids.len() && old_ids[i] == x;
                    assert(new_ids[i] == x);
                }
                assert(self.seen_set() =~= record_next(old(self).seen_set(), id@.text));
            }
            Ok(())
        }
    }
}

/// Exactly-once success: once a recording of an identifier has been
/// accepted, no later recording of the same identifier is accepted, however
/// many other recordings come between.
pub proof fn lemma_success_at_most_once(seen: Set<Seq<char>>, id: Seq<char>, later: Set<Seq<char>>)
    requires
        record_accepts(seen, id),
        record_next(seen, id).subset_of(later),
    ensures
        !record_accepts(later, id),
{
}

} // verus!
