//! Outbound target resolution.
//!
//! Given the semantic recipients of an activity, the resolver computes the
//! set of inbox URLs that are owed one delivery each.  A recipient that
//! advertises a shared inbox contributes that URL, which collapses many
//! recipients on one instance into a single delivery; the result carries
//! no duplicate URL.

use vstd::prelude::*;
use crate::actors::{Actor, ActorModel};
use crate::ids::{Uri, UriModel};

verus! {

/// The inbox a delivery for this recipient goes to: the shared inbox when
/// the actor advertises one, else the actor's own inbox.
pub open spec fn delivery_inbox(a: ActorModel) -> UriModel {
    match a.shared_inbox {
        Some(u) => u,
        None => a.inbox,
    }
}

/// The set of inbox URL texts owed delivery for a recipient sequence.
pub open spec fn target_texts(rs: Seq<ActorModel>) -> Set<Seq<char>> {
    rs.map_values(|a: ActorModel| delivery_inbox(a).text).to_set()
}

/// The URL texts of a resolved target list.
pub open spec fn texts_of(ts: Seq<UriModel>) -> Seq<Seq<char>> {
    ts.map_values(|u: UriModel| u.text)
}

/// Pushing onto a sequence adds exactly one element to the set it spans.
proof fn lemma_to_set_push<A>(s: Seq<A>, x: A)
    ensures
        s.push(x).to_set() == s.to_set().insert(x),
{
    let p = s.push(x);
    assert(p[p.len() - 1] == x);
    assert forall|y: A| p.contains(y) implies s.to_set().insert(x).contains(y) by {
        let i = choose|i: int| 0 <= i < p.len() && p[i] == y;
        if i < s.len() {
            assert(s[i] == y);
        }
    }
    assert forall|y: A| s.contains(y) implies p.contains(y) by {
        let i = choose|i: int| 0 <= i < s.len() && s[i] == y;
        assert(p[i] == y);
    }
    assert(p.to_set() =~= s.to_set().insert(x));
}

/// The actor's own inbox.
pub fn inbox_of(a: &Actor) -> (r: &Uri)
    ensures
        r@ == a@.inbox,
{
    &a.inbox
}

/// The preferred delivery inbox of one recipient.
pub fn shared_inbox_or_inbox(a: &Actor) -> (r: &Uri)
    ensures
        r@ == delivery_inbox(a@),
{
    match &a.shared_inbox {
        Some(u) => u,
        None => &a.inbox,
    }
}

/// Whether a target list already holds a URL with this text.
fn contains_text(ts: &Vec<Uri>, t: &String) -> (r: bool)
    ensures
        r == texts_of(ts.deep_view()).contains(t@),
{
    let ghost txts = texts_of(ts.deep_view());
    let n = ts.len();
    for i in 0..n
        invariant
            n == ts.len(),
            txts == texts_of(ts.deep_view()),
            forall|j: int| 0 <= j < i ==> txts[j] != t@,
    {
        if ts[i].text == *t {
            proof {
                assert(txts[i as int] == t@);
            }
            return true;
        }
    }
    false
}

/// Resolves a recipient set to the deduplicated set of delivery URLs.
/// The resolved list spans exactly the owed target set, once each.
pub fn resolve_targets(recipients: &Vec<Actor>) -> (r: Vec<Uri>)
    ensures
        texts_of(r.deep_view()).to_set() == target_texts(recipients.deep_view()),
        forall|i: int, j: int|
            0 <= i < j < r.deep_view().len() ==> r.deep_view()[i].text != r.deep_view()[j].text,
{
    let ghost rs = recipients.deep_view();
    let ghost f = |a: ActorModel| delivery_inbox(a).text;
    let mut out: Vec<Uri> = Vec::new();
    let n = recipients.len();
    proof {
        assert(rs.take(0) =~= Seq::<ActorModel>::empty());
        assert(rs.take(0).map_values(f) =~= Seq::<Seq<char>>::empty());
        assert(texts_of(out.deep_view()).to_set() =~= target_texts(rs.take(0)));
    }
    for i in 0..n
        invariant
            n == recipients.len(),
            rs == recipients.deep_view(),
            f == (|a: ActorModel| delivery_inbox(a).text),
            texts_of(out.deep_view()).to_set() == target_texts(rs.take(i as int)),
            forall|k: int, l: int|
                0 <= k < l < out.deep_view().len()
                    ==> out.deep_view()[k].text != out.deep_view()[l].text,
    {
        let inbox = shared_inbox_or_inbox(&recipients[i]).clone();
        let ghost old_out = out.deep_view();
        let present = contains_text(&out, &inbox.text);
        if !present {
            out.push(inbox);
        }
        proof {
            assert(rs.take(i + 1) =~= rs.take(i as int).push(rs[i as int]));
            assert(rs.take(i + 1).map_values(f) =~= rs.take(i as int).map_values(f).push(
                f(rs[i as int]),
            ));
            lemma_to_set_push(rs.take(i as int).map_values(f), f(rs[i as int]));
            if present {
                assert(target_texts(rs.take(i + 1)) =~= target_texts(rs.take(i as int)));
            } else {
                assert(out.deep_view() =~= old_out.push(inbox@));
                assert(texts_of(out.deep_view()) =~= texts_of(old_out).push(inbox@.text));
                lemma_to_set_push(texts_of(old_out), inbox@.text);
                assert forall|k: int| 0 <= k < old_out.len() implies old_out[k].text
                    != inbox@.text by {
                    assert(texts_of(old_out)[k] == old_out[k].text);
                }
            }
        }
    }
    proof {
        assert(rs.take(n as int) =~= rs);
    }
    out
}

/// Target resolution is order-independent: two recipient lists that span
/// the same set of actors are owed the same set of delivery URLs, whatever
/// the order or repetition in which the recipients were listed.
pub proof fn lemma_targets_order_independent(r1: Seq<ActorModel>, r2: Seq<ActorModel>)
    requires
        r1.to_set() == r2.to_set(),
    ensures
        target_texts(r1) == target_texts(r2),
{
    let f = |a: ActorModel| delivery_inbox(a).text;
    assert forall|t: Seq<char>| target_texts(r1).contains(t) implies target_texts(r2).contains(
        t,
    ) by {
        let m1 = r1.map_values(f);
        let i = choose|i: int| 0 <= i < m1.len() && m1[i] == t;
        assert(r1.contains(r1[i]));
        assert(r2.to_set().contains(r1[i]));
        let j = choose|j: int| 0 <= j < r2.len() && r2[j] == r1[i];
        assert(r2.map_values(f)[j] == t);
        assert(r2.map_values(f).contains(t));
    }
    assert forall|t: Seq<char>| target_texts(r2).contains(t) implies target_texts(r1).contains(
        t,
    ) by {
        let m2 = r2.map_values(f);
        let i = choose|i: int| 0 <= i < m2.len() && m2[i] == t;
        assert(r2.contains(r2[i]));
        assert(r1.to_set().contains(r2[i]));
        let j = choose|j: int| 0 <= j < r1.len() && r1[j] == r2[i];
        assert(r1.map_values(f)[j] == t);
        assert(r1.map_values(f).contains(t));
    }
    assert(target_texts(r1) =~= target_texts(r2));
}

} // verus!
