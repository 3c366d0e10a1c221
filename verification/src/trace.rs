//! Picking what matters out of a sequence of events or actions.

use vstd::prelude::*;

verus! {

/// What `pick` finds in the elements of `s`, in their order.
pub open spec fn collect<A, B>(s: Seq<A>, pick: spec_fn(A) -> Option<B>) -> Seq<B>
    decreases s.len(),
{
    if s.len() == 0 {
        Seq::empty()
    } else {
        match pick(s.last()) {
            Some(found) => collect(s.drop_last(), pick).push(found),
            None => collect(s.drop_last(), pick),
        }
    }
}

/// What is found in two sequences together is what is found in the first, then in the second.
pub proof fn lemma_collect_add<A, B>(s: Seq<A>, t: Seq<A>, pick: spec_fn(A) -> Option<B>)
    ensures
        collect(s + t, pick) == collect(s, pick) + collect(t, pick),
    decreases t.len(),
{
    if t.len() == 0 {
        assert(s + t == s);
    } else {
        assert((s + t).drop_last() == s + t.drop_last());
        lemma_collect_add(s, t.drop_last(), pick);
        assert(collect(s + t, pick) =~= collect(s, pick) + collect(t, pick));
    }
}

/// What is found in one element alone.
pub proof fn lemma_collect_one<A, B>(a: A, pick: spec_fn(A) -> Option<B>)
    ensures
        collect(seq![a], pick) == match pick(a) {
            Some(found) => seq![found],
            None => Seq::empty(),
        },
{
    assert(seq![a].drop_last() == Seq::<A>::empty());
    assert(collect(Seq::<A>::empty(), pick) == Seq::<B>::empty());
    assert(collect(seq![a], pick) =~= match pick(a) {
        Some(found) => seq![found],
        None => Seq::empty(),
    });
}

/// Where the elements of two sequences come to the same, one by one, so do the sequences.
pub proof fn lemma_collect_same<A, B, C>(
    s: Seq<A>,
    pick_s: spec_fn(A) -> Option<C>,
    t: Seq<B>,
    pick_t: spec_fn(B) -> Option<C>,
)
    requires
        s.len() == t.len(),
        forall|i: int| 0 <= i < s.len() ==> pick_s(#[trigger] s[i]) == pick_t(t[i]),
    ensures
        collect(s, pick_s) == collect(t, pick_t),
    decreases s.len(),
{
    if s.len() > 0 {
        assert forall|i: int| 0 <= i < s.drop_last().len() implies pick_s(
            #[trigger] s.drop_last()[i],
        ) == pick_t(t.drop_last()[i]) by {
            assert(s.drop_last()[i] == s[i]);
        }
        lemma_collect_same(s.drop_last(), pick_s, t.drop_last(), pick_t);
        assert(pick_s(s[s.len() - 1]) == pick_t(t[t.len() - 1]));
    }
}

/// Where each element holds something, all of it is found.
pub proof fn lemma_collect_all<A, B>(s: Seq<A>, pick: spec_fn(A) -> Option<B>, found: Seq<B>)
    requires
        s.len() == found.len(),
        forall|i: int| 0 <= i < s.len() ==> pick(#[trigger] s[i]) == Some(found[i]),
    ensures
        collect(s, pick) == found,
    decreases s.len(),
{
    if s.len() > 0 {
        assert forall|i: int| 0 <= i < s.drop_last().len() implies pick(
            #[trigger] s.drop_last()[i],
        ) == Some(found.drop_last()[i]) by {
            assert(s.drop_last()[i] == s[i]);
        }
        lemma_collect_all(s.drop_last(), pick, found.drop_last());
        assert(pick(s[s.len() - 1]) == Some(found[found.len() - 1]));
    }
    assert(collect(s, pick) =~= found);
}

/// Where no element holds anything, nothing is found.
pub proof fn lemma_collect_none<A, B>(s: Seq<A>, pick: spec_fn(A) -> Option<B>)
    requires
        forall|i: int| 0 <= i < s.len() ==> pick(#[trigger] s[i]) is None,
    ensures
        collect(s, pick) == Seq::<B>::empty(),
    decreases s.len(),
{
    if s.len() > 0 {
        assert forall|i: int| 0 <= i < s.drop_last().len() implies pick(
            #[trigger] s.drop_last()[i],
        ) is None by {
            assert(s.drop_last()[i] == s[i]);
        }
        lemma_collect_none(s.drop_last(), pick);
        assert(pick(s[s.len() - 1]) is None);
    }
}

} // verus!
