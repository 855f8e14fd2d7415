//! Differences between two lists of communities or people.
//!
//! The difference of two lists holds the entries of the first whose thing
//! has no entry in the second, in the order of the first.

use vstd::prelude::*;
use crate::profile::relation::{contains, distinct, holds, keys, Entity, Relation};
use crate::profile::{Info, InfoView};

verus! {

/// The entries of `left` for things that `right` has no entry for, in the
/// order in which `left` holds them.
pub open spec fn subtract(left: Seq<Entity>, right: Seq<Entity>) -> Seq<Entity> {
    left.filter(|e: Entity| !holds(right, e))
}

/// Computes the entries of `left` for things that `right` lacks.
pub fn subtract_list<T: Relation>(left: &Vec<T>, right: &Vec<T>) -> (rest: Vec<T>)
    ensures
        rest.deep_view() == subtract(left.deep_view(), right.deep_view()),
{
    let mut rest: Vec<T> = Vec::new();
    let mut i: usize = 0;
    proof {
        reveal(Seq::filter);
        assert(rest.deep_view() =~= Seq::<Entity>::empty());
        assert(left.deep_view().take(0) =~= Seq::<Entity>::empty());
    }
    while i < left.len()
        invariant
            i <= left.len(),
            rest.deep_view() == subtract(left.deep_view().take(i as int), right.deep_view()),
        decreases left.len() - i,
    {
        let ghost before = rest.deep_view();
        let ghost prefix = left.deep_view().take(i as int);
        let ghost next = left.deep_view().take(i + 1);
        proof {
            reveal(Seq::filter);
            assert(next.drop_last() =~= prefix);
            assert(next.last() == left[i as int].deep_view());
        }
        if !contains(right, &left[i]) {
            let copy = left[i].duplicate();
            rest.push(copy);
            assert(rest.deep_view() =~= before.push(left[i as int].deep_view()));
        }
        i += 1;
    }
    assert(left.deep_view().take(left.len() as int) =~= left.deep_view());
    rest
}

/// An entry for a thing is in the difference exactly when the first list
/// has one and the second has none; every entry of the difference is an
/// entry of the first list.
pub proof fn lemma_subtract_holds(left: Seq<Entity>, right: Seq<Entity>)
    ensures
        forall|e: Entity| holds(subtract(left, right), e) <==> holds(left, e) && !holds(right, e),
        forall|i: int|
            0 <= i < subtract(left, right).len() ==> left.contains(#[trigger] subtract(left, right)[i]),
        keys(subtract(left, right)) == keys(left).difference(keys(right)),
    decreases left.len(),
{
    reveal(Seq::filter);
    let pred = |e: Entity| !holds(right, e);
    let d = subtract(left, right);
    if left.len() > 0 {
        let front = left.drop_last();
        let last = left.last();
        let df = subtract(front, right);
        lemma_subtract_holds(front, right);
        assert forall|i: int| 0 <= i < d.len() implies left.contains(#[trigger] d[i]) by {
            if i < df.len() {
                assert(front.contains(df[i]));
                let j = choose|j: int| 0 <= j < front.len() && front[j] == df[i];
                assert(left[j] == d[i]);
            } else {
                assert(left[left.len() - 1] == d[i]);
            }
        }
        assert forall|e: Entity| holds(d, e) <==> holds(left, e) && !holds(right, e) by {
            if holds(d, e) {
                let i = choose|i: int| 0 <= i < d.len() && (#[trigger] d[i]).same(e);
                if i < df.len() {
                    assert(df[i].same(e));
                    assert(holds(df, e));
                    assert(holds(front, e));
                    let j = choose|j: int| 0 <= j < front.len() && (#[trigger] front[j]).same(e);
                    assert(left[j].same(e));
                } else {
                    assert(d[i] == last);
                    assert(left[left.len() - 1].same(e));
                    lemma_holds_respects_same(right, last, e);
                }
            }
            if holds(left, e) && !holds(right, e) {
                let j = choose|j: int| 0 <= j < left.len() && (#[trigger] left[j]).same(e);
                if j < front.len() {
                    assert(front[j].same(e));
                    assert(holds(front, e));
                    assert(holds(df, e));
                    let i = choose|i: int| 0 <= i < df.len() && (#[trigger] df[i]).same(e);
                    assert(d[i].same(e));
                } else {
                    lemma_holds_respects_same(right, last, e);
                    assert(d[d.len() - 1].same(e));
                }
            }
        }
    }
    assert forall|k: (Seq<char>, Seq<char>)| keys(d).contains(k) <==> keys(left).contains(k) && !keys(
        right,
    ).contains(k) by {
        let e = Entity { name: k.0, actor: k.1, id: None };
        lemma_keys_holds(d, e);
        lemma_keys_holds(left, e);
        lemma_keys_holds(right, e);
    }
    assert(keys(d) =~= keys(left).difference(keys(right)));
}

/// Whether a list has an entry for a thing does not depend on which entry
/// denotes the thing.
pub proof fn lemma_holds_respects_same(list: Seq<Entity>, a: Entity, b: Entity)
    requires
        a.same(b),
    ensures
        holds(list, a) == holds(list, b),
{
    if holds(list, a) {
        let i = choose|i: int| 0 <= i < list.len() && (#[trigger] list[i]).same(a);
        assert(list[i].same(b));
    }
    if holds(list, b) {
        let i = choose|i: int| 0 <= i < list.len() && (#[trigger] list[i]).same(b);
        assert(list[i].same(a));
    }
}

/// A list has an entry for a thing exactly when the thing's key is among
/// the list's keys.
pub proof fn lemma_keys_holds(list: Seq<Entity>, e: Entity)
    ensures
        keys(list).contains(e.key()) == holds(list, e),
{
    if keys(list).contains(e.key()) {
        let i = choose|i: int| 0 <= i < list.len() && (#[trigger] list[i]).key() == e.key();
        assert(list[i].same(e));
    }
    if holds(list, e) {
        let i = choose|i: int| 0 <= i < list.len() && (#[trigger] list[i]).same(e);
        assert(list[i].key() == e.key());
    }
}

/// The difference of a list with itself is empty.
pub proof fn lemma_subtract_self(list: Seq<Entity>)
    ensures
        subtract(list, list) == Seq::<Entity>::empty(),
{
    let pred = |e: Entity| !holds(list, e);
    assert forall|i: int| 0 <= i < list.len() implies !pred(#[trigger] list[i]) by {
        assert(list[i].same(list[i]));
    }
    list.lemma_all_neg_filter_empty(pred);
    assert(subtract(list, list) =~= Seq::<Entity>::empty());
}

/// The difference is empty exactly when the second list has an entry for
/// every thing of the first.
pub proof fn lemma_subtract_empty(left: Seq<Entity>, right: Seq<Entity>)
    ensures
        subtract(left, right).len() == 0 <==> keys(left).subset_of(keys(right)),
{
    lemma_subtract_holds(left, right);
    let d = subtract(left, right);
    if d.len() == 0 {
        assert forall|k: (Seq<char>, Seq<char>)| keys(left).contains(k) implies keys(right).contains(k) by {
            if !keys(right).contains(k) {
                assert(keys(d).contains(k));
                let i = choose|i: int| 0 <= i < d.len() && (#[trigger] d[i]).key() == k;
            }
        }
    }
    if keys(left).subset_of(keys(right)) {
        if d.len() > 0 {
            assert(keys(d).contains(d[0].key()));
            assert(keys(left).contains(d[0].key()));
        }
    }
}

/// A difference repeats nothing that the first list does not repeat.
pub proof fn lemma_subtract_distinct(left: Seq<Entity>, right: Seq<Entity>)
    requires
        distinct(left),
    ensures
        distinct(subtract(left, right)),
    decreases left.len(),
{
    reveal(Seq::filter);
    if left.len() > 0 {
        let front = left.drop_last();
        let last = left.last();
        let df = subtract(front, right);
        let d = subtract(left, right);
        assert(distinct(front));
        lemma_subtract_distinct(front, right);
        lemma_subtract_holds(front, right);
        assert forall|i: int, j: int| 0 <= i < j < d.len() implies !(#[trigger] d[i]).same(
            #[trigger] d[j],
        ) by {
            if j >= df.len() {
                assert(d[j] == last);
                assert(d[i] == df[i]);
                if df[i].same(last) {
                    assert(holds(df, last));
                    assert(holds(front, last));
                    let k = choose|k: int| 0 <= k < front.len() && (#[trigger] front[k]).same(last);
                    assert(left[k].same(left[left.len() - 1]));
                }
            } else {
                assert(d[i] == df[i] && d[j] == df[j]);
            }
        }
    }
}

/// The relations to establish: those of `desired` that `current` lacks.
pub open spec fn spec_to_add(desired: InfoView, current: InfoView) -> InfoView {
    desired.subtract(current)
}

/// The relations to dissolve: those of `current` that `desired` lacks.
pub open spec fn spec_to_remove(current: InfoView, desired: InfoView) -> InfoView {
    current.subtract(desired)
}

/// Computes what has to be added to `current` to reach `desired`: kind by
/// kind, the relations of `desired` that `current` lacks, in the order of
/// `desired`.
pub fn to_add(desired: &Info, current: &Info) -> (changes: Info)
    ensures
        changes@ == spec_to_add(desired@, current@),
        desired@.wf() ==> changes@.wf(),
{
    desired.subtract(current)
}

/// Computes what has to be removed from `current` to reach `desired`: kind
/// by kind, the relations of `current` that `desired` lacks, in the order
/// of `current`.
pub fn to_remove(current: &Info, desired: &Info) -> (changes: Info)
    ensures
        changes@ == spec_to_remove(current@, desired@),
        current@.wf() ==> changes@.wf(),
{
    current.subtract(desired)
}

/// Between a state and itself there is nothing to add.
pub proof fn lemma_to_add_self(state: InfoView)
    ensures
        spec_to_add(state, state).communities_follows == Seq::<Entity>::empty(),
        spec_to_add(state, state).communities_blocks == Seq::<Entity>::empty(),
        spec_to_add(state, state).people_blocks == Seq::<Entity>::empty(),
{
    lemma_subtract_self(state.communities_follows);
    lemma_subtract_self(state.communities_blocks);
    lemma_subtract_self(state.people_blocks);
}

/// What is to be removed from `current` to reach `desired` is what would
/// be to add to `desired` to reach `current`: removing is adding with the
/// two states in each other's role.
pub proof fn lemma_to_remove_is_to_add_reversed(current: InfoView, desired: InfoView)
    ensures
        spec_to_remove(current, desired) == spec_to_add(current, desired),
{
}

/// The difference of two lists is the same list in both directions exactly
/// when the two lists name the same things; both differences are then
/// empty.
pub proof fn lemma_differences_agree(a: Seq<Entity>, b: Seq<Entity>)
    ensures
        subtract(a, b) == subtract(b, a) <==> keys(a) == keys(b),
        keys(a) == keys(b) ==> subtract(a, b) == Seq::<Entity>::empty(),
{
    lemma_subtract_holds(a, b);
    lemma_subtract_holds(b, a);
    lemma_subtract_empty(a, b);
    lemma_subtract_empty(b, a);
    let forth = subtract(a, b);
    let back = subtract(b, a);
    if forth == back {
        if forth.len() > 0 {
            assert(forth[0].same(forth[0]));
            assert(holds(forth, forth[0]));
            assert(holds(back, forth[0]));
        }
        assert(keys(a) =~= keys(b));
    }
    if keys(a) == keys(b) {
        assert(forth =~= Seq::<Entity>::empty());
        assert(back =~= Seq::<Entity>::empty());
    }
}

/// What is to be removed from `a` to reach `b` is the same as what is to be
/// added to `a` to reach `b`, kind by kind, exactly where the two states
/// hold the same relations of that kind; there is then nothing to remove
/// and nothing to add. For states that differ the two are different lists.
pub proof fn lemma_to_remove_of_equal_states(a: InfoView, b: InfoView)
    ensures
        spec_to_remove(a, b).communities_follows == spec_to_add(b, a).communities_follows
            <==> a.relations().follows == b.relations().follows,
        spec_to_remove(a, b).communities_blocks == spec_to_add(b, a).communities_blocks
            <==> a.relations().community_blocks == b.relations().community_blocks,
        spec_to_remove(a, b).people_blocks == spec_to_add(b, a).people_blocks <==> a.relations().people_blocks
            == b.relations().people_blocks,
{
    lemma_differences_agree(a.communities_follows, b.communities_follows);
    lemma_differences_agree(a.communities_blocks, b.communities_blocks);
    lemma_differences_agree(a.people_blocks, b.people_blocks);
}

} // verus!
