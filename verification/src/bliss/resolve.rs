//! Finding on one instance the community or person that a profile names.
//!
//! A profile records a community or a person by name and actor address.
//! The handle it has on another instance is found by searching there for
//! the name. Of what the search returns, only an entry with the same name
//! and the same actor address counts, and only if there is exactly one.

use vstd::prelude::*;
use crate::bliss::Bliss;
use crate::bliss::error::{Error, ErrorView};
use crate::lemmy::site::{CommunityRecord, PersonRecord};
use crate::profile::community::Community;
use crate::profile::people;
use crate::profile::person::Person;
use crate::profile::relation::Entity;

verus! {

/// The entries of `candidates` that denote what `reference` denotes.
pub open spec fn survivors(reference: Entity, candidates: Seq<Entity>) -> Seq<Entity> {
    candidates.filter(|c: Entity| reference.same(c))
}

/// The handle that `candidates` give for `reference`: that of the one entry
/// with the same name and actor address, if there is exactly one such entry.
pub open spec fn resolve(reference: Entity, candidates: Seq<Entity>) -> Option<i32> {
    let left = survivors(reference, candidates);
    if left.len() == 1 {
        left[0].id
    } else {
        None
    }
}

/// What looking for a community or person comes to: its handle, or the
/// failure that names its actor address after the words of `what`.
pub open spec fn found_or_missing(handle: Option<i32>, what: Seq<char>, actor: Seq<char>) -> Result<
    i32,
    ErrorView,
> {
    match handle {
        Some(id) => Ok(id),
        None => Err(ErrorView::BlissError(what + actor)),
    }
}

/// What a lookup holds.
pub open spec fn lookup_view(found: Result<i32, Error>) -> Result<i32, ErrorView> {
    match found {
        Ok(id) => Ok(id),
        Err(error) => Err(error@),
    }
}

proof fn lemma_survivors_step(reference: Entity, candidates: Seq<Entity>, i: int)
    requires
        0 <= i < candidates.len(),
    ensures
        survivors(reference, candidates.take(i + 1)) == if reference.same(candidates[i]) {
            survivors(reference, candidates.take(i)).push(candidates[i])
        } else {
            survivors(reference, candidates.take(i))
        },
{
    reveal(Seq::filter);
    assert(candidates.take(i + 1).drop_last() =~= candidates.take(i));
}

impl Bliss {
    /// Looks among `response`, the communities that a search on the
    /// destination returned, for the one that `community` names.
    pub fn find_community(community: &Community, response: &Vec<CommunityRecord>) -> (found: Result<
        i32,
        Error,
    >)
        ensures
            lookup_view(found) == found_or_missing(
                resolve(community@, response.deep_view()),
                "Unable to find community: "@,
                community@.actor,
            ),
    {
        let ghost candidates = response.deep_view();
        let mut count: usize = 0;
        let mut first: i32 = 0;
        let mut i: usize = 0;
        proof {
            reveal(Seq::filter);
            assert(candidates.take(0) =~= Seq::<Entity>::empty());
        }
        while i < response.len()
            invariant
                i <= response.len(),
                candidates == response.deep_view(),
                count == survivors(community@, candidates.take(i as int)).len(),
                count <= i,
                count > 0 ==> survivors(community@, candidates.take(i as int))[0].id == Some(first),
            decreases response.len() - i,
        {
            proof {
                lemma_survivors_step(community@, candidates, i as int);
            }
            if community.is_same(&response[i]) {
                if count == 0 {
                    first = response[i].id;
                }
                count += 1;
            }
            i += 1;
        }
        assert(candidates.take(response.len() as int) =~= candidates);
        if count == 1 {
            Ok(first)
        } else {
            Err(
                Error::BlissError(
                    String::from_str("Unable to find community: ").concat(community.actor.as_str()),
                ),
            )
        }
    }

    /// Looks among `response`, the people that a search on the destination
    /// returned, for the one that `person` names.
    pub fn find_person(person: &Person, response: &Vec<PersonRecord>) -> (found: Result<i32, Error>)
        ensures
            lookup_view(found) == found_or_missing(
                resolve(person@, people(response.deep_view())),
                "Unable to find user: "@,
                person@.actor,
            ),
    {
        let ghost candidates = people(response.deep_view());
        let mut count: usize = 0;
        let mut first: i32 = 0;
        let mut i: usize = 0;
        proof {
            reveal(Seq::filter);
            assert(candidates.take(0) =~= Seq::<Entity>::empty());
        }
        while i < response.len()
            invariant
                i <= response.len(),
                candidates == people(response.deep_view()),
                count == survivors(person@, candidates.take(i as int)).len(),
                count <= i,
                count > 0 ==> survivors(person@, candidates.take(i as int))[0].id == Some(first),
            decreases response.len() - i,
        {
            proof {
                lemma_survivors_step(person@, candidates, i as int);
                assert(candidates[i as int] == response[i as int]@.entity());
            }
            if person.is_same(&response[i]) {
                if count == 0 {
                    first = response[i].id;
                }
                count += 1;
            }
            i += 1;
        }
        assert(candidates.take(response.len() as int) =~= candidates);
        if count == 1 {
            Ok(first)
        } else {
            Err(Error::BlissError(String::from_str("Unable to find user: ").concat(person.actor.as_str())))
        }
    }
}

/// Of two candidates with the name of the reference, only the one with its
/// actor address counts: the lookup gives that one's handle, whichever of
/// the two the search lists first.
pub proof fn lemma_actor_address_decides(reference: Entity, right: Entity, wrong: Entity)
    requires
        right.name == reference.name,
        wrong.name == reference.name,
        right.actor == reference.actor,
        wrong.actor != reference.actor,
    ensures
        resolve(reference, seq![right, wrong]) == right.id,
        resolve(reference, seq![wrong, right]) == right.id,
{
    reveal_with_fuel(Seq::filter, 3);
    let pred = |c: Entity| reference.same(c);
    let a = seq![right, wrong];
    assert(a.drop_last() =~= seq![right]);
    assert(seq![right].drop_last() =~= Seq::<Entity>::empty());
    assert(survivors(reference, a) =~= seq![right]);
    let b = seq![wrong, right];
    assert(b.drop_last() =~= seq![wrong]);
    assert(seq![wrong].drop_last() =~= Seq::<Entity>::empty());
    assert(survivors(reference, b) =~= seq![right]);
}

/// A lookup gives the handle of an entry that has the name and the actor
/// address of the reference, wherever no other entry has them.
pub proof fn lemma_resolve_unique(reference: Entity, candidates: Seq<Entity>, i: int)
    requires
        0 <= i < candidates.len(),
        reference.same(candidates[i]),
        forall|j: int| 0 <= j < candidates.len() && j != i ==> !reference.same(#[trigger] candidates[j]),
    ensures
        survivors(reference, candidates) == seq![candidates[i]],
        resolve(reference, candidates) == candidates[i].id,
    decreases candidates.len(),
{
    reveal(Seq::filter);
    let pred = |c: Entity| reference.same(c);
    let front = candidates.drop_last();
    if i == candidates.len() - 1 {
        assert forall|j: int| 0 <= j < front.len() implies !pred(#[trigger] front[j]) by {
            assert(front[j] == candidates[j]);
        }
        front.lemma_all_neg_filter_empty(pred);
        assert(survivors(reference, front) =~= Seq::<Entity>::empty());
        assert(survivors(reference, candidates) =~= seq![candidates[i]]);
    } else {
        assert(front[i] == candidates[i]);
        assert forall|j: int| 0 <= j < front.len() && j != i implies !reference.same(
            #[trigger] front[j],
        ) by {
            assert(front[j] == candidates[j]);
        }
        lemma_resolve_unique(reference, front, i);
        assert(!reference.same(candidates[candidates.len() - 1]));
        assert(survivors(reference, candidates) =~= seq![candidates[i]]);
    }
}

/// A lookup fails wherever two entries have the name and the actor address
/// of the reference.
pub proof fn lemma_resolve_ambiguous(reference: Entity, candidates: Seq<Entity>, i: int, j: int)
    requires
        0 <= i < j < candidates.len(),
        reference.same(candidates[i]),
        reference.same(candidates[j]),
    ensures
        survivors(reference, candidates).len() >= 2,
        resolve(reference, candidates) is None,
    decreases candidates.len(),
{
    reveal(Seq::filter);
    let pred = |c: Entity| reference.same(c);
    let front = candidates.drop_last();
    assert(front[i] == candidates[i]);
    if j == candidates.len() - 1 {
        front.lemma_filter_contains(pred, i);
        assert(survivors(reference, front).len() >= 1);
    } else {
        assert(front[j] == candidates[j]);
        lemma_resolve_ambiguous(reference, front, i, j);
        front.lemma_filter_len_push(pred, candidates.last());
    }
}

/// A lookup fails wherever no entry has the name and the actor address of
/// the reference.
pub proof fn lemma_resolve_missing(reference: Entity, candidates: Seq<Entity>)
    requires
        forall|i: int| 0 <= i < candidates.len() ==> !reference.same(#[trigger] candidates[i]),
    ensures
        survivors(reference, candidates) == Seq::<Entity>::empty(),
        resolve(reference, candidates) is None,
{
    let pred = |c: Entity| reference.same(c);
    candidates.lemma_all_neg_filter_empty(pred);
    assert(survivors(reference, candidates) =~= Seq::<Entity>::empty());
}

} // verus!
