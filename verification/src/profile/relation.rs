//! Lists of followed or blocked communities and people, read as sets.
//!
//! An entry is identified across instances by its name together with its
//! actor address. The numeric handle that an instance gives it is carried
//! along but never compared.

use vstd::prelude::*;

verus! {

/// What a list entry is: a name, the address that identifies it on every
/// instance, and the handle it has on one instance, if known.
pub ghost struct Entity {
    pub name: Seq<char>,
    pub actor: Seq<char>,
    pub id: Option<i32>,
}

impl Entity {
    /// The pair by which entries are compared.
    pub open spec fn key(self) -> (Seq<char>, Seq<char>) {
        (self.name, self.actor)
    }

    /// Two entries denote the same community or person.
    pub open spec fn same(self, other: Entity) -> bool {
        self.name == other.name && self.actor == other.actor
    }
}

/// `list` holds an entry that denotes the same thing as `entry`.
pub open spec fn holds(list: Seq<Entity>, entry: Entity) -> bool {
    exists|i: int| 0 <= i < list.len() && (#[trigger] list[i]).same(entry)
}

/// No two entries of `list` denote the same thing.
pub open spec fn distinct(list: Seq<Entity>) -> bool {
    forall|i: int, j: int| 0 <= i < j < list.len() ==> !(#[trigger] list[i]).same(#[trigger] list[j])
}

/// The keys of the entries of `list`.
pub open spec fn keys(list: Seq<Entity>) -> Set<(Seq<char>, Seq<char>)> {
    Set::new(|k: (Seq<char>, Seq<char>)| exists|i: int| 0 <= i < list.len() && (#[trigger] list[i]).key() == k)
}

/// The relations of an account as sets: which communities it follows, which
/// it blocks and which people it blocks, each named by its key.
pub ghost struct Relations {
    pub follows: Set<(Seq<char>, Seq<char>)>,
    pub community_blocks: Set<(Seq<char>, Seq<char>)>,
    pub people_blocks: Set<(Seq<char>, Seq<char>)>,
}

/// `list` without the later repetitions of an entry: each thing keeps its
/// first entry, in the order of `list`.
pub open spec fn unique(list: Seq<Entity>) -> Seq<Entity>
    decreases list.len(),
{
    if list.len() == 0 {
        list
    } else {
        let front = unique(list.drop_last());
        if holds(front, list.last()) {
            front
        } else {
            front.push(list.last())
        }
    }
}

/// A kind of list entry: a community or a person.
pub trait Relation: DeepView<V = Entity> + Sized {
    /// Compares by name and actor address.
    fn same_as(&self, other: &Self) -> (same: bool)
        ensures
            same == self.deep_view().same(other.deep_view()),
    ;

    /// A copy with the same name, actor address and handle.
    fn duplicate(&self) -> (copy: Self)
        ensures
            copy.deep_view() == self.deep_view(),
    ;
}

/// Tells whether `list` holds an entry for the thing that `entry` denotes.
pub fn contains<T: Relation>(list: &Vec<T>, entry: &T) -> (found: bool)
    ensures
        found == holds(list.deep_view(), entry.deep_view()),
{
    let mut i: usize = 0;
    while i < list.len()
        invariant
            i <= list.len(),
            forall|k: int| 0 <= k < i ==> !(#[trigger] list.deep_view()[k]).same(entry.deep_view()),
        decreases list.len() - i,
    {
        if list[i].same_as(entry) {
            assert(list.deep_view()[i as int] == list[i as int].deep_view());
            return true;
        }
        i += 1;
    }
    false
}

/// Appends a copy of `entry` to `list` unless the thing it denotes is there.
pub fn insert<T: Relation>(list: &mut Vec<T>, entry: &T)
    ensures
        final(list).deep_view() == if holds(old(list).deep_view(), entry.deep_view()) {
            old(list).deep_view()
        } else {
            old(list).deep_view().push(entry.deep_view())
        },
{
    if !contains(list, entry) {
        let copy = entry.duplicate();
        list.push(copy);
        assert(list.deep_view() =~= old(list).deep_view().push(entry.deep_view()));
    }
}

/// `unique` leaves no repetition and drops no thing.
pub proof fn lemma_unique(list: Seq<Entity>)
    ensures
        distinct(unique(list)),
        forall|e: Entity| holds(unique(list), e) <==> holds(list, e),
        distinct(list) ==> unique(list) == list,
    decreases list.len(),
{
    if list.len() > 0 {
        let front = list.drop_last();
        let last = list.last();
        lemma_unique(front);
        let u = unique(list);
        assert forall|e: Entity| holds(u, e) <==> holds(list, e) by {
            if holds(u, e) {
                let i = choose|i: int| 0 <= i < u.len() && (#[trigger] u[i]).same(e);
                if i < unique(front).len() {
                    assert(unique(front)[i].same(e));
                    assert(holds(front, e));
                    let j = choose|j: int| 0 <= j < front.len() && (#[trigger] front[j]).same(e);
                    assert(list[j].same(e));
                } else {
                    assert(list[list.len() - 1].same(e));
                }
            }
            if holds(list, e) {
                let j = choose|j: int| 0 <= j < list.len() && (#[trigger] list[j]).same(e);
                if j < front.len() {
                    assert(front[j].same(e));
                    assert(holds(front, e));
                    assert(holds(unique(front), e));
                    let i = choose|i: int| 0 <= i < unique(front).len() && (#[trigger] unique(front)[i]).same(e);
                    assert(u[i].same(e));
                } else {
                    assert(last.same(e));
                    if holds(unique(front), last) {
                        let i = choose|i: int| 0 <= i < unique(front).len() && (#[trigger] unique(front)[i]).same(last);
                        assert(u[i].same(e));
                    } else {
                        assert(u[u.len() - 1].same(e));
                    }
                }
            }
        }
        if distinct(list) {
            assert(distinct(front));
            if holds(front, last) {
                let j = choose|j: int| 0 <= j < front.len() && (#[trigger] front[j]).same(last);
                assert(list[j].same(list[list.len() - 1]));
            }
            assert(unique(list) =~= list);
        }
    }
}

} // verus!
