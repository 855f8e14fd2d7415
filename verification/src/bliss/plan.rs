//! The changes that a push makes to the relations of the destination
//! account, and the order in which it makes them.

use vstd::prelude::*;
use crate::bliss::Bliss;
use crate::profile::community::Community;
use crate::profile::diff::{
    lemma_subtract_empty, lemma_subtract_holds, spec_to_add, spec_to_remove, to_add, to_remove,
};
use crate::profile::person::Person;
use crate::profile::relation::{keys, Entity, Relations};
use crate::profile::{Info, InfoView};

verus! {

/// What a change does.
#[derive(Clone, Copy, Debug, PartialEq, Eq, Structural)]
pub enum Kind {
    FollowCommunity,
    BlockCommunity,
    UnfollowCommunity,
    UnblockCommunity,
    BlockPerson,
    UnblockPerson,
}

impl Kind {
    /// The change concerns a person; the others concern a community.
    pub open spec fn on_person(self) -> bool {
        self == Kind::BlockPerson || self == Kind::UnblockPerson
    }
}

/// One change to the relations of an account.
#[derive(Debug)]
pub enum Mutation {
    FollowCommunity(Community),
    BlockCommunity(Community),
    UnfollowCommunity(Community),
    UnblockCommunity(Community),
    BlockPerson(Person),
    UnblockPerson(Person),
}

/// What a `Mutation` holds: what it does, and to which community or person.
pub ghost struct MutationView {
    pub kind: Kind,
    pub target: Entity,
}

impl MutationView {
    /// The relations after the change has been made to `state`. A relation
    /// that is established twice is there once; one that is dissolved
    /// without being there is not missed.
    pub open spec fn apply(self, state: Relations) -> Relations {
        let key = self.target.key();
        match self.kind {
            Kind::FollowCommunity => Relations { follows: state.follows.insert(key), ..state },
            Kind::UnfollowCommunity => Relations { follows: state.follows.remove(key), ..state },
            Kind::BlockCommunity => Relations {
                community_blocks: state.community_blocks.insert(key),
                ..state
            },
            Kind::UnblockCommunity => Relations {
                community_blocks: state.community_blocks.remove(key),
                ..state
            },
            Kind::BlockPerson => Relations { people_blocks: state.people_blocks.insert(key), ..state },
            Kind::UnblockPerson => Relations { people_blocks: state.people_blocks.remove(key), ..state },
        }
    }
}

impl DeepView for Mutation {
    type V = MutationView;

    open spec fn deep_view(&self) -> MutationView {
        match self {
            Mutation::FollowCommunity(c) => MutationView { kind: Kind::FollowCommunity, target: c@ },
            Mutation::BlockCommunity(c) => MutationView { kind: Kind::BlockCommunity, target: c@ },
            Mutation::UnfollowCommunity(c) => MutationView { kind: Kind::UnfollowCommunity, target: c@ },
            Mutation::UnblockCommunity(c) => MutationView { kind: Kind::UnblockCommunity, target: c@ },
            Mutation::BlockPerson(p) => MutationView { kind: Kind::BlockPerson, target: p@ },
            Mutation::UnblockPerson(p) => MutationView { kind: Kind::UnblockPerson, target: p@ },
        }
    }
}

impl View for Mutation {
    type V = MutationView;

    open spec fn view(&self) -> MutationView {
        self.deep_view()
    }
}

impl Mutation {
    /// What the change does.
    pub fn kind(&self) -> (kind: Kind)
        ensures
            kind == self@.kind,
    {
        match self {
            Mutation::FollowCommunity(_) => Kind::FollowCommunity,
            Mutation::BlockCommunity(_) => Kind::BlockCommunity,
            Mutation::UnfollowCommunity(_) => Kind::UnfollowCommunity,
            Mutation::UnblockCommunity(_) => Kind::UnblockCommunity,
            Mutation::BlockPerson(_) => Kind::BlockPerson,
            Mutation::UnblockPerson(_) => Kind::UnblockPerson,
        }
    }

    /// The name of the community or person that the change concerns.
    pub fn name(&self) -> (name: &str)
        ensures
            name@ == self@.target.name,
    {
        match self {
            Mutation::FollowCommunity(c) => c.name.as_str(),
            Mutation::BlockCommunity(c) => c.name.as_str(),
            Mutation::UnfollowCommunity(c) => c.name.as_str(),
            Mutation::UnblockCommunity(c) => c.name.as_str(),
            Mutation::BlockPerson(p) => p.username.as_str(),
            Mutation::UnblockPerson(p) => p.username.as_str(),
        }
    }
}

impl Clone for Mutation {
    fn clone(&self) -> (copy: Self)
        ensures
            copy@ == self@,
    {
        match self {
            Mutation::FollowCommunity(c) => Mutation::FollowCommunity(c.clone()),
            Mutation::BlockCommunity(c) => Mutation::BlockCommunity(c.clone()),
            Mutation::UnfollowCommunity(c) => Mutation::UnfollowCommunity(c.clone()),
            Mutation::UnblockCommunity(c) => Mutation::UnblockCommunity(c.clone()),
            Mutation::BlockPerson(p) => Mutation::BlockPerson(p.clone()),
            Mutation::UnblockPerson(p) => Mutation::UnblockPerson(p.clone()),
        }
    }
}

/// The change of kind `kind` for each entry of `list`, in the order of
/// `list`.
pub open spec fn segment(kind: Kind, list: Seq<Entity>) -> Seq<MutationView> {
    list.map_values(|target: Entity| MutationView { kind, target })
}

/// The changes that a push makes to communities: it follows those that
/// `info` follows and `dst_info` does not, then blocks those that `info`
/// blocks and `dst_info` does not. A subtractive push then stops following
/// those that `dst_info` follows and `info` does not, and lifts the blocks
/// that `dst_info` has and `info` has not.
pub open spec fn spec_push_communities(info: InfoView, dst_info: InfoView, subtractive: bool) -> Seq<
    MutationView,
> {
    let add = spec_to_add(info, dst_info);
    let undo = spec_to_remove(dst_info, info);
    segment(Kind::FollowCommunity, add.communities_follows) + segment(
        Kind::BlockCommunity,
        add.communities_blocks,
    ) + if subtractive {
        segment(Kind::UnfollowCommunity, undo.communities_follows) + segment(
            Kind::UnblockCommunity,
            undo.communities_blocks,
        )
    } else {
        Seq::<MutationView>::empty()
    }
}

/// The changes that a push makes to people: it blocks those that `info`
/// blocks and `dst_info` does not. A subtractive push then lifts the blocks
/// that `dst_info` has and `info` has not.
pub open spec fn spec_push_users(info: InfoView, dst_info: InfoView, subtractive: bool) -> Seq<
    MutationView,
> {
    let add = spec_to_add(info, dst_info);
    let undo = spec_to_remove(dst_info, info);
    segment(Kind::BlockPerson, add.people_blocks) + if subtractive {
        segment(Kind::UnblockPerson, undo.people_blocks)
    } else {
        Seq::<MutationView>::empty()
    }
}

/// All the changes of a push, in the order in which they are made: first
/// those to communities, then those to people.
pub open spec fn spec_push_info(info: InfoView, dst_info: InfoView, subtractive: bool) -> Seq<
    MutationView,
> {
    spec_push_communities(info, dst_info, subtractive) + spec_push_users(info, dst_info, subtractive)
}

fn extend_communities(plan: &mut Vec<Mutation>, list: &Vec<Community>, kind: Kind)
    requires
        !kind.on_person(),
    ensures
        final(plan).deep_view() == old(plan).deep_view() + segment(kind, list.deep_view()),
{
    let ghost start = plan.deep_view();
    let mut i: usize = 0;
    assert(start + segment(kind, list.deep_view().take(0)) =~= start);
    while i < list.len()
        invariant
            i <= list.len(),
            !kind.on_person(),
            plan.deep_view() == start + segment(kind, list.deep_view().take(i as int)),
        decreases list.len() - i,
    {
        let ghost before = plan.deep_view();
        let target = list[i].clone();
        let change = match kind {
            Kind::FollowCommunity => Mutation::FollowCommunity(target),
            Kind::BlockCommunity => Mutation::BlockCommunity(target),
            Kind::UnfollowCommunity => Mutation::UnfollowCommunity(target),
            _ => Mutation::UnblockCommunity(target),
        };
        plan.push(change);
        proof {
            assert(plan.deep_view() =~= before.push(change@));
            assert(list.deep_view()[i as int] == list[i as int]@);
            assert(start + segment(kind, list.deep_view().take(i + 1)) =~= before.push(change@));
        }
        i += 1;
    }
    assert(list.deep_view().take(list.len() as int) =~= list.deep_view());
}

fn extend_people(plan: &mut Vec<Mutation>, list: &Vec<Person>, kind: Kind)
    requires
        kind.on_person(),
    ensures
        final(plan).deep_view() == old(plan).deep_view() + segment(kind, list.deep_view()),
{
    let ghost start = plan.deep_view();
    let mut i: usize = 0;
    assert(start + segment(kind, list.deep_view().take(0)) =~= start);
    while i < list.len()
        invariant
            i <= list.len(),
            kind.on_person(),
            plan.deep_view() == start + segment(kind, list.deep_view().take(i as int)),
        decreases list.len() - i,
    {
        let ghost before = plan.deep_view();
        let target = list[i].clone();
        let change = match kind {
            Kind::BlockPerson => Mutation::BlockPerson(target),
            _ => Mutation::UnblockPerson(target),
        };
        plan.push(change);
        proof {
            assert(plan.deep_view() =~= before.push(change@));
            assert(list.deep_view()[i as int] == list[i as int]@);
            assert(start + segment(kind, list.deep_view().take(i + 1)) =~= before.push(change@));
        }
        i += 1;
    }
    assert(list.deep_view().take(list.len() as int) =~= list.deep_view());
}

impl Bliss {
    /// Plans the changes to communities that bring `dst_info`, the state of
    /// the destination, to `info`, the state saved in the profile.
    pub fn push_communities(info: &Info, dst_info: &Info, subtractive: bool) -> (plan: Vec<Mutation>)
        ensures
            plan.deep_view() == spec_push_communities(info@, dst_info@, subtractive),
    {
        let add = to_add(info, dst_info);
        let mut plan: Vec<Mutation> = Vec::new();
        assert(plan.deep_view() =~= Seq::<MutationView>::empty());
        extend_communities(&mut plan, &add.communities_follows, Kind::FollowCommunity);
        extend_communities(&mut plan, &add.communities_blocks, Kind::BlockCommunity);
        if subtractive {
            let undo = to_remove(dst_info, info);
            extend_communities(&mut plan, &undo.communities_follows, Kind::UnfollowCommunity);
            extend_communities(&mut plan, &undo.communities_blocks, Kind::UnblockCommunity);
        }
        assert(plan.deep_view() =~= spec_push_communities(info@, dst_info@, subtractive));
        plan
    }

    /// Plans the changes to people that bring `dst_info`, the state of the
    /// destination, to `info`, the state saved in the profile.
    pub fn push_users(info: &Info, dst_info: &Info, subtractive: bool) -> (plan: Vec<Mutation>)
        ensures
            plan.deep_view() == spec_push_users(info@, dst_info@, subtractive),
    {
        let add = to_add(info, dst_info);
        let mut plan: Vec<Mutation> = Vec::new();
        assert(plan.deep_view() =~= Seq::<MutationView>::empty());
        extend_people(&mut plan, &add.people_blocks, Kind::BlockPerson);
        if subtractive {
            let undo = to_remove(dst_info, info);
            extend_people(&mut plan, &undo.people_blocks, Kind::UnblockPerson);
        }
        assert(plan.deep_view() =~= spec_push_users(info@, dst_info@, subtractive));
        plan
    }

    /// Plans all the changes that bring `dst_info`, the state of the
    /// destination, to `info`, the state saved in the profile: the additions
    /// always, the removals only where `subtractive` asks for them.
    pub fn push_info(info: &Info, dst_info: &Info, subtractive: bool) -> (plan: Vec<Mutation>)
        ensures
            plan.deep_view() == spec_push_info(info@, dst_info@, subtractive),
    {
        let mut plan = Bliss::push_communities(info, dst_info, subtractive);
        let mut users = Bliss::push_users(info, dst_info, subtractive);
        let ghost first = plan.deep_view();
        let ghost second = users.deep_view();
        plan.append(&mut users);
        assert(plan.deep_view() =~= first + second);
        plan
    }
}

/// The relations after the changes of `plan` have been made to `state`,
/// one after the other.
pub open spec fn run(state: Relations, plan: Seq<MutationView>) -> Relations
    decreases plan.len(),
{
    if plan.len() == 0 {
        state
    } else {
        plan.last().apply(run(state, plan.drop_last()))
    }
}

/// Making the changes of two plans in a row is making those of the first
/// and then those of the second.
pub proof fn lemma_run_concat(state: Relations, first: Seq<MutationView>, second: Seq<MutationView>)
    ensures
        run(state, first + second) == run(run(state, first), second),
    decreases second.len(),
{
    if second.len() == 0 {
        assert(first + second =~= first);
    } else {
        assert((first + second).drop_last() =~= first + second.drop_last());
        assert((first + second).last() == second.last());
        lemma_run_concat(state, first, second.drop_last());
    }
}

/// Making one kind of change for every entry of a list adds the keys of
/// the list to the set that the kind concerns, or takes them out of it,
/// and leaves the other sets alone.
pub proof fn lemma_run_segment(state: Relations, kind: Kind, list: Seq<Entity>)
    ensures
        run(state, segment(kind, list)) == match kind {
            Kind::FollowCommunity => Relations { follows: state.follows.union(keys(list)), ..state },
            Kind::UnfollowCommunity => Relations {
                follows: state.follows.difference(keys(list)),
                ..state
            },
            Kind::BlockCommunity => Relations {
                community_blocks: state.community_blocks.union(keys(list)),
                ..state
            },
            Kind::UnblockCommunity => Relations {
                community_blocks: state.community_blocks.difference(keys(list)),
                ..state
            },
            Kind::BlockPerson => Relations {
                people_blocks: state.people_blocks.union(keys(list)),
                ..state
            },
            Kind::UnblockPerson => Relations {
                people_blocks: state.people_blocks.difference(keys(list)),
                ..state
            },
        },
    decreases list.len(),
{
    let plan = segment(kind, list);
    if list.len() == 0 {
        assert(keys(list) =~= Set::<(Seq<char>, Seq<char>)>::empty());
        assert(state.follows.union(keys(list)) =~= state.follows);
        assert(state.follows.difference(keys(list)) =~= state.follows);
        assert(state.community_blocks.union(keys(list)) =~= state.community_blocks);
        assert(state.community_blocks.difference(keys(list)) =~= state.community_blocks);
        assert(state.people_blocks.union(keys(list)) =~= state.people_blocks);
        assert(state.people_blocks.difference(keys(list)) =~= state.people_blocks);
    } else {
        let front = list.drop_last();
        let key = list.last().key();
        assert(plan.drop_last() =~= segment(kind, front));
        lemma_run_segment(state, kind, front);
        assert(keys(list) =~= keys(front).insert(key)) by {
            assert forall|k: (Seq<char>, Seq<char>)| keys(list).contains(k) <==> keys(front).insert(
                key,
            ).contains(k) by {
                if keys(list).contains(k) {
                    let i = choose|i: int| 0 <= i < list.len() && (#[trigger] list[i]).key() == k;
                    if i < front.len() {
                        assert(front[i].key() == k);
                    }
                }
                if keys(front).contains(k) {
                    let i = choose|i: int| 0 <= i < front.len() && (#[trigger] front[i]).key() == k;
                    assert(list[i].key() == k);
                }
                if k == key {
                    assert(list[list.len() - 1].key() == k);
                }
            }
        }
        assert(state.follows.union(keys(list)) =~= state.follows.union(keys(front)).insert(key));
        assert(state.follows.difference(keys(list)) =~= state.follows.difference(keys(front)).remove(
            key,
        ));
        assert(state.community_blocks.union(keys(list)) =~= state.community_blocks.union(
            keys(front),
        ).insert(key));
        assert(state.community_blocks.difference(keys(list)) =~= state.community_blocks.difference(
            keys(front),
        ).remove(key));
        assert(state.people_blocks.union(keys(list)) =~= state.people_blocks.union(keys(front)).insert(
            key,
        ));
        assert(state.people_blocks.difference(keys(list)) =~= state.people_blocks.difference(
            keys(front),
        ).remove(key));
    }
}

/// The relations that a push leaves on the destination when every change
/// of its plan succeeds: kind by kind, what the destination had together
/// with what the profile has, and, for a subtractive push, exactly what the
/// profile has.
pub proof fn lemma_push_result(info: InfoView, dst_info: InfoView, subtractive: bool)
    ensures
        run(dst_info.relations(), spec_push_info(info, dst_info, subtractive)) == if subtractive {
            info.relations()
        } else {
            Relations {
                follows: dst_info.relations().follows.union(info.relations().follows),
                community_blocks: dst_info.relations().community_blocks.union(
                    info.relations().community_blocks,
                ),
                people_blocks: dst_info.relations().people_blocks.union(info.relations().people_blocks),
            }
        },
{
    let add = spec_to_add(info, dst_info);
    let undo = spec_to_remove(dst_info, info);
    let start = dst_info.relations();
    let adds_follows = segment(Kind::FollowCommunity, add.communities_follows);
    let adds_blocks = segment(Kind::BlockCommunity, add.communities_blocks);
    let drops_follows = segment(Kind::UnfollowCommunity, undo.communities_follows);
    let drops_blocks = segment(Kind::UnblockCommunity, undo.communities_blocks);
    let adds_people = segment(Kind::BlockPerson, add.people_blocks);
    let drops_people = segment(Kind::UnblockPerson, undo.people_blocks);
    lemma_subtract_holds(info.communities_follows, dst_info.communities_follows);
    lemma_subtract_holds(info.communities_blocks, dst_info.communities_blocks);
    lemma_subtract_holds(info.people_blocks, dst_info.people_blocks);
    lemma_subtract_holds(dst_info.communities_follows, info.communities_follows);
    lemma_subtract_holds(dst_info.communities_blocks, info.communities_blocks);
    lemma_subtract_holds(dst_info.people_blocks, info.people_blocks);
    let followed = run(start, adds_follows);
    lemma_run_segment(start, Kind::FollowCommunity, add.communities_follows);
    let blocked = run(followed, adds_blocks);
    lemma_run_segment(followed, Kind::BlockCommunity, add.communities_blocks);
    assert(blocked.follows =~= start.follows.union(info.relations().follows));
    assert(blocked.community_blocks =~= start.community_blocks.union(info.relations().community_blocks));
    lemma_run_concat(start, adds_follows, adds_blocks);
    if subtractive {
        let unfollowed = run(blocked, drops_follows);
        lemma_run_segment(blocked, Kind::UnfollowCommunity, undo.communities_follows);
        let unblocked = run(unfollowed, drops_blocks);
        lemma_run_segment(unfollowed, Kind::UnblockCommunity, undo.communities_blocks);
        lemma_run_concat(blocked, drops_follows, drops_blocks);
        lemma_run_concat(start, adds_follows + adds_blocks, drops_follows + drops_blocks);
        let people_blocked = run(unblocked, adds_people);
        lemma_run_segment(unblocked, Kind::BlockPerson, add.people_blocks);
        let people_unblocked = run(people_blocked, drops_people);
        lemma_run_segment(people_blocked, Kind::UnblockPerson, undo.people_blocks);
        lemma_run_concat(unblocked, adds_people, drops_people);
        lemma_run_concat(start, adds_follows + adds_blocks + (drops_follows + drops_blocks), adds_people + drops_people);
        assert(people_unblocked.follows =~= info.relations().follows);
        assert(people_unblocked.community_blocks =~= info.relations().community_blocks);
        assert(people_unblocked.people_blocks =~= info.relations().people_blocks);
        assert(spec_push_info(info, dst_info, subtractive) =~= adds_follows + adds_blocks + (drops_follows + drops_blocks) + (adds_people + drops_people));
    } else {
        let none = Seq::<MutationView>::empty();
        assert(adds_follows + adds_blocks + none =~= adds_follows + adds_blocks);
        assert(adds_people + none =~= adds_people);
        let people_blocked = run(blocked, adds_people);
        lemma_run_segment(blocked, Kind::BlockPerson, add.people_blocks);
        lemma_run_concat(start, adds_follows + adds_blocks, adds_people);
        assert(people_blocked.people_blocks =~= start.people_blocks.union(info.relations().people_blocks));
        assert(spec_push_info(info, dst_info, subtractive) =~= adds_follows + adds_blocks + adds_people);
    }
}

/// A subtractive push whose changes all succeed leaves the destination
/// with exactly the relations of the profile.
pub proof fn lemma_subtractive_push_converges(info: InfoView, dst_info: InfoView)
    ensures
        run(dst_info.relations(), spec_push_info(info, dst_info, true)) == info.relations(),
{
    lemma_push_result(info, dst_info, true);
}

/// After a push without removals whose changes all succeeded, a second
/// push of the same profile without removals plans no change, in whatever
/// order the destination then lists its relations.
pub proof fn lemma_second_push_is_empty(info: InfoView, dst_info: InfoView, after: InfoView)
    requires
        after.relations() == run(dst_info.relations(), spec_push_info(info, dst_info, false)),
    ensures
        spec_push_info(info, after, false) == Seq::<MutationView>::empty(),
{
    lemma_push_result(info, dst_info, false);
    lemma_subtract_empty(info.communities_follows, after.communities_follows);
    lemma_subtract_empty(info.communities_blocks, after.communities_blocks);
    lemma_subtract_empty(info.people_blocks, after.people_blocks);
    assert(spec_push_info(info, after, false) =~= Seq::<MutationView>::empty());
}

/// A push to a destination that holds the relations of the profile
/// already, and no others, plans no change, with or without removals.
pub proof fn lemma_push_of_reached_state_is_empty(info: InfoView, dst_info: InfoView, subtractive: bool)
    requires
        dst_info.relations() == info.relations(),
    ensures
        spec_push_info(info, dst_info, subtractive) == Seq::<MutationView>::empty(),
{
    lemma_subtract_empty(info.communities_follows, dst_info.communities_follows);
    lemma_subtract_empty(info.communities_blocks, dst_info.communities_blocks);
    lemma_subtract_empty(info.people_blocks, dst_info.people_blocks);
    lemma_subtract_empty(dst_info.communities_follows, info.communities_follows);
    lemma_subtract_empty(dst_info.communities_blocks, info.communities_blocks);
    lemma_subtract_empty(dst_info.people_blocks, info.people_blocks);
    assert(spec_push_info(info, dst_info, subtractive) =~= Seq::<MutationView>::empty());
}

} // verus!
