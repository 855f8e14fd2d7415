//! A community as a profile records it.

use vstd::prelude::*;
use crate::lemmy::site::CommunityRecord;
use crate::profile::relation::{Entity, Relation};

verus! {

/// A community: its name, the address that identifies it on every instance,
/// and the handle it has on the instance it was read from.
#[derive(Debug)]
pub struct Community {
    pub name: String,
    pub actor: String,
    pub id: Option<i32>,
}

impl DeepView for Community {
    type V = Entity;

    open spec fn deep_view(&self) -> Entity {
        Entity { name: self.name@, actor: self.actor@, id: self.id }
    }
}

impl View for Community {
    type V = Entity;

    open spec fn view(&self) -> Entity {
        self.deep_view()
    }
}

impl Community {
    /// The profile entry for a community that an instance reports.
    pub fn new(community: &CommunityRecord) -> (entry: Self)
        ensures
            entry@ == community@,
    {
        Community {
            name: community.name.clone(),
            actor: community.actor_id.clone(),
            id: Some(community.id),
        }
    }

    /// Tells whether `community`, as an instance reports it, is this
    /// community: both the name and the actor address must agree.
    pub fn is_same(&self, community: &CommunityRecord) -> (same: bool)
        ensures
            same == self@.same(community@),
    {
        if self.name != community.name {
            return false;
        }
        if self.actor != community.actor_id {
            return false;
        }
        return true;
    }
}

impl Clone for Community {
    fn clone(&self) -> (copy: Self)
        ensures
            copy@ == self@,
    {
        Community { name: self.name.clone(), actor: self.actor.clone(), id: self.id }
    }
}

impl PartialEq for Community {
    fn eq(&self, other: &Self) -> (equal: bool) {
        if self.name != other.name {
            return false;
        }
        if self.actor != other.actor {
            return false;
        }
        return true;
    }
}

impl vstd::std_specs::cmp::PartialEqSpecImpl for Community {
    open spec fn obeys_eq_spec() -> bool {
        true
    }

    open spec fn eq_spec(&self, other: &Self) -> bool {
        self.name@ == other.name@ && self.actor@ == other.actor@
    }
}

impl Relation for Community {
    fn same_as(&self, other: &Self) -> (same: bool) {
        *self == *other
    }

    fn duplicate(&self) -> (copy: Self) {
        self.clone()
    }
}

} // verus!
