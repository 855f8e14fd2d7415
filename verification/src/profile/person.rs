//! A person as a profile records it.

use vstd::prelude::*;
use crate::lemmy::site::PersonRecord;
use crate::profile::relation::{Entity, Relation};

verus! {

/// A person: the account name, the address that identifies it on every
/// instance, and the handle it has on the instance it was read from.
#[derive(Debug)]
pub struct Person {
    pub username: String,
    pub actor: String,
    pub id: Option<i32>,
}

impl DeepView for Person {
    type V = Entity;

    open spec fn deep_view(&self) -> Entity {
        Entity { name: self.username@, actor: self.actor@, id: self.id }
    }
}

impl View for Person {
    type V = Entity;

    open spec fn view(&self) -> Entity {
        self.deep_view()
    }
}

impl Person {
    /// The profile entry for a person that an instance reports.
    pub fn new(person: &PersonRecord) -> (entry: Self)
        ensures
            entry@ == person@.entity(),
    {
        Person { username: person.name.clone(), actor: person.actor_id.clone(), id: Some(person.id) }
    }

    /// Tells whether `person`, as an instance reports it, is this person:
    /// both the name and the actor address must agree.
    pub fn is_same(&self, person: &PersonRecord) -> (same: bool)
        ensures
            same == self@.same(person@.entity()),
    {
        if self.username != person.name {
            return false;
        }
        if self.actor != person.actor_id {
            return false;
        }
        return true;
    }
}

impl Clone for Person {
    fn clone(&self) -> (copy: Self)
        ensures
            copy@ == self@,
    {
        Person { username: self.username.clone(), actor: self.actor.clone(), id: self.id }
    }
}

impl PartialEq for Person {
    fn eq(&self, other: &Self) -> (equal: bool) {
        if self.username != other.username {
            return false;
        }
        if self.actor != other.actor {
            return false;
        }
        return true;
    }
}

impl vstd::std_specs::cmp::PartialEqSpecImpl for Person {
    open spec fn obeys_eq_spec() -> bool {
        true
    }

    open spec fn eq_spec(&self, other: &Self) -> bool {
        self.username@ == other.username@ && self.actor@ == other.actor@
    }
}

impl Relation for Person {
    fn same_as(&self, other: &Self) -> (same: bool) {
        *self == *other
    }

    fn duplicate(&self) -> (copy: Self) {
        self.clone()
    }
}

} // verus!
