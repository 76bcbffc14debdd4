//! The record that the cache stores and hands out.

use vstd::prelude::*;

verus! {

/// A user as contracts see it: the characters of the id, and the age.
pub struct UserView {
    pub id: Seq<char>,
    pub age: u32,
}

/// A user record. The cache never changes one: it stores and hands out whole
/// records.
#[derive(Debug)]
pub struct User {
    pub id: String,
    pub age: u32,
}

impl View for User {
    type V = UserView;

    open spec fn view(&self) -> UserView {
        UserView { id: self.id@, age: self.age }
    }
}

/// A record that may be missing, as contracts see it.
pub open spec fn found_view(found: Option<User>) -> Option<UserView> {
    match found {
        Some(user) => Some(user@),
        None => None,
    }
}

impl User {
    /// Builds the record with the given id and age.
    pub fn new(id: &str, age: u32) -> (user: User)
        ensures
            user@ == (UserView { id: id@, age }),
    {
        User { id: id.to_owned(), age }
    }
}

impl Clone for User {
    /// The copy has the same id and the same age.
    fn clone(&self) -> (copy: User)
        ensures
            copy == *self,
    {
        User { id: self.id.clone(), age: self.age }
    }
}

impl PartialEq for User {
    /// Two records are equal when their ids and their ages are.
    fn eq(&self, other: &User) -> (equal: bool) {
        self.id == other.id && self.age == other.age
    }
}

impl Eq for User {}

impl vstd::std_specs::cmp::PartialEqSpecImpl for User {
    open spec fn obeys_eq_spec() -> bool {
        true
    }

    open spec fn eq_spec(&self, other: &User) -> bool {
        self@ == other@
    }
}

} // verus!
