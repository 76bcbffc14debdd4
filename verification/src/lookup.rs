//! What a lookup hands back: a record, tagged by where it came from.

use vstd::prelude::*;
use crate::user::{found_view, User, UserView};

verus! {

/// A lookup result as contracts see it.
pub enum LookupView {
    Fresh(UserView),
    Cached(UserView),
}

/// A record found by a lookup.
///
/// `Fresh` is a record that was just produced and that nobody else holds: the
/// receiver owns it and may store it. `Cached` is a copy of a record that a
/// store holds under the id that was asked for; the copy is the receiver's own
/// and stays as it is whatever happens to the store afterwards.
#[derive(Debug)]
pub enum LookupResult {
    Fresh(User),
    Cached(User),
}

impl View for LookupResult {
    type V = LookupView;

    open spec fn view(&self) -> LookupView {
        match *self {
            LookupResult::Fresh(user) => LookupView::Fresh(user@),
            LookupResult::Cached(user) => LookupView::Cached(user@),
        }
    }
}

impl LookupView {
    /// The record, whichever the tag.
    pub open spec fn user(self) -> UserView {
        match self {
            LookupView::Fresh(user) => user,
            LookupView::Cached(user) => user,
        }
    }
}

impl LookupResult {
    /// Whether the record is a copy of a stored one.
    pub fn is_cached(&self) -> (cached: bool)
        ensures
            cached == (self@ is Cached),
    {
        match self {
            LookupResult::Fresh(_) => false,
            LookupResult::Cached(_) => true,
        }
    }

    /// The record, whichever the tag.
    pub fn user(&self) -> (user: &User)
        ensures
            user@ == self@.user(),
    {
        match self {
            LookupResult::Fresh(user) => user,
            LookupResult::Cached(user) => user,
        }
    }

    /// The record if the receiver owns it as a fresh one, and nothing for a
    /// copy of a stored record.
    pub fn fresh(self) -> (owned: Option<User>)
        ensures
            found_view(owned) == match self@ {
                LookupView::Fresh(user) => Some(user),
                LookupView::Cached(_) => None,
            },
    {
        match self {
            LookupResult::Fresh(user) => Some(user),
            LookupResult::Cached(_) => None,
        }
    }

    /// The record if it is a copy of a stored one, and nothing for a fresh
    /// record.
    pub fn cached(self) -> (copy: Option<User>)
        ensures
            found_view(copy) == match self@ {
                LookupView::Fresh(_) => None,
                LookupView::Cached(user) => Some(user),
            },
    {
        match self {
            LookupResult::Fresh(_) => None,
            LookupResult::Cached(user) => Some(user),
        }
    }

    /// Gives up the tag and keeps the record.
    pub fn into_user(self) -> (user: User)
        ensures
            user@ == self@.user(),
    {
        match self {
            LookupResult::Fresh(user) => user,
            LookupResult::Cached(user) => user,
        }
    }
}

impl Clone for LookupResult {
    /// The copy has the same tag and an equal record.
    fn clone(&self) -> (copy: LookupResult)
        ensures
            copy == *self,
    {
        match self {
            LookupResult::Fresh(user) => LookupResult::Fresh(user.clone()),
            LookupResult::Cached(user) => LookupResult::Cached(user.clone()),
        }
    }
}

impl PartialEq for LookupResult {
    /// Two results are equal when their tags and their records are.
    fn eq(&self, other: &LookupResult) -> (equal: bool) {
        match (self, other) {
            (LookupResult::Fresh(user), LookupResult::Fresh(other_user)) => user == other_user,
            (LookupResult::Cached(user), LookupResult::Cached(other_user)) => user == other_user,
            _ => false,
        }
    }
}

impl Eq for LookupResult {}

impl vstd::std_specs::cmp::PartialEqSpecImpl for LookupResult {
    open spec fn obeys_eq_spec() -> bool {
        true
    }

    open spec fn eq_spec(&self, other: &LookupResult) -> bool {
        self@ == other@
    }
}

} // verus!
