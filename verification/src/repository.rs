//! The authoritative source behind the cache.

use std::sync::Arc;
use vstd::prelude::*;
use vstd::string::*;
use crate::user::{found_view, User, UserView};

verus! {

/// A source of user records: asked for an id, it produces a record or reports
/// that there is none.
///
/// The cache takes a source as it is: it may be slow, and it may answer one id
/// differently at different times. What the cache promises of its own results
/// is stated over `answers`, the relation between an id and the answers that
/// the source may give for it. An implementation picks the relation; `search`
/// must stay within it.
pub trait UserRepository {
    /// Whether `found` is an answer that this source may give for `id`.
    /// Unless an implementation says more, every answer is one.
    open spec fn answers(&self, id: Seq<char>, found: Option<UserView>) -> bool {
        true
    }

    /// Looks `id` up. `None` says that there is no such user; it is an answer,
    /// not a failure.
    fn search(&self, id: &str) -> (found: Option<User>)
        ensures
            self.answers(id@, found_view(found)),
    ;
}

/// A source that several owners share is the source itself.
impl<R: UserRepository> UserRepository for Arc<R> {
    open spec fn answers(&self, id: Seq<char>, found: Option<UserView>) -> bool {
        (**self).answers(id, found)
    }

    fn search(&self, id: &str) -> (found: Option<User>) {
        (**self).search(id)
    }
}

/// Whether `source` has one answer for `id`, and only that one.
pub open spec fn settled_on<R: UserRepository>(
    source: R,
    id: Seq<char>,
    answer: Option<UserView>,
) -> bool {
    forall|found: Option<UserView>| #[trigger] source.answers(id, found) <==> found == answer
}

/// The one answer of the fixed source: the user "1", aged 20, for the id "1",
/// and nobody for any other id.
pub open spec fn fixed_answer(id: Seq<char>) -> Option<UserView> {
    if id == seq!['1'] {
        Some(UserView { id: seq!['1'], age: 20 })
    } else {
        None
    }
}

/// A source that knows one user.
#[derive(Debug)]
pub struct FixedUserRepository;

impl UserRepository for FixedUserRepository {
    open spec fn answers(&self, id: Seq<char>, found: Option<UserView>) -> bool {
        found == fixed_answer(id)
    }

    fn search(&self, id: &str) -> (found: Option<User>) {
        proof {
            reveal_strlit("1");
        }
        if id.unicode_len() == 1 && id.get_char(0) == '1' {
            let user = User::new("1", 20);
            assert(id@ =~= seq!['1']);
            assert(user@.id =~= seq!['1']);
            Some(user)
        } else {
            None
        }
    }
}

} // verus!
