//! The store of the cache: user records by the id they were asked for.

use vstd::prelude::*;
use vstd::hash_map::StringHashMap;
use crate::lookup::{LookupResult, LookupView};
use crate::repository::UserRepository;
use crate::user::{found_view, User, UserView};

verus! {

/// The store after `user` was offered under `id`. An id that has an entry
/// keeps it: the first record stored for an id stays.
pub open spec fn populated(
    store: Map<Seq<char>, UserView>,
    id: Seq<char>,
    user: UserView,
) -> Map<Seq<char>, UserView> {
    if store.contains_key(id) {
        store
    } else {
        store.insert(id, user)
    }
}

/// One lookup of `id` against `store`, where `answer` is what the source says
/// if it is asked: the store afterwards, and the result.
///
/// An id that the store holds is answered from the store, and `answer` plays
/// no part. Otherwise a record that the source gave is stored and handed out
/// as a copy of the stored one, and absence leaves the store as it was.
pub open spec fn read_through(
    store: Map<Seq<char>, UserView>,
    id: Seq<char>,
    answer: Option<UserView>,
) -> (Map<Seq<char>, UserView>, Option<LookupView>) {
    if store.contains_key(id) {
        (store, Some(LookupView::Cached(store[id])))
    } else {
        match answer {
            Some(user) => (store.insert(id, user), Some(LookupView::Cached(user))),
            None => (store, None),
        }
    }
}

/// What a lookup handed back, as contracts see it.
pub open spec fn result_view(result: Option<LookupResult>) -> Option<LookupView> {
    match result {
        Some(found) => Some(found@),
        None => None,
    }
}

/// The record in a result, if there is one.
pub open spec fn record_of(result: Option<LookupView>) -> Option<UserView> {
    match result {
        Some(found) => Some(found.user()),
        None => None,
    }
}

/// User records by id. Every id has at most one record.
pub struct UserStore {
    users: StringHashMap<User>,
}

impl View for UserStore {
    type V = Map<Seq<char>, UserView>;

    closed spec fn view(&self) -> Map<Seq<char>, UserView> {
        self.users@.map_values(|user: User| user@)
    }
}

impl UserStore {
    /// A store without records.
    pub fn new() -> (store: UserStore)
        ensures
            store@ == Map::<Seq<char>, UserView>::empty(),
    {
        let store = UserStore { users: StringHashMap::new() };
        assert(store@ =~= Map::<Seq<char>, UserView>::empty());
        store
    }

    /// The number of records.
    pub fn len(&self) -> (count: usize)
        ensures
            count == self@.len(),
    {
        assert(self@.dom() =~= self.users@.dom());
        self.users.len()
    }

    /// Whether `id` has a record.
    pub fn contains(&self, id: &str) -> (present: bool)
        ensures
            present == self@.contains_key(id@),
    {
        self.users.contains_key(id)
    }

    /// A copy of the record of `id`, if it has one.
    pub fn get(&self, id: &str) -> (found: Option<User>)
        ensures
            found_view(found) == (if self@.contains_key(id@) {
                Some(self@[id@])
            } else {
                None
            }),
    {
        match self.users.get(id) {
            Some(user) => Some(user.clone()),
            None => None,
        }
    }

    /// Stores `user` under `id`, in place of the record that `id` had, if any.
    pub fn insert(&mut self, id: &str, user: User)
        ensures
            final(self)@ == old(self)@.insert(id@, user@),
    {
        self.users.insert(id.to_owned(), user);
        assert(self@ =~= old(self)@.insert(id@, user@));
    }

    /// Offers a fresh record for `id` and hands back a copy of the record that
    /// the store then holds for it: `fresh`, unless `id` had a record already.
    pub fn populate(&mut self, id: &str, fresh: User) -> (kept: LookupResult)
        ensures
            final(self)@ == populated(old(self)@, id@, fresh@),
            kept@ == LookupView::Cached(final(self)@[id@]),
    {
        match self.get(id) {
            Some(stored) => LookupResult::Cached(stored),
            None => {
                let copy = fresh.clone();
                self.insert(id, fresh);
                LookupResult::Cached(copy)
            },
        }
    }

    /// Finishes a lookup of `id`, given what the source said: the store and the
    /// result are those of `read_through`.
    pub fn settle(&mut self, id: &str, answer: Option<User>) -> (result: Option<LookupResult>)
        ensures
            (final(self)@, result_view(result)) == read_through(
                old(self)@,
                id@,
                found_view(answer),
            ),
    {
        match answer {
            Some(fresh) => Some(self.populate(id, fresh)),
            None => match self.get(id) {
                Some(stored) => Some(LookupResult::Cached(stored)),
                None => None,
            },
        }
    }

    /// Looks `id` up, asking `source` only if the store has no record of it.
    ///
    /// An id that the store holds is answered from the store, which stays as it
    /// is. For any other id the result shows what the source answered: that is
    /// an answer that the source may give, and the store and the result are
    /// those of `read_through` for it.
    pub fn search<R: UserRepository>(&mut self, id: &str, source: &R) -> (result: Option<
        LookupResult,
    >)
        ensures
            old(self)@.contains_key(id@) ==> ({
                &&& final(self)@ == old(self)@
                &&& result_view(result) == Some(LookupView::Cached(old(self)@[id@]))
            }),
            !old(self)@.contains_key(id@) ==> ({
                let answer = record_of(result_view(result));
                &&& source.answers(id@, answer)
                &&& (final(self)@, result_view(result)) == read_through(old(self)@, id@, answer)
            }),
    {
        match self.get(id) {
            Some(stored) => Some(LookupResult::Cached(stored)),
            None => {
                let answer = source.search(id);
                self.settle(id, answer)
            },
        }
    }
}

} // verus!
