//! The cache: a store behind a lock, in front of a source.

use vstd::prelude::*;
use vstd::rwlock::{RwLock, RwLockPredicate};
use crate::lookup::{LookupResult, LookupView};
use crate::repository::UserRepository;
use crate::store::{result_view, UserStore};
use crate::user::UserView;

verus! {

/// Whether every record of `store` is one that `source` may give for the id it
/// is stored under.
pub open spec fn faithful<R: UserRepository>(store: Map<Seq<char>, UserView>, source: R) -> bool {
    forall|id: Seq<char>| #[trigger] store.contains_key(id) ==> source.answers(id, Some(store[id]))
}

/// What `search` may hand back for `id` when `source` stands behind the cache:
/// a cached record that the source may give for `id`, or absence where the
/// source may report absence.
pub open spec fn search_outcome<R: UserRepository>(
    source: R,
    id: Seq<char>,
    result: Option<LookupView>,
) -> bool {
    match result {
        Some(LookupView::Cached(user)) => source.answers(id, Some(user)),
        Some(LookupView::Fresh(_)) => false,
        None => source.answers(id, None),
    }
}

/// What the lock of a cache admits as its store: the stores that are faithful
/// to the source.
pub struct StoreInvariant<R> {
    pub source: R,
}

impl<R: UserRepository> RwLockPredicate<UserStore> for StoreInvariant<R> {
    open spec fn inv(self, store: UserStore) -> bool {
        faithful(store@, self.source)
    }
}

/// A read-through cache in front of the source `R`.
///
/// Any number of callers may search at the same time through a shared
/// reference. The store sits behind a readers-writer lock: lookups that the
/// store can answer share the lock, and the lock is held exclusively only
/// while one record is put in. The source is asked while no lock is held.
/// Results are copies, so none of them is touched by what the store does
/// afterwards.
pub struct InMemoryUserRepository<R: UserRepository> {
    users: RwLock<UserStore, StoreInvariant<R>>,
    internal: R,
}

impl<R: UserRepository> InMemoryUserRepository<R> {
    #[verifier::type_invariant]
    spec fn wf(self) -> bool {
        self.users.pred().source == self.internal
    }

    /// The source behind the cache.
    pub closed spec fn source(self) -> R {
        self.internal
    }

    /// A cache with an empty store in front of `internal`.
    pub fn new(internal: R) -> (cache: Self)
        ensures
            cache.source() == internal,
    {
        let store = UserStore::new();
        let users = RwLock::new(store, Ghost(StoreInvariant { source: internal }));
        InMemoryUserRepository { users, internal }
    }

    /// Looks `id` up: in the store first, and in the source if the store has no
    /// record of `id`. A record that the source gives is stored, unless another
    /// caller stored one for `id` in the meantime, and the result is a copy of
    /// the record that the store then holds. Absence is not stored.
    pub fn search(&self, id: &str) -> (result: Option<LookupResult>)
        ensures
            search_outcome(self.source(), id@, result_view(result)),
    {
        proof {
            use_type_invariant(self);
        }
        let reader = self.users.acquire_read();
        let hit = reader.borrow().get(id);
        reader.release_read();
        match hit {
            Some(stored) => Some(LookupResult::Cached(stored)),
            None => match self.internal.search(id) {
                Some(fresh) => {
                    let (mut store, writer) = self.users.acquire_write();
                    let kept = store.populate(id, fresh);
                    writer.release_write(store);
                    Some(kept)
                },
                None => None,
            },
        }
    }

    /// Ends the cache and hands out its store.
    ///
    /// Which records the store holds depends on the searches that were made,
    /// and those went through shared references, so no contract can name
    /// them. What holds of every store that comes out is what the lock kept
    /// true all along: each record is one that the source may give for the id
    /// it is stored under.
    pub fn into_store(self) -> (store: UserStore)
        ensures
            faithful(store@, self.source()),
    {
        proof {
            use_type_invariant(&self);
        }
        self.users.into_inner()
    }
}

} // verus!
