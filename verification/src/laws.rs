//! What holds of every lookup, whatever the store, the id and the source.
//!
//! The store of a cache changes in one way only: a record is offered for an id
//! and kept if the id had none (`populated`). A lookup on a store that a single
//! caller owns is `read_through`. The laws below speak of these two and of runs
//! of offers in any order, which is what callers that search at the same time
//! amount to for the store: each of them reads, and offers at most once.

use vstd::prelude::*;
use crate::cache::{faithful, search_outcome};
use crate::lookup::LookupView;
use crate::repository::{fixed_answer, settled_on, FixedUserRepository, UserRepository};
use crate::store::{populated, read_through};
use crate::user::UserView;

verus! {

/// The store after the records of `offers` were offered one after the other,
/// each under its id.
pub open spec fn populated_all(
    store: Map<Seq<char>, UserView>,
    offers: Seq<(Seq<char>, UserView)>,
) -> Map<Seq<char>, UserView>
    decreases offers.len(),
{
    if offers.len() == 0 {
        store
    } else {
        populated(populated_all(store, offers.drop_last()), offers.last().0, offers.last().1)
    }
}

/// A lookup that the store cannot answer, and for which the source has a
/// record, stores that record; the record that the store then holds is the one
/// that `populated` keeps.
pub proof fn law_miss_populates(
    store: Map<Seq<char>, UserView>,
    id: Seq<char>,
    answer: UserView,
)
    requires
        !store.contains_key(id),
    ensures
        read_through(store, id, Some(answer)) == (
            populated(store, id, answer),
            Some(LookupView::Cached(answer)),
        ),
        populated(store, id, answer).contains_key(id),
        populated(store, id, answer)[id] == answer,
{
}

/// Once a lookup has stored a record for an id, every later lookup of that id
/// hands back that record and leaves the store as it is, whatever was offered
/// in between and whatever the source would say by then: the source need not
/// be asked again.
pub proof fn law_hit_is_idempotent(
    store: Map<Seq<char>, UserView>,
    id: Seq<char>,
    first: UserView,
    between: Seq<(Seq<char>, UserView)>,
    later: Option<UserView>,
)
    requires
        !store.contains_key(id),
    ensures
        ({
            let (stored, result) = read_through(store, id, Some(first));
            let by_then = populated_all(stored, between);
            &&& result == Some(LookupView::Cached(first))
            &&& read_through(by_then, id, later) == (by_then, result)
        }),
{
    law_records_stay(store.insert(id, first), id, between);
}

/// Where the source reports absence for an id that the store does not hold,
/// the lookup reports absence, and the store is as it was: it still has no
/// record of the id.
pub proof fn law_miss_propagates(store: Map<Seq<char>, UserView>, id: Seq<char>)
    requires
        !store.contains_key(id),
    ensures
        read_through(store, id, None) == (store, None::<LookupView>),
        !read_through(store, id, None).0.contains_key(id),
{
}

/// A record that the store holds stays as it is, whatever is offered
/// afterwards, under its own id or under others.
pub proof fn law_records_stay(
    store: Map<Seq<char>, UserView>,
    id: Seq<char>,
    offers: Seq<(Seq<char>, UserView)>,
)
    requires
        store.contains_key(id),
    ensures
        populated_all(store, offers).contains_key(id),
        populated_all(store, offers)[id] == store[id],
    decreases offers.len(),
{
    if offers.len() > 0 {
        law_records_stay(store, id, offers.drop_last());
    }
}

/// An offer under one id leaves every other id as it was, and two offers under
/// different ids give the same store in either order.
pub proof fn law_keys_are_independent(
    store: Map<Seq<char>, UserView>,
    id: Seq<char>,
    user: UserView,
    other_id: Seq<char>,
    other_user: UserView,
)
    requires
        id != other_id,
    ensures
        populated(store, id, user).contains_key(other_id) == store.contains_key(other_id),
        store.contains_key(other_id) ==> populated(store, id, user)[other_id] == store[other_id],
        populated(populated(store, id, user), other_id, other_user) == populated(
            populated(store, other_id, other_user),
            id,
            user,
        ),
{
    assert(populated(populated(store, id, user), other_id, other_user) =~= populated(
        populated(store, other_id, other_user),
        id,
        user,
    ));
}

/// However many callers offer the same record for one id to an empty store,
/// and in whatever order, the store ends with exactly one record, that one,
/// under that id.
pub proof fn law_same_offers_settle(id: Seq<char>, user: UserView, offers: Seq<(Seq<char>, UserView)>)
    requires
        offers.len() >= 1,
        forall|i: int| 0 <= i < offers.len() ==> offers[i] == (id, user),
    ensures
        populated_all(Map::empty(), offers) == Map::<Seq<char>, UserView>::empty().insert(id, user),
        populated_all(Map::empty(), offers).len() == 1,
    decreases offers.len(),
{
    let empty = Map::<Seq<char>, UserView>::empty();
    let before = offers.drop_last();
    assert(offers.last() == (id, user));
    if before.len() == 0 {
        assert(populated_all(empty, before) == empty);
    } else {
        law_same_offers_settle(id, user, before);
    }
    assert(populated_all(empty, offers) =~= empty.insert(id, user));
    assert(empty.insert(id, user).dom() =~= set![id]);
}

/// A store stays faithful to its source when a record that the source may give
/// for an id is offered under that id.
pub proof fn law_population_is_faithful<R: UserRepository>(
    source: R,
    store: Map<Seq<char>, UserView>,
    id: Seq<char>,
    user: UserView,
)
    requires
        faithful(store, source),
        source.answers(id, Some(user)),
    ensures
        faithful(populated(store, id, user), source),
{
}

/// A store that is faithful to its source stays so through any run of offers,
/// each of a record that the source may give for the id it is offered under.
pub proof fn law_runs_are_faithful<R: UserRepository>(
    source: R,
    store: Map<Seq<char>, UserView>,
    offers: Seq<(Seq<char>, UserView)>,
)
    requires
        faithful(store, source),
        forall|i: int| 0 <= i < offers.len() ==> source.answers(offers[i].0, Some(offers[i].1)),
    ensures
        faithful(populated_all(store, offers), source),
    decreases offers.len(),
{
    if offers.len() > 0 {
        law_runs_are_faithful(source, store, offers.drop_last());
        law_population_is_faithful(
            source,
            populated_all(store, offers.drop_last()),
            offers.last().0,
            offers.last().1,
        );
    }
}

/// Where the source has one answer for an id, every search of the cache for
/// that id has one outcome: a cached copy of the record, or absence.
pub proof fn law_settled_source_settles_search<R: UserRepository>(
    source: R,
    id: Seq<char>,
    answer: Option<UserView>,
    result: Option<LookupView>,
)
    requires
        settled_on(source, id, answer),
        search_outcome(source, id, result),
    ensures
        result == match answer {
            Some(user) => Some(LookupView::Cached(user)),
            None => None,
        },
{
}

/// The fixed source has one answer for every id.
pub proof fn law_fixed_source_is_settled(id: Seq<char>)
    ensures
        settled_on(FixedUserRepository, id, fixed_answer(id)),
{
}

} // verus!
